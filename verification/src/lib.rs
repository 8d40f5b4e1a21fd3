//! A typed client binding for the Canvas LMS REST API.
//!
//! The library maps GET endpoints to typed request builders, serializes
//! query parameters, follows pagination links, and decides each step of a
//! paged fetch; the surrounding application performs the HTTP round trips
//! and hands the responses back as plain values.

pub mod canvas;
pub mod digits;
pub mod error;
pub mod json;
pub mod link;
pub mod models;
pub mod paging;
pub mod parameters;
pub mod prelude;
pub mod query;
pub mod requests;
pub mod text;
