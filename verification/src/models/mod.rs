//! Models representing data structures from the Canvas API, with the
//! endpoint declarations that build requests for them.

pub mod assignment;
pub mod canvas;
pub mod course;
pub mod file;
pub mod outcome;
pub mod quiz;
pub mod submission;
pub mod todo;
pub mod user;
