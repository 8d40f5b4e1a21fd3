//! The commonly used items, re-exported under one roof.

pub use crate::canvas::CanvasInformation;
pub use crate::error::ApiError;
pub use crate::models::assignment::Assignment;
pub use crate::models::assignment::AssignmentGroup;
pub use crate::models::canvas::Canvas;
pub use crate::models::course::Course;
pub use crate::models::file::File;
pub use crate::models::outcome::Outcome;
pub use crate::models::quiz::AllDates;
pub use crate::models::quiz::LockInfo;
pub use crate::models::quiz::Quiz;
pub use crate::models::submission::Submission;
pub use crate::models::todo::Todo;
pub use crate::models::user::User;
pub use crate::models::user::UserDisplay;
pub use crate::paging::PagedFetch;
pub use crate::parameters::EnrollmentState;
pub use crate::parameters::EnrollmentType;
pub use crate::parameters::Include;
pub use crate::parameters::RequestParameter;
pub use crate::parameters::SortOn;
pub use crate::parameters::UserId;
pub use crate::requests::GetObjectRequest;
pub use crate::requests::GetObjectRequestMap;
pub use crate::requests::GetObjectResponse;
pub use crate::requests::GetPagedObjectRequest;
