//! Model for user information.

use vstd::prelude::*;

verus! {

/// A user enrolled in a course.
pub struct User {
    pub id: usize,
    pub name: Option<String>,
    pub created_at: Option<String>,
    pub sortable_name: Option<String>,
    pub short_name: Option<String>,
    pub sis_user_id: Option<String>,
    pub integration_id: Option<String>,
    pub login_id: Option<String>,
    pub email: Option<String>,
    pub avatar_url: Option<String>,
}

/// The abbreviated user record some endpoints return.
pub struct UserDisplay {
    pub id: usize,
    pub short_name: Option<String>,
    pub avatar_image_url: Option<String>,
    pub html_url: Option<String>,
}

} // verus!
