//! Model for the items on the user's todo list.

use vstd::prelude::*;

use crate::models::assignment::Assignment;
use crate::models::quiz::Quiz;

verus! {

/// One entry of the user's todo list.
pub struct Todo {
    pub type_field: Option<String>,
    pub assignment: Option<Assignment>,
    pub quiz: Option<Quiz>,
    pub ignore: serde_json::Value,
    pub ignore_permanently: Option<String>,
    pub html_url: Option<String>,
    pub needs_grading_count: Option<i64>,
    pub context_type: Option<String>,
    pub course_id: Option<i64>,
    pub group_id: Option<usize>,
}

} // verus!
