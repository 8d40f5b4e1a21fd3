//! Models for accessing information about assignments.

use vstd::prelude::*;
use vstd::string::StringExecFns;

use crate::digits::spec_dec_digits;
use crate::digits::usize_to_string;
use crate::error::ApiError;
use crate::models::quiz::AllDates;
use crate::models::quiz::LockInfo;
use crate::models::submission::Submission;
use crate::models::user::UserDisplay;
use crate::parameters::RequestParameter;
use crate::requests::GetObjectRequest;
use crate::requests::GetPagedObjectRequest;

verus! {

/// An assignment of a course.
///
/// The API reports `points_possible` as a JSON number; this layer does no
/// arithmetic on it and carries it as its decimal text.
pub struct Assignment {
    pub id: Option<usize>,
    pub name: Option<String>,
    pub description: Option<String>,
    pub created_at: Option<String>,
    pub updated_at: Option<String>,
    pub due_at: Option<String>,
    pub lock_at: Option<String>,
    pub unlock_at: Option<String>,
    pub has_overrides: Option<bool>,
    pub all_dates: Option<Vec<AllDates>>,
    pub course_id: Option<usize>,
    pub html_url: Option<String>,
    pub submission_download_url: Option<String>,
    pub assignment_group_id: Option<usize>,
    pub due_date_required: Option<bool>,
    pub allowed_extensions: Option<Vec<String>>,
    pub max_name_length: Option<usize>,
    pub turnitin_enabled: Option<bool>,
    pub vericite_enabled: Option<bool>,
    pub grade_group_studens_individually: Option<bool>,
    pub peer_reviews: Option<bool>,
    pub automatic_peer_reviews: Option<bool>,
    pub peer_review_count: Option<usize>,
    pub peer_reviews_assign_at: Option<String>,
    pub intra_group_peer_review: Option<bool>,
    pub group_category_id: Option<usize>,
    pub needs_grading_count: Option<usize>,
    pub position: Option<usize>,
    pub post_to_sis: Option<bool>,
    pub integration_id: Option<String>,
    pub points_possible: Option<String>,
    pub submission_types: Option<Vec<String>>,
    pub has_submitted_submissions: Option<bool>,
    pub grading_type: Option<String>,
    pub rading_standard_id: Option<String>,
    pub published: Option<bool>,
    pub unpublishable: Option<bool>,
    pub only_visible_to_overrides: Option<bool>,
    pub locked_for_user: Option<bool>,
    pub lock_info: Option<LockInfo>,
    pub lock_explanation: Option<String>,
    pub quiz_id: Option<usize>,
    pub anonymous_submissions: Option<bool>,
    pub freeze_on_copy: Option<bool>,
    pub frozen: Option<bool>,
    pub frozen_attributes: Option<Vec<String>>,
    pub use_rubric_for_grading: Option<bool>,
    pub assignment_visibility: Option<Vec<usize>>,
    pub omit_from_final_grade: Option<bool>,
    pub moderated_grading: Option<bool>,
    pub grader_count: Option<usize>,
    pub final_grader_id: Option<usize>,
    pub grader_comments_visible_to_graders: Option<bool>,
    pub graders_anonymous_to_grader: Option<bool>,
    pub grader_names_visible_to_final_grader: Option<bool>,
    pub anonymous_grading: Option<bool>,
    pub allowed_attemts: Option<usize>,
    pub post_manually: Option<bool>,
}

impl Assignment {
    /// The `courses/{course_id}/assignments/{id}` prefix shared by this
    /// assignment's endpoints.
    pub open spec fn spec_base_path(&self) -> Seq<char> {
        "courses/"@ + spec_dec_digits(self.course_id->0 as nat) + "/assignments/"@
            + spec_dec_digits(self.id->0 as nat)
    }

    /// The two identity fields these endpoints need, or the first that is
    /// missing: `course_id` is checked before `id`.
    fn identity(&self) -> (r: Result<(usize, usize), ApiError>)
        ensures
            self.course_id is None ==> (r matches Err(ApiError::MissingField(f)) && f@
                == "course_id"@),
            self.course_id is Some && self.id is None ==> (r matches Err(
                ApiError::MissingField(f),
            ) && f@ == "id"@),
            self.course_id is Some && self.id is Some ==> r == Ok::<_, ApiError>(
                (self.course_id->0, self.id->0),
            ),
    {
        let course_id = match self.course_id {
            Some(c) => c,
            None => {
                return Err(ApiError::MissingField(String::from_str("course_id")));
            },
        };
        let id = match self.id {
            Some(i) => i,
            None => {
                return Err(ApiError::MissingField(String::from_str("id")));
            },
        };
        Ok((course_id, id))
    }

    /// The `courses/{course_id}/assignments/{id}` path itself.
    fn base_path(&self) -> (r: Result<String, ApiError>)
        ensures
            self.course_id is None ==> (r matches Err(ApiError::MissingField(f)) && f@
                == "course_id"@),
            self.course_id is Some && self.id is None ==> (r matches Err(
                ApiError::MissingField(f),
            ) && f@ == "id"@),
            self.course_id is Some && self.id is Some ==> (r matches Ok(u) && u@
                == self.spec_base_path()),
    {
        let (course_id, id) = match self.identity() {
            Ok(pair) => pair,
            Err(e) => {
                return Err(e);
            },
        };
        let mut url = String::from_str("courses/");
        url.append(usize_to_string(course_id).as_str());
        url.append("/assignments/");
        url.append(usize_to_string(id).as_str());
        Ok(url)
    }

    /// List students eligible to submit this assignment.
    pub fn get_gradeable_students(&self) -> (r: Result<
        GetPagedObjectRequest<UserDisplay>,
        ApiError,
    >)
        ensures
            self.course_id is None ==> (r matches Err(ApiError::MissingField(f)) && f@
                == "course_id"@),
            self.course_id is Some && self.id is None ==> (r matches Err(
                ApiError::MissingField(f),
            ) && f@ == "id"@),
            self.course_id is Some && self.id is Some ==> (r matches Ok(req) && req.spec_url()
                == self.spec_base_path() + "/gradeable_students"@ && req.spec_parameters()
                == Seq::<RequestParameter>::empty()),
    {
        let mut url = match self.base_path() {
            Ok(u) => u,
            Err(e) => {
                return Err(e);
            },
        };
        url.append("/gradeable_students");
        Ok(GetPagedObjectRequest::new(url))
    }

    /// Get a single submission, based on user id.
    pub fn get_submission(&self, user_id: usize) -> (r: Result<
        GetObjectRequest<Submission>,
        ApiError,
    >)
        ensures
            self.course_id is None ==> (r matches Err(ApiError::MissingField(f)) && f@
                == "course_id"@),
            self.course_id is Some && self.id is None ==> (r matches Err(
                ApiError::MissingField(f),
            ) && f@ == "id"@),
            self.course_id is Some && self.id is Some ==> (r matches Ok(req) && req.spec_url()
                == self.spec_base_path() + "/submissions/"@ + spec_dec_digits(user_id as nat)
                && req.spec_parameters() == Seq::<RequestParameter>::empty()),
    {
        let mut url = match self.base_path() {
            Ok(u) => u,
            Err(e) => {
                return Err(e);
            },
        };
        url.append("/submissions/");
        url.append(usize_to_string(user_id).as_str());
        Ok(GetObjectRequest::new(url))
    }

    /// Get all existing submissions for this assignment.
    pub fn get_submissions(&self) -> (r: Result<GetPagedObjectRequest<Submission>, ApiError>)
        ensures
            self.course_id is None ==> (r matches Err(ApiError::MissingField(f)) && f@
                == "course_id"@),
            self.course_id is Some && self.id is None ==> (r matches Err(
                ApiError::MissingField(f),
            ) && f@ == "id"@),
            self.course_id is Some && self.id is Some ==> (r matches Ok(req) && req.spec_url()
                == self.spec_base_path() + "/submissions"@ && req.spec_parameters()
                == Seq::<RequestParameter>::empty()),
    {
        let mut url = match self.base_path() {
            Ok(u) => u,
            Err(e) => {
                return Err(e);
            },
        };
        url.append("/submissions");
        Ok(GetPagedObjectRequest::new(url))
    }
}

/// A group of assignments sharing a weight in the final grade.
pub struct AssignmentGroup {
    pub id: usize,
    pub name: Option<String>,
    pub position: Option<usize>,
    pub group_weight: Option<usize>,
    pub sis_source_id: Option<String>,
    pub assignments: Option<Vec<usize>>,
}

} // verus!
