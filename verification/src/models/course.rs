//! Model for managing course information.

use vstd::prelude::*;
use vstd::string::StringExecFns;

use crate::digits::spec_dec_digits;
use crate::digits::usize_to_string;
use crate::error::ApiError;
use crate::models::assignment::Assignment;
use crate::models::assignment::AssignmentGroup;
use crate::models::file::File;
use crate::models::user::User;
use crate::parameters::EnrollmentType;
use crate::parameters::RequestParameter;
use crate::parameters::spec_param_view;
use crate::requests::GetObjectRequest;
use crate::requests::GetPagedObjectRequest;

verus! {

/// A course.
pub struct Course {
    pub id: usize,
    pub sis_course_id: Option<String>,
    pub uuid: Option<String>,
    pub integration_id: Option<usize>,
    pub sis_import_id: Option<usize>,
    pub name: Option<String>,
    pub course_code: Option<String>,
    pub workflow_state: Option<String>,
    pub account_id: Option<usize>,
    pub root_account_id: Option<usize>,
    pub enrollment_term_id: Option<usize>,
    pub grading_standard_id: Option<usize>,
    pub grade_passback_setting: Option<String>,
    pub created_at: Option<String>,
    pub start_at: Option<String>,
    pub end_at: Option<String>,
    pub locale: Option<String>,
    pub total_students: Option<usize>,
    pub default_view: Option<String>,
    pub syllabus_body: Option<String>,
    pub needs_grading_count: Option<usize>,
    pub apply_assignment_group_weights: Option<bool>,
    pub permissions: Option<Vec<String>>,
    pub is_public: Option<bool>,
    pub is_public_to_auth_users: Option<bool>,
    pub public_syllabus: Option<bool>,
    pub public_syllabus_to_auth: Option<bool>,
    pub public_description: Option<String>,
    pub storage_quota_mb: Option<usize>,
    pub storage_quota_used_mb: Option<usize>,
    pub hide_final_grades: Option<bool>,
    pub license: Option<String>,
    pub allow_student_assignment_edits: Option<bool>,
    pub allow_wiki_comments: Option<bool>,
    pub allow_student_forum_attachments: Option<bool>,
    pub open_enrollment: Option<bool>,
    pub self_enrollment: Option<bool>,
    pub restrict_enrollments_to_course_dates: Option<bool>,
    pub course_format: Option<String>,
    pub access_restricted_by_date: Option<bool>,
    pub time_zone: Option<String>,
    pub blueprint: Option<bool>,
}

impl Course {
    /// A path of the shape `courses/{id}{suffix}` for this course.
    fn course_path(&self, suffix: &str) -> (r: String)
        ensures
            r@ == "courses/"@ + spec_dec_digits(self.id as nat) + suffix@,
    {
        let mut url = String::from_str("courses/");
        url.append(usize_to_string(self.id).as_str());
        url.append(suffix);
        url
    }

    /// Get all courses from the current user.
    pub fn courses() -> (r: Result<GetPagedObjectRequest<Course>, ApiError>)
        ensures
            r matches Ok(req) && req.spec_url() == "courses"@ && req.spec_parameters()
                == Seq::<RequestParameter>::empty(),
    {
        Ok(GetPagedObjectRequest::new(String::from_str("courses")))
    }

    /// Get all outcome links for this course's context.
    pub fn get_all_outcome_links_in_context(&self) -> (r: Result<
        GetPagedObjectRequest<String>,
        ApiError,
    >)
        ensures
            r matches Ok(req) && req.spec_url() == "courses/"@ + spec_dec_digits(self.id as nat)
                + "/outcome_group_links"@ && req.spec_parameters()
                == Seq::<RequestParameter>::empty(),
    {
        Ok(GetPagedObjectRequest::new(self.course_path("/outcome_group_links")))
    }

    /// Return the assignment with the given id.
    pub fn get_assignment(&self, assignment_id: usize) -> (r: Result<
        GetObjectRequest<Assignment>,
        ApiError,
    >)
        ensures
            r matches Ok(req) && req.spec_url() == "courses/"@ + spec_dec_digits(self.id as nat)
                + "/assignments/"@ + spec_dec_digits(assignment_id as nat) && req.spec_parameters()
                == Seq::<RequestParameter>::empty(),
    {
        let mut url = self.course_path("/assignments/");
        url.append(usize_to_string(assignment_id).as_str());
        Ok(GetObjectRequest::new(url))
    }

    /// Retrieve the specified assignment group for this course.
    pub fn get_assignment_group(&self, assignment_group_id: usize) -> (r: Result<
        GetObjectRequest<AssignmentGroup>,
        ApiError,
    >)
        ensures
            r matches Ok(req) && req.spec_url() == "courses/"@ + spec_dec_digits(self.id as nat)
                + "/assignment_groups/"@ + spec_dec_digits(assignment_group_id as nat)
                && req.spec_parameters() == Seq::<RequestParameter>::empty(),
    {
        let mut url = self.course_path("/assignment_groups/");
        url.append(usize_to_string(assignment_group_id).as_str());
        Ok(GetObjectRequest::new(url))
    }

    /// List assignment groups for this course.
    pub fn get_assignment_groups(&self) -> (r: Result<
        GetPagedObjectRequest<AssignmentGroup>,
        ApiError,
    >)
        ensures
            r matches Ok(req) && req.spec_url() == "course/"@ + spec_dec_digits(self.id as nat)
                + "/assignment_groups"@ && req.spec_parameters()
                == Seq::<RequestParameter>::empty(),
    {
        let mut url = String::from_str("course/");
        url.append(usize_to_string(self.id).as_str());
        url.append("/assignment_groups");
        Ok(GetPagedObjectRequest::new(url))
    }

    /// Get all the assignments of this course.
    pub fn get_assignments(&self) -> (r: Result<GetPagedObjectRequest<Assignment>, ApiError>)
        ensures
            r matches Ok(req) && req.spec_url() == "courses/"@ + spec_dec_digits(self.id as nat)
                + "/assignments"@ && req.spec_parameters() == Seq::<RequestParameter>::empty(),
    {
        Ok(GetPagedObjectRequest::new(self.course_path("/assignments")))
    }

    /// Returns a list of assignments for the given assignment group.
    pub fn get_assignments_for_group(&self, assignment_group_id: usize) -> (r: Result<
        GetPagedObjectRequest<Assignment>,
        ApiError,
    >)
        ensures
            r matches Ok(req) && req.spec_url() == "courses/"@ + spec_dec_digits(self.id as nat)
                + "/assignment_groups/"@ + spec_dec_digits(assignment_group_id as nat)
                + "/assignments"@ && req.spec_parameters() == Seq::<RequestParameter>::empty(),
    {
        let mut url = self.course_path("/assignment_groups/");
        url.append(usize_to_string(assignment_group_id).as_str());
        url.append("/assignments");
        Ok(GetPagedObjectRequest::new(url))
    }

    /// Get all the users from the course: teachers, students, teacher
    /// assistants and the rest.
    pub fn get_users(&self) -> (r: Result<GetPagedObjectRequest<User>, ApiError>)
        ensures
            r matches Ok(req) && req.spec_url() == "courses/"@ + spec_dec_digits(self.id as nat)
                + "/search_users"@ && req.spec_parameters() == Seq::<RequestParameter>::empty(),
    {
        Ok(GetPagedObjectRequest::new(self.course_path("/search_users")))
    }

    /// Get only the students from the course: the user search narrowed by
    /// a student enrollment-type parameter.
    pub fn get_students(&self) -> (r: Result<GetPagedObjectRequest<User>, ApiError>)
        ensures
            r matches Ok(req) && req.spec_url() == "courses/"@ + spec_dec_digits(self.id as nat)
                + "/search_users"@ && req.spec_parameters().len() == 1 && spec_param_view(
                req.spec_parameters()[0],
            ) == ("enrollment_type[]"@, "student"@),
    {
        Ok(
            GetPagedObjectRequest::new(self.course_path("/search_users")).add_parameter(
                EnrollmentType::Student.as_parameter(),
            ),
        )
    }

    /// Get all the files of this course.
    pub fn get_files(&self) -> (r: Result<GetPagedObjectRequest<File>, ApiError>)
        ensures
            r matches Ok(req) && req.spec_url() == "courses/"@ + spec_dec_digits(self.id as nat)
                + "/files"@ && req.spec_parameters() == Seq::<RequestParameter>::empty(),
    {
        Ok(GetPagedObjectRequest::new(self.course_path("/files")))
    }
}

} // verus!
