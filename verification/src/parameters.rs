//! Parameters that can be passed with a request.
//!
//! A parameter converts unconditionally to a name/value pair appended to
//! the request's query string. No validation is performed here: matching
//! the values the external API accepts is the caller's burden. Which
//! parameters a request understands is settled by the official Canvas LMS
//! API documentation.

use vstd::prelude::*;
use vstd::string::StringExecFns;

verus! {

/// Parameter that can be added to a request.
pub struct RequestParameter {
    pub name: String,
    pub value: String,
}

/// The name/value pair of a parameter, as sequences of characters.
pub open spec fn spec_param_view(p: RequestParameter) -> (Seq<char>, Seq<char>) {
    (p.name@, p.value@)
}

/// If this parameter is given and it corresponds to a user in the course,
/// the page parameter will be ignored and the page containing the
/// specified user will be returned instead.
pub struct UserId<'i>(pub &'i str);

impl<'i> UserId<'i> {
    /// The pair this parameter serializes to.
    pub open spec fn spec_pair(self) -> (Seq<char>, Seq<char>) {
        ("user_id"@, self.0@)
    }

    /// Convert to a request parameter.
    pub fn as_parameter(self) -> (r: RequestParameter)
        ensures
            spec_param_view(r) == self.spec_pair(),
    {
        RequestParameter { name: String::from_str("user_id"), value: self.0.to_owned() }
    }
}

/// Parameter to specify the enrollment type of a user.
pub enum EnrollmentType {
    Teacher,
    Student,
    StudentView,
    TA,
    Observer,
    Designer,
}

impl EnrollmentType {
    /// The pair this parameter serializes to.
    pub open spec fn spec_pair(self) -> (Seq<char>, Seq<char>) {
        (
            "enrollment_type[]"@,
            match self {
                EnrollmentType::Teacher => "teacher"@,
                EnrollmentType::Student => "student"@,
                EnrollmentType::StudentView => "student_view"@,
                EnrollmentType::TA => "ta"@,
                EnrollmentType::Observer => "observer"@,
                EnrollmentType::Designer => "designer"@,
            },
        )
    }

    /// Convert to a request parameter.
    pub fn as_parameter(self) -> (r: RequestParameter)
        ensures
            spec_param_view(r) == self.spec_pair(),
    {
        let value = match self {
            EnrollmentType::Teacher => String::from_str("teacher"),
            EnrollmentType::Student => String::from_str("student"),
            EnrollmentType::StudentView => String::from_str("student_view"),
            EnrollmentType::TA => String::from_str("ta"),
            EnrollmentType::Observer => String::from_str("observer"),
            EnrollmentType::Designer => String::from_str("designer"),
        };
        RequestParameter { name: String::from_str("enrollment_type[]"), value }
    }
}

/// Parameter to specify on which field the output is sorted.
pub enum SortOn {
    Username,
    LastLogin,
    Email,
    SisId,
}

impl SortOn {
    /// The pair this parameter serializes to.
    pub open spec fn spec_pair(self) -> (Seq<char>, Seq<char>) {
        (
            "sort"@,
            match self {
                SortOn::Username => "username"@,
                SortOn::LastLogin => "last_login"@,
                SortOn::Email => "email"@,
                SortOn::SisId => "sis_id"@,
            },
        )
    }

    /// Convert to a request parameter.
    pub fn as_parameter(self) -> (r: RequestParameter)
        ensures
            spec_param_view(r) == self.spec_pair(),
    {
        let value = match self {
            SortOn::Username => String::from_str("username"),
            SortOn::LastLogin => String::from_str("last_login"),
            SortOn::Email => String::from_str("email"),
            SortOn::SisId => String::from_str("sis_id"),
        };
        RequestParameter { name: String::from_str("sort"), value }
    }
}

/// Parameter to filter users on the state of their enrollment.
pub enum EnrollmentState {
    Active,
    Invited,
    Rejected,
    Completed,
    Inactive,
    InvitedOrPending,
}

impl EnrollmentState {
    /// The pair this parameter serializes to.
    pub open spec fn spec_pair(self) -> (Seq<char>, Seq<char>) {
        (
            "enrollment_state[]"@,
            match self {
                EnrollmentState::Active => "active"@,
                EnrollmentState::Invited => "invited"@,
                EnrollmentState::Rejected => "rejected"@,
                EnrollmentState::Completed => "completed"@,
                EnrollmentState::Inactive => "inactive"@,
                EnrollmentState::InvitedOrPending => "invited_or_pending"@,
            },
        )
    }

    /// Convert to a request parameter.
    pub fn as_parameter(self) -> (r: RequestParameter)
        ensures
            spec_param_view(r) == self.spec_pair(),
    {
        let value = match self {
            EnrollmentState::Active => String::from_str("active"),
            EnrollmentState::Invited => String::from_str("invited"),
            EnrollmentState::Rejected => String::from_str("rejected"),
            EnrollmentState::Completed => String::from_str("completed"),
            EnrollmentState::Inactive => String::from_str("inactive"),
            EnrollmentState::InvitedOrPending => String::from_str("invited_or_pending"),
        };
        RequestParameter { name: String::from_str("enrollment_state[]"), value }
    }
}

/// Parameter asking the API to include extra information in its answer.
pub enum Include {
    Enrollments,
    Locked,
    AvatarUrl,
    TestStudent,
    Bio,
    CustomLinks,
    CurrentGradingPeriodScores,
    Uuid,
    NeedsGradingCount,
    SyllabusBody,
    PublicDescription,
    TotalScores,
    /// The information for the enrollment term for each course is returned.
    Term,
    Account,
    CourseProgress,
    Sections,
    StorageQuotaUsedMb,
    TotalStudents,
    PassbackStatus,
    Favorites,
    Teachers,
    ObservedUsers,
    CourseImage,
    Concluded,
}

impl Include {
    /// The pair this parameter serializes to.
    pub open spec fn spec_pair(self) -> (Seq<char>, Seq<char>) {
        (
            "include[]"@,
            match self {
                Include::Enrollments => "enrollments"@,
                Include::Locked => "locked"@,
                Include::AvatarUrl => "avatar_url"@,
                Include::TestStudent => "test_student"@,
                Include::Bio => "bio"@,
                Include::CustomLinks => "custom_links"@,
                Include::CurrentGradingPeriodScores => "current_grading_period_scores"@,
                Include::Uuid => "uuid"@,
                Include::NeedsGradingCount => "needs_grading_count"@,
                Include::SyllabusBody => "syllabus_body"@,
                Include::PublicDescription => "public_description"@,
                Include::TotalScores => "total_scores"@,
                Include::Term => "term"@,
                Include::Account => "account"@,
                Include::CourseProgress => "course_progress"@,
                Include::Sections => "sections"@,
                Include::StorageQuotaUsedMb => "storage_quota_used_mb"@,
                Include::TotalStudents => "total_students"@,
                Include::PassbackStatus => "passback_status"@,
                Include::Favorites => "favorites"@,
                Include::Teachers => "teachers"@,
                Include::ObservedUsers => "observed_users"@,
                Include::CourseImage => "course_image"@,
                Include::Concluded => "concluded"@,
            },
        )
    }

    /// Convert to a request parameter.
    pub fn as_parameter(self) -> (r: RequestParameter)
        ensures
            spec_param_view(r) == self.spec_pair(),
    {
        let value = match self {
            Include::Enrollments => String::from_str("enrollments"),
            Include::Locked => String::from_str("locked"),
            Include::AvatarUrl => String::from_str("avatar_url"),
            Include::TestStudent => String::from_str("test_student"),
            Include::Bio => String::from_str("bio"),
            Include::CustomLinks => String::from_str("custom_links"),
            Include::CurrentGradingPeriodScores => String::from_str(
                "current_grading_period_scores",
            ),
            Include::Uuid => String::from_str("uuid"),
            Include::NeedsGradingCount => String::from_str("needs_grading_count"),
            Include::SyllabusBody => String::from_str("syllabus_body"),
            Include::PublicDescription => String::from_str("public_description"),
            Include::TotalScores => String::from_str("total_scores"),
            Include::Term => String::from_str("term"),
            Include::Account => String::from_str("account"),
            Include::CourseProgress => String::from_str("course_progress"),
            Include::Sections => String::from_str("sections"),
            Include::StorageQuotaUsedMb => String::from_str("storage_quota_used_mb"),
            Include::TotalStudents => String::from_str("total_students"),
            Include::PassbackStatus => String::from_str("passback_status"),
            Include::Favorites => String::from_str("favorites"),
            Include::Teachers => String::from_str("teachers"),
            Include::ObservedUsers => String::from_str("observed_users"),
            Include::CourseImage => String::from_str("course_image"),
            Include::Concluded => String::from_str("concluded"),
        };
        RequestParameter { name: String::from_str("include[]"), value }
    }
}

} // verus!
