use canvasapi::canvas::CanvasInformation;
use canvasapi::error::ApiError;
use canvasapi::models::assignment::Assignment;
use canvasapi::models::canvas::Canvas;
use canvasapi::models::course::Course;
use canvasapi::models::file::File;
use canvasapi::parameters::EnrollmentType;
use canvasapi::query::append_query_string;
use canvasapi::parameters::RequestParameter;

fn course_with_id(id: usize) -> Course {
    Course {
        id,
        sis_course_id: None,
        uuid: None,
        integration_id: None,
        sis_import_id: None,
        name: None,
        course_code: None,
        workflow_state: None,
        account_id: None,
        root_account_id: None,
        enrollment_term_id: None,
        grading_standard_id: None,
        grade_passback_setting: None,
        created_at: None,
        start_at: None,
        end_at: None,
        locale: None,
        total_students: None,
        default_view: None,
        syllabus_body: None,
        needs_grading_count: None,
        apply_assignment_group_weights: None,
        permissions: None,
        is_public: None,
        is_public_to_auth_users: None,
        public_syllabus: None,
        public_syllabus_to_auth: None,
        public_description: None,
        storage_quota_mb: None,
        storage_quota_used_mb: None,
        hide_final_grades: None,
        license: None,
        allow_student_assignment_edits: None,
        allow_wiki_comments: None,
        allow_student_forum_attachments: None,
        open_enrollment: None,
        self_enrollment: None,
        restrict_enrollments_to_course_dates: None,
        course_format: None,
        access_restricted_by_date: None,
        time_zone: None,
        blueprint: None,
    }
}

fn assignment_with(course_id: Option<usize>, id: Option<usize>) -> Assignment {
    Assignment {
        id,
        name: None,
        description: None,
        created_at: None,
        updated_at: None,
        due_at: None,
        lock_at: None,
        unlock_at: None,
        has_overrides: None,
        all_dates: None,
        course_id,
        html_url: None,
        submission_download_url: None,
        assignment_group_id: None,
        due_date_required: None,
        allowed_extensions: None,
        max_name_length: None,
        turnitin_enabled: None,
        vericite_enabled: None,
        grade_group_studens_individually: None,
        peer_reviews: None,
        automatic_peer_reviews: None,
        peer_review_count: None,
        peer_reviews_assign_at: None,
        intra_group_peer_review: None,
        group_category_id: None,
        needs_grading_count: None,
        position: None,
        post_to_sis: None,
        integration_id: None,
        points_possible: None,
        submission_types: None,
        has_submitted_submissions: None,
        grading_type: None,
        rading_standard_id: None,
        published: None,
        unpublishable: None,
        only_visible_to_overrides: None,
        locked_for_user: None,
        lock_info: None,
        lock_explanation: None,
        quiz_id: None,
        anonymous_submissions: None,
        freeze_on_copy: None,
        frozen: None,
        frozen_attributes: None,
        use_rubric_for_grading: None,
        assignment_visibility: None,
        omit_from_final_grade: None,
        moderated_grading: None,
        grader_count: None,
        final_grader_id: None,
        grader_comments_visible_to_graders: None,
        graders_anonymous_to_grader: None,
        grader_names_visible_to_final_grader: None,
        anonymous_grading: None,
        allowed_attemts: None,
        post_manually: None,
    }
}

fn file_with(url: Option<String>, filename: Option<String>) -> File {
    File {
        id: 1,
        uuid: None,
        folder_id: None,
        display_name: None,
        filename,
        content_type: None,
        url,
        size: None,
        created_at: None,
        updated_at: None,
        unlock_at: None,
        locked: None,
        hidden: None,
        thumbnail_url: None,
        modified_at: None,
        mime_class: None,
        media_entry_id: None,
        locked_for_user: None,
        lock_info: None,
        lock_explanation: None,
        preview_url: None,
    }
}

#[test]
fn single_fetch_builds_prefixed_url_and_bearer_header() {
    let canvas = CanvasInformation::new("https://canvas.test", "T");
    let request = Canvas::get_course(42).unwrap();
    assert_eq!(request.request_url(&canvas), "https://canvas.test/api/v1/courses/42");
    assert_eq!(canvas.auth_header_value(), "Bearer T");
    assert_eq!(canvas.get_token(), "T");
    assert_eq!(canvas.add_url_prefix("courses/42"), "https://canvas.test/api/v1/courses/42");
}

#[test]
fn single_request_serializes_added_parameters() {
    let canvas = CanvasInformation::new("https://canvas.test", "T");
    let request = Canvas::get_course(42).unwrap().add_parameter(RequestParameter {
        name: "include[]".to_string(),
        value: "term".to_string(),
    });
    assert_eq!(
        request.request_url(&canvas),
        "https://canvas.test/api/v1/courses/42?include[]=term"
    );

    let request = Canvas::conversations_unread_count()
        .unwrap()
        .add_parameter(RequestParameter { name: "a".to_string(), value: "1".to_string() })
        .add_parameter(RequestParameter { name: "b".to_string(), value: "2".to_string() });
    assert_eq!(
        request.request_url(&canvas),
        "https://canvas.test/api/v1/conversations/unread_count?a=1&b=2"
    );
}

#[test]
fn paged_fetch_first_url_carries_parameters() {
    let canvas = CanvasInformation::new("https://canvas.test", "T");
    let course = course_with_id(1);
    let request = course
        .get_assignments()
        .unwrap()
        .add_parameter(RequestParameter {
            name: "enrollment_type[]".to_string(),
            value: "student".to_string(),
        });
    assert_eq!(
        request.initial_url(&canvas),
        "https://canvas.test/api/v1/courses/1/assignments?enrollment_type[]=student"
    );
}

#[test]
fn query_string_joins_fragments_in_insertion_order() {
    let params = vec![
        RequestParameter { name: "a".to_string(), value: "1".to_string() },
        RequestParameter { name: "a".to_string(), value: "2".to_string() },
        RequestParameter { name: "b".to_string(), value: "3".to_string() },
    ];
    assert_eq!(append_query_string("base".to_string(), &params), "base?a=1&a=2&b=3");
}

#[test]
fn query_string_empty_for_no_parameters() {
    let params: Vec<RequestParameter> = vec![];
    assert_eq!(append_query_string("base".to_string(), &params), "base");
    let canvas = CanvasInformation::new("https://canvas.test", "T");
    let course = course_with_id(7);
    assert_eq!(
        course.get_files().unwrap().initial_url(&canvas),
        "https://canvas.test/api/v1/courses/7/files"
    );
}

#[test]
fn students_endpoint_attaches_default_parameter() {
    let canvas = CanvasInformation::new("https://canvas.test", "T");
    let course = course_with_id(13369);
    let request = course.get_students().unwrap();
    assert_eq!(
        request.initial_url(&canvas),
        "https://canvas.test/api/v1/courses/13369/search_users?enrollment_type[]=student"
    );
}

#[test]
fn users_endpoint_takes_an_added_enrollment_parameter() {
    let canvas = CanvasInformation::new("https://canvas.test", "T");
    let course = course_with_id(13369);
    let request = course
        .get_users()
        .unwrap()
        .add_parameter(EnrollmentType::Student.as_parameter());
    assert_eq!(
        request.initial_url(&canvas),
        "https://canvas.test/api/v1/courses/13369/search_users?enrollment_type[]=student"
    );
}

#[test]
fn assignment_group_list_uses_singular_course_segment() {
    let canvas = CanvasInformation::new("https://canvas.test", "T");
    let course = course_with_id(5);
    let request = course.get_assignment_groups().unwrap();
    assert_eq!(
        request.initial_url(&canvas),
        "https://canvas.test/api/v1/course/5/assignment_groups"
    );
}

#[test]
fn assignment_endpoints_interpolate_both_ids() {
    let canvas = CanvasInformation::new("https://canvas.test", "T");
    let course = course_with_id(3);
    assert_eq!(
        course.get_assignment(9).unwrap().request_url(&canvas),
        "https://canvas.test/api/v1/courses/3/assignments/9"
    );
    assert_eq!(
        course.get_assignments_for_group(4).unwrap().initial_url(&canvas),
        "https://canvas.test/api/v1/courses/3/assignment_groups/4/assignments"
    );
    let assignment = assignment_with(Some(3), Some(9));
    assert_eq!(
        assignment.get_submission(12).unwrap().request_url(&canvas),
        "https://canvas.test/api/v1/courses/3/assignments/9/submissions/12"
    );
    assert_eq!(
        assignment.get_submissions().unwrap().initial_url(&canvas),
        "https://canvas.test/api/v1/courses/3/assignments/9/submissions"
    );
    assert_eq!(
        assignment.get_gradeable_students().unwrap().initial_url(&canvas),
        "https://canvas.test/api/v1/courses/3/assignments/9/gradeable_students"
    );
}

#[test]
fn assignment_without_identity_fails_before_any_call() {
    let missing_course = assignment_with(None, Some(9));
    let err = missing_course.get_submissions().err().unwrap();
    assert!(matches!(&err, ApiError::MissingField(f) if f == "course_id"));
    assert_eq!(err.message(), "Field `course_id` missing");

    let missing_id = assignment_with(Some(3), None);
    let err = missing_id.get_submissions().err().unwrap();
    assert!(matches!(&err, ApiError::MissingField(f) if f == "id"));
    assert_eq!(err.message(), "Field `id` missing");
}

#[test]
fn search_course_attaches_only_set_flags() {
    let request = Canvas::search_course("rust".to_string(), false, false).unwrap();
    let canvas = CanvasInformation::new("https://canvas.test", "T");
    assert_eq!(
        request.initial_url(&canvas),
        "https://canvas.test/api/v1/search/all_courses/?search=rust"
    );

    let request = Canvas::search_course("rust".to_string(), true, false).unwrap();
    assert_eq!(
        request.initial_url(&canvas),
        "https://canvas.test/api/v1/search/all_courses/?search=rust&public_only=true"
    );

    let request = Canvas::search_course("rust".to_string(), true, true).unwrap();
    assert_eq!(
        request.initial_url(&canvas),
        "https://canvas.test/api/v1/search/all_courses/?search=rust&public_only=true&open_enrollment_only=true"
    );

    let request = Canvas::search_course("rust".to_string(), false, true).unwrap();
    assert_eq!(
        request.initial_url(&canvas),
        "https://canvas.test/api/v1/search/all_courses/?search=rust&open_enrollment_only=true"
    );
}

#[test]
fn download_source_needs_url_and_name() {
    let complete = file_with(Some("https://files.test/1".to_string()), Some("a.pdf".to_string()));
    let (url, name) = complete.download_source().unwrap();
    assert_eq!(url, "https://files.test/1");
    assert_eq!(name, "a.pdf");

    let no_url = file_with(None, Some("a.pdf".to_string()));
    let err = no_url.download_source().err().unwrap();
    assert!(matches!(&err, ApiError::MissingField(f) if f == "url"));

    let no_name = file_with(Some("https://files.test/1".to_string()), None);
    let err = no_name.download_source().err().unwrap();
    assert!(matches!(&err, ApiError::MissingField(f) if f == "filename"));
}

#[test]
fn unread_count_endpoint_extracts_its_field() {
    let canvas = CanvasInformation::new("https://canvas.test", "T");
    let request = Canvas::conversations_unread_count().unwrap();
    assert_eq!(
        request.request_url(&canvas),
        "https://canvas.test/api/v1/conversations/unread_count"
    );

    let pairs = vec![("unread_count".to_string(), "7".to_string())];
    assert_eq!(request.extract(&pairs).unwrap(), 7);

    let other = vec![("unrelated".to_string(), "7".to_string())];
    let err = request.extract(&other).err().unwrap();
    assert!(matches!(&err, ApiError::MissingField(f) if f == "unread_count"));
    assert_eq!(err.message(), "Field `unread_count` missing");

    let bad = vec![("unread_count".to_string(), "seven".to_string())];
    let err = request.extract(&bad).err().unwrap();
    assert!(matches!(err, ApiError::ParseFailed));
    assert_eq!(err.message(), "Failed to parse output");
}

#[test]
fn todo_items_endpoint_uses_dashboard_path() {
    let canvas = CanvasInformation::new("https://canvas.test", "T");
    let request = Canvas::get_todo_items().unwrap();
    assert_eq!(
        request.initial_url(&canvas),
        "https://canvas.test/api/v1/users/self/todo"
    );
}

#[test]
fn outcome_links_endpoint_builds_context_path() {
    let canvas = CanvasInformation::new("https://canvas.test", "T");
    let course = course_with_id(2);
    assert_eq!(
        course.get_all_outcome_links_in_context().unwrap().initial_url(&canvas),
        "https://canvas.test/api/v1/courses/2/outcome_group_links"
    );
    assert_eq!(
        Course::courses().unwrap().initial_url(&canvas),
        "https://canvas.test/api/v1/courses"
    );
}
