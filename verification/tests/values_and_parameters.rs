use canvasapi::digits::parse_usize;
use canvasapi::requests::GetObjectResponse;
use canvasapi::digits::usize_to_string;
use canvasapi::parameters::EnrollmentState;
use canvasapi::parameters::EnrollmentType;
use canvasapi::parameters::Include;
use canvasapi::parameters::SortOn;
use canvasapi::parameters::UserId;

#[test]
fn decimal_rendering_matches_expected_text() {
    assert_eq!(usize_to_string(0), "0");
    assert_eq!(usize_to_string(7), "7");
    assert_eq!(usize_to_string(42), "42");
    assert_eq!(usize_to_string(13369), "13369");
    assert_eq!(usize_to_string(1000), "1000");
}

#[test]
fn decimal_parsing_accepts_what_from_str_accepts() {
    assert_eq!(parse_usize("0"), Some(0));
    assert_eq!(parse_usize("42"), Some(42));
    assert_eq!(parse_usize("+7"), Some(7));
    assert_eq!(parse_usize(""), None);
    assert_eq!(parse_usize("+"), None);
    assert_eq!(parse_usize("12x"), None);
    assert_eq!(parse_usize("-3"), None);
    assert_eq!(parse_usize(" 5"), None);
    assert_eq!(parse_usize("99999999999999999999999999"), None);
    assert_eq!(parse_usize("18446744073709551615"), Some(usize::MAX));
    assert_eq!(parse_usize("18446744073709551616"), None);
}

#[test]
fn rendering_then_parsing_returns_the_number() {
    for n in [0usize, 1, 9, 10, 99, 100, 4096, 13369] {
        let text = usize_to_string(n);
        assert_eq!(parse_usize(&text), Some(n));
        assert_eq!(text, n.to_string());
    }
}

#[test]
fn response_wrapper_returns_its_payload() {
    assert_eq!(GetObjectResponse::new(7usize).inner(), 7);
    let items = GetObjectResponse::new(vec!["a".to_string(), "b".to_string()]);
    assert_eq!(items.inner(), vec!["a".to_string(), "b".to_string()]);
}

#[test]
fn enrollment_type_parameter_values() {
    let p = EnrollmentType::Student.as_parameter();
    assert_eq!(p.name, "enrollment_type[]");
    assert_eq!(p.value, "student");
    assert_eq!(EnrollmentType::Teacher.as_parameter().value, "teacher");
    assert_eq!(EnrollmentType::StudentView.as_parameter().value, "student_view");
    assert_eq!(EnrollmentType::TA.as_parameter().value, "ta");
    assert_eq!(EnrollmentType::Observer.as_parameter().value, "observer");
    assert_eq!(EnrollmentType::Designer.as_parameter().value, "designer");
}

#[test]
fn other_parameter_kinds_serialize_their_names() {
    let p = UserId("314").as_parameter();
    assert_eq!(p.name, "user_id");
    assert_eq!(p.value, "314");

    let p = SortOn::LastLogin.as_parameter();
    assert_eq!(p.name, "sort");
    assert_eq!(p.value, "last_login");

    let p = EnrollmentState::InvitedOrPending.as_parameter();
    assert_eq!(p.name, "enrollment_state[]");
    assert_eq!(p.value, "invited_or_pending");

    let p = Include::Term.as_parameter();
    assert_eq!(p.name, "include[]");
    assert_eq!(p.value, "term");
    assert_eq!(Include::StorageQuotaUsedMb.as_parameter().value, "storage_quota_used_mb");
}
