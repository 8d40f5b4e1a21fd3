use canvasapi::error::ApiError;
use canvasapi::link::get_next_url;
use canvasapi::paging::PagedFetch;
use canvasapi::requests::check_status;

#[test]
fn link_header_next_relation_is_extracted_verbatim() {
    let header = "<https://canvas.test/api/v1/courses/1/assignments?page=2>; rel=\"next\"";
    assert_eq!(
        get_next_url(header).unwrap(),
        "https://canvas.test/api/v1/courses/1/assignments?page=2"
    );
}

#[test]
fn link_header_picks_first_segment_with_next_relation() {
    let header = "<https://canvas.test/p1>; rel=\"current\", <https://canvas.test/p2>; rel=\"next\", <https://canvas.test/p9>; rel=\"last\"";
    assert_eq!(get_next_url(header).unwrap(), "https://canvas.test/p2");
}

#[test]
fn link_header_without_next_yields_nothing() {
    let header = "<https://canvas.test/p1>; rel=\"current\", <https://canvas.test/p9>; rel=\"last\"";
    assert_eq!(get_next_url(header), None);
    assert_eq!(get_next_url(""), None);
}

#[test]
fn link_header_substring_next_in_url_is_not_a_relation() {
    let header = "<https://canvas.test/files/next_steps.pdf>; rel=\"current\"";
    assert_eq!(get_next_url(header), None);
    assert_eq!(get_next_url("<https://canvas.test/next>"), None);
    assert_eq!(get_next_url("next"), None);
}

#[test]
fn link_header_relation_may_follow_other_parameters() {
    let header = "<https://canvas.test/p2>; title=\"page two\"; rel=\"next\"";
    assert_eq!(get_next_url(header).unwrap(), "https://canvas.test/p2");
    let header = "<https://canvas.test/p2>; rel=\"prev\"; rel=\"next\"";
    assert_eq!(get_next_url(header).unwrap(), "https://canvas.test/p2");
}

#[test]
fn link_header_degenerate_segment_yields_empty_url() {
    assert_eq!(get_next_url("x; rel=\"next\""), Some(String::new()));
    assert_eq!(get_next_url("; rel=\"next\""), Some(String::new()));
}

#[test]
fn link_header_segments_are_trimmed_before_parsing() {
    let header = "<https://canvas.test/p1>; rel=\"prev\" ,  <https://canvas.test/p2>; rel=\"next\" ";
    assert_eq!(get_next_url(header).unwrap(), "https://canvas.test/p2");
}

#[test]
fn paged_fetch_concatenates_pages_in_order() {
    let mut state: PagedFetch<u32> = PagedFetch::begin("https://canvas.test/api/v1/items".to_string());
    assert_eq!(state.next.as_deref(), Some("https://canvas.test/api/v1/items"));

    let first_link = "<https://canvas.test/api/v1/items?page=2>; rel=\"next\"";
    state.step(200, Some(first_link), vec![1, 2]).unwrap();
    assert_eq!(state.next.as_deref(), Some("https://canvas.test/api/v1/items?page=2"));
    assert_eq!(state.items, vec![1, 2]);

    let second_link = "<https://canvas.test/api/v1/items?page=3>; rel=\"next\"";
    state.step(200, Some(second_link), vec![3]).unwrap();
    assert_eq!(state.next.as_deref(), Some("https://canvas.test/api/v1/items?page=3"));

    state.step(200, None, vec![4, 5]).unwrap();
    assert_eq!(state.next, None);
    assert_eq!(state.items, vec![1, 2, 3, 4, 5]);
}

#[test]
fn paged_fetch_stops_when_link_has_no_next() {
    let mut state: PagedFetch<u32> = PagedFetch::begin("https://canvas.test/api/v1/items".to_string());
    let last_link = "<https://canvas.test/api/v1/items?page=1>; rel=\"first\"";
    state.step(200, Some(last_link), vec![9]).unwrap();
    assert_eq!(state.next, None);
    assert_eq!(state.items, vec![9]);
}

#[test]
fn paged_fetch_aborts_on_non_success_status() {
    let mut state: PagedFetch<u32> = PagedFetch::begin("https://canvas.test/api/v1/items".to_string());
    let link = "<https://canvas.test/api/v1/items?page=2>; rel=\"next\"";
    state.step(200, Some(link), vec![1, 2]).unwrap();

    let err = state.step(500, None, vec![3]).err().unwrap();
    assert!(matches!(err, ApiError::HttpStatus(500)));
    assert_eq!(err.message(), "500");
    assert_eq!(state.items, vec![1, 2]);
    assert_eq!(state.next.as_deref(), Some("https://canvas.test/api/v1/items?page=2"));
}

#[test]
fn status_gate_rejects_every_non_success_status() {
    assert!(check_status(200).is_ok());
    let err = check_status(404).err().unwrap();
    assert!(matches!(err, ApiError::HttpStatus(404)));
    assert_eq!(err.message(), "404");
    let err = check_status(301).err().unwrap();
    assert!(matches!(err, ApiError::HttpStatus(301)));
}

#[test]
fn non_success_first_page_returns_status_error() {
    let mut state: PagedFetch<u32> = PagedFetch::begin("https://canvas.test/api/v1/items".to_string());
    let err = state.step(404, None, vec![]).err().unwrap();
    assert!(matches!(err, ApiError::HttpStatus(404)));
    assert_eq!(err.message(), "404");
    assert!(state.items.is_empty());
}
