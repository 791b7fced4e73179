use merchandise_catalog::envelope::{offset_page_info, PageMode};
use merchandise_catalog::router::{parse_int64, parse_optional_int64};

#[test]
fn int64_strings_are_parsed_at_the_request_boundary() {
    assert_eq!(parse_int64("sortOrder", "12"), Ok(12));
    assert_eq!(parse_int64("sortOrder", "-12"), Ok(-12));
    assert!(parse_int64("sortOrder", "many").is_err());
    assert!(parse_int64("sortOrder", "1.5").is_err());
    assert!(parse_int64("sortOrder", "").is_err());
    assert_eq!(parse_optional_int64("sortOrder", None), Ok(None));
    assert_eq!(parse_optional_int64("sortOrder", Some("7")), Ok(Some(7)));
    assert!(parse_optional_int64("sortOrder", Some("seven")).is_err());
}

#[test]
fn offset_page_info_reports_real_boundaries() {
    let value = offset_page_info(2, 20, 41);
    assert_eq!(value.mode, PageMode::Offset);
    assert_eq!(value.page, Some(2));
    assert_eq!(value.page_size, Some(20));
    assert_eq!(value.total_items.as_deref(), Some("41"));
    assert_eq!(value.total_pages, Some(3));
    assert_eq!(value.has_more, Some(true));
}

#[test]
fn offset_page_info_handles_empty_results() {
    let value = offset_page_info(1, 20, 0);
    assert_eq!(value.total_pages, Some(0));
    assert_eq!(value.has_more, Some(false));
}
