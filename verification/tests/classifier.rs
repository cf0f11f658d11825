use buster::status_range::{
    is_code_in_ranges, parse_status_ranges, RangeParseError, StatusCodeRange,
};
use buster::strategy::{FilterKind, StatusFilter};

#[test]
fn range_spec_contains_bounds_inclusive() {
    let range = StatusCodeRange::from_str("200-299").unwrap();
    assert_eq!(range.start, 200);
    assert_eq!(range.end, 299);
    assert!(range.contains(200));
    assert!(range.contains(250));
    assert!(range.contains(299));
    assert!(!range.contains(199));
    assert!(!range.contains(300));
}

#[test]
fn range_spec_start_greater_than_end_fails() {
    assert_eq!(
        StatusCodeRange::from_str("299-200"),
        Err(RangeParseError::StartGreaterThanEnd)
    );
}

#[test]
fn range_spec_non_numeric_bounds_fail() {
    assert_eq!(
        StatusCodeRange::from_str("2a0-300"),
        Err(RangeParseError::InvalidNumber)
    );
    assert_eq!(
        StatusCodeRange::from_str("200-3x0"),
        Err(RangeParseError::InvalidNumber)
    );
    assert_eq!(
        StatusCodeRange::from_str("abc"),
        Err(RangeParseError::InvalidNumber)
    );
    assert_eq!(StatusCodeRange::from_str(""), Err(RangeParseError::InvalidNumber));
}

#[test]
fn range_spec_rejects_codes_outside_three_digits() {
    assert_eq!(StatusCodeRange::from_str("99"), Err(RangeParseError::InvalidNumber));
    assert_eq!(
        StatusCodeRange::from_str("1000"),
        Err(RangeParseError::InvalidNumber)
    );
    assert_eq!(StatusCodeRange::from_str("099"), Err(RangeParseError::InvalidNumber));
}

#[test]
fn range_spec_splits_at_the_first_dash_only() {
    assert_eq!(
        StatusCodeRange::from_str("100-200-300"),
        Err(RangeParseError::InvalidNumber)
    );
}

#[test]
fn range_spec_rejects_surrounding_whitespace() {
    assert_eq!(
        StatusCodeRange::from_str(" 404"),
        Err(RangeParseError::InvalidNumber)
    );
    assert_eq!(
        StatusCodeRange::from_str("404 "),
        Err(RangeParseError::InvalidNumber)
    );
}

#[test]
fn single_code_spec_contains_exactly_that_code() {
    let range = StatusCodeRange::from_str("404").unwrap();
    assert_eq!(range.start, 404);
    assert_eq!(range.end, 404);
    assert!(range.contains(404));
    assert!(!range.contains(403));
    assert!(!range.contains(405));
}

#[test]
fn classifier_is_monotonic_in_the_range_set() {
    let mut ranges = vec![StatusCodeRange::from_str("404").unwrap()];
    assert!(is_code_in_ranges(404, &ranges));
    ranges.push(StatusCodeRange::from_str("500-599").unwrap());
    assert!(is_code_in_ranges(404, &ranges));
    ranges.push(StatusCodeRange::from_str("200-299").unwrap());
    assert!(is_code_in_ranges(404, &ranges));
}

#[test]
fn comma_delimited_spec_classifies_as_listed() {
    let ranges = parse_status_ranges("200-299,404,500").unwrap();
    assert_eq!(ranges.len(), 3);
    assert!(is_code_in_ranges(404, &ranges));
    assert!(!is_code_in_ranges(403, &ranges));
    assert!(is_code_in_ranges(250, &ranges));
    assert!(is_code_in_ranges(500, &ranges));
}

#[test]
fn comma_delimited_spec_fails_on_first_bad_token() {
    assert_eq!(
        parse_status_ranges("200-299,xyz,500"),
        Err(RangeParseError::InvalidNumber)
    );
    assert_eq!(
        parse_status_ranges("200-299,500-400"),
        Err(RangeParseError::StartGreaterThanEnd)
    );
    assert_eq!(parse_status_ranges(","), Err(RangeParseError::InvalidNumber));
}

#[test]
fn empty_range_list_matches_nothing() {
    let ranges: Vec<StatusCodeRange> = Vec::new();
    assert!(!is_code_in_ranges(404, &ranges));
}

#[test]
fn inclusion_and_exclusion_filters_mirror_each_other() {
    let ranges = parse_status_ranges("200-299,404").unwrap();
    let keep = StatusFilter {
        ranges: ranges.clone(),
        kind: FilterKind::Include,
    };
    let exclude = StatusFilter {
        ranges,
        kind: FilterKind::Exclude,
    };
    assert!(keep.matches(404));
    assert!(!exclude.matches(404));
    assert!(!keep.matches(403));
    assert!(exclude.matches(403));
}

#[test]
fn default_filter_includes_exactly_404() {
    let filter = StatusFilter::default_include();
    assert!(filter.matches(404));
    assert!(!filter.matches(200));
    assert!(!filter.matches(403));
}
