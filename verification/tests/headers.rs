use buster::headers::{header_parser, HeaderParseError};

#[test]
fn well_formed_pair_parses_with_trimmed_parts() {
    let (name, value) = header_parser("X-Custom: some value").unwrap();
    assert_eq!(name.as_str(), "x-custom");
    assert_eq!(value.to_str().unwrap(), "some value");
}

#[test]
fn name_is_normalized_to_lowercase() {
    let (name, _) = header_parser("ACCEPT: text/html").unwrap();
    assert_eq!(name.as_str(), "accept");
}

#[test]
fn value_may_contain_further_colons() {
    let (name, value) = header_parser("Referer: http://example.com/a").unwrap();
    assert_eq!(name.as_str(), "referer");
    assert_eq!(value.to_str().unwrap(), "http://example.com/a");
}

#[test]
fn pair_without_colon_is_rejected() {
    assert_eq!(header_parser("NoColonHere").unwrap_err(), HeaderParseError::MissingColon);
}

#[test]
fn invalid_name_is_rejected() {
    assert_eq!(
        header_parser("Bad Name: value").unwrap_err(),
        HeaderParseError::InvalidName
    );
    assert_eq!(header_parser(": value").unwrap_err(), HeaderParseError::InvalidName);
}

#[test]
fn control_character_in_value_is_rejected() {
    assert_eq!(
        header_parser("X-Custom: bad\u{1}value").unwrap_err(),
        HeaderParseError::InvalidValue
    );
}

#[test]
fn user_agent_header_is_reserved() {
    assert_eq!(
        header_parser("User-Agent: probe").unwrap_err(),
        HeaderParseError::ReservedUserAgent
    );
    assert_eq!(
        header_parser("user-agent: probe").unwrap_err(),
        HeaderParseError::ReservedUserAgent
    );
}
