//! Extra-header parsing: one "Name: value" pair per argument, split at the
//! first colon and trimmed, with the name and value validated through the
//! http crate and the reserved User-Agent name refused.
use vstd::prelude::*;

verus! {

use crate::text::{find_char, first_index, spec_trim, trim, eq_ignore_ascii_case,
    spec_eq_ignore_ascii_case};

/// Why a header pair was rejected.
#[derive(Clone, Copy, Debug, PartialEq, Eq, Structural)]
pub enum HeaderParseError {
    /// No colon separates a name from a value.
    MissingColon,
    /// The name is not a valid HTTP header name.
    InvalidName,
    /// The value holds a control character.
    InvalidValue,
    /// The User-Agent header must be set through its own flag.
    ReservedUserAgent,
}

#[verifier::external_type_specification]
#[verifier::external_body]
pub struct ExHeaderName(http::header::HeaderName);

#[verifier::external_type_specification]
#[verifier::external_body]
pub struct ExHeaderValue(http::header::HeaderValue);

/// A character accepted in a header name: the HTTP token characters, with
/// uppercase letters taken (and lowercased by the parser).
pub open spec fn is_header_name_char(c: char) -> bool {
    ||| c == '!'
    ||| '#' <= c <= '\''
    ||| c == '*'
    ||| c == '+'
    ||| c == '-'
    ||| c == '.'
    ||| '0' <= c <= '9'
    ||| 'A' <= c <= 'Z'
    ||| '^' <= c <= '`'
    ||| 'a' <= c <= 'z'
    ||| c == '|'
    ||| c == '~'
}

/// The strings http accepts as a header name: between 1 and 65535 characters,
/// each a token character.
pub open spec fn spec_valid_header_name(s: Seq<char>) -> bool {
    1 <= s.len() <= 65535 && forall|i: int| 0 <= i < s.len() ==> is_header_name_char(#[trigger] s[i])
}

/// A character accepted in a header value: tab, and everything that is
/// neither an ASCII control character nor DEL.
pub open spec fn is_header_value_char(c: char) -> bool {
    c == '\t' || (32 <= c as int && c as int != 127)
}

/// The strings http accepts as a header value.
pub open spec fn spec_valid_header_value(s: Seq<char>) -> bool {
    forall|i: int| 0 <= i < s.len() ==> is_header_value_char(#[trigger] s[i])
}

/// Relies on http::HeaderName::from_bytes: it accepts between 1 and 65535
/// bytes, each an HTTP token character (uppercase letters are lowercased),
/// and rejects everything else. A non-ASCII character's bytes are never token
/// characters, so on accepted inputs bytes and characters coincide and the
/// character-level statement below is exact.
#[verifier::external_body]
fn parse_header_name(s: &str) -> (r: Option<http::header::HeaderName>)
    ensures
        r is Some <==> spec_valid_header_name(s@),
{
    http::header::HeaderName::from_bytes(s.as_bytes()).ok()
}

/// Relies on http::HeaderValue::from_str: it accepts exactly the strings
/// whose bytes are all tab or at least 32 and not DEL. A non-ASCII
/// character's bytes are all at least 128 and so always accepted, which makes
/// the character-level statement below exact.
#[verifier::external_body]
fn parse_header_value(s: &str) -> (r: Option<http::header::HeaderValue>)
    ensures
        r is Some <==> spec_valid_header_value(s@),
{
    http::header::HeaderValue::from_str(s).ok()
}

/// Parses one "Name: value" argument: the pair is split at the first colon
/// and both sides are trimmed; the name and the value must be ones http
/// accepts, and the User-Agent name is reserved for its own flag. The checks
/// run in that order, so the first failure names the error.
pub fn header_parser(header_pair: &str) -> (r: Result<
    (http::header::HeaderName, http::header::HeaderValue),
    HeaderParseError,
>)
    ensures
        ({
            let i = first_index(header_pair@, ':');
            let key = spec_trim(header_pair@.take(i));
            let value = spec_trim(header_pair@.skip(i + 1));
            if !(0 <= i < header_pair@.len()) {
                r == Err::<(http::header::HeaderName, http::header::HeaderValue), _>(
                    HeaderParseError::MissingColon,
                )
            } else if !spec_valid_header_name(key) {
                r == Err::<(http::header::HeaderName, http::header::HeaderValue), _>(
                    HeaderParseError::InvalidName,
                )
            } else if !spec_valid_header_value(value) {
                r == Err::<(http::header::HeaderName, http::header::HeaderValue), _>(
                    HeaderParseError::InvalidValue,
                )
            } else if spec_eq_ignore_ascii_case(key, "user-agent"@) {
                r == Err::<(http::header::HeaderName, http::header::HeaderValue), _>(
                    HeaderParseError::ReservedUserAgent,
                )
            } else {
                r is Ok
            }
        }),
{
    match find_char(header_pair, ':') {
        None => Err(HeaderParseError::MissingColon),
        Some(i) => {
            let n = header_pair.unicode_len();
            let key_raw = header_pair.substring_char(0, i);
            let value_raw = header_pair.substring_char(i + 1, n);
            proof {
                assert(key_raw@ =~= header_pair@.take(i as int));
                assert(value_raw@ =~= header_pair@.skip(i as int + 1));
            }
            let key = trim(key_raw);
            let value = trim(value_raw);
            match parse_header_name(key) {
                None => Err(HeaderParseError::InvalidName),
                Some(name) => match parse_header_value(value) {
                    None => Err(HeaderParseError::InvalidValue),
                    Some(val) => {
                        if eq_ignore_ascii_case(key, "user-agent") {
                            Err(HeaderParseError::ReservedUserAgent)
                        } else {
                            Ok((name, val))
                        }
                    },
                },
            }
        },
    }
}

} // verus!
