//! Status-range classifier: inclusive status-code ranges, the textual filter
//! spec they are parsed from ("404" or "200-299", comma-delimited), and the
//! predicate that decides whether a response status matches the filter.
use vstd::prelude::*;

verus! {

use crate::text::{find_char, first_index};
use crate::valid_status_code;

/// An inclusive range of HTTP status codes, such as `404` or `200`..`299`.
#[derive(Clone, Copy, Debug, PartialEq, Eq, Structural)]
pub struct StatusCodeRange {
    pub start: u16,
    pub end: u16,
}

/// Why a textual filter spec was rejected.
#[derive(Clone, Copy, Debug, PartialEq, Eq, Structural)]
pub enum RangeParseError {
    /// A bound is not a valid three-digit status code.
    InvalidNumber,
    /// Both bounds are numeric but the range is empty (start > end).
    StartGreaterThanEnd,
}

impl StatusCodeRange {
    /// Both bounds are real status codes and the range is non-empty.
    pub open spec fn wf(self) -> bool {
        valid_status_code(self.start) && valid_status_code(self.end) && self.start <= self.end
    }

    /// The code lies within the inclusive bounds of this range.
    pub open spec fn spec_contains(self, code: u16) -> bool {
        self.start <= code <= self.end
    }

    /// Checks if the given code is inside the range (inclusive).
    pub fn contains(&self, code: u16) -> (r: bool)
        ensures
            r == self.spec_contains(code),
    {
        code >= self.start && code <= self.end
    }
}

/// The code lies in at least one of the ranges.
pub open spec fn spec_in_ranges(code: u16, ranges: Seq<StatusCodeRange>) -> bool {
    exists|i: int| 0 <= i < ranges.len() && ranges[i].spec_contains(code)
}

/// Returns true iff the code lies within the inclusive bounds of at least one
/// of the given ranges.
pub fn is_code_in_ranges(code: u16, ranges: &[StatusCodeRange]) -> (r: bool)
    ensures
        r == spec_in_ranges(code, ranges@),
{
    let mut i: usize = 0;
    while i < ranges.len()
        invariant
            0 <= i <= ranges@.len(),
            forall|j: int| 0 <= j < i ==> !ranges@[j].spec_contains(code),
        decreases ranges@.len() - i,
    {
        if ranges[i].contains(code) {
            return true;
        }
        i = i + 1;
    }
    false
}

/// Adding a range to the filter can never turn a matching code into a
/// non-matching one: the classifier is monotonic in the configured range set.
pub proof fn lemma_in_ranges_monotonic(
    code: u16,
    ranges: Seq<StatusCodeRange>,
    extra: StatusCodeRange,
)
    requires
        spec_in_ranges(code, ranges),
    ensures
        spec_in_ranges(code, ranges.push(extra)),
{
    let i = choose|i: int| 0 <= i < ranges.len() && ranges[i].spec_contains(code);
    assert(ranges.push(extra)[i].spec_contains(code));
}

/// An ASCII decimal digit.
pub open spec fn is_ascii_digit(c: char) -> bool {
    '0' <= c <= '9'
}

/// Exactly three ASCII digits with a nonzero leading digit: the strings that
/// spell a status code.
pub open spec fn spec_status_token(s: Seq<char>) -> bool {
    s.len() == 3 && '1' <= s[0] <= '9' && is_ascii_digit(s[1]) && is_ascii_digit(s[2])
}

/// The number spelled by a three-digit token.
pub open spec fn spec_status_value(s: Seq<char>) -> int {
    (s[0] as int - '0' as int) * 100 + (s[1] as int - '0' as int) * 10 + (s[2] as int - '0' as int)
}

/// A valid token spells a code between 100 and 999.
pub proof fn lemma_status_token_value(s: Seq<char>)
    ensures
        spec_status_token(s) ==> 100 <= spec_status_value(s) <= 999,
{
}

/// Relies on http::StatusCode::from_str (through StatusCode::from_bytes): it
/// accepts exactly a three-byte string of ASCII digits with a nonzero first
/// digit and returns the code those digits spell; every other string is
/// rejected. On such strings bytes and characters coincide, and any string
/// with a non-ASCII character is rejected either by length or by the digit
/// test, so the character-level statement below is exact.
#[verifier::external_body]
fn parse_status_code(s: &str) -> (r: Option<u16>)
    ensures
        r is Some <==> spec_status_token(s@),
        r matches Some(c) ==> c == spec_status_value(s@),
{
    s.parse::<http::StatusCode>().ok().map(|c| c.as_u16())
}

/// What a single filter token ("404" or "200-299") means: the range it spells,
/// or the reason it is rejected. The dash splits at its first occurrence.
pub open spec fn spec_parse_range(s: Seq<char>) -> Result<StatusCodeRange, RangeParseError> {
    let i = first_index(s, '-');
    if 0 <= i < s.len() {
        let a = s.take(i);
        let b = s.skip(i + 1);
        if spec_status_token(a) && spec_status_token(b) {
            if spec_status_value(a) <= spec_status_value(b) {
                Ok(
                    StatusCodeRange {
                        start: spec_status_value(a) as u16,
                        end: spec_status_value(b) as u16,
                    },
                )
            } else {
                Err(RangeParseError::StartGreaterThanEnd)
            }
        } else {
            Err(RangeParseError::InvalidNumber)
        }
    } else {
        if spec_status_token(s) {
            Ok(StatusCodeRange { start: spec_status_value(s) as u16, end: spec_status_value(s) as u16 })
        } else {
            Err(RangeParseError::InvalidNumber)
        }
    }
}

impl StatusCodeRange {
    /// Parses one filter token: either a single status code or an inclusive
    /// `start-end` pair with start <= end.
    pub fn from_str(s: &str) -> (r: Result<StatusCodeRange, RangeParseError>)
        ensures
            r == spec_parse_range(s@),
            r matches Ok(range) ==> range.wf(),
    {
        match find_char(s, '-') {
            Some(i) => {
                let n = s.unicode_len();
                let a = s.substring_char(0, i);
                let b = s.substring_char(i + 1, n);
                proof {
                    assert(a@ =~= s@.take(i as int));
                    assert(b@ =~= s@.skip(i as int + 1));
                    lemma_status_token_value(a@);
                    lemma_status_token_value(b@);
                }
                match (parse_status_code(a), parse_status_code(b)) {
                    (Some(start), Some(end)) => {
                        if start <= end {
                            Ok(StatusCodeRange { start, end })
                        } else {
                            Err(RangeParseError::StartGreaterThanEnd)
                        }
                    },
                    _ => Err(RangeParseError::InvalidNumber),
                }
            },
            None => {
                proof {
                    lemma_status_token_value(s@);
                }
                match parse_status_code(s) {
                    Some(code) => Ok(StatusCodeRange { start: code, end: code }),
                    None => Err(RangeParseError::InvalidNumber),
                }
            },
        }
    }
}

/// What a whole comma-delimited filter spec means: the ranges its tokens
/// spell, or the error of the first token that is rejected.
pub open spec fn spec_parse_ranges(s: Seq<char>) -> Result<
    Seq<StatusCodeRange>,
    RangeParseError,
>
    decreases s.len(),
{
    let i = first_index(s, ',');
    if 0 <= i < s.len() {
        match spec_parse_range(s.take(i)) {
            Ok(range) => match spec_parse_ranges(s.skip(i + 1)) {
                Ok(rest) => Ok(seq![range] + rest),
                Err(e) => Err(e),
            },
            Err(e) => Err(e),
        }
    } else {
        match spec_parse_range(s) {
            Ok(range) => Ok(seq![range]),
            Err(e) => Err(e),
        }
    }
}

/// The parsed ranges match the meaning of the spec string, token for token.
pub open spec fn ranges_result_matches(
    r: Result<Vec<StatusCodeRange>, RangeParseError>,
    m: Result<Seq<StatusCodeRange>, RangeParseError>,
) -> bool {
    match (r, m) {
        (Ok(v), Ok(s)) => v@ == s,
        (Err(e), Err(f)) => e == f,
        _ => false,
    }
}

/// Parses a comma-delimited status filter spec such as "200-299,404,500".
/// Every token must parse; the first rejected token's error is returned.
pub fn parse_status_ranges(s: &str) -> (r: Result<Vec<StatusCodeRange>, RangeParseError>)
    ensures
        ranges_result_matches(r, spec_parse_ranges(s@)),
        r matches Ok(v) ==> forall|i: int| 0 <= i < v@.len() ==> (#[trigger] v@[i]).wf(),
    decreases s@.len(),
{
    match find_char(s, ',') {
        Some(i) => {
            let n = s.unicode_len();
            let head = s.substring_char(0, i);
            let tail = s.substring_char(i + 1, n);
            proof {
                assert(head@ =~= s@.take(i as int));
                assert(tail@ =~= s@.skip(i as int + 1));
            }
            match StatusCodeRange::from_str(head) {
                Ok(range) => match parse_status_ranges(tail) {
                    Ok(mut rest) => {
                        let ghost rest_before = rest@;
                        rest.insert(0, range);
                        proof {
                            assert(rest@ =~= seq![range] + rest_before);
                        }
                        Ok(rest)
                    },
                    Err(e) => Err(e),
                },
                Err(e) => Err(e),
            }
        },
        None => {
            match StatusCodeRange::from_str(s) {
                Ok(range) => {
                    let mut v: Vec<StatusCodeRange> = Vec::new();
                    v.push(range);
                    proof {
                        assert(v@ =~= seq![range]);
                    }
                    Ok(v)
                },
                Err(e) => Err(e),
            }
        },
    }
}

/// A dash spec "a-b" with numeric bounds a <= b parses to a range that
/// contains exactly the codes between a and b inclusive; with a > b or a
/// non-numeric bound it fails to parse.
pub proof fn lemma_dash_spec_semantics(s: Seq<char>, code: u16)
    requires
        0 <= first_index(s, '-') < s.len(),
    ensures
        ({
            let a = s.take(first_index(s, '-'));
            let b = s.skip(first_index(s, '-') + 1);
            &&& (spec_status_token(a) && spec_status_token(b) && spec_status_value(a)
                <= spec_status_value(b)) ==> (spec_parse_range(s) matches Ok(range)
                && (range.spec_contains(code) <==> spec_status_value(a) <= code
                <= spec_status_value(b)))
            &&& (spec_status_token(a) && spec_status_token(b) && spec_status_value(a)
                > spec_status_value(b)) ==> spec_parse_range(s) == Err::<
                StatusCodeRange,
                RangeParseError,
            >(RangeParseError::StartGreaterThanEnd)
            &&& (!spec_status_token(a) || !spec_status_token(b)) ==> spec_parse_range(s) == Err::<
                StatusCodeRange,
                RangeParseError,
            >(RangeParseError::InvalidNumber)
        }),
{
}

/// A single-code spec "c" parses to a range that contains exactly the code c;
/// a non-numeric spec fails to parse.
pub proof fn lemma_single_spec_semantics(s: Seq<char>, code: u16)
    requires
        !(0 <= first_index(s, ',') < s.len()),
        !(0 <= first_index(s, '-') < s.len()),
    ensures
        spec_status_token(s) ==> (spec_parse_range(s) matches Ok(range) && (range.spec_contains(
            code,
        ) <==> code == spec_status_value(s))),
        !spec_status_token(s) ==> spec_parse_range(s) == Err::<StatusCodeRange, RangeParseError>(
            RangeParseError::InvalidNumber,
        ),
{
    if spec_status_token(s) {
        lemma_status_token_value(s);
    }
}

} // verus!
