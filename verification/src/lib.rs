//! Wordlist-driven content-discovery engine: the status-range classifier,
//! request-path construction, redirect and retry policies, the bounded work
//! queue, and the enumeration-strategy lifecycle, each with a verified
//! contract. Network I/O and argument handling live outside the library and
//! exchange plain values with it.
use vstd::prelude::*;

pub mod headers;
pub mod pipeline;
pub mod queue;
pub mod status_range;
pub mod strategy;
pub mod target;
pub mod text;

verus! {

/// A status code carried by an HTTP response: three decimal digits, so always
/// in the inclusive range 100 to 999.
pub open spec fn valid_status_code(code: u16) -> bool {
    100 <= code <= 999
}

} // verus!
