//! Resolved target and per-word request-path construction. The target's
//! authority and network address are computed once, before any worker starts,
//! and are read-only thereafter; a second initialization is reported as an
//! error, never silently overwritten.
use vstd::prelude::*;

verus! {

/// Errors raised while a run is being set up, before any worker starts.
#[derive(Clone, Copy, Debug, PartialEq, Eq, Structural)]
pub enum SetupError {
    /// The target URL carries no authority (host[:port]) component.
    MissingAuthority,
    /// The one-time setup was attempted a second time.
    AlreadyResolved,
    /// The requested enumeration mode is declared but not implemented.
    ModeNotImplemented,
}

/// The port a connection should use: the explicit one if the authority names
/// one, else the scheme's default.
pub open spec fn spec_effective_port(explicit: Option<u16>, https: bool) -> u16 {
    match explicit {
        Some(p) => p,
        None => if https {
            443
        } else {
            80
        },
    }
}

/// Picks the port to resolve against: the authority's explicit port, else 443
/// for https and 80 otherwise.
pub fn effective_port(explicit: Option<u16>, https: bool) -> (r: u16)
    ensures
        r == spec_effective_port(explicit, https),
{
    match explicit {
        Some(p) => p,
        None => if https {
            443
        } else {
            80
        },
    }
}

/// What name resolution is asked for: the authority to keep for the Host
/// header, and the port to resolve against.
pub struct LookupPlan {
    pub authority: String,
    pub port: u16,
}

/// What one-time setup produces: the target's authority (host[:port], sent as
/// the Host header) and its resolved network address in textual form.
pub struct ResolvedTarget {
    pub authority: String,
    pub addr: String,
}

/// A single-assignment cell for the resolved target: written exactly once by
/// setup, read by every worker. A second write fails rather than re-resolve.
pub struct TargetCell {
    value: Option<ResolvedTarget>,
}

impl TargetCell {
    /// The cached target, if setup has run.
    pub closed spec fn cached(self) -> Option<ResolvedTarget> {
        self.value
    }

    /// An empty cell, before setup.
    pub fn new() -> (r: Self)
        ensures
            r.cached() is None,
    {
        TargetCell { value: None }
    }

    /// Caches the resolved target. The first call succeeds; any later call
    /// fails fast and leaves the cached value untouched.
    pub fn set(&mut self, target: ResolvedTarget) -> (r: Result<(), SetupError>)
        ensures
            old(self).cached() is None ==> r is Ok && final(self).cached() == Some(target),
            old(self).cached() is Some ==> r == Err::<(), SetupError>(SetupError::AlreadyResolved)
                && *final(self) == *old(self),
    {
        match self.value {
            None => {
                self.value = Some(target);
                Ok(())
            },
            Some(_) => Err(SetupError::AlreadyResolved),
        }
    }

    /// Reads the cached target, if setup has run.
    pub fn get(&self) -> (r: Option<&ResolvedTarget>)
        ensures
            r is Some <==> self.cached() is Some,
            r matches Some(t) ==> *t == self.cached()->0,
    {
        self.value.as_ref()
    }

    /// Whether setup has run.
    pub fn is_set(&self) -> (r: bool)
        ensures
            r == (self.cached() is Some),
    {
        self.value.is_some()
    }
}

/// The given string with every trailing slash removed.
pub open spec fn spec_strip_trailing_slashes(s: Seq<char>) -> Seq<char>
    decreases s.len(),
{
    if s.len() > 0 && s.last() == '/' {
        spec_strip_trailing_slashes(s.drop_last())
    } else {
        s
    }
}

/// The request path for one word: the base path with trailing slashes
/// stripped, then a single slash, then the word.
pub open spec fn spec_request_path(base: Seq<char>, word: Seq<char>) -> Seq<char> {
    spec_strip_trailing_slashes(base) + seq!['/'] + word
}

/// Builds the full request path for one word by concatenating the target's
/// base path (trailing slashes stripped) and the word, separated by a slash.
pub fn build_request_path(base_path: &str, word: &str) -> (r: String)
    ensures
        r@ == spec_request_path(base_path@, word@),
{
    let n = base_path.unicode_len();
    let mut k: usize = n;
    proof {
        assert(base_path@.take(n as int) =~= base_path@);
    }
    while k > 0 && base_path.get_char(k - 1) == '/'
        invariant
            0 <= k <= n == base_path@.len(),
            spec_strip_trailing_slashes(base_path@) == spec_strip_trailing_slashes(
                base_path@.take(k as int),
            ),
        decreases k,
    {
        proof {
            assert(base_path@.take(k as int).drop_last() =~= base_path@.take(k as int - 1));
            assert(base_path@.take(k as int).last() == '/');
        }
        k = k - 1;
    }
    proof {
        if k > 0 {
            assert(base_path@.take(k as int).last() == base_path@[k as int - 1]);
        }
        assert(spec_strip_trailing_slashes(base_path@.take(k as int)) == base_path@.take(k as int));
    }
    let stem = base_path.substring_char(0, k);
    let mut out = String::from_str(stem);
    out.append("/");
    out.append(word);
    proof {
        reveal_strlit("/");
        assert("/"@ =~= seq!['/']);
        assert(out@ =~= spec_request_path(base_path@, word@));
    }
    out
}

} // verus!
