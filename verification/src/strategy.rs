//! Enumeration strategies: the mode chosen for a run, the run configuration,
//! and the directory brute-force strategy's lifecycle — one-time setup, the
//! per-word request plan, and classification of each response status.
use vstd::prelude::*;

verus! {

use crate::status_range::{StatusCodeRange, spec_in_ranges, is_code_in_ranges};
use crate::target::{
    TargetCell,
    ResolvedTarget,
    SetupError,
    LookupPlan,
    spec_effective_port,
    effective_port,
    spec_request_path,
    build_request_path,
};

/// The enumeration technique a run uses. Only directory brute-forcing is
/// implemented; the other modes are declared extension points.
#[derive(Clone, Copy, Debug, PartialEq, Eq, Structural)]
pub enum Mode {
    Dir,
    Vhost,
    Dns,
    Fuzz,
    Tftp,
    S3,
    Gcs,
}

/// Whether matching the configured ranges marks a response as interesting
/// (inclusion) or as noise to drop (exclusion).
#[derive(Clone, Copy, Debug, PartialEq, Eq, Structural)]
pub enum FilterKind {
    Include,
    Exclude,
}

/// The status filter of a run: a set of ranges and how to read a hit.
pub struct StatusFilter {
    pub ranges: Vec<StatusCodeRange>,
    pub kind: FilterKind,
}

impl StatusFilter {
    /// A status matches an inclusion filter iff it lies in some range, and an
    /// exclusion filter iff it lies in none.
    pub open spec fn spec_matches(self, code: u16) -> bool {
        match self.kind {
            FilterKind::Include => spec_in_ranges(code, self.ranges@),
            FilterKind::Exclude => !spec_in_ranges(code, self.ranges@),
        }
    }

    /// Evaluates one status code against the filter.
    pub fn matches(&self, code: u16) -> (r: bool)
        ensures
            r == self.spec_matches(code),
    {
        let hit = is_code_in_ranges(code, self.ranges.as_slice());
        match self.kind {
            FilterKind::Include => hit,
            FilterKind::Exclude => !hit,
        }
    }

    /// The filter used when the operator supplies none: include exactly the
    /// single code 404.
    pub fn default_include() -> (r: Self)
        ensures
            r.kind == FilterKind::Include,
            r.ranges@.len() == 1,
            r.ranges@[0] == (StatusCodeRange { start: 404, end: 404 }),
    {
        let mut ranges: Vec<StatusCodeRange> = Vec::new();
        ranges.push(StatusCodeRange { start: 404, end: 404 });
        StatusFilter { ranges, kind: FilterKind::Include }
    }
}

/// The immutable configuration of a run, built once at startup and shared
/// read-only by every worker.
pub struct Config {
    pub method: String,
    pub user_agent: String,
    pub headers: Vec<(String, String)>,
    pub timeout_ms: u64,
    pub retry: bool,
    pub retry_attempts: u32,
    pub follow_redirects: bool,
    pub max_redirects: u8,
    pub delay_ms: u64,
    pub threads: u8,
    pub wordlist_offset: usize,
    pub base_path: String,
}

/// One per-word classification, handed to the result sink.
#[derive(Clone, Copy, Debug, PartialEq, Eq, Structural)]
pub struct Outcome {
    pub status: u16,
    pub matched: bool,
}

/// Everything one request/response exchange needs, as plain values.
pub struct RequestPlan {
    pub method: String,
    pub addr: String,
    pub authority: String,
    pub path: String,
    pub user_agent: String,
    pub follow_redirects: bool,
    pub max_redirects: u8,
    pub timeout_ms: u64,
    pub retry: bool,
    pub retry_attempts: u32,
}

/// The directory brute-force strategy: a status filter and the one-time
/// resolved target.
pub struct DirStrategy {
    pub filter: StatusFilter,
    pub target: TargetCell,
}

impl DirStrategy {
    /// A strategy that has not run its setup yet.
    pub fn new(filter: StatusFilter) -> (r: Self)
        ensures
            r.filter == filter,
            r.target.cached() is None,
    {
        DirStrategy { filter, target: TargetCell::new() }
    }

    /// The setup decisions taken before name resolution: the URL must carry an
    /// authority, and the port is the explicit one or the scheme's default.
    pub fn prepare_lookup(url_authority: Option<String>, explicit_port: Option<u16>, https: bool) -> (r:
        Result<LookupPlan, SetupError>)
        ensures
            url_authority matches Some(a) ==> (r matches Ok(p) && p.authority == a && p.port
                == spec_effective_port(explicit_port, https)),
            url_authority is None ==> r == Err::<LookupPlan, SetupError>(
                SetupError::MissingAuthority,
            ),
    {
        match url_authority {
            Some(authority) => Ok(
                LookupPlan { authority, port: effective_port(explicit_port, https) },
            ),
            None => Err(SetupError::MissingAuthority),
        }
    }

    /// Caches the resolved target, exactly once: the first call succeeds and
    /// any later call fails fast without re-resolving.
    pub fn complete_setup(&mut self, target: ResolvedTarget) -> (r: Result<(), SetupError>)
        ensures
            final(self).filter == old(self).filter,
            old(self).target.cached() is None ==> r is Ok && final(self).target.cached() == Some(
                target,
            ),
            old(self).target.cached() is Some ==> r == Err::<(), SetupError>(
                SetupError::AlreadyResolved,
            ) && final(self).target == old(self).target,
    {
        self.target.set(target)
    }

    /// Whether setup has run; per-word work may only start once it has.
    pub fn is_ready(&self) -> (r: bool)
        ensures
            r == (self.target.cached() is Some),
    {
        self.target.is_set()
    }

    /// Plans the request for one word: the cached target, the configured
    /// method and policies, and the request path built from the base path and
    /// the word.
    pub fn plan_word(&self, cfg: &Config, word: &str) -> (r: RequestPlan)
        requires
            self.target.cached() is Some,
        ensures
            r.path@ == spec_request_path(cfg.base_path@, word@),
            r.authority == self.target.cached()->0.authority,
            r.addr == self.target.cached()->0.addr,
            r.method == cfg.method,
            r.user_agent == cfg.user_agent,
            r.follow_redirects == cfg.follow_redirects,
            r.max_redirects == cfg.max_redirects,
            r.timeout_ms == cfg.timeout_ms,
            r.retry == cfg.retry,
            r.retry_attempts == cfg.retry_attempts,
    {
        let target = self.target.get().unwrap();
        RequestPlan {
            method: cfg.method.clone(),
            addr: target.addr.clone(),
            authority: target.authority.clone(),
            path: build_request_path(cfg.base_path.as_str(), word),
            user_agent: cfg.user_agent.clone(),
            follow_redirects: cfg.follow_redirects,
            max_redirects: cfg.max_redirects,
            timeout_ms: cfg.timeout_ms,
            retry: cfg.retry,
            retry_attempts: cfg.retry_attempts,
        }
    }

    /// Classifies one response status against the configured filter.
    pub fn classify(&self, status: u16) -> (o: Outcome)
        ensures
            o.status == status,
            o.matched == self.filter.spec_matches(status),
    {
        Outcome { status, matched: self.filter.matches(status) }
    }
}

/// Builds the strategy for the chosen mode. Only directory brute-forcing is
/// implemented; every other mode fails here, at construction time, never
/// lazily on the first word.
pub fn to_strategy(mode: Mode, filter: StatusFilter) -> (r: Result<DirStrategy, SetupError>)
    ensures
        mode is Dir ==> (r matches Ok(s) && s.filter == filter && s.target.cached() is None),
        !(mode is Dir) ==> r == Err::<DirStrategy, SetupError>(SetupError::ModeNotImplemented),
{
    match mode {
        Mode::Dir => Ok(DirStrategy::new(filter)),
        _ => Err(SetupError::ModeNotImplemented),
    }
}

} // verus!
