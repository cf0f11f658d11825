//! Request-pipeline policy: the redirect-following decision taken after each
//! response, and the timeout-retry decision taken after each lapsed deadline.
//! The network exchange itself happens outside the library; each response is
//! handed back in as plain values and the next action is decided here.
use vstd::prelude::*;

verus! {

/// What the pipeline reads off one HTTP response: the status code and the
/// value of the Location header, if any.
pub struct ResponseInfo {
    pub status: u16,
    pub location: Option<String>,
}

/// A redirection-class status code.
pub open spec fn spec_is_redirect_status(code: u16) -> bool {
    300 <= code <= 399
}

/// Returns true iff the status code is in the redirection class.
pub fn is_redirect_status(code: u16) -> (r: bool)
    ensures
        r == spec_is_redirect_status(code),
{
    300 <= code && code <= 399
}

/// The pipeline follows a redirect iff following is enabled, the response is a
/// redirection, the maximum has not been reached, and a Location header is
/// present.
pub open spec fn spec_should_follow(
    follow_redirects: bool,
    max_redirects: u8,
    redirects_followed: u8,
    status: u16,
    has_location: bool,
) -> bool {
    follow_redirects && spec_is_redirect_status(status) && redirects_followed < max_redirects
        && has_location
}

/// The redirect-following state of one pipeline run: the path to request next
/// and how many redirects have been followed so far.
pub struct RedirectTracker {
    pub follow_redirects: bool,
    pub max_redirects: u8,
    pub redirects_followed: u8,
    pub current_path: String,
}

impl RedirectTracker {
    /// Starts a pipeline run at the given path with no redirects followed.
    pub fn new(path: String, follow_redirects: bool, max_redirects: u8) -> (r: Self)
        ensures
            r.current_path == path,
            r.follow_redirects == follow_redirects,
            r.max_redirects == max_redirects,
            r.redirects_followed == 0,
    {
        RedirectTracker { follow_redirects, max_redirects, redirects_followed: 0, current_path: path }
    }

    /// Decides what to do with one response: either follow its redirect
    /// (returning None, with the Location value as the next path to request)
    /// or finish the run with this response.
    pub fn step(&mut self, resp: ResponseInfo) -> (done: Option<ResponseInfo>)
        ensures
            final(self).follow_redirects == old(self).follow_redirects,
            final(self).max_redirects == old(self).max_redirects,
            spec_should_follow(
                old(self).follow_redirects,
                old(self).max_redirects,
                old(self).redirects_followed,
                resp.status,
                resp.location is Some,
            ) ==> {
                &&& done is None
                &&& final(self).redirects_followed == old(self).redirects_followed + 1
                &&& final(self).current_path == resp.location->0
            },
            !spec_should_follow(
                old(self).follow_redirects,
                old(self).max_redirects,
                old(self).redirects_followed,
                resp.status,
                resp.location is Some,
            ) ==> {
                &&& done matches Some(r) && r.status == resp.status && r.location == resp.location
                &&& *final(self) == *old(self)
            },
    {
        let ResponseInfo { status, location } = resp;
        if self.follow_redirects && is_redirect_status(status) && self.redirects_followed
            < self.max_redirects {
            match location {
                Some(loc) => {
                    self.current_path = loc;
                    self.redirects_followed = self.redirects_followed + 1;
                    None
                },
                None => Some(ResponseInfo { status, location: None }),
            }
        } else {
            Some(ResponseInfo { status, location })
        }
    }
}

/// How many requests one pipeline run issues when the transport answers with
/// the given responses in order, starting with `redirects_followed` redirects
/// already taken: one request per response considered, stopping at the first
/// response that is not followed.
pub open spec fn spec_chain_requests(
    follow_redirects: bool,
    max_redirects: u8,
    redirects_followed: u8,
    responses: Seq<ResponseInfo>,
) -> nat
    decreases responses.len(),
{
    if responses.len() == 0 {
        0
    } else if spec_should_follow(
        follow_redirects,
        max_redirects,
        redirects_followed,
        responses[0].status,
        responses[0].location is Some,
    ) {
        1 + spec_chain_requests(
            follow_redirects,
            max_redirects,
            (redirects_followed + 1) as u8,
            responses.drop_first(),
        )
    } else {
        1
    }
}

/// The response one pipeline run ends on when the transport answers with the
/// given responses in order: the first response that is not followed.
pub open spec fn spec_chain_final(
    follow_redirects: bool,
    max_redirects: u8,
    redirects_followed: u8,
    responses: Seq<ResponseInfo>,
) -> ResponseInfo
    decreases responses.len(),
{
    if responses.len() > 1 && spec_should_follow(
        follow_redirects,
        max_redirects,
        redirects_followed,
        responses[0].status,
        responses[0].location is Some,
    ) {
        spec_chain_final(
            follow_redirects,
            max_redirects,
            (redirects_followed + 1) as u8,
            responses.drop_first(),
        )
    } else {
        responses[0]
    }
}

/// A redirect chain of length r (each of the first r responses redirecting
/// with a Location header) that still offers more responses afterwards: with
/// following enabled, if r is within the remaining redirect budget the run
/// issues exactly r + 1 requests and ends on response r; if every response up
/// to the budget keeps redirecting, the run issues exactly budget + 1 requests
/// and ends on the still-redirecting response at that index.
proof fn lemma_chain_requests_from(
    max_redirects: u8,
    redirects_followed: u8,
    responses: Seq<ResponseInfo>,
    r: nat,
)
    requires
        forall|k: int| 0 <= k < r ==> spec_is_redirect_status(
            #[trigger] responses[k].status,
        ) && responses[k].location is Some,
        r < responses.len(),
        redirects_followed <= max_redirects,
    ensures
        r <= max_redirects - redirects_followed && !spec_is_redirect_status(
            responses[r as int].status,
        ) ==> spec_chain_requests(true, max_redirects, redirects_followed, responses) == r + 1
            && spec_chain_final(true, max_redirects, redirects_followed, responses) == responses[r as int],
        r == max_redirects - redirects_followed ==> spec_chain_requests(
            true,
            max_redirects,
            redirects_followed,
            responses,
        ) == r + 1 && spec_chain_final(true, max_redirects, redirects_followed, responses)
            == responses[r as int],
    decreases r,
{
    if r == 0 {
    } else {
        assert(spec_is_redirect_status(responses[0].status) && responses[0].location is Some);
        if redirects_followed < max_redirects {
            assert(forall|k: int| 0 <= k < r - 1 ==> spec_is_redirect_status(
                #[trigger] responses.drop_first()[k].status,
            ) && responses.drop_first()[k].location is Some) by {
                assert(forall|k: int| 0 <= k < r - 1 ==> responses.drop_first()[k] == responses[k
                    + 1]);
            }
            lemma_chain_requests_from(
                max_redirects,
                (redirects_followed + 1) as u8,
                responses.drop_first(),
                (r - 1) as nat,
            );
            assert(responses.drop_first()[r - 1] == responses[r as int]);
        }
    }
}

/// Redirect-chain law: with following enabled, a chain of R redirecting
/// responses ending in a non-redirect is handled with exactly R + 1 requests
/// when R is at most the configured maximum; a chain still redirecting past
/// the maximum is cut off after exactly max + 1 requests, the last response
/// (still a redirect) being returned.
pub proof fn lemma_redirect_chain(max_redirects: u8, responses: Seq<ResponseInfo>, r: nat)
    requires
        forall|k: int| 0 <= k < r ==> spec_is_redirect_status(
            #[trigger] responses[k].status,
        ) && responses[k].location is Some,
        r < responses.len(),
    ensures
        r <= max_redirects && !spec_is_redirect_status(responses[r as int].status)
            ==> spec_chain_requests(true, max_redirects, 0, responses) == r + 1
            && spec_chain_final(true, max_redirects, 0, responses) == responses[r as int],
        r == max_redirects ==> spec_chain_requests(true, max_redirects, 0, responses) == r + 1
            && spec_chain_final(true, max_redirects, 0, responses) == responses[r as int],
{
    lemma_chain_requests_from(max_redirects, 0, responses, r);
}

/// With following disabled, every run issues exactly one request.
pub proof fn lemma_no_follow_single_request(
    max_redirects: u8,
    redirects_followed: u8,
    responses: Seq<ResponseInfo>,
)
    requires
        responses.len() > 0,
    ensures
        spec_chain_requests(false, max_redirects, redirects_followed, responses) == 1,
{
}

/// The retry policy retries iff retrying is enabled and the attempt budget is
/// not yet exhausted.
pub open spec fn spec_should_retry(retry: bool, attempts: u32, max_attempts: u32) -> bool {
    retry && attempts < max_attempts
}

/// The timeout-retry state of one request: whether retrying is enabled, the
/// maximum number of retries, and how many have been taken.
pub struct RetryTracker {
    pub retry: bool,
    pub max_attempts: u32,
    pub attempts: u32,
}

impl RetryTracker {
    /// Starts with no retries taken.
    pub fn new(retry: bool, max_attempts: u32) -> (r: Self)
        ensures
            r.retry == retry,
            r.max_attempts == max_attempts,
            r.attempts == 0,
    {
        RetryTracker { retry, max_attempts, attempts: 0 }
    }

    /// Decides what to do after the deadline lapsed: true means restart the
    /// whole pipeline call, false means give up and report a timeout error.
    pub fn on_timeout(&mut self) -> (again: bool)
        ensures
            again == spec_should_retry(
                old(self).retry,
                old(self).attempts,
                old(self).max_attempts,
            ),
            final(self).retry == old(self).retry,
            final(self).max_attempts == old(self).max_attempts,
            again ==> final(self).attempts == old(self).attempts + 1,
            !again ==> *final(self) == *old(self),
    {
        if !self.retry || self.attempts >= self.max_attempts {
            false
        } else {
            self.attempts = self.attempts + 1;
            true
        }
    }
}

/// How many attempts occur when every attempt exceeds the deadline, starting
/// with `attempts` retries already taken: one attempt, plus the rest if the
/// policy grants a retry.
pub open spec fn spec_timeout_attempts(retry: bool, max_attempts: u32, attempts: u32) -> nat
    decreases max_attempts - attempts,
{
    if spec_should_retry(retry, attempts, max_attempts) {
        1 + spec_timeout_attempts(retry, max_attempts, (attempts + 1) as u32)
    } else {
        1
    }
}

proof fn lemma_timeout_attempts_from(max_attempts: u32, attempts: u32)
    requires
        attempts <= max_attempts,
    ensures
        spec_timeout_attempts(true, max_attempts, attempts) == max_attempts - attempts + 1,
    decreases max_attempts - attempts,
{
    if attempts < max_attempts {
        lemma_timeout_attempts_from(max_attempts, (attempts + 1) as u32);
    }
}

/// Retry law: when every attempt exceeds the deadline, a run with retries
/// enabled makes exactly max_attempts + 1 attempts before the timeout error,
/// and a run with retries disabled makes exactly one.
pub proof fn lemma_timeout_attempt_count(retry: bool, max_attempts: u32)
    ensures
        retry ==> spec_timeout_attempts(retry, max_attempts, 0) == max_attempts + 1,
        !retry ==> spec_timeout_attempts(retry, max_attempts, 0) == 1,
{
    if retry {
        lemma_timeout_attempts_from(max_attempts, 0);
    }
}

} // verus!
