//! The decisions of the transport: after each attempt of a request, whether to stop,
//! retry after a pause, or sign in again. The caller performs the attempts.
use vstd::prelude::*;

use crate::request::Method;

verus! {

/// How an attempt ended.
#[derive(Clone, Copy, Debug, PartialEq, Eq, Structural)]
pub enum Outcome {
    /// No HTTP answer: connection, TLS or timeout failure.
    TransportFailure,
    /// The BMC answered with this status code.
    Status(u16),
}

/// What to do after an attempt.
#[derive(Clone, Copy, Debug, PartialEq, Eq, Structural)]
pub enum Next {
    /// The answer stands (success or an error to surface).
    Done,
    /// Send the request again after `delay_ms` milliseconds.
    Retry { delay_ms: u64 },
    /// Create a new session, then send the request again.
    Reauthenticate,
    /// Stop: the retry budget is spent.
    GiveUp,
}

/// The bounds on retries.
#[derive(Clone, Copy, Debug, PartialEq, Eq, Structural)]
pub struct RetryPolicy {
    /// Retries at most, after the first attempt.
    pub max_retries: u32,
    /// Pause before the first retry; each later pause doubles.
    pub base_delay_ms: u64,
    /// Total of all pauses at most.
    pub max_total_delay_ms: u64,
}

/// Where one request stands.
#[derive(Clone, Copy, Debug, PartialEq, Eq, Structural)]
pub struct Attempts {
    pub retries: u32,
    pub waited_ms: u64,
    pub reauthenticated: bool,
}

/// The pause before retry number `n + 1`: `base` doubled `n` times, held at `u64::MAX`.
pub open spec fn backoff(base: u64, n: nat) -> u64
    decreases n,
{
    if n == 0 {
        base
    } else {
        let d = backoff(base, (n - 1) as nat);
        if d > u64::MAX / 2 {
            u64::MAX
        } else {
            (d * 2) as u64
        }
    }
}

/// Is a status a server error (5xx)?
pub open spec fn is_server_error(status: u16) -> bool {
    500 <= status <= 599
}

/// Is the attempt worth retrying? Transport failures for every verb; server errors
/// for GET only, since a repeated PATCH, POST or DELETE may act twice.
pub open spec fn retryable(method: Method, outcome: Outcome) -> bool {
    match outcome {
        Outcome::TransportFailure => true,
        Outcome::Status(s) => method.spec_is_idempotent() && is_server_error(s),
    }
}

/// What follows an attempt of a `method` request that ended in `outcome`.
pub open spec fn next_step(policy: RetryPolicy, method: Method, at: Attempts, outcome: Outcome) -> Next {
    if outcome == Outcome::Status(401) {
        if at.reauthenticated {
            Next::Done
        } else {
            Next::Reauthenticate
        }
    } else if retryable(method, outcome) {
        let d = backoff(policy.base_delay_ms, at.retries as nat);
        if at.retries < policy.max_retries && at.waited_ms as int + d as int <= policy.max_total_delay_ms as int {
            Next::Retry { delay_ms: d }
        } else {
            Next::GiveUp
        }
    } else {
        Next::Done
    }
}

/// Where the request stands after `next` is carried out.
pub open spec fn advance(at: Attempts, next: Next) -> Attempts {
    match next {
        Next::Retry { delay_ms } => Attempts {
            retries: (at.retries + 1) as u32,
            waited_ms: (at.waited_ms + delay_ms) as u64,
            reauthenticated: at.reauthenticated,
        },
        Next::Reauthenticate => Attempts { reauthenticated: true, ..at },
        _ => at,
    }
}

/// The pause before retry number `n + 1`.
pub fn backoff_exec(base: u64, n: u32) -> (d: u64)
    ensures
        d == backoff(base, n as nat),
{
    let mut d = base;
    let mut i: u32 = 0;
    while i < n
        invariant
            i <= n,
            d == backoff(base, i as nat),
        decreases n - i,
    {
        d = if d > u64::MAX / 2 {
            u64::MAX
        } else {
            d * 2
        };
        i = i + 1;
    }
    d
}

impl Attempts {
    /// A request not yet attempted.
    pub fn new() -> (r: Attempts)
        ensures
            r.retries == 0,
            r.waited_ms == 0,
            !r.reauthenticated,
    {
        Attempts { retries: 0, waited_ms: 0, reauthenticated: false }
    }

    /// What follows an attempt of a `method` request that ended in `outcome`: one new
    /// session on a 401; a bounded retry with doubling pauses where the attempt may be
    /// repeated; otherwise the answer stands.
    pub fn next(&self, policy: &RetryPolicy, method: Method, outcome: Outcome) -> (r: Next)
        ensures
            r == next_step(*policy, method, *self, outcome),
    {
        if outcome == Outcome::Status(401) {
            return if self.reauthenticated {
                Next::Done
            } else {
                Next::Reauthenticate
            };
        }
        let retry = match outcome {
            Outcome::TransportFailure => true,
            Outcome::Status(s) => method.is_idempotent() && 500 <= s && s <= 599,
        };
        if !retry {
            return Next::Done;
        }
        let d = backoff_exec(policy.base_delay_ms, self.retries);
        if self.retries < policy.max_retries && d <= policy.max_total_delay_ms && self.waited_ms <= policy.max_total_delay_ms - d {
            Next::Retry { delay_ms: d }
        } else {
            Next::GiveUp
        }
    }

    /// Record that `next` was carried out.
    pub fn record(&mut self, next: Next)
        requires
            old(self).waited_ms as int + (match next { Next::Retry { delay_ms } => delay_ms as int, _ => 0 }) <= u64::MAX,
            next is Retry ==> old(self).retries < u32::MAX,
        ensures
            *final(self) == advance(*old(self), next),
    {
        match next {
            Next::Retry { delay_ms } => {
                self.retries = self.retries + 1;
                self.waited_ms = self.waited_ms + delay_ms;
            },
            Next::Reauthenticate => {
                self.reauthenticated = true;
            },
            _ => {},
        }
    }
}

/// A PATCH, POST or DELETE is sent again only after a transport failure (no answer at
/// all), or after a 401 to sign in again: never after the BMC answered otherwise.
pub proof fn lemma_mutations_not_retried(policy: RetryPolicy, method: Method, at: Attempts, status: u16)
    requires
        method != Method::Get,
        status != 401,
    ensures
        next_step(policy, method, at, Outcome::Status(status)) == Next::Done,
{
}

/// A request signs in again at most once: after one new session, a 401 stands.
pub proof fn lemma_one_reauthentication(policy: RetryPolicy, method: Method, at: Attempts)
    ensures
        next_step(policy, method, advance(at, Next::Reauthenticate), Outcome::Status(401)) == Next::Done,
        !at.reauthenticated ==> next_step(policy, method, at, Outcome::Status(401)) == Next::Reauthenticate,
{
}

/// Retries are bounded: none past `max_retries`, and the pauses together never pass
/// `max_total_delay_ms`.
pub proof fn lemma_retries_bounded(policy: RetryPolicy, method: Method, at: Attempts, outcome: Outcome)
    requires
        at.waited_ms <= policy.max_total_delay_ms,
    ensures
        next_step(policy, method, at, outcome) is Retry ==> at.retries < policy.max_retries
            && advance(at, next_step(policy, method, at, outcome)).waited_ms <= policy.max_total_delay_ms,
        advance(at, next_step(policy, method, at, outcome)).waited_ms <= policy.max_total_delay_ms,
{
}

/// What an HTTP status means for the caller.
#[derive(Clone, Copy, Debug, PartialEq, Eq, Structural)]
pub enum StatusKind {
    /// 2xx or 3xx: the body is the answer.
    Success,
    /// 401 or 403.
    Authentication,
    /// 404.
    NotFound,
    /// Any other status: the body is a Redfish error.
    Remote,
}

/// What an HTTP status means for the caller.
pub open spec fn status_kind(status: u16) -> StatusKind {
    if 200 <= status <= 399 {
        StatusKind::Success
    } else if status == 401 || status == 403 {
        StatusKind::Authentication
    } else if status == 404 {
        StatusKind::NotFound
    } else {
        StatusKind::Remote
    }
}

/// What an HTTP status means for the caller.
pub fn classify_status(status: u16) -> (r: StatusKind)
    ensures
        r == status_kind(status),
{
    if 200 <= status && status <= 399 {
        StatusKind::Success
    } else if status == 401 || status == 403 {
        StatusKind::Authentication
    } else if status == 404 {
        StatusKind::NotFound
    } else {
        StatusKind::Remote
    }
}

} // verus!
