//! The hub's startup and accept-loop policy.
//!
//! Binding the listening endpoint is retried a fixed number of times with a
//! delay between attempts; when the budget is exhausted the process keeps
//! running without an accept loop (a degraded state, reproduced here
//! deliberately). While accepting, connection-class errors are retried
//! after a short delay; any other accept error is fatal to the process.

use vstd::prelude::*;

verus! {

/// How many bind attempts the hub makes before giving up.
pub const BIND_ATTEMPT_LIMIT: u32 = 5;

/// An accept error as the hub distinguishes it: the three connection-class
/// kinds, and everything else.
#[derive(Clone, Copy, PartialEq, Eq, Structural)]
pub enum AcceptErrorKind {
    ConnectionRefused,
    ConnectionReset,
    ConnectionAborted,
    Other,
}

/// What the accept loop does about one failed accept.
#[derive(Clone, Copy, PartialEq, Eq, Structural)]
pub enum AcceptDecision {
    /// Log, wait one second, and keep accepting.
    RetryAfterDelay,
    /// Terminate the process with a non-zero exit code.
    Fatal,
}

/// Connection-class errors (refused, reset, aborted) are retried after a
/// delay and never end the hub; every other accept error is fatal.
pub fn classify_accept_error(k: AcceptErrorKind) -> (d: AcceptDecision)
    ensures
        d is RetryAfterDelay <==> (k is ConnectionRefused || k is ConnectionReset
            || k is ConnectionAborted),
        d is Fatal <==> k is Other,
{
    match k {
        AcceptErrorKind::ConnectionRefused => AcceptDecision::RetryAfterDelay,
        AcceptErrorKind::ConnectionReset => AcceptDecision::RetryAfterDelay,
        AcceptErrorKind::ConnectionAborted => AcceptDecision::RetryAfterDelay,
        AcceptErrorKind::Other => AcceptDecision::Fatal,
    }
}

/// The bind retry budget: how many attempts have failed so far.
pub struct BindRetry {
    attempts: u32,
}

impl View for BindRetry {
    type V = nat;

    closed spec fn view(&self) -> nat {
        self.attempts as nat
    }
}

impl BindRetry {
    pub fn new() -> (r: Self)
        ensures
            r@ == 0,
    {
        BindRetry { attempts: 0 }
    }

    /// Whether another bind attempt is allowed: only while fewer than
    /// `BIND_ATTEMPT_LIMIT` attempts have failed. When this turns false the
    /// hub keeps running, but without a listener.
    pub fn may_attempt(&self) -> (b: bool)
        ensures
            b <==> self@ < BIND_ATTEMPT_LIMIT,
    {
        self.attempts < BIND_ATTEMPT_LIMIT
    }

    /// Record one failed bind attempt (the caller sleeps five seconds
    /// before the next one).
    pub fn record_failure(&mut self)
        requires
            old(self)@ < BIND_ATTEMPT_LIMIT,
        ensures
            final(self)@ == old(self)@ + 1,
    {
        self.attempts = self.attempts + 1;
    }
}

} // verus!
