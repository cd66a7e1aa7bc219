//! Bounded retry-connect to the session endpoint.
//!
//! Opening the endpoint while every listener slot is taken reports a
//! busy condition; the connector then retries on a fixed short interval
//! until it either succeeds or the deadline passes, at which point it
//! fails with a timeout.  Any other open failure is fatal at once, with
//! no retry.

use vstd::prelude::*;

verus! {

/// Interval between two connect attempts while the endpoint is busy.
pub const CONNECT_POLL_MS: u64 = 50;

/// Default time budget for connecting to the endpoint.
pub const DEFAULT_CONNECT_TIMEOUT_MS: u64 = 10_000;

/// What one open attempt reported.
#[derive(Clone, Copy, PartialEq, Eq, Structural, Debug)]
pub enum ConnectAttempt {
    /// The endpoint accepted the connection.
    Connected,
    /// Every listener slot was taken.
    Busy,
    /// The open failed for any other reason.
    Failed,
}

/// What the connector does next.
#[derive(Clone, Copy, PartialEq, Eq, Structural, Debug)]
pub enum ConnectDecision {
    /// Use the connection.
    Accept,
    /// Sleep for the given milliseconds, then try again.
    RetryAfter(u64),
    /// The deadline passed without a free slot: fail with a timeout.
    GiveUpTimedOut,
    /// A failure other than busy: fail at once.
    Fail,
}

pub open spec fn spec_connect_step(elapsed_ms: u64, timeout_ms: u64, attempt: ConnectAttempt)
    -> ConnectDecision {
    match attempt {
        ConnectAttempt::Connected => ConnectDecision::Accept,
        ConnectAttempt::Failed => ConnectDecision::Fail,
        ConnectAttempt::Busy => {
            if elapsed_ms >= timeout_ms {
                ConnectDecision::GiveUpTimedOut
            } else {
                ConnectDecision::RetryAfter(CONNECT_POLL_MS)
            }
        },
    }
}

/// Decide the connector's next move after one open attempt.  A busy
/// endpoint is retried at the fixed interval while the deadline has not
/// passed, and yields a timeout failure as soon as it has; success and
/// fatal failure are immediate either way.
pub fn connect_step(elapsed_ms: u64, timeout_ms: u64, attempt: ConnectAttempt) -> (r:
    ConnectDecision)
    ensures
        r == spec_connect_step(elapsed_ms, timeout_ms, attempt),
        attempt == ConnectAttempt::Connected <==> r == ConnectDecision::Accept,
        attempt == ConnectAttempt::Failed <==> r == ConnectDecision::Fail,
        (attempt == ConnectAttempt::Busy && elapsed_ms >= timeout_ms) <==> r
            == ConnectDecision::GiveUpTimedOut,
        (attempt == ConnectAttempt::Busy && elapsed_ms < timeout_ms) <==> r
            == ConnectDecision::RetryAfter(CONNECT_POLL_MS),
{
    match attempt {
        ConnectAttempt::Connected => ConnectDecision::Accept,
        ConnectAttempt::Failed => ConnectDecision::Fail,
        ConnectAttempt::Busy => {
            if elapsed_ms >= timeout_ms {
                ConnectDecision::GiveUpTimedOut
            } else {
                ConnectDecision::RetryAfter(CONNECT_POLL_MS)
            }
        },
    }
}

} // verus!
