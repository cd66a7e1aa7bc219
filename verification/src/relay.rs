//! Log relay bridge: the poll loop's decisions.
//!
//! An independent background task polls the native log source on a fixed
//! interval after a short grace delay.  It observes a cancellation signal
//! tied to the owning session's lifetime; the signal is checked before
//! every read, so the task stops within one poll interval of
//! cancellation and never polls for an ended session.  Read failures are
//! terminal for the relay; delivery is best-effort throughout.

use vstd::prelude::*;

verus! {

/// Delay before the relay's first poll.
pub const RELAY_GRACE_MS: u64 = 400;

/// Interval between two polls of the log source.
pub const RELAY_POLL_MS: u64 = 100;

/// What one poll of the log source reported.
pub enum RelayRead {
    /// Newly available log text.
    Data(String),
    /// Nothing pending.
    Empty,
    /// The read failed with the given description.
    Failed(String),
}

/// What the relay task does next.
pub enum RelayAction {
    /// The cancellation signal fired: stop without reading.
    Stop,
    /// Forward the text to the log sink, then poll again.
    Emit(String),
    /// Nothing to forward; poll again.
    Idle,
    /// The read failed: report it and stop polling.
    StopOnError(String),
}

/// Decide one iteration of the relay loop.  Once the cancellation signal
/// has fired the relay stops, whatever the log source would have
/// reported; otherwise available text is forwarded, an empty read is
/// skipped, and a failed read ends the relay with its report.
pub fn relay_step(cancelled: bool, read: RelayRead) -> (r: RelayAction)
    ensures
        cancelled ==> r is Stop,
        !cancelled ==> match read {
            RelayRead::Data(s) => r matches RelayAction::Emit(t) && t@ == s@,
            RelayRead::Empty => r is Idle,
            RelayRead::Failed(e) => r matches RelayAction::StopOnError(t) && t@ == e@,
        },
{
    if cancelled {
        RelayAction::Stop
    } else {
        match read {
            RelayRead::Data(s) => RelayAction::Emit(s),
            RelayRead::Empty => RelayAction::Idle,
            RelayRead::Failed(e) => RelayAction::StopOnError(e),
        }
    }
}

/// Classify what a raw read from the log source produced: a read of zero
/// bytes means nothing is pending; anything longer is log text.
pub fn classify_read(bytes_read: usize, text: String) -> (r: RelayRead)
    ensures
        bytes_read == 0 ==> r is Empty,
        bytes_read > 0 ==> (r matches RelayRead::Data(s) && s@ == text@),
{
    if bytes_read == 0 {
        RelayRead::Empty
    } else {
        RelayRead::Data(text)
    }
}

} // verus!
