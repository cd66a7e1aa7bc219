//! Supervision of the elevated worker process.
//!
//! The platform hands the launcher one owned process handle.  This module
//! keeps the bookkeeping of that handle's lifetime: what a wait reported,
//! whether a kill already ran, and that the handle is released exactly
//! once.  The platform calls themselves (wait, terminate, close) stay
//! outside; each decision here takes the platform's answer as an
//! argument.

use vstd::prelude::*;

verus! {

/// Platform wait status meaning the process has terminated.
pub const WAIT_EXITED_CODE: u32 = 0;

/// Platform wait status meaning the wait timed out.
pub const WAIT_TIMED_OUT_CODE: u32 = 0x102;

/// Outcome of one bounded wait on the process handle.
#[derive(Clone, Copy, PartialEq, Eq, Structural, Debug)]
pub enum WaitOutcome {
    /// The process has terminated.
    Exited,
    /// The timeout elapsed with the process still running.
    TimedOut,
    /// The wait itself failed with the given status code.
    Failed(u32),
}

pub open spec fn spec_wait_outcome(status: u32) -> WaitOutcome {
    if status == WAIT_EXITED_CODE {
        WaitOutcome::Exited
    } else if status == WAIT_TIMED_OUT_CODE {
        WaitOutcome::TimedOut
    } else {
        WaitOutcome::Failed(status)
    }
}

/// Classify the status word of a bounded wait.
pub fn classify_wait(status: u32) -> (r: WaitOutcome)
    ensures
        r == spec_wait_outcome(status),
{
    if status == WAIT_EXITED_CODE {
        WaitOutcome::Exited
    } else if status == WAIT_TIMED_OUT_CODE {
        WaitOutcome::TimedOut
    } else {
        WaitOutcome::Failed(status)
    }
}

/// What the supervisor knows of the process.
#[derive(Clone, Copy, PartialEq, Eq, Structural, Debug)]
pub enum ProcessState {
    /// Running as far as anyone observed.
    Running,
    /// A wait observed natural termination.
    Exited,
    /// A kill signalled termination.
    Killed,
    /// The handle was given back; no further operation may touch it.
    Released,
}

/// What a kill call must do to the platform process.
#[derive(Clone, Copy, PartialEq, Eq, Structural, Debug)]
pub enum KillAction {
    /// The process is already down: succeed without signalling.
    NoSignal,
    /// The process must be forcibly terminated.
    Signal,
}

/// The kill transition: from the recorded state and the platform's
/// answers (the zero-timeout exit check, and whether the terminate call
/// succeeded when one was needed) to the new state, the action taken and
/// the result.
pub open spec fn spec_kill(state: ProcessState, already_exited: bool, terminate_ok: bool) -> (
    ProcessState,
    KillAction,
    bool,
) {
    if state is Exited || state is Killed {
        (state, KillAction::NoSignal, true)
    } else if already_exited {
        (ProcessState::Exited, KillAction::NoSignal, true)
    } else if terminate_ok {
        (ProcessState::Killed, KillAction::Signal, true)
    } else {
        (state, KillAction::Signal, false)
    }
}

/// Kill idempotence: a kill that follows a successful kill, or follows an
/// observed natural exit, succeeds without signalling the process again —
/// whatever the platform would have answered.
pub proof fn lemma_kill_idempotent(
    state: ProcessState,
    e1: bool,
    t1: bool,
    e2: bool,
    t2: bool,
)
    requires
        state != ProcessState::Released,
        spec_kill(state, e1, t1).2,
    ensures
        spec_kill(spec_kill(state, e1, t1).0, e2, t2) == (
            spec_kill(state, e1, t1).0,
            KillAction::NoSignal,
            true,
        ),
{
}

/// Supervision record of one elevated process.
pub struct ProcessSupervisor {
    pub state: ProcessState,
}

impl ProcessSupervisor {
    /// A fresh record for a process the launcher just produced.
    pub fn new() -> (r: ProcessSupervisor)
        ensures
            r.state == ProcessState::Running,
    {
        ProcessSupervisor { state: ProcessState::Running }
    }

    /// Record what a bounded wait reported.
    pub fn note_wait(&mut self, outcome: WaitOutcome)
        requires
            old(self).state != ProcessState::Released,
        ensures
            outcome == WaitOutcome::Exited && old(self).state == ProcessState::Running
                ==> final(self).state == ProcessState::Exited,
            !(outcome == WaitOutcome::Exited && old(self).state == ProcessState::Running)
                ==> final(self).state == old(self).state,
    {
        if self.state == ProcessState::Running && outcome == WaitOutcome::Exited {
            self.state = ProcessState::Exited;
        }
    }

    /// Decide and record a kill.  `already_exited` is the platform's
    /// zero-timeout exit check; `terminate_ok` is the platform's answer
    /// to the terminate call, consulted only when a signal is needed.
    /// A process already down — by earlier kill or natural exit — yields
    /// success with no signal.
    pub fn kill(&mut self, already_exited: bool, terminate_ok: bool) -> (r: (KillAction, bool))
        requires
            old(self).state != ProcessState::Released,
        ensures
            (final(self).state, r.0, r.1) == spec_kill(old(self).state, already_exited, terminate_ok),
            final(self).state != ProcessState::Released,
    {
        if self.state == ProcessState::Exited || self.state == ProcessState::Killed {
            (KillAction::NoSignal, true)
        } else if already_exited {
            self.state = ProcessState::Exited;
            (KillAction::NoSignal, true)
        } else if terminate_ok {
            self.state = ProcessState::Killed;
            (KillAction::Signal, true)
        } else {
            (KillAction::Signal, false)
        }
    }

    /// Give the handle back.  Demanding a not-yet-released record here is
    /// what makes "released exactly once" hold on every path.
    pub fn release(&mut self)
        requires
            old(self).state != ProcessState::Released,
        ensures
            final(self).state == ProcessState::Released,
    {
        self.state = ProcessState::Released;
    }
}

} // verus!
