//! The orchestrator's side of an install session.
//!
//! The orchestrator creates the listener, spawns the elevated worker with
//! the endpoint name as its only argument, accepts the connection, and
//! drives the install handshake and the installing phase.  The suspension
//! points (accept, receive, timers) live outside; every decision between
//! them is a step function here, so the control loop is a thin shell
//! around verified transitions.

use vstd::prelude::*;

use crate::messages::Progress;
use crate::messages::ProgressView;
use crate::messages::OrchestratorMessage;
use crate::messages::OrchestratorMessageView;
use crate::messages::WorkerMessage;
use crate::messages::WorkerMessageView;
use crate::naming::spec_endpoint_name;
use crate::naming::spec_reserved_id;
use crate::naming::pipe_name;

verus! {

/// Time budget for the start handshake.
pub const START_TIMEOUT_MS: u64 = 30_000;

/// Overall time budget of the installing phase, matching the known worst
/// case of the native driver-installation call.
pub const INSTALL_TIMEOUT_MS: u64 = 360_000;

/// Longest tolerated silence from the worker during installation.
pub const HEARTBEAT_TIMEOUT_MS: u64 = 5_000;

/// Receive-poll interval of the installing phase, so the heartbeat
/// deadline is re-checked at least this often.
pub const RECEIVE_POLL_MS: u64 = 100;

/// The session id used when the caller sets none.
pub fn default_session_id() -> (r: &'static str)
    ensures
        r@ == "winusb-driver-installer"@,
{
    "winusb-driver-installer"
}

/// Configuration of the orchestrator side, built before a session runs.
pub struct Server {
    pub pipe_id: Option<String>,
    pub client_executable: Option<String>,
    pub show_child_window: bool,
}

impl Server {
    /// A fresh configuration: default session id, the current executable
    /// as the worker image, worker window hidden.
    pub fn new() -> (r: Server)
        ensures
            r.pipe_id is None,
            r.client_executable is None,
            r.show_child_window == false,
    {
        Server { pipe_id: None, client_executable: None, show_child_window: false }
    }

    /// Use a session id other than the default.
    pub fn pipe_id(&mut self, pipe_id: String)
        ensures
            final(self).pipe_id == Some(pipe_id),
            final(self).client_executable == old(self).client_executable,
            final(self).show_child_window == old(self).show_child_window,
    {
        self.pipe_id = Some(pipe_id);
    }

    /// Make the spawned worker's window visible during installation.
    pub fn show_child_window(&mut self, show: bool)
        ensures
            final(self).show_child_window == show,
            final(self).pipe_id == old(self).pipe_id,
            final(self).client_executable == old(self).client_executable,
    {
        self.show_child_window = show;
    }

    /// Use the given executable as the worker image.
    pub fn client_executable(&mut self, executable: String)
        ensures
            final(self).client_executable == Some(executable),
            final(self).pipe_id == old(self).pipe_id,
            final(self).show_child_window == old(self).show_child_window,
    {
        self.client_executable = Some(executable);
    }

    /// The endpoint name of this session: the namespace prefix before the
    /// configured or default session id.  A reserved id is rejected.
    pub fn get_pipe_name(&self) -> (r: Option<String>)
        ensures
            match self.pipe_id {
                Some(id) => (spec_reserved_id(id@) <==> r is None) && (r matches Some(s) ==> s@
                    == spec_endpoint_name(id@)),
                None => r matches Some(s) && s@ == spec_endpoint_name(
                    "winusb-driver-installer"@,
                ),
            },
    {
        match &self.pipe_id {
            Some(id) => pipe_name(id.as_str()),
            None => {
                let id = default_session_id();
                let r = pipe_name(id);
                proof {
                    reveal_strlit("winusb-driver-installer");
                    assert(!spec_reserved_id(id@));
                }
                r
            },
        }
    }
}

impl Default for Server {
    /// Same as a fresh configuration.
    fn default() -> (r: Server)
        ensures
            r.pipe_id is None,
            r.client_executable is None,
            r.show_child_window == false,
    {
        Server::new()
    }
}

/// Whether an install request has anything to do: an empty device list is
/// a successful no-op and no session is started for it.
#[derive(Clone, Copy, PartialEq, Eq, Structural, Debug)]
pub enum InstallPlan {
    NothingToDo,
    Proceed,
}

pub fn plan_install(device_count: usize) -> (r: InstallPlan)
    ensures
        device_count == 0 <==> r == InstallPlan::NothingToDo,
        device_count > 0 <==> r == InstallPlan::Proceed,
{
    if device_count == 0 {
        InstallPlan::NothingToDo
    } else {
        InstallPlan::Proceed
    }
}

/// Decision of the start handshake on one received message.
pub enum StartDecision {
    /// A heartbeat: keep waiting.
    KeepWaiting,
    /// A worker error: log it and keep waiting.
    NoteErrorAndWait(String),
    /// The worker acknowledged the request: the handshake is done.
    Started,
    /// Any other message here is a protocol violation: abort.
    ProtocolViolation,
}

/// Decide the start handshake on one message: `InstallStarted` completes
/// it, heartbeats are ignored, worker errors are logged but not fatal,
/// and every other message aborts the session.
pub fn handshake_step(msg: WorkerMessage) -> (r: StartDecision)
    ensures
        match msg@ {
            WorkerMessageView::Heartbeat => r is KeepWaiting,
            WorkerMessageView::Error(e) => r matches StartDecision::NoteErrorAndWait(t) && t@ == e,
            WorkerMessageView::InstallStarted => r is Started,
            WorkerMessageView::InstallFinished => r is ProtocolViolation,
            WorkerMessageView::DeviceResult(_, _) => r is ProtocolViolation,
        },
{
    match msg {
        WorkerMessage::Heartbeat => StartDecision::KeepWaiting,
        WorkerMessage::Error(e) => StartDecision::NoteErrorAndWait(e),
        WorkerMessage::InstallStarted => StartDecision::Started,
        WorkerMessage::InstallFinished => StartDecision::ProtocolViolation,
        WorkerMessage::DeviceResult(_, _) => StartDecision::ProtocolViolation,
    }
}

/// State of the installing phase: the running tally and the heartbeat
/// deadline's reference point.
pub struct InstallPhase {
    pub total: u64,
    pub installed: u64,
    pub last_heartbeat_ms: u64,
}

/// What the installing phase received in one poll.
pub enum InstallEvent {
    /// A message from the worker.
    Message(WorkerMessage),
    /// The receive poll elapsed with nothing pending.
    Nothing,
}

/// What the installing phase does after one poll.
pub enum InstallStep {
    /// The worker was silent past the heartbeat deadline: abort with a
    /// timeout distinct from the overall one.
    HeartbeatTimedOut,
    /// Keep polling.
    Continue,
    /// A worker error: log it and keep polling.
    NoteError(String),
    /// A device outcome to report to the caller.
    Forward(Progress),
    /// The worker finished the whole request.
    Finished,
}

impl InstallPhase {
    /// Enter the installing phase: no device installed yet, the deadline
    /// reference at the acknowledgement that just arrived.
    pub fn new(total: u64, now_ms: u64) -> (r: InstallPhase)
        ensures
            r.total == total,
            r.installed == 0,
            r.last_heartbeat_ms == now_ms,
    {
        InstallPhase { total, installed: 0, last_heartbeat_ms: now_ms }
    }

    /// One iteration of the installing phase.  The heartbeat deadline is
    /// checked first on every poll, so a session whose worker has gone
    /// silent for longer than the deadline aborts on the very next poll —
    /// within one poll interval — whatever else arrives.  Heartbeats and
    /// the start acknowledgement move the deadline; a device result
    /// raises the tally on success (holding at the counter's ceiling) and
    /// is forwarded; `InstallFinished` ends the phase; a worker error is
    /// logged and not fatal.
    pub fn install_step(&mut self, now_ms: u64, event: InstallEvent) -> (r: InstallStep)
        requires
            old(self).last_heartbeat_ms <= now_ms,
        ensures
            now_ms - old(self).last_heartbeat_ms > HEARTBEAT_TIMEOUT_MS ==> (r
                is HeartbeatTimedOut && *final(self) == *old(self)),
            now_ms - old(self).last_heartbeat_ms <= HEARTBEAT_TIMEOUT_MS ==> match event {
                InstallEvent::Nothing => r is Continue && *final(self) == *old(self),
                InstallEvent::Message(m) => match m@ {
                    WorkerMessageView::Heartbeat | WorkerMessageView::InstallStarted => {
                        &&& r is Continue
                        &&& final(self).last_heartbeat_ms == now_ms
                        &&& final(self).installed == old(self).installed
                        &&& final(self).total == old(self).total
                    },
                    WorkerMessageView::Error(e) => {
                        &&& r matches InstallStep::NoteError(t) && t@ == e
                        &&& *final(self) == *old(self)
                    },
                    WorkerMessageView::InstallFinished => {
                        &&& r is Finished
                        &&& *final(self) == *old(self)
                    },
                    WorkerMessageView::DeviceResult(d, res) => {
                        &&& r matches InstallStep::Forward(p) && p@ == ProgressView::DeviceOutcome(
                            d,
                            res,
                        )
                        &&& res is Ok && old(self).installed < u64::MAX ==> final(self).installed
                            == old(self).installed + 1
                        &&& res is Ok && old(self).installed == u64::MAX ==> final(self).installed
                            == old(self).installed
                        &&& res is Err ==> final(self).installed == old(self).installed
                        &&& final(self).total == old(self).total
                        &&& final(self).last_heartbeat_ms == old(self).last_heartbeat_ms
                    },
                },
            },
    {
        if now_ms - self.last_heartbeat_ms > HEARTBEAT_TIMEOUT_MS {
            return InstallStep::HeartbeatTimedOut;
        }
        match event {
            InstallEvent::Nothing => InstallStep::Continue,
            InstallEvent::Message(m) => match m {
                WorkerMessage::Heartbeat | WorkerMessage::InstallStarted => {
                    self.last_heartbeat_ms = now_ms;
                    InstallStep::Continue
                },
                WorkerMessage::Error(e) => InstallStep::NoteError(e),
                WorkerMessage::InstallFinished => InstallStep::Finished,
                WorkerMessage::DeviceResult(d, res) => {
                    if res.is_ok() && self.installed < u64::MAX {
                        self.installed = self.installed + 1;
                    }
                    InstallStep::Forward(Progress::DeviceOutcome(d, res))
                },
            },
        }
    }
}

/// Whether the start handshake has outrun its budget: the worker neither
/// connected nor acknowledged in time.
pub fn handshake_timed_out(request_sent_ms: u64, now_ms: u64) -> (r: bool)
    requires
        request_sent_ms <= now_ms,
    ensures
        r == (now_ms - request_sent_ms > START_TIMEOUT_MS),
{
    now_ms - request_sent_ms > START_TIMEOUT_MS
}

/// Whether the whole installing phase has outrun its overall budget,
/// distinct from the heartbeat deadline.
pub fn overall_timed_out(start_ms: u64, now_ms: u64) -> (r: bool)
    requires
        start_ms <= now_ms,
    ensures
        r == (now_ms - start_ms > INSTALL_TIMEOUT_MS),
{
    now_ms - start_ms > INSTALL_TIMEOUT_MS
}

/// How an install session ended.
#[derive(Clone, Copy, PartialEq, Eq, Structural, Debug)]
pub enum SessionOutcome {
    /// The worker finished the request.
    Completed,
    /// The worker never acknowledged within the start budget.
    StartTimedOut,
    /// The worker went silent past the heartbeat deadline.
    HeartbeatLost,
    /// The installing phase outran its overall budget.
    OverallTimedOut,
    /// A message arrived outside its expected state.
    ProtocolFault,
    /// The transport failed (endpoint, frame or payload).
    TransportFault,
}

/// The cleanup owed when a session ends, however it ended.
#[derive(Clone, Copy, PartialEq, Eq, Structural, Debug)]
pub struct SessionClose {
    /// Signal the log relay to stop.
    pub stop_relay: bool,
    /// Attempt a graceful `Terminate` send (failure to send is logged,
    /// not escalated).
    pub send_terminate: bool,
    /// Forcibly kill the worker process if it has not exited.
    pub kill_worker: bool,
}

/// What tearing a session down must do: all three cleanup effects are
/// unconditional, on normal completion, on every timeout and on every
/// fault alike.
pub fn close_actions(outcome: SessionOutcome) -> (r: SessionClose)
    ensures
        r.stop_relay,
        r.send_terminate,
        r.kill_worker,
{
    let _ = outcome;
    SessionClose { stop_relay: true, send_terminate: true, kill_worker: true }
}

/// The message the orchestrator parts with: `Terminate` is attempted both
/// on normal completion and after a timeout, before the worker process is
/// torn down.
pub fn closing_message() -> (r: OrchestratorMessage)
    ensures
        r@ == OrchestratorMessageView::Terminate,
{
    OrchestratorMessage::Terminate
}

} // verus!
