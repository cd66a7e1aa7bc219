//! The elevated worker's side of an install session.
//!
//! The worker connects to the named endpoint with the bounded retry, then
//! serves orchestrator messages: `Terminate` ends the loop, a log-sink
//! handle wires up log forwarding, and an install request starts the
//! install cycle.  The blocking installation work runs on a separate
//! execution context feeding a one-way queue; the loop forwards queue
//! items and heartbeats on a fixed cadence, so a native call never stalls
//! message delivery.

use vstd::prelude::*;

use crate::connect::DEFAULT_CONNECT_TIMEOUT_MS;
use crate::device::Device;
use crate::device::InstallConfig;
use crate::device::Window;
use crate::device::spec_device_eq;
use crate::messages::OrchestratorMessage;
use crate::messages::OrchestratorMessageView;
use crate::messages::WorkerMessage;

verus! {

/// Cadence of the worker's liveness signal during installation.
pub const HEARTBEAT_PERIOD_MS: u64 = 1_000;

/// Configuration of the worker side.
pub struct Client {
    pub pipe_name: String,
    pub connection_timeout_ms: u64,
}

impl Client {
    /// A worker for the given endpoint name, with the default connection
    /// timeout.
    pub fn new(pipe_name: String) -> (r: Client)
        ensures
            r.pipe_name == pipe_name,
            r.connection_timeout_ms == DEFAULT_CONNECT_TIMEOUT_MS,
    {
        Client { pipe_name, connection_timeout_ms: DEFAULT_CONNECT_TIMEOUT_MS }
    }

    /// The endpoint name this worker connects to.
    pub fn pipe_name(&self) -> (r: &str)
        ensures
            r@ == self.pipe_name@,
    {
        self.pipe_name.as_str()
    }

    /// Use a connection timeout other than the default.
    pub fn connection_timeout(&mut self, timeout_ms: u64)
        ensures
            final(self).connection_timeout_ms == timeout_ms,
            final(self).pipe_name == old(self).pipe_name,
    {
        self.connection_timeout_ms = timeout_ms;
    }
}

/// What the worker's serve loop does with one orchestrator message.
pub enum WorkerDecision {
    /// `Terminate`: leave the loop; process exit follows.
    ExitLoop,
    /// Wire the local log source to the given sink handle.
    ConfigureLogging(Window),
    /// Acknowledge and run the install cycle for these devices.
    BeginInstall(InstallConfig, Vec<Device>),
}

/// Decide the serve loop's reaction to one received message.
pub fn worker_step(msg: OrchestratorMessage) -> (r: WorkerDecision)
    ensures
        match msg@ {
            OrchestratorMessageView::Terminate => r is ExitLoop,
            OrchestratorMessageView::ConfigureLogSink(w) => r
                matches WorkerDecision::ConfigureLogging(win) && win.0 == w,
            OrchestratorMessageView::InstallRequest(c, ds) => r
                matches WorkerDecision::BeginInstall(c2, ds2) && c2@ == c && ds2@.map_values(
                |d: Device| d@,
            ) == ds,
        },
{
    match msg {
        OrchestratorMessage::Terminate => WorkerDecision::ExitLoop,
        OrchestratorMessage::ConfigureLogSink(w) => WorkerDecision::ConfigureLogging(w),
        OrchestratorMessage::InstallRequest(c, ds) => WorkerDecision::BeginInstall(c, ds),
    }
}

/// What the install cycle's pump observed while waiting on the result
/// queue.
pub enum PumpEvent {
    /// The background context produced a message to relay.
    Item(WorkerMessage),
    /// The queue closed: the background work is done.
    Closed,
    /// The heartbeat period elapsed with nothing queued.
    TimerElapsed,
}

/// What the pump sends next.
pub enum PumpAction {
    /// Relay the queued message.
    Forward(WorkerMessage),
    /// Announce completion and leave the install cycle.
    FinishCycle,
    /// Send the periodic liveness signal.
    SendHeartbeat,
}

/// Decide one iteration of the heartbeat/relay pump: queued results are
/// forwarded, a closed queue ends the cycle, and an idle period sends a
/// heartbeat, so the orchestrator hears from the worker at least once a
/// period while the native work runs.
pub fn pump_step(event: PumpEvent) -> (r: PumpAction)
    ensures
        match event {
            PumpEvent::Item(m) => r matches PumpAction::Forward(f) && f@ == m@,
            PumpEvent::Closed => r is FinishCycle,
            PumpEvent::TimerElapsed => r is SendHeartbeat,
        },
{
    match event {
        PumpEvent::Item(m) => PumpAction::Forward(m),
        PumpEvent::Closed => PumpAction::FinishCycle,
        PumpEvent::TimerElapsed => PumpAction::SendHeartbeat,
    }
}

/// Whether an enumerated device is one of those the install request asked
/// for; the request's list filters the devices the worker installs
/// against.
pub fn device_selected(requested: &Vec<Device>, dev: &Device) -> (r: bool)
    ensures
        r == exists|i: int|
            0 <= i < requested@.len() && spec_device_eq(&requested@[i], dev),
{
    let mut i: usize = 0;
    while i < requested.len()
        invariant
            i <= requested@.len(),
            forall|j: int| 0 <= j < i ==> !spec_device_eq(&requested@[j], dev),
        decreases requested@.len() - i,
    {
        if requested[i].same_device(dev) {
            return true;
        }
        i += 1;
    }
    false
}

} // verus!
