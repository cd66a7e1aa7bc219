//! The two closed message vocabularies of the install protocol.
//!
//! The orchestrator sends `OrchestratorMessage` values and receives
//! `WorkerMessage` values; the worker does the reverse.  `Progress` is the
//! orchestrator's outward-facing event stream, decoupled from the wire
//! protocol.

use vstd::prelude::*;

use crate::device::Device;
use crate::device::DeviceView;
use crate::device::InstallConfig;
use crate::device::InstallConfigView;
use crate::device::Window;

verus! {

/// Messages sent by the unprivileged orchestrator to the elevated worker.
pub enum OrchestratorMessage {
    /// Request driver installation for the listed devices.
    InstallRequest(InstallConfig, Vec<Device>),
    /// Hand the worker the opaque handle of the orchestrator's log sink.
    ConfigureLogSink(Window),
    /// Request the worker process to exit.
    Terminate,
}

/// Messages sent by the elevated worker to the orchestrator.
pub enum WorkerMessage {
    /// Outcome of installing the driver for a single device.
    DeviceResult(Device, Result<(), String>),
    /// An error that does not abort the worker loop.
    Error(String),
    /// Handling of the install request has started.
    InstallStarted,
    /// Handling of the install request is done.
    InstallFinished,
    /// Periodic liveness signal while installation is in progress.
    Heartbeat,
}

/// Progress events reported to the orchestrator's caller.
pub enum Progress {
    /// Worker communication established and installation started.
    SessionStarted,
    /// Installation for the given device finished with the given result.
    DeviceOutcome(Device, Result<(), String>),
}

/// Mathematical value of an `OrchestratorMessage`.
pub ghost enum OrchestratorMessageView {
    InstallRequest(InstallConfigView, Seq<DeviceView>),
    ConfigureLogSink(i64),
    Terminate,
}

/// Mathematical value of a `WorkerMessage`.
pub ghost enum WorkerMessageView {
    DeviceResult(DeviceView, Result<(), Seq<char>>),
    Error(Seq<char>),
    InstallStarted,
    InstallFinished,
    Heartbeat,
}

pub open spec fn view_of_unit_result(r: Result<(), String>) -> Result<(), Seq<char>> {
    match r {
        Ok(u) => Ok(u),
        Err(e) => Err(e@),
    }
}

impl View for OrchestratorMessage {
    type V = OrchestratorMessageView;

    open spec fn view(&self) -> OrchestratorMessageView {
        match self {
            OrchestratorMessage::InstallRequest(config, devices) => {
                OrchestratorMessageView::InstallRequest(
                    config@,
                    devices@.map_values(|d: Device| d@),
                )
            },
            OrchestratorMessage::ConfigureLogSink(w) => {
                OrchestratorMessageView::ConfigureLogSink(w.0)
            },
            OrchestratorMessage::Terminate => OrchestratorMessageView::Terminate,
        }
    }
}

impl View for WorkerMessage {
    type V = WorkerMessageView;

    open spec fn view(&self) -> WorkerMessageView {
        match self {
            WorkerMessage::DeviceResult(d, r) => {
                WorkerMessageView::DeviceResult(d@, view_of_unit_result(*r))
            },
            WorkerMessage::Error(e) => WorkerMessageView::Error(e@),
            WorkerMessage::InstallStarted => WorkerMessageView::InstallStarted,
            WorkerMessage::InstallFinished => WorkerMessageView::InstallFinished,
            WorkerMessage::Heartbeat => WorkerMessageView::Heartbeat,
        }
    }
}

/// Mathematical value of a `Progress` event.
pub ghost enum ProgressView {
    SessionStarted,
    DeviceOutcome(DeviceView, Result<(), Seq<char>>),
}

impl View for Progress {
    type V = ProgressView;

    open spec fn view(&self) -> ProgressView {
        match self {
            Progress::SessionStarted => ProgressView::SessionStarted,
            Progress::DeviceOutcome(d, r) => {
                ProgressView::DeviceOutcome(d@, view_of_unit_result(*r))
            },
        }
    }
}

} // verus!
