//! WinUSB driver installation orchestrated across a privilege boundary.
//!
//! An unprivileged orchestrator and an elevated worker cooperate over a
//! typed, length-framed message channel on a named local endpoint.  This
//! crate holds the verified core of that system: the wire codec and its
//! framing, the endpoint naming rule, the command-line quoting rule used
//! when launching the elevated worker, the spawn-error taxonomy, the
//! process-lifecycle bookkeeping, and the decision logic of the
//! orchestrator's session state machine, the worker's serve loop, the
//! bounded retry-connect, and the log-relay poll loop.  Platform calls
//! (named pipes, process elevation, the native driver backend) stay
//! outside; each control loop here is a pure step function from state
//! and event to next state and action.

use vstd::prelude::*;

pub mod channel;
pub mod codec;
pub mod device;
pub mod messages;
pub mod connect;
pub mod launcher;
pub mod naming;
pub mod process;
pub mod relay;
pub mod session;
pub mod quoting;
pub mod worker;

verus! {

pub use device::Device;
pub use device::InstallConfig;
pub use device::Window;
pub use messages::OrchestratorMessage;
pub use messages::Progress;
pub use messages::WorkerMessage;
pub use session::Server;
pub use worker::Client;

/// The role this process plays in a session.
pub enum Mode {
    /// The unprivileged orchestrator, which spawns the worker and drives
    /// the installation.
    Server(session::Server),
    /// The elevated worker, which serves one orchestrator.
    Client(worker::Client),
}

/// Pick this process's role from its first command-line argument: the
/// worker is invoked with exactly one argument, the endpoint name, and
/// its absence designates the orchestrator.
pub fn role_for_arg(arg: Option<String>) -> (m: Mode)
    ensures
        match arg {
            Some(endpoint) => m matches Mode::Client(c) && c.pipe_name@ == endpoint@
                && c.connection_timeout_ms == connect::DEFAULT_CONNECT_TIMEOUT_MS,
            None => m matches Mode::Server(s) && s.pipe_id is None && s.client_executable is None
                && s.show_child_window == false,
        },
{
    match arg {
        Some(endpoint) => Mode::Client(worker::Client::new(endpoint)),
        None => Mode::Server(session::Server::new()),
    }
}

} // verus!
