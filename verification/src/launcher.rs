//! Elevation launcher: command construction and the spawn-error taxonomy.
//!
//! The launcher builds a single quoted parameter string from the
//! command's arguments, asks the platform to run the executable with
//! elevated rights, and classifies the platform's answer into a fixed
//! error taxonomy so that callers can react to each failure distinctly.

use vstd::prelude::*;

use crate::quoting::spec_params;
use crate::quoting::params_string;

verus! {

/// Failure taxonomy of the privilege-elevation request.  Each platform
/// code keeps its own variant; none is coerced to a generic error.
#[derive(Clone, PartialEq, Eq, Structural, Debug)]
pub enum SpawnError {
    /// The executable file was not found.
    FileNotFound,
    /// The executable's path was not found.
    PathNotFound,
    /// Elevation was refused (the user declined the consent prompt).
    AccessDenied,
    /// The platform was out of memory.
    OutOfMemory,
    /// A support library needed for the launch is missing.
    LibraryNotFound,
    /// The executable file is already in use.
    SharingViolation,
    /// The file-association information is incomplete.
    AssociationIncomplete,
    /// The inter-process negotiation timed out.
    NegotiationTimedOut,
    /// The inter-process negotiation failed.
    NegotiationFailed,
    /// The inter-process negotiation channel was busy.
    NegotiationBusy,
    /// No application is associated with the file.
    AssociationMissing,
    /// A platform code outside the documented range.
    UnexpectedCode(u32),
    /// The elevation call itself reported failure.
    LaunchFailed,
    /// The call succeeded but produced no process handle.
    NoProcess,
}

/// Mapping from the platform's launch-failure codes to the taxonomy.
pub open spec fn spec_spawn_error_of_code(code: u32) -> SpawnError {
    if code == 2 {
        SpawnError::FileNotFound
    } else if code == 3 {
        SpawnError::PathNotFound
    } else if code == 5 {
        SpawnError::AccessDenied
    } else if code == 8 {
        SpawnError::OutOfMemory
    } else if code == 26 {
        SpawnError::SharingViolation
    } else if code == 27 {
        SpawnError::AssociationIncomplete
    } else if code == 28 {
        SpawnError::NegotiationTimedOut
    } else if code == 29 {
        SpawnError::NegotiationFailed
    } else if code == 30 {
        SpawnError::NegotiationBusy
    } else if code == 31 {
        SpawnError::AssociationMissing
    } else if code == 32 {
        SpawnError::LibraryNotFound
    } else {
        SpawnError::UnexpectedCode(code)
    }
}

pub fn spawn_error_of_code(code: u32) -> (r: SpawnError)
    ensures
        r == spec_spawn_error_of_code(code),
{
    if code == 2 {
        SpawnError::FileNotFound
    } else if code == 3 {
        SpawnError::PathNotFound
    } else if code == 5 {
        SpawnError::AccessDenied
    } else if code == 8 {
        SpawnError::OutOfMemory
    } else if code == 26 {
        SpawnError::SharingViolation
    } else if code == 27 {
        SpawnError::AssociationIncomplete
    } else if code == 28 {
        SpawnError::NegotiationTimedOut
    } else if code == 29 {
        SpawnError::NegotiationFailed
    } else if code == 30 {
        SpawnError::NegotiationBusy
    } else if code == 31 {
        SpawnError::AssociationMissing
    } else if code == 32 {
        SpawnError::LibraryNotFound
    } else {
        SpawnError::UnexpectedCode(code)
    }
}

/// Classification of the elevation request's raw answer: whether the call
/// succeeded, the instance code it reported, and whether a process handle
/// came back.
pub open spec fn spec_spawn_outcome(call_succeeded: bool, instance_code: u32, has_process: bool)
    -> Result<(), SpawnError> {
    if !call_succeeded {
        Err(SpawnError::LaunchFailed)
    } else if instance_code <= 31 {
        Err(spec_spawn_error_of_code(instance_code))
    } else if !has_process {
        Err(SpawnError::NoProcess)
    } else {
        Ok(())
    }
}

/// Decide the outcome of an elevation request.  Success is owed exactly
/// when the call succeeded, the instance code is above the error range,
/// and a process handle was produced.
pub fn classify_spawn_outcome(call_succeeded: bool, instance_code: u32, has_process: bool) -> (r:
    Result<(), SpawnError>)
    ensures
        r == spec_spawn_outcome(call_succeeded, instance_code, has_process),
{
    if !call_succeeded {
        Err(SpawnError::LaunchFailed)
    } else if instance_code <= 31 {
        Err(spawn_error_of_code(instance_code))
    } else if !has_process {
        Err(SpawnError::NoProcess)
    } else {
        Ok(())
    }
}

/// Human-readable description of a spawn failure.
pub open spec fn spec_spawn_error_text(e: SpawnError) -> Seq<char> {
    match e {
        SpawnError::FileNotFound => "File not found."@,
        SpawnError::PathNotFound => "Path not found."@,
        SpawnError::AccessDenied => "Access denied."@,
        SpawnError::OutOfMemory => "Out of memory."@,
        SpawnError::LibraryNotFound => "Dynamic-link library not found."@,
        SpawnError::SharingViolation => "Cannot share an open file."@,
        SpawnError::AssociationIncomplete => "File association information not complete."@,
        SpawnError::NegotiationTimedOut => "DDE operation timed out."@,
        SpawnError::NegotiationFailed => "DDE operation failed."@,
        SpawnError::NegotiationBusy => "DDE operation is busy."@,
        SpawnError::AssociationMissing => "File association not available."@,
        SpawnError::UnexpectedCode(_) => "Unexpected instance code."@,
        SpawnError::LaunchFailed => "Elevation request failed."@,
        SpawnError::NoProcess => "No process was spawned."@,
    }
}

impl SpawnError {
    /// The failure's description, for logs and error reports.
    pub fn text(&self) -> (r: String)
        ensures
            r@ == spec_spawn_error_text(*self),
    {
        match self {
            SpawnError::FileNotFound => String::from_str("File not found."),
            SpawnError::PathNotFound => String::from_str("Path not found."),
            SpawnError::AccessDenied => String::from_str("Access denied."),
            SpawnError::OutOfMemory => String::from_str("Out of memory."),
            SpawnError::LibraryNotFound => String::from_str("Dynamic-link library not found."),
            SpawnError::SharingViolation => String::from_str("Cannot share an open file."),
            SpawnError::AssociationIncomplete => String::from_str(
                "File association information not complete.",
            ),
            SpawnError::NegotiationTimedOut => String::from_str("DDE operation timed out."),
            SpawnError::NegotiationFailed => String::from_str("DDE operation failed."),
            SpawnError::NegotiationBusy => String::from_str("DDE operation is busy."),
            SpawnError::AssociationMissing => String::from_str("File association not available."),
            SpawnError::UnexpectedCode(_) => String::from_str("Unexpected instance code."),
            SpawnError::LaunchFailed => String::from_str("Elevation request failed."),
            SpawnError::NoProcess => String::from_str("No process was spawned."),
        }
    }
}

/// Builder for the elevated worker's command line.
pub struct Command {
    pub executable: String,
    pub args: Vec<String>,
    pub hidden: bool,
    pub cwd: Option<String>,
}

impl Command {
    /// A command for the given executable: no arguments, hidden window,
    /// no working directory override.
    pub fn new(exe: String) -> (r: Command)
        ensures
            r.executable == exe,
            r.args@ =~= Seq::<String>::empty(),
            r.hidden == true,
            r.cwd is None,
    {
        Command { executable: exe, args: Vec::new(), hidden: true, cwd: None }
    }

    /// Push one argument.
    pub fn arg(&mut self, a: String)
        ensures
            final(self).args@ == old(self).args@.push(a),
            final(self).executable == old(self).executable,
            final(self).hidden == old(self).hidden,
            final(self).cwd == old(self).cwd,
    {
        self.args.push(a);
    }

    /// Replace the argument list.
    pub fn args(&mut self, list: Vec<String>)
        ensures
            final(self).args == list,
            final(self).executable == old(self).executable,
            final(self).hidden == old(self).hidden,
            final(self).cwd == old(self).cwd,
    {
        self.args = list;
    }

    /// Whether the spawned process's window is hidden.
    pub fn hide_window(&mut self, hidden: bool)
        ensures
            final(self).hidden == hidden,
            final(self).executable == old(self).executable,
            final(self).args == old(self).args,
            final(self).cwd == old(self).cwd,
    {
        self.hidden = hidden;
    }

    /// Set the process's working directory.
    pub fn current_dir(&mut self, dir: String)
        ensures
            final(self).cwd == Some(dir),
            final(self).executable == old(self).executable,
            final(self).args == old(self).args,
            final(self).hidden == old(self).hidden,
    {
        self.cwd = Some(dir);
    }

    /// The single parameter string handed to the elevation request.
    pub fn params(&self) -> (r: String)
        ensures
            r@ == spec_params(self.args@.map_values(|a: String| a@)),
    {
        params_string(&self.args)
    }

    /// The window-visibility flag handed to the elevation request: zero
    /// hides the window, one shows it normally.
    pub fn show_flag(&self) -> (r: u32)
        ensures
            r == (if self.hidden {
                0u32
            } else {
                1u32
            }),
    {
        if self.hidden {
            0
        } else {
            1
        }
    }
}

} // verus!
