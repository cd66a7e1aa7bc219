use winusb_installer::launcher::classify_spawn_outcome;
use winusb_installer::launcher::spawn_error_of_code;
use winusb_installer::launcher::Command;
use winusb_installer::launcher::SpawnError;
use winusb_installer::process::classify_wait;
use winusb_installer::process::KillAction;
use winusb_installer::process::ProcessState;
use winusb_installer::process::ProcessSupervisor;
use winusb_installer::process::WaitOutcome;

#[test]
fn spawn_error_codes_map_to_distinct_variants() {
    assert_eq!(spawn_error_of_code(2), SpawnError::FileNotFound);
    assert_eq!(spawn_error_of_code(3), SpawnError::PathNotFound);
    assert_eq!(spawn_error_of_code(5), SpawnError::AccessDenied);
    assert_eq!(spawn_error_of_code(8), SpawnError::OutOfMemory);
    assert_eq!(spawn_error_of_code(26), SpawnError::SharingViolation);
    assert_eq!(spawn_error_of_code(27), SpawnError::AssociationIncomplete);
    assert_eq!(spawn_error_of_code(28), SpawnError::NegotiationTimedOut);
    assert_eq!(spawn_error_of_code(29), SpawnError::NegotiationFailed);
    assert_eq!(spawn_error_of_code(30), SpawnError::NegotiationBusy);
    assert_eq!(spawn_error_of_code(31), SpawnError::AssociationMissing);
    assert_eq!(spawn_error_of_code(32), SpawnError::LibraryNotFound);
    assert_eq!(spawn_error_of_code(7), SpawnError::UnexpectedCode(7));
}

#[test]
fn spawn_outcome_classification() {
    assert_eq!(classify_spawn_outcome(false, 40, true), Err(SpawnError::LaunchFailed));
    assert_eq!(classify_spawn_outcome(true, 5, true), Err(SpawnError::AccessDenied));
    assert_eq!(classify_spawn_outcome(true, 40, false), Err(SpawnError::NoProcess));
    assert_eq!(classify_spawn_outcome(true, 40, true), Ok(()));
}

#[test]
fn spawn_error_text_is_specific() {
    assert_eq!(SpawnError::FileNotFound.text(), "File not found.");
    assert_eq!(SpawnError::AccessDenied.text(), "Access denied.");
    assert_eq!(
        SpawnError::LibraryNotFound.text(),
        "Dynamic-link library not found."
    );
    assert_eq!(SpawnError::NoProcess.text(), "No process was spawned.");
}

#[test]
fn command_builder_collects_the_command_line() {
    let mut cmd = Command::new(String::from("C:\\tool.exe"));
    assert!(cmd.hidden);
    cmd.arg(String::from("\\\\.\\pipe\\winusb-driver-installer"));
    assert_eq!(cmd.params(), "\\\\.\\pipe\\winusb-driver-installer");
    cmd.arg(String::from("with space"));
    assert_eq!(
        cmd.params(),
        "\\\\.\\pipe\\winusb-driver-installer \"with space\""
    );
    cmd.hide_window(false);
    assert!(!cmd.hidden);
    assert_eq!(cmd.show_flag(), 1);
    cmd.hide_window(true);
    assert_eq!(cmd.show_flag(), 0);
    cmd.args(vec![String::from("only")]);
    assert_eq!(cmd.params(), "only");
    cmd.current_dir(String::from("C:\\work"));
    assert_eq!(cmd.cwd.as_deref(), Some("C:\\work"));
}

#[test]
fn wait_status_classification() {
    assert_eq!(classify_wait(0), WaitOutcome::Exited);
    assert_eq!(classify_wait(0x102), WaitOutcome::TimedOut);
    assert_eq!(classify_wait(0xFFFFFFFF), WaitOutcome::Failed(0xFFFFFFFF));
}

#[test]
fn kill_twice_returns_success_without_signalling_again() {
    let mut proc = ProcessSupervisor::new();
    // First kill: the process is still running, the terminate succeeds.
    let (action, ok) = proc.kill(false, true);
    assert_eq!(action, KillAction::Signal);
    assert!(ok);
    assert_eq!(proc.state, ProcessState::Killed);
    // Second kill: success with no signal, whatever the platform says.
    let (action, ok) = proc.kill(false, false);
    assert_eq!(action, KillAction::NoSignal);
    assert!(ok);
}

#[test]
fn kill_after_natural_exit_is_a_no_op_success() {
    let mut proc = ProcessSupervisor::new();
    proc.note_wait(WaitOutcome::Exited);
    assert_eq!(proc.state, ProcessState::Exited);
    let (action, ok) = proc.kill(false, false);
    assert_eq!(action, KillAction::NoSignal);
    assert!(ok);

    // The same holds when the zero-timeout exit check is what reports the
    // exit.
    let mut proc2 = ProcessSupervisor::new();
    let (action2, ok2) = proc2.kill(true, false);
    assert_eq!(action2, KillAction::NoSignal);
    assert!(ok2);
    let (action3, ok3) = proc2.kill(false, false);
    assert_eq!(action3, KillAction::NoSignal);
    assert!(ok3);
}

#[test]
fn failed_terminate_is_reported() {
    let mut proc = ProcessSupervisor::new();
    let (action, ok) = proc.kill(false, false);
    assert_eq!(action, KillAction::Signal);
    assert!(!ok);
    assert_eq!(proc.state, ProcessState::Running);
}

#[test]
fn release_marks_the_handle_gone() {
    let mut proc = ProcessSupervisor::new();
    proc.release();
    assert_eq!(proc.state, ProcessState::Released);
}
