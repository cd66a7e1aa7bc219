use winusb_installer::device::Device;
use winusb_installer::messages::OrchestratorMessage;
use winusb_installer::messages::Progress;
use winusb_installer::messages::WorkerMessage;
use winusb_installer::session::close_actions;
use winusb_installer::session::closing_message;
use winusb_installer::session::handshake_timed_out;
use winusb_installer::session::handshake_step;
use winusb_installer::session::plan_install;
use winusb_installer::session::InstallEvent;
use winusb_installer::session::InstallPhase;
use winusb_installer::session::InstallPlan;
use winusb_installer::session::InstallStep;
use winusb_installer::session::overall_timed_out;
use winusb_installer::session::SessionOutcome;
use winusb_installer::session::StartDecision;
use winusb_installer::session::HEARTBEAT_TIMEOUT_MS;
use winusb_installer::session::RECEIVE_POLL_MS;

fn device(vid: u16, pid: u16, desc: &str) -> Device {
    Device {
        vid,
        pid,
        is_composite: false,
        mi: None,
        driver_version: None,
        desc: String::from(desc),
        driver: None,
        device_id: None,
        hardware_id: None,
        compatible_id: None,
        upper_filter: None,
    }
}

#[test]
fn empty_device_list_is_a_no_op() {
    assert_eq!(plan_install(0), InstallPlan::NothingToDo);
    assert_eq!(plan_install(2), InstallPlan::Proceed);
}

#[test]
fn handshake_ignores_heartbeats_and_logs_errors() {
    assert!(matches!(
        handshake_step(WorkerMessage::Heartbeat),
        StartDecision::KeepWaiting
    ));
    match handshake_step(WorkerMessage::Error(String::from("warmup"))) {
        StartDecision::NoteErrorAndWait(e) => assert_eq!(e, "warmup"),
        _ => panic!("worker errors must be logged, not fatal, during the handshake"),
    }
    assert!(matches!(
        handshake_step(WorkerMessage::InstallStarted),
        StartDecision::Started
    ));
}

#[test]
fn handshake_rejects_out_of_state_messages() {
    assert!(matches!(
        handshake_step(WorkerMessage::InstallFinished),
        StartDecision::ProtocolViolation
    ));
    assert!(matches!(
        handshake_step(WorkerMessage::DeviceResult(device(1, 2, "d"), Ok(()))),
        StartDecision::ProtocolViolation
    ));
}

#[test]
fn heartbeat_timeout_fires_within_one_poll_of_the_deadline() {
    // The worker was last heard from at time zero; nothing arrives.
    let mut phase = InstallPhase::new(2, 0);
    let mut now: u64 = 0;
    let mut polls_past_deadline: u64 = 0;
    loop {
        now += RECEIVE_POLL_MS;
        if now > HEARTBEAT_TIMEOUT_MS {
            polls_past_deadline += 1;
        }
        match phase.install_step(now, InstallEvent::Nothing) {
            InstallStep::Continue => {
                assert!(now <= HEARTBEAT_TIMEOUT_MS, "silence past the deadline must abort");
            },
            InstallStep::HeartbeatTimedOut => {
                // The very first poll after the deadline aborts.
                assert_eq!(polls_past_deadline, 1);
                return;
            },
            _ => panic!("no other step can come from silence"),
        }
        assert!(now < 2 * HEARTBEAT_TIMEOUT_MS, "the session must not hang");
    }
}

#[test]
fn heartbeats_move_the_deadline() {
    let mut phase = InstallPhase::new(1, 0);
    assert!(matches!(
        phase.install_step(4_000, InstallEvent::Message(WorkerMessage::Heartbeat)),
        InstallStep::Continue
    ));
    // 4.9 s after the heartbeat: still within the deadline.
    assert!(matches!(
        phase.install_step(8_900, InstallEvent::Nothing),
        InstallStep::Continue
    ));
    // 5.1 s after the heartbeat: aborted, whatever arrived.
    assert!(matches!(
        phase.install_step(9_100, InstallEvent::Message(WorkerMessage::InstallFinished)),
        InstallStep::HeartbeatTimedOut
    ));
}

#[test]
fn end_to_end_two_device_session() {
    // The worker acknowledges, reports one success and one failure, then
    // finishes; the orchestrator tallies one of two and parts with
    // Terminate.
    let device_a = device(0x0483, 0xdf11, "device A");
    let device_b = device(0x1209, 0x0001, "device B");
    let mut progress: Vec<Progress> = Vec::new();

    // Start handshake.
    match handshake_step(WorkerMessage::InstallStarted) {
        StartDecision::Started => progress.push(Progress::SessionStarted),
        _ => panic!("the acknowledgement must complete the handshake"),
    }

    let mut phase = InstallPhase::new(2, 1_000);
    let script = vec![
        WorkerMessage::DeviceResult(device_a.clone(), Ok(())),
        WorkerMessage::DeviceResult(device_b.clone(), Err(String::from("x"))),
        WorkerMessage::InstallFinished,
    ];
    let mut now = 1_000;
    let mut finished = false;
    for msg in script {
        now += 100;
        match phase.install_step(now, InstallEvent::Message(msg)) {
            InstallStep::Forward(p) => progress.push(p),
            InstallStep::Finished => {
                finished = true;
                break;
            },
            _ => panic!("unexpected step in the scripted session"),
        }
    }
    assert!(finished);
    assert_eq!(phase.installed, 1);
    assert_eq!(phase.total, 2);

    assert_eq!(progress.len(), 3);
    assert!(matches!(progress[0], Progress::SessionStarted));
    match &progress[1] {
        Progress::DeviceOutcome(d, Ok(())) => assert!(d.same_device(&device_a)),
        _ => panic!("first outcome must be device A's success"),
    }
    match &progress[2] {
        Progress::DeviceOutcome(d, Err(e)) => {
            assert!(d.same_device(&device_b));
            assert_eq!(e, "x");
        },
        _ => panic!("second outcome must be device B's failure"),
    }

    // The orchestrator always parts with Terminate.
    assert!(matches!(closing_message(), OrchestratorMessage::Terminate));
}

#[test]
fn handshake_has_its_own_budget() {
    assert!(!handshake_timed_out(0, 30_000));
    assert!(handshake_timed_out(0, 30_001));
}

#[test]
fn cleanup_is_unconditional_for_every_outcome() {
    for outcome in [
        SessionOutcome::Completed,
        SessionOutcome::StartTimedOut,
        SessionOutcome::HeartbeatLost,
        SessionOutcome::OverallTimedOut,
        SessionOutcome::ProtocolFault,
        SessionOutcome::TransportFault,
    ] {
        let close = close_actions(outcome);
        assert!(close.stop_relay);
        assert!(close.send_terminate);
        assert!(close.kill_worker);
    }
}

#[test]
fn overall_timeout_is_distinct_from_heartbeat_timeout() {
    assert!(!overall_timed_out(0, 360_000));
    assert!(overall_timed_out(0, 360_001));
    // A live heartbeat does not excuse the overall budget.
    let mut phase = InstallPhase::new(1, 0);
    assert!(matches!(
        phase.install_step(4_000, InstallEvent::Message(WorkerMessage::Heartbeat)),
        InstallStep::Continue
    ));
    assert!(overall_timed_out(0, 360_500));
}

#[test]
fn device_results_update_the_tally() {
    let mut phase = InstallPhase::new(3, 0);
    match phase.install_step(100, InstallEvent::Message(WorkerMessage::DeviceResult(
        device(1, 1, "a"),
        Ok(()),
    ))) {
        InstallStep::Forward(Progress::DeviceOutcome(_, Ok(()))) => {},
        _ => panic!("a device result must be forwarded"),
    }
    assert_eq!(phase.installed, 1);
    match phase.install_step(200, InstallEvent::Message(WorkerMessage::DeviceResult(
        device(2, 2, "b"),
        Err(String::from("nope")),
    ))) {
        InstallStep::Forward(Progress::DeviceOutcome(_, Err(_))) => {},
        _ => panic!("a failed device result must be forwarded too"),
    }
    assert_eq!(phase.installed, 1);
    // Worker errors are logged, not fatal.
    match phase.install_step(300, InstallEvent::Message(WorkerMessage::Error(String::from("w")))) {
        InstallStep::NoteError(e) => assert_eq!(e, "w"),
        _ => panic!("a worker error must only be noted"),
    }
    assert_eq!(phase.installed, 1);
}
