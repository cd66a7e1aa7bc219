use winusb_installer::connect::connect_step;
use winusb_installer::connect::ConnectAttempt;
use winusb_installer::connect::ConnectDecision;
use winusb_installer::connect::CONNECT_POLL_MS;
use winusb_installer::device::Device;
use winusb_installer::device::InstallConfig;
use winusb_installer::device::Window;
use winusb_installer::messages::OrchestratorMessage;
use winusb_installer::messages::WorkerMessage;
use winusb_installer::relay::classify_read;
use winusb_installer::relay::relay_step;
use winusb_installer::relay::RelayAction;
use winusb_installer::relay::RelayRead;
use winusb_installer::relay::RELAY_POLL_MS;
use winusb_installer::role_for_arg;
use winusb_installer::worker::device_selected;
use winusb_installer::worker::pump_step;
use winusb_installer::worker::worker_step;
use winusb_installer::worker::PumpAction;
use winusb_installer::worker::PumpEvent;
use winusb_installer::worker::WorkerDecision;
use winusb_installer::Mode;

fn device(vid: u16, pid: u16, desc: &str) -> Device {
    Device {
        vid,
        pid,
        is_composite: false,
        mi: None,
        driver_version: None,
        desc: String::from(desc),
        driver: None,
        device_id: None,
        hardware_id: None,
        compatible_id: None,
        upper_filter: None,
    }
}

#[test]
fn busy_endpoint_retries_until_the_deadline_then_times_out() {
    let timeout: u64 = 10_000;
    let mut elapsed: u64 = 0;
    let mut retries: u64 = 0;
    loop {
        match connect_step(elapsed, timeout, ConnectAttempt::Busy) {
            ConnectDecision::RetryAfter(interval) => {
                assert_eq!(interval, CONNECT_POLL_MS);
                elapsed += interval;
                retries += 1;
            },
            ConnectDecision::GiveUpTimedOut => break,
            _ => panic!("a busy endpoint yields only retry or timeout"),
        }
        assert!(elapsed <= timeout, "the retry loop must stop at the deadline");
    }
    assert_eq!(retries, timeout / CONNECT_POLL_MS);
}

#[test]
fn connect_success_and_fatal_failures_are_immediate() {
    assert_eq!(
        connect_step(0, 10_000, ConnectAttempt::Connected),
        ConnectDecision::Accept
    );
    assert_eq!(
        connect_step(9_999, 10_000, ConnectAttempt::Connected),
        ConnectDecision::Accept
    );
    assert_eq!(connect_step(0, 10_000, ConnectAttempt::Failed), ConnectDecision::Fail);
}

#[test]
fn cancelled_relay_stops_within_one_poll() {
    // While the session lives, data flows.
    match relay_step(false, RelayRead::Data(String::from("line"))) {
        RelayAction::Emit(s) => assert_eq!(s, "line"),
        _ => panic!("pending text must be forwarded"),
    }
    // The owning session is dropped; the signal is observed on the next
    // poll, whatever the log source would have offered.
    let polls_to_observe = 1;
    for read in [
        RelayRead::Data(String::from("late line")),
        RelayRead::Empty,
        RelayRead::Failed(String::from("gone")),
    ] {
        assert!(matches!(relay_step(true, read), RelayAction::Stop));
    }
    assert_eq!(polls_to_observe * RELAY_POLL_MS, 100);
}

#[test]
fn relay_forwards_skips_and_stops_on_error() {
    assert!(matches!(relay_step(false, RelayRead::Empty), RelayAction::Idle));
    match relay_step(false, RelayRead::Failed(String::from("read error"))) {
        RelayAction::StopOnError(e) => assert_eq!(e, "read error"),
        _ => panic!("a failed read ends the relay"),
    }
    assert!(matches!(classify_read(0, String::new()), RelayRead::Empty));
    match classify_read(5, String::from("hello")) {
        RelayRead::Data(s) => assert_eq!(s, "hello"),
        _ => panic!("a non-empty read carries text"),
    }
}

#[test]
fn worker_reacts_to_each_orchestrator_message() {
    assert!(matches!(
        worker_step(OrchestratorMessage::Terminate),
        WorkerDecision::ExitLoop
    ));
    match worker_step(OrchestratorMessage::ConfigureLogSink(Window(42))) {
        WorkerDecision::ConfigureLogging(w) => assert_eq!(w.0, 42),
        _ => panic!("the log sink must be wired"),
    }
    let config = InstallConfig {
        vendor: String::from("v"),
        driver_path: String::from("p"),
        inf_name: String::from("i.inf"),
    };
    match worker_step(OrchestratorMessage::InstallRequest(config, vec![device(1, 2, "d")])) {
        WorkerDecision::BeginInstall(c, ds) => {
            assert_eq!(c.vendor, "v");
            assert_eq!(ds.len(), 1);
        },
        _ => panic!("an install request starts the cycle"),
    }
}

#[test]
fn pump_forwards_heartbeats_and_finishes() {
    match pump_step(PumpEvent::Item(WorkerMessage::Error(String::from("e")))) {
        PumpAction::Forward(WorkerMessage::Error(e)) => assert_eq!(e, "e"),
        _ => panic!("queued results must be relayed"),
    }
    assert!(matches!(pump_step(PumpEvent::Closed), PumpAction::FinishCycle));
    assert!(matches!(
        pump_step(PumpEvent::TimerElapsed),
        PumpAction::SendHeartbeat
    ));
}

#[test]
fn requested_devices_select_enumerated_ones() {
    let requested = vec![device(1, 2, "a"), device(3, 4, "b")];
    assert!(device_selected(&requested, &device(1, 2, "a")));
    assert!(device_selected(&requested, &device(3, 4, "b")));
    assert!(!device_selected(&requested, &device(3, 4, "other desc")));
    assert!(!device_selected(&requested, &device(9, 9, "a")));
    assert!(!device_selected(&vec![], &device(1, 2, "a")));
}

#[test]
fn role_is_chosen_by_the_single_argument() {
    match role_for_arg(Some(String::from("\\\\.\\pipe\\x"))) {
        Mode::Client(c) => assert_eq!(c.pipe_name(), "\\\\.\\pipe\\x"),
        _ => panic!("an argument designates the worker"),
    }
    match role_for_arg(None) {
        Mode::Server(s) => assert!(s.pipe_id.is_none()),
        _ => panic!("no argument designates the orchestrator"),
    }
}

#[test]
fn has_winusb_ignores_ascii_case() {
    let mut d = device(1, 2, "d");
    assert!(!d.has_winusb());
    d.driver = Some(String::from("WinUSB"));
    assert!(d.has_winusb());
    d.driver = Some(String::from("winusb"));
    assert!(d.has_winusb());
    d.driver = Some(String::from("WINUSB"));
    assert!(d.has_winusb());
    d.driver = Some(String::from("usbser"));
    assert!(!d.has_winusb());
    d.driver = Some(String::from("winusb2"));
    assert!(!d.has_winusb());
}
