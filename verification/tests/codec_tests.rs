use winusb_installer::codec::decode_orchestrator_message;
use winusb_installer::codec::decode_worker_message;
use winusb_installer::codec::encode_orchestrator_message;
use winusb_installer::codec::encode_worker_message;
use winusb_installer::codec::frame_payload;
use winusb_installer::codec::take_frame;
use winusb_installer::device::Device;
use winusb_installer::device::InstallConfig;
use winusb_installer::device::Window;
use winusb_installer::messages::OrchestratorMessage;
use winusb_installer::messages::WorkerMessage;

fn sample_device() -> Device {
    Device {
        vid: 0x0483,
        pid: 0xdf11,
        is_composite: true,
        mi: Some(2),
        driver_version: Some(0x0001000200030004),
        desc: String::from("STM32 BOOTLOADER"),
        driver: Some(String::from("usbser")),
        device_id: Some(String::from("USB\\VID_0483&PID_DF11")),
        hardware_id: None,
        compatible_id: Some(String::from("USB\\Class_FE")),
        upper_filter: None,
    }
}

fn sample_config() -> InstallConfig {
    InstallConfig {
        vendor: String::from("my-vendor"),
        driver_path: String::from("C:\\usb_driver"),
        inf_name: String::from("MyWinUSB.inf"),
    }
}

fn device_eq(a: &Device, b: &Device) -> bool {
    a.same_device(b)
}

#[test]
fn round_trip_install_request() {
    let msg = OrchestratorMessage::InstallRequest(
        sample_config(),
        vec![sample_device(), sample_device()],
    );
    let bytes = encode_orchestrator_message(&msg);
    match decode_orchestrator_message(&bytes) {
        Some(OrchestratorMessage::InstallRequest(c, ds)) => {
            assert_eq!(c.vendor, "my-vendor");
            assert_eq!(c.driver_path, "C:\\usb_driver");
            assert_eq!(c.inf_name, "MyWinUSB.inf");
            assert_eq!(ds.len(), 2);
            assert!(device_eq(&ds[0], &sample_device()));
            assert!(device_eq(&ds[1], &sample_device()));
        },
        _ => panic!("decode did not yield the encoded install request"),
    }
}

#[test]
fn round_trip_configure_log_sink() {
    let msg = OrchestratorMessage::ConfigureLogSink(Window(-7));
    let bytes = encode_orchestrator_message(&msg);
    match decode_orchestrator_message(&bytes) {
        Some(OrchestratorMessage::ConfigureLogSink(w)) => assert_eq!(w.0, -7),
        _ => panic!("decode did not yield the encoded log-sink message"),
    }
}

#[test]
fn round_trip_terminate() {
    let msg = OrchestratorMessage::Terminate;
    let bytes = encode_orchestrator_message(&msg);
    assert!(matches!(
        decode_orchestrator_message(&bytes),
        Some(OrchestratorMessage::Terminate)
    ));
}

#[test]
fn round_trip_device_result_ok() {
    let msg = WorkerMessage::DeviceResult(sample_device(), Ok(()));
    let bytes = encode_worker_message(&msg);
    match decode_worker_message(&bytes) {
        Some(WorkerMessage::DeviceResult(d, Ok(()))) => {
            assert!(device_eq(&d, &sample_device()));
        },
        _ => panic!("decode did not yield the encoded device result"),
    }
}

#[test]
fn round_trip_device_result_err() {
    let msg = WorkerMessage::DeviceResult(sample_device(), Err(String::from("boom")));
    let bytes = encode_worker_message(&msg);
    match decode_worker_message(&bytes) {
        Some(WorkerMessage::DeviceResult(d, Err(e))) => {
            assert!(device_eq(&d, &sample_device()));
            assert_eq!(e, "boom");
        },
        _ => panic!("decode did not yield the encoded device result"),
    }
}

#[test]
fn round_trip_error_message() {
    let msg = WorkerMessage::Error(String::from("enumeration failed"));
    let bytes = encode_worker_message(&msg);
    match decode_worker_message(&bytes) {
        Some(WorkerMessage::Error(e)) => assert_eq!(e, "enumeration failed"),
        _ => panic!("decode did not yield the encoded error"),
    }
}

#[test]
fn round_trip_plain_variants() {
    for msg in [
        WorkerMessage::InstallStarted,
        WorkerMessage::InstallFinished,
        WorkerMessage::Heartbeat,
    ] {
        let bytes = encode_worker_message(&msg);
        let back = decode_worker_message(&bytes).expect("plain variant must decode");
        match (&msg, &back) {
            (WorkerMessage::InstallStarted, WorkerMessage::InstallStarted) => {},
            (WorkerMessage::InstallFinished, WorkerMessage::InstallFinished) => {},
            (WorkerMessage::Heartbeat, WorkerMessage::Heartbeat) => {},
            _ => panic!("decoded a different variant"),
        }
    }
}

#[test]
fn unicode_strings_survive_the_wire() {
    let msg = WorkerMessage::Error(String::from("égran déjà \u{1F600} ünïcode"));
    let bytes = encode_worker_message(&msg);
    match decode_worker_message(&bytes) {
        Some(WorkerMessage::Error(e)) => assert_eq!(e, "égran déjà \u{1F600} ünïcode"),
        _ => panic!("unicode error text did not round-trip"),
    }
}

#[test]
fn malformed_payloads_are_rejected() {
    assert!(decode_worker_message(&vec![]).is_none());
    assert!(decode_worker_message(&vec![200]).is_none());
    assert!(decode_orchestrator_message(&vec![9]).is_none());
    // A trailing byte after a well-formed message is malformed: one frame
    // holds exactly one message.
    let mut bytes = encode_worker_message(&WorkerMessage::Heartbeat);
    bytes.push(0);
    assert!(decode_worker_message(&bytes).is_none());
    // A truncated device result is malformed.
    let full = encode_worker_message(&WorkerMessage::DeviceResult(sample_device(), Ok(())));
    let truncated: Vec<u8> = full[..full.len() - 1].to_vec();
    assert!(decode_worker_message(&truncated).is_none());
}

#[test]
fn zero_valued_optional_fields_are_malformed() {
    // The interface index and the driver version are never zero; a wire
    // value of zero in either is rejected as malformed.
    let mut with_zero_mi = sample_device();
    with_zero_mi.mi = Some(0);
    let bytes = encode_worker_message(&WorkerMessage::DeviceResult(with_zero_mi, Ok(())));
    assert!(decode_worker_message(&bytes).is_none());

    let mut with_zero_version = sample_device();
    with_zero_version.driver_version = Some(0);
    let bytes2 = encode_worker_message(&WorkerMessage::DeviceResult(with_zero_version, Ok(())));
    assert!(decode_worker_message(&bytes2).is_none());

    // Absent fields and non-zero values pass.
    let mut plain = sample_device();
    plain.mi = None;
    plain.driver_version = None;
    let bytes3 = encode_worker_message(&WorkerMessage::DeviceResult(plain.clone(), Ok(())));
    match decode_worker_message(&bytes3) {
        Some(WorkerMessage::DeviceResult(d, Ok(()))) => assert!(device_eq(&d, &plain)),
        _ => panic!("a device without the optional fields must round-trip"),
    }
}

#[test]
fn frame_round_trip() {
    let payload = encode_worker_message(&WorkerMessage::Heartbeat);
    let frame = frame_payload(&payload).expect("short payload must frame");
    assert_eq!(frame.len(), payload.len() + 4);
    let (back, consumed) = take_frame(&frame, 0).expect("framed payload must be taken back");
    assert_eq!(back, payload);
    assert_eq!(consumed, frame.len());
}

#[test]
fn incomplete_frame_waits() {
    let payload = encode_worker_message(&WorkerMessage::InstallStarted);
    let frame = frame_payload(&payload).unwrap();
    let partial: Vec<u8> = frame[..frame.len() - 1].to_vec();
    assert!(take_frame(&partial, 0).is_none());
}

#[test]
fn frames_come_back_in_send_order() {
    let p1 = encode_worker_message(&WorkerMessage::InstallStarted);
    let p2 = encode_worker_message(&WorkerMessage::Error(String::from("x")));
    let mut stream = frame_payload(&p1).unwrap();
    stream.extend_from_slice(&frame_payload(&p2).unwrap());
    let (q1, next) = take_frame(&stream, 0).expect("first frame");
    assert_eq!(q1, p1);
    let (q2, end) = take_frame(&stream, next).expect("second frame");
    assert_eq!(q2, p2);
    assert_eq!(end, stream.len());
}
