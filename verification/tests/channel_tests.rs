use winusb_installer::channel::receive_worker_message;
use winusb_installer::channel::send_orchestrator_message;
use winusb_installer::channel::send_worker_message;
use winusb_installer::channel::FrameBuffer;
use winusb_installer::channel::Receive;
use winusb_installer::codec::decode_orchestrator_message;
use winusb_installer::codec::decode_worker_message;
use winusb_installer::messages::OrchestratorMessage;
use winusb_installer::messages::WorkerMessage;

#[test]
fn messages_cross_the_channel_in_send_order() {
    let mut stream: Vec<u8> = Vec::new();
    assert!(send_worker_message(&mut stream, &WorkerMessage::InstallStarted));
    assert!(send_worker_message(
        &mut stream,
        &WorkerMessage::Error(String::from("first"))
    ));
    assert!(send_worker_message(&mut stream, &WorkerMessage::InstallFinished));

    let mut rx = FrameBuffer::new();
    rx.push_bytes(&stream);
    let first = rx.next_frame().expect("first frame");
    assert!(matches!(
        decode_worker_message(&first),
        Some(WorkerMessage::InstallStarted)
    ));
    let second = rx.next_frame().expect("second frame");
    match decode_worker_message(&second) {
        Some(WorkerMessage::Error(e)) => assert_eq!(e, "first"),
        _ => panic!("second message must be the error"),
    }
    let third = rx.next_frame().expect("third frame");
    assert!(matches!(
        decode_worker_message(&third),
        Some(WorkerMessage::InstallFinished)
    ));
    assert!(rx.next_frame().is_none());
}

#[test]
fn frames_reassemble_from_arbitrary_chunks() {
    let mut stream: Vec<u8> = Vec::new();
    assert!(send_orchestrator_message(
        &mut stream,
        &OrchestratorMessage::Terminate
    ));
    assert!(send_worker_message(&mut stream, &WorkerMessage::Heartbeat));

    // Bytes arrive one at a time; a frame is available only once whole.
    let mut rx = FrameBuffer::new();
    let mut seen = 0;
    for (i, b) in stream.iter().enumerate() {
        rx.push_bytes(&[*b]);
        while let Some(payload) = rx.next_frame() {
            seen += 1;
            if seen == 1 {
                assert!(matches!(
                    decode_orchestrator_message(&payload),
                    Some(OrchestratorMessage::Terminate)
                ));
            } else {
                assert!(matches!(
                    decode_worker_message(&payload),
                    Some(WorkerMessage::Heartbeat)
                ));
                assert_eq!(i, stream.len() - 1);
            }
        }
    }
    assert_eq!(seen, 2);
}

#[test]
fn receive_distinguishes_waiting_close_and_errors() {
    // Waiting: the stream is open and no whole frame arrived.
    let mut rx = FrameBuffer::new();
    assert!(matches!(
        receive_worker_message(&mut rx, false),
        Receive::NoneYet
    ));

    // A message arrives whole.
    let mut stream: Vec<u8> = Vec::new();
    assert!(send_worker_message(&mut stream, &WorkerMessage::Heartbeat));
    rx.push_bytes(&stream);
    assert!(matches!(
        receive_worker_message(&mut rx, false),
        Receive::Message(WorkerMessage::Heartbeat)
    ));

    // The peer closes with nothing left over: a clean close, not an
    // error.
    assert!(matches!(
        receive_worker_message(&mut rx, true),
        Receive::ClosedClean
    ));

    // The peer closes mid-frame: a fatal transport error.
    let mut rx2 = FrameBuffer::new();
    rx2.push_bytes(&stream[..stream.len() - 1]);
    assert!(matches!(
        receive_worker_message(&mut rx2, false),
        Receive::NoneYet
    ));
    assert!(matches!(
        receive_worker_message(&mut rx2, true),
        Receive::TransportError
    ));

    // A frame whose payload is malformed: fatal as well.
    let mut rx3 = FrameBuffer::new();
    let bogus_payload = vec![250, 1, 2];
    let framed = winusb_installer::codec::frame_payload(&bogus_payload).unwrap();
    rx3.push_bytes(&framed);
    assert!(matches!(
        receive_worker_message(&mut rx3, false),
        Receive::TransportError
    ));
}
