use chat_core::codec::{BytesCodecExt, ChatMessage};
use chat_core::common::{frame_to_event, InternalMessage, ProcessResult, SessionEngine};

fn ship(frame: ChatMessage) -> ChatMessage {
    // one transport hop: encode on one side, decode the buffer on the other
    let mut codec = BytesCodecExt::new();
    let mut wire: Vec<u8> = Vec::new();
    codec.encode(frame, &mut wire);
    codec.decode(&mut wire).expect("a sent frame decodes")
}

#[test]
fn hello_round_trip_with_ack_latency() {
    let mut client = SessionEngine::new();
    let mut server = SessionEngine::new();

    // the client user types "hello": the engine sends it as a message frame
    let sent = client.step(Some(InternalMessage::Input("hello".to_string())), 100);
    assert!(sent.outcome.is_none());
    let frame = sent.send.expect("input is sent to the peer");

    // the server's reader decodes the frame and forwards the text
    let (event, stop) = frame_to_event(ship(frame));
    assert!(!stop);
    match &event {
        InternalMessage::Message(text) => assert_eq!(text, "hello"),
        _ => panic!("expected the peer to receive the text"),
    }

    // the server surfaces the text and acknowledges it
    let reply = server.step(Some(event), 105);
    assert_eq!(reply.display.as_deref(), Some("hello"));
    assert!(reply.outcome.is_none());
    let ack = reply.send.expect("received text is acknowledged");
    assert!(matches!(ack, ChatMessage::ACK));

    // the acknowledgement travels back and yields a non-negative latency
    let (event, stop) = frame_to_event(ship(ack));
    assert!(!stop);
    assert!(matches!(event, InternalMessage::ACK));
    let done = client.step(Some(event), 130);
    assert_eq!(done.latency, Some(30));
    assert!(done.outcome.is_none());
    assert!(done.send.is_none());
}

#[test]
fn quit_sends_disconnect_and_peer_sees_it() {
    let mut local = SessionEngine::new();
    let mut remote = SessionEngine::new();

    let step = local.step(Some(InternalMessage::Quit), 0);
    assert_eq!(step.outcome, Some(ProcessResult::UserQuit));
    let frame = step.send.expect("quitting notifies the peer");
    assert!(matches!(frame, ChatMessage::Disconnected));

    let (event, stop) = frame_to_event(ship(frame));
    assert!(stop, "the reader stops after a disconnect notice");
    assert!(matches!(event, InternalMessage::Disconnected));
    let remote_step = remote.step(Some(event), 0);
    assert_eq!(remote_step.outcome, Some(ProcessResult::PeerDisconnected));
    assert!(remote_step.send.is_none(), "no reply to a closed peer");
}

#[test]
fn terminated_sends_disconnect_and_peer_sees_it() {
    let mut local = SessionEngine::new();
    let mut remote = SessionEngine::new();

    let step = local.step(Some(InternalMessage::Terminated), 0);
    assert_eq!(step.outcome, Some(ProcessResult::Terminated));
    let frame = step.send.expect("terminating notifies the peer");
    assert!(matches!(frame, ChatMessage::Disconnected));

    let (event, stop) = frame_to_event(ship(frame));
    assert!(stop);
    let remote_step = remote.step(Some(event), 0);
    assert_eq!(remote_step.outcome, Some(ProcessResult::PeerDisconnected));
}

#[test]
fn malformed_payload_ends_session_with_error() {
    // 0xFF 0xFE is not valid UTF-8, so the text cannot be decoded
    let mut wire = vec![0x0Bu8, 0xFF, 0xFE];
    let mut codec = BytesCodecExt::new();
    let frame = codec.decode(&mut wire).expect("a tagged buffer decodes");

    let (event, stop) = frame_to_event(frame);
    assert!(stop, "the reader stops after a malformed frame");
    assert!(matches!(event, InternalMessage::Error));

    let mut engine = SessionEngine::new();
    let step = engine.step(Some(event), 0);
    assert_eq!(step.outcome, Some(ProcessResult::Error));
    assert!(step.send.is_none());
}

#[test]
fn valid_utf8_payload_becomes_text() {
    let (event, stop) = frame_to_event(ChatMessage::Message("grüße".as_bytes().to_vec()));
    assert!(!stop);
    match event {
        InternalMessage::Message(text) => assert_eq!(text, "grüße"),
        _ => panic!("expected text from a valid payload"),
    }
}

#[test]
fn stray_ack_reports_no_latency() {
    let mut engine = SessionEngine::new();
    let step = engine.step(Some(InternalMessage::ACK), 50);
    assert_eq!(step.latency, None);
    assert!(step.outcome.is_none());
}

#[test]
fn ack_latency_is_measured_from_the_matching_input() {
    let mut engine = SessionEngine::new();
    engine.step(Some(InternalMessage::Input("a".to_string())), 10);
    let first = engine.step(Some(InternalMessage::ACK), 17);
    assert_eq!(first.latency, Some(7));
    // the timestamp was consumed: a second acknowledgement has no match
    let second = engine.step(Some(InternalMessage::ACK), 20);
    assert_eq!(second.latency, None);
}

#[test]
fn closed_stream_ends_with_error() {
    let mut engine = SessionEngine::new();
    let step = engine.step(None, 0);
    assert_eq!(step.outcome, Some(ProcessResult::Error));
    assert!(step.send.is_none());
}

#[test]
fn error_event_ends_with_error() {
    let mut engine = SessionEngine::new();
    let step = engine.step(Some(InternalMessage::Error), 0);
    assert_eq!(step.outcome, Some(ProcessResult::Error));
}
