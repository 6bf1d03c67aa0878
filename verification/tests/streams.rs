use bytes::Bytes;
use construct_engine::messages::StreamPayload;
use construct_engine::transport::grpc::encode_grpc_frame;
use construct_engine::transport::stream::{
    request_id_at, send_frame_result, uuid_v4_hex, OpenAction, OpenEvent, OpenStep, PumpAction,
    PumpEvent, PumpStep, StreamOpening, StreamPump, OUTGOING_CHANNEL_DEPTH, RECV_POLL_INTERVAL_MS,
};
use construct_engine::transport::Transport;
use construct_engine::{EngineConfig, EngineError};

fn opening() -> StreamOpening {
    StreamOpening::start(
        "host:443",
        "/svc/Stream",
        vec!["c1".to_string(), "c2".to_string()],
        Some("cur".to_string()),
        None,
    )
    .unwrap()
    .0
}

fn failure(action: OpenAction) -> String {
    match action {
        OpenAction::Fail(EngineError::Transport { message }) => message,
        _ => panic!("no failure"),
    }
}

#[test]
fn request_ids_are_hex_times() {
    assert_eq!(request_id_at(0), "0".repeat(32));
    assert_eq!(request_id_at(255), format!("{:032x}", 255));
    assert_ne!(request_id_at(1), request_id_at(2));
    let id = uuid_v4_hex();
    assert_eq!(id.len(), 32);
    assert!(id.chars().all(|c| c.is_ascii_hexdigit()));
    assert_ne!(id, "0".repeat(32));
}

#[test]
fn stream_constants() {
    assert_eq!(RECV_POLL_INTERVAL_MS, 50);
    assert_eq!(OUTGOING_CHANNEL_DEPTH, 256);
}

#[test]
fn opened_stream_is_subscribed() {
    let mut o = opening();
    assert_eq!(o.step(), OpenStep::SendRequest);
    assert!(matches!(o.on_event(OpenEvent::Done), OpenAction::RecvResponse));
    match o.on_event(OpenEvent::Response(200)) {
        OpenAction::SendSubscribe(req) => {
            assert_eq!(req.request_id.len(), 32);
            assert!(req.attempt_id.is_none());
            match req.request {
                StreamPayload::Subscribe { conversation_ids, since_cursor, include_presence } => {
                    assert_eq!(conversation_ids, vec!["c1".to_string(), "c2".to_string()]);
                    assert_eq!(since_cursor.as_deref(), Some("cur"));
                    assert!(!include_presence);
                }
                other => panic!("{other:?}"),
            }
        }
        _ => panic!("no subscription"),
    }
    assert!(matches!(o.on_event(OpenEvent::Done), OpenAction::Opened));
    assert_eq!(o.step(), OpenStep::Ended);
}

#[test]
fn stream_request_goes_to_the_messaging_service() {
    let mut t = Transport::new(EngineConfig::default());
    match t.open_message_stream(vec![], None) {
        Err(EngineError::Transport { message }) => assert_eq!(message, "H3 not connected"),
        _ => panic!("accepted"),
    }
    t.connect_h3(Ok(())).unwrap();
    t.set_token("tok".to_string());
    let (_, req) = t.open_message_stream(vec![], None).unwrap();
    assert_eq!(
        req.uri().to_string(),
        "https://api.konstruct.cc:443/shared.proto.services.v1.MessagingService/MessageStream"
    );
    assert_eq!(req.headers()["authorization"], "Bearer tok");
    t.set_token("a\nb".to_string());
    match t.open_message_stream(vec![], None) {
        Err(EngineError::Transport { message }) => {
            assert_eq!(message, "build stream request: failed to parse header value")
        }
        _ => panic!("accepted"),
    }
}

#[test]
fn stream_opening_failures_name_the_step() {
    let boom = || OpenEvent::Failed("boom".to_string());
    assert_eq!(failure(opening().on_event(boom())), "open MessageStream: boom");
    let mut o = opening();
    o.on_event(OpenEvent::Done);
    assert_eq!(failure(o.on_event(boom())), "MessageStream recv_response: boom");
    let mut o = opening();
    o.on_event(OpenEvent::Done);
    assert_eq!(failure(o.on_event(OpenEvent::Response(503))), "MessageStream HTTP 503 Service Unavailable");
    let mut o = opening();
    o.on_event(OpenEvent::Done);
    o.on_event(OpenEvent::Response(200));
    assert_eq!(failure(o.on_event(boom())), "SubscribeRequest send: boom");
}

#[test]
fn pump_drains_the_queue_then_receives() {
    let mut p = StreamPump::new();
    assert_eq!(p.step(), PumpStep::PollOutgoing);
    let frame = Bytes::from_static(b"frame");
    assert!(matches!(p.on_event(PumpEvent::Outgoing(frame.clone())), PumpAction::Send(f) if f == frame));
    assert!(matches!(p.on_event(PumpEvent::Sent), PumpAction::PollOutgoing));
    assert!(matches!(p.on_event(PumpEvent::OutgoingEmpty), PumpAction::Recv));
    assert!(matches!(p.on_event(PumpEvent::TimedOut), PumpAction::PollOutgoing));
}

#[test]
fn pump_delivers_frames_however_they_are_cut() {
    let mut data = encode_grpc_frame(b"first").to_vec();
    data.extend_from_slice(&encode_grpc_frame(b""));
    data.extend_from_slice(&encode_grpc_frame(b"third"));
    for size in 1..data.len() + 1 {
        let mut p = StreamPump::new();
        let mut got = Vec::new();
        for piece in data.chunks(size) {
            p.on_event(PumpEvent::OutgoingEmpty);
            let piece = Bytes::copy_from_slice(piece);
            assert!(p.has_room_for(&piece));
            match p.on_event(PumpEvent::Received(piece)) {
                PumpAction::Deliver(frames) => got.extend(frames),
                _ => panic!("nothing delivered"),
            }
        }
        assert_eq!(
            got,
            vec![encode_grpc_frame(b"first"), encode_grpc_frame(b""), encode_grpc_frame(b"third")]
        );
    }
}

#[test]
fn pump_stops() {
    let mut p = StreamPump::new();
    assert!(matches!(p.on_event(PumpEvent::OutgoingClosed), PumpAction::Finish));
    assert!(matches!(p.on_event(PumpEvent::Finished), PumpAction::Stop(None)));
    assert_eq!(p.step(), PumpStep::Stopped);
    let mut p = StreamPump::new();
    p.on_event(PumpEvent::Outgoing(Bytes::new()));
    assert!(matches!(p.on_event(PumpEvent::SendFailed("x".to_string())), PumpAction::Finish));
    assert!(matches!(p.on_event(PumpEvent::Finished), PumpAction::Stop(Some(text))
        if text == "MessageStream send_data failed: x"));
    for (end, reason) in [
        (PumpEvent::RemoteClosed, "MessageStream: server closed send side"),
        (PumpEvent::RecvFailed("x".to_string()), "MessageStream recv_data error: x"),
    ] {
        let mut p = StreamPump::new();
        p.on_event(PumpEvent::OutgoingEmpty);
        assert!(matches!(p.on_event(end), PumpAction::Stop(Some(text)) if text == reason));
    }
}

#[test]
fn frames_for_a_closed_stream_are_refused() {
    assert!(send_frame_result(true).is_ok());
    match send_frame_result(false) {
        Err(EngineError::Transport { message }) => assert_eq!(message, "MessageStream send channel closed"),
        _ => panic!("accepted"),
    }
}
