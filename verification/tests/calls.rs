use bytes::{Bytes, BytesMut};
use construct_engine::transport::connection::{
    connect_failure, CertificateTrust, ConnectStep, SetupAction, SetupEvent,
};
use construct_engine::transport::grpc::encode_grpc_frame;
use construct_engine::transport::unary::{
    read_reply, read_trailer_status, UnaryAction, UnaryCall, UnaryEvent, UnaryStep,
};
use construct_engine::transport::{QuicConnection, Transport, KEY_COUNT};
use construct_engine::{EngineConfig, EngineError};

fn trailers(status: &str, message: &str) -> http::HeaderMap<http::HeaderValue> {
    let mut map = http::HeaderMap::new();
    map.insert("grpc-status", http::HeaderValue::from_str(status).unwrap());
    map.insert("grpc-message", http::HeaderValue::from_str(message).unwrap());
    map
}

fn started() -> UnaryCall {
    UnaryCall::start("host:443", "/svc/M", b"req", Some("tok")).unwrap().0
}

fn at_body() -> UnaryCall {
    let mut call = started();
    assert!(matches!(call.on_event(UnaryEvent::Done), UnaryAction::SendData(f) if f == encode_grpc_frame(b"req")));
    assert!(matches!(call.on_event(UnaryEvent::Done), UnaryAction::Finish));
    assert!(matches!(call.on_event(UnaryEvent::Done), UnaryAction::RecvResponse));
    assert!(matches!(call.on_event(UnaryEvent::Response(200)), UnaryAction::RecvData));
    call
}

fn message_of(action: UnaryAction) -> String {
    match action {
        UnaryAction::Return(Err(EngineError::Transport { message })) => message,
        _ => panic!("no transport error"),
    }
}

#[test]
fn call_request_has_method_uri_and_headers() {
    let (call, req) = UnaryCall::start("host:443", "/svc/M", b"req", Some("tok")).unwrap();
    assert_eq!(call.step(), UnaryStep::SendRequest);
    assert_eq!(req.method(), "POST");
    assert_eq!(req.uri().to_string(), "https://host:443/svc/M");
    let headers = req.headers();
    assert_eq!(headers.len(), 5);
    assert_eq!(headers["content-type"], "application/grpc+proto");
    assert_eq!(headers["te"], "trailers");
    assert_eq!(headers["grpc-encoding"], "identity");
    assert_eq!(headers["user-agent"], "construct-engine/0.1.0");
    assert_eq!(headers["authorization"], "Bearer tok");
    let (_, req) = UnaryCall::start("host:443", "/svc/M", b"req", None).unwrap();
    assert!(req.headers().get("authorization").is_none());
}

#[test]
fn unusable_requests_are_refused() {
    for (r, text) in [
        (UnaryCall::start("no host", "/svc/M", b"", None), "build request: invalid uri character"),
        (
            UnaryCall::start("host", "/svc/M", b"", Some("a\nb")),
            "build request: failed to parse header value",
        ),
        (
            UnaryCall::start("no host", "/svc/M", b"", Some("a\nb")),
            "build request: invalid uri character",
        ),
    ] {
        match r {
            Err(EngineError::Transport { message }) => assert_eq!(message, text),
            _ => panic!("accepted"),
        }
    }
}

#[test]
fn answered_call_returns_the_message() {
    let mut call = at_body();
    let frame = encode_grpc_frame(b"answer");
    let (a, b) = frame.split_at(4);
    for part in [a, b] {
        let data = Bytes::copy_from_slice(part);
        assert!(call.has_room_for(&data));
        assert!(matches!(call.on_event(UnaryEvent::Chunk(data)), UnaryAction::RecvData));
    }
    assert!(matches!(call.on_event(UnaryEvent::End), UnaryAction::RecvTrailers));
    match call.on_event(UnaryEvent::Trailers(Some(trailers("0", "")))) {
        UnaryAction::Return(Ok(msg)) => assert_eq!(msg, b"answer"),
        _ => panic!("no message"),
    }
    assert_eq!(call.step(), UnaryStep::Returned);
}

#[test]
fn empty_body_is_an_empty_message() {
    let mut call = at_body();
    assert!(matches!(call.on_event(UnaryEvent::End), UnaryAction::RecvTrailers));
    match call.on_event(UnaryEvent::Trailers(None)) {
        UnaryAction::Return(Ok(msg)) => assert!(msg.is_empty()),
        _ => panic!("no message"),
    }
}

#[test]
fn server_errors_win_over_the_body() {
    let mut call = at_body();
    call.on_event(UnaryEvent::Chunk(encode_grpc_frame(b"ignored")));
    call.on_event(UnaryEvent::End);
    match call.on_event(UnaryEvent::Trailers(Some(trailers("16", "token expired")))) {
        UnaryAction::Return(Err(EngineError::Unauthenticated { message })) => {
            assert_eq!(message, "token expired")
        }
        _ => panic!("accepted"),
    }
    match read_reply(Some((5, "gone".to_string())), BytesMut::new()) {
        Err(EngineError::Grpc { code, message }) => assert_eq!((code, message.as_str()), (5, "gone")),
        _ => panic!("accepted"),
    }
    let mut body = BytesMut::new();
    body.extend_from_slice(&[0, 0]);
    assert!(matches!(read_reply(Some((0, String::new())), body), Err(EngineError::Transport { .. })));
}

#[test]
fn trailer_status_falls_back_to_unknown() {
    assert_eq!(read_trailer_status(&trailers("7", "no")), (7, "no".to_string()));
    assert_eq!(read_trailer_status(&http::HeaderMap::new()), (2, String::new()));
    assert_eq!(read_trailer_status(&trailers("x", "")), (2, String::new()));
    let mut map = trailers("7", "no");
    map.insert("grpc-message", http::HeaderValue::from_bytes(&[200]).unwrap());
    assert_eq!(read_trailer_status(&map), (7, String::new()));
}

#[test]
fn http_errors_fail_the_call() {
    let mut call = started();
    call.on_event(UnaryEvent::Done);
    call.on_event(UnaryEvent::Done);
    call.on_event(UnaryEvent::Done);
    let action = call.on_event(UnaryEvent::Response(404));
    assert_eq!(message_of(action), "HTTP 404 Not Found from '/svc/M'");
}

#[test]
fn failed_steps_name_themselves() {
    let boom = || UnaryEvent::Failed("boom".to_string());
    assert_eq!(message_of(started().on_event(boom())), "send_request '/svc/M': boom");
    let mut call = started();
    call.on_event(UnaryEvent::Done);
    assert_eq!(message_of(call.on_event(boom())), "send_data: boom");
    let mut call = started();
    call.on_event(UnaryEvent::Done);
    call.on_event(UnaryEvent::Done);
    assert_eq!(message_of(call.on_event(boom())), "finish: boom");
    let mut call = started();
    for _ in 0..3 {
        call.on_event(UnaryEvent::Done);
    }
    assert_eq!(message_of(call.on_event(boom())), "recv_response: boom");
    assert_eq!(message_of(at_body().on_event(boom())), "recv_data: boom");
    let mut call = at_body();
    call.on_event(UnaryEvent::End);
    assert_eq!(message_of(call.on_event(boom())), "recv_trailers: boom");
}

#[test]
fn transport_drops_its_connection_after_transport_errors() {
    let mut t = Transport::new(EngineConfig::default());
    assert!(t.needs_connection());
    match t.unary_call(KEY_COUNT, b"") {
        Err(EngineError::Transport { message }) => assert_eq!(message, "H3 not connected"),
        _ => panic!("accepted"),
    }
    t.connect_h3(Ok(())).unwrap();
    assert!(!t.needs_connection());
    t.after_call(&Ok(vec![]));
    t.after_call(&Err(EngineError::grpc(5, "gone")));
    assert!(!t.needs_connection());
    t.after_call(&Err(EngineError::transport("reset")));
    assert!(t.needs_connection());
}

#[test]
fn transport_calls_carry_the_current_token() {
    let mut config = EngineConfig::default();
    config.auth_token = Some("old".to_string());
    let mut t = Transport::new(config);
    t.connect_h3(Ok(())).unwrap();
    let (_, req) = t.unary_call(KEY_COUNT, b"").unwrap();
    assert_eq!(req.headers()["authorization"], "Bearer old");
    assert_eq!(
        req.uri().to_string(),
        "https://api.konstruct.cc:443/shared.proto.services.v1.KeyService/GetPreKeyCount"
    );
    t.set_token("new".to_string());
    let (_, req) = t.unary_call(KEY_COUNT, b"").unwrap();
    assert_eq!(req.headers()["authorization"], "Bearer new");
    t.clear_token();
    let (_, req) = t.unary_call(KEY_COUNT, b"").unwrap();
    assert!(req.headers().get("authorization").is_none());
    t.set_token("a\rb".to_string());
    assert!(t.unary_call(KEY_COUNT, b"").is_err());
    assert!(t.needs_connection());
}

#[test]
fn failed_connections_name_the_step() {
    for (step, text) in [
        (ConnectStep::Connect, "connect: x"),
        (ConnectStep::Handshake, "handshake: x"),
        (ConnectStep::H3Init, "h3 client init: x"),
    ] {
        match connect_failure(step, "x") {
            EngineError::Transport { message } => assert_eq!(message, text),
            other => panic!("{other:?}"),
        }
    }
}

#[test]
fn endpoint_setup_runs_to_the_first_address() {
    let (mut setup, first) = QuicConnection::new(&EngineConfig::default());
    assert!(matches!(first, SetupAction::LoadNativeCerts));
    assert_eq!(setup.server_name(), "api.konstruct.cc");
    assert!(matches!(setup.on_event(SetupEvent::Done), SetupAction::AddCerts));
    assert!(matches!(
        setup.on_event(SetupEvent::Done),
        SetupAction::BuildConfig(CertificateTrust::SystemAndBundledRoots)
    ));
    assert!(matches!(setup.on_event(SetupEvent::Done), SetupAction::Bind));
    assert!(matches!(setup.on_event(SetupEvent::Done), SetupAction::Resolve(n) if n == "api.konstruct.cc:443"));
    let found = vec!["1.2.3.4:443".to_string(), "5.6.7.8:443".to_string()];
    assert!(matches!(setup.on_event(SetupEvent::Resolved(found)), SetupAction::Ready(a) if a == "1.2.3.4:443"));
}

#[test]
fn endpoint_setup_without_verification() {
    let mut config = EngineConfig::default();
    config.verify_certs = false;
    let (_, first) = QuicConnection::new(&config);
    assert!(matches!(first, SetupAction::BuildConfig(CertificateTrust::AnyCertificate)));
}

#[test]
fn failed_setup_steps_name_themselves() {
    let expected = [
        "TLS error: native certs: x",
        "TLS error: add cert: x",
        "TLS error: QuicClientConfig: x",
        "Transport error: endpoint bind: x",
        "Transport error: DNS resolve 'api.konstruct.cc:443': x",
    ];
    for (n, text) in expected.iter().enumerate() {
        let (mut setup, _) = QuicConnection::new(&EngineConfig::default());
        for _ in 0..n {
            setup.on_event(SetupEvent::Done);
        }
        match setup.on_event(SetupEvent::Failed("x".to_string())) {
            SetupAction::Fail(e) => assert_eq!(e.display_text(), *text),
            _ => panic!("no failure"),
        }
    }
    let (mut setup, _) = QuicConnection::new(&EngineConfig::default());
    for _ in 0..4 {
        setup.on_event(SetupEvent::Done);
    }
    match setup.on_event(SetupEvent::Resolved(vec![])) {
        SetupAction::Fail(e) => {
            assert_eq!(e.display_text(), "Transport error: no addresses for 'api.konstruct.cc:443'")
        }
        _ => panic!("no failure"),
    }
}
