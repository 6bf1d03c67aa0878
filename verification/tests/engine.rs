use bytes::Bytes;
use construct_engine::engine::{
    start_failure, AuthTokens, Command, CoreResult, LinkEvent, LoopPhase, Pending, Reply,
    RpcRequest, StartStep,
};
use construct_engine::messages::StreamPayload;
use construct_engine::transport::connection::ConnectStep;
use construct_engine::transport::{
    Transport, AUTH_AUTHENTICATE, AUTH_LOGOUT, AUTH_REFRESH, AUTH_REGISTER, KEY_COUNT,
    KEY_GET_BUNDLE, KEY_ROTATE_SPK, KEY_UPLOAD, NOTIFICATION_REGISTER, USER_FIND,
};
use construct_engine::{ConstructEngine, EngineConfig, EngineError, PlatformAction, UiEvent};

fn s(text: &str) -> String {
    text.to_string()
}

fn engine() -> ConstructEngine {
    ConstructEngine::new(Ok(true)).unwrap()
}

fn transport() -> Transport {
    let mut config = EngineConfig::default();
    config.my_device_id = s("dev");
    config.my_user_id = s("me");
    config.auth_token = Some(s("tok"));
    Transport::new(config)
}

fn bearer(t: &mut Transport) -> Option<String> {
    t.connect_h3(Ok(())).unwrap();
    let (_, req) = t.unary_call(KEY_COUNT, b"").unwrap();
    req.headers().get("authorization").map(|v| v.to_str().unwrap().to_string())
}

fn serving() -> (ConstructEngine, Transport) {
    let mut e = engine();
    let mut t = transport();
    e.start().unwrap();
    e.transport_result(Ok(()));
    e.on_link_event(&mut t, LinkEvent::Connected);
    (e, t)
}

fn handle(event: UiEvent) -> Vec<Command> {
    engine().handle_event_at(&transport(), event, 1_700_000_000)
}

fn call(mut cmds: Vec<Command>) -> (&'static str, RpcRequest, Pending) {
    assert_eq!(cmds.len(), 1);
    match cmds.remove(0) {
        Command::Call { path, request, pending } => (path, request, pending),
        other => panic!("{other:?}"),
    }
}

#[test]
fn authentication_is_sent_with_the_time() {
    let (path, request, pending) = call(handle(UiEvent::Authenticate {
        device_id: s("d"),
        challenge_response: vec![1, 2],
        signing_key: vec![3],
    }));
    assert_eq!(path, AUTH_AUTHENTICATE);
    assert!(matches!(pending, Pending::Authenticate));
    match request {
        RpcRequest::Authenticate { device_id, timestamp, signature } => {
            assert_eq!((device_id.as_str(), timestamp, signature), ("d", 1_700_000_000, vec![1, 2]))
        }
        other => panic!("{other:?}"),
    }
}

#[test]
fn events_read_the_clock() {
    let cmds = engine().handle_event(
        &transport(),
        UiEvent::Authenticate { device_id: s("d"), challenge_response: vec![], signing_key: vec![] },
    );
    match call(cmds).1 {
        RpcRequest::Authenticate { timestamp, .. } => assert!(timestamp > 1_600_000_000),
        other => panic!("{other:?}"),
    }
}

#[test]
fn session_events_become_calls() {
    let (path, request, _) = call(handle(UiEvent::RefreshToken { refresh_token: s("r") }));
    assert_eq!(path, AUTH_REFRESH);
    assert!(matches!(request, RpcRequest::RefreshToken { refresh_token, device_id }
        if refresh_token == "r" && device_id == "dev"));
    let (path, request, _) = call(handle(UiEvent::Logout));
    assert_eq!(path, AUTH_LOGOUT);
    assert!(matches!(request, RpcRequest::Logout { access_token, all_devices: false }
        if access_token == "tok"));
    let bare = Transport::new(EngineConfig::default());
    let cmds = engine().handle_event_at(&bare, UiEvent::Logout, 0);
    assert!(matches!(call(cmds).1, RpcRequest::Logout { access_token, .. } if access_token.is_empty()));
    let (path, request, _) = call(handle(UiEvent::RegisterPushToken { token: s("t"), platform: s("apns") }));
    assert_eq!(path, NOTIFICATION_REGISTER);
    assert!(matches!(request, RpcRequest::RegisterDeviceToken { device_token, device_id }
        if device_token == "t" && device_id == "dev"));
    let (path, request, _) = call(handle(UiEvent::SearchUser { query: s("ann") }));
    assert_eq!(path, USER_FIND);
    assert!(matches!(request, RpcRequest::FindUser { username } if username == "ann"));
}

#[test]
fn key_events_become_calls_and_core_work() {
    let (path, request, pending) =
        call(handle(UiEvent::FetchPreKeyBundle { user_id: s("u"), device_id: None }));
    assert_eq!(path, KEY_GET_BUNDLE);
    assert!(matches!(request, RpcRequest::GetPreKeyBundle { user_id, device_id: None } if user_id == "u"));
    assert!(matches!(pending, Pending::FetchPreKeyBundle { user_id } if user_id == "u"));
    let (path, request, _) =
        call(handle(UiEvent::UploadPreKeys { device_id: s("d"), request_bytes: vec![4] }));
    assert_eq!(path, KEY_UPLOAD);
    assert!(matches!(request, RpcRequest::Encoded(b) if b == [4]));
    let (path, _, _) = call(handle(UiEvent::GetPreKeyCount { device_id: s("d") }));
    assert_eq!(path, KEY_COUNT);
    let cmds = handle(UiEvent::UploadOtpks { device_id: s("d"), count: 9 });
    assert!(matches!(&cmds[..], [Command::GenerateOtpks { device_id, count: 9 }] if device_id == "d"));
    let cmds = handle(UiEvent::RotateSignedPreKey { device_id: s("d") });
    assert!(matches!(&cmds[..], [Command::RotateSpk { device_id }] if device_id == "d"));
    let cmds = handle(UiEvent::RegisterDevice { username: Some(s("ann")), device_id: s("d") });
    assert!(matches!(&cmds[..], [Command::FetchChallenge { username: Some(u), device_id }]
        if u == "ann" && device_id == "d"));
}

#[test]
fn session_starts_with_the_contacts_bundle() {
    let (path, request, pending) = call(handle(UiEvent::InitSessionInitiator { contact_id: s("c") }));
    assert_eq!(path, KEY_GET_BUNDLE);
    assert!(matches!(request, RpcRequest::GetPreKeyBundle { user_id, device_id: None } if user_id == "c"));
    let mut t = transport();
    let cmds = engine().handle_reply(&mut t, pending, Reply::Raw(vec![8]));
    assert!(matches!(&cmds[..], [Command::InitSession { contact_id, bundle_bytes }]
        if contact_id == "c" && bundle_bytes == &[8]));
    let cmds = engine().handle_core_result(CoreResult::SessionInitiated {
        contact_id: s("c"),
        wire_payload: vec![9],
    });
    assert!(matches!(&cmds[..], [Command::Emit(PlatformAction::SessionInitiatorReady { contact_id, wire_payload })]
        if contact_id == "c" && wire_payload == &[9]));
    let cmds = engine().handle_core_result(CoreResult::SessionFailed { contact_id: s("c"), message: s("bad") });
    assert!(matches!(&cmds[..], [Command::Emit(PlatformAction::SessionError { contact_id, message })]
        if contact_id == "c" && message == "bad"));
    let pending = || Pending::InitSession { contact_id: s("c") };
    let cmds = engine().handle_reply(&mut t, pending(), Reply::Failed(EngineError::transport("x")));
    assert!(matches!(&cmds[..], [Command::Emit(PlatformAction::SessionError { contact_id, message })]
        if contact_id == "c" && message == "Transport error: x"));
    let cmds = engine().handle_reply(&mut t, pending(), Reply::Failed(EngineError::unauthenticated("x")));
    assert!(matches!(&cmds[..], [
        Command::Emit(PlatformAction::ClearAuth),
        Command::Emit(PlatformAction::SessionError { .. }),
    ]));
}

#[test]
fn core_work_needs_a_core() {
    let mut e = ConstructEngine::new(Ok(false)).unwrap();
    assert!(!e.core_ready());
    let events = [
        UiEvent::UploadOtpks { device_id: s("d"), count: 9 },
        UiEvent::RotateSignedPreKey { device_id: s("d") },
        UiEvent::RegisterDevice { username: None, device_id: s("d") },
    ];
    for event in events {
        assert!(e.handle_event_at(&transport(), event, 0).is_empty());
    }
}

#[test]
fn events_without_work_are_ignored() {
    let events = [
        UiEvent::PlatformReady,
        UiEvent::Signal { call_id: s("c"), signal_bytes: vec![] },
        UiEvent::P2PHandoffInitiate { peer_id: s("p"), candidates: vec![] },
        UiEvent::KeychainResult { key: s("private_keys"), data: None },
        UiEvent::KeychainResult { key: s("other"), data: Some(vec![1]) },
    ];
    for event in events {
        assert!(handle(event).is_empty());
    }
}

#[test]
fn keychain_keys_build_the_core() {
    let cmds = handle(UiEvent::KeychainResult { key: s("private_keys"), data: Some(vec![1, 2]) });
    assert!(matches!(&cmds[..], [Command::BuildCore { keys, user_id }]
        if keys == &[1, 2] && user_id == "me"));
    let mut e = ConstructEngine::new(Ok(false)).unwrap();
    e.init_core_from_keys(Ok(true)).unwrap();
    assert!(e.core_ready());
    assert!(e.init_core_from_keys(Err(EngineError::crypto("bad"))).is_err());
    assert!(e.core_ready());
    e.init_core_from_keys(Ok(false)).unwrap();
    assert!(!e.core_ready());
    assert!(ConstructEngine::new(Err(EngineError::crypto("bad"))).is_err());
}

#[test]
fn messages_need_an_open_stream() {
    let mut e = engine();
    let t = transport();
    let message = || UiEvent::SendMessage {
        contact_id: s("c"),
        encrypted_payload: vec![1, 2],
        local_id: s("l1"),
        conversation_id: s("conv"),
    };
    let ack = || UiEvent::AckMessage { message_id: s("m1"), message_number: 4 };
    assert!(e.handle_event_at(&t, message(), 0).is_empty());
    assert!(e.handle_event_at(&t, ack(), 0).is_empty());
    assert!(matches!(e.stream_result(Ok(())), PlatformAction::StreamReady { stream_cursor: None }));
    assert!(e.stream_open());
    let mut cmds = e.handle_event_at(&t, message(), 0);
    assert_eq!(cmds.len(), 1);
    match cmds.remove(0) {
        Command::SendFrame(req) => {
            assert_eq!(req.request_id, "l1");
            assert_eq!(req.attempt_id.as_deref(), Some("l1"));
            match req.request {
                StreamPayload::Send(env) => {
                    assert_eq!(env.conversation_id, "conv");
                    assert_eq!(env.encrypted_payload, vec![1, 2]);
                    assert_eq!(env.message_id, "l1");
                }
                other => panic!("{other:?}"),
            }
        }
        other => panic!("{other:?}"),
    }
    let mut cmds = e.handle_event_at(&t, ack(), 77);
    assert_eq!(cmds.len(), 1);
    match cmds.remove(0) {
        Command::SendFrame(req) => {
            assert_eq!(req.request_id, "m1");
            assert!(req.attempt_id.is_none());
            match req.request {
                StreamPayload::Receipt { message_ids, status, timestamp } => {
                    assert_eq!((message_ids, status, timestamp), (vec![s("m1")], 1, 77))
                }
                other => panic!("{other:?}"),
            }
        }
        other => panic!("{other:?}"),
    }
    let cmds = e.handle_event_at(&t, UiEvent::CloseMessageStream, 0);
    assert!(matches!(&cmds[..], [Command::DropStream]));
    assert!(!e.stream_open());
    assert!(e.handle_event_at(&t, message(), 0).is_empty());
}

#[test]
fn failed_stream_is_reported() {
    let mut e = engine();
    match e.stream_result(Err(EngineError::transport("reset"))) {
        PlatformAction::StreamError { message } => assert_eq!(message, "Transport error: reset"),
        other => panic!("{other:?}"),
    }
    assert!(!e.stream_open());
}

#[test]
fn stream_that_ends_unexpectedly_is_opened_again() {
    let (mut e, t) = serving();
    assert!(e.stream_ended(Some(s("gone"))).is_empty());
    let open = UiEvent::OpenMessageStream { conversation_ids: vec![s("c1")], since_cursor: None };
    e.handle_event_at(&t, open, 0);
    e.stream_result(Ok(()));
    assert!(e.stream_ended(None).is_empty());
    assert!(e.stream_open());
    let cmds = e.stream_ended(Some(s("gone")));
    assert!(matches!(&cmds[..], [
        Command::Emit(PlatformAction::StreamError { message }),
        Command::DropStream,
        Command::OpenStream { conversation_ids, since_cursor: None },
    ] if message == "gone" && conversation_ids == &[s("c1")]));
    assert!(!e.stream_open());
    e.stream_result(Ok(()));
    e.handle_event_at(&t, UiEvent::CloseMessageStream, 0);
    assert!(e.stream_ended(Some(s("late"))).is_empty());
}

#[test]
fn incoming_frames_are_saved() {
    match ConstructEngine::incoming_frame(&Bytes::from_static(&[0, 0, 0, 0, 1, 9])) {
        PlatformAction::SaveMessage { envelope_bytes, sender_id, conversation_id, timestamp } => {
            assert_eq!(envelope_bytes, vec![0, 0, 0, 0, 1, 9]);
            assert_eq!((sender_id.as_str(), conversation_id.as_str(), timestamp), ("", "", 0));
        }
        other => panic!("{other:?}"),
    }
}

#[test]
fn replies_belong_to_their_calls() {
    assert!(Reply::Raw(vec![]).answers(&Pending::Logout));
    assert!(!Reply::Raw(vec![]).answers(&Pending::Authenticate));
    assert!(Reply::Failed(EngineError::Timeout).answers(&Pending::SearchUser));
    assert!(Reply::Authenticated { tokens: None }.answers(&Pending::Authenticate));
    assert!(!Reply::Authenticated { tokens: None }.answers(&Pending::RefreshToken));
    assert!(Reply::Undecodable(s("x")).answers(&Pending::UploadOtpks { count: 1 }));
    assert!(!Reply::Undecodable(s("x")).answers(&Pending::RegisterPush));
    assert!(Reply::OtpksStored { server_count: 1 }.answers(&Pending::UploadOtpks { count: 1 }));
    assert!(Reply::UserFound { user_id: s("u") }.answers(&Pending::SearchUser));
}

#[test]
fn authenticated_reply_sets_the_token() {
    let e = engine();
    let mut t = transport();
    let tokens = AuthTokens { access_token: s("a"), refresh_token: s("r"), expires_at: 5 };
    let cmds = e.handle_reply(&mut t, Pending::Authenticate, Reply::Authenticated { tokens: Some(tokens) });
    assert!(matches!(&cmds[..], [Command::Emit(PlatformAction::SetAuthToken {
        user_id, access_token, refresh_token, expires_at: 5,
    })] if user_id.is_empty() && access_token == "a" && refresh_token == "r"));
    assert_eq!(bearer(&mut t).as_deref(), Some("Bearer a"));
    let cmds = e.handle_reply(&mut t, Pending::Authenticate, Reply::Authenticated { tokens: None });
    assert!(cmds.is_empty());
    assert_eq!(bearer(&mut t).as_deref(), Some("Bearer a"));
}

#[test]
fn refreshed_reply_sets_the_token() {
    let mut t = transport();
    let reply = Reply::Refreshed { access_token: s("b"), refresh_token: None, expires_at: 6 };
    let cmds = engine().handle_reply(&mut t, Pending::RefreshToken, reply);
    assert!(matches!(&cmds[..], [Command::Emit(PlatformAction::SetAuthToken { access_token, refresh_token, .. })]
        if access_token == "b" && refresh_token.is_empty()));
    assert_eq!(bearer(&mut t).as_deref(), Some("Bearer b"));
}

#[test]
fn rejected_credentials_are_cleared() {
    for pending in [
        Pending::Authenticate,
        Pending::RefreshToken,
        Pending::Logout,
        Pending::FetchPreKeyBundle { user_id: s("u") },
        Pending::UploadPreKeys,
        Pending::UploadOtpks { count: 3 },
        Pending::GetPreKeyCount { device_id: s("d") },
        Pending::RotateSignedPreKey { key_id: 4 },
        Pending::SearchUser,
        Pending::RegisterPush,
        Pending::RegisterDevice { device_id: s("d") },
    ] {
        let mut t = transport();
        let reply = Reply::Failed(EngineError::unauthenticated("expired"));
        let cmds = engine().handle_reply(&mut t, pending, reply);
        assert!(matches!(&cmds[..], [Command::Emit(PlatformAction::ClearAuth)]));
    }
    for pending in [Pending::Authenticate, Pending::RefreshToken] {
        let mut t = transport();
        assert!(engine().handle_reply(&mut t, pending, Reply::Failed(EngineError::transport("x"))).is_empty());
    }
}

#[test]
fn logout_clears_even_when_the_server_fails() {
    for reply in [Reply::Raw(vec![]), Reply::Failed(EngineError::transport("x"))] {
        let mut t = transport();
        let cmds = engine().handle_reply(&mut t, Pending::Logout, reply);
        assert!(matches!(&cmds[..], [Command::Emit(PlatformAction::ClearAuth)]));
        assert_eq!(bearer(&mut t), None);
    }
}

#[test]
fn key_replies_are_passed_on() {
    let mut t = transport();
    let cmds = engine().handle_reply(
        &mut t,
        Pending::FetchPreKeyBundle { user_id: s("u") },
        Reply::Raw(vec![8]),
    );
    assert!(matches!(&cmds[..], [Command::Emit(PlatformAction::PreKeyBundleReady { user_id, bundle_bytes })]
        if user_id == "u" && bundle_bytes == &[8]));
    let cmds = engine().handle_reply(&mut t, Pending::UploadOtpks { count: 3 }, Reply::OtpksStored { server_count: 10 });
    assert!(matches!(&cmds[..], [Command::Emit(PlatformAction::OtpksUploaded { uploaded: 3, server_count: 10 })]));
    let cmds = engine().handle_reply(&mut t, Pending::RotateSignedPreKey { key_id: 4 }, Reply::Raw(vec![]));
    assert!(matches!(&cmds[..], [Command::Emit(PlatformAction::SpkRotated { key_id: 4 })]));
    let failed = || Reply::Failed(EngineError::transport("x"));
    for pending in [
        Pending::FetchPreKeyBundle { user_id: s("u") },
        Pending::UploadPreKeys,
        Pending::UploadOtpks { count: 3 },
        Pending::GetPreKeyCount { device_id: s("d") },
        Pending::RotateSignedPreKey { key_id: 4 },
        Pending::SearchUser,
        Pending::RegisterPush,
        Pending::RegisterDevice { device_id: s("d") },
    ] {
        assert!(engine().handle_reply(&mut t, pending, failed()).is_empty());
    }
    assert!(engine().handle_reply(&mut t, Pending::SearchUser, Reply::UserFound { user_id: s("u") }).is_empty());
    assert!(engine().handle_reply(&mut t, Pending::SearchUser, Reply::Undecodable(s("x"))).is_empty());
}

#[test]
fn missing_pre_keys_are_made_up() {
    let mut t = transport();
    let count = |count, recommended_minimum| Reply::PreKeyCount { count, recommended_minimum };
    let pending = || Pending::GetPreKeyCount { device_id: s("d") };
    let cmds = engine().handle_reply(&mut t, pending(), count(3, 10));
    assert!(matches!(&cmds[..], [
        Command::Emit(PlatformAction::PreKeyCountUpdated { count: 3, recommended_minimum: 10 }),
        Command::GenerateOtpks { device_id, count: 7 },
    ] if device_id == "d"));
    assert_eq!(engine().handle_reply(&mut t, pending(), count(10, 10)).len(), 1);
    let bare = ConstructEngine::new(Ok(false)).unwrap();
    assert_eq!(bare.handle_reply(&mut t, pending(), count(3, 10)).len(), 1);
}

#[test]
fn core_state_is_saved_before_the_call() {
    let e = engine();
    let cmds = e.handle_core_result(CoreResult::OtpksGenerated { count: 3, request_bytes: vec![1], state: vec![2] });
    assert!(matches!(&cmds[..], [
        Command::Emit(PlatformAction::SaveKeychain { key, data }),
        Command::Call { path, request: RpcRequest::Encoded(b), pending: Pending::UploadOtpks { count: 3 } },
    ] if key == "private_keys" && data == &[2] && *path == KEY_UPLOAD && b == &[1]));
    let cmds = e.handle_core_result(CoreResult::SpkRotated { key_id: 4, request_bytes: vec![1], state: vec![2] });
    assert!(matches!(&cmds[..], [
        Command::Emit(PlatformAction::SaveKeychain { .. }),
        Command::Call { path, pending: Pending::RotateSignedPreKey { key_id: 4 }, .. },
    ] if *path == KEY_ROTATE_SPK));
    let cmds = e.handle_core_result(CoreResult::ChallengeSolved { device_id: s("d"), request_bytes: vec![1] });
    assert!(matches!(&cmds[..], [Command::Call { path, pending: Pending::RegisterDevice { device_id }, .. }]
        if *path == AUTH_REGISTER && device_id == "d"));
    assert!(e.handle_core_result(CoreResult::Failed(s("x"))).is_empty());
    assert!(e.handle_core_result(CoreResult::CallFailed(EngineError::transport("x"))).is_empty());
    let cmds = e.handle_core_result(CoreResult::CallFailed(EngineError::unauthenticated("x")));
    assert!(matches!(&cmds[..], [Command::Emit(PlatformAction::ClearAuth)]));
}

#[test]
fn registration_is_completed() {
    let mut t = transport();
    let tokens = AuthTokens { access_token: s("a"), refresh_token: s("r"), expires_at: 5 };
    let cmds = engine().handle_reply(
        &mut t,
        Pending::RegisterDevice { device_id: s("d") },
        Reply::Registered { user_id: s("u"), tokens },
    );
    assert!(matches!(&cmds[..], [
        Command::Emit(PlatformAction::SetAuthToken { user_id, .. }),
        Command::Emit(PlatformAction::RegistrationComplete { user_id: u2, device_id }),
    ] if user_id == "u" && u2 == "u" && device_id == "d"));
    assert_eq!(bearer(&mut t).as_deref(), Some("Bearer a"));
}

#[test]
fn engine_starts_once() {
    let mut e = engine();
    assert_eq!(e.phase(), LoopPhase::Created);
    e.start().unwrap();
    assert!(matches!(e.start(), Err(EngineError::AlreadyRunning)));
    assert_eq!(start_failure(StartStep::Runtime, "x").display_text(), "Internal error: tokio runtime: x");
    assert_eq!(start_failure(StartStep::Thread, "x").display_text(), "Internal error: thread spawn: x");
}

#[test]
fn failed_transport_ends_the_loop() {
    let mut e = engine();
    e.start().unwrap();
    let cmds = e.transport_result(Err(EngineError::tls("no roots")));
    assert!(matches!(&cmds[..], [Command::Emit(PlatformAction::NetworkError { message }), Command::Stop]
        if message == "Transport init failed: TLS error: no roots"));
    assert_eq!(e.phase(), LoopPhase::Stopped);
}

#[test]
fn connection_attempts_back_off() {
    let mut e = engine();
    let mut t = transport();
    e.start().unwrap();
    assert!(matches!(&e.transport_result(Ok(()))[..], [Command::Connect]));
    for wait in [1, 2, 4, 8, 16, 32, 60, 60] {
        let cmds = e.on_link_event(&mut t, LinkEvent::ConnectFailed(ConnectStep::Handshake, s("timeout")));
        let expected = format!("Reconnecting in {wait}s… (Transport error: handshake: timeout)");
        assert!(matches!(&cmds[..], [Command::Emit(PlatformAction::NetworkError { message }), Command::Sleep(secs)]
            if *message == expected && *secs == wait));
        assert!(matches!(&e.on_link_event(&mut t, LinkEvent::Slept)[..], [Command::Connect]));
    }
    assert!(t.needs_connection());
    let cmds = e.on_link_event(&mut t, LinkEvent::Connected);
    assert!(matches!(&cmds[..], [Command::Emit(PlatformAction::ConnectionStateChanged { connected: true })]));
    assert!(!t.needs_connection());
}

#[test]
fn lost_connection_is_restored_with_its_stream() {
    let (mut e, mut t) = serving();
    let open = UiEvent::OpenMessageStream { conversation_ids: vec![s("c1")], since_cursor: Some(s("cur")) };
    let cmds = e.handle_event_at(&t, open, 0);
    assert!(matches!(&cmds[..], [Command::OpenStream { .. }]));
    e.stream_result(Ok(()));
    let cmds = e.on_link_event(&mut t, LinkEvent::Lost);
    assert!(matches!(&cmds[..], [
        Command::Emit(PlatformAction::ConnectionStateChanged { connected: false }),
        Command::DropStream,
        Command::Connect,
    ]));
    assert!(!e.stream_open());
    e.on_link_event(&mut t, LinkEvent::ConnectFailed(ConnectStep::Connect, s("x")));
    e.on_link_event(&mut t, LinkEvent::Slept);
    let cmds = e.on_link_event(&mut t, LinkEvent::Connected);
    assert!(matches!(&cmds[..], [
        Command::Emit(PlatformAction::ConnectionStateChanged { connected: true }),
        Command::OpenStream { conversation_ids, since_cursor: Some(cursor) },
    ] if conversation_ids == &[s("c1")] && cursor == "cur"));
    assert_eq!(e.phase(), LoopPhase::Serving);
}

#[test]
fn lost_connection_without_a_stream_is_only_restored() {
    let (mut e, mut t) = serving();
    e.on_link_event(&mut t, LinkEvent::Lost);
    assert_eq!(e.on_link_event(&mut t, LinkEvent::Connected).len(), 1);
}

#[test]
fn closed_channel_ends_the_loop() {
    let (mut e, mut t) = serving();
    assert!(matches!(&e.on_link_event(&mut t, LinkEvent::Closed)[..], [Command::Stop]));
    assert_eq!(e.phase(), LoopPhase::Stopped);
}
