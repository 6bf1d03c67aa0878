use std::time::Duration;

use construct_engine::p2p::manager::{InterfaceAddress, LocalInterface, ATTEMPT_DURATION_MS};
use construct_engine::p2p::quic_p2p::{
    sort_candidates, CandidateProbe, ProbeAction, ProbeEvent, ProbeStep, ReceiveOutcome,
    SendOutcome, RECONNECT_DELAY_MS,
};
use construct_engine::p2p::{
    CandidateType, ConnectionState, ICECandidate, P2PConfig, P2PConnection, P2PConnectionBuilder,
    P2PManager, PeerStatus, DEFAULT_STUN_SERVERS, P2P_PORT, P2P_TIMEOUT_SECS,
};
use construct_engine::UiEvent;

fn candidate(address: &str, priority: u32) -> ICECandidate {
    ICECandidate::new(CandidateType::PublicIp, address.to_string(), priority)
}

fn interface(name: &str, loopback: bool, address: InterfaceAddress) -> LocalInterface {
    LocalInterface { name: name.to_string(), loopback, address }
}

fn connected(address: &str) -> P2PConnection {
    let mut conn = P2PConnection::new("user1", "device1", Duration::from_secs(5));
    let attempt = conn.connect(&[candidate(address, 1)]).unwrap();
    assert!(matches!(conn.candidate_result(attempt, Ok(())), Ok(None)));
    conn
}

#[test]
fn test_p2p_config_default() {
    let config = P2PConfig::default();
    assert!(config.enable_p2p);
    assert!(config.enable_lan_discovery);
    assert_eq!(config.p2p_port, P2P_PORT);
    assert_eq!(config.stun_servers.len(), 2);
}

#[test]
fn test_candidate_type_conversion() {
    assert_eq!(CandidateType::LocalLan as i32, 0);
    assert_eq!(CandidateType::PublicIp as i32, 1);
    assert_eq!(CandidateType::Relay as i32, 2);

    assert_eq!(CandidateType::from(0), CandidateType::LocalLan);
    assert_eq!(CandidateType::from(1), CandidateType::PublicIp);
    assert_eq!(CandidateType::from(2), CandidateType::Relay);
}

#[test]
fn test_p2p_manager_creation() {
    let manager = P2PManager::new(P2PConfig::default());

    assert!(manager.config().enable_p2p);
    assert_eq!(manager.stats().connections_established, 0);
}

#[test]
fn test_peer_status_tracking() {
    let mut manager = P2PManager::new(P2PConfig::default());

    // Initially no peer
    assert!(manager.get_peer_status("user1", "device1").is_none());

    // Initiate handoff creates peer entry
    manager.initiate_handoff("user1", "device1", Ok(vec![]), None);
    let status = manager.get_peer_status("user1", "device1");
    assert_eq!(status, Some(PeerStatus::Handshaking));
}

#[test]
fn test_should_use_p2p() {
    let config = P2PConfig {
        enable_p2p: true,
        min_server_latency_ms: 50,
        ..Default::default()
    };

    let manager = P2PManager::new(config);

    // Desktop peer with high latency: use P2P
    assert!(manager.should_use_p2p(100, false));

    // Desktop peer with low latency: don't use P2P
    assert!(!manager.should_use_p2p(30, false));

    // Mobile peer: don't use P2P (burst mode only)
    assert!(!manager.should_use_p2p(100, true));
}

#[test]
fn test_connection_creation() {
    let conn = P2PConnection::new("user1", "device1", Duration::from_secs(5));

    assert_eq!(conn.peer_user_id, "user1");
    assert_eq!(conn.peer_device_id, "device1");
    assert_eq!(conn.state(), ConnectionState::Disconnected);
    assert!(!conn.is_connected());
}

#[test]
fn test_connection_state_transitions() {
    let mut conn = P2PConnection::new("user1", "device1", Duration::from_secs(5));

    // Initial state
    assert_eq!(conn.state(), ConnectionState::Disconnected);

    // Connection attempt without candidates
    let candidates = vec![];
    let result = conn.connect(&candidates);
    assert!(result.is_err());

    // State should be Failed
    assert_eq!(conn.state(), ConnectionState::Failed);
}

#[test]
fn test_builder() {
    let conn = P2PConnectionBuilder::new("user1", "device1")
        .timeout(Duration::from_secs(30))
        .build();

    assert_eq!(conn.peer_user_id, "user1");
    assert_eq!(conn.peer_device_id, "device1");
    assert_eq!(conn.timeout(), Duration::from_secs(30));
}

#[test]
fn builder_waits_ten_seconds_by_default() {
    assert_eq!(P2PConnectionBuilder::new("u", "d").build().timeout(), Duration::from_secs(10));
}

#[test]
fn p2p_config_values() {
    let config = P2PConfig::new();
    assert_eq!(config.stun_servers, DEFAULT_STUN_SERVERS.map(|s| s.to_string()));
    assert_eq!(config.stun_servers[0], "stun.l.google.com:19302");
    assert_eq!(config.min_server_latency_ms, 50);
    assert_eq!(config.p2p_timeout_secs, P2P_TIMEOUT_SECS);
    assert_eq!(config.retry_interval_secs, 300);
    assert_eq!(config.max_p2p_latency_ms, 200);
    assert!(config.prefer_p2p_desktop);
    assert!(config.is_enabled());
    assert!(config.is_lan_discovery_enabled());
    assert!(!config.is_bonding_enabled());
    let off = P2PConfig { enable_p2p: false, enable_bonding: true, ..Default::default() };
    assert!(!off.is_lan_discovery_enabled());
    assert!(!off.is_bonding_enabled());
    let bonded = P2PConfig { enable_bonding: true, ..Default::default() };
    assert!(bonded.is_bonding_enabled());
}

#[test]
fn candidates_are_made() {
    let c = ICECandidate::lan("10.0.0.2:8765".to_string(), Some("en0".to_string()));
    assert!(c.is_lan());
    assert!(!c.is_relay());
    assert_eq!((c.priority, c.generation, c.transport.as_str()), (10, 0, "udp"));
    assert_eq!(c.interface_name.as_deref(), Some("en0"));
    let c = ICECandidate::public_ip("1.2.3.4:8765".to_string());
    assert_eq!((c.candidate_type, c.priority), (CandidateType::PublicIp, 50));
    let c = ICECandidate::new(CandidateType::Relay, "r:1".to_string(), 7);
    assert!(c.is_relay());
    assert_eq!(c.priority, 7);
    assert!(ICECandidate::new(CandidateType::Ipv6LinkLocal, String::new(), 0).is_lan());
    assert_eq!(c.clone().address, "r:1");
}

#[test]
fn candidate_types_have_numbers_and_priorities() {
    let all = [
        (CandidateType::LocalLan, 0, 10),
        (CandidateType::PublicIp, 1, 50),
        (CandidateType::Relay, 2, 100),
        (CandidateType::Ipv6LinkLocal, 3, 20),
        (CandidateType::Ipv6Global, 4, 55),
    ];
    for (t, number, priority) in all {
        assert_eq!(i32::from(t), number);
        assert_eq!(CandidateType::from(number), t);
        assert_eq!(t.default_priority(), priority);
    }
    assert_eq!(CandidateType::from(99), CandidateType::PublicIp);
    assert_eq!(CandidateType::from(-1), CandidateType::PublicIp);
}

#[test]
fn candidates_are_tried_by_priority_and_then_in_order() {
    let list = [
        candidate("a", 100),
        candidate("b", 10),
        candidate("c", 50),
        candidate("d", 10),
        candidate("e", 0),
    ];
    let order: Vec<String> = sort_candidates(&list).into_iter().map(|c| c.address).collect();
    assert_eq!(order, ["e", "b", "d", "c", "a"]);
    assert!(sort_candidates(&[]).is_empty());
}

#[test]
fn local_candidates_are_tried_first_and_relays_last() {
    let by_default = |t: CandidateType| ICECandidate::new(t, String::new(), t.default_priority());
    let list = [
        by_default(CandidateType::Relay),
        by_default(CandidateType::Ipv6Global),
        by_default(CandidateType::PublicIp),
        by_default(CandidateType::Ipv6LinkLocal),
        by_default(CandidateType::LocalLan),
    ];
    let order: Vec<CandidateType> = sort_candidates(&list).iter().map(|c| c.candidate_type).collect();
    assert_eq!(
        order,
        [
            CandidateType::LocalLan,
            CandidateType::Ipv6LinkLocal,
            CandidateType::PublicIp,
            CandidateType::Ipv6Global,
            CandidateType::Relay,
        ]
    );
}

#[test]
fn first_answer_connects() {
    let mut conn = P2PConnection::new("user1", "device1", Duration::from_secs(5));
    let attempt = conn.connect(&[candidate("slow", 9), candidate("dead", 1), candidate("good", 5)]).unwrap();
    assert_eq!(conn.state(), ConnectionState::Connecting);
    assert_eq!(attempt.candidate().address, "dead");
    let attempt = conn.candidate_result(attempt, Err("no route".to_string())).unwrap().unwrap();
    assert_eq!(attempt.candidate().address, "good");
    assert!(conn.candidate_result(attempt, Ok(())).unwrap().is_none());
    assert!(conn.is_connected());
    assert_eq!(conn.remote_addr().map(|s| s.as_str()), Some("good"));
}

#[test]
fn connection_fails_when_no_candidate_answers() {
    let mut conn = P2PConnection::new("user1", "device1", Duration::from_secs(5));
    let attempt = conn.connect(&[candidate("a", 1), candidate("b", 2)]).unwrap();
    let attempt = conn.candidate_result(attempt, Err(String::new())).unwrap().unwrap();
    let e = conn.candidate_result(attempt, Err(String::new())).unwrap_err();
    assert_eq!(e, "All ICE candidates failed");
    assert_eq!(conn.state(), ConnectionState::Failed);
}

#[test]
fn probe_reaches_the_peer() {
    let mut probe = CandidateProbe::start();
    assert_eq!(probe.step(), ProbeStep::ParseAddress);
    assert!(matches!(probe.on_event(ProbeEvent::Done), ProbeAction::Bind));
    assert!(matches!(probe.on_event(ProbeEvent::Done), ProbeAction::SetReadTimeout));
    assert!(matches!(probe.on_event(ProbeEvent::Done), ProbeAction::SetWriteTimeout));
    assert!(matches!(probe.on_event(ProbeEvent::Done), ProbeAction::Send(d) if d == b"P2P_CONNECT_PROBE"));
    assert!(matches!(probe.on_event(ProbeEvent::Done), ProbeAction::Recv));
    assert!(matches!(probe.on_event(ProbeEvent::Received(3)), ProbeAction::Return(Ok(()))));
}

#[test]
fn probe_failures_name_the_step() {
    let expected = [
        "Invalid candidate address: x",
        "Failed to bind UDP socket: x",
        "Failed to set socket timeout: x",
        "Failed to set write timeout: x",
        "Failed to send probe: x",
        "Recv error: x",
    ];
    let fail_after = |n: usize, event: ProbeEvent| {
        let mut probe = CandidateProbe::start();
        for _ in 0..n {
            probe.on_event(ProbeEvent::Done);
        }
        match probe.on_event(event) {
            ProbeAction::Return(Err(e)) => e,
            _ => panic!("no failure"),
        }
    };
    for (n, text) in expected.iter().enumerate() {
        assert_eq!(fail_after(n, ProbeEvent::Failed("x".to_string())), *text);
    }
    assert_eq!(fail_after(5, ProbeEvent::Received(0)), "No response from peer");
    assert_eq!(fail_after(5, ProbeEvent::TaskFailed("x".to_string())), "Task join error: x");
}

#[test]
fn sent_bytes_are_counted() {
    let mut conn = P2PConnection::new("user1", "device1", Duration::from_secs(5));
    assert_eq!(conn.send(b"hi").unwrap_err(), "Remote address unknown");
    let mut conn2 = connected("1.2.3.4:8765");
    let d = conn2.send(b"hi").unwrap();
    assert_eq!((d.to.as_str(), d.payload.as_slice()), ("1.2.3.4:8765", &b"hi"[..]));
    assert_eq!(conn2.finish_send(SendOutcome::Sent(2)), Ok(2));
    assert_eq!(conn2.finish_send(SendOutcome::Sent(3)), Ok(3));
    assert_eq!(conn2.bytes_sent(), 5);
    assert_eq!(
        conn.finish_send(SendOutcome::BindFailed("x".to_string())),
        Err("Failed to bind socket: x".to_string())
    );
    assert_eq!(conn.finish_send(SendOutcome::Failed("x".to_string())), Err("Send failed: x".to_string()));
    assert_eq!(conn.bytes_sent(), 0);
}

#[test]
fn received_bytes_are_counted() {
    let mut conn = P2PConnection::new("user1", "device1", Duration::from_secs(5));
    assert_eq!(conn.receive().unwrap_err(), "Remote address unknown");
    let mut conn2 = connected("1.2.3.4:8765");
    assert!(conn2.receive().is_ok());
    let mut buf = [9u8; 4];
    assert_eq!(conn2.finish_receive(&mut buf, ReceiveOutcome::Received(vec![1, 2])), Ok(2));
    assert_eq!(buf, [1, 2, 9, 9]);
    assert_eq!(conn2.bytes_received(), 2);
    let x = || "x".to_string();
    let failures = [
        (ReceiveOutcome::BindFailed(x()), "Failed to bind socket: x"),
        (ReceiveOutcome::TimeoutNotSet(x()), "Failed to set timeout: x"),
        (ReceiveOutcome::Failed(x()), "Recv failed: x"),
        (ReceiveOutcome::TaskFailed(x()), "Task join error: x"),
    ];
    for (outcome, text) in failures {
        assert_eq!(conn.finish_receive(&mut buf, outcome), Err(text.to_string()));
    }
    assert_eq!(buf, [1, 2, 9, 9]);
}

#[test]
fn rtt_is_measured_by_ping_and_pong() {
    let mut conn = P2PConnection::new("user1", "device1", Duration::from_secs(5));
    assert!(conn.measure_rtt().is_none());
    assert!(conn.send_keepalive().is_err());
    conn = connected("1.2.3.4:8765");
    assert_eq!(conn.measure_rtt().unwrap().payload, b"PING");
    assert_eq!(conn.send_keepalive().unwrap().payload, b"PONG");
    assert_eq!(conn.finish_rtt(None, 7), None);
    assert_eq!(conn.finish_rtt(Some(b"PING"), 7), None);
    assert_eq!(conn.last_rtt(), None);
    assert_eq!(conn.finish_rtt(Some(b"PONG"), 7), Some(7));
    assert_eq!(conn.last_rtt(), Some(7));
}

#[test]
fn closed_connection_can_be_opened_again() {
    let mut conn = connected("1.2.3.4:8765");
    assert_eq!(conn.reconnect(), RECONNECT_DELAY_MS);
    assert_eq!(conn.state(), ConnectionState::Closed);
    assert!(conn.send(b"x").is_err());
    let attempt = conn.resume(&[candidate("b", 1)]).unwrap();
    assert_eq!(conn.state(), ConnectionState::Connecting);
    assert!(conn.candidate_result(attempt, Ok(())).is_ok());
    assert!(conn.is_connected());
    conn.close();
    assert_eq!(conn.state(), ConnectionState::Closed);
    assert!(conn.remote_addr().is_none());
}

#[test]
fn local_candidates_skip_loopback() {
    let mut manager = P2PManager::new(P2PConfig::default());
    let interfaces = vec![
        interface("lo", true, InterfaceAddress::V4([127, 0, 0, 1])),
        interface("en0", false, InterfaceAddress::V4([192, 168, 1, 100])),
        interface("en1", false, InterfaceAddress::V6("fe80::1".to_string())),
    ];
    let list = manager.gather_local_candidates(Ok(interfaces), Some("1.2.3.4:5".to_string()));
    let seen: Vec<(&str, Option<&str>, u32)> =
        list.iter().map(|c| (c.address.as_str(), c.interface_name.as_deref(), c.priority)).collect();
    assert_eq!(
        seen,
        [
            ("192.168.1.100:8765", Some("en0"), 10),
            ("[fe80::1]:8765", Some("en1"), 10),
            ("1.2.3.4:5", None, 50),
        ]
    );
    assert!(manager.gather_local_candidates(Err("denied".to_string()), None).is_empty());
}

#[test]
fn handoff_offers_our_candidates() {
    let mut manager = P2PManager::new(P2PConfig::default());
    let lan = || Ok(vec![interface("en0", false, InterfaceAddress::V4([10, 0, 0, 2]))]);
    match manager.initiate_handoff("u", "d", lan(), None) {
        UiEvent::P2PHandoffInitiate { peer_id, candidates } => {
            assert_eq!(peer_id, "u");
            assert_eq!(candidates[0].address, "10.0.0.2:8765");
        }
        other => panic!("{other:?}"),
    }
    assert_eq!(manager.stats().handoff_attempts, 1);
    manager.initiate_handoff("u", "d", lan(), None);
    assert_eq!(manager.stats().handoff_attempts, 2);
    assert_eq!(manager.get_peers().len(), 1);
}

#[test]
fn offered_handoff_is_acknowledged_and_tried() {
    let mut manager = P2PManager::new(P2PConfig::default());
    let (ack, duration) =
        manager.handle_handoff_initiate("u", "d", vec![candidate("peer:1", 5)], Ok(vec![]), None);
    assert_eq!(duration, ATTEMPT_DURATION_MS);
    match ack {
        UiEvent::P2PHandoffAck { session_id, success, candidates, measured_latency_ms } => {
            assert_eq!(session_id, "u:d");
            assert!(success);
            assert!(candidates.is_empty());
            assert!(measured_latency_ms.is_none());
        }
        other => panic!("{other:?}"),
    }
    assert_eq!(manager.get_peer_status("u", "d"), Some(PeerStatus::Connecting));
    assert_eq!(manager.get_peers()[0].candidates[0].address, "peer:1");
    assert_eq!(manager.attempt_failed("u", "d"), 300);
    assert_eq!(manager.get_peer_status("u", "d"), Some(PeerStatus::Failed));
    assert_eq!(manager.stats().fallbacks_to_relay, 1);
}

#[test]
fn successful_attempt_connects_the_peer() {
    let mut manager = P2PManager::new(P2PConfig::default());
    manager.initiate_handoff("u", "d", Ok(vec![]), None);
    manager.handle_handoff_ack("u", "d", vec![candidate("peer:1", 5)]);
    manager.attempt_succeeded("u", "d");
    assert_eq!(manager.get_peer_status("u", "d"), Some(PeerStatus::Connected));
    let stats = manager.stats();
    assert_eq!((stats.connections_established, stats.handoffs_successful), (1, 1));
    assert_eq!(stats.fallbacks_to_relay, 0);
    assert_eq!(manager.get_peers()[0].candidates[0].address, "peer:1");
}

#[test]
fn acknowledgement_of_an_unknown_peer_changes_no_peer() {
    let mut manager = P2PManager::new(P2PConfig::default());
    assert_eq!(manager.handle_handoff_ack("u", "d", vec![]), ATTEMPT_DURATION_MS);
    assert!(manager.get_peers().is_empty());
    manager.initiate_handoff("u", "d", Ok(vec![]), None);
    manager.handle_handoff_ack("u", "d", vec![candidate("peer:1", 5)]);
    assert_eq!(manager.get_peer_status("u", "d"), Some(PeerStatus::Connecting));
    assert_eq!(manager.get_peers()[0].candidates.len(), 1);
}

#[test]
fn peers_are_tracked_apart_and_removed() {
    let mut manager = P2PManager::new(P2PConfig::default());
    manager.initiate_handoff("u1", "d", Ok(vec![]), None);
    manager.initiate_handoff("u2", "d", Ok(vec![]), None);
    manager.attempt_failed("u1", "d");
    assert_eq!(manager.get_peer_status("u1", "d"), Some(PeerStatus::Failed));
    assert_eq!(manager.get_peer_status("u2", "d"), Some(PeerStatus::Handshaking));
    manager.remove_peer("u1", "d");
    manager.remove_peer("nobody", "d");
    assert_eq!(manager.get_peer_status("u1", "d"), None);
    assert_eq!(manager.get_peers().len(), 1);
}

#[test]
fn latency_is_recorded() {
    let mut manager = P2PManager::new(P2PConfig::default());
    manager.initiate_handoff("u", "d", Ok(vec![]), None);
    assert!(!manager.update_peer_latency("u", "d", 200).too_high);
    assert_eq!(manager.get_peer_status("u", "d"), Some(PeerStatus::Handshaking));
    let r = manager.update_peer_latency("u", "d", 201);
    assert_eq!((r.samples, r.too_high), (1, true));
    assert_eq!(manager.get_peer_status("u", "d"), Some(PeerStatus::RelayFallback));
    assert_eq!(manager.get_peers()[0].latency_ms, Some(201));
    assert!(!manager.update_peer_latency("nobody", "d", 999).too_high);
    manager.record_connection_success();
    manager.record_connection_success();
    assert_eq!(manager.update_peer_latency("u", "d", 1).samples, 2);
}

#[test]
fn traffic_is_counted() {
    let mut manager = P2PManager::new(P2PConfig::default());
    manager.record_bytes_sent(5);
    manager.record_bytes_sent(6);
    manager.record_bytes_received(7);
    manager.record_connection_success();
    let stats = manager.stats();
    assert_eq!((stats.bytes_sent, stats.bytes_received), (11, 7));
    assert_eq!((stats.connections_established, stats.handoffs_successful), (1, 1));
}
