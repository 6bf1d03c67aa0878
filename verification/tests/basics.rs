use construct_engine::clock::whole_secs;
use construct_engine::core_bridge::{build_core, has_keys, CoreFault};
use construct_engine::probe::{append_chunk, parse_args};
use construct_engine::text::{
    clone_texts, decimal_text, hex_lower_text, hex_upper_text, parse_unsigned,
    same_text,
};
use construct_engine::{EngineConfig, EngineError};

fn texts(items: &[&str]) -> Vec<String> {
    items.iter().map(|s| s.to_string()).collect()
}

#[test]
fn numbers_are_formatted() {
    assert_eq!(decimal_text(0), "0");
    assert_eq!(decimal_text(8765), "8765");
    assert_eq!(decimal_text(u64::MAX), u64::MAX.to_string());
    assert_eq!(hex_lower_text(0xdead_beef, 32), format!("{:032x}", 0xdead_beefu128));
    assert_eq!(hex_lower_text(u128::MAX, 32), "f".repeat(32));
    assert_eq!(hex_upper_text(0x0111, 4), "0111");
    assert_eq!(hex_upper_text(0xABC, 4), "0ABC");
    assert_eq!(hex_upper_text(0x1F, 2), "1F");
}

#[test]
fn unsigned_numbers_are_parsed() {
    assert_eq!(parse_unsigned("0", u32::MAX), Some(0));
    assert_eq!(parse_unsigned("+16", u32::MAX), Some(16));
    assert_eq!(parse_unsigned("4294967295", u32::MAX), Some(u32::MAX));
    assert_eq!(parse_unsigned("4294967296", u32::MAX), None);
    assert_eq!(parse_unsigned("65536", 65535), None);
    assert_eq!(parse_unsigned("", u32::MAX), None);
    assert_eq!(parse_unsigned("+", u32::MAX), None);
    assert_eq!(parse_unsigned("-1", u32::MAX), None);
    assert_eq!(parse_unsigned("12a", u32::MAX), None);
}

#[test]
fn unsigned_parsing_matches_std() {
    for s in ["", "+", "-", "0", "00", "7", "+7", "-7", "++7", "4294967295", "4294967296", " 1", "1 "] {
        assert_eq!(parse_unsigned(s, u32::MAX), s.parse::<u32>().ok(), "{s:?}");
    }
}

#[test]
fn copies_equal_their_source() {
    assert_eq!(clone_texts(&texts(&["a", "b"])), texts(&["a", "b"]));
    assert!(same_text("abc", "abc"));
    assert!(!same_text("abc", "abd"));
}

#[test]
fn seconds_are_cut_from_nanoseconds() {
    assert_eq!(whole_secs(0), 0);
    assert_eq!(whole_secs(1_999_999_999), 1);
    assert_eq!(whole_secs(1_700_000_000_123_456_789), 1_700_000_000);
}

#[test]
fn default_config() {
    let config = EngineConfig::default();
    assert_eq!(config.server_host, "api.konstruct.cc");
    assert_eq!(config.server_port, 443);
    assert_eq!(config.my_device_id, "");
    assert!(config.auth_token.is_none());
    assert!(config.verify_certs);
    assert!(!config.use_masque);
    assert!(config.masque_host.is_none());
    assert!(config.masque_port.is_none());
    assert_eq!(config.event_buffer, 1024);
    assert_eq!(config.server_addr(), "api.konstruct.cc:443");
}

#[test]
fn errors_are_displayed() {
    let shown = |e: EngineError| e.display_text();
    assert_eq!(shown(EngineError::transport("x")), "Transport error: x");
    assert_eq!(shown(EngineError::tls("x")), "TLS error: x");
    assert_eq!(shown(EngineError::grpc(5, "gone")), "gRPC error: code=5, message=gone");
    assert_eq!(shown(EngineError::crypto("x")), "Crypto error: x");
    assert_eq!(shown(EngineError::config("x")), "Config error: x");
    assert_eq!(shown(EngineError::unauthenticated("x")), "Unauthenticated: x");
    assert_eq!(shown(EngineError::internal(&42)), "Internal error: 42");
    assert_eq!(shown(EngineError::AlreadyRunning), "Engine is already running");
    assert_eq!(shown(EngineError::NotRunning), "Engine is not running");
    assert_eq!(shown(EngineError::Timeout), "Operation timed out");
}

#[test]
fn core_is_built_from_keys() {
    assert!(!has_keys(&[]));
    assert!(has_keys(&[1]));
    assert!(matches!(build_core(&[], Ok(7)), Ok(None)));
    assert!(matches!(build_core(&[1], Ok(7)), Ok(Some(7))));
    match build_core::<u8>(&[1], Err(CoreFault::Decode("bad tag".to_string()))) {
        Err(EngineError::Crypto { message }) => assert_eq!(message, "decode private keys: bad tag"),
        other => panic!("{other:?}"),
    }
    match build_core::<u8>(&[1], Err(CoreFault::Client("bad key".to_string()))) {
        Err(EngineError::Crypto { message }) => assert_eq!(message, "build crypto client: bad key"),
        other => panic!("{other:?}"),
    }
}

#[test]
fn probe_arguments_have_defaults() {
    let t = parse_args(&texts(&["poc"]));
    assert_eq!((t.host.as_str(), t.path.as_str(), t.port), ("cloudflare.com", "/cdn-cgi/trace", 443));
    let t = parse_args(&texts(&["poc", "quic.tech", "/", "8443"]));
    assert_eq!((t.host.as_str(), t.path.as_str(), t.port), ("quic.tech", "/", 8443));
    assert_eq!(t.host_port(), "quic.tech:8443");
    assert_eq!(parse_args(&texts(&["poc", "h", "/", "99999"])).port, 443);
}

#[test]
fn probe_picks_the_first_address() {
    let t = parse_args(&texts(&["poc", "quic.tech"]));
    assert_eq!(t.pick_address(texts(&["1.2.3.4:443", "5.6.7.8:443"])), Ok("1.2.3.4:443".to_string()));
    assert_eq!(t.pick_address(vec![]), Err("DNS resolve failed for quic.tech".to_string()));
}

#[test]
fn probe_request_is_a_get() {
    let t = parse_args(&texts(&["poc", "quic.tech", "/x", "8443"]));
    let req = t.request().unwrap();
    assert_eq!(req.method(), "GET");
    assert_eq!(req.uri().to_string(), "https://quic.tech/x");
    assert_eq!(req.headers().len(), 1);
    assert_eq!(req.headers()["user-agent"], "construct-engine/0.1.0");
    let bad = parse_args(&texts(&["poc", "no host", "/"]));
    assert_eq!(bad.request().unwrap_err(), "invalid uri character");
}

#[test]
fn probe_collects_the_body() {
    let mut body = vec![1u8];
    append_chunk(&mut body, &bytes::Bytes::from_static(&[2, 3]));
    append_chunk(&mut body, &bytes::Bytes::new());
    assert_eq!(body, vec![1, 2, 3]);
}
