use construct_engine::p2p::stun::{
    format_v4, format_v6, MappedAddress, StunAction, StunEvent, StunStep,
};
use construct_engine::p2p::{query_stun_servers, P2PConfig, P2PManager, StunClient};

const TID: [u8; 12] = [1, 2, 3, 4, 5, 6, 7, 8, 9, 10, 11, 12];

fn response(attributes: &[u8]) -> Vec<u8> {
    let mut data = vec![0x01, 0x01, (attributes.len() / 256) as u8, (attributes.len() % 256) as u8];
    data.extend_from_slice(&[0x21, 0x12, 0xA4, 0x42]);
    data.extend_from_slice(&TID);
    data.extend_from_slice(attributes);
    data
}

fn text_of(a: MappedAddress) -> String {
    match a {
        MappedAddress::V4 { ip, port } => format_v4(&ip, port),
        MappedAddress::V6 { .. } => panic!("no IPv4 address"),
    }
}

fn parsed(data: &[u8]) -> Result<String, String> {
    StunClient::parse_binding_response(data, &TID).map(text_of)
}

#[test]
fn test_transaction_id_generation() {
    let id1 = StunClient::generate_transaction_id();
    let id2 = StunClient::generate_transaction_id();

    // IDs should be 12 bytes
    assert_eq!(id1.len(), 12);
    assert_eq!(id2.len(), 12);

    // Note: IDs might be same if generated in same nanosecond
    // In practice, they will differ due to timing
}

#[test]
fn test_binding_request_format() {
    let tid = [0x00; 12];
    let request = StunClient::build_binding_request(&tid);

    // Check message type (Binding Request)
    assert_eq!(request[0], 0x00);
    assert_eq!(request[1], 0x01);

    // Check message length (0)
    assert_eq!(request[2], 0x00);
    assert_eq!(request[3], 0x00);

    // Check magic cookie
    assert_eq!(request[4], 0x21);
    assert_eq!(request[5], 0x12);
    assert_eq!(request[6], 0xA4);
    assert_eq!(request[7], 0x42);

    // Total size: 20 bytes
    assert_eq!(request.len(), 20);
}

#[test]
fn test_parse_ipv4_address() {
    // Test IPv4 parsing (non-XORed)
    // Family: 0x01, Port: 8765 (0x223D), IP: 192.168.1.100
    let data = vec![
        0x00, 0x01, // Reserved + Family
        0x22, 0x3D, // Port (8765)
        0xC0, 0xA8, 0x01, 0x64, // IP (192.168.1.100)
    ];

    assert_eq!(data.len(), 8);
    assert_eq!(data[1], 0x01); // IPv4 family

    let address = StunClient::parse_mapped_address(&data, false).unwrap();
    assert_eq!(text_of(address), "192.168.1.100:8765");
}

#[test]
fn transaction_ids_hold_the_time() {
    let id = StunClient::transaction_id_at(0x0102_0304_0506_0708);
    assert_eq!(id, [1, 2, 3, 4, 5, 6, 7, 8, 8, 7, 6, 5]);
    assert_eq!(StunClient::transaction_id_at((1 << 64) + 9), StunClient::transaction_id_at(9));
    assert_ne!(StunClient::transaction_id_at(1), StunClient::transaction_id_at(2));
    assert_ne!(StunClient::generate_transaction_id(), [0; 12]);
}

#[test]
fn xored_ipv4_address_is_unmasked() {
    let data = [0x00, 0x01, 0x22 ^ 0x21, 0x3D ^ 0x12, 0xC0 ^ 0x21, 0xA8 ^ 0x12, 0x01 ^ 0xA4, 0x64 ^ 0x42];
    let address = StunClient::parse_mapped_address(&data, true).unwrap();
    assert_eq!(text_of(address), "192.168.1.100:8765");
}

#[test]
fn ipv6_address_is_read() {
    let expected = [0x20, 0x01, 0x0d, 0xb8, 0, 0, 0, 0, 0, 0, 0, 0, 0, 0, 0, 1];
    let mut data = vec![0x00, 0x02, 0x00, 0x50];
    data.extend_from_slice(&expected);
    let plain = StunClient::parse_mapped_address(&data, false).unwrap();
    assert!(matches!(plain, MappedAddress::V6 { ip, port: 80 } if ip == expected));
    for (i, m) in [0x21, 0x12, 0xA4, 0x42].iter().enumerate() {
        data[4 + i] ^= *m;
    }
    data[2] ^= 0x21;
    data[3] ^= 0x12;
    let xored = StunClient::parse_mapped_address(&data, true).unwrap();
    assert!(matches!(xored, MappedAddress::V6 { ip, port: 80 } if ip == expected));
    assert_eq!(format_v6("2001:db8::1", 80), "[2001:db8::1]:80");
}

#[test]
fn bad_address_attributes_are_refused() {
    let fault = |data: &[u8]| StunClient::parse_mapped_address(data, false).unwrap_err();
    assert_eq!(fault(&[0, 1, 2]), "Mapped address too short");
    assert_eq!(fault(&[0, 1, 0, 0, 1, 2, 3]), "IPv4 address too short");
    assert_eq!(fault(&[0, 2, 0, 0, 1, 2, 3, 4]), "IPv6 address too short");
    assert_eq!(fault(&[0, 0x1F, 0, 0]), "Unknown address family: 0x1F");
}

#[test]
fn response_reports_the_first_address() {
    let plain = [0, 1, 0, 8, 0, 1, 0x22, 0x3D, 192, 168, 1, 100];
    assert_eq!(parsed(&response(&plain)).unwrap(), "192.168.1.100:8765");
    // An unknown attribute with a padded value comes first.
    let mut attributes = vec![0x80, 0x22, 0, 5, 1, 2, 3, 4, 5, 0, 0, 0];
    attributes.extend_from_slice(&[0, 0x20, 0, 8, 0, 1, 0x22 ^ 0x21, 0x3D ^ 0x12, 10 ^ 0x21, 0x12, 0xA4, 1 ^ 0x42]);
    attributes.extend_from_slice(&plain);
    assert_eq!(parsed(&response(&attributes)).unwrap(), "10.0.0.1:8765");
}

#[test]
fn foreign_and_broken_responses_are_refused() {
    let ok = response(&[0, 1, 0, 8, 0, 1, 0x22, 0x3D, 192, 168, 1, 100]);
    assert_eq!(parsed(&ok[..19]).unwrap_err(), "STUN response too short");
    let mut other = ok.clone();
    other[1] = 0x11;
    assert_eq!(parsed(&other).unwrap_err(), "Unexpected STUN message type: 0x0111");
    let mut other = ok.clone();
    other[19] ^= 1;
    assert_eq!(parsed(&other).unwrap_err(), "Transaction ID mismatch");
    assert_eq!(parsed(&ok[..30]).unwrap_err(), "No mapped address found in STUN response");
    assert_eq!(parsed(&response(&[])).unwrap_err(), "No mapped address found in STUN response");
    assert_eq!(parsed(&response(&[0, 1, 0, 2, 0, 1, 0, 0])).unwrap_err(), "Mapped address too short");
}

#[test]
fn client_asks_its_server() {
    let mut client = StunClient::new("1.2.3.4:3478");
    assert_eq!(client.server(), "1.2.3.4:3478");
    assert!(matches!(client.on_event(StunEvent::Done), StunAction::Bind));
    assert!(matches!(client.on_event(StunEvent::Done), StunAction::SetTimeout));
    assert!(matches!(client.on_event(StunEvent::Done), StunAction::Ready));
    let request = client.query();
    assert_eq!(request.len(), 20);
    assert!(matches!(client.on_event(StunEvent::Done), StunAction::SetTimeout));
    assert!(matches!(client.on_event(StunEvent::Done), StunAction::Recv));
    let mut answer = response(&[0, 1, 0, 8, 0, 1, 0x22, 0x3D, 192, 168, 1, 100]);
    answer[8..20].copy_from_slice(&request[8..20]);
    match client.on_event(StunEvent::Received(answer)) {
        StunAction::Return(Ok(a)) => assert_eq!(text_of(a), "192.168.1.100:8765"),
        _ => panic!("no address"),
    }
    assert_eq!(client.step(), StunStep::Ready);
}

#[test]
fn client_failures_name_the_step() {
    let fail = |client: &mut StunClient| match client.on_event(StunEvent::Failed("x".to_string())) {
        StunAction::Fail(e) => e,
        _ => panic!("no failure"),
    };
    let setup = [
        "Invalid STUN server address: x",
        "Failed to bind UDP socket: x",
        "Failed to set socket timeout: x",
    ];
    for (n, text) in setup.iter().enumerate() {
        let mut client = StunClient::new("s");
        for _ in 0..n {
            client.on_event(StunEvent::Done);
        }
        assert_eq!(fail(&mut client), *text);
        assert_eq!(client.step(), StunStep::Failed);
    }
    let query = ["Failed to send STUN request: x", "Failed to set timeout: x", "STUN request timed out: x"];
    for (n, text) in query.iter().enumerate() {
        let mut client = StunClient::new("s");
        for _ in 0..3 {
            client.on_event(StunEvent::Done);
        }
        client.query();
        for _ in 0..n {
            client.on_event(StunEvent::Done);
        }
        assert_eq!(fail(&mut client), *text);
        assert_eq!(client.step(), StunStep::Ready);
    }
}

#[test]
fn scan_takes_the_first_answer() {
    let servers = vec!["a".to_string(), "b".to_string(), "c".to_string()];
    let mut scan = query_stun_servers(&servers);
    assert_eq!(scan.next_server().unwrap(), "a");
    scan.on_reply(Err("timed out".to_string()));
    assert_eq!(scan.next_server().unwrap(), "b");
    scan.on_reply(Ok("1.2.3.4:5".to_string()));
    assert!(scan.next_server().is_none());
    assert_eq!(scan.into_result(), Some("1.2.3.4:5".to_string()));
}

#[test]
fn scan_finds_nothing_when_all_servers_fail() {
    let mut scan = P2PManager::new(P2PConfig::default()).stun_scan();
    assert_eq!(scan.next_server().unwrap(), "stun.l.google.com:19302");
    scan.on_reply(Err(String::new()));
    assert_eq!(scan.next_server().unwrap(), "stun.stunprotocol.org:3478");
    scan.on_reply(Err(String::new()));
    assert!(scan.next_server().is_none());
    assert_eq!(scan.into_result(), None);
    assert!(query_stun_servers(&[]).next_server().is_none());
}
