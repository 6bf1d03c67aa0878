use bytes::{Bytes, BytesMut};
use construct_engine::transport::grpc::{
    decode_grpc_frame, encode_grpc_frame, fits_frame, grpc_request_headers, parse_grpc_trailers, GrpcStatus,
};
use construct_engine::transport::stream::drain_frames;
use construct_engine::EngineError;

fn transport_message(e: EngineError) -> String {
    match e {
        EngineError::Transport { message } => message,
        other => panic!("{other:?}"),
    }
}

#[test]
fn frame_has_flag_length_and_body() {
    let frame = encode_grpc_frame(&[7; 300]);
    assert_eq!(&frame[..5], &[0, 0, 0, 1, 44]);
    assert_eq!(&frame[5..], &[7; 300]);
    assert_eq!(&encode_grpc_frame(&[])[..], &[0, 0, 0, 0, 0]);
    assert!(fits_frame(&[]));
    assert!(fits_frame(&[7; 300]));
}

#[test]
fn decoding_inverts_encoding() {
    let mut data = encode_grpc_frame(b"hello").to_vec();
    data.extend_from_slice(b"rest");
    let (msg, rest) = decode_grpc_frame(Bytes::from(data)).unwrap();
    assert_eq!(&msg[..], b"hello");
    assert_eq!(&rest[..], b"rest");
}

#[test]
fn bad_frames_are_refused() {
    let e = decode_grpc_frame(Bytes::from_static(&[0, 0, 0])).unwrap_err();
    assert_eq!(transport_message(e), "gRPC frame too short: 3 bytes");
    let e = decode_grpc_frame(Bytes::from_static(&[1, 0, 0, 0, 0])).unwrap_err();
    assert_eq!(transport_message(e), "compressed gRPC frames not supported");
    let e = decode_grpc_frame(Bytes::from_static(&[0, 0, 0, 0, 9, 1, 2])).unwrap_err();
    assert_eq!(transport_message(e), "gRPC frame incomplete: need 9 bytes, have 2");
}

#[test]
fn status_codes_are_read() {
    assert_eq!(GrpcStatus::from_code(0), GrpcStatus::OK);
    assert_eq!(GrpcStatus::from_code(16), GrpcStatus::Unauthenticated);
    assert_eq!(GrpcStatus::from_code(14), GrpcStatus::Unavailable);
    for code in [2, 6, 9, 10, 11, 15, 17, u32::MAX] {
        assert_eq!(GrpcStatus::from_code(code), GrpcStatus::Unknown);
    }
    assert_eq!(GrpcStatus::DataLoss.code(), 15);
    assert_eq!(GrpcStatus::from_code(GrpcStatus::NotFound.code()), GrpcStatus::NotFound);
}

#[test]
fn status_predicates() {
    assert!(GrpcStatus::OK.is_ok());
    assert!(!GrpcStatus::Unknown.is_ok());
    assert!(GrpcStatus::Unauthenticated.is_unauthenticated());
    assert!(!GrpcStatus::PermissionDenied.is_unauthenticated());
    assert!(GrpcStatus::Unavailable.is_retryable());
    assert!(GrpcStatus::DeadlineExceeded.is_retryable());
    assert!(GrpcStatus::ResourceExhausted.is_retryable());
    assert!(!GrpcStatus::Internal.is_retryable());
}

#[test]
fn request_headers_carry_the_token() {
    let headers = grpc_request_headers("/svc/Method", Some("tok"));
    let expected = [
        (":method", "POST"),
        (":path", "/svc/Method"),
        (":scheme", "https"),
        ("content-type", "application/grpc+proto"),
        ("te", "trailers"),
        ("grpc-encoding", "identity"),
        ("user-agent", "construct-engine/0.1.0"),
        ("authorization", "Bearer tok"),
    ];
    assert_eq!(headers.len(), expected.len());
    for (h, e) in headers.iter().zip(expected) {
        assert_eq!((h.0.as_str(), h.1.as_str()), e);
    }
    assert_eq!(grpc_request_headers("/svc/Method", None).len(), 7);
}

#[test]
fn trailers_are_parsed() {
    let entry = |k: &str, v: &str| (k.to_string(), v.to_string());
    let trailers = vec![
        entry("x", "y"),
        entry("grpc-status", "5"),
        entry("grpc-message", "no such user"),
        entry("grpc-status", "0"),
    ];
    assert_eq!(parse_grpc_trailers(&trailers), (5, "no such user".to_string()));
    assert_eq!(parse_grpc_trailers(&[]), (2, String::new()));
    assert_eq!(parse_grpc_trailers(&[entry("grpc-status", "abc")]), (2, String::new()));
}

#[test]
fn frames_are_cut_off_the_buffer() {
    let mut buf = BytesMut::new();
    buf.extend_from_slice(&encode_grpc_frame(b"one"));
    buf.extend_from_slice(&[1, 0, 0, 0, 2, 8, 9]);
    buf.extend_from_slice(&[0, 0, 0, 0]);
    let frames = drain_frames(&mut buf);
    assert_eq!(frames.len(), 2);
    assert_eq!(frames[0], encode_grpc_frame(b"one"));
    assert_eq!(&frames[1][..], &[1, 0, 0, 0, 2, 8, 9]);
    assert_eq!(&buf[..], &[0, 0, 0, 0]);
}
