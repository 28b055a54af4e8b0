use gain_listener::{
    decode_bind_reply, encode_bind_call, BindErrorKind, BindOptions, BindReply,
    BIND_ERROR_ALREADY_BOUND, BIND_ERROR_INVALID_ACCEPT_SIZE, BIND_ERROR_INVALID_NAME,
    BIND_ERROR_NAME_TOO_LONG, BIND_ERROR_TOO_MANY_BINDINGS, BIND_ERROR_UNSUPPORTED_PORT,
};

#[test]
fn options_new() {
    let opt = BindOptions::new(443);
    assert_eq!(opt.port, 443);
    assert!(opt.prefix.is_none());
}

#[test]
fn options_with_prefix() {
    let opt = BindOptions::with_prefix("www", 443);
    assert_eq!(opt.port, 443);
    assert_eq!(opt.prefix, Some("www"));
}

#[test]
fn encode_without_prefix() {
    let bytes = encode_bind_call(&BindOptions::new(443)).unwrap();
    // function tag, record-size tag 24, port 443, no name
    assert_eq!(bytes, vec![1, 24, 0, 187, 1, 0]);
}

#[test]
fn encode_with_prefix() {
    let bytes = encode_bind_call(&BindOptions::with_prefix("www", 443)).unwrap();
    assert_eq!(bytes, vec![1, 24, 0, 187, 1, 1, 3, 0, b'w', b'w', b'w']);
}

#[test]
fn encode_with_port_extremes() {
    let bytes = encode_bind_call(&BindOptions::new(0)).unwrap();
    assert_eq!(bytes, vec![1, 24, 0, 0, 0, 0]);
    let bytes = encode_bind_call(&BindOptions::new(65535)).unwrap();
    assert_eq!(bytes, vec![1, 24, 0, 255, 255, 0]);
}

fn bound_reply(port: u16, listen_id: i32, host: &str) -> Vec<u8> {
    let mut r = vec![0u8, 0];
    r.extend_from_slice(&[(port % 256) as u8, (port / 256) as u8]);
    r.extend_from_slice(&(listen_id as u32).to_le_bytes());
    r.extend_from_slice(host.as_bytes());
    r
}

#[test]
fn end_to_end_bind() {
    // Request prefix "www", port 443; the host replies with the
    // fully-qualified name and the same port.
    let request = encode_bind_call(&BindOptions::with_prefix("www", 443)).unwrap();
    assert_eq!(request[3], 187);
    assert_eq!(request[4], 1);
    let reply = bound_reply(443, 5, "www.example.test");
    match decode_bind_reply(&reply) {
        BindReply::Bound { binding, listen_id } => {
            assert_eq!(binding.hostname, "www.example.test");
            assert_eq!(binding.port, 443);
            assert_eq!(listen_id, 5);
        }
        _ => panic!("expected a successful binding"),
    }
}

#[test]
fn end_to_end_bind_failure() {
    let reply = vec![BIND_ERROR_ALREADY_BOUND as u8, 0];
    match decode_bind_reply(&reply) {
        BindReply::Refused { error } => {
            assert_eq!(error.kind(), BindErrorKind::AlreadyBound);
            assert_eq!(error.message(), "already bound");
        }
        _ => panic!("expected a refusal"),
    }
}

#[test]
fn empty_reply_is_unsupported_call() {
    match decode_bind_reply(&[]) {
        BindReply::Refused { error } => {
            assert_eq!(error.kind(), BindErrorKind::Other);
            assert_eq!(error.as_i16(), 0);
        }
        _ => panic!("expected a refusal"),
    }
}

#[test]
fn truncated_success_reply_is_unsupported_call() {
    match decode_bind_reply(&[0, 0, 187, 1]) {
        BindReply::Refused { error } => {
            assert_eq!(error.as_i16(), 0);
        }
        _ => panic!("expected a refusal"),
    }
}

#[test]
fn non_ascii_hostname_is_unsupported_call() {
    let mut reply = bound_reply(443, 1, "host");
    reply.push(0xC3);
    match decode_bind_reply(&reply) {
        BindReply::Refused { error } => {
            assert_eq!(error.as_i16(), 0);
        }
        _ => panic!("expected a refusal"),
    }
}

#[test]
fn each_refusal_code_maps_to_its_kind() {
    let cases = [
        (BIND_ERROR_TOO_MANY_BINDINGS, BindErrorKind::TooManyBindings, "too many bindings"),
        (BIND_ERROR_ALREADY_BOUND, BindErrorKind::AlreadyBound, "already bound"),
        (BIND_ERROR_INVALID_NAME, BindErrorKind::InvalidName, "invalid name"),
        (BIND_ERROR_NAME_TOO_LONG, BindErrorKind::NameTooLong, "name too long"),
        (BIND_ERROR_UNSUPPORTED_PORT, BindErrorKind::UnsupportedPort, "unsupported port"),
    ];
    for (code, kind, message) in cases {
        match decode_bind_reply(&[code as u8, 0]) {
            BindReply::Refused { error } => {
                assert_eq!(error.kind(), kind);
                assert_eq!(error.as_i16(), code);
                assert_eq!(error.message(), message);
            }
            _ => panic!("expected a refusal"),
        }
    }
}

#[test]
fn unknown_code_keeps_its_value() {
    match decode_bind_reply(&[99, 0]) {
        BindReply::Refused { error } => {
            assert_eq!(error.kind(), BindErrorKind::Other);
            assert_eq!(error.as_i16(), 99);
            assert_eq!(error.message(), "99");
        }
        _ => panic!("expected a refusal"),
    }
}

#[test]
fn negative_code_keeps_its_value() {
    // -2 on the wire, as two's complement.
    match decode_bind_reply(&[0xFE, 0xFF]) {
        BindReply::Refused { error } => {
            assert_eq!(error.kind(), BindErrorKind::Other);
            assert_eq!(error.as_i16(), -2);
            assert_eq!(error.message(), "-2");
        }
        _ => panic!("expected a refusal"),
    }
}

#[test]
fn invalid_accept_size_is_fatal() {
    // The record-size tag is fixed by the library, so this code is a
    // contract violation, not a recoverable refusal.
    assert!(matches!(
        decode_bind_reply(&[BIND_ERROR_INVALID_ACCEPT_SIZE as u8, 0]),
        BindReply::RefusedAcceptSize
    ));
}
