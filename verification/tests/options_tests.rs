use peerlink::errors::ErrorReason;
use peerlink::options::{parse_port, parse_port_forward, split_fields_exec};

#[test]
fn parse_basic_forward_option() {
    let spec = parse_port_forward(b"abc123:8000:22").unwrap();
    assert_eq!(spec.peer_id, b"abc123".to_vec());
    assert_eq!(spec.local_port, 8000);
    assert_eq!(spec.remote_port, 22);
    assert_eq!(spec.remote_host, b"localhost".to_vec());
}

#[test]
fn parse_forward_option_with_host() {
    let spec = parse_port_forward(b"peer:1:65535:example.com").unwrap();
    assert_eq!(spec.peer_id, b"peer".to_vec());
    assert_eq!(spec.local_port, 1);
    assert_eq!(spec.remote_port, 65535);
    assert_eq!(spec.remote_host, b"example.com".to_vec());
}

#[test]
fn parse_ignores_fields_past_the_host() {
    let spec = parse_port_forward(b"id:10:20:host:extra").unwrap();
    assert_eq!(spec.remote_host, b"host".to_vec());
}

#[test]
fn parse_rejects_missing_fields() {
    assert_eq!(parse_port_forward(b"abc123:8000"), Err(ErrorReason::InvalidOptions));
    assert_eq!(parse_port_forward(b"abc123"), Err(ErrorReason::InvalidOptions));
    assert_eq!(parse_port_forward(b""), Err(ErrorReason::InvalidOptions));
}

#[test]
fn parse_rejects_non_numeric_ports() {
    assert_eq!(parse_port_forward(b"id:8x:22"), Err(ErrorReason::InvalidOptions));
    assert_eq!(parse_port_forward(b"id:8000:tcp"), Err(ErrorReason::InvalidOptions));
    assert_eq!(parse_port_forward(b"id::22"), Err(ErrorReason::InvalidOptions));
    assert_eq!(parse_port_forward(b"id:-1:22"), Err(ErrorReason::InvalidOptions));
}

#[test]
fn parse_rejects_zero_and_oversized_ports() {
    assert_eq!(parse_port_forward(b"id:0:22"), Err(ErrorReason::InvalidOptions));
    assert_eq!(parse_port_forward(b"id:22:0"), Err(ErrorReason::InvalidOptions));
    assert_eq!(parse_port_forward(b"id:65536:22"), Err(ErrorReason::InvalidOptions));
    assert!(parse_port_forward(b"id:65535:22").is_ok());
}

#[test]
fn parse_accepts_leading_zeros() {
    let spec = parse_port_forward(b"id:0022:009").unwrap();
    assert_eq!(spec.local_port, 22);
    assert_eq!(spec.remote_port, 9);
}

#[test]
fn parse_port_alone() {
    assert_eq!(parse_port(b"8000"), Some(8000));
    assert_eq!(parse_port(b"1"), Some(1));
    assert_eq!(parse_port(b"65535"), Some(65535));
    assert_eq!(parse_port(b"65536"), None);
    assert_eq!(parse_port(b"99999999999999"), None);
    assert_eq!(parse_port(b"0"), None);
    assert_eq!(parse_port(b""), None);
    assert_eq!(parse_port(b"12a"), None);
}

#[test]
fn split_keeps_empty_fields() {
    let parts = split_fields_exec(b"a::b:");
    assert_eq!(parts.len(), 4);
    assert_eq!(parts[0], b"a".to_vec());
    assert_eq!(parts[1], b"".to_vec());
    assert_eq!(parts[2], b"b".to_vec());
    assert_eq!(parts[3], b"".to_vec());
}

#[test]
fn split_without_separator_is_one_field() {
    let parts = split_fields_exec(b"alone");
    assert_eq!(parts.len(), 1);
    assert_eq!(parts[0], b"alone".to_vec());
}

#[test]
fn error_reason_codes_are_stable() {
    assert_eq!(ErrorReason::InvalidOptions.code(), "invalid-options");
    assert_eq!(ErrorReason::ResolutionFailed.code(), "resolution-failed");
    assert_eq!(ErrorReason::RelayUnavailable.code(), "relay-unavailable");
    assert_eq!(ErrorReason::AuthRejected.code(), "auth-rejected");
    assert_eq!(ErrorReason::TransportIo.code(), "transport-io");
}
