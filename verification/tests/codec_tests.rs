use peerlink::codec::{decode_candidates, encode_candidates};
use peerlink::puncher::{EndpointCandidate, TransportKind};

#[test]
fn one_record_has_the_expected_bytes() {
    let cands = vec![EndpointCandidate {
        addr: 0x01020304,
        port: 0x0506,
        kind: TransportKind::Udp,
    }];
    let wire = encode_candidates(&cands);
    assert_eq!(wire, vec![1, 2, 3, 4, 5, 6, 0]);
}

#[test]
fn encode_then_decode_is_identity() {
    let cands = vec![
        EndpointCandidate { addr: 0, port: 1, kind: TransportKind::Udp },
        EndpointCandidate { addr: u32::MAX, port: u16::MAX, kind: TransportKind::Tcp },
        EndpointCandidate { addr: 0xc0a80101, port: 21116, kind: TransportKind::Tcp },
    ];
    let wire = encode_candidates(&cands);
    let back = decode_candidates(&wire).unwrap();
    assert_eq!(back, cands);
}

#[test]
fn decode_rejects_ragged_input() {
    assert_eq!(decode_candidates(&[1, 2, 3]), None);
    assert_eq!(decode_candidates(&[1, 2, 3, 4, 5, 6, 0, 9]), None);
}

#[test]
fn decode_rejects_an_unknown_kind_byte() {
    assert_eq!(decode_candidates(&[1, 2, 3, 4, 5, 6, 2]), None);
}

#[test]
fn decode_of_nothing_is_no_candidates() {
    let empty: &[u8] = &[];
    assert_eq!(decode_candidates(empty), Some(Vec::new()));
}
