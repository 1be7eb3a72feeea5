//! The wire form of endpoint candidates exchanged through the rendezvous
//! service.
//!
//! A candidate is seven bytes: the address and the port in network byte
//! order, then one byte naming the transport kind.  A reply is any number
//! of such records back to back.  Decoding accepts exactly the well-formed
//! replies and inverts encoding record for record.

use vstd::prelude::*;
use crate::puncher::{EndpointCandidate, TransportKind};

verus! {

/// How many bytes one candidate record occupies.
pub const CANDIDATE_WIRE_LEN: usize = 7;

/// A big-endian 16-bit value at offset `o`.
pub open spec fn be16(s: Seq<u8>, o: int) -> int {
    s[o] * 256 + s[o + 1]
}

/// A big-endian 32-bit value at offset `o`.
pub open spec fn be32(s: Seq<u8>, o: int) -> int {
    s[o] * 16777216 + s[o + 1] * 65536 + s[o + 2] * 256 + s[o + 3]
}

/// A byte that names a transport kind.
pub open spec fn kind_byte_ok(b: u8) -> bool {
    b == 0 || b == 1
}

/// The kind a byte names.
pub open spec fn kind_of_byte(b: u8) -> TransportKind {
    if b == 0 {
        TransportKind::Udp
    } else {
        TransportKind::Tcp
    }
}

/// The byte naming a kind.
pub open spec fn byte_of_kind(k: TransportKind) -> u8 {
    match k {
        TransportKind::Udp => 0,
        TransportKind::Tcp => 1,
    }
}

/// The candidate in record `k` of `s`.
pub open spec fn cand_at(s: Seq<u8>, k: int) -> EndpointCandidate {
    EndpointCandidate {
        addr: be32(s, 7 * k) as u32,
        port: be16(s, 7 * k + 4) as u16,
        kind: kind_of_byte(s[7 * k + 6]),
    }
}

/// A well-formed reply: whole records only, every kind byte known.
pub open spec fn wire_ok(s: Seq<u8>) -> bool {
    &&& s.len() % 7 == 0
    &&& forall|k: int| 0 <= k < s.len() / 7 ==> kind_byte_ok(#[trigger] s[7 * k + 6])
}

/// Decodes a reply.  Succeeds on exactly the well-formed replies and
/// yields every record's candidate, in wire order.
pub fn decode_candidates(s: &[u8]) -> (r: Option<Vec<EndpointCandidate>>)
    ensures
        r is Some <==> wire_ok(s@),
        r is Some ==> {
            &&& r->0@.len() == s@.len() / 7
            &&& forall|k: int| 0 <= k < r->0@.len() ==> #[trigger] r->0@[k] == cand_at(s@, k)
        },
{
    let len = s.len();
    if len % 7 != 0 {
        return None;
    }
    let n = len / 7;
    let mut out: Vec<EndpointCandidate> = Vec::new();
    let mut k: usize = 0;
    while k < n
        invariant
            len == s@.len(),
            len % 7 == 0,
            n == len / 7,
            0 <= k <= n,
            out@.len() == k,
            forall|j: int| 0 <= j < k ==> #[trigger] out@[j] == cand_at(s@, j),
            forall|j: int| 0 <= j < k ==> kind_byte_ok(#[trigger] s@[7 * j + 6]),
        decreases n - k,
    {
        let base = 7 * k;
        let kind_byte = s[base + 6];
        if kind_byte > 1 {
            proof {
                assert(!kind_byte_ok(s@[7 * (k as int) + 6]));
            }
            return None;
        }
        let kind = if kind_byte == 0 {
            TransportKind::Udp
        } else {
            TransportKind::Tcp
        };
        let addr = (s[base] as u32) * 16777216 + (s[base + 1] as u32) * 65536 + (s[base + 2]
            as u32) * 256 + (s[base + 3] as u32);
        let port = (s[base + 4] as u16) * 256 + (s[base + 5] as u16);
        let cand = EndpointCandidate { addr, port, kind };
        proof {
            assert(cand == cand_at(s@, k as int));
        }
        out.push(cand);
        k = k + 1;
    }
    Some(out)
}

/// Encodes candidates as a well-formed reply that decodes back to them,
/// record for record.
pub fn encode_candidates(cands: &Vec<EndpointCandidate>) -> (out: Vec<u8>)
    ensures
        out@.len() == 7 * cands@.len(),
        wire_ok(out@),
        forall|k: int| 0 <= k < cands@.len() ==> cand_at(out@, k) == #[trigger] cands@[k],
{
    let n = cands.len();
    let mut out: Vec<u8> = Vec::new();
    let mut k: usize = 0;
    while k < n
        invariant
            n == cands@.len(),
            0 <= k <= n,
            out@.len() == 7 * k,
            forall|j: int| 0 <= j < k ==> kind_byte_ok(#[trigger] out@[7 * j + 6]),
            forall|j: int| 0 <= j < k ==> cand_at(out@, j) == #[trigger] cands@[j],
        decreases n - k,
    {
        let ghost before = out@;
        let c = cands[k];
        let a = c.addr;
        out.push((a / 16777216) as u8);
        out.push((a / 65536 % 256) as u8);
        out.push((a / 256 % 256) as u8);
        out.push((a % 256) as u8);
        out.push((c.port / 256) as u8);
        out.push((c.port % 256) as u8);
        out.push(match c.kind {
            TransportKind::Udp => 0,
            TransportKind::Tcp => 1,
        });
        proof {
            assert(out@.len() == 7 * (k + 1));
            assert forall|j: int| 0 <= j < k + 1 implies cand_at(out@, j) == #[trigger] cands@[j]
                && kind_byte_ok(out@[7 * j + 6]) by {
                if j < k {
                    assert(forall|o: int| 0 <= o < before.len() ==> out@[o] == before[o]);
                    assert(cand_at(out@, j) == cand_at(before, j));
                } else {
                    assert(out@[7 * j] == (a / 16777216) as u8);
                    assert(out@[7 * j + 1] == (a / 65536 % 256) as u8);
                    assert(out@[7 * j + 2] == (a / 256 % 256) as u8);
                    assert(out@[7 * j + 3] == (a % 256) as u8);
                    assert(out@[7 * j + 4] == (c.port / 256) as u8);
                    assert(out@[7 * j + 5] == (c.port % 256) as u8);
                    assert(be32(out@, 7 * j) == a) by {
                        assert(a == (a / 256) * 256 + a % 256);
                        assert(a / 256 == (a / 65536) * 256 + a / 256 % 256);
                        assert(a / 65536 == (a / 16777216) * 256 + a / 65536 % 256);
                    }
                    assert(be16(out@, 7 * j + 4) == c.port) by {
                        assert(c.port == (c.port / 256) * 256 + c.port % 256);
                    }
                }
            }
        }
        k = k + 1;
    }
    out
}

} // verus!
