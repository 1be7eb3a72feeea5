//! Candidate pairing and the hole-punching decision.
//!
//! Punching is attempted over pairs of local and remote endpoint
//! candidates of the same transport kind, direct UDP before direct TCP,
//! at most `top_k` pairs under one shared deadline.  When either side sits
//! behind a symmetric NAT the puncher refuses outright — such NATs cannot
//! be reliably punched — so not a single punch attempt is issued and the
//! caller falls straight back to a relay.

use vstd::prelude::*;
use crate::natprobe::NatClassification;

verus! {

/// The kind of direct transport a candidate offers.
#[derive(Clone, Copy, Debug, PartialEq, Eq, Structural)]
pub enum TransportKind {
    /// A datagram path; punched most easily, tried first.
    Udp,
    /// A stream path; tried after UDP.
    Tcp,
}

/// The priority rank of a transport kind: lower is tried earlier.
pub open spec fn kind_rank(k: TransportKind) -> int {
    match k {
        TransportKind::Udp => 0,
        TransportKind::Tcp => 1,
    }
}

/// An endpoint learned locally or from the peer through the rendezvous
/// exchange.  The set a session holds is fixed once the punching phase
/// completes; a retry requires a fresh resolution.
#[derive(Clone, Copy, Debug, PartialEq, Eq, Structural)]
pub struct EndpointCandidate {
    /// The 32-bit network address.
    pub addr: u32,
    /// The port.
    pub port: u16,
    /// Which transport the candidate speaks.
    pub kind: TransportKind,
}

/// One punch attempt: a local and a remote candidate of the same kind.
#[derive(Clone, Copy, Debug, PartialEq, Eq, Structural)]
pub struct CandidatePair {
    /// The candidate punched from.
    pub local: EndpointCandidate,
    /// The candidate punched towards.
    pub remote: EndpointCandidate,
}

/// Some candidate in `s` speaks `kind`.
pub open spec fn has_kind(s: Seq<EndpointCandidate>, kind: TransportKind) -> bool {
    exists|i: int| 0 <= i < s.len() && (#[trigger] s[i]).kind == kind
}

/// Both sides offer a candidate of one common kind.
pub open spec fn kinds_match(
    local: Seq<EndpointCandidate>,
    remote: Seq<EndpointCandidate>,
) -> bool {
    ||| has_kind(local, TransportKind::Udp) && has_kind(remote, TransportKind::Udp)
    ||| has_kind(local, TransportKind::Tcp) && has_kind(remote, TransportKind::Tcp)
}

/// A pair drawn from the two candidate sets, both sides of kind `kind`.
pub open spec fn pair_of_kind(
    p: CandidatePair,
    local: Seq<EndpointCandidate>,
    remote: Seq<EndpointCandidate>,
    kind: TransportKind,
) -> bool {
    &&& p.local.kind == kind
    &&& p.remote.kind == kind
    &&& local.contains(p.local)
    &&& remote.contains(p.remote)
}

/// Collects up to `budget` pairs of the given kind, locals outermost, both
/// members in source order.
fn pairs_for_kind(
    local: &Vec<EndpointCandidate>,
    remote: &Vec<EndpointCandidate>,
    kind: TransportKind,
    budget: usize,
) -> (out: Vec<CandidatePair>)
    ensures
        out@.len() <= budget,
        forall|i: int| 0 <= i < out@.len() ==> pair_of_kind(#[trigger] out@[i], local@, remote@, kind),
        budget >= 1 && has_kind(local@, kind) && has_kind(remote@, kind) ==> out@.len() >= 1,
{
    let nl = local.len();
    let nr = remote.len();
    let mut out: Vec<CandidatePair> = Vec::new();
    let mut i: usize = 0;
    while i < nl
        invariant
            nl == local@.len(),
            nr == remote@.len(),
            0 <= i <= nl,
            out@.len() <= budget,
            forall|k: int| 0 <= k < out@.len()
                ==> pair_of_kind(#[trigger] out@[k], local@, remote@, kind),
            out@.len() == 0 ==> forall|p: int| 0 <= p < i
                ==> ((#[trigger] local@[p]).kind != kind || !has_kind(remote@, kind)),
        decreases nl - i,
    {
        let lc = local[i];
        if matches!(lc.kind, TransportKind::Udp) == matches!(kind, TransportKind::Udp) {
            let mut j: usize = 0;
            while j < nr
                invariant
                    nl == local@.len(),
                    nr == remote@.len(),
                    0 <= i < nl,
                    0 <= j <= nr,
                    lc == local@[i as int],
                    lc.kind == kind,
                    out@.len() <= budget,
                    forall|k: int| 0 <= k < out@.len()
                        ==> pair_of_kind(#[trigger] out@[k], local@, remote@, kind),
                    out@.len() == 0 ==> forall|q: int| 0 <= q < j
                        ==> (#[trigger] remote@[q]).kind != kind,
                decreases nr - j,
            {
                let rc = remote[j];
                if matches!(rc.kind, TransportKind::Udp) == matches!(kind, TransportKind::Udp) {
                    if out.len() >= budget {
                        return out;
                    }
                    proof {
                        assert(local@.contains(local@[i as int]));
                        assert(remote@.contains(remote@[j as int]));
                    }
                    out.push(CandidatePair { local: lc, remote: rc });
                }
                j = j + 1;
            }
        }
        i = i + 1;
    }
    out
}

/// Pairs the two candidate sets for punching: matching kinds only, every
/// UDP pair ahead of every TCP pair, at most `top_k` pairs, and never an
/// empty plan while a matching pair exists and the budget allows one.
pub fn pair_candidates(
    local: &Vec<EndpointCandidate>,
    remote: &Vec<EndpointCandidate>,
    top_k: usize,
) -> (out: Vec<CandidatePair>)
    ensures
        out@.len() <= top_k,
        forall|i: int| 0 <= i < out@.len() ==> (pair_of_kind(
            #[trigger] out@[i],
            local@,
            remote@,
            TransportKind::Udp,
        ) || pair_of_kind(out@[i], local@, remote@, TransportKind::Tcp)),
        forall|i: int, j: int| 0 <= i < j < out@.len()
            ==> kind_rank((#[trigger] out@[i]).local.kind)
                <= kind_rank((#[trigger] out@[j]).local.kind),
        top_k >= 1 && kinds_match(local@, remote@) ==> out@.len() >= 1,
        top_k >= 1 && has_kind(local@, TransportKind::Udp) && has_kind(
            remote@,
            TransportKind::Udp,
        ) ==> out@.len() >= 1 && out@[0].local.kind == TransportKind::Udp,
{
    let mut out = pairs_for_kind(local, remote, TransportKind::Udp, top_k);
    let remaining = top_k - out.len();
    let mut tcp = pairs_for_kind(local, remote, TransportKind::Tcp, remaining);
    let ghost udp_part = out@;
    let ghost tcp_part = tcp@;
    out.append(&mut tcp);
    proof {
        assert(out@ == udp_part + tcp_part);
        assert forall|i: int, j: int| 0 <= i < j < out@.len() implies kind_rank(
            (#[trigger] out@[i]).local.kind,
        ) <= kind_rank((#[trigger] out@[j]).local.kind) by {
            if i < udp_part.len() {
                assert(out@[i] == udp_part[i]);
            } else {
                assert(out@[i] == tcp_part[i - udp_part.len()]);
            }
            if j < udp_part.len() {
                assert(out@[j] == udp_part[j]);
            } else {
                assert(out@[j] == tcp_part[j - udp_part.len()]);
            }
        }
        if kinds_match(local@, remote@) && top_k >= 1 && udp_part.len() == 0 {
            assert(has_kind(local@, TransportKind::Tcp) && has_kind(remote@, TransportKind::Tcp));
        }
        if udp_part.len() >= 1 {
            assert(out@[0] == udp_part[0]);
        }
    }
    out
}

/// Whether punching is worth attempting at all: it is refused the moment
/// either side is behind a symmetric NAT.
pub open spec fn punchable(
    local_class: NatClassification,
    remote_class: NatClassification,
) -> bool {
    local_class != NatClassification::Symmetric && remote_class != NatClassification::Symmetric
}

/// The puncher's decision.
pub enum PunchPlan {
    /// Punch these pairs in parallel, first listed first started, all under
    /// one shared deadline; the first bidirectional handshake wins and the
    /// rest are cancelled.
    Attempt {
        /// The pairs to try, highest priority first.
        pairs: Vec<CandidatePair>,
        /// The shared deadline in milliseconds.
        deadline_ms: u64,
    },
    /// Punching is not attempted: no pair may be contacted.
    Failed,
}

/// Decides whether and how to punch.  A symmetric NAT on either side
/// yields `Failed` outright — zero punch attempts — so the session falls
/// back to a relay without burning the deadline.  Otherwise the plan holds
/// the paired candidates, UDP before TCP, at most `top_k` of them.
pub fn plan_punch(
    local: &Vec<EndpointCandidate>,
    remote: &Vec<EndpointCandidate>,
    local_class: NatClassification,
    remote_class: NatClassification,
    top_k: usize,
    deadline_ms: u64,
) -> (r: PunchPlan)
    ensures
        !punchable(local_class, remote_class) ==> r == PunchPlan::Failed,
        punchable(local_class, remote_class) ==> (r matches PunchPlan::Attempt {
            pairs,
            deadline_ms: d,
        } && d == deadline_ms && pairs@.len() <= top_k && (forall|i: int|
            0 <= i < pairs@.len() ==> (pair_of_kind(
                #[trigger] pairs@[i],
                local@,
                remote@,
                TransportKind::Udp,
            ) || pair_of_kind(pairs@[i], local@, remote@, TransportKind::Tcp))) && (forall|
            i: int,
            j: int,
        |
            0 <= i < j < pairs@.len() ==> kind_rank((#[trigger] pairs@[i]).local.kind)
                <= kind_rank((#[trigger] pairs@[j]).local.kind)) && (top_k >= 1 && kinds_match(
            local@,
            remote@,
        ) ==> pairs@.len() >= 1)),
{
    let skip = matches!(local_class, NatClassification::Symmetric)
        || matches!(remote_class, NatClassification::Symmetric);
    if skip {
        return PunchPlan::Failed;
    }
    let pairs = pair_candidates(local, remote, top_k);
    PunchPlan::Attempt { pairs, deadline_ms }
}

} // verus!
