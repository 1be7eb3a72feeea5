use peerlink::natprobe::NatClassification;
use peerlink::puncher::{
    pair_candidates, plan_punch, CandidatePair, EndpointCandidate, PunchPlan, TransportKind,
};

fn udp(addr: u32, port: u16) -> EndpointCandidate {
    EndpointCandidate { addr, port, kind: TransportKind::Udp }
}

fn tcp(addr: u32, port: u16) -> EndpointCandidate {
    EndpointCandidate { addr, port, kind: TransportKind::Tcp }
}

#[test]
fn symmetric_local_side_skips_punching() {
    let local = vec![udp(1, 1000), tcp(1, 1001)];
    let remote = vec![udp(2, 2000)];
    let plan = plan_punch(
        &local,
        &remote,
        NatClassification::Symmetric,
        NatClassification::FullCone,
        4,
        5000,
    );
    assert!(matches!(plan, PunchPlan::Failed));
}

#[test]
fn symmetric_remote_side_skips_punching() {
    let local = vec![udp(1, 1000)];
    let remote = vec![udp(2, 2000)];
    let plan = plan_punch(
        &local,
        &remote,
        NatClassification::RestrictedCone,
        NatClassification::Symmetric,
        4,
        5000,
    );
    assert!(matches!(plan, PunchPlan::Failed));
}

#[test]
fn cone_sides_get_a_plan_with_udp_first() {
    let local = vec![tcp(1, 1001), udp(1, 1000)];
    let remote = vec![tcp(2, 2001), udp(2, 2000)];
    let plan = plan_punch(
        &local,
        &remote,
        NatClassification::FullCone,
        NatClassification::PortRestrictedCone,
        4,
        5000,
    );
    match plan {
        PunchPlan::Attempt { pairs, deadline_ms } => {
            assert_eq!(deadline_ms, 5000);
            assert!(!pairs.is_empty());
            assert_eq!(pairs[0].local.kind, TransportKind::Udp);
            assert_eq!(pairs[0].remote.kind, TransportKind::Udp);
            // UDP pairs come before TCP pairs.
            let first_tcp = pairs.iter().position(|p| p.local.kind == TransportKind::Tcp);
            if let Some(k) = first_tcp {
                assert!(pairs[k..].iter().all(|p| p.local.kind == TransportKind::Tcp));
            }
        }
        PunchPlan::Failed => panic!("expected a punch plan"),
    }
}

#[test]
fn pairs_match_kinds_and_respect_the_cap() {
    let local = vec![udp(1, 1000), udp(1, 1001), tcp(1, 1002)];
    let remote = vec![udp(2, 2000), udp(2, 2001), tcp(2, 2002)];
    let pairs = pair_candidates(&local, &remote, 3);
    assert_eq!(pairs.len(), 3);
    for p in &pairs {
        assert_eq!(p.local.kind, p.remote.kind);
        assert!(local.contains(&p.local));
        assert!(remote.contains(&p.remote));
    }
    let expected_first = CandidatePair { local: udp(1, 1000), remote: udp(2, 2000) };
    assert_eq!(pairs[0], expected_first);
}

#[test]
fn no_matching_kind_means_no_pairs() {
    let local = vec![udp(1, 1000)];
    let remote = vec![tcp(2, 2000)];
    let pairs = pair_candidates(&local, &remote, 4);
    assert!(pairs.is_empty());
}

#[test]
fn zero_budget_means_no_pairs() {
    let local = vec![udp(1, 1000)];
    let remote = vec![udp(2, 2000)];
    let pairs = pair_candidates(&local, &remote, 0);
    assert!(pairs.is_empty());
}
