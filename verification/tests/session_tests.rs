use peerlink::errors::ErrorReason;
use peerlink::natprobe::NatClassification;
use peerlink::options::parse_port_forward;
use peerlink::puncher::{EndpointCandidate, TransportKind};
use peerlink::rendezvous::RetryPolicy;
use peerlink::session::{Phase, Session, SessionAction, SessionEvent, Transport};

fn policy() -> RetryPolicy {
    RetryPolicy { max_attempts: 3, base_delay_ms: 100 }
}

fn local_candidates() -> Vec<EndpointCandidate> {
    vec![EndpointCandidate { addr: 0x0a000001, port: 4000, kind: TransportKind::Udp }]
}

fn remote_candidates() -> Vec<EndpointCandidate> {
    vec![EndpointCandidate { addr: 0x0a000002, port: 4001, kind: TransportKind::Udp }]
}

#[test]
fn direct_path_never_requests_a_relay() {
    let mut s = Session::new(policy(), local_candidates(), true);
    let mut actions = Vec::new();
    actions.push(s.step(SessionEvent::Start));
    actions.push(s.step(SessionEvent::Resolved { candidates: remote_candidates() }));
    actions.push(s.step(SessionEvent::Classified {
        local: NatClassification::FullCone,
        remote: NatClassification::RestrictedCone,
    }));
    actions.push(s.step(SessionEvent::PunchSucceeded { kind: TransportKind::Udp }));
    actions.push(s.step(SessionEvent::AuthAccepted));
    assert_eq!(s.phase, Phase::Forwarding);
    assert_eq!(s.transport, Some(Transport::Direct { kind: TransportKind::Udp }));
    assert!(actions.iter().all(|a| *a != SessionAction::RequestRelay));
    assert_eq!(
        actions,
        vec![
            SessionAction::BeginResolve { delay_ms: 0 },
            SessionAction::BeginProbe,
            SessionAction::BeginPunch,
            SessionAction::BeginAuth,
            SessionAction::BeginForwarding,
        ]
    );
}

#[test]
fn symmetric_classification_goes_straight_to_relay() {
    let mut s = Session::new(policy(), local_candidates(), true);
    s.step(SessionEvent::Start);
    s.step(SessionEvent::Resolved { candidates: remote_candidates() });
    let a = s.step(SessionEvent::Classified {
        local: NatClassification::Symmetric,
        remote: NatClassification::FullCone,
    });
    // No punch is ever begun: the machine asks for a relay at once.
    assert_eq!(a, SessionAction::RequestRelay);
    assert_eq!(s.phase, Phase::Relaying);
}

#[test]
fn failed_punch_falls_back_to_relay() {
    let mut s = Session::new(policy(), local_candidates(), true);
    s.step(SessionEvent::Start);
    s.step(SessionEvent::Resolved { candidates: remote_candidates() });
    s.step(SessionEvent::Classified {
        local: NatClassification::FullCone,
        remote: NatClassification::FullCone,
    });
    let a = s.step(SessionEvent::PunchFailed);
    assert_eq!(a, SessionAction::RequestRelay);
    let a = s.step(SessionEvent::RelayGranted { handle: 77 });
    assert_eq!(a, SessionAction::BeginAuth);
    assert_eq!(s.transport, Some(Transport::Relayed { handle: 77 }));
    s.step(SessionEvent::AuthAccepted);
    assert_eq!(s.phase, Phase::Forwarding);
}

#[test]
fn relay_denial_is_terminal() {
    let mut s = Session::new(policy(), local_candidates(), true);
    s.step(SessionEvent::Start);
    s.step(SessionEvent::Resolved { candidates: remote_candidates() });
    s.step(SessionEvent::Classified {
        local: NatClassification::Symmetric,
        remote: NatClassification::Symmetric,
    });
    let a = s.step(SessionEvent::RelayDenied);
    assert_eq!(a, SessionAction::Release);
    assert_eq!(s.phase, Phase::Error { reason: ErrorReason::RelayUnavailable });
    assert!(!s.listener_bound);
    assert_eq!(s.transport, None);
}

#[test]
fn denied_credential_never_reaches_forwarding() {
    let mut s = Session::new(policy(), local_candidates(), true);
    s.step(SessionEvent::Start);
    s.step(SessionEvent::Resolved { candidates: remote_candidates() });
    s.step(SessionEvent::Classified {
        local: NatClassification::FullCone,
        remote: NatClassification::FullCone,
    });
    s.step(SessionEvent::PunchSucceeded { kind: TransportKind::Udp });
    let a = s.step(SessionEvent::AuthDenied);
    assert_eq!(a, SessionAction::Release);
    assert_eq!(s.phase, Phase::Error { reason: ErrorReason::AuthRejected });
    assert_eq!(s.transport, None);
    // Whatever arrives later, the session stays rejected.
    s.step(SessionEvent::AuthAccepted);
    s.step(SessionEvent::Start);
    s.step(SessionEvent::RelayGranted { handle: 5 });
    assert_eq!(s.phase, Phase::Error { reason: ErrorReason::AuthRejected });
    assert_ne!(s.phase, Phase::Forwarding);
}

#[test]
fn io_error_releases_everything() {
    let mut s = Session::new(policy(), local_candidates(), true);
    s.step(SessionEvent::Start);
    s.step(SessionEvent::Resolved { candidates: remote_candidates() });
    s.step(SessionEvent::Classified {
        local: NatClassification::FullCone,
        remote: NatClassification::FullCone,
    });
    s.step(SessionEvent::PunchSucceeded { kind: TransportKind::Udp });
    s.step(SessionEvent::AuthAccepted);
    let a = s.step(SessionEvent::IoError);
    assert_eq!(a, SessionAction::Release);
    assert_eq!(s.phase, Phase::Error { reason: ErrorReason::TransportIo });
    assert!(!s.listener_bound);
    assert_eq!(s.transport, None);
}

#[test]
fn peer_close_ends_cleanly() {
    let mut s = Session::new(policy(), local_candidates(), false);
    s.step(SessionEvent::Start);
    s.step(SessionEvent::Resolved { candidates: remote_candidates() });
    s.step(SessionEvent::Classified {
        local: NatClassification::OpenInternet,
        remote: NatClassification::OpenInternet,
    });
    s.step(SessionEvent::PunchSucceeded { kind: TransportKind::Tcp });
    s.step(SessionEvent::AuthAccepted);
    let a = s.step(SessionEvent::PeerClosed);
    assert_eq!(a, SessionAction::Release);
    assert_eq!(s.phase, Phase::Closed);
}

#[test]
fn stale_punch_report_after_relay_fallback_is_ignored() {
    let mut s = Session::new(policy(), local_candidates(), true);
    s.step(SessionEvent::Start);
    s.step(SessionEvent::Resolved { candidates: remote_candidates() });
    s.step(SessionEvent::Classified {
        local: NatClassification::FullCone,
        remote: NatClassification::FullCone,
    });
    s.step(SessionEvent::PunchFailed);
    // A cancelled punch attempt must not be able to change the outcome.
    let a = s.step(SessionEvent::PunchSucceeded { kind: TransportKind::Udp });
    assert_eq!(a, SessionAction::Stay);
    assert_eq!(s.phase, Phase::Relaying);
    assert_eq!(s.transport, None);
}

#[test]
fn unreachable_rendezvous_exhausts_the_budget_and_unbinds() {
    // The port-forward option parses, the rendezvous server never answers,
    // and after the retry budget the session reports resolution failure
    // with no listener left bound.
    let spec = parse_port_forward(b"abc123:8000:22").unwrap();
    assert_eq!(spec.peer_id, b"abc123".to_vec());

    let mut s = Session::new(policy(), local_candidates(), true);
    let a = s.step(SessionEvent::Start);
    assert_eq!(a, SessionAction::BeginResolve { delay_ms: 0 });

    let a = s.step(SessionEvent::ResolveFailed);
    assert_eq!(a, SessionAction::BeginResolve { delay_ms: 100 });
    let a = s.step(SessionEvent::ResolveFailed);
    assert_eq!(a, SessionAction::BeginResolve { delay_ms: 200 });
    let a = s.step(SessionEvent::ResolveFailed);
    assert_eq!(a, SessionAction::Release);

    assert_eq!(s.phase, Phase::Error { reason: ErrorReason::ResolutionFailed });
    assert!(!s.listener_bound);
    assert_eq!(s.transport, None);
    assert_eq!(ErrorReason::ResolutionFailed.code(), "resolution-failed");
}
