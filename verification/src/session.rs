//! The session manager: an explicit state machine over the connection
//! lifecycle.
//!
//! A session walks `Idle -> Resolving -> Probing -> Punching ->
//! Authenticating -> Forwarding -> Closed`, with a relay detour
//! (`Punching -> Relaying -> Authenticating`) when punching fails or is
//! hopeless, and a terminal `Error` reachable from every non-terminal
//! state.  Each step takes the current state and one event and returns the
//! next state and the single side effect to perform; the caller does the
//! network work and feeds the outcome back in as the next event.  Events
//! that cannot happen in the current phase — a punch result reported after
//! cancellation, say — change nothing.

use vstd::prelude::*;
use crate::errors::ErrorReason;
use crate::natprobe::NatClassification;
use crate::puncher::{punchable, EndpointCandidate, TransportKind};
use crate::rendezvous::RetryPolicy;

verus! {

/// The established transport: both kinds expose one ordered, reliable,
/// full-duplex byte stream, and the forwarding loop never looks past this
/// tag.
#[derive(Clone, Copy, Debug, PartialEq, Eq, Structural)]
pub enum Transport {
    /// A punched peer-to-peer path.
    Direct {
        /// Which transport the winning pair spoke.
        kind: TransportKind,
    },
    /// A server-mediated tunnel bound to a pre-allocated relay handle.
    Relayed {
        /// The handle the relay service granted.
        handle: u64,
    },
}

/// The lifecycle phase of a session.
#[derive(Clone, Copy, Debug, PartialEq, Eq, Structural)]
pub enum Phase {
    /// Nothing started yet.
    Idle,
    /// Waiting for the rendezvous service to resolve the target.
    Resolving,
    /// Waiting for the NAT classification (cached or freshly probed).
    Probing,
    /// Punch attempts are in flight under their shared deadline.
    Punching,
    /// Waiting for a relay allocation.
    Relaying,
    /// The credential exchange runs over the established transport.
    Authenticating,
    /// Bytes flow in both directions.
    Forwarding,
    /// Ended cleanly; terminal.
    Closed,
    /// Ended on a fatal condition; terminal.
    Error {
        /// Why the session failed.
        reason: ErrorReason,
    },
}

/// A phase no event leaves.
pub open spec fn terminal(p: Phase) -> bool {
    p is Closed || p is Error
}

/// What the caller reports into the machine.
pub enum SessionEvent {
    /// The caller asks the session to start.
    Start,
    /// The rendezvous service resolved the target to these candidates.
    Resolved {
        /// The peer's endpoint candidates, as exchanged.
        candidates: Vec<EndpointCandidate>,
    },
    /// One resolve attempt ended in a timeout or `NotFound`.
    ResolveFailed,
    /// The NAT classes of both sides are known.
    Classified {
        /// The local side's class.
        local: NatClassification,
        /// The peer's class, from the exchanged metadata.
        remote: NatClassification,
    },
    /// Some punch pair completed its bidirectional handshake.
    PunchSucceeded {
        /// The kind of the winning pair.
        kind: TransportKind,
    },
    /// Every punch pair failed or the shared deadline passed.
    PunchFailed,
    /// The relay service granted an allocation.
    RelayGranted {
        /// The granted handle.
        handle: u64,
    },
    /// The relay service refused the allocation.
    RelayDenied,
    /// The peer accepted the credential exchange.
    AuthAccepted,
    /// The peer refused the credential exchange.
    AuthDenied,
    /// The local endpoint reached end of input.
    LocalClosed,
    /// The remote peer disconnected.
    PeerClosed,
    /// The transport failed irrecoverably.
    IoError,
    /// The caller asks the session to close.
    CloseRequested,
}

/// The one side effect the caller performs after a step.
#[derive(Clone, Copy, Debug, PartialEq, Eq, Structural)]
pub enum SessionAction {
    /// Nothing to do.
    Stay,
    /// Ask the rendezvous service to resolve the target after this delay.
    BeginResolve {
        /// How long to wait first, in milliseconds.
        delay_ms: u64,
    },
    /// Obtain the NAT classification, cached or by probing.
    BeginProbe,
    /// Build the punch plan from the stored candidates and run it.
    BeginPunch,
    /// Ask the rendezvous service for a relay allocation.
    RequestRelay,
    /// Run the credential exchange over the established transport.
    BeginAuth,
    /// Start the two forwarding loops.
    BeginForwarding,
    /// Tear down: cancel punches, close sockets, release relay handles,
    /// unbind the listener.
    Release,
}

/// A session: one local endpoint bound to one remote peer, owning at most
/// one live transport.
pub struct Session {
    /// Where the lifecycle stands.
    pub phase: Phase,
    /// The resolve retry schedule.
    pub policy: RetryPolicy,
    /// How many resolve attempts were issued.
    pub resolve_attempts: u32,
    /// The local endpoint candidates.
    pub local_candidates: Vec<EndpointCandidate>,
    /// The peer's candidates; fixed once punching starts, a retry needs a
    /// fresh resolution.
    pub remote_candidates: Vec<EndpointCandidate>,
    /// The local NAT class, once known.
    pub local_class: NatClassification,
    /// The peer's NAT class, once known.
    pub remote_class: NatClassification,
    /// The live transport, if one is established.
    pub transport: Option<Transport>,
    /// Whether a local listener is bound for this session.
    pub listener_bound: bool,
}

/// `s` torn down into phase `p`: listener unbound, transport gone,
/// everything else kept for the error report.
pub open spec fn torn_down(s: Session, p: Phase) -> Session {
    Session { phase: p, listener_bound: false, transport: Option::None, ..s }
}

impl Session {
    /// Every resource is released.
    pub open spec fn released(self) -> bool {
        !self.listener_bound && self.transport is None
    }

    /// The machine's invariant: a sane retry policy, the attempt count
    /// within budget and already started while resolving, and nothing
    /// still held in a terminal phase.
    pub open spec fn wf(self) -> bool {
        &&& self.policy.wf()
        &&& self.resolve_attempts <= self.policy.max_attempts
        &&& (self.phase is Resolving ==> self.resolve_attempts >= 1)
        &&& (terminal(self.phase) ==> self.released())
    }

    /// A fresh, idle session.
    pub fn new(
        policy: RetryPolicy,
        local_candidates: Vec<EndpointCandidate>,
        listener_bound: bool,
    ) -> (r: Session)
        requires
            policy.wf(),
        ensures
            r.wf(),
            r.phase == Phase::Idle,
            r.policy == policy,
            r.resolve_attempts == 0,
            r.local_candidates == local_candidates,
            r.remote_candidates@.len() == 0,
            r.transport is None,
            r.listener_bound == listener_bound,
    {
        Session {
            phase: Phase::Idle,
            policy,
            resolve_attempts: 0,
            local_candidates,
            remote_candidates: Vec::new(),
            local_class: NatClassification::Unknown,
            remote_class: NatClassification::Unknown,
            transport: Option::None,
            listener_bound,
        }
    }

    /// One step of the machine: from `pre` on `e` to `post`, performing
    /// `a`.  Terminal phases absorb everything; an event foreign to the
    /// current phase changes nothing.
    pub open spec fn step_rel(
        pre: Session,
        e: SessionEvent,
        post: Session,
        a: SessionAction,
    ) -> bool {
        if terminal(pre.phase) {
            post == pre && a == SessionAction::Stay
        } else {
            match (pre.phase, e) {
                (Phase::Idle, SessionEvent::Start) => {
                    &&& post == Session { phase: Phase::Resolving, resolve_attempts: 1, ..pre }
                    &&& a == (SessionAction::BeginResolve { delay_ms: 0 })
                },
                (Phase::Resolving, SessionEvent::Resolved { candidates }) => {
                    &&& post == Session {
                        phase: Phase::Probing,
                        remote_candidates: candidates,
                        ..pre
                    }
                    &&& a == SessionAction::BeginProbe
                },
                (Phase::Resolving, SessionEvent::ResolveFailed) => {
                    if pre.resolve_attempts < pre.policy.max_attempts {
                        &&& post == Session {
                            resolve_attempts: (pre.resolve_attempts + 1) as u32,
                            ..pre
                        }
                        &&& a matches SessionAction::BeginResolve { delay_ms }
                        &&& a->delay_ms == pre.policy.backoff_spec(pre.resolve_attempts as nat)
                    } else {
                        &&& post == torn_down(
                            pre,
                            Phase::Error { reason: ErrorReason::ResolutionFailed },
                        )
                        &&& a == SessionAction::Release
                    }
                },
                (Phase::Probing, SessionEvent::Classified { local, remote }) => {
                    if punchable(local, remote) {
                        &&& post == Session {
                            phase: Phase::Punching,
                            local_class: local,
                            remote_class: remote,
                            ..pre
                        }
                        &&& a == SessionAction::BeginPunch
                    } else {
                        &&& post == Session {
                            phase: Phase::Relaying,
                            local_class: local,
                            remote_class: remote,
                            ..pre
                        }
                        &&& a == SessionAction::RequestRelay
                    }
                },
                (Phase::Punching, SessionEvent::PunchSucceeded { kind }) => {
                    &&& post == Session {
                        phase: Phase::Authenticating,
                        transport: Option::Some(Transport::Direct { kind }),
                        ..pre
                    }
                    &&& a == SessionAction::BeginAuth
                },
                (Phase::Punching, SessionEvent::PunchFailed) => {
                    &&& post == Session { phase: Phase::Relaying, ..pre }
                    &&& a == SessionAction::RequestRelay
                },
                (Phase::Relaying, SessionEvent::RelayGranted { handle }) => {
                    &&& post == Session {
                        phase: Phase::Authenticating,
                        transport: Option::Some(Transport::Relayed { handle }),
                        ..pre
                    }
                    &&& a == SessionAction::BeginAuth
                },
                (Phase::Relaying, SessionEvent::RelayDenied) => {
                    &&& post == torn_down(
                        pre,
                        Phase::Error { reason: ErrorReason::RelayUnavailable },
                    )
                    &&& a == SessionAction::Release
                },
                (Phase::Authenticating, SessionEvent::AuthAccepted) => {
                    &&& post == Session { phase: Phase::Forwarding, ..pre }
                    &&& a == SessionAction::BeginForwarding
                },
                (Phase::Authenticating, SessionEvent::AuthDenied) => {
                    &&& post == torn_down(pre, Phase::Error { reason: ErrorReason::AuthRejected })
                    &&& a == SessionAction::Release
                },
                (Phase::Forwarding, SessionEvent::LocalClosed) => {
                    &&& post == torn_down(pre, Phase::Closed)
                    &&& a == SessionAction::Release
                },
                (Phase::Forwarding, SessionEvent::PeerClosed) => {
                    &&& post == torn_down(pre, Phase::Closed)
                    &&& a == SessionAction::Release
                },
                (_, SessionEvent::IoError) => {
                    &&& post == torn_down(pre, Phase::Error { reason: ErrorReason::TransportIo })
                    &&& a == SessionAction::Release
                },
                (_, SessionEvent::CloseRequested) => {
                    &&& post == torn_down(pre, Phase::Closed)
                    &&& a == SessionAction::Release
                },
                _ => post == pre && a == SessionAction::Stay,
            }
        }
    }

    /// Advances the session by one event and returns the side effect to
    /// perform.
    pub fn step(&mut self, event: SessionEvent) -> (a: SessionAction)
        requires
            old(self).wf(),
        ensures
            final(self).wf(),
            Session::step_rel(*old(self), event, *final(self), a),
    {
        let terminal_now = matches!(self.phase, Phase::Closed | Phase::Error { .. });
        if terminal_now {
            return SessionAction::Stay;
        }
        match (self.phase, event) {
            (Phase::Idle, SessionEvent::Start) => {
                self.phase = Phase::Resolving;
                self.resolve_attempts = 1;
                SessionAction::BeginResolve { delay_ms: 0 }
            },
            (Phase::Resolving, SessionEvent::Resolved { candidates }) => {
                self.phase = Phase::Probing;
                self.remote_candidates = candidates;
                SessionAction::BeginProbe
            },
            (Phase::Resolving, SessionEvent::ResolveFailed) => {
                if self.resolve_attempts < self.policy.max_attempts {
                    let failures = self.resolve_attempts;
                    self.resolve_attempts = self.resolve_attempts + 1;
                    let delay_ms = self.policy.backoff_ms(failures);
                    SessionAction::BeginResolve { delay_ms }
                } else {
                    self.phase = Phase::Error { reason: ErrorReason::ResolutionFailed };
                    self.listener_bound = false;
                    self.transport = Option::None;
                    SessionAction::Release
                }
            },
            (Phase::Probing, SessionEvent::Classified { local, remote }) => {
                self.local_class = local;
                self.remote_class = remote;
                let can_punch = !matches!(local, NatClassification::Symmetric) && !matches!(
                    remote,
                    NatClassification::Symmetric,
                );
                if can_punch {
                    self.phase = Phase::Punching;
                    SessionAction::BeginPunch
                } else {
                    self.phase = Phase::Relaying;
                    SessionAction::RequestRelay
                }
            },
            (Phase::Punching, SessionEvent::PunchSucceeded { kind }) => {
                self.phase = Phase::Authenticating;
                self.transport = Option::Some(Transport::Direct { kind });
                SessionAction::BeginAuth
            },
            (Phase::Punching, SessionEvent::PunchFailed) => {
                self.phase = Phase::Relaying;
                SessionAction::RequestRelay
            },
            (Phase::Relaying, SessionEvent::RelayGranted { handle }) => {
                self.phase = Phase::Authenticating;
                self.transport = Option::Some(Transport::Relayed { handle });
                SessionAction::BeginAuth
            },
            (Phase::Relaying, SessionEvent::RelayDenied) => {
                self.phase = Phase::Error { reason: ErrorReason::RelayUnavailable };
                self.listener_bound = false;
                self.transport = Option::None;
                SessionAction::Release
            },
            (Phase::Authenticating, SessionEvent::AuthAccepted) => {
                self.phase = Phase::Forwarding;
                SessionAction::BeginForwarding
            },
            (Phase::Authenticating, SessionEvent::AuthDenied) => {
                self.phase = Phase::Error { reason: ErrorReason::AuthRejected };
                self.listener_bound = false;
                self.transport = Option::None;
                SessionAction::Release
            },
            (Phase::Forwarding, SessionEvent::LocalClosed) => {
                self.phase = Phase::Closed;
                self.listener_bound = false;
                self.transport = Option::None;
                SessionAction::Release
            },
            (Phase::Forwarding, SessionEvent::PeerClosed) => {
                self.phase = Phase::Closed;
                self.listener_bound = false;
                self.transport = Option::None;
                SessionAction::Release
            },
            (_, SessionEvent::IoError) => {
                self.phase = Phase::Error { reason: ErrorReason::TransportIo };
                self.listener_bound = false;
                self.transport = Option::None;
                SessionAction::Release
            },
            (_, SessionEvent::CloseRequested) => {
                self.phase = Phase::Closed;
                self.listener_bound = false;
                self.transport = Option::None;
                SessionAction::Release
            },
            _ => SessionAction::Stay,
        }
    }
}

/// A run of the machine: `states[0]` stepped through `events` visits
/// `states` and performs `actions`.
pub open spec fn is_run(
    states: Seq<Session>,
    events: Seq<SessionEvent>,
    actions: Seq<SessionAction>,
) -> bool {
    &&& states.len() == events.len() + 1
    &&& actions.len() == events.len()
    &&& forall|i: int| 0 <= i < events.len() ==> Session::step_rel(
        states[i],
        events[i],
        states[i + 1],
        actions[i],
    )
}

/// A punch is begun only when neither side is symmetric: a symmetric
/// classification goes straight to the relay, issuing zero punch attempts.
pub proof fn lemma_punch_only_when_punchable(
    pre: Session,
    e: SessionEvent,
    post: Session,
    a: SessionAction,
)
    requires
        Session::step_rel(pre, e, post, a),
        a == SessionAction::BeginPunch,
    ensures
        e matches SessionEvent::Classified { local, remote } && punchable(local, remote),
        punchable(post.local_class, post.remote_class),
{
}

/// A relay allocation is requested only after a failed punch or a
/// classification that makes punching hopeless.
pub proof fn lemma_relay_needs_failure(
    pre: Session,
    e: SessionEvent,
    post: Session,
    a: SessionAction,
)
    requires
        Session::step_rel(pre, e, post, a),
        a == SessionAction::RequestRelay,
    ensures
        e is PunchFailed || (e matches SessionEvent::Classified { local, remote } && !punchable(
            local,
            remote,
        )),
{
}

/// Two endpoints that can reach each other directly — no symmetric NAT is
/// reported and no punch fails — never cause a relay allocation request.
pub proof fn lemma_direct_never_relays(
    states: Seq<Session>,
    events: Seq<SessionEvent>,
    actions: Seq<SessionAction>,
)
    requires
        is_run(states, events, actions),
        forall|i: int| 0 <= i < events.len() ==> !((#[trigger] events[i]) is PunchFailed),
        forall|i: int| 0 <= i < events.len() ==> ((#[trigger] events[i])
            matches SessionEvent::Classified { local, remote } ==> punchable(local, remote)),
    ensures
        forall|i: int| 0 <= i < actions.len() ==> #[trigger] actions[i]
            != SessionAction::RequestRelay,
{
    assert forall|i: int| 0 <= i < actions.len() implies #[trigger] actions[i]
        != SessionAction::RequestRelay by {
        if actions[i] == SessionAction::RequestRelay {
            lemma_relay_needs_failure(states[i], events[i], states[i + 1], actions[i]);
        }
    }
}

/// Terminal phases absorb: whatever else happens, the session stays put.
pub proof fn lemma_terminal_stays(
    states: Seq<Session>,
    events: Seq<SessionEvent>,
    actions: Seq<SessionAction>,
    i: int,
    j: int,
)
    requires
        is_run(states, events, actions),
        0 <= i <= j < states.len(),
        terminal(states[i].phase),
    ensures
        states[j] == states[i],
    decreases j - i,
{
    if j > i {
        lemma_terminal_stays(states, events, actions, i, j - 1);
        assert(Session::step_rel(states[j - 1], events[j - 1], states[j], actions[j - 1]));
    }
}

/// A denied credential exchange lands in `Error(AuthRejected)` with every
/// resource released.
pub proof fn lemma_auth_denied_rejects(
    pre: Session,
    e: SessionEvent,
    post: Session,
    a: SessionAction,
)
    requires
        Session::step_rel(pre, e, post, a),
        pre.phase is Authenticating,
        e is AuthDenied,
    ensures
        post.phase == (Phase::Error { reason: ErrorReason::AuthRejected }),
        post.released(),
        a == SessionAction::Release,
{
}

/// After a denied credential exchange the session never forwards: every
/// later state is still `Error(AuthRejected)`.
pub proof fn lemma_auth_denied_never_forwards(
    states: Seq<Session>,
    events: Seq<SessionEvent>,
    actions: Seq<SessionAction>,
    i: int,
)
    requires
        is_run(states, events, actions),
        0 <= i < events.len(),
        states[i].phase is Authenticating,
        events[i] is AuthDenied,
    ensures
        forall|j: int| i < j < states.len() ==> (#[trigger] states[j]).phase == (Phase::Error {
            reason: ErrorReason::AuthRejected,
        }),
        forall|j: int| i < j < states.len() ==> !((#[trigger] states[j]).phase is Forwarding),
{
    lemma_auth_denied_rejects(states[i], events[i], states[i + 1], actions[i]);
    assert forall|j: int| i < j < states.len() implies (#[trigger] states[j]).phase
        == (Phase::Error { reason: ErrorReason::AuthRejected }) by {
        lemma_terminal_stays(states, events, actions, i + 1, j);
    }
}

} // verus!
