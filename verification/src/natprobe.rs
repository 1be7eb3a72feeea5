//! NAT classification from binding-request observations.
//!
//! The prober sends binding requests to rendezvous endpoints and records,
//! for each, the externally observed mapping (or a timeout).  A separate
//! filtering probe, when available, records whether replies from a foreign
//! address or a foreign port of the same server got through.  Classification
//! is a pure function of those observations: the same samples always yield
//! the same class.

use vstd::prelude::*;

verus! {

/// How the local NAT maps and filters traffic.  Determined at most once
/// per network attachment and cached until the network changes.
#[derive(Clone, Copy, Debug, PartialEq, Eq, Structural)]
pub enum NatClassification {
    /// Nothing could be learned (every probe timed out).  Never fatal: the
    /// caller proceeds with the most conservative strategy.
    Unknown,
    /// The local address is itself the external address: no NAT.
    OpenInternet,
    /// One external mapping for all destinations; anyone may send to it.
    FullCone,
    /// One external mapping; only addresses already contacted may send.
    RestrictedCone,
    /// One external mapping; only the exact address and port already
    /// contacted may send.
    PortRestrictedCone,
    /// The mapping changes per destination; plain hole punching is
    /// hopeless.
    Symmetric,
}

/// An endpoint as seen on the wire: an address and a port.
#[derive(Clone, Copy, Debug, PartialEq, Eq, Structural)]
pub struct Mapping {
    /// The 32-bit network address.
    pub addr: u32,
    /// The port.
    pub port: u16,
}

/// The outcome of one binding request: which rendezvous endpoint it went
/// to and the mapping that endpoint observed, or `None` on timeout.
#[derive(Clone, Copy, Debug, PartialEq, Eq)]
pub struct BindingSample {
    /// The rendezvous endpoint the request was sent to.
    pub dest: u32,
    /// The externally observed mapping, absent on timeout.
    pub mapping: Option<Mapping>,
}

/// What the filtering probe saw: whether replies sent from somewhere other
/// than the contacted endpoint made it back in.
#[derive(Clone, Copy, Debug, PartialEq, Eq, Structural)]
pub struct FilteringOutcome {
    /// A reply from a different server address arrived.
    pub replied_from_other_address: bool,
    /// A reply from the same address but a different port arrived.
    pub replied_from_other_port: bool,
}

/// At least one binding request was answered.
pub open spec fn some_success(s: Seq<BindingSample>) -> bool {
    exists|k: int| 0 <= k < s.len() && (#[trigger] s[k]).mapping is Some
}

/// Some answered request observed the local endpoint itself: no address
/// translation is happening.
pub open spec fn observed_self(local: Mapping, s: Seq<BindingSample>) -> bool {
    exists|k: int| 0 <= k < s.len() && (#[trigger] s[k]).mapping == Some(local)
}

/// Two answered requests to different destinations observed different
/// mappings.
pub open spec fn divergent_pair(s: Seq<BindingSample>, i: int, j: int) -> bool {
    &&& 0 <= i < s.len()
    &&& 0 <= j < s.len()
    &&& s[i].mapping is Some
    &&& s[j].mapping is Some
    &&& s[i].dest != s[j].dest
    &&& s[i].mapping != s[j].mapping
}

/// The mapping depends on the destination: the mark of a symmetric NAT.
pub open spec fn divergent(s: Seq<BindingSample>) -> bool {
    exists|i: int, j: int| divergent_pair(s, i, j)
}

/// The classification rule.  No answer at all: `Unknown`.  The external
/// mapping equals the local endpoint: `OpenInternet`.  The mapping differs
/// per destination: `Symmetric`.  Otherwise the mapping is stable and the
/// filtering probe (when one ran) separates the cone types; without one,
/// the stable mapping alone is read as `FullCone`.
pub open spec fn classify_spec(
    local: Mapping,
    s: Seq<BindingSample>,
    filtering: Option<FilteringOutcome>,
) -> NatClassification {
    if !some_success(s) {
        NatClassification::Unknown
    } else if observed_self(local, s) {
        NatClassification::OpenInternet
    } else if divergent(s) {
        NatClassification::Symmetric
    } else {
        match filtering {
            Option::None => NatClassification::FullCone,
            Option::Some(f) => if f.replied_from_other_address {
                NatClassification::FullCone
            } else if f.replied_from_other_port {
                NatClassification::RestrictedCone
            } else {
                NatClassification::PortRestrictedCone
            },
        }
    }
}

/// The classification cache: the class is computed at most once per
/// network attachment and reused until a network change explicitly
/// invalidates it.
pub struct ClassificationCache {
    /// The cached class, if one was computed since the last invalidation.
    pub value: Option<NatClassification>,
}

impl ClassificationCache {
    /// An empty cache: nothing computed yet.
    pub fn new() -> (r: ClassificationCache)
        ensures
            r.value is None,
    {
        ClassificationCache { value: Option::None }
    }

    /// Stores a freshly computed class — but only the first one: a filled
    /// cache keeps what it has until invalidated, so the class is computed
    /// at most once per attachment.
    pub fn fill(&mut self, class: NatClassification)
        ensures
            final(self).value == if old(self).value is Some {
                old(self).value
            } else {
                Option::Some(class)
            },
    {
        if matches!(self.value, Option::None) {
            self.value = Option::Some(class);
        }
    }

    /// The cached class, if any.
    pub fn get(&self) -> (r: Option<NatClassification>)
        ensures
            r == self.value,
    {
        self.value
    }

    /// Forgets the class on a network change; the next probe fills the
    /// cache anew.
    pub fn invalidate(&mut self)
        ensures
            final(self).value is None,
    {
        self.value = Option::None;
    }
}

/// Classifies the local NAT from the recorded samples.  The result is
/// exactly `classify_spec`, so equal observations always classify alike.
pub fn classify(
    local: Mapping,
    samples: &Vec<BindingSample>,
    filtering: Option<FilteringOutcome>,
) -> (r: NatClassification)
    ensures
        r == classify_spec(local, samples@, filtering),
{
    let n = samples.len();
    let mut any_success = false;
    let mut self_seen = false;
    let mut i: usize = 0;
    while i < n
        invariant
            n == samples@.len(),
            0 <= i <= n,
            any_success <==> exists|k: int| 0 <= k < i && (#[trigger] samples@[k]).mapping is Some,
            self_seen <==> exists|k: int| 0 <= k < i && (#[trigger] samples@[k]).mapping
                == Some(local),
        decreases n - i,
    {
        match samples[i].mapping {
            Option::Some(m) => {
                any_success = true;
                if m.addr == local.addr && m.port == local.port {
                    self_seen = true;
                }
            },
            Option::None => {},
        }
        i = i + 1;
    }
    if !any_success {
        return NatClassification::Unknown;
    }
    if self_seen {
        return NatClassification::OpenInternet;
    }
    let mut found_divergent = false;
    let mut a: usize = 0;
    while a < n
        invariant
            n == samples@.len(),
            0 <= a <= n,
            found_divergent ==> divergent(samples@),
            !found_divergent ==> forall|p: int, q: int| 0 <= p < a && p < q < n
                ==> !divergent_pair(samples@, p, q),
        decreases n - a,
    {
        let mut b: usize = a + 1;
        while b < n
            invariant
                n == samples@.len(),
                0 <= a < n,
                a < b <= n,
                found_divergent ==> divergent(samples@),
                !found_divergent ==> forall|p: int, q: int| 0 <= p < a && p < q < n
                    ==> !divergent_pair(samples@, p, q),
                !found_divergent ==> forall|q: int| a < q < b
                    ==> !divergent_pair(samples@, a as int, q),
            decreases n - b,
        {
            match (samples[a].mapping, samples[b].mapping) {
                (Option::Some(ma), Option::Some(mb)) => {
                    if samples[a].dest != samples[b].dest
                        && (ma.addr != mb.addr || ma.port != mb.port) {
                        assert(divergent_pair(samples@, a as int, b as int));
                        found_divergent = true;
                    }
                },
                _ => {},
            }
            b = b + 1;
        }
        a = a + 1;
    }
    if found_divergent {
        return NatClassification::Symmetric;
    }
    proof {
        assert forall|i0: int, j0: int| !divergent_pair(samples@, i0, j0) by {
            if divergent_pair(samples@, i0, j0) {
                if i0 < j0 {
                    assert(!divergent_pair(samples@, i0, j0));
                } else if j0 < i0 {
                    assert(!divergent_pair(samples@, j0, i0));
                }
            }
        }
    }
    match filtering {
        Option::None => NatClassification::FullCone,
        Option::Some(f) => if f.replied_from_other_address {
            NatClassification::FullCone
        } else if f.replied_from_other_port {
            NatClassification::RestrictedCone
        } else {
            NatClassification::PortRestrictedCone
        },
    }
}

} // verus!
