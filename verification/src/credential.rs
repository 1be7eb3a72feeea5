//! The access credential and the challenge-response check.
//!
//! A session authenticates by answering a random challenge with a response
//! derived from the shared key.  The key itself never crosses the wire and
//! never appears in a diagnostic; only the derived response does.

use vstd::prelude::*;
use crate::errors::ErrorReason;

verus! {

/// The credential a session authenticates with: a pre-shared key and an
/// optional bearer token.  Read-only to this subsystem.
pub struct AccessCredential {
    /// The shared secret the response is derived from.
    pub key: Vec<u8>,
    /// An optional bearer token presented alongside the response.
    pub token: Option<Vec<u8>>,
}

impl AccessCredential {
    /// Well-formed: the key is nonempty, since the response derivation
    /// cycles through it.
    pub open spec fn wf(self) -> bool {
        self.key@.len() > 0
    }
}

/// The response owed to a challenge under a key: every challenge byte
/// combined with the key byte at its position, the key repeated as often
/// as needed.
pub open spec fn response_tag(key: Seq<u8>, challenge: Seq<u8>) -> Seq<u8>
    recommends
        key.len() > 0,
{
    Seq::new(challenge.len(), |i: int| challenge[i] ^ key[i % (key.len() as int)])
}

/// Derives the response this credential owes to a challenge.
pub fn derive_response(cred: &AccessCredential, challenge: &[u8]) -> (r: Vec<u8>)
    requires
        cred.wf(),
    ensures
        r@ == response_tag(cred.key@, challenge@),
{
    let n = challenge.len();
    let klen = cred.key.len();
    let mut out: Vec<u8> = Vec::new();
    let mut i: usize = 0;
    while i < n
        invariant
            n == challenge@.len(),
            klen == cred.key@.len(),
            klen > 0,
            0 <= i <= n,
            out@.len() == i,
            forall|k: int| 0 <= k < i ==> out@[k] == (challenge@[k] ^ cred.key@[k % (klen as int)]),
        decreases n - i,
    {
        let b = challenge[i] ^ cred.key[i % klen];
        out.push(b);
        i = i + 1;
    }
    proof {
        assert(out@ =~= response_tag(cred.key@, challenge@));
    }
    out
}

/// Whether two byte strings hold the same bytes.
pub fn bytes_eq(a: &[u8], b: &[u8]) -> (r: bool)
    ensures
        r == (a@ == b@),
{
    let n = a.len();
    if n != b.len() {
        return false;
    }
    let mut i: usize = 0;
    while i < n
        invariant
            n == a@.len(),
            n == b@.len(),
            0 <= i <= n,
            forall|k: int| 0 <= k < i ==> a@[k] == b@[k],
        decreases n - i,
    {
        if a[i] != b[i] {
            return false;
        }
        i = i + 1;
    }
    proof {
        assert(a@ =~= b@);
    }
    true
}

/// Checks a peer's answer to a challenge.  Accepts exactly the response
/// the shared credential owes; any other answer — any wrong credential —
/// is `AuthRejected`.  Neither the key nor the expected response leaks
/// into the result.
pub fn check_auth_response(
    cred: &AccessCredential,
    challenge: &[u8],
    response: &[u8],
) -> (r: Result<(), ErrorReason>)
    requires
        cred.wf(),
    ensures
        r is Ok <==> response@ == response_tag(cred.key@, challenge@),
        r is Err ==> r->Err_0 == ErrorReason::AuthRejected,
{
    let expected = derive_response(cred, challenge);
    if bytes_eq(expected.as_slice(), response) {
        Ok(())
    } else {
        Err(ErrorReason::AuthRejected)
    }
}

} // verus!
