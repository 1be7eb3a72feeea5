//! The error taxonomy of the subsystem.
//!
//! Only whole-session failures cross a component boundary; recoverable
//! conditions (a single probe timeout, one failed punch pair) are absorbed
//! where they happen and never show up here.

use vstd::prelude::*;

verus! {

/// A terminal reason a session (or the option parsing before it) failed.
#[derive(Clone, Copy, Debug, PartialEq, Eq, Structural)]
pub enum ErrorReason {
    /// Malformed command-line options; no session is ever created.
    InvalidOptions,
    /// The rendezvous service could not resolve the target identifier
    /// within the retry budget.
    ResolutionFailed,
    /// Direct punching failed and no relay could be allocated.
    RelayUnavailable,
    /// The credential exchange failed; the credential itself is never
    /// part of any diagnostic.
    AuthRejected,
    /// The established transport failed mid-session.
    TransportIo,
}

impl ErrorReason {
    /// A short, stable reason code for diagnostics.  It never contains
    /// credential material.
    pub fn code(&self) -> (r: &'static str)
        ensures
            r@ == self.code_spec(),
    {
        proof {
            reveal_strlit("invalid-options");
            reveal_strlit("resolution-failed");
            reveal_strlit("relay-unavailable");
            reveal_strlit("auth-rejected");
            reveal_strlit("transport-io");
        }
        match self {
            ErrorReason::InvalidOptions => "invalid-options",
            ErrorReason::ResolutionFailed => "resolution-failed",
            ErrorReason::RelayUnavailable => "relay-unavailable",
            ErrorReason::AuthRejected => "auth-rejected",
            ErrorReason::TransportIo => "transport-io",
        }
    }

    /// What `code` returns for each reason.
    pub open spec fn code_spec(self) -> Seq<char> {
        match self {
            ErrorReason::InvalidOptions => "invalid-options"@,
            ErrorReason::ResolutionFailed => "resolution-failed"@,
            ErrorReason::RelayUnavailable => "relay-unavailable"@,
            ErrorReason::AuthRejected => "auth-rejected"@,
            ErrorReason::TransportIo => "transport-io"@,
        }
    }
}

} // verus!
