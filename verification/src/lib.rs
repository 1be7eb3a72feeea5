//! Connection-establishment core for a peer-to-peer remote-access tool.
//!
//! Two endpoints find each other through a rendezvous service, classify the
//! NAT in front of each side, try to punch a direct path, fall back to a
//! relayed tunnel, authenticate with a shared credential and then forward
//! opaque bytes in both directions.  Everything here is pure decision logic:
//! the caller performs the network I/O and feeds the outcomes back in as
//! events.

pub mod codec;
pub mod credential;
pub mod errors;
pub mod forward;
pub mod natprobe;
pub mod options;
pub mod puncher;
pub mod rendezvous;
pub mod session;
