//! Model of one peer connection: its stable identity (peer address) and its
//! live/closed status. The actual byte stream is owned by the surrounding
//! process; this type carries exactly what the server's logic reads of it.

use vstd::prelude::*;

verus! {

/// Stable identity of a remote peer: host (IPv4 address as one integer) and
/// TCP port. Identity comparison uses this key, not reference identity.
#[derive(Clone, Copy, PartialEq, Eq, Structural, Debug)]
pub struct PeerId {
    pub host: u32,
    pub port: u16,
}

/// One connection as the server's logic sees it: who the peer is, and whether
/// the stream is still live.
#[derive(Clone, Copy, PartialEq, Eq, Structural, Debug)]
pub struct ConnInfo {
    pub peer: PeerId,
    pub live: bool,
}

/// The value a connection takes after a forced close: same peer, no longer live.
pub open spec fn closed_conn(c: ConnInfo) -> ConnInfo {
    ConnInfo { peer: c.peer, live: false }
}

impl ConnInfo {
    /// A freshly accepted connection to `peer`, live.
    pub fn new(peer: PeerId) -> (c: ConnInfo)
        ensures
            c.peer == peer,
            c.live,
    {
        ConnInfo { peer, live: true }
    }

    /// Forced close. Total: closing an already-closed connection is a no-op,
    /// never a fault, so the handler and the shutdown coordinator may race on it.
    pub fn force_close(&mut self)
        ensures
            *final(self) == closed_conn(*old(self)),
    {
        self.live = false;
    }
}

/// Closing a connection twice leaves exactly the state one close leaves:
/// a forced close has no further effect on an already-closed connection.
pub proof fn lemma_force_close_idempotent(c: ConnInfo)
    ensures
        closed_conn(closed_conn(c)) == closed_conn(c),
{
}

} // verus!
