//! The connection registry: the one shared mutable resource of the server.
//! It records the identities of the connections whose session handlers are
//! currently running. The surrounding process serializes every call through a
//! single lock; each function here describes one such guarded section.

use vstd::prelude::*;

use crate::conn::PeerId;

verus! {

/// Ordered collection of registered peer identities, bounded by a fixed
/// capacity. The capacity bound is enforced by admission (`try_register`),
/// which checks and registers as one guarded section.
pub struct Registry {
    peers: Vec<PeerId>,
    capacity: usize,
}

impl View for Registry {
    type V = Seq<PeerId>;

    closed spec fn view(&self) -> Seq<PeerId> {
        self.peers@
    }
}

impl Registry {
    /// The capacity the registry was configured with.
    pub closed spec fn cap(&self) -> nat {
        self.capacity as nat
    }

    /// Well-formedness: the registry never holds more connections than its
    /// configured capacity.
    pub open spec fn wf(&self) -> bool {
        self@.len() <= self.cap()
    }

    /// An empty registry with the given capacity.
    pub fn new(capacity: usize) -> (r: Registry)
        ensures
            r@ == Seq::<PeerId>::empty(),
            r.cap() == capacity,
            r.wf(),
    {
        Registry { peers: Vec::new(), capacity }
    }

    /// Current number of registered connections, read under the lock by the
    /// listener for its capacity check.
    pub fn len(&self) -> (n: usize)
        ensures
            n == self@.len(),
    {
        self.peers.len()
    }

    /// The configured capacity.
    pub fn capacity(&self) -> (c: usize)
        ensures
            c == self.cap(),
    {
        self.capacity
    }

    /// Whether `p` is currently registered.
    pub fn contains(&self, p: PeerId) -> (b: bool)
        ensures
            b == self@.contains(p),
    {
        let n: usize = self.peers.len();
        let mut i: usize = 0;
        while i < n
            invariant
                i <= n,
                n == self.peers@.len(),
                forall|k: int| 0 <= k < i ==> self.peers@[k] != p,
            decreases n - i,
        {
            if self.peers[i] == p {
                return true;
            }
            i = i + 1;
        }
        false
    }

    /// Appends `p`. The caller must have established, inside the same guarded
    /// section, that there is room; the listener does so via `try_register`.
    pub fn register(&mut self, p: PeerId)
        requires
            old(self)@.len() < old(self).cap(),
        ensures
            final(self)@ == old(self)@.push(p),
            final(self).cap() == old(self).cap(),
            final(self).wf(),
    {
        self.peers.push(p);
    }

    /// The guarded check-then-register pair, performed as one section so that
    /// concurrent accepts can never admit more than `cap` connections:
    /// registers `p` exactly when there is room, and reports whether it did.
    pub fn try_register(&mut self, p: PeerId) -> (admitted: bool)
        ensures
            final(self).cap() == old(self).cap(),
            admitted == (old(self)@.len() < old(self).cap()),
            final(self)@ == apply_op(old(self)@, old(self).cap(), RegistryOp::TryRegister(p)),
            old(self).wf() ==> final(self).wf(),
    {
        if self.peers.len() < self.capacity {
            self.peers.push(p);
            true
        } else {
            false
        }
    }

    /// Removes every entry whose identity is `p`, keeping the order of the
    /// rest. A no-op when `p` is absent, so a handler deregistering itself and
    /// a concurrent shutdown that already emptied the registry cannot conflict.
    pub fn deregister(&mut self, p: PeerId)
        ensures
            final(self)@ == old(self)@.filter(|q: PeerId| q != p),
            final(self)@ == apply_op(old(self)@, old(self).cap(), RegistryOp::Deregister(p)),
            final(self).cap() == old(self).cap(),
            old(self).wf() ==> final(self).wf(),
    {
        let n: usize = self.peers.len();
        let mut kept: Vec<PeerId> = Vec::new();
        let mut i: usize = 0;
        while i < n
            invariant
                i <= n,
                n == self.peers@.len(),
                kept@ == self.peers@.take(i as int).filter(|q: PeerId| q != p),
            decreases n - i,
        {
            let q = self.peers[i];
            proof {
                reveal(Seq::filter);
                assert(self.peers@.take(i + 1).drop_last() =~= self.peers@.take(i as int));
                assert(self.peers@.take(i + 1).last() == self.peers@[i as int]);
            }
            if q != p {
                kept.push(q);
            }
            i = i + 1;
        }
        proof {
            assert(self.peers@.take(n as int) =~= self.peers@);
            broadcast use Seq::lemma_filter_len;
        }
        self.peers = kept;
    }

    /// Empties the registry and hands back every identity that was registered,
    /// in order, for the shutdown coordinator to force-close. A second call
    /// finds the registry empty and reports nothing left to close.
    pub fn broadcast_close(&mut self) -> (peers: Vec<PeerId>)
        ensures
            peers@ == old(self)@,
            final(self)@ == apply_op(old(self)@, old(self).cap(), RegistryOp::BroadcastClose),
            final(self).cap() == old(self).cap(),
            final(self).wf(),
    {
        let mut out: Vec<PeerId> = Vec::new();
        core::mem::swap(&mut self.peers, &mut out);
        out
    }
}

/// One registry mutation, as the lock serializes them: an admission attempt by
/// the listener, a handler deregistering itself, or the shutdown broadcast.
pub enum RegistryOp {
    TryRegister(PeerId),
    Deregister(PeerId),
    BroadcastClose,
}

/// The contents after one serialized operation on a registry of capacity `cap`.
/// `try_register` and `deregister` above return exactly these contents.
pub open spec fn apply_op(peers: Seq<PeerId>, cap: nat, op: RegistryOp) -> Seq<PeerId> {
    match op {
        RegistryOp::TryRegister(p) => if peers.len() < cap {
            peers.push(p)
        } else {
            peers
        },
        RegistryOp::Deregister(p) => peers.filter(|q: PeerId| q != p),
        RegistryOp::BroadcastClose => Seq::empty(),
    }
}

/// The contents after a whole sequence of serialized operations, applied in order.
pub open spec fn apply_ops(peers: Seq<PeerId>, cap: nat, ops: Seq<RegistryOp>) -> Seq<PeerId>
    decreases ops.len(),
{
    if ops.len() == 0 {
        peers
    } else {
        apply_ops(apply_op(peers, cap, ops.first()), cap, ops.drop_first())
    }
}

/// One operation keeps the registry within capacity.
pub proof fn lemma_apply_op_bounded(peers: Seq<PeerId>, cap: nat, op: RegistryOp)
    requires
        peers.len() <= cap,
    ensures
        apply_op(peers, cap, op).len() <= cap,
{
    match op {
        RegistryOp::Deregister(p) => {
            broadcast use Seq::lemma_filter_len;

        },
        _ => {},
    }
}

/// The registry's size never exceeds the configured capacity under any
/// sequence of concurrent admission attempts, deregistrations and shutdown
/// broadcasts: the lock serializes them into some order, and every such order,
/// started from an in-bounds registry, stays in bounds.
pub proof fn lemma_capacity_never_exceeded(peers: Seq<PeerId>, cap: nat, ops: Seq<RegistryOp>)
    requires
        peers.len() <= cap,
    ensures
        apply_ops(peers, cap, ops).len() <= cap,
    decreases ops.len(),
{
    if ops.len() > 0 {
        lemma_apply_op_bounded(peers, cap, ops.first());
        lemma_capacity_never_exceeded(apply_op(peers, cap, ops.first()), cap, ops.drop_first());
    }
}

} // verus!
