//! The listener's accept-poll decisions. The surrounding process runs the
//! actual accept loop on the socket; on every poll cycle it reports what the
//! socket returned and whether shutdown was requested, and this module decides
//! the next listener state, what to do with the cycle's outcome, and how the
//! registry changes. The process holds the registry lock across the call, so
//! the capacity check and the registration are one guarded section.

use vstd::prelude::*;

use crate::conn::PeerId;
use crate::registry::Registry;

verus! {

/// Lifecycle of the accept loop: it runs, observes shutdown and stops
/// accepting, then terminates.
#[derive(Clone, Copy, PartialEq, Eq, Structural, Debug)]
pub enum ListenerState {
    Running,
    Stopping,
    Stopped,
}

/// What one poll of the non-blocking accept produced.
#[derive(Clone, Copy, PartialEq, Eq, Structural, Debug)]
pub enum AcceptEvent {
    /// A new connection from this peer was accepted.
    Accepted(PeerId),
    /// Nothing pending (the accept would block).
    NotReady,
    /// The accept failed with some other error.
    Failed,
}

/// What the process must do after one poll cycle.
#[derive(Clone, Copy, PartialEq, Eq, Structural, Debug)]
pub enum ListenerAction {
    /// The peer was registered: start its session handler.
    AdmitAndSpawn(PeerId),
    /// The registry is at capacity: close the new connection at once, keep nothing.
    RejectAndClose(PeerId),
    /// Nothing pending: sleep for the retry delay, then poll again.
    Backoff,
    /// Accept failed: log it and keep serving.
    LogAndContinue,
    /// Stop accepting; the loop terminates.
    StopAccepting,
}

/// The listener's transition relation: next state, action, and registry
/// contents for one poll cycle. Shutdown is checked before the accept outcome,
/// so once the flag is set no event can lead to an admission.
pub open spec fn poll_spec(
    st: ListenerState,
    shutdown: bool,
    peers: Seq<PeerId>,
    cap: nat,
    ev: AcceptEvent,
) -> (ListenerState, ListenerAction, Seq<PeerId>) {
    if st != ListenerState::Running {
        (ListenerState::Stopped, ListenerAction::StopAccepting, peers)
    } else if shutdown {
        (ListenerState::Stopping, ListenerAction::StopAccepting, peers)
    } else {
        match ev {
            AcceptEvent::Accepted(p) => if peers.len() < cap {
                (ListenerState::Running, ListenerAction::AdmitAndSpawn(p), peers.push(p))
            } else {
                (ListenerState::Running, ListenerAction::RejectAndClose(p), peers)
            },
            AcceptEvent::NotReady => (ListenerState::Running, ListenerAction::Backoff, peers),
            AcceptEvent::Failed => (
                ListenerState::Running,
                ListenerAction::LogAndContinue,
                peers,
            ),
        }
    }
}

/// One poll cycle of the listener loop. Returns the next state and the action
/// to perform; admits the accepted peer into the registry exactly when the
/// shutdown flag is clear and there is room below capacity.
pub fn listener_poll(
    st: ListenerState,
    shutdown: bool,
    reg: &mut Registry,
    ev: AcceptEvent,
) -> (r: (ListenerState, ListenerAction))
    ensures
        (r.0, r.1, final(reg)@) == poll_spec(st, shutdown, old(reg)@, old(reg).cap(), ev),
        final(reg).cap() == old(reg).cap(),
        old(reg).wf() ==> final(reg).wf(),
{
    match st {
        ListenerState::Running => {
            if shutdown {
                (ListenerState::Stopping, ListenerAction::StopAccepting)
            } else {
                match ev {
                    AcceptEvent::Accepted(p) => {
                        if reg.try_register(p) {
                            (ListenerState::Running, ListenerAction::AdmitAndSpawn(p))
                        } else {
                            (ListenerState::Running, ListenerAction::RejectAndClose(p))
                        }
                    },
                    AcceptEvent::NotReady => (ListenerState::Running, ListenerAction::Backoff),
                    AcceptEvent::Failed => (
                        ListenerState::Running,
                        ListenerAction::LogAndContinue,
                    ),
                }
            }
        },
        _ => (ListenerState::Stopped, ListenerAction::StopAccepting),
    }
}

/// Once shutdown is requested, a poll cycle never admits a connection: the
/// registry keeps its contents unchanged, the action is never an admission,
/// and a running listener leaves the accepting state at once.
pub proof fn lemma_shutdown_halts_acceptance(
    st: ListenerState,
    peers: Seq<PeerId>,
    cap: nat,
    ev: AcceptEvent,
)
    ensures
        ({
            let (st2, act, peers2) = poll_spec(st, true, peers, cap, ev);
            &&& peers2 == peers
            &&& !(act matches ListenerAction::AdmitAndSpawn(_))
            &&& st == ListenerState::Running ==> st2 == ListenerState::Stopping
            &&& st != ListenerState::Running ==> st2 == ListenerState::Stopped
        }),
{
}

/// A poll cycle keeps the registry within capacity, whatever the state, flag
/// and accept outcome.
pub proof fn lemma_poll_preserves_capacity(
    st: ListenerState,
    shutdown: bool,
    peers: Seq<PeerId>,
    cap: nat,
    ev: AcceptEvent,
)
    requires
        peers.len() <= cap,
    ensures
        poll_spec(st, shutdown, peers, cap, ev).2.len() <= cap,
{
}

} // verus!
