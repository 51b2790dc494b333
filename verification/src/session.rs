//! Per-connection echo decisions. The surrounding process owns the stream and
//! performs each non-blocking read; it reports the outcome here, and this
//! module accumulates the bytes of the current message and decides whether to
//! keep reading, echo, wait, or end the session. The echo is byte-exact: the
//! message handed back for writing is precisely the bytes read since the last
//! echo, in order.

use vstd::prelude::*;

use crate::conn::ConnInfo;
use crate::conn::PeerId;
use crate::conn::closed_conn;
use crate::registry::Registry;

verus! {

/// What one non-blocking read on the connection produced.
pub enum ReadEvent {
    /// The read returned these bytes (at most the read-buffer size).
    Data(Vec<u8>),
    /// A zero-length read: the peer closed its side.
    Closed,
    /// The read would block: nothing available yet.
    NotReady,
    /// The read failed with some other error.
    Failed,
}

/// What the handler must do after one read.
#[derive(Clone, Copy, PartialEq, Eq, Structural, Debug)]
pub enum SessionAction {
    /// A full buffer was read: more of the message may follow, read again.
    KeepReading,
    /// A short read ended the message: write the accumulated bytes back
    /// verbatim, then start the next message empty.
    EchoMessage,
    /// Nothing to do yet (would-block, or a spurious empty message): sleep for
    /// the retry delay, then read again.
    WaitRetry,
    /// The peer closed: the session ends normally.
    EndSession,
    /// Unrecoverable read error: the session ends as a handler failure.
    AbortSession,
}

/// One step of the echo loop. `msg` accumulates the current message;
/// `buf_len` is the fixed size of the read buffer, and a read shorter than it
/// ends the message. Every byte read is appended to `msg`, and `msg` is left
/// untouched by every other outcome.
pub fn session_read_step(msg: &mut Vec<u8>, ev: ReadEvent, buf_len: usize) -> (act: SessionAction)
    requires
        buf_len >= 1,
        (ev matches ReadEvent::Data(chunk) ==> chunk@.len() <= buf_len),
    ensures
        match ev {
            ReadEvent::Data(chunk) => {
                &&& final(msg)@ == old(msg)@ + chunk@
                &&& act == (if chunk@.len() == buf_len {
                    SessionAction::KeepReading
                } else if old(msg)@.len() + chunk@.len() == 0 {
                    SessionAction::WaitRetry
                } else {
                    SessionAction::EchoMessage
                })
            },
            ReadEvent::Closed => final(msg)@ == old(msg)@ && act == SessionAction::EndSession,
            ReadEvent::NotReady => final(msg)@ == old(msg)@ && act == SessionAction::WaitRetry,
            ReadEvent::Failed => final(msg)@ == old(msg)@ && act == SessionAction::AbortSession,
        },
{
    match ev {
        ReadEvent::Data(chunk) => {
            let chunk_len: usize = chunk.len();
            let mut chunk = chunk;
            msg.append(&mut chunk);
            if chunk_len == buf_len {
                SessionAction::KeepReading
            } else if msg.len() == 0 {
                SessionAction::WaitRetry
            } else {
                SessionAction::EchoMessage
            }
        },
        ReadEvent::Closed => SessionAction::EndSession,
        ReadEvent::NotReady => SessionAction::WaitRetry,
        ReadEvent::Failed => SessionAction::AbortSession,
    }
}

/// Hands the accumulated message out for echoing and leaves the accumulator
/// empty for the next message. The bytes written back are exactly the bytes
/// that were read.
pub fn take_message(msg: &mut Vec<u8>) -> (out: Vec<u8>)
    ensures
        out@ == old(msg)@,
        final(msg)@ == Seq::<u8>::empty(),
{
    let mut out: Vec<u8> = Vec::new();
    core::mem::swap(msg, &mut out);
    out
}

/// Terminal step of a session, on success and on failure alike: force-close
/// the connection (a no-op if the shutdown coordinator closed it first) and
/// deregister its identity (a no-op if the registry was already emptied).
pub fn end_session(conn: &mut ConnInfo, reg: &mut Registry)
    ensures
        *final(conn) == closed_conn(*old(conn)),
        final(reg)@ == old(reg)@.filter(|q: PeerId| q != old(conn).peer),
        final(reg).cap() == old(reg).cap(),
        old(reg).wf() ==> final(reg).wf(),
{
    conn.force_close();
    let peer = conn.peer;
    reg.deregister(peer);
}

/// The accumulator after a run of reads: each chunk appended in arrival order.
pub open spec fn accumulate(msg: Seq<u8>, chunks: Seq<Seq<u8>>) -> Seq<u8>
    decreases chunks.len(),
{
    if chunks.len() == 0 {
        msg
    } else {
        accumulate(msg + chunks.first(), chunks.drop_first())
    }
}

/// Accumulation only appends: the result is the starting bytes followed by
/// the concatenation of the chunks.
pub proof fn lemma_accumulate_appends(msg: Seq<u8>, chunks: Seq<Seq<u8>>)
    ensures
        accumulate(msg, chunks) == msg + chunks.flatten(),
    decreases chunks.len(),
{
    if chunks.len() == 0 {
        assert(msg + chunks.flatten() =~= msg);
    } else {
        lemma_accumulate_appends(msg + chunks.first(), chunks.drop_first());
        assert((msg + chunks.first()) + chunks.drop_first().flatten() =~= msg + chunks.flatten());
    }
}

/// The echo is byte-exact and order-preserving: a message assembled from any
/// run of reads, starting empty, is exactly the concatenation of the byte
/// sequences the peer's writes delivered, in order — and that is what
/// `EchoMessage` writes back.
pub proof fn lemma_echo_byte_exact(chunks: Seq<Seq<u8>>)
    ensures
        accumulate(Seq::empty(), chunks) == chunks.flatten(),
{
    lemma_accumulate_appends(Seq::empty(), chunks);
    assert(Seq::empty() + chunks.flatten() =~= chunks.flatten());
}

} // verus!
