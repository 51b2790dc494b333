//! Shutdown coordination: the process-wide shutdown flag, the operator's
//! console command that triggers it, and the coordinated teardown that empties
//! the registry so every registered connection can be force-closed.

use vstd::prelude::*;

use crate::conn::PeerId;
use crate::registry::Registry;

verus! {

/// The process-wide shutdown flag: set exactly once by the shutdown
/// coordinator, read by the listener on every poll cycle, never reset.
pub struct ShutdownFlag {
    requested: bool,
}

impl ShutdownFlag {
    /// Whether shutdown has been requested.
    pub closed spec fn is_requested(&self) -> bool {
        self.requested
    }

    /// The flag at server start: clear.
    pub fn new() -> (f: ShutdownFlag)
        ensures
            !f.is_requested(),
    {
        ShutdownFlag { requested: false }
    }

    /// Requests shutdown. Total and idempotent: a second request leaves the
    /// flag exactly as the first did.
    pub fn request(&mut self)
        ensures
            final(self).is_requested(),
    {
        self.requested = true;
    }

    /// Reads the flag, as the listener does each poll cycle.
    pub fn is_set(&self) -> (b: bool)
        ensures
            b == self.is_requested(),
    {
        self.requested
    }
}

/// The shutdown transition: the flag after, the registry contents after, and
/// the identities to force-close — which are exactly those registered before.
pub open spec fn shutdown_spec(requested: bool, peers: Seq<PeerId>) -> (bool, Seq<PeerId>, Seq<
    PeerId,
>) {
    (true, Seq::empty(), peers)
}

/// The shutdown coordinator's action on trigger: sets the flag, empties the
/// registry, and hands back every previously-registered identity so the
/// process can force-close each connection.
pub fn initiate_shutdown(flag: &mut ShutdownFlag, reg: &mut Registry) -> (to_close: Vec<PeerId>)
    ensures
        (final(flag).is_requested(), final(reg)@, to_close@) == shutdown_spec(
            old(flag).is_requested(),
            old(reg)@,
        ),
        final(reg).cap() == old(reg).cap(),
        final(reg).wf(),
{
    flag.request();
    reg.broadcast_close()
}

/// Issuing the shutdown command a second time produces no duplicate side
/// effects: the flag and the registry are left exactly as the first issue left
/// them, and no connection remains to be closed again.
pub proof fn lemma_shutdown_idempotent(requested: bool, peers: Seq<PeerId>)
    ensures
        ({
            let (flag1, reg1, close1) = shutdown_spec(requested, peers);
            let (flag2, reg2, close2) = shutdown_spec(flag1, reg1);
            &&& flag2 == flag1
            &&& reg2 == reg1
            &&& close2 == Seq::<PeerId>::empty()
        }),
{
}

/// Whether a byte is ASCII whitespace: space, tab, line feed, form feed, or
/// carriage return.
pub open spec fn is_cmd_ws(b: u8) -> bool {
    b == 32 || b == 9 || b == 10 || b == 12 || b == 13
}

/// An ASCII letter folded to lower case; every other byte unchanged.
pub open spec fn ascii_lower(b: u8) -> u8 {
    if 65 <= b && b <= 90 {
        (b + 32) as u8
    } else {
        b
    }
}

/// The bytes with leading whitespace removed.
pub open spec fn trim_front(s: Seq<u8>) -> Seq<u8>
    decreases s.len(),
{
    if s.len() > 0 && is_cmd_ws(s.first()) {
        trim_front(s.drop_first())
    } else {
        s
    }
}

/// The bytes with trailing whitespace removed.
pub open spec fn trim_back(s: Seq<u8>) -> Seq<u8>
    decreases s.len(),
{
    if s.len() > 0 && is_cmd_ws(s.last()) {
        trim_back(s.drop_last())
    } else {
        s
    }
}

/// The bytes with whitespace removed from both ends.
pub open spec fn trimmed(s: Seq<u8>) -> Seq<u8> {
    trim_back(trim_front(s))
}

/// The single recognized operator command, lower case: the bytes of "exit".
pub open spec fn exit_keyword() -> Seq<u8> {
    seq![101u8, 120u8, 105u8, 116u8]
}

/// Whether a console line is the shutdown command: an exact case-insensitive
/// match on "exit" once surrounding whitespace is dropped. All other input is
/// ignored.
pub open spec fn is_exit_command_spec(line: Seq<u8>) -> bool {
    trimmed(line).map_values(|b: u8| ascii_lower(b)) == exit_keyword()
}

proof fn lemma_trim_front_at(s: Seq<u8>, i: int)
    requires
        0 <= i <= s.len(),
        forall|k: int| 0 <= k < i ==> is_cmd_ws(s[k]),
        i == s.len() || !is_cmd_ws(s[i]),
    ensures
        trim_front(s) == s.subrange(i, s.len() as int),
    decreases i,
{
    if i == 0 {
        assert(s.subrange(0, s.len() as int) =~= s);
    } else {
        let t = s.drop_first();
        assert(is_cmd_ws(s.first()));
        assert forall|k: int| 0 <= k < i - 1 implies is_cmd_ws(t[k]) by {
            assert(t[k] == s[k + 1]);
        }
        assert(i - 1 == t.len() || !is_cmd_ws(t[i - 1]));
        lemma_trim_front_at(t, i - 1);
        assert(t.subrange(i - 1, t.len() as int) =~= s.subrange(i, s.len() as int));
    }
}

proof fn lemma_trim_back_at(s: Seq<u8>, j: int)
    requires
        0 <= j <= s.len(),
        forall|k: int| j <= k < s.len() ==> is_cmd_ws(s[k]),
        j == 0 || !is_cmd_ws(s[j - 1]),
    ensures
        trim_back(s) == s.subrange(0, j),
    decreases s.len(),
{
    if j == s.len() {
        if s.len() == 0 {
            assert(s.subrange(0, 0) =~= s);
        } else {
            assert(!is_cmd_ws(s.last()));
            assert(s.subrange(0, j) =~= s);
        }
    } else {
        let t = s.drop_last();
        assert(is_cmd_ws(s.last()));
        assert forall|k: int| j <= k < t.len() implies is_cmd_ws(t[k]) by {
            assert(t[k] == s[k]);
        }
        lemma_trim_back_at(t, j);
        assert(t.subrange(0, j) =~= s.subrange(0, j));
    }
}

/// One byte folded to lower case.
fn lower_byte(b: u8) -> (r: u8)
    ensures
        r == ascii_lower(b),
{
    if b >= 65 && b <= 90 {
        b + 32
    } else {
        b
    }
}

/// Decides whether a console line issues the shutdown command: trims
/// whitespace from both ends and compares the rest, case-insensitively, with
/// "exit".
pub fn is_exit_command(line: &Vec<u8>) -> (r: bool)
    ensures
        r == is_exit_command_spec(line@),
{
    let n: usize = line.len();
    let mut start: usize = 0;
    while start < n && (line[start] == 32 || line[start] == 9 || line[start] == 10 || line[start]
        == 12 || line[start] == 13)
        invariant
            start <= n,
            n == line@.len(),
            forall|k: int| 0 <= k < start ==> is_cmd_ws(line@[k]),
        decreases n - start,
    {
        start = start + 1;
    }
    let mut end: usize = n;
    while end > start && (line[end - 1] == 32 || line[end - 1] == 9 || line[end - 1] == 10 || line[
        end - 1] == 12 || line[end - 1] == 13)
        invariant
            start <= end <= n,
            n == line@.len(),
            forall|k: int| end <= k < n ==> is_cmd_ws(line@[k]),
        decreases end,
    {
        end = end - 1;
    }
    proof {
        lemma_trim_front_at(line@, start as int);
        let t = line@.subrange(start as int, n as int);
        assert forall|k: int| end - start <= k < t.len() implies is_cmd_ws(t[k]) by {
            assert(t[k] == line@[k + start]);
        }
        assert(end - start == 0 || !is_cmd_ws(t[end - start - 1]));
        lemma_trim_back_at(t, end - start);
        assert(t.subrange(0, end - start) =~= line@.subrange(start as int, end as int));
        assert(trimmed(line@) == line@.subrange(start as int, end as int));
    }
    if end - start != 4 {
        proof {
            assert(trimmed(line@).map_values(|b: u8| ascii_lower(b)).len() == trimmed(
                line@,
            ).len());
        }
        return false;
    }
    let b0 = lower_byte(line[start]);
    let b1 = lower_byte(line[start + 1]);
    let b2 = lower_byte(line[start + 2]);
    let b3 = lower_byte(line[start + 3]);
    // the bytes of "exit"
    let matched = b0 == 101 && b1 == 120 && b2 == 105 && b3 == 116;
    proof {
        let tr = trimmed(line@);
        let mapped = tr.map_values(|b: u8| ascii_lower(b));
        assert(tr.len() == 4);
        assert(mapped[0] == ascii_lower(line@[start as int]));
        assert(mapped[1] == ascii_lower(line@[start + 1]));
        assert(mapped[2] == ascii_lower(line@[start + 2]));
        assert(mapped[3] == ascii_lower(line@[start + 3]));
        if matched {
            assert(mapped =~= exit_keyword());
        } else {
            assert(mapped != exit_keyword());
        }
    }
    matched
}

} // verus!
