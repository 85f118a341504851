//! What the session commands decide about the registered sessions: which
//! are live, which are dead, and which one, if any, is the current one.
//!
//! Reading the session files, asking each session whether it is alive,
//! removing files and printing stand outside the library.
use vstd::prelude::*;

verus! {

broadcast use vstd::string::group_string_axioms;

/// The positions `i` of `flags` with `flags[i] == want`, in increasing order.
pub open spec fn indices_with(flags: Seq<bool>, want: bool) -> Seq<usize>
    decreases flags.len(),
{
    if flags.len() == 0 {
        Seq::empty()
    } else {
        let before = indices_with(flags.drop_last(), want);
        if flags.last() == want {
            before.push((flags.len() - 1) as usize)
        } else {
            before
        }
    }
}

/// The positions `i` of `flags` with `flags[i] == want`, in increasing order.
pub fn indices_where(flags: &[bool], want: bool) -> (r: Vec<usize>)
    ensures
        r@ == indices_with(flags@, want),
{
    let mut r: Vec<usize> = Vec::new();
    let mut i: usize = 0;
    while i < flags.len()
        invariant
            i <= flags@.len(),
            r@ == indices_with(flags@.take(i as int), want),
        decreases flags@.len() - i,
    {
        proof {
            assert(flags@.take(i + 1).drop_last() =~= flags@.take(i as int));
        }
        if flags[i] == want {
            r.push(i);
        }
        i = i + 1;
    }
    assert(flags@.take(flags@.len() as int) =~= flags@);
    r
}

/// Which session the commands use when none was named.
pub enum CurrentSession {
    /// No session is alive.
    NoLive,
    /// Exactly one session is alive: the one at this position.
    Single(usize),
    /// Several sessions are alive (at these positions): one must be named.
    Ambiguous(Vec<usize>),
}

/// Picks the current session from the liveness of the registered sessions:
/// none when none is alive, the live one when exactly one is, and otherwise
/// the list of the live ones, for the user to choose from.
pub fn pick_current(alive: &[bool]) -> (r: CurrentSession)
    ensures
        ({
            let live = indices_with(alive@, true);
            match r {
                CurrentSession::NoLive => live.len() == 0,
                CurrentSession::Single(i) => live == seq![i],
                CurrentSession::Ambiguous(v) => live.len() >= 2 && v@ == live,
            }
        }),
{
    let live = indices_where(alive, true);
    if live.len() == 0 {
        CurrentSession::NoLive
    } else if live.len() == 1 {
        let i = live[0];
        assert(live@ =~= seq![i]);
        CurrentSession::Single(i)
    } else {
        CurrentSession::Ambiguous(live)
    }
}

/// The name of the file that registers a session.
pub open spec fn session_file_name(id: Seq<char>) -> Seq<char> {
    id + ".json"@
}

/// The name of the file that registers a session.
pub fn session_file(id: &str) -> (r: String)
    ensures
        r@ == session_file_name(id@),
{
    let mut r = String::from_str(id);
    r.append(".json");
    r
}

/// The live and the dead sessions split the registered ones: each session
/// is listed exactly once, among the live ones when it is alive and among the
/// dead ones when it is not, and the two lists together are as long as the
/// list of sessions. (The flags are those of a slice, so their number fits
/// in a `usize`.)
pub proof fn law_live_and_dead_partition(flags: Seq<bool>)
    requires
        flags.len() <= usize::MAX,
    ensures
        indices_with(flags, true).len() + indices_with(flags, false).len() == flags.len(),
        forall|i: int|
            0 <= i < flags.len() ==> {
                &&& indices_with(flags, flags[i]).contains(i as usize)
                &&& !indices_with(flags, !flags[i]).contains(i as usize)
            },
        forall|want: bool, k: int|
            0 <= k < indices_with(flags, want).len() ==> {
                let i = #[trigger] indices_with(flags, want)[k];
                i < flags.len() && flags[i as int] == want
            },
    decreases flags.len(),
{
    if flags.len() > 0 {
        let before = flags.drop_last();
        law_live_and_dead_partition(before);
        let n = flags.len() - 1;
        assert forall|i: int| 0 <= i < flags.len() implies {
            &&& indices_with(flags, flags[i]).contains(i as usize)
            &&& !indices_with(flags, !flags[i]).contains(i as usize)
        } by {
            let same = indices_with(flags, flags[i]);
            let other = indices_with(flags, !flags[i]);
            let other_before = indices_with(before, !flags[i]);
            let same_before = indices_with(before, flags[i]);
            assert(same == if flags.last() == flags[i] {
                same_before.push(n as usize)
            } else {
                same_before
            });
            assert(other == if flags.last() == !flags[i] {
                other_before.push(n as usize)
            } else {
                other_before
            });
            if i < n {
                assert(before[i] == flags[i]);
                assert(!indices_with(before, !before[i]).contains(i as usize));
                assert(same_before.contains(i as usize));
                let k = choose|k: int| 0 <= k < same_before.len() && #[trigger] same_before[k] == i as usize;
                assert(same[k] == i as usize);
                if other.contains(i as usize) {
                    let j = choose|j: int| 0 <= j < other.len() && #[trigger] other[j] == i as usize;
                    if j < other_before.len() {
                        assert(other_before[j] == i as usize);
                        assert(other_before.contains(i as usize));
                    }
                }
            } else {
                assert(same.last() == i as usize);
                if other.contains(i as usize) {
                    let j = choose|j: int| 0 <= j < other.len() && #[trigger] other[j] == i as usize;
                    assert(other == other_before);
                    assert(other_before[j] < before.len());
                }
            }
        }
    }
}

} // verus!
