//! Histories: the commands that reached the counter, in the order in which
//! the lock let them through. The lock admits one command at a time, so
//! whatever the callers do at once, the counter sees one sequence.

use vstd::multiset::group_multiset_axioms;
use vstd::multiset::Multiset;
use vstd::prelude::*;
use vstd::seq_lib::lemma_multiset_commutative;
use vstd::seq_lib::to_multiset_build;

verus! {

/// An invocation that the front-end can make.
pub enum Command {
    /// Add one to the counter and hand back the new value.
    IncrementCounter,
    /// Hand back the value as it is.
    GetCounter,
}

impl Command {
    /// The counter value once this command has run on `value`.
    pub open spec fn apply(self, value: int) -> int {
        match self {
            Command::IncrementCounter => value + 1,
            Command::GetCounter => value,
        }
    }

    /// What the command hands back to its caller: the value that it leaves
    /// behind.
    pub open spec fn reply(self, value: int) -> int {
        self.apply(value)
    }
}

/// The counter value after the commands of `history` ran on `start`, first
/// to last.
pub open spec fn value_after(start: int, history: Seq<Command>) -> int
    decreases history.len(),
{
    if history.len() == 0 {
        start
    } else {
        history.last().apply(value_after(start, history.drop_last()))
    }
}

/// How many commands of `history` are increments, wherever they stand in it.
pub open spec fn increments(history: Seq<Command>) -> nat {
    history.to_multiset().count(Command::IncrementCounter)
}

/// The increments of all callers together, where `callers[i]` holds the
/// commands that caller `i` issued.
pub open spec fn total_increments(callers: Seq<Seq<Command>>) -> nat
    decreases callers.len(),
{
    if callers.len() == 0 {
        0
    } else {
        total_increments(callers.drop_last()) + increments(callers.last())
    }
}

/// `history` holds the commands of all `callers`, each as often as the
/// callers issued it, in any order whatever.
pub open spec fn is_schedule_of(history: Seq<Command>, callers: Seq<Seq<Command>>) -> bool {
    history.to_multiset() == callers.flatten().to_multiset()
}

/// A history moves the counter up by the number of its increments: none is
/// lost and nothing else changes the value.
pub proof fn lemma_value_counts_increments(start: int, history: Seq<Command>)
    ensures
        value_after(start, history) == start + increments(history),
    decreases history.len(),
{
    broadcast use group_multiset_axioms;

    if history.len() == 0 {
        assert(history.to_multiset() =~= Multiset::<Command>::empty()) by {
            history.to_multiset_ensures();
        }
    } else {
        let earlier = history.drop_last();
        lemma_value_counts_increments(start, earlier);
        to_multiset_build(earlier, history.last());
        assert(earlier.push(history.last()) =~= history);
    }
}

/// After `n` increments of a fresh counter and nothing else, a read hands
/// back exactly `n`.
pub proof fn lemma_increments_then_read(history: Seq<Command>)
    requires
        forall|i: int| 0 <= i < history.len() ==> history[i] == Command::IncrementCounter,
    ensures
        Command::GetCounter.reply(value_after(0, history)) == history.len(),
    decreases history.len(),
{
    if history.len() > 0 {
        lemma_increments_then_read(history.drop_last());
    }
}

/// Reads leave the value alone, however many there are.
pub proof fn lemma_reads_keep_value(start: int, history: Seq<Command>)
    requires
        forall|i: int| 0 <= i < history.len() ==> history[i] == Command::GetCounter,
    ensures
        value_after(start, history) == start,
    decreases history.len(),
{
    if history.len() > 0 {
        lemma_reads_keep_value(start, history.drop_last());
    }
}

/// What the command at position `index` of `history` hands back to its
/// caller, where the history runs on `start`.
pub open spec fn reply_at(start: int, history: Seq<Command>, index: int) -> int
    recommends
        0 <= index < history.len(),
{
    history[index].reply(value_after(start, history.take(index)))
}

/// The first `end + 1` commands hold the increments of the first `end`, and
/// one more if the command at `end` is an increment.
proof fn lemma_increments_step(history: Seq<Command>, end: int)
    requires
        0 <= end < history.len(),
    ensures
        increments(history.take(end + 1)) == increments(history.take(end)) + if history[end]
            == Command::IncrementCounter {
            1nat
        } else {
            0nat
        },
{
    broadcast use group_multiset_axioms;

    to_multiset_build(history.take(end), history[end]);
    assert(history.take(end).push(history[end]) =~= history.take(end + 1));
}

/// A longer beginning of a history holds at least the increments of a
/// shorter one.
proof fn lemma_increments_grow(history: Seq<Command>, shorter: int, longer: int)
    requires
        0 <= shorter <= longer <= history.len(),
    ensures
        increments(history.take(shorter)) <= increments(history.take(longer)),
    decreases longer - shorter,
{
    if shorter < longer {
        lemma_increments_grow(history, shorter, longer - 1);
        lemma_increments_step(history, longer - 1);
    }
}

/// A command hands back the start plus the number of increments up to and
/// including itself.
pub proof fn lemma_reply_counts_increments(start: int, history: Seq<Command>, index: int)
    requires
        0 <= index < history.len(),
    ensures
        reply_at(start, history, index) == start + increments(history.take(index + 1)),
{
    let upto = history.take(index + 1);
    assert(upto.last() == history[index]);
    assert(upto.drop_last() =~= history.take(index));
    lemma_value_counts_increments(start, upto);
}

/// Where a fresh counter sees increments only, the `k`-th of them hands back
/// exactly `k`.
pub proof fn lemma_kth_increment_replies_k(history: Seq<Command>, k: int)
    requires
        forall|i: int| 0 <= i < history.len() ==> history[i] == Command::IncrementCounter,
        1 <= k <= history.len(),
    ensures
        reply_at(0, history, k - 1) == k,
{
    lemma_increments_then_read(history.take(k - 1));
}

/// Replies rise along a history: a later command never hands back less than
/// an earlier one, and a later increment hands back more.
pub proof fn lemma_replies_rise(start: int, history: Seq<Command>, earlier: int, later: int)
    requires
        0 <= earlier < later < history.len(),
    ensures
        reply_at(start, history, earlier) <= reply_at(start, history, later),
        history[later] == Command::IncrementCounter ==> reply_at(start, history, earlier)
            < reply_at(start, history, later),
{
    lemma_reply_counts_increments(start, history, earlier);
    lemma_reply_counts_increments(start, history, later);
    lemma_increments_grow(history, earlier + 1, later);
    lemma_increments_step(history, later);
}

/// Every increment of a history on a fresh counter hands back a number from
/// one to the total of the increments.
pub proof fn lemma_increment_reply_in_range(history: Seq<Command>, index: int)
    requires
        0 <= index < history.len(),
        history[index] == Command::IncrementCounter,
    ensures
        1 <= reply_at(0, history, index) <= increments(history),
{
    lemma_reply_counts_increments(0, history, index);
    lemma_increments_step(history, index);
    lemma_increments_grow(history, index + 1, history.len() as int);
    assert(history.take(history.len() as int) =~= history);
}

/// Every number from one to the total of the increments is handed back by
/// an increment of the history. With `lemma_replies_rise` it is handed back
/// by one only: the increments hand back each of these numbers once.
pub proof fn lemma_every_count_is_replied(history: Seq<Command>, k: int)
    requires
        1 <= k <= increments(history),
    ensures
        exists|index: int|
            0 <= index < history.len() && history[index] == Command::IncrementCounter
                && #[trigger] reply_at(0, history, index) == k,
    decreases history.len(),
{
    broadcast use group_multiset_axioms;

    if history.len() == 0 {
        assert(history.to_multiset() =~= Multiset::<Command>::empty()) by {
            history.to_multiset_ensures();
        }
    } else {
        let last = history.len() - 1;
        assert(history.take(last + 1) =~= history);
        assert(history.take(last) =~= history.drop_last());
        lemma_increments_step(history, last);
        if history[last] == Command::IncrementCounter && k == increments(history) {
            lemma_reply_counts_increments(0, history, last);
            assert(reply_at(0, history, last) == k);
        } else {
            let shorter = history.drop_last();
            lemma_every_count_is_replied(shorter, k);
            let index = choose|index: int|
                0 <= index < shorter.len() && shorter[index] == Command::IncrementCounter
                    && #[trigger] reply_at(0, shorter, index) == k;
            assert(shorter.take(index) =~= history.take(index));
            assert(reply_at(0, history, index) == k);
        }
    }
}

/// The increments of the callers' commands laid end to end are the callers'
/// increments added up.
proof fn lemma_flatten_increments(callers: Seq<Seq<Command>>)
    ensures
        increments(callers.flatten()) == total_increments(callers),
    decreases callers.len(),
{
    broadcast use group_multiset_axioms;

    if callers.len() == 0 {
        assert(callers.flatten().to_multiset() =~= Multiset::<Command>::empty()) by {
            callers.flatten().to_multiset_ensures();
        }
    } else {
        let earlier = callers.drop_last();
        lemma_flatten_increments(earlier);
        assert(earlier.push(callers.last()) =~= callers);
        earlier.lemma_flatten_push(callers.last());
        lemma_multiset_commutative(earlier.flatten(), callers.last());
    }
}

/// Whatever order the lock grants, the commands of several callers leave a
/// fresh counter at the total number of increments that the callers issued.
pub proof fn lemma_any_schedule_sums(history: Seq<Command>, callers: Seq<Seq<Command>>)
    requires
        is_schedule_of(history, callers),
    ensures
        value_after(0, history) == total_increments(callers),
{
    lemma_value_counts_increments(0, history);
    lemma_flatten_increments(callers);
}

/// Two orders of the same commands end at the same value.
pub proof fn lemma_order_is_irrelevant(start: int, first: Seq<Command>, second: Seq<Command>)
    requires
        first.to_multiset() == second.to_multiset(),
    ensures
        value_after(start, first) == value_after(start, second),
{
    lemma_value_counts_increments(start, first);
    lemma_value_counts_increments(start, second);
}

} // verus!
