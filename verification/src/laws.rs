use vstd::prelude::*;

use crate::store::TaskListView;

verus! {

/// The effect on the store's view of appending each record of `recs`, in
/// order, starting from a store whose view is `s`. One call of `Task::add`
/// pushes one record, so a sequence of calls folds `push` over `recs`.
pub open spec fn append_all(s: Seq<TaskListView>, recs: Seq<TaskListView>) -> Seq<TaskListView>
    decreases recs.len(),
{
    if recs.len() == 0 {
        s
    } else {
        append_all(s.push(recs[0]), recs.drop_first())
    }
}

/// Appending each record of `recs` in order leaves the earlier records in
/// place and puts `recs` after them.
pub proof fn lemma_append_all_concat(s: Seq<TaskListView>, recs: Seq<TaskListView>)
    ensures
        append_all(s, recs) == s + recs,
    decreases recs.len(),
{
    if recs.len() == 0 {
        assert(s + recs =~= s);
    } else {
        lemma_append_all_concat(s.push(recs[0]), recs.drop_first());
        assert(s.push(recs[0]) + recs.drop_first() =~= s + recs);
    }
}

/// Append monotonicity: after appending N records to an empty store, the
/// store holds exactly N records, and the record at index `i` is the i-th
/// one appended, in call order.
pub proof fn lemma_append_monotonicity(recs: Seq<TaskListView>)
    ensures
        append_all(Seq::empty(), recs).len() == recs.len(),
        forall|i: int| 0 <= i < recs.len() ==> append_all(Seq::empty(), recs)[i] == recs[i],
{
    lemma_append_all_concat(Seq::empty(), recs);
    assert(Seq::empty() + recs =~= recs);
}

/// Get after append: appending a record to a store of length N puts it at
/// index N, where a read finds exactly it, and grows the length to N + 1.
pub proof fn lemma_get_after_append(s: Seq<TaskListView>, r: TaskListView)
    ensures
        s.push(r).len() == s.len() + 1,
        s.push(r)[s.len() as int] == r,
{
}

/// Update round-trip: updating a valid index puts the new record there, and
/// every other index, and the length, are unchanged.
pub proof fn lemma_update_round_trip(s: Seq<TaskListView>, i: int, r: TaskListView)
    requires
        0 <= i < s.len(),
    ensures
        s.update(i, r).len() == s.len(),
        s.update(i, r)[i] == r,
        forall|j: int| 0 <= j < s.len() && j != i ==> s.update(i, r)[j] == s[j],
{
}

/// Deleting a valid index shrinks the length by exactly one.
pub proof fn lemma_delete_shrinks_length(s: Seq<TaskListView>, i: int)
    requires
        0 <= i < s.len(),
    ensures
        s.remove(i).len() == s.len() - 1,
{
}

/// Delete ordering under ordered removal: deleting index `i` leaves the
/// records before `i` in place and shifts each record formerly at an index
/// greater than `i` down by one, preserving their relative order.
pub proof fn lemma_delete_ordering(s: Seq<TaskListView>, i: int)
    requires
        0 <= i < s.len(),
    ensures
        s.remove(i).len() == s.len() - 1,
        forall|j: int| 0 <= j < i ==> s.remove(i)[j] == s[j],
        forall|j: int| i <= j < s.len() - 1 ==> s.remove(i)[j] == s[j + 1],
{
}

} // verus!
