//! What merging pages into the arena comes to, and the laws it obeys.

use vstd::prelude::*;
use crate::node::Node;

verus! {

/// The arena after the records were put in one after the other, each under its
/// global index: where two carry the same index, the later one stays.
pub open spec fn merged(arena: Map<usize, Node>, records: Seq<Node>) -> Map<usize, Node>
    decreases records.len(),
{
    if records.len() == 0 {
        arena
    } else {
        merged(arena, records.drop_last()).insert(records.last().index, records.last())
    }
}

/// The global indices, in order of arrival, of the records that replaced one
/// already in the arena when they were put in.
pub open spec fn conflicts(arena: Map<usize, Node>, records: Seq<Node>) -> Seq<usize>
    decreases records.len(),
{
    if records.len() == 0 {
        Seq::empty()
    } else {
        let earlier = conflicts(arena, records.drop_last());
        if merged(arena, records.drop_last()).contains_key(records.last().index) {
            earlier.push(records.last().index)
        } else {
            earlier
        }
    }
}

/// One of the records carries the global index `k`.
pub open spec fn carries(records: Seq<Node>, k: usize) -> bool {
    exists|i: int| 0 <= i < records.len() && (#[trigger] records[i]).index == k
}

/// A key is in the merged arena exactly when it was in the arena or is the
/// index of one of the records.
pub proof fn lemma_merged_domain(arena: Map<usize, Node>, records: Seq<Node>)
    ensures
        forall|k: usize| #[trigger]
            merged(arena, records).contains_key(k) <==> (arena.contains_key(k) || carries(
                records,
                k,
            )),
    decreases records.len(),
{
    if records.len() > 0 {
        let front = records.drop_last();
        let last = records.last();
        lemma_merged_domain(arena, front);
        assert(merged(arena, records) == merged(arena, front).insert(last.index, last));
        assert forall|k: usize| #[trigger]
            merged(arena, records).contains_key(k) <==> (arena.contains_key(k) || carries(
                records,
                k,
            )) by {
            let before = merged(arena, front).contains_key(k);
            assert(before <==> (arena.contains_key(k) || carries(front, k)));
            if carries(front, k) {
                let i = choose|i: int| 0 <= i < front.len() && (#[trigger] front[i]).index == k;
                assert(records[i].index == k);
            }
            if k == last.index {
                assert(records[records.len() - 1].index == k);
            }
            if carries(records, k) && k != last.index {
                let i = choose|i: int| 0 <= i < records.len() && (#[trigger] records[i]).index == k;
                assert(front[i].index == k);
            }
        }
    }
}

/// The last of the records that carry the global index `k`.
pub open spec fn last_with(records: Seq<Node>, k: usize) -> Option<Node>
    decreases records.len(),
{
    if records.len() == 0 {
        None
    } else if records.last().index == k {
        Some(records.last())
    } else {
        last_with(records.drop_last(), k)
    }
}

/// There is a last record with index `k` exactly when some record carries it.
pub proof fn lemma_last_with_carries(records: Seq<Node>, k: usize)
    ensures
        last_with(records, k) is Some <==> carries(records, k),
        last_with(records, k) is Some ==> last_with(records, k)->Some_0.index == k,
    decreases records.len(),
{
    if records.len() > 0 {
        let front = records.drop_last();
        lemma_last_with_carries(front, k);
        if records.last().index == k {
            assert(records[records.len() - 1].index == k);
        } else {
            if carries(front, k) {
                let i = choose|i: int| 0 <= i < front.len() && (#[trigger] front[i]).index == k;
                assert(records[i].index == k);
            }
            if carries(records, k) {
                let i = choose|i: int| 0 <= i < records.len() && (#[trigger] records[i]).index == k;
                assert(front[i].index == k);
            }
        }
    }
}

/// Under each key the merged arena holds the last record of that index, and
/// what the arena held before where no record carries the key.
pub proof fn lemma_merged_value(arena: Map<usize, Node>, records: Seq<Node>, k: usize)
    ensures
        merged(arena, records).contains_key(k) <==> (arena.contains_key(k) || last_with(
            records,
            k,
        ) is Some),
        last_with(records, k) is Some ==> merged(arena, records)[k] == last_with(
            records,
            k,
        )->Some_0,
        last_with(records, k) is None ==> merged(arena, records)[k] == arena[k],
    decreases records.len(),
{
    if records.len() > 0 {
        lemma_merged_value(arena, records.drop_last(), k);
    }
}

/// Pages that share no global index may be merged in either order: the arena
/// is the same whichever of two such fetches completes first.
pub proof fn lemma_disjoint_pages_commute(
    arena: Map<usize, Node>,
    first: Seq<Node>,
    second: Seq<Node>,
)
    requires
        forall|i: int, j: int|
            0 <= i < first.len() && 0 <= j < second.len() ==> (#[trigger] first[i]).index != (
            #[trigger] second[j]).index,
    ensures
        merged(merged(arena, first), second) == merged(merged(arena, second), first),
{
    let one = merged(merged(arena, first), second);
    let other = merged(merged(arena, second), first);
    assert forall|k: usize|
        (#[trigger] one.dom().contains(k)) == other.dom().contains(k) && (one.dom().contains(k)
            ==> one[k] == other[k]) by {
        lemma_merged_value(arena, first, k);
        lemma_merged_value(arena, second, k);
        lemma_merged_value(merged(arena, first), second, k);
        lemma_merged_value(merged(arena, second), first, k);
        lemma_last_with_carries(first, k);
        lemma_last_with_carries(second, k);
        if carries(first, k) && carries(second, k) {
            let i = choose|i: int| 0 <= i < first.len() && (#[trigger] first[i]).index == k;
            let j = choose|j: int| 0 <= j < second.len() && (#[trigger] second[j]).index == k;
            assert(first[i].index != second[j].index);
        }
    }
    assert(one =~= other);
}

/// Merging records whose indices are all in the arena already replaces
/// records and adds none: the keys, and so the size, stay as they were.
pub proof fn lemma_overlap_keeps_size(arena: Map<usize, Node>, records: Seq<Node>)
    requires
        forall|i: int| 0 <= i < records.len() ==> arena.contains_key((#[trigger] records[i]).index),
    ensures
        merged(arena, records).dom() == arena.dom(),
        merged(arena, records).dom().len() == arena.dom().len(),
{
    lemma_merged_domain(arena, records);
    assert forall|k: usize| merged(arena, records).contains_key(k) == arena.contains_key(k) by {
        if carries(records, k) {
            let i = choose|i: int| 0 <= i < records.len() && (#[trigger] records[i]).index == k;
            assert(arena.contains_key(records[i].index));
        }
    }
    assert(merged(arena, records).dom() =~= arena.dom());
}

/// Merging pages one after the other is merging their records in one run, so
/// the arena does not depend on how the records were cut into pages.
pub proof fn lemma_merged_concat(arena: Map<usize, Node>, first: Seq<Node>, second: Seq<Node>)
    ensures
        merged(merged(arena, first), second) == merged(arena, first + second),
    decreases second.len(),
{
    if second.len() == 0 {
        assert(first + second =~= first);
    } else {
        lemma_merged_concat(arena, first, second.drop_last());
        assert((first + second).drop_last() =~= first + second.drop_last());
        assert((first + second).last() == second.last());
    }
}

} // verus!
