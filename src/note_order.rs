use vstd::prelude::*;

verus! {

/// In a most-recent-first listing, entry `a` comes before entry `b` when it
/// was updated later; entries updated at the same instant keep their
/// original relative order.
pub open spec fn listed_before(updated: Seq<i64>, a: int, b: int) -> bool {
    updated[a] > updated[b] || (updated[a] == updated[b] && a < b)
}

/// `order` lists every index of `updated` exactly once, most recently
/// updated first, ties in their original order.
pub open spec fn is_recent_first(updated: Seq<i64>, order: Seq<usize>) -> bool {
    &&& order.len() == updated.len()
    &&& forall|i: int| 0 <= i < order.len() ==> order[i] < updated.len()
    &&& forall|i: int, j: int|
        0 <= i < j < order.len() ==> listed_before(updated, order[i] as int, order[j] as int)
}

/// The order in which to list notes, given the update time of each (in any
/// unit, as long as it is the same for all): a stable sort, most recent
/// first.
pub fn recent_first(updated: &Vec<i64>) -> (order: Vec<usize>)
    ensures
        is_recent_first(updated@, order@),
{
    let n = updated.len();
    let mut order: Vec<usize> = Vec::new();
    let mut k: usize = 0;
    while k < n
        invariant
            n == updated@.len(),
            k <= n,
            order@.len() == k,
            forall|i: int| 0 <= i < order@.len() ==> order@[i] < k,
            forall|i: int, j: int|
                0 <= i < j < order@.len() ==> listed_before(updated@, order@[i] as int, order@[j] as int),
        decreases n - k,
    {
        let key = updated[k];
        let mut p: usize = 0;
        while p < order.len() && updated[order[p]] >= key
            invariant
                n == updated@.len(),
                k < n,
                key == updated@[k as int],
                order@.len() == k,
                p <= order@.len(),
                forall|i: int| 0 <= i < order@.len() ==> order@[i] < k,
                forall|i: int| 0 <= i < p ==> updated@[order@[i] as int] >= key,
            decreases order@.len() - p,
        {
            p = p + 1;
        }
        let ghost before = order@;
        order.insert(p, k);
        assert forall|i: int, j: int|
            0 <= i < j < order@.len() implies listed_before(updated@, order@[i] as int, order@[j] as int) by {
            if j < p {
                assert(order@[i] == before[i] && order@[j] == before[j]);
            } else if j == p {
                assert(order@[i] == before[i]);
            } else if i == p {
                assert(order@[j] == before[j - 1]);
                assert(p < before.len());
                if j - 1 > p {
                    assert(listed_before(updated@, before[p as int] as int, before[j - 1] as int));
                }
            } else if i < p {
                assert(order@[i] == before[i] && order@[j] == before[j - 1]);
            } else {
                assert(order@[i] == before[i - 1] && order@[j] == before[j - 1]);
            }
        }
        k = k + 1;
    }
    order
}

} // verus!
