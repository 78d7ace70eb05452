//! The retention policy: which work items to evict when the daemon's
//! working set exceeds its size budget. A pure decision; the removal
//! fan-out lives in the surrounding application.
use vstd::prelude::*;
use vstd::seq_lib::lemma_multiset_commutative;
use vstd::seq_lib::to_multiset_insert;
use crate::work::WorkItem;
use crate::work::spec_total_size;
use crate::work::total_size;

verus! {

/// At most this many victims are named per tick: a deliberate bound on
/// the work done in one pass, revisited on the next tick while the set
/// is still over budget.
pub const EVICTION_BATCH: usize = 5;

/// The eviction order: items serving fewer peers go first, ties broken
/// by the older item.
pub open spec fn evict_le(a: WorkItem, b: WorkItem) -> bool {
    ||| a.helper_peer_count < b.helper_peer_count
    ||| (a.helper_peer_count == b.helper_peer_count && a.added_at <= b.added_at)
}

/// Whether a sequence is ascending in the eviction order.
pub open spec fn sorted_for_eviction(s: Seq<WorkItem>) -> bool {
    forall|j: int, k: int| 0 <= j < k < s.len() ==> #[trigger] evict_le(s[j], s[k])
}

/// Whether `s` rearranges `orig` into ascending eviction order.
pub open spec fn is_sorted_perm(s: Seq<WorkItem>, orig: Seq<WorkItem>) -> bool {
    &&& sorted_for_eviction(s)
    &&& s.to_multiset() == orig.to_multiset()
}

/// How many victims an over-budget set of `n` items yields under a
/// per-tick cap of `batch`.
pub open spec fn victim_count(n: int, batch: int) -> int {
    if n < batch {
        n
    } else {
        batch
    }
}

/// The eviction order, decided on the items' fields.
fn evict_le_item(a: &WorkItem, b: &WorkItem) -> (r: bool)
    ensures
        r == evict_le(*a, *b),
{
    a.helper_peer_count < b.helper_peer_count || (a.helper_peer_count == b.helper_peer_count
        && a.added_at <= b.added_at)
}

/// Rearrange the items into ascending eviction order.
fn sort_for_eviction(items: &Vec<WorkItem>) -> (r: Vec<WorkItem>)
    ensures
        is_sorted_perm(r@, items@),
{
    let mut r: Vec<WorkItem> = Vec::new();
    let mut i: usize = 0;
    proof {
        assert(items@.take(0) =~= Seq::<WorkItem>::empty());
    }
    while i < items.len()
        invariant
            i <= items@.len(),
            sorted_for_eviction(r@),
            r@.to_multiset() == items@.take(i as int).to_multiset(),
            r@.len() == i,
        decreases items@.len() - i,
    {
        let it = items[i].clone();
        let mut p: usize = 0;
        while p < r.len() && evict_le_item(&r[p], &it)
            invariant
                p <= r@.len(),
                forall|k: int| 0 <= k < p ==> #[trigger] evict_le(r@[k], it),
            decreases r@.len() - p,
        {
            p += 1;
        }
        proof {
            let ghost old_r = r@;
            // Every element at or after the insertion point follows the
            // new item in the eviction order.
            assert forall|k: int| p <= k < old_r.len() implies #[trigger] evict_le(
                it,
                old_r[k],
            ) by {
                assert(!evict_le(old_r[p as int], it));
                assert(evict_le(it, old_r[p as int]));
                if k > p {
                    assert(evict_le(old_r[p as int], old_r[k]));
                }
            }
            to_multiset_insert(old_r, p as int, it);
            old_r.insert_ensures(p as int, it);
            items@.take(i as int).to_multiset_ensures();
            assert(items@.take(i as int + 1).drop_last() =~= items@.take(i as int));
            assert(items@.take(i as int + 1) =~= items@.take(i as int).push(items@[i as int]));
        }
        r.insert(p, it);
        proof {
            assert forall|j: int, k: int| 0 <= j < k < r@.len() implies #[trigger] evict_le(
                r@[j],
                r@[k],
            ) by {
            }
        }
        i += 1;
    }
    proof {
        assert(items@.take(items@.len() as int) =~= items@);
    }
    r
}

/// The victims of an eviction pass are minimal: take any prefix of a
/// sorted rearrangement as victims, and whatever stays behind follows
/// every victim in the eviction order — no survivor served fewer peers,
/// nor, at equal peers, was older, than a victim.
pub proof fn lemma_victims_minimal(s: Seq<WorkItem>, orig: Seq<WorkItem>, m: int)
    requires
        is_sorted_perm(s, orig),
        0 <= m <= s.len(),
    ensures
        forall|v: WorkItem, w: WorkItem|
            s.take(m).contains(v) && orig.to_multiset().sub(s.take(m).to_multiset()).count(w) > 0
                ==> #[trigger] evict_le(v, w),
{
    broadcast use vstd::multiset::group_multiset_axioms;

    let vict = s.take(m);
    let rest = s.skip(m);
    assert(s =~= vict + rest);
    lemma_multiset_commutative(vict, rest);
    assert(orig.to_multiset().sub(vict.to_multiset()) =~= rest.to_multiset());
    assert forall|v: WorkItem, w: WorkItem|
        vict.contains(v) && orig.to_multiset().sub(vict.to_multiset()).count(w)
            > 0 implies #[trigger] evict_le(v, w) by {
        rest.to_multiset_ensures();
        assert(rest.contains(w));
        let k = choose|k: int| 0 <= k < rest.len() && rest[k] == w;
        let j = choose|j: int| 0 <= j < vict.len() && vict[j] == v;
        assert(s[j] == v);
        assert(s[m + k] == w);
        if j < m + k {
            assert(evict_le(s[j], s[m + k]));
        } else {
            assert(j < m && m <= m + k);
        }
    }
}

/// The retention decision under an explicit per-tick cap. While the
/// total size of the working set stays within the budget nothing is
/// evicted; once it exceeds the budget, the victims are the first
/// `batch` items (or all of them, when fewer exist) of the working set
/// rearranged into ascending eviction order.
pub fn retention_select(items: &Vec<WorkItem>, budget: u64, batch: usize) -> (victims: Vec<
    WorkItem,
>)
    ensures
        spec_total_size(items@) <= budget ==> victims@ == Seq::<WorkItem>::empty(),
        spec_total_size(items@) > budget ==> exists|s: Seq<WorkItem>|
            #[trigger] is_sorted_perm(s, items@) && victims@ == s.take(
                victim_count(items@.len() as int, batch as int),
            ),
        victims@.len() == if spec_total_size(items@) <= budget {
            0int
        } else {
            victim_count(items@.len() as int, batch as int)
        },
        sorted_for_eviction(victims@),
{
    let total = total_size(items);
    if total <= budget as u128 {
        Vec::new()
    } else {
        let mut ordered = sort_for_eviction(items);
        let ghost full = ordered@;
        ordered.truncate(batch);
        proof {
            full.to_multiset_ensures();
            items@.to_multiset_ensures();
            assert(full.len() == items@.len());
            if full.len() >= batch as int {
                assert(ordered@ == full.take(victim_count(items@.len() as int, batch as int)));
            } else {
                assert(ordered@ =~= full.take(victim_count(items@.len() as int, batch as int)));
            }
            assert(is_sorted_perm(full, items@) && ordered@ == full.take(
                victim_count(items@.len() as int, batch as int),
            ));
        }
        ordered
    }
}

/// The retention decision at the standard per-tick cap of
/// `EVICTION_BATCH` victims.
pub fn retention_decide(items: &Vec<WorkItem>, budget: u64) -> (victims: Vec<WorkItem>)
    ensures
        spec_total_size(items@) <= budget ==> victims@ == Seq::<WorkItem>::empty(),
        spec_total_size(items@) > budget ==> exists|s: Seq<WorkItem>|
            #[trigger] is_sorted_perm(s, items@) && victims@ == s.take(
                victim_count(items@.len() as int, EVICTION_BATCH as int),
            ),
        victims@.len() == if spec_total_size(items@) <= budget {
            0int
        } else {
            victim_count(items@.len() as int, EVICTION_BATCH as int)
        },
        sorted_for_eviction(victims@),
{
    retention_select(items, budget, EVICTION_BATCH)
}

} // verus!
