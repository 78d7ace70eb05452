//! Work items: the point-in-time view of what the download daemon holds,
//! reduced to the fields the retention policy reads.
use vstd::prelude::*;
use crate::response::Torrent;

verus! {

/// One item the daemon currently tracks. Re-fetched wholesale on every
/// poll; the core never diffs it incrementally.
#[derive(Debug)]
pub struct WorkItem {
    /// Stable identity of the item.
    pub hash: String,
    /// Total size in bytes.
    pub total_size: u64,
    /// Peers currently receiving data from this node for the item.
    pub helper_peer_count: i64,
    /// When the daemon added the item.
    pub added_at: i64,
}

impl Clone for WorkItem {
    fn clone(&self) -> (r: Self)
        ensures
            r == *self,
    {
        WorkItem {
            hash: self.hash.clone(),
            total_size: self.total_size,
            helper_peer_count: self.helper_peer_count,
            added_at: self.added_at,
        }
    }
}

/// The size a daemon record stands for: a missing or negative figure
/// counts as zero.
pub open spec fn spec_size_of(t: Torrent) -> u64 {
    match t.total_size {
        Some(s) => if s >= 0 {
            s as u64
        } else {
            0
        },
        None => 0,
    }
}

/// The work item a daemon record reduces to, given that its hash is known.
pub open spec fn spec_work_item(t: Torrent) -> WorkItem {
    WorkItem {
        hash: t.hash_string->0,
        total_size: spec_size_of(t),
        helper_peer_count: t.peers_getting_from_us.unwrap_or(0),
        added_at: t.added_date.unwrap_or(0),
    }
}

impl WorkItem {
    /// Reduce one daemon record to a work item. A record without a hash
    /// has no identity and reduces to nothing.
    pub fn from_torrent(t: &Torrent) -> (r: Option<WorkItem>)
        ensures
            r is Some <==> t.hash_string is Some,
            r matches Some(w) ==> w == spec_work_item(*t),
    {
        match &t.hash_string {
            None => None,
            Some(h) => {
                let total_size: u64 = match t.total_size {
                    Some(s) => if s >= 0 {
                        s as u64
                    } else {
                        0
                    },
                    None => 0,
                };
                Some(
                    WorkItem {
                        hash: h.clone(),
                        total_size,
                        helper_peer_count: t.peers_getting_from_us.unwrap_or(0),
                        added_at: t.added_date.unwrap_or(0),
                    },
                )
            },
        }
    }
}

/// Reduce a daemon listing to work items. Nothing comes back when any
/// record lacks its hash: an unidentifiable item cannot be managed.
pub fn to_work_items(ts: &Vec<Torrent>) -> (r: Option<Vec<WorkItem>>)
    ensures
        r is Some <==> (forall|i: int| 0 <= i < ts@.len() ==> (#[trigger] ts@[i].hash_string)
            is Some),
        r matches Some(ws) ==> ws@.len() == ts@.len() && (forall|i: int|
            0 <= i < ts@.len() ==> #[trigger] ws@[i] == spec_work_item(ts@[i])),
{
    let mut ws: Vec<WorkItem> = Vec::new();
    let mut i: usize = 0;
    while i < ts.len()
        invariant
            i <= ts@.len(),
            ws@.len() == i,
            forall|j: int| 0 <= j < i ==> (#[trigger] ts@[j].hash_string) is Some,
            forall|j: int| 0 <= j < i ==> #[trigger] ws@[j] == spec_work_item(ts@[j]),
        decreases ts@.len() - i,
    {
        match WorkItem::from_torrent(&ts[i]) {
            None => {
                return None;
            },
            Some(w) => {
                ws.push(w);
            },
        }
        i += 1;
    }
    Some(ws)
}

/// The total size in bytes of a set of work items.
pub open spec fn spec_total_size(s: Seq<WorkItem>) -> int
    decreases s.len(),
{
    if s.len() == 0 {
        0
    } else {
        spec_total_size(s.drop_last()) + s.last().total_size
    }
}

/// The total never exceeds one maximal size per item.
proof fn lemma_total_size_bound(s: Seq<WorkItem>)
    ensures
        0 <= spec_total_size(s) <= s.len() * (u64::MAX as int),
    decreases s.len(),
{
    if s.len() > 0 {
        lemma_total_size_bound(s.drop_last());
    }
}

/// Sum the sizes of all items. The sum is exact: it is carried in a
/// 128-bit quantity, which a sum of 64-bit sizes cannot overflow.
pub fn total_size(items: &Vec<WorkItem>) -> (t: u128)
    ensures
        t == spec_total_size(items@),
{
    let mut t: u128 = 0;
    let mut i: usize = 0;
    while i < items.len()
        invariant
            i <= items@.len(),
            t == spec_total_size(items@.take(i as int)),
        decreases items@.len() - i,
    {
        proof {
            lemma_total_size_bound(items@.take(i as int));
            assert((i as int) * (u64::MAX as int) + (u64::MAX as int) <= (u64::MAX as int) * (
            u64::MAX as int)) by (nonlinear_arith)
                requires
                    0 <= i as int <= u64::MAX as int - 1,
            ;
            assert(items@.take(i as int + 1).drop_last() =~= items@.take(i as int));
        }
        t = t + items[i].total_size as u128;
        i += 1;
    }
    proof {
        assert(items@.take(items@.len() as int) =~= items@);
    }
    t
}

} // verus!
