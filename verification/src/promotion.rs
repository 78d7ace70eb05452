//! The promotion policy: which freshly fetched feed items to admit into
//! the download daemon. A pure decision over the active-hash set and the
//! feed; the network fan-out that acts on it lives in the surrounding
//! application.
use vstd::prelude::*;
use vstd::seq_lib::lemma_seq_contains_after_push;
use crate::remote::FeedItem;

verus! {

/// An item's average swarm progress must lie below this percentage for
/// the item to still be worth seeding early.
pub const PROGRESS_CUTOFF_PERCENT: u32 = 30;

/// Whether one of the active hashes reads `h`.
pub open spec fn hash_in(active: Seq<String>, h: Seq<char>) -> bool {
    exists|j: int| 0 <= j < active.len() && active[j]@ == h
}

/// The promotion rule: admit an item exactly when it is not already
/// active, its download is free, the swarm is still early, and somebody
/// seeds it.
pub open spec fn spec_admitted(active: Seq<String>, it: FeedItem) -> bool {
    &&& !hash_in(active, it.hash@)
    &&& it.download_multiplier_hundredths == 0
    &&& it.average_progress_percent < PROGRESS_CUTOFF_PERCENT
    &&& it.seeder_count > 0
}

/// The ordered admission list: the URL of every admitted item, in feed
/// order.
pub open spec fn admit_list(active: Seq<String>, feed: Seq<FeedItem>) -> Seq<String>
    decreases feed.len(),
{
    if feed.len() == 0 {
        Seq::empty()
    } else {
        let rest = admit_list(active, feed.drop_last());
        if spec_admitted(active, feed.last()) {
            rest.push(feed.last().url)
        } else {
            rest
        }
    }
}

/// Whether `h` is among the active hashes.
fn contains_hash(active: &Vec<String>, h: &String) -> (r: bool)
    ensures
        r == hash_in(active@, h@),
{
    let mut j: usize = 0;
    while j < active.len()
        invariant
            j <= active@.len(),
            forall|k: int| 0 <= k < j ==> active@[k]@ != h@,
        decreases active@.len() - j,
    {
        if active[j].eq(h) {
            return true;
        }
        j += 1;
    }
    false
}

/// Whether the promotion rule admits this item against this active set.
pub fn admitted(active: &Vec<String>, it: &FeedItem) -> (r: bool)
    ensures
        r == spec_admitted(active@, *it),
{
    it.download_multiplier_hundredths == 0 && it.average_progress_percent
        < PROGRESS_CUTOFF_PERCENT && it.seeder_count > 0 && !contains_hash(active, &it.hash)
}

/// Apply the promotion rule to a whole feed fetch: the URLs to submit,
/// in feed order. Every qualifying item in the fetch is admitted in the
/// same tick; nothing is rate-limited or deduplicated beyond the
/// active-hash check.
pub fn promotion_decide(active: &Vec<String>, feed: &Vec<FeedItem>) -> (r: Vec<String>)
    ensures
        r@ == admit_list(active@, feed@),
{
    let mut r: Vec<String> = Vec::new();
    let mut i: usize = 0;
    while i < feed.len()
        invariant
            i <= feed@.len(),
            r@ == admit_list(active@, feed@.take(i as int)),
        decreases feed@.len() - i,
    {
        proof {
            assert(feed@.take(i as int + 1).drop_last() =~= feed@.take(i as int));
            assert(feed@.take(i as int + 1).last() == feed@[i as int]);
        }
        if admitted(active, &feed[i]) {
            r.push(feed[i].url.clone());
        }
        i += 1;
    }
    proof {
        assert(feed@.take(feed@.len() as int) =~= feed@);
    }
    r
}

/// Promotion is idempotent: the admission list is a pure function of the
/// feed and the active-hash set, so two decisions over the same inputs
/// yield the identical ordered list.
pub proof fn lemma_promotion_idempotent(
    active: Seq<String>,
    feed: Seq<FeedItem>,
    r1: Seq<String>,
    r2: Seq<String>,
)
    requires
        r1 == admit_list(active, feed),
        r2 == admit_list(active, feed),
    ensures
        r1 == r2,
{
}

/// The promotion criteria, both ways: a URL stands in the admission list
/// exactly when some feed item carries it and satisfies every clause of
/// the rule; an item violating any clause contributes nothing.
pub proof fn lemma_admitted_iff(active: Seq<String>, feed: Seq<FeedItem>, u: String)
    ensures
        admit_list(active, feed).contains(u) <==> exists|j: int|
            0 <= j < feed.len() && #[trigger] feed[j].url == u && spec_admitted(active, feed[j]),
    decreases feed.len(),
{
    if feed.len() == 0 {
    } else {
        let prefix = feed.drop_last();
        lemma_admitted_iff(active, prefix, u);
        let rest = admit_list(active, prefix);
        if spec_admitted(active, feed.last()) {
            lemma_seq_contains_after_push(rest, feed.last().url, u);
        }
        if admit_list(active, feed).contains(u) {
            if exists|j: int|
                0 <= j < prefix.len() && #[trigger] prefix[j].url == u && spec_admitted(
                    active,
                    prefix[j],
                ) {
                let j = choose|j: int|
                    0 <= j < prefix.len() && #[trigger] prefix[j].url == u && spec_admitted(
                        active,
                        prefix[j],
                    );
                assert(feed[j].url == u && spec_admitted(active, feed[j]));
            } else {
                assert(feed.last().url == u && spec_admitted(active, feed.last()));
                assert(feed[feed.len() - 1].url == u);
            }
        }
        if exists|j: int|
            0 <= j < feed.len() && #[trigger] feed[j].url == u && spec_admitted(active, feed[j]) {
            let j = choose|j: int|
                0 <= j < feed.len() && #[trigger] feed[j].url == u && spec_admitted(
                    active,
                    feed[j],
                );
            if j < feed.len() - 1 {
                assert(prefix[j].url == u && spec_admitted(active, prefix[j]));
            }
        }
    }
}

} // verus!
