//! The shared status snapshot: the one concurrently mutated cell of the
//! core. A reader/writer lock guards a single `Snapshot` value; writers
//! replace all of it in one critical section and readers copy all of it
//! in one critical section, so no reader ever observes fields from two
//! different writes.
use vstd::prelude::*;
use vstd::rwlock::RwLock;
use vstd::rwlock::RwLockPredicate;
use crate::remote::UserInfo;
use crate::response::SessionStats;

verus! {

/// Whether the freshness mask records a successful local fetch on the
/// most recent tick.
pub open spec fn spec_local_fresh(mask: u8) -> bool {
    mask % 2 == 1
}

/// Whether the freshness mask records a successful remote fetch on the
/// most recent tick.
pub open spec fn spec_remote_fresh(mask: u8) -> bool {
    mask / 2 % 2 == 1
}

/// The mask that records the given per-source outcomes of one tick.
pub open spec fn spec_mask(local_ok: bool, remote_ok: bool) -> u8 {
    if local_ok && remote_ok {
        3
    } else if remote_ok {
        2
    } else if local_ok {
        1
    } else {
        0
    }
}

/// Whether the freshness mask records a successful local fetch on the
/// most recent tick (bit zero of the mask).
pub fn local_fresh(mask: u8) -> (r: bool)
    ensures
        r == spec_local_fresh(mask),
{
    mask % 2 == 1
}

/// Whether the freshness mask records a successful remote fetch on the
/// most recent tick (bit one of the mask).
pub fn remote_fresh(mask: u8) -> (r: bool)
    ensures
        r == spec_remote_fresh(mask),
{
    mask / 2 % 2 == 1
}

/// The latest known upstream status: the remote account record, the
/// local daemon session record, and the freshness mask of the most
/// recent refresh tick. Fields hold nothing until a first successful
/// fetch, and afterwards always the last value that arrived.
#[derive(Debug)]
pub struct Snapshot {
    pub remote: Option<UserInfo>,
    pub local: Option<SessionStats>,
    pub mask: u8,
}

impl Snapshot {
    /// A snapshot is well-formed when its mask holds only the two
    /// freshness bits and a bit is set only for a source that has
    /// actually delivered a value.
    pub open spec fn wf(&self) -> bool {
        &&& self.mask < 4
        &&& spec_local_fresh(self.mask) ==> self.local is Some
        &&& spec_remote_fresh(self.mask) ==> self.remote is Some
    }

    /// The snapshot before any fetch has succeeded: nothing known,
    /// nothing fresh.
    pub fn new() -> (s: Snapshot)
        ensures
            s.remote is None,
            s.local is None,
            s.mask == 0,
            s.wf(),
    {
        Snapshot { remote: None, local: None, mask: 0 }
    }
}

impl Clone for Snapshot {
    fn clone(&self) -> (r: Self)
        ensures
            r == *self,
    {
        Snapshot {
            remote: match &self.remote {
                Some(u) => Some(u.clone()),
                None => None,
            },
            local: self.local,
            mask: self.mask,
        }
    }
}

/// The snapshot one refresh tick commits: each source that answered
/// replaces its stored value and sets its freshness bit; each source
/// that failed keeps the previously stored value and only clears its
/// bit for this tick.
pub open spec fn refresh_next(
    prev: Snapshot,
    remote: Option<UserInfo>,
    local: Option<SessionStats>,
) -> Snapshot {
    Snapshot {
        remote: if remote is Some {
            remote
        } else {
            prev.remote
        },
        local: if local is Some {
            local
        } else {
            prev.local
        },
        mask: spec_mask(local is Some, remote is Some),
    }
}

/// Fold one refresh tick's fetch outcomes into the previous snapshot.
pub fn refresh_commit(
    prev: &Snapshot,
    remote: Option<UserInfo>,
    local: Option<SessionStats>,
) -> (next: Snapshot)
    ensures
        next == refresh_next(*prev, remote, local),
        next.wf(),
{
    let local_ok = local.is_some();
    let remote_ok = remote.is_some();
    Snapshot {
        remote: match remote {
            Some(u) => Some(u),
            None => match &prev.remote {
                Some(u) => Some(u.clone()),
                None => None,
            },
        },
        local: match local {
            Some(s) => Some(s),
            None => prev.local,
        },
        mask: if local_ok && remote_ok {
            3
        } else if remote_ok {
            2
        } else if local_ok {
            1
        } else {
            0
        },
    }
}

/// Freshness independence: when the remote fetch fails while the local
/// fetch succeeds in the same tick, the committed mask has the local bit
/// set and the remote bit clear, the local value is the fresh one, and
/// the remote value stays exactly what was stored before — it does not
/// fall back to nothing unless nothing was ever stored.
pub proof fn lemma_freshness_independence(prev: Snapshot, local: Option<SessionStats>)
    requires
        local is Some,
    ensures
        ({
            let next = refresh_next(prev, None, local);
            &&& spec_local_fresh(next.mask)
            &&& !spec_remote_fresh(next.mask)
            &&& next.local == local
            &&& next.remote == prev.remote
        }),
{
}

/// The lock invariant of the shared snapshot: every value the cell ever
/// holds is a well-formed snapshot.
pub struct SnapshotInv {
}

impl RwLockPredicate<Snapshot> for SnapshotInv {
    open spec fn inv(self, v: Snapshot) -> bool {
        v.wf()
    }
}

/// The shared, lock-guarded snapshot cell. The refresh loop is its only
/// writer; the render and input loops read it. Writers replace the whole
/// snapshot under the exclusive side of the lock and readers copy the
/// whole snapshot under the shared side, so a read never mixes fields
/// from two different writes and never blocks longer than the copy.
pub struct SharedSnapshot {
    lock: RwLock<Snapshot, SnapshotInv>,
}

impl SharedSnapshot {
    /// A fresh cell holding the empty snapshot.
    pub fn new() -> SharedSnapshot {
        SharedSnapshot { lock: RwLock::new(Snapshot::new(), Ghost(SnapshotInv {  })) }
    }

    /// Replace the whole snapshot in one critical section.
    pub fn write(&self, s: Snapshot)
        requires
            s.wf(),
    {
        let (prev, handle) = self.lock.acquire_write();
        handle.release_write(s);
    }

    /// Fold one refresh tick's fetch outcomes into the stored snapshot,
    /// read-modify-write under a single exclusive critical section.
    pub fn commit_refresh(&self, remote: Option<UserInfo>, local: Option<SessionStats>) {
        let (prev, handle) = self.lock.acquire_write();
        let next = refresh_commit(&prev, remote, local);
        handle.release_write(next);
    }

    /// Copy the whole snapshot in one critical section. The copy is
    /// well-formed: its freshness bits only ever point at values that
    /// are really there.
    pub fn read_snapshot(&self) -> (r: Snapshot)
        ensures
            r.wf(),
    {
        let handle = self.lock.acquire_read();
        let r = handle.borrow().clone();
        handle.release_read();
        r
    }

    /// The stored local session record, copied under the shared lock.
    pub fn read_local(&self) -> Option<SessionStats> {
        let handle = self.lock.acquire_read();
        let r = handle.borrow().local;
        handle.release_read();
        r
    }

    /// The stored remote account record, copied under the shared lock.
    pub fn read_remote(&self) -> Option<UserInfo> {
        let handle = self.lock.acquire_read();
        let r = match &handle.borrow().remote {
            Some(u) => Some(u.clone()),
            None => None,
        };
        handle.release_read();
        r
    }

    /// The stored freshness mask, read under the shared lock.
    pub fn read_mask(&self) -> (r: u8)
        ensures
            r < 4,
    {
        let handle = self.lock.acquire_read();
        let r = handle.borrow().mask;
        handle.release_read();
        r
    }
}

} // verus!
