use autoseed::remote::UserInfo;
use autoseed::response::SessionStats;
use autoseed::response::Stats;
use autoseed::snapshot::local_fresh;
use autoseed::snapshot::refresh_commit;
use autoseed::snapshot::remote_fresh;
use autoseed::snapshot::SharedSnapshot;
use autoseed::snapshot::Snapshot;

fn user(name: &str) -> UserInfo {
    UserInfo {
        username: name.to_string(),
        download: "1.0 TiB".to_string(),
        upload: "2.0 TiB".to_string(),
        shareRate: "2.0".to_string(),
        actualDownload: "0.5 TiB".to_string(),
        actualUpload: "1.5 TiB".to_string(),
        coin: "1,234.5".to_string(),
        downloadTime: "1天 2:03:04".to_string(),
        uploadTime: "9天 8:07:06".to_string(),
        timeRate: "8.4".to_string(),
    }
}

fn stats(active: u64) -> SessionStats {
    let zero = Stats {
        uploadedBytes: 0,
        downloadedBytes: 0,
        filesAdded: 0,
        sessionCount: 0,
        secondsActive: 0,
    };
    SessionStats {
        activeTorrentCount: active,
        downloadSpeed: 100,
        pausedTorrentCount: 1,
        torrentCount: active + 1,
        uploadSpeed: 200,
        cumulative_stats: zero,
        current_stats: zero,
    }
}

#[test]
fn empty_snapshot_knows_nothing() {
    let s = Snapshot::new();
    assert!(s.remote.is_none());
    assert!(s.local.is_none());
    assert_eq!(s.mask, 0);
}

#[test]
fn refresh_sets_both_bits_when_both_succeed() {
    let prev = Snapshot::new();
    let next = refresh_commit(&prev, Some(user("alice")), Some(stats(4)));
    assert_eq!(next.mask, 3);
    assert!(local_fresh(next.mask));
    assert!(remote_fresh(next.mask));
    assert_eq!(next.remote.unwrap().username, "alice");
    assert_eq!(next.local.unwrap().activeTorrentCount, 4);
}

#[test]
fn failed_remote_fetch_keeps_prior_value_and_clears_only_its_bit() {
    let prev = Snapshot::new();
    let prev = refresh_commit(&prev, Some(user("alice")), Some(stats(4)));
    // This tick the remote side fails while the local side succeeds.
    let next = refresh_commit(&prev, None, Some(stats(9)));
    assert_eq!(next.mask, 1);
    assert!(local_fresh(next.mask));
    assert!(!remote_fresh(next.mask));
    // The stale remote record is retained, not dropped.
    assert_eq!(next.remote.unwrap().username, "alice");
    assert_eq!(next.local.unwrap().activeTorrentCount, 9);
}

#[test]
fn failed_local_fetch_keeps_prior_value_and_clears_only_its_bit() {
    let prev = Snapshot::new();
    let prev = refresh_commit(&prev, Some(user("bob")), Some(stats(4)));
    let next = refresh_commit(&prev, Some(user("bob")), None);
    assert_eq!(next.mask, 2);
    assert!(!local_fresh(next.mask));
    assert!(remote_fresh(next.mask));
    assert_eq!(next.local.unwrap().activeTorrentCount, 4);
}

#[test]
fn remote_stays_empty_until_a_first_success() {
    let prev = Snapshot::new();
    let next = refresh_commit(&prev, None, Some(stats(1)));
    assert!(next.remote.is_none());
    assert_eq!(next.mask, 1);
}

#[test]
fn shared_snapshot_reads_back_what_a_whole_write_stored() {
    let cell = SharedSnapshot::new();
    assert_eq!(cell.read_mask(), 0);
    assert!(cell.read_remote().is_none());
    assert!(cell.read_local().is_none());

    cell.commit_refresh(Some(user("carol")), Some(stats(7)));
    let snap = cell.read_snapshot();
    assert_eq!(snap.mask, 3);
    assert_eq!(snap.remote.unwrap().username, "carol");
    assert_eq!(snap.local.unwrap().activeTorrentCount, 7);

    // A failing tick flips only the freshness bits, never tears the value.
    cell.commit_refresh(None, None);
    let snap = cell.read_snapshot();
    assert_eq!(snap.mask, 0);
    assert_eq!(snap.remote.unwrap().username, "carol");
    assert_eq!(snap.local.unwrap().activeTorrentCount, 7);
    assert_eq!(cell.read_mask(), 0);
}

#[test]
fn shared_snapshot_write_replaces_all_fields_together() {
    let cell = SharedSnapshot::new();
    let snap = refresh_commit(&Snapshot::new(), Some(user("dave")), None);
    cell.write(snap);
    assert_eq!(cell.read_mask(), 2);
    assert_eq!(cell.read_remote().unwrap().username, "dave");
    assert!(cell.read_local().is_none());
}
