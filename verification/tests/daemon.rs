use autoseed::client::BasicAuth;
use autoseed::client::TransClient;
use autoseed::request::Args;
use autoseed::request::Id;
use autoseed::request::TorrentGetArgs;
use autoseed::request::RpcRequest;
use autoseed::request::TorrentAction;
use autoseed::request::TorrentAddArgs;
use autoseed::request::TorrentGetField;
use autoseed::response::Nothing;
use autoseed::response::RpcResponse;
use autoseed::response::Torrent;
use autoseed::ui::splitTime;
use autoseed::ui::TabsState;
use autoseed::work::to_work_items;
use autoseed::work::WorkItem;

fn bare_torrent() -> Torrent {
    Torrent {
        added_date: None,
        download_dir: None,
        error: None,
        error_string: None,
        eta: None,
        id: None,
        is_finished: None,
        is_stalled: None,
        left_until_done: None,
        name: None,
        hash_string: None,
        peers_connected: None,
        peers_getting_from_us: None,
        peers_sending_to_us: None,
        rate_download: None,
        rate_upload: None,
        size_when_done: None,
        status: None,
        total_size: None,
        trackers: None,
        uploaded_ever: None,
    }
}

#[test]
fn session_requests_have_no_arguments() {
    let r = RpcRequest::session_get();
    assert_eq!(r.method, "session-get");
    assert!(r.arguments.is_none());
    let r = RpcRequest::session_stats();
    assert_eq!(r.method, "session-stats");
    assert!(r.arguments.is_none());
}

#[test]
fn free_space_request_names_the_directory() {
    let r = RpcRequest::free_space("/data".to_string());
    assert_eq!(r.method, "free-space");
    match r.arguments {
        Some(Args::FreeSpaceArgs(a)) => assert_eq!(a.path, "/data"),
        _ => panic!("wrong argument record"),
    }
}

#[test]
fn torrent_get_defaults_to_every_field() {
    let r = RpcRequest::torrent_get(None, None);
    assert_eq!(r.method, "torrent-get");
    match r.arguments {
        Some(Args::TorrentGetArgs(a)) => {
            let names = a.fields.expect("field list");
            assert_eq!(names.len(), 29);
            assert_eq!(names[0], "id");
            assert_eq!(names[3], "hashString");
            assert_eq!(names[28], "webseedsSendingToUs");
            assert!(a.ids.is_none());
        }
        _ => panic!("wrong argument record"),
    }
}

#[test]
fn torrent_get_maps_requested_fields() {
    let r = RpcRequest::torrent_get(
        Some(vec![TorrentGetField::Totalsize, TorrentGetField::Addeddate]),
        Some(vec![Id::Id(7)]),
    );
    match r.arguments {
        Some(Args::TorrentGetArgs(a)) => {
            assert_eq!(a.fields.unwrap(), vec!["totalSize", "addedDate"]);
            match a.ids.unwrap().as_slice() {
                [Id::Id(7)] => {}
                _ => panic!("wrong ids"),
            }
        }
        _ => panic!("wrong argument record"),
    }
}

#[test]
fn torrent_remove_carries_ids_and_flag() {
    let r = RpcRequest::torrent_remove(vec![Id::Hash("abc".to_string())], true);
    assert_eq!(r.method, "torrent-remove");
    match r.arguments {
        Some(Args::TorrentRemoveArgs(a)) => {
            assert!(a.delete_local_data);
            match a.ids.as_slice() {
                [Id::Hash(h)] => assert_eq!(h, "abc"),
                _ => panic!("wrong ids"),
            }
        }
        _ => panic!("wrong argument record"),
    }
}

#[test]
fn torrent_add_requires_a_source() {
    let bare = TorrentAddArgs::default();
    assert!(!bare.has_source());
    let mut with_file = TorrentAddArgs::default();
    with_file.filename = Some("/tmp/x.torrent".to_string());
    assert!(with_file.has_source());
    let r = RpcRequest::torrent_add(with_file);
    assert_eq!(r.method, "torrent-add");
    match r.arguments {
        Some(Args::TorrentAddArgs(a)) => {
            assert_eq!(a.filename.unwrap(), "/tmp/x.torrent");
        }
        _ => panic!("wrong argument record"),
    }
}

#[test]
fn torrent_action_uses_the_action_as_method() {
    let r = RpcRequest::torrent_action(TorrentAction::Stop, vec![Id::Id(1)]);
    assert_eq!(r.method, "torrent-stop");
    assert_eq!(TorrentAction::Start.to_str(), "torrent-start");
    assert_eq!(TorrentAction::StartNow.to_str(), "torrent-start-now");
    assert_eq!(TorrentAction::Verify.to_str(), "torrent-verify");
    assert_eq!(TorrentAction::Reannounce.to_str(), "torrent-reannounce");
}

#[test]
fn response_is_ok_only_on_success() {
    let ok: RpcResponse<Nothing> = RpcResponse {
        arguments: Nothing {},
        result: "success".to_string(),
    };
    assert!(ok.is_ok());
    let bad: RpcResponse<Nothing> = RpcResponse {
        arguments: Nothing {},
        result: "failure".to_string(),
    };
    assert!(!bad.is_ok());
}

#[test]
fn client_with_auth_keeps_endpoint_and_credentials() {
    let c = TransClient::with_auth(
        "http://localhost:9091/transmission/rpc",
        BasicAuth {
            user: "admin".to_string(),
            password: "secret".to_string(),
        },
    );
    assert_eq!(c.url, "http://localhost:9091/transmission/rpc");
    let auth = c.auth.unwrap();
    assert_eq!(auth.user, "admin");
    assert_eq!(auth.password, "secret");
}

#[test]
fn work_item_reduction_clamps_and_defaults() {
    let mut t = bare_torrent();
    t.hash_string = Some("abc".to_string());
    t.total_size = Some(-5);
    let w = WorkItem::from_torrent(&t).unwrap();
    assert_eq!(w.hash, "abc");
    assert_eq!(w.total_size, 0);
    assert_eq!(w.helper_peer_count, 0);
    assert_eq!(w.added_at, 0);

    let mut t = bare_torrent();
    t.hash_string = Some("def".to_string());
    t.total_size = Some(1_000_000_000);
    t.peers_getting_from_us = Some(3);
    t.added_date = Some(1_600_000_000);
    let w = WorkItem::from_torrent(&t).unwrap();
    assert_eq!(w.total_size, 1_000_000_000);
    assert_eq!(w.helper_peer_count, 3);
    assert_eq!(w.added_at, 1_600_000_000);
}

#[test]
fn work_item_without_hash_reduces_to_nothing() {
    assert!(WorkItem::from_torrent(&bare_torrent()).is_none());
    let mut named = bare_torrent();
    named.hash_string = Some("x".to_string());
    let listing = vec![named, bare_torrent()];
    assert!(to_work_items(&listing).is_none());
}

#[test]
fn work_items_of_a_fully_hashed_listing() {
    let mut a = bare_torrent();
    a.hash_string = Some("a".to_string());
    a.total_size = Some(10);
    let mut b = bare_torrent();
    b.hash_string = Some("b".to_string());
    b.peers_getting_from_us = Some(2);
    let ws = to_work_items(&vec![a, b]).unwrap();
    assert_eq!(ws.len(), 2);
    assert_eq!(ws[0].hash, "a");
    assert_eq!(ws[0].total_size, 10);
    assert_eq!(ws[1].hash, "b");
    assert_eq!(ws[1].helper_peer_count, 2);
}

#[test]
fn split_time_breaks_a_duration_exactly() {
    assert_eq!(splitTime(0), (0, 0, 0, 0));
    assert_eq!(splitTime(86400 + 3 * 3600 + 4 * 60 + 5), (1, 3, 4, 5));
    assert_eq!(splitTime(59), (0, 0, 0, 59));
    assert_eq!(splitTime(86399), (0, 23, 59, 59));
}

#[test]
fn tab_cursor_wraps_both_ways() {
    let mut t = TabsState::new();
    assert_eq!(t.index, 0);
    t.next();
    assert_eq!(t.index, 1);
    t.next();
    assert_eq!(t.index, 2);
    t.next();
    assert_eq!(t.index, 0);
    t.previous();
    assert_eq!(t.index, 2);
    t.previous();
    assert_eq!(t.index, 1);
}

#[test]
fn default_get_args_ask_for_every_field_of_every_item() {
    let d = TorrentGetArgs::default();
    assert!(d.ids.is_none());
    let names = d.fields.expect("field list");
    assert_eq!(names.len(), 29);
    assert_eq!(names[0], "id");
    assert_eq!(names[28], "webseedsSendingToUs");
}

#[test]
fn all_fields_lists_each_once() {
    let all = TorrentGetField::all();
    assert_eq!(all.len(), 29);
    let mut names: Vec<String> = all.iter().map(|f| f.to_str()).collect();
    names.sort();
    names.dedup();
    assert_eq!(names.len(), 29);
}
