//! The download daemon's RPC response shapes, as plain data the verified
//! logic can read. The wire layer in the surrounding application decodes
//! JSON into these values and hands them in whole.
use vstd::prelude::*;

verus! {

/// An RPC answer: the decoded argument record and the daemon's result word.
#[derive(Debug)]
pub struct RpcResponse<T> {
    pub arguments: T,
    pub result: String,
}

impl<T> RpcResponse<T> {
    /// True exactly when the daemon reported success.
    pub fn is_ok(&self) -> (r: bool)
        ensures
            r == (self.result@ == "success"@),
    {
        let success = String::from_str("success");
        self.result == success
    }
}

/// The daemon session's configuration record.
#[derive(Debug, Clone)]
pub struct SessionGet {
    pub blocklist_enabled: bool,
    pub download_dir: String,
    pub encryption: String,
    pub rpc_version: i32,
    pub rpc_version_minimum: i32,
    pub version: String,
}

/// One item as the daemon reports it. Every field is optional: the daemon
/// answers only the fields a query asked for.
#[derive(Debug)]
pub struct Torrent {
    pub added_date: Option<i64>,
    pub download_dir: Option<String>,
    pub error: Option<i64>,
    pub error_string: Option<String>,
    pub eta: Option<i64>,
    pub id: Option<i64>,
    pub is_finished: Option<bool>,
    pub is_stalled: Option<bool>,
    pub left_until_done: Option<i64>,
    pub name: Option<String>,
    pub hash_string: Option<String>,
    pub peers_connected: Option<i64>,
    pub peers_getting_from_us: Option<i64>,
    pub peers_sending_to_us: Option<i64>,
    pub rate_download: Option<i64>,
    pub rate_upload: Option<i64>,
    pub size_when_done: Option<i64>,
    pub status: Option<i64>,
    pub total_size: Option<i64>,
    pub trackers: Option<Vec<Trackers>>,
    pub uploaded_ever: Option<i64>,
}

/// The list wrapper of a torrent-get answer.
#[derive(Debug)]
pub struct Torrents<T> {
    pub torrents: Vec<T>,
}

#[derive(Debug, Clone)]
pub struct Trackers {
    pub id: i32,
    pub announce: String,
}

/// The empty argument record of answers that carry no data.
#[derive(Debug)]
pub struct Nothing {
}

/// The answer to a torrent-add request.
#[derive(Debug)]
pub struct TorrentAdded {
    pub torrent_added: Option<Torrent>,
}

#[derive(Debug, Clone)]
pub struct FreeSpace {
    pub path: Option<String>,
    pub size_bytes: Option<u64>,
}

/// The local daemon session's counters; replaced wholesale on each fetch.
#[derive(Debug, Clone, Copy)]
pub struct SessionStats {
    pub activeTorrentCount: u64,
    pub downloadSpeed: u64,
    pub pausedTorrentCount: u64,
    pub torrentCount: u64,
    pub uploadSpeed: u64,
    pub cumulative_stats: Stats,
    pub current_stats: Stats,
}

/// One bundle of transfer counters.
#[derive(Debug, Clone, Copy)]
pub struct Stats {
    pub uploadedBytes: u64,
    pub downloadedBytes: u64,
    pub filesAdded: u64,
    pub sessionCount: u64,
    pub secondsActive: u64,
}

} // verus!
