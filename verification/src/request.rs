//! Builders for the download daemon's RPC requests: each builder returns
//! a request value whose method name and arguments are pinned exactly.
use vstd::prelude::*;

verus! {

/// Marker for argument records that name the fields of a query.
pub trait ArgumentFields {
}

impl ArgumentFields for TorrentGetField {
}

/// One RPC request: a method name and its optional argument record.
#[derive(Debug)]
pub struct RpcRequest {
    pub method: String,
    pub arguments: Option<Args>,
}

/// The argument record of each request kind.
#[derive(Debug, Clone)]
pub enum Args {
    TorrentGetArgs(TorrentGetArgs),
    TorrentActionArgs(TorrentActionArgs),
    TorrentRemoveArgs(TorrentRemoveArgs),
    TorrentAddArgs(TorrentAddArgs),
    FreeSpaceArgs(FreeSpaceArgs),
}

#[derive(Debug, Clone)]
pub struct TorrentGetArgs {
    pub fields: Option<Vec<String>>,
    pub ids: Option<Vec<Id>>,
}

impl Default for TorrentGetArgs {
    /// A query over all items that asks for every field.
    fn default() -> (d: Self)
        ensures
            d.ids is None,
            d.fields matches Some(names) && names@.len() == all_fields().len() && (forall|j: int|
                0 <= j < all_fields().len() ==> #[trigger] names@[j]@
                    == all_fields()[j].spec_str()),
    {
        TorrentGetArgs { fields: Some(field_names(&TorrentGetField::all())), ids: None }
    }
}

/// The wire names of the given fields, in order.
fn field_names(fields: &Vec<TorrentGetField>) -> (names: Vec<String>)
    ensures
        names@.len() == fields@.len(),
        forall|j: int| 0 <= j < fields@.len() ==> #[trigger] names@[j]@ == fields@[j].spec_str(),
{
    let mut names: Vec<String> = Vec::new();
    let mut i: usize = 0;
    while i < fields.len()
        invariant
            i <= fields@.len(),
            names@.len() == i,
            forall|j: int| 0 <= j < i ==> #[trigger] names@[j]@ == fields@[j].spec_str(),
        decreases fields@.len() - i,
    {
        names.push(fields[i].to_str());
        i += 1;
    }
    names
}

#[derive(Debug, Clone)]
pub struct FreeSpaceArgs {
    pub path: String,
}

#[derive(Debug, Clone)]
pub struct TorrentActionArgs {
    pub ids: Vec<Id>,
}

#[derive(Debug, Clone)]
pub struct TorrentRemoveArgs {
    pub ids: Vec<Id>,
    pub delete_local_data: bool,
}

/// A work item named either by its daemon-assigned id or by its hash.
#[derive(Debug, Clone)]
pub enum Id {
    Id(i64),
    Hash(String),
}

#[derive(Debug, Clone)]
pub struct TorrentAddArgs {
    pub cookies: Option<String>,
    pub download_dir: Option<String>,
    pub filename: Option<String>,
    pub metainfo: Option<String>,
    pub paused: Option<bool>,
}

impl TorrentAddArgs {
    /// An add request must carry a source: either a file name or the
    /// metainfo itself.
    pub open spec fn spec_has_source(&self) -> bool {
        self.metainfo is Some || self.filename is Some
    }

    /// True exactly when this record names a source to add from.
    pub fn has_source(&self) -> (r: bool)
        ensures
            r == self.spec_has_source(),
    {
        self.metainfo.is_some() || self.filename.is_some()
    }
}

impl Default for TorrentAddArgs {
    fn default() -> (d: Self)
        ensures
            d.cookies is None,
            d.download_dir is None,
            d.filename is None,
            d.metainfo is None,
            d.paused is None,
    {
        TorrentAddArgs {
            cookies: None,
            download_dir: None,
            filename: None,
            metainfo: None,
            paused: None,
        }
    }
}

/// The fields a torrent-get query may ask for.
#[derive(Debug, Clone, Copy)]
pub enum TorrentGetField {
    Id,
    Addeddate,
    Name,
    HashString,
    Totalsize,
    Error,
    Errorstring,
    Eta,
    Isfinished,
    Isstalled,
    Leftuntildone,
    Metadatapercentcomplete,
    Peersconnected,
    Peersgettingfromus,
    Peerssendingtous,
    Percentdone,
    Queueposition,
    Ratedownload,
    Rateupload,
    Recheckprogress,
    Seedratiomode,
    Seedratiolimit,
    Sizewhendone,
    Status,
    Trackers,
    Downloaddir,
    Uploadedever,
    Uploadratio,
    Webseedssendingtous,
}

/// Every field, in the order the daemon documents them.
pub open spec fn all_fields() -> Seq<TorrentGetField> {
    seq![
        TorrentGetField::Id,
        TorrentGetField::Addeddate,
        TorrentGetField::Name,
        TorrentGetField::HashString,
        TorrentGetField::Totalsize,
        TorrentGetField::Error,
        TorrentGetField::Errorstring,
        TorrentGetField::Eta,
        TorrentGetField::Isfinished,
        TorrentGetField::Isstalled,
        TorrentGetField::Leftuntildone,
        TorrentGetField::Metadatapercentcomplete,
        TorrentGetField::Peersconnected,
        TorrentGetField::Peersgettingfromus,
        TorrentGetField::Peerssendingtous,
        TorrentGetField::Percentdone,
        TorrentGetField::Queueposition,
        TorrentGetField::Ratedownload,
        TorrentGetField::Rateupload,
        TorrentGetField::Recheckprogress,
        TorrentGetField::Seedratiomode,
        TorrentGetField::Seedratiolimit,
        TorrentGetField::Sizewhendone,
        TorrentGetField::Status,
        TorrentGetField::Trackers,
        TorrentGetField::Downloaddir,
        TorrentGetField::Uploadedever,
        TorrentGetField::Uploadratio,
        TorrentGetField::Webseedssendingtous,
    ]
}

impl TorrentGetField {
    /// The wire name of each field.
    pub open spec fn spec_str(self) -> Seq<char> {
        match self {
            TorrentGetField::Id => "id"@,
            TorrentGetField::Addeddate => "addedDate"@,
            TorrentGetField::Name => "name"@,
            TorrentGetField::HashString => "hashString"@,
            TorrentGetField::Totalsize => "totalSize"@,
            TorrentGetField::Error => "error"@,
            TorrentGetField::Errorstring => "errorString"@,
            TorrentGetField::Eta => "eta"@,
            TorrentGetField::Isfinished => "isFinished"@,
            TorrentGetField::Isstalled => "isStalled"@,
            TorrentGetField::Leftuntildone => "leftUntilDone"@,
            TorrentGetField::Metadatapercentcomplete => "metadataPercentComplete"@,
            TorrentGetField::Peersconnected => "peersConnected"@,
            TorrentGetField::Peersgettingfromus => "peersGettingFromUs"@,
            TorrentGetField::Peerssendingtous => "peersSendingToUs"@,
            TorrentGetField::Percentdone => "percentDone"@,
            TorrentGetField::Queueposition => "queuePosition"@,
            TorrentGetField::Ratedownload => "rateDownload"@,
            TorrentGetField::Rateupload => "rateUpload"@,
            TorrentGetField::Recheckprogress => "recheckProgress"@,
            TorrentGetField::Seedratiomode => "seedRatioMode"@,
            TorrentGetField::Seedratiolimit => "seedRatioLimit"@,
            TorrentGetField::Sizewhendone => "sizeWhenDone"@,
            TorrentGetField::Status => "status"@,
            TorrentGetField::Trackers => "trackers"@,
            TorrentGetField::Downloaddir => "downloadDir"@,
            TorrentGetField::Uploadedever => "uploadedEver"@,
            TorrentGetField::Uploadratio => "uploadRatio"@,
            TorrentGetField::Webseedssendingtous => "webseedsSendingToUs"@,
        }
    }

    /// A vector holding every field once, in the documented order.
    pub fn all() -> (r: Vec<TorrentGetField>)
        ensures
            r@ == all_fields(),
    {
        let mut r: Vec<TorrentGetField> = Vec::new();
        r.push(TorrentGetField::Id);
        r.push(TorrentGetField::Addeddate);
        r.push(TorrentGetField::Name);
        r.push(TorrentGetField::HashString);
        r.push(TorrentGetField::Totalsize);
        r.push(TorrentGetField::Error);
        r.push(TorrentGetField::Errorstring);
        r.push(TorrentGetField::Eta);
        r.push(TorrentGetField::Isfinished);
        r.push(TorrentGetField::Isstalled);
        r.push(TorrentGetField::Leftuntildone);
        r.push(TorrentGetField::Metadatapercentcomplete);
        r.push(TorrentGetField::Peersconnected);
        r.push(TorrentGetField::Peersgettingfromus);
        r.push(TorrentGetField::Peerssendingtous);
        r.push(TorrentGetField::Percentdone);
        r.push(TorrentGetField::Queueposition);
        r.push(TorrentGetField::Ratedownload);
        r.push(TorrentGetField::Rateupload);
        r.push(TorrentGetField::Recheckprogress);
        r.push(TorrentGetField::Seedratiomode);
        r.push(TorrentGetField::Seedratiolimit);
        r.push(TorrentGetField::Sizewhendone);
        r.push(TorrentGetField::Status);
        r.push(TorrentGetField::Trackers);
        r.push(TorrentGetField::Downloaddir);
        r.push(TorrentGetField::Uploadedever);
        r.push(TorrentGetField::Uploadratio);
        r.push(TorrentGetField::Webseedssendingtous);
        proof {
            assert(r@ =~= all_fields());
        }
        r
    }

    /// The wire name of this field, as a fresh string.
    pub fn to_str(&self) -> (r: String)
        ensures
            r@ == self.spec_str(),
    {
        match self {
            TorrentGetField::Id => "id",
            TorrentGetField::Addeddate => "addedDate",
            TorrentGetField::Name => "name",
            TorrentGetField::HashString => "hashString",
            TorrentGetField::Totalsize => "totalSize",
            TorrentGetField::Error => "error",
            TorrentGetField::Errorstring => "errorString",
            TorrentGetField::Eta => "eta",
            TorrentGetField::Isfinished => "isFinished",
            TorrentGetField::Isstalled => "isStalled",
            TorrentGetField::Leftuntildone => "leftUntilDone",
            TorrentGetField::Metadatapercentcomplete => "metadataPercentComplete",
            TorrentGetField::Peersconnected => "peersConnected",
            TorrentGetField::Peersgettingfromus => "peersGettingFromUs",
            TorrentGetField::Peerssendingtous => "peersSendingToUs",
            TorrentGetField::Percentdone => "percentDone",
            TorrentGetField::Queueposition => "queuePosition",
            TorrentGetField::Ratedownload => "rateDownload",
            TorrentGetField::Rateupload => "rateUpload",
            TorrentGetField::Recheckprogress => "recheckProgress",
            TorrentGetField::Seedratiomode => "seedRatioMode",
            TorrentGetField::Seedratiolimit => "seedRatioLimit",
            TorrentGetField::Sizewhendone => "sizeWhenDone",
            TorrentGetField::Status => "status",
            TorrentGetField::Trackers => "trackers",
            TorrentGetField::Downloaddir => "downloadDir",
            TorrentGetField::Uploadedever => "uploadedEver",
            TorrentGetField::Uploadratio => "uploadRatio",
            TorrentGetField::Webseedssendingtous => "webseedsSendingToUs",
        }.to_owned()
    }
}

/// The actions the daemon can be told to perform on an item.
#[derive(Debug)]
pub enum TorrentAction {
    Start,
    Stop,
    StartNow,
    Verify,
    Reannounce,
}

impl TorrentAction {
    /// The wire method name of each action.
    pub open spec fn spec_str(self) -> Seq<char> {
        match self {
            TorrentAction::Start => "torrent-start"@,
            TorrentAction::Stop => "torrent-stop"@,
            TorrentAction::StartNow => "torrent-start-now"@,
            TorrentAction::Verify => "torrent-verify"@,
            TorrentAction::Reannounce => "torrent-reannounce"@,
        }
    }

    /// The wire method name of this action, as a fresh string.
    pub fn to_str(&self) -> (r: String)
        ensures
            r@ == self.spec_str(),
    {
        match self {
            TorrentAction::Start => "torrent-start",
            TorrentAction::Stop => "torrent-stop",
            TorrentAction::StartNow => "torrent-start-now",
            TorrentAction::Verify => "torrent-verify",
            TorrentAction::Reannounce => "torrent-reannounce",
        }.to_owned()
    }
}

impl RpcRequest {
    /// The session-get request: no arguments.
    pub fn session_get() -> (r: RpcRequest)
        ensures
            r.method@ == "session-get"@,
            r.arguments is None,
    {
        RpcRequest { method: "session-get".to_owned(), arguments: None }
    }

    /// The session-stats request: no arguments.
    pub fn session_stats() -> (r: RpcRequest)
        ensures
            r.method@ == "session-stats"@,
            r.arguments is None,
    {
        RpcRequest { method: "session-stats".to_owned(), arguments: None }
    }

    /// The free-space request for the given directory.
    pub fn free_space(dir: String) -> (r: RpcRequest)
        ensures
            r.method@ == "free-space"@,
            r.arguments matches Some(Args::FreeSpaceArgs(a)) && a.path == dir,
    {
        RpcRequest {
            method: "free-space".to_owned(),
            arguments: Some(Args::FreeSpaceArgs(FreeSpaceArgs { path: dir })),
        }
    }

    /// The torrent-get request. Asks for the given fields, or for every
    /// field when none are named, over the given items, or over all items
    /// when none are named.
    pub fn torrent_get(fields: Option<Vec<TorrentGetField>>, ids: Option<Vec<Id>>) -> (r:
        RpcRequest)
        ensures
            r.method@ == "torrent-get"@,
            r.arguments matches Some(Args::TorrentGetArgs(a)) && {
                let want = if fields is Some {
                    fields->0@
                } else {
                    all_fields()
                };
                &&& a.ids == ids
                &&& a.fields matches Some(names) && names@.len() == want.len() && (forall|j: int|
                    0 <= j < want.len() ==> #[trigger] names@[j]@ == want[j].spec_str())
            },
    {
        let field_list = match fields {
            Some(f) => f,
            None => TorrentGetField::all(),
        };
        let names = field_names(&field_list);
        RpcRequest {
            method: "torrent-get".to_owned(),
            arguments: Some(
                Args::TorrentGetArgs(TorrentGetArgs { fields: Some(names), ids }),
            ),
        }
    }

    /// The torrent-remove request for the given items.
    pub fn torrent_remove(ids: Vec<Id>, delete_local_data: bool) -> (r: RpcRequest)
        ensures
            r.method@ == "torrent-remove"@,
            r.arguments matches Some(Args::TorrentRemoveArgs(a)) && a.ids == ids
                && a.delete_local_data == delete_local_data,
    {
        RpcRequest {
            method: "torrent-remove".to_owned(),
            arguments: Some(
                Args::TorrentRemoveArgs(TorrentRemoveArgs { ids, delete_local_data }),
            ),
        }
    }

    /// The torrent-add request carrying the given argument record.
    pub fn torrent_add(add: TorrentAddArgs) -> (r: RpcRequest)
        ensures
            r.method@ == "torrent-add"@,
            r.arguments matches Some(Args::TorrentAddArgs(a)) && a == add,
    {
        RpcRequest { method: "torrent-add".to_owned(), arguments: Some(Args::TorrentAddArgs(add)) }
    }

    /// A torrent action request: the action names the method itself.
    pub fn torrent_action(action: TorrentAction, ids: Vec<Id>) -> (r: RpcRequest)
        ensures
            r.method@ == action.spec_str(),
            r.arguments matches Some(Args::TorrentActionArgs(a)) && a.ids == ids,
    {
        RpcRequest {
            method: action.to_str(),
            arguments: Some(Args::TorrentActionArgs(TorrentActionArgs { ids })),
        }
    }
}

} // verus!
