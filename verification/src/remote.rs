//! Values fetched from the remote catalog: the account's status record
//! and the candidate items discovered in its feed.
use vstd::prelude::*;

verus! {

/// The remote account's status, scraped from the account page and
/// replaced wholesale on each successful fetch.
#[derive(Debug)]
pub struct UserInfo {
    pub username: String,
    pub download: String,
    pub upload: String,
    pub shareRate: String,
    pub actualDownload: String,
    pub actualUpload: String,
    pub coin: String,
    pub downloadTime: String,
    pub uploadTime: String,
    pub timeRate: String,
}

impl Clone for UserInfo {
    fn clone(&self) -> (r: Self)
        ensures
            r == *self,
    {
        UserInfo {
            username: self.username.clone(),
            download: self.download.clone(),
            upload: self.upload.clone(),
            shareRate: self.shareRate.clone(),
            actualDownload: self.actualDownload.clone(),
            actualUpload: self.actualUpload.clone(),
            coin: self.coin.clone(),
            downloadTime: self.downloadTime.clone(),
            uploadTime: self.uploadTime.clone(),
            timeRate: self.timeRate.clone(),
        }
    }
}

/// One candidate item from the catalog feed, produced fresh on every
/// promotion tick and never persisted.
///
/// The catalog's fractional figures are carried as plain integers: the
/// promotion multipliers in hundredths (so `100` stands for a neutral
/// multiplier and `0` for a free download), the average swarm progress
/// as a percentage.
#[derive(Debug)]
pub struct FeedItem {
    pub url: String,
    pub title: String,
    pub category: String,
    pub hash: String,
    pub upload_multiplier_hundredths: u32,
    pub download_multiplier_hundredths: u32,
    pub average_progress_percent: u32,
    pub seeder_count: i32,
}

impl Clone for FeedItem {
    fn clone(&self) -> (r: Self)
        ensures
            r == *self,
    {
        FeedItem {
            url: self.url.clone(),
            title: self.title.clone(),
            category: self.category.clone(),
            hash: self.hash.clone(),
            upload_multiplier_hundredths: self.upload_multiplier_hundredths,
            download_multiplier_hundredths: self.download_multiplier_hundredths,
            average_progress_percent: self.average_progress_percent,
            seeder_count: self.seeder_count,
        }
    }
}

} // verus!
