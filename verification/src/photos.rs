//! What the photo service answers, and where its photos are asked for and
//! kept.

use crate::config::DownloadQuality;
use vstd::prelude::*;

verus! {

/// The directory that downloaded photos are kept in.
pub const DEFAULT_DOWNLOAD_PATH: &'static str = "download";

/// The addresses of one photo, one for each size.
#[derive(Clone, Debug, PartialEq, Eq)]
pub struct Urls {
    pub raw: String,
    pub full: String,
    pub regular: String,
    pub small: String,
    pub thumb: String,
}

/// One photo that a search has found.
#[derive(Clone, Debug, PartialEq, Eq)]
pub struct SearchResult {
    pub id: String,
    pub urls: Urls,
}

/// The answer to a search.
#[derive(Clone, Debug, PartialEq, Eq)]
pub struct SearchResults {
    pub total: usize,
    pub results: Vec<SearchResult>,
}

/// The address that answers a search for `query`: the service's search
/// endpoint, with the query as it stands and the largest page the service
/// allows.
pub open spec fn search_url_text(query: Seq<char>) -> Seq<char> {
    "https://api.unsplash.com/search/photos?query="@ + query + "&per_page=100"@
}

/// The file that the photo with this id is kept in: its id with the
/// extension `.jpg`, in the download directory.
pub open spec fn save_path_text(id: Seq<char>) -> Seq<char> {
    DEFAULT_DOWNLOAD_PATH@ + "/"@ + id + ".jpg"@
}

/// The address that answers a search for `query`.
pub fn search_url(query: &str) -> (url: String)
    ensures
        url@ == search_url_text(query@),
{
    let mut url = "https://api.unsplash.com/search/photos?query=".to_owned();
    url.append(query);
    url.append("&per_page=100");
    url
}

/// The file that the photo with this id is kept in.
pub fn save_path(id: &str) -> (path: String)
    ensures
        path@ == save_path_text(id@),
{
    let mut path = DEFAULT_DOWNLOAD_PATH.to_owned();
    path.append("/");
    path.append(id);
    path.append(".jpg");
    path
}

impl Urls {
    /// The address of the photo in the given size.
    pub open spec fn of(self, quality: DownloadQuality) -> Seq<char> {
        match quality {
            DownloadQuality::Raw => self.raw@,
            DownloadQuality::Full => self.full@,
            DownloadQuality::Regular => self.regular@,
            DownloadQuality::Small => self.small@,
            DownloadQuality::Thumb => self.thumb@,
        }
    }

    /// The address of the photo in the given size.
    pub fn get(&self, quality: DownloadQuality) -> (url: &String)
        ensures
            url@ == self.of(quality),
    {
        match quality {
            DownloadQuality::Raw => &self.raw,
            DownloadQuality::Full => &self.full,
            DownloadQuality::Regular => &self.regular,
            DownloadQuality::Small => &self.small,
            DownloadQuality::Thumb => &self.thumb,
        }
    }
}

impl SearchResults {
    /// The photo at place `pick` of the answer, if the answer is that long.
    pub open spec fn candidate(self, pick: int) -> Option<SearchResult> {
        if 0 <= pick < self.results@.len() {
            Some(self.results@[pick])
        } else {
            None
        }
    }

    /// The photo at place `pick` of the answer, if the answer is that long.
    pub fn get(&self, pick: usize) -> (photo: Option<&SearchResult>)
        ensures
            match self.candidate(pick as int) {
                Some(found) => photo is Some && *photo->Some_0 == found,
                None => photo is None,
            },
    {
        if pick < self.results.len() {
            Some(&self.results[pick])
        } else {
            None
        }
    }
}

} // verus!
