//! Image resolution: how a selected image becomes a byte stream, from a local
//! file, from the cache, or from a download streamed while it is verified.
use vstd::prelude::*;

use crate::cache::{last_segment, parsed_url, url_file_name, CacheCheck, CacheState};

verus! {

/// An image file already on disk.
#[derive(Clone, Debug)]
pub struct LocalImage {
    pub path: String,
}

/// An image to fetch: its URL, the SHA-256 hash of its extracted content and
/// the size of that content.
#[derive(Clone, Debug)]
pub struct RemoteImage {
    pub name: String,
    pub url: String,
    pub extract_sha256: [u8; 32],
    pub extract_size: u64,
}

/// How to get an image's bytes.
#[derive(Clone, Debug)]
pub enum ResolvePlan {
    /// Open a file directly: no network.
    Open { path: String, size: Option<u64> },
    /// Stream the download into a pipe, verifying its hash in a supervised
    /// background task, and read the other end of the pipe.
    Stream { url: String, sha256: [u8; 32], size: u64 },
}

impl LocalImage {
    /// A local image is opened directly; its size comes from the file itself.
    pub fn resolve_plan(&self) -> (r: ResolvePlan)
        ensures
            r matches ResolvePlan::Open { path, size } && path@ == self.path@ && size is None,
    {
        ResolvePlan::Open { path: self.path.clone(), size: None }
    }
}

impl RemoteImage {
    pub fn new(name: String, url: String, extract_sha256: [u8; 32], extract_size: u64) -> (r: Self)
        ensures
            r.name == name,
            r.url == url,
            r.extract_sha256 == extract_sha256,
            r.extract_size == extract_size,
    {
        RemoteImage { name, url, extract_sha256, extract_size }
    }

    /// The name of the file the URL names: the last segment of its path.
    pub fn file_name(&self) -> (r: Option<String>)
        ensures
            r matches Some(n) ==> parsed_url(self.url@) matches Some(p) && n@ == last_segment(p.1),
            r is None ==> parsed_url(self.url@) is None,
    {
        url_file_name(self.url.as_str())
    }

    /// Decides resolution from a lookup of the extracted hash in the cache:
    /// a hit opens the cached file, with no network; anything else streams
    /// the download.
    pub fn resolve_plan(&self, check: CacheCheck) -> (r: ResolvePlan)
        ensures
            check.state == CacheState::Hit ==> (r matches ResolvePlan::Open { path, size }
                && path == check.path && size == Some(self.extract_size)),
            check.state != CacheState::Hit ==> (r matches ResolvePlan::Stream { url, sha256, size }
                && url@ == self.url@ && sha256 == self.extract_sha256 && size
                == self.extract_size),
    {
        match check.state {
            CacheState::Hit => ResolvePlan::Open { path: check.path, size: Some(self.extract_size) },
            _ => ResolvePlan::Stream {
                url: self.url.clone(),
                sha256: self.extract_sha256,
                size: self.extract_size,
            },
        }
    }
}

/// The image a user selected.
#[derive(Clone, Debug)]
pub enum SelectedImage {
    LocalImage(LocalImage),
    RemoteImage(RemoteImage),
}

} // verus!
