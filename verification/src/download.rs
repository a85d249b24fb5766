//! Decisions of the image fetcher. Ensuring a URL is downloaded runs in
//! steps: derive the file name, short-circuit when the target file already
//! exists, otherwise fetch the body and write it as a new file. The
//! surrounding program performs the file probe, the network fetch and the
//! write, and feeds each outcome back into the decision functions here.

use vstd::prelude::*;

use crate::errors::DownloadError;
use crate::filename::{contains_slash, derived_file_name, final_segment};

verus! {

/// What the fetcher does once it knows whether the target file exists.
#[derive(Debug, PartialEq)]
pub enum FetchPlan {
    /// A regular file with the derived name already exists: success without
    /// re-downloading; the existing file is never overwritten.
    AlreadyPresent { name: String },
    /// No such file yet: the image body must be fetched and written.
    NeedsDownload { name: String },
}

/// The fetch decision: an existing file satisfies the download outright,
/// and only a missing one calls for a fetch.
pub open spec fn fetch_plan(name: String, exists: bool) -> FetchPlan {
    if exists {
        FetchPlan::AlreadyPresent { name }
    } else {
        FetchPlan::NeedsDownload { name }
    }
}

/// Decide whether the image behind `name` still has to be downloaded. This
/// is the dedup mechanism: a repeat URL, or a distinct URL whose derived
/// name collides, finds the file of the first successful write and is
/// treated as already satisfied.
pub fn plan_fetch(name: String, exists: bool) -> (r: FetchPlan)
    ensures
        r == fetch_plan(name, exists),
{
    if exists {
        FetchPlan::AlreadyPresent { name }
    } else {
        FetchPlan::NeedsDownload { name }
    }
}

/// Classify the outcome of the network fetch of an image: a full body
/// passes through untouched, a transport failure becomes a download error
/// naming the URL and the cause.
pub fn accept_fetch(url: String, fetched: Result<Vec<u8>, String>) -> (r: Result<
    Vec<u8>,
    DownloadError,
>)
    ensures
        fetched matches Ok(body) ==> r == Ok::<Vec<u8>, DownloadError>(body),
        fetched matches Err(cause) ==> r == Err::<Vec<u8>, DownloadError>(
            DownloadError::Network { url, cause },
        ),
{
    match fetched {
        Ok(body) => Ok(body),
        Err(cause) => Err(DownloadError::Network { url, cause }),
    }
}

/// Classify the outcome of writing the fetched body to the target file: on
/// success the derived file name is the download's result, a failure
/// becomes a download error naming the URL and the cause.
pub fn finish_download(url: String, name: String, written: Result<(), String>) -> (r: Result<
    String,
    DownloadError,
>)
    ensures
        written matches Ok(_) ==> r == Ok::<String, DownloadError>(name),
        written matches Err(cause) ==> r == Err::<String, DownloadError>(
            DownloadError::Io { url, cause },
        ),
{
    match written {
        Ok(_) => Ok(name),
        Err(cause) => Err(DownloadError::Io { url, cause }),
    }
}

/// Law: once the target file exists, ensuring the same download again is
/// idempotent: the plan keeps the existing file under the same name, and
/// orders no second fetch and no second write.
pub proof fn lemma_download_idempotent(name: String)
    ensures
        fetch_plan(name, true) == (FetchPlan::AlreadyPresent { name }),
{
}

/// Law: a URL whose final path segment agrees with that of an already
/// downloaded URL derives the very same file name, so it finds the file
/// present and keeps it: exactly one file per derived name, never
/// overwritten.
pub proof fn lemma_collision_dedup(u1: Seq<char>, u2: Seq<char>, name: String)
    requires
        derived_file_name(u1) == Some(name@),
        final_segment(u2) == final_segment(u1),
        contains_slash(u2),
    ensures
        derived_file_name(u2) == Some(name@),
        fetch_plan(name, true) == (FetchPlan::AlreadyPresent { name }),
{
}

} // verus!
