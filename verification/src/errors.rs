//! The closed error taxonomies of the two fetch layers. Every failure is
//! recovered locally by the pipeline: a failing source or URL is reported
//! and contributes nothing; no failure anywhere aborts a run.

use vstd::prelude::*;

verus! {

/// Failure of one source-listing fetch.
#[derive(Debug, PartialEq)]
pub enum FetchError {
    /// Transport or connection failure while fetching the listing.
    Network { cause: String },
    /// The listing response was malformed or of an unexpected shape.
    Decode { cause: String },
}

/// Failure of one image download.
#[derive(Debug, PartialEq)]
pub enum DownloadError {
    /// No file name can be derived from the URL.
    InvalidUrl { url: String },
    /// Transport or connection failure while fetching the image.
    Network { url: String, cause: String },
    /// The image body could not be written to its target file.
    Io { url: String, cause: String },
}

} // verus!
