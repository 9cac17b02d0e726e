//! The ways in which a run, or one item of it, can fail.

use vstd::prelude::*;

verus! {

/// Why a step failed.
#[derive(Clone, Copy, Debug, PartialEq, Eq)]
pub enum Error {
    /// The downloader binary could not be located or executed.
    BinaryNotFound,
    /// The downloader answered the version query with something that is not
    /// text.
    UnexpectedOutput,
    /// The playlist listing could not be fetched, or is not text.
    PlaylistFetchError,
    /// The downloader ended a download with a status other than success.
    DownloadFailed { exit_status: Option<i32> },
    /// The metadata tag could not be written into an artifact.
    TagWriteError,
    /// An artifact holds a metadata tag that cannot be read.
    TagReadError,
    /// The data directory could not be created, listed or cleaned.
    DataDirError,
}

} // verus!
