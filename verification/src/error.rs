//! The ways in which an updater operation can fail.

use vstd::prelude::*;

verus! {

/// Why an operation of the updater did not complete.
///
/// Every kind is recoverable: the caller may retry the whole update cycle
/// later. None of them leaves the state record half changed.
#[derive(Clone, Copy, Debug, PartialEq, Eq, Structural)]
pub enum UpdateError {
    /// The state file does not exist in the cache directory.
    NotFound,
    /// The filesystem refused a read, a write or the creation of a directory.
    IOError,
    /// The state file exists but does not hold a well-formed state record.
    DeserializeError,
    /// The server's answer carries no patch descriptor.
    MalformedResponse,
    /// The network collaborator could not fetch the payload.
    DownloadError,
}

} // verus!
