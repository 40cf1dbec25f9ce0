//! Error taxonomy of the update flow. Failures found *before* committing to
//! an update (a failed manifest query) are benign and never abort startup;
//! failing to construct the update client, or failing *during* the
//! download/install after an update was found, are hard failures surfaced to
//! the caller.

use vstd::prelude::*;

verus! {

/// A failure of the update flow, with the underlying message.
pub enum UpdaterError {
    /// The update client could not be constructed (e.g. missing
    /// configuration). Always fatal to the flow.
    ClientInit { message: String },
    /// The manifest query failed. Swallowed: startup continues.
    Query { message: String },
    /// The download or the installation failed after an update was found.
    /// Fatal: surfaced to the caller.
    DownloadInstall { message: String },
}

impl UpdaterError {
    /// Whether this failure aborts the caller's startup path. Only a failed
    /// manifest query is benign; everything else is surfaced.
    pub fn is_fatal_to_caller(&self) -> (r: bool)
        ensures
            r == !(self is Query),
    {
        match self {
            UpdaterError::Query { .. } => false,
            UpdaterError::ClientInit { .. } => true,
            UpdaterError::DownloadInstall { .. } => true,
        }
    }
}

} // verus!
