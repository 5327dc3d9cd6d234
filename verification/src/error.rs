//! What can go wrong in a sync run, by how far the failure reaches.

use vstd::prelude::*;

verus! {

/// A failure of one step of a run.
#[derive(Debug, Clone, PartialEq, Eq)]
pub enum SyncError {
    /// Reading a file or its attributes failed. Only that file is affected.
    Io { path: String, cause: String },
    /// The state store cannot be opened. Conflict detection is off; the run
    /// goes on.
    StoreUnavailable,
    /// Resolving one file failed. That file is left as it is, the others go
    /// on.
    ResolutionFailed { path: String, cause: String },
    /// The source of change notifications is gone. That watch session ends.
    WatchSourceLost,
    /// The transfer tool ended with an error. The profile's run has failed.
    TransferFailed { stderr: String },
}

/// What a `SyncError` says, with its texts as character sequences.
pub enum SyncErrorView {
    Io { path: Seq<char>, cause: Seq<char> },
    StoreUnavailable,
    ResolutionFailed { path: Seq<char>, cause: Seq<char> },
    WatchSourceLost,
    TransferFailed { stderr: Seq<char> },
}

impl View for SyncError {
    type V = SyncErrorView;

    open spec fn view(&self) -> SyncErrorView {
        match *self {
            SyncError::Io { path, cause } => SyncErrorView::Io { path: path@, cause: cause@ },
            SyncError::StoreUnavailable => SyncErrorView::StoreUnavailable,
            SyncError::ResolutionFailed { path, cause } => SyncErrorView::ResolutionFailed {
                path: path@,
                cause: cause@,
            },
            SyncError::WatchSourceLost => SyncErrorView::WatchSourceLost,
            SyncError::TransferFailed { stderr } => SyncErrorView::TransferFailed {
                stderr: stderr@,
            },
        }
    }
}

/// What a `SyncError` says in words.
pub open spec fn sync_error_text(e: SyncErrorView) -> Seq<char> {
    match e {
        SyncErrorView::Io { path, cause } => "I/O error on "@ + path + ": "@ + cause,
        SyncErrorView::StoreUnavailable => "Sync state store is unavailable"@,
        SyncErrorView::ResolutionFailed { path, cause } => "Failed to resolve conflict for "@ + path
            + ": "@ + cause,
        SyncErrorView::WatchSourceLost => "File watcher disconnected"@,
        SyncErrorView::TransferFailed { stderr } => "Rsync command failed: "@ + stderr,
    }
}

impl SyncError {
    /// The error in words.
    pub fn message(&self) -> (m: String)
        ensures
            m@ == sync_error_text(self@),
    {
        match self {
            SyncError::Io { path, cause } => {
                let mut m = "I/O error on ".to_owned();
                m.append(path.as_str());
                m.append(": ");
                m.append(cause.as_str());
                m
            },
            SyncError::StoreUnavailable => "Sync state store is unavailable".to_owned(),
            SyncError::ResolutionFailed { path, cause } => {
                let mut m = "Failed to resolve conflict for ".to_owned();
                m.append(path.as_str());
                m.append(": ");
                m.append(cause.as_str());
                m
            },
            SyncError::WatchSourceLost => "File watcher disconnected".to_owned(),
            SyncError::TransferFailed { stderr } => {
                let mut m = "Rsync command failed: ".to_owned();
                m.append(stderr.as_str());
                m
            },
        }
    }

    /// Whether the run of the profile goes on after this failure.
    pub open spec fn is_contained(&self) -> bool {
        !(self is TransferFailed)
    }

    /// Decides `is_contained`: only a failed transfer ends the profile's run.
    pub fn contained(&self) -> (r: bool)
        ensures
            r == self.is_contained(),
    {
        match self {
            SyncError::TransferFailed { .. } => false,
            _ => true,
        }
    }
}

} // verus!
