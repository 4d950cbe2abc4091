use vstd::prelude::*;

verus! {

/// What one attempt at exclusively creating a lock file reported.
///
/// The filesystem shell performs the creation with must-not-exist semantics
/// and hands the plain outcome to the verified protocol functions.
#[derive(Debug)]
pub enum CreateOutcome {
    /// The file did not exist and was created by this attempt.
    Created,
    /// The file already existed; nothing was created or truncated.
    AlreadyExists,
    /// The creation failed for another reason, described by the message.
    Failed(String),
}

/// What one attempt at deleting a lock file reported.
#[derive(Debug)]
pub enum RemoveOutcome {
    /// The file existed and was deleted.
    Removed,
    /// There was no file to delete.
    NotPresent,
    /// The existence check or the deletion failed, described by the message.
    Failed(String),
}

/// Why a lock operation could not even be attempted.
#[derive(Debug)]
pub enum LockError {
    /// No per-user runtime directory could be resolved on this platform.
    ConfigurationError,
    /// An underlying filesystem operation failed, described by the message.
    IoError(String),
}

} // verus!
