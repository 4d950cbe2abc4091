use vstd::prelude::*;

use crate::outcome::CreateOutcome;
use crate::outcome::LockError;
use crate::outcome::RemoveOutcome;
use crate::registry::Registry;

verus! {

/// The result of one acquisition attempt, without a handle.
#[must_use]
pub enum LockResult {
    /// The lock file was created by this attempt: the lock is held.
    Success,
    /// The lock file already existed: some holder got there first.
    AlreadyLocked,
}

/// The result of one acquisition attempt that yields an owned handle.
#[must_use]
pub enum LockResultWithDrop {
    /// The lock is held; releasing the handle releases the lock.
    Locked(Lock),
    /// The lock file already existed: some holder got there first.
    AlreadyLocked,
}

/// A held lock, bound to exactly one lock path.
///
/// A value of this type exists only as the result of a successful
/// acquisition. Releasing it unregisters the path and hands the path
/// back so the caller can delete the backing file.
#[derive(Debug, Clone, PartialEq, Eq)]
#[must_use]
pub struct Lock {
    path: String,
}

impl View for Lock {
    type V = Seq<char>;

    closed spec fn view(&self) -> Seq<char> {
        self.path@
    }
}

impl LockResultWithDrop {
    /// Whether this result carries a live handle.
    pub fn has_lock(&self) -> (b: bool)
        ensures
            b == (self is Locked),
    {
        matches!(self, LockResultWithDrop::Locked(_))
    }
}

impl Lock {
    /// The path of this lock file.
    pub fn path(&self) -> (p: &String)
        ensures
            p@ == self@,
    {
        &self.path
    }

    /// Give the lock up: forget its path in the registry and hand the
    /// path back, so the caller can delete the backing file.
    ///
    /// Releasing consumes the handle, so a held path is released at most
    /// once through it; the failure of the file deletion that follows is
    /// the caller's to absorb, never this library's to raise.
    pub fn release(self, registry: &mut Registry) -> (p: String)
        ensures
            old(registry).wf() ==> final(registry).wf(),
            old(registry).wf() ==> final(registry)@ == old(registry)@.remove(self@),
            p@ == self@,
    {
        registry.unregister(&self.path);
        self.path
    }
}

/// What an acquisition attempt returns for each reported outcome:
/// a fresh creation acquires, an existing file is the normal
/// `AlreadyLocked` contention result, and any other failure is an error.
pub open spec fn try_lock_spec(outcome: CreateOutcome) -> Result<LockResult, LockError> {
    match outcome {
        CreateOutcome::Created => Ok(LockResult::Success),
        CreateOutcome::AlreadyExists => Ok(LockResult::AlreadyLocked),
        CreateOutcome::Failed(m) => Err(LockError::IoError(m)),
    }
}

/// Interpret one exclusive-creation attempt as an acquisition result.
///
/// The attempt itself is the filesystem's: its atomic must-not-exist
/// creation is the sole source of mutual exclusion. This function fixes
/// what each reported outcome means to a caller.
pub fn try_lock(outcome: CreateOutcome) -> (r: Result<LockResult, LockError>)
    ensures
        r == try_lock_spec(outcome),
{
    match outcome {
        CreateOutcome::Created => Ok(LockResult::Success),
        CreateOutcome::AlreadyExists => Ok(LockResult::AlreadyLocked),
        CreateOutcome::Failed(m) => Err(LockError::IoError(m)),
    }
}

/// Interpret one exclusive-creation attempt as a handle-bearing result,
/// and register the path while the lock is held.
///
/// On a fresh creation the returned handle is bound to `path` and the
/// path is recorded in the registry, so a crash-time sweep can delete
/// the file; on any other outcome the registry is left as it was.
pub fn try_lock_until_dropped(path: String, outcome: CreateOutcome, registry: &mut Registry) -> (r:
    Result<LockResultWithDrop, LockError>)
    ensures
        old(registry).wf() ==> final(registry).wf(),
        outcome is Created ==> (r matches Ok(LockResultWithDrop::Locked(l)) && l@ == path@)
            && final(registry)@ == old(registry)@.insert(path@),
        outcome is AlreadyExists ==> (r matches Ok(res) && res is AlreadyLocked)
            && final(registry)@ == old(registry)@,
        outcome matches CreateOutcome::Failed(m) ==> (r matches Err(e) && e
            == LockError::IoError(m)) && final(registry)@ == old(registry)@,
{
    match outcome {
        CreateOutcome::Created => {
            registry.register(path.clone());
            Ok(LockResultWithDrop::Locked(Lock { path }))
        },
        CreateOutcome::AlreadyExists => Ok(LockResultWithDrop::AlreadyLocked),
        CreateOutcome::Failed(m) => Err(LockError::IoError(m)),
    }
}

/// What a manual removal returns for each reported outcome: whether a
/// file was actually removed, or the error that stopped the attempt.
pub open spec fn remove_lock_spec(outcome: RemoveOutcome) -> Result<bool, LockError> {
    match outcome {
        RemoveOutcome::Removed => Ok(true),
        RemoveOutcome::NotPresent => Ok(false),
        RemoveOutcome::Failed(m) => Err(LockError::IoError(m)),
    }
}

/// Interpret one unconditional deletion attempt on a lock file.
///
/// This is the administrative override for locks left behind by other,
/// already-dead processes: it consults no registry, and reports whether
/// a file was actually removed.
pub fn remove_lock(outcome: RemoveOutcome) -> (r: Result<bool, LockError>)
    ensures
        r == remove_lock_spec(outcome),
{
    match outcome {
        RemoveOutcome::Removed => Ok(true),
        RemoveOutcome::NotPresent => Ok(false),
        RemoveOutcome::Failed(m) => Err(LockError::IoError(m)),
    }
}

} // verus!
