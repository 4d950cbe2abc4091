//! Advisory, crash-safe, process-level mutual exclusion through lock files.
//!
//! A lock is a file in the per-user runtime directory whose mere existence
//! means "resource held"; the filesystem's atomic exclusive creation is the
//! sole arbiter of who holds it. This crate verifies the protocol around
//! that arbiter: how a lock name resolves to its path, what each reported
//! filesystem outcome means to a caller, the handle bound to a held path,
//! and the registry of held paths that a terminating-signal sweep drains so
//! a crashed process never leaves a phantom lock behind. The filesystem
//! side effects themselves are performed by an unverified shell, which
//! hands their plain outcomes to the functions here.

mod laws;
mod outcome;
mod paths;
mod protocol;
mod registry;

pub use laws::lemma_exclusive_acquisition;
pub use laws::lemma_remove_lock_idempotent;
pub use laws::lemma_round_trip;
pub use outcome::CreateOutcome;
pub use outcome::LockError;
pub use outcome::RemoveOutcome;
pub use paths::get_lock_path;
pub use paths::lock_path_for;
pub use paths::lock_path_spec;
pub use protocol::Lock;
pub use protocol::LockResult;
pub use protocol::LockResultWithDrop;
pub use protocol::remove_lock;
pub use protocol::remove_lock_spec;
pub use protocol::try_lock;
pub use protocol::try_lock_spec;
pub use protocol::try_lock_until_dropped;
pub use registry::Registry;
pub use registry::path_set;
