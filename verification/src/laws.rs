use vstd::prelude::*;

use crate::outcome::CreateOutcome;
use crate::outcome::LockError;
use crate::outcome::RemoveOutcome;
use crate::protocol::LockResult;
use crate::protocol::remove_lock_spec;
use crate::protocol::try_lock_spec;

verus! {

/// Exactly one of two concurrent acquisitions of one fresh lock path
/// succeeds.
///
/// The filesystem's atomic exclusive creation reports `Created` to
/// exactly one of the two attempts and `AlreadyExists` to the other;
/// whichever way that falls, exactly one caller is handed `Success` and
/// the other `AlreadyLocked` — never two successes.
pub proof fn lemma_exclusive_acquisition(o1: CreateOutcome, o2: CreateOutcome)
    requires
        (o1 is Created && o2 is AlreadyExists) || (o1 is AlreadyExists && o2 is Created),
    ensures
        try_lock_spec(o1) == Ok::<LockResult, LockError>(LockResult::Success) <==> !(try_lock_spec(
            o2,
        ) == Ok::<LockResult, LockError>(LockResult::Success)),
        try_lock_spec(o1) == Ok::<LockResult, LockError>(LockResult::Success) ==> try_lock_spec(o2)
            == Ok::<LockResult, LockError>(LockResult::AlreadyLocked),
        try_lock_spec(o2) == Ok::<LockResult, LockError>(LockResult::Success) ==> try_lock_spec(o1)
            == Ok::<LockResult, LockError>(LockResult::AlreadyLocked),
{
}

/// Round trip: a successful acquisition followed by a release of the
/// handle leaves the registry exactly as it was, and a fresh acquisition
/// of the same path succeeds again.
///
/// The second attempt reports `Created` because releasing the handle
/// deleted the backing file, so the path is acquirable anew.
pub proof fn lemma_round_trip(
    held: Set<Seq<char>>,
    path: Seq<char>,
    first: CreateOutcome,
    second: CreateOutcome,
)
    requires
        !held.contains(path),
        first is Created,
        second is Created,
    ensures
        try_lock_spec(first) == Ok::<LockResult, LockError>(LockResult::Success),
        held.insert(path).remove(path) == held,
        try_lock_spec(second) == Ok::<LockResult, LockError>(LockResult::Success),
{
    assert(held.insert(path).remove(path) =~= held);
}

/// Removing a lock twice in a row reports `true` then `false`: the
/// first deletion removes the file, so the second attempt finds none
/// to remove.
pub proof fn lemma_remove_lock_idempotent(first: RemoveOutcome, second: RemoveOutcome)
    requires
        first is Removed,
        second is NotPresent,
    ensures
        remove_lock_spec(first) == Ok::<bool, LockError>(true),
        remove_lock_spec(second) == Ok::<bool, LockError>(false),
{
}

} // verus!
