//! Properties that relate several operations, proved over the same spec
//! functions the operations' own contracts use.

use vstd::prelude::*;

use crate::ops::cancel_apply;
use crate::ops::delete_check;
use crate::ops::live_mutation_check;
use crate::ops::transfer_apply;
use crate::ops::unlock_apply;
use crate::ops::unlock_check;
use crate::state::capsule_wf;
use crate::state::RotorError;
use crate::state::TimeCapsule;
use crate::state::Address;

verus! {

/// Law: unlocking and cancelling are mutually exclusive terminal outcomes.
/// Once a capsule is unlocked, cancelling it — or unlocking it again — fails
/// for every caller and at every time, and the rightful caller is told
/// `AlreadyUnlocked`. Once a capsule is cancelled, unlocking it — or
/// cancelling it again — fails the same way, with `CapsuleCancelled` for the
/// rightful caller once the deadline no longer masks it.
pub proof fn lemma_unlock_cancel_exclusive(
    c: TimeCapsule,
    now: i64,
    caller: Address,
    later_now: i64,
)
    ensures
        unlock_check(unlock_apply(c, now), caller, later_now) is Err,
        live_mutation_check(unlock_apply(c, now), caller) is Err,
        caller == c.creator ==> live_mutation_check(unlock_apply(c, now), caller) == Err::<
            (),
            RotorError,
        >(RotorError::AlreadyUnlocked),
        caller == c.recipient && later_now >= c.unlock_at ==> unlock_check(
            unlock_apply(c, now),
            caller,
            later_now,
        ) == Err::<(), RotorError>(RotorError::AlreadyUnlocked),
        unlock_check(cancel_apply(c), caller, later_now) is Err,
        live_mutation_check(cancel_apply(c), caller) is Err,
        caller == c.recipient && later_now >= c.unlock_at && c.unlocked_at is None
            ==> unlock_check(cancel_apply(c), caller, later_now) == Err::<(), RotorError>(
            RotorError::CapsuleCancelled,
        ),
{
}

/// Law: reassignment touches no lifecycle state. A transfer changes only the
/// recipient, so it can neither resurrect a resolved capsule nor resolve a
/// live one, and the escrowed amount stays the same.
pub proof fn lemma_transfer_preserves_lifecycle(c: TimeCapsule, new_recipient: Address)
    ensures
        transfer_apply(c, new_recipient).unlocked_at == c.unlocked_at,
        transfer_apply(c, new_recipient).is_cancelled == c.is_cancelled,
        transfer_apply(c, new_recipient).locked_sol == c.locked_sol,
        transfer_apply(c, new_recipient).creator == c.creator,
        transfer_apply(c, new_recipient).recipient == new_recipient,
{
}

/// Law: every transition keeps a capsule record well-formed. Unlocking a
/// capsule that passed its checks, cancelling one that passed its checks,
/// and reassigning the recipient all preserve `capsule_wf` — in particular,
/// no reachable record ever carries both terminal flags.
pub proof fn lemma_transitions_preserve_wf(
    c: TimeCapsule,
    now: i64,
    caller: Address,
    new_recipient: Address,
)
    requires
        capsule_wf(c),
    ensures
        unlock_check(c, caller, now) is Ok ==> capsule_wf(unlock_apply(c, now)),
        live_mutation_check(c, caller) is Ok ==> capsule_wf(cancel_apply(c)),
        capsule_wf(transfer_apply(c, new_recipient)),
{
}

/// Law: a capsule may be torn down exactly when its escrow is resolved.
/// Deletion by the creator succeeds on an unlocked or cancelled capsule and
/// fails with `CapsuleStillLocked` on a live one; in particular it succeeds
/// right after an unlock or a cancel.
pub proof fn lemma_delete_iff_resolved(c: TimeCapsule, now: i64)
    ensures
        c.unlocked_at is None && !c.is_cancelled ==> delete_check(c, c.creator) == Err::<
            (),
            RotorError,
        >(RotorError::CapsuleStillLocked),
        c.unlocked_at is Some || c.is_cancelled ==> delete_check(c, c.creator) is Ok,
        delete_check(unlock_apply(c, now), c.creator) is Ok,
        delete_check(cancel_apply(c), c.creator) is Ok,
{
}

} // verus!
