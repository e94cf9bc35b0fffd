//! The state-transition operations. Each takes the loaded account values
//! plus the transaction's scalar arguments and the single timestamp sample
//! `now`, checks its preconditions in a fixed order, and either applies the
//! whole transition or returns the matching error with every account
//! untouched. The checks are written once as spec functions, so each
//! operation's contract says exactly which error comes on which input, and
//! the lemmas in `laws` reason over the same definitions.

use vstd::prelude::*;

use crate::state::CapsuleType;
use crate::state::CapsuleVault;
use crate::state::GlobalState;
use crate::state::RotorError;
use crate::state::TimeCapsule;
use crate::state::UserProfile;
use crate::state::Address;
use crate::state::is_live;
use crate::state::MAX_FEE_BPS;
use crate::state::MAX_MESSAGE_CHARS;
use crate::state::MAX_TITLE_CHARS;
use crate::state::MAX_USERNAME_CHARS;

verus! {

/// Sets up a fresh profile for `owner`, rejecting an over-long display name.
///
/// Succeeds iff the name is at most `MAX_USERNAME_CHARS` characters; the new
/// record carries the owner, the name, zeroed counters, the creation
/// timestamp, and the derivation nonce under which the profile's address was
/// found.
pub fn initialize_user_profile(owner: Address, username: String, now: i64, bump: u8) -> (r: Result<
    UserProfile,
    RotorError,
>)
    ensures
        username@.len() > MAX_USERNAME_CHARS ==> r == Err::<UserProfile, RotorError>(
            RotorError::UsernameTooLong,
        ),
        username@.len() <= MAX_USERNAME_CHARS ==> r == Ok::<UserProfile, RotorError>(
            (UserProfile {
                owner,
                username,
                total_capsules_created: 0,
                total_capsules_received: 0,
                created_at: now,
                bump,
            }),
        ),
{
    if username.as_str().unicode_len() > MAX_USERNAME_CHARS {
        return Err(RotorError::UsernameTooLong);
    }
    Ok(
        UserProfile {
            owner,
            username,
            total_capsules_created: 0,
            total_capsules_received: 0,
            created_at: now,
            bump,
        },
    )
}

/// Sets up the platform-wide singleton with zeroed totals.
///
/// The fee rate is capped at `MAX_FEE_BPS` on the way in, so the range
/// invariant on `platform_fee_bps` holds from the start.
pub fn initialize_global_state(
    admin: Address,
    fee_wallet: Address,
    platform_fee_bps: u16,
    bump: u8,
) -> (g: GlobalState)
    requires
        platform_fee_bps <= MAX_FEE_BPS,
    ensures
        g == (GlobalState {
            admin,
            total_capsules: 0,
            total_unlocked: 0,
            total_sol_locked: 0,
            fee_wallet,
            platform_fee_bps,
            bump,
        }),
{
    GlobalState {
        admin,
        total_capsules: 0,
        total_unlocked: 0,
        total_sol_locked: 0,
        fee_wallet,
        platform_fee_bps,
        bump,
    }
}

/// Decrement floored at zero: the received-counter adjustments never drive
/// a profile below zero, even from an already inconsistent value.
pub open spec fn floor_dec(n: u32) -> u32 {
    if n > 0 {
        (n - 1) as u32
    } else {
        0
    }
}

/// The validation that capsule creation performs, in the order the checks
/// run: the signer must own the creator profile, then the texts are bounded,
/// the deadline must lie in the future, and a positive lock must be covered
/// by the creator's spendable balance.
pub open spec fn create_check(
    creator: Address,
    creator_profile: UserProfile,
    creator_lamports: u64,
    title: Seq<char>,
    message: Seq<char>,
    unlock_at: i64,
    locked_sol: u64,
    now: i64,
) -> Result<(), RotorError> {
    if creator_profile.owner != creator {
        Err(RotorError::Unauthorized)
    } else if title.len() > MAX_TITLE_CHARS {
        Err(RotorError::TitleTooLong)
    } else if message.len() > MAX_MESSAGE_CHARS {
        Err(RotorError::MessageTooLong)
    } else if unlock_at <= now {
        Err(RotorError::InvalidUnlockDate)
    } else if locked_sol > 0 && creator_lamports < locked_sol {
        Err(RotorError::InsufficientFunds)
    } else {
        Ok(())
    }
}

/// Locks `locked_sol` for `recipient_profile.owner` until `unlock_at`.
///
/// On success the returned capsule and vault records are fully determined by
/// the arguments, both profiles' counters and the platform totals go up by
/// exactly one capsule and `locked_sol` coin, and the caller owes the ledger
/// one transfer of `locked_sol` from the creator into the vault's account.
/// On failure nothing changes and the error says which check refused the
/// input. The counter bounds in `requires` exclude the inputs on which the
/// original's checked arithmetic would abort the transaction.
pub fn create_time_capsule(
    creator: Address,
    creator_lamports: u64,
    capsule_id: u64,
    title: String,
    message: String,
    unlock_at: i64,
    locked_sol: u64,
    is_public: bool,
    capsule_type: CapsuleType,
    now: i64,
    capsule_address: Address,
    capsule_bump: u8,
    vault_bump: u8,
    creator_profile: &mut UserProfile,
    recipient_profile: &mut UserProfile,
    global_state: &mut GlobalState,
) -> (r: Result<(TimeCapsule, CapsuleVault), RotorError>)
    requires
        create_check(
            creator,
            *old(creator_profile),
            creator_lamports,
            title@,
            message@,
            unlock_at,
            locked_sol,
            now,
        ) is Ok ==> {
            &&& old(creator_profile).total_capsules_created < u32::MAX
            &&& old(recipient_profile).total_capsules_received < u32::MAX
            &&& old(global_state).total_capsules < u64::MAX
            &&& old(global_state).total_sol_locked + locked_sol <= u64::MAX
        },
    ensures
        (match create_check(
            creator,
            *old(creator_profile),
            creator_lamports,
            title@,
            message@,
            unlock_at,
            locked_sol,
            now,
        ) {
            Err(e) => {
                &&& r == Err::<(TimeCapsule, CapsuleVault), RotorError>(e)
                &&& *final(creator_profile) == *old(creator_profile)
                &&& *final(recipient_profile) == *old(recipient_profile)
                &&& *final(global_state) == *old(global_state)
            },
            Ok(()) => {
                &&& r matches Ok(out)
                &&& crate::state::capsule_wf(out.0)
                &&& is_live(out.0)
                &&& out.0 == (TimeCapsule {
                    creator,
                    recipient: old(recipient_profile).owner,
                    capsule_id,
                    title,
                    message,
                    locked_sol,
                    created_at: now,
                    unlock_at,
                    unlocked_at: None,
                    is_cancelled: false,
                    is_public,
                    capsule_type,
                    bump: capsule_bump,
                })
                &&& out.1 == (CapsuleVault { capsule: capsule_address, bump: vault_bump })
                &&& *final(creator_profile) == (UserProfile {
                    total_capsules_created: (old(creator_profile).total_capsules_created
                        + 1) as u32,
                    ..*old(creator_profile)
                })
                &&& *final(recipient_profile) == (UserProfile {
                    total_capsules_received: (old(recipient_profile).total_capsules_received
                        + 1) as u32,
                    ..*old(recipient_profile)
                })
                &&& *final(global_state) == (GlobalState {
                    total_capsules: (old(global_state).total_capsules + 1) as u64,
                    total_sol_locked: (old(global_state).total_sol_locked + locked_sol) as u64,
                    ..*old(global_state)
                })
            },
        }),
{
    if creator_profile.owner != creator {
        return Err(RotorError::Unauthorized);
    }
    if title.as_str().unicode_len() > MAX_TITLE_CHARS {
        return Err(RotorError::TitleTooLong);
    }
    if message.as_str().unicode_len() > MAX_MESSAGE_CHARS {
        return Err(RotorError::MessageTooLong);
    }
    if unlock_at <= now {
        return Err(RotorError::InvalidUnlockDate);
    }
    if locked_sol > 0 && creator_lamports < locked_sol {
        return Err(RotorError::InsufficientFunds);
    }

    let time_capsule = TimeCapsule {
        creator,
        recipient: recipient_profile.owner,
        capsule_id,
        title,
        message,
        locked_sol,
        created_at: now,
        unlock_at,
        unlocked_at: None,
        is_cancelled: false,
        is_public,
        capsule_type,
        bump: capsule_bump,
    };
    let capsule_vault = CapsuleVault { capsule: capsule_address, bump: vault_bump };

    creator_profile.total_capsules_created = creator_profile.total_capsules_created + 1;
    recipient_profile.total_capsules_received = recipient_profile.total_capsules_received + 1;
    global_state.total_capsules = global_state.total_capsules + 1;
    global_state.total_sol_locked = global_state.total_sol_locked + locked_sol;

    Ok((time_capsule, capsule_vault))
}

/// What the recipient's claim must pass, in the order the checks run: the
/// caller must be the stored recipient, the deadline must have been reached,
/// and neither terminal flag may be set yet.
pub open spec fn unlock_check(c: TimeCapsule, caller: Address, now: i64) -> Result<
    (),
    RotorError,
> {
    if caller != c.recipient {
        Err(RotorError::Unauthorized)
    } else if now < c.unlock_at {
        Err(RotorError::CapsuleStillLocked)
    } else if c.unlocked_at is Some {
        Err(RotorError::AlreadyUnlocked)
    } else if c.is_cancelled {
        Err(RotorError::CapsuleCancelled)
    } else {
        Ok(())
    }
}

/// The platform's cut on release: `floor(locked_sol * fee_bps / 10000)`.
pub open spec fn fee_of(locked_sol: u64, fee_bps: u16) -> int {
    (locked_sol * fee_bps) / 10000
}

/// How a successful claim changes the capsule record: `unlocked_at` is set
/// to the sampled time, everything else stays.
pub open spec fn unlock_apply(c: TimeCapsule, now: i64) -> TimeCapsule {
    TimeCapsule { unlocked_at: Some(now), ..c }
}

/// Where a resolved vault's balance goes: the platform's fee to the
/// configured fee wallet, the rest (plus the vault account's storage
/// reserve, which the ledger adds on closure) to the recipient.
#[derive(Clone, Copy, PartialEq, Eq, Structural, Debug)]
pub struct UnlockPayout {
    pub to_fee_wallet: u64,
    pub to_recipient: u64,
}

/// With the rate in range, the fee never exceeds the locked amount, so the
/// recipient's share never underflows.
pub proof fn lemma_fee_bounds(locked_sol: u64, fee_bps: u16)
    requires
        fee_bps <= MAX_FEE_BPS,
    ensures
        0 <= fee_of(locked_sol, fee_bps) <= locked_sol,
{
    vstd::arithmetic::mul::lemma_mul_inequality(fee_bps as int, 10000, locked_sol as int);
    vstd::arithmetic::div_mod::lemma_div_is_ordered(
        locked_sol * fee_bps,
        locked_sol * 10000,
        10000,
    );
    vstd::arithmetic::div_mod::lemma_div_multiples_vanish(locked_sol as int, 10000);
    vstd::arithmetic::div_mod::lemma_div_pos_is_pos(locked_sol * fee_bps, 10000);
    assert(locked_sol * fee_bps == fee_bps * locked_sol) by (nonlinear_arith);
    assert(locked_sol * 10000 == 10000 * locked_sol) by (nonlinear_arith);
}

/// Releases the capsule to its recipient.
///
/// Succeeds iff the caller is the stored recipient, `now` has reached
/// `unlock_at`, and the capsule is neither unlocked nor cancelled; otherwise
/// it returns the matching error and changes nothing. On success the payout
/// splits exactly the locked amount between fee wallet and recipient with
/// `fee = floor(locked_sol * fee_bps / 10000)`, the capsule's `unlocked_at`
/// is set to `now`, the unlock total goes up by one, and the full original
/// lock leaves `total_sol_locked`. The bounds in `requires` exclude the
/// inputs on which the original's checked arithmetic would abort; under the
/// platform invariant (see `platform`) they always hold.
pub fn unlock_time_capsule(
    caller: Address,
    now: i64,
    capsule: &mut TimeCapsule,
    global_state: &mut GlobalState,
) -> (r: Result<UnlockPayout, RotorError>)
    requires
        old(global_state).platform_fee_bps <= MAX_FEE_BPS,
        unlock_check(*old(capsule), caller, now) is Ok ==> {
            &&& old(global_state).total_unlocked < u64::MAX
            &&& old(global_state).total_sol_locked >= old(capsule).locked_sol
        },
    ensures
        (match unlock_check(*old(capsule), caller, now) {
            Err(e) => {
                &&& r == Err::<UnlockPayout, RotorError>(e)
                &&& *final(capsule) == *old(capsule)
                &&& *final(global_state) == *old(global_state)
            },
            Ok(()) => {
                &&& r matches Ok(pay)
                &&& pay.to_fee_wallet == fee_of(
                    old(capsule).locked_sol,
                    old(global_state).platform_fee_bps,
                )
                &&& pay.to_fee_wallet + pay.to_recipient == old(capsule).locked_sol
                &&& *final(capsule) == unlock_apply(*old(capsule), now)
                &&& *final(global_state) == (GlobalState {
                    total_unlocked: (old(global_state).total_unlocked + 1) as u64,
                    total_sol_locked: (old(global_state).total_sol_locked
                        - old(capsule).locked_sol) as u64,
                    ..*old(global_state)
                })
            },
        }),
{
    if caller != capsule.recipient {
        return Err(RotorError::Unauthorized);
    }
    if now < capsule.unlock_at {
        return Err(RotorError::CapsuleStillLocked);
    }
    if capsule.unlocked_at.is_some() {
        return Err(RotorError::AlreadyUnlocked);
    }
    if capsule.is_cancelled {
        return Err(RotorError::CapsuleCancelled);
    }

    let locked_amount = capsule.locked_sol;
    let fee_bps = global_state.platform_fee_bps;
    proof {
        lemma_fee_bounds(locked_amount, fee_bps);
        assert((locked_amount as u128) * (fee_bps as u128) == locked_amount * fee_bps);
    }
    let fee_wide: u128 = (locked_amount as u128) * (fee_bps as u128) / 10000;
    let fee_amount: u64 = fee_wide as u64;

    capsule.unlocked_at = Some(now);
    global_state.total_unlocked = global_state.total_unlocked + 1;
    global_state.total_sol_locked = global_state.total_sol_locked - locked_amount;

    Ok(UnlockPayout { to_fee_wallet: fee_amount, to_recipient: locked_amount - fee_amount })
}

/// What the creator's mutations of a live capsule must pass, in the order
/// the checks run: creator authority, then neither terminal flag set. Both
/// reassignment and cancellation gate on exactly this.
pub open spec fn live_mutation_check(c: TimeCapsule, caller: Address) -> Result<(), RotorError> {
    if caller != c.creator {
        Err(RotorError::Unauthorized)
    } else if c.unlocked_at is Some {
        Err(RotorError::AlreadyUnlocked)
    } else if c.is_cancelled {
        Err(RotorError::CapsuleCancelled)
    } else {
        Ok(())
    }
}

/// How reassignment changes the capsule record: only the recipient field.
pub open spec fn transfer_apply(c: TimeCapsule, new_recipient: Address) -> TimeCapsule {
    TimeCapsule { recipient: new_recipient, ..c }
}

/// Reassigns a live capsule to a new recipient; no escrow moves.
///
/// Succeeds iff the caller is the creator and the capsule is neither
/// unlocked nor cancelled. The old recipient's received-counter goes down by
/// one but never below zero; the new recipient's goes up by one (the bound
/// in `requires` excludes the input on which that increment would abort).
/// On failure nothing changes.
pub fn transfer_capsule_recipient(
    caller: Address,
    new_recipient: Address,
    capsule: &mut TimeCapsule,
    old_recipient_profile: &mut UserProfile,
    new_recipient_profile: &mut UserProfile,
) -> (r: Result<(), RotorError>)
    requires
        old(old_recipient_profile).owner == old(capsule).recipient,
        old(new_recipient_profile).owner == new_recipient,
        live_mutation_check(*old(capsule), caller) is Ok ==> old(
            new_recipient_profile,
        ).total_capsules_received < u32::MAX,
    ensures
        (match live_mutation_check(*old(capsule), caller) {
            Err(e) => {
                &&& r == Err::<(), RotorError>(e)
                &&& *final(capsule) == *old(capsule)
                &&& *final(old_recipient_profile) == *old(old_recipient_profile)
                &&& *final(new_recipient_profile) == *old(new_recipient_profile)
            },
            Ok(()) => {
                &&& r is Ok
                &&& *final(capsule) == transfer_apply(*old(capsule), new_recipient)
                &&& *final(old_recipient_profile) == (UserProfile {
                    total_capsules_received: floor_dec(
                        old(old_recipient_profile).total_capsules_received,
                    ),
                    ..*old(old_recipient_profile)
                })
                &&& *final(new_recipient_profile) == (UserProfile {
                    total_capsules_received: (old(new_recipient_profile).total_capsules_received
                        + 1) as u32,
                    ..*old(new_recipient_profile)
                })
            },
        }),
{
    if caller != capsule.creator {
        return Err(RotorError::Unauthorized);
    }
    if capsule.unlocked_at.is_some() {
        return Err(RotorError::AlreadyUnlocked);
    }
    if capsule.is_cancelled {
        return Err(RotorError::CapsuleCancelled);
    }

    capsule.recipient = new_recipient;

    if old_recipient_profile.total_capsules_received > 0 {
        old_recipient_profile.total_capsules_received =
            old_recipient_profile.total_capsules_received - 1;
    }
    new_recipient_profile.total_capsules_received =
        new_recipient_profile.total_capsules_received + 1;

    Ok(())
}

/// How cancellation changes the capsule record: only the terminal flag.
pub open spec fn cancel_apply(c: TimeCapsule) -> TimeCapsule {
    TimeCapsule { is_cancelled: true, ..c }
}

/// Cancels a live capsule, releasing the escrow back to its creator.
///
/// Succeeds iff the caller is the creator and the capsule is neither
/// unlocked nor cancelled; otherwise it returns the matching error and
/// changes nothing. On success the returned amount — the full original lock,
/// fee-free — is owed to the creator (plus the vault's storage reserve,
/// which the ledger adds on closure), the full lock leaves
/// `total_sol_locked`, and the recipient's received-counter goes down by one
/// floored at zero. The bound in `requires` excludes the input on which the
/// original's checked subtraction would abort; under the platform invariant
/// (see `platform`) it always holds.
pub fn cancel_time_capsule(
    caller: Address,
    capsule: &mut TimeCapsule,
    recipient_profile: &mut UserProfile,
    global_state: &mut GlobalState,
) -> (r: Result<u64, RotorError>)
    requires
        old(recipient_profile).owner == old(capsule).recipient,
        live_mutation_check(*old(capsule), caller) is Ok ==> old(global_state).total_sol_locked
            >= old(capsule).locked_sol,
    ensures
        (match live_mutation_check(*old(capsule), caller) {
            Err(e) => {
                &&& r == Err::<u64, RotorError>(e)
                &&& *final(capsule) == *old(capsule)
                &&& *final(recipient_profile) == *old(recipient_profile)
                &&& *final(global_state) == *old(global_state)
            },
            Ok(()) => {
                &&& r == Ok::<u64, RotorError>(old(capsule).locked_sol)
                &&& *final(capsule) == cancel_apply(*old(capsule))
                &&& *final(recipient_profile) == (UserProfile {
                    total_capsules_received: floor_dec(
                        old(recipient_profile).total_capsules_received,
                    ),
                    ..*old(recipient_profile)
                })
                &&& *final(global_state) == (GlobalState {
                    total_sol_locked: (old(global_state).total_sol_locked
                        - old(capsule).locked_sol) as u64,
                    ..*old(global_state)
                })
            },
        }),
{
    if caller != capsule.creator {
        return Err(RotorError::Unauthorized);
    }
    if capsule.unlocked_at.is_some() {
        return Err(RotorError::AlreadyUnlocked);
    }
    if capsule.is_cancelled {
        return Err(RotorError::CapsuleCancelled);
    }

    capsule.is_cancelled = true;
    global_state.total_sol_locked = global_state.total_sol_locked - capsule.locked_sol;

    if recipient_profile.total_capsules_received > 0 {
        recipient_profile.total_capsules_received = recipient_profile.total_capsules_received - 1;
    }

    Ok(capsule.locked_sol)
}

/// Whether the capsule record may be torn down: only its creator may ask,
/// and only once the escrow is resolved — unlocked or cancelled.
pub open spec fn delete_check(c: TimeCapsule, caller: Address) -> Result<(), RotorError> {
    if caller != c.creator {
        Err(RotorError::Unauthorized)
    } else if c.unlocked_at is None && !c.is_cancelled {
        Err(RotorError::CapsuleStillLocked)
    } else {
        Ok(())
    }
}

/// Approves tearing down a resolved capsule's record; on `Ok` the caller
/// removes the record and the ledger returns its storage reserve to the
/// creator. No counters change here — unlock or cancel already adjusted
/// them.
pub fn delete_time_capsule(caller: Address, capsule: &TimeCapsule) -> (r: Result<(), RotorError>)
    ensures
        r == delete_check(*capsule, caller),
{
    if caller != capsule.creator {
        return Err(RotorError::Unauthorized);
    }
    if capsule.unlocked_at.is_none() && !capsule.is_cancelled {
        return Err(RotorError::CapsuleStillLocked);
    }
    Ok(())
}

} // verus!
