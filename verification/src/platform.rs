//! The platform's registry: the singleton record together with every capsule
//! record currently allocated on the ledger.
//!
//! Its well-formedness ties the running total to the records themselves:
//! `total_sol_locked` equals the sum of `locked_sol` over the capsules that
//! are neither unlocked nor cancelled. Every method routes through the
//! operations in `ops` and preserves that equation, so after any sequence of
//! creates, unlocks, transfers, cancels and deletes the total still matches
//! the records.

use vstd::prelude::*;

use crate::ops;
use crate::state::CapsuleType;
use crate::state::CapsuleVault;
use crate::state::GlobalState;
use crate::state::RotorError;
use crate::state::TimeCapsule;
use crate::state::UserProfile;
use crate::state::Address;
use crate::state::MAX_FEE_BPS;
use crate::state::is_live;

verus! {

/// What one capsule record contributes to `total_sol_locked`: its lock while
/// it is live, nothing once it is unlocked or cancelled.
pub open spec fn locked_contribution(c: TimeCapsule) -> int {
    if is_live(c) {
        c.locked_sol as int
    } else {
        0
    }
}

/// The coin the records say is still in escrow: the sum of `locked_sol`
/// over the live capsules.
pub open spec fn locked_sum(s: Seq<TimeCapsule>) -> int
    decreases s.len(),
{
    if s.len() == 0 {
        0
    } else {
        locked_sum(s.drop_last()) + locked_contribution(s.last())
    }
}

pub proof fn lemma_locked_sum_push(s: Seq<TimeCapsule>, c: TimeCapsule)
    ensures
        locked_sum(s.push(c)) == locked_sum(s) + locked_contribution(c),
{
    assert(s.push(c).drop_last() =~= s);
}

pub proof fn lemma_locked_sum_update(s: Seq<TimeCapsule>, i: int, c: TimeCapsule)
    requires
        0 <= i < s.len(),
    ensures
        locked_sum(s.update(i, c)) == locked_sum(s) - locked_contribution(s[i])
            + locked_contribution(c),
    decreases s.len(),
{
    if i == s.len() - 1 {
        assert(s.update(i, c).drop_last() =~= s.drop_last());
    } else {
        assert(s.update(i, c).drop_last() =~= s.drop_last().update(i, c));
        lemma_locked_sum_update(s.drop_last(), i, c);
    }
}

pub proof fn lemma_locked_sum_remove(s: Seq<TimeCapsule>, i: int)
    requires
        0 <= i < s.len(),
    ensures
        locked_sum(s.remove(i)) == locked_sum(s) - locked_contribution(s[i]),
    decreases s.len(),
{
    if i == s.len() - 1 {
        assert(s.remove(i) =~= s.drop_last());
    } else {
        assert(s.remove(i).drop_last() =~= s.drop_last().remove(i));
        assert(s.remove(i).last() == s.last());
        lemma_locked_sum_remove(s.drop_last(), i);
    }
}

/// Each live capsule's lock is covered by the sum, and the sum is never
/// negative: the registry can always afford the subtraction that unlocking
/// or cancelling a live capsule performs.
pub proof fn lemma_locked_sum_element_bound(s: Seq<TimeCapsule>, i: int)
    requires
        0 <= i < s.len(),
    ensures
        locked_sum(s) >= locked_contribution(s[i]),
        locked_sum(s) >= 0,
    decreases s.len(),
{
    lemma_locked_sum_nonneg(s.drop_last());
    if i < s.len() - 1 {
        lemma_locked_sum_element_bound(s.drop_last(), i);
    }
}

pub proof fn lemma_locked_sum_nonneg(s: Seq<TimeCapsule>)
    ensures
        locked_sum(s) >= 0,
    decreases s.len(),
{
    if s.len() > 0 {
        lemma_locked_sum_nonneg(s.drop_last());
    }
}

/// Whether a capsule record carries the key pair that derives its address.
pub open spec fn keyed_by(c: TimeCapsule, creator: Address, capsule_id: u64) -> bool {
    c.creator == creator && c.capsule_id == capsule_id
}

/// The profile record a given identity owns: the first index holding it, or
/// `None` when no profile of that owner is allocated.
pub fn find_profile(profiles: &Vec<UserProfile>, owner: Address) -> (r: Option<usize>)
    ensures
        (match r {
            Some(i) => i < profiles@.len() && profiles@[i as int].owner == owner,
            None => forall|j: int|
                0 <= j < profiles@.len() ==> (#[trigger] profiles@[j]).owner != owner,
        }),
{
    let mut i: usize = 0;
    while i < profiles.len()
        invariant
            i <= profiles@.len(),
            forall|j: int| 0 <= j < i ==> (#[trigger] profiles@[j]).owner != owner,
        decreases profiles@.len() - i,
    {
        if profiles[i].owner == owner {
            return Some(i);
        }
        i = i + 1;
    }
    None
}

/// The platform singleton plus every capsule record it governs.
pub struct Platform {
    pub global: GlobalState,
    pub capsules: Vec<TimeCapsule>,
}

impl Platform {
    /// The registry's invariant: the fee rate is in range and the running
    /// total equals the escrow the records themselves account for.
    pub open spec fn wf(self) -> bool {
        &&& self.global.platform_fee_bps <= MAX_FEE_BPS
        &&& self.global.total_sol_locked as int == locked_sum(self.capsules@)
    }

    /// The capsule record keyed by (creator, sequence number): the first
    /// index holding it, or `None` when no such capsule is allocated —
    /// uniqueness of the pair is what the allocation of a fresh capsule's
    /// address relies on.
    pub fn find_capsule(&self, creator: Address, capsule_id: u64) -> (r: Option<usize>)
        ensures
            (match r {
                Some(i) => i < self.capsules@.len() && keyed_by(
                    self.capsules@[i as int],
                    creator,
                    capsule_id,
                ),
                None => forall|j: int|
                    0 <= j < self.capsules@.len() ==> !keyed_by(
                        #[trigger] self.capsules@[j],
                        creator,
                        capsule_id,
                    ),
            }),
    {
        let mut i: usize = 0;
        while i < self.capsules.len()
            invariant
                i <= self.capsules@.len(),
                forall|j: int|
                    0 <= j < i ==> !keyed_by(#[trigger] self.capsules@[j], creator, capsule_id),
            decreases self.capsules@.len() - i,
        {
            let c = &self.capsules[i];
            if c.creator == creator && c.capsule_id == capsule_id {
                return Some(i);
            }
            i = i + 1;
        }
        None
    }

    /// Sets up the platform with no capsules and zeroed totals.
    pub fn new(admin: Address, fee_wallet: Address, platform_fee_bps: u16, bump: u8) -> (p:
        Platform)
        requires
            platform_fee_bps <= MAX_FEE_BPS,
        ensures
            p.wf(),
            p.capsules@.len() == 0,
            p.global == (GlobalState {
                admin,
                total_capsules: 0,
                total_unlocked: 0,
                total_sol_locked: 0,
                fee_wallet,
                platform_fee_bps,
                bump,
            }),
    {
        Platform {
            global: ops::initialize_global_state(admin, fee_wallet, platform_fee_bps, bump),
            capsules: Vec::new(),
        }
    }

    /// Creates a capsule through `ops::create_time_capsule` and records it.
    /// On success the new record is appended and stays live, so the total
    /// grows by exactly its lock; on failure nothing changes.
    pub fn create_capsule(
        &mut self,
        creator: Address,
        creator_lamports: u64,
        capsule_id: u64,
        title: String,
        message: String,
        unlock_at: i64,
        locked_sol: u64,
        is_public: bool,
        capsule_type: CapsuleType,
        now: i64,
        capsule_address: Address,
        capsule_bump: u8,
        vault_bump: u8,
        creator_profile: &mut UserProfile,
        recipient_profile: &mut UserProfile,
    ) -> (r: Result<CapsuleVault, RotorError>)
        requires
            old(self).wf(),
            ops::create_check(
                creator,
                *old(creator_profile),
                creator_lamports,
                title@,
                message@,
                unlock_at,
                locked_sol,
                now,
            ) is Ok ==> {
                &&& old(creator_profile).total_capsules_created < u32::MAX
                &&& old(recipient_profile).total_capsules_received < u32::MAX
                &&& old(self).global.total_capsules < u64::MAX
                &&& old(self).global.total_sol_locked + locked_sol <= u64::MAX
            },
        ensures
            final(self).wf(),
            (match ops::create_check(
                creator,
                *old(creator_profile),
                creator_lamports,
                title@,
                message@,
                unlock_at,
                locked_sol,
                now,
            ) {
                Err(e) => {
                    &&& r == Err::<CapsuleVault, RotorError>(e)
                    &&& *final(self) == *old(self)
                    &&& *final(creator_profile) == *old(creator_profile)
                    &&& *final(recipient_profile) == *old(recipient_profile)
                },
                Ok(()) => {
                    &&& r == Ok::<CapsuleVault, RotorError>(
                        (CapsuleVault { capsule: capsule_address, bump: vault_bump }),
                    )
                    &&& final(self).capsules@ == old(self).capsules@.push(
                        (TimeCapsule {
                            creator,
                            recipient: old(recipient_profile).owner,
                            capsule_id,
                            title,
                            message,
                            locked_sol,
                            created_at: now,
                            unlock_at,
                            unlocked_at: None,
                            is_cancelled: false,
                            is_public,
                            capsule_type,
                            bump: capsule_bump,
                        }),
                    )
                    &&& final(self).global == (GlobalState {
                        total_capsules: (old(self).global.total_capsules + 1) as u64,
                        total_sol_locked: (old(self).global.total_sol_locked
                            + locked_sol) as u64,
                        ..old(self).global
                    })
                    &&& *final(creator_profile) == (UserProfile {
                        total_capsules_created: (old(creator_profile).total_capsules_created
                            + 1) as u32,
                        ..*old(creator_profile)
                    })
                    &&& *final(recipient_profile) == (UserProfile {
                        total_capsules_received: (old(recipient_profile).total_capsules_received
                            + 1) as u32,
                        ..*old(recipient_profile)
                    })
                },
            }),
    {
        let r = ops::create_time_capsule(
            creator,
            creator_lamports,
            capsule_id,
            title,
            message,
            unlock_at,
            locked_sol,
            is_public,
            capsule_type,
            now,
            capsule_address,
            capsule_bump,
            vault_bump,
            creator_profile,
            recipient_profile,
            &mut self.global,
        );
        match r {
            Ok((capsule, vault)) => {
                proof {
                    lemma_locked_sum_push(self.capsules@, capsule);
                }
                self.capsules.push(capsule);
                Ok(vault)
            },
            Err(e) => Err(e),
        }
    }

    /// Unlocks the capsule at `i` through `ops::unlock_time_capsule`. The
    /// invariant supplies the subtraction's safety: a live record's lock
    /// never exceeds the running total.
    pub fn unlock_capsule(&mut self, i: usize, caller: Address, now: i64) -> (r: Result<
        ops::UnlockPayout,
        RotorError,
    >)
        requires
            old(self).wf(),
            i < old(self).capsules@.len(),
            old(self).global.total_unlocked < u64::MAX,
        ensures
            final(self).wf(),
            (match ops::unlock_check(old(self).capsules@[i as int], caller, now) {
                Err(e) => {
                    &&& r == Err::<ops::UnlockPayout, RotorError>(e)
                    &&& final(self).global == old(self).global
                    &&& final(self).capsules@ == old(self).capsules@
                },
                Ok(()) => {
                    &&& r matches Ok(pay)
                    &&& pay.to_fee_wallet == ops::fee_of(
                        old(self).capsules@[i as int].locked_sol,
                        old(self).global.platform_fee_bps,
                    )
                    &&& pay.to_fee_wallet + pay.to_recipient == old(
                        self,
                    ).capsules@[i as int].locked_sol
                    &&& final(self).capsules@ == old(self).capsules@.update(
                        i as int,
                        ops::unlock_apply(old(self).capsules@[i as int], now),
                    )
                    &&& final(self).global == (GlobalState {
                        total_unlocked: (old(self).global.total_unlocked + 1) as u64,
                        total_sol_locked: (old(self).global.total_sol_locked - old(
                            self,
                        ).capsules@[i as int].locked_sol) as u64,
                        ..old(self).global
                    })
                },
            }),
    {
        proof {
            lemma_locked_sum_element_bound(self.capsules@, i as int);
        }
        let ghost before = self.capsules@;
        let r = ops::unlock_time_capsule(caller, now, &mut self.capsules[i], &mut self.global);
        proof {
            lemma_locked_sum_update(before, i as int, self.capsules@[i as int]);
            assert(self.capsules@ =~= before.update(i as int, self.capsules@[i as int]));
            assert(before.update(i as int, before[i as int]) =~= before);
        }
        r
    }

    /// Reassigns the capsule at `i` through `ops::transfer_capsule_recipient`.
    /// Neither the lock nor the liveness of any record changes, so the total
    /// is untouched.
    pub fn transfer_recipient(
        &mut self,
        i: usize,
        caller: Address,
        new_recipient: Address,
        old_recipient_profile: &mut UserProfile,
        new_recipient_profile: &mut UserProfile,
    ) -> (r: Result<(), RotorError>)
        requires
            old(self).wf(),
            i < old(self).capsules@.len(),
            old(old_recipient_profile).owner == old(self).capsules@[i as int].recipient,
            old(new_recipient_profile).owner == new_recipient,
            ops::live_mutation_check(old(self).capsules@[i as int], caller) is Ok ==> old(
                new_recipient_profile,
            ).total_capsules_received < u32::MAX,
        ensures
            final(self).wf(),
            (match ops::live_mutation_check(old(self).capsules@[i as int], caller) {
                Err(e) => {
                    &&& r == Err::<(), RotorError>(e)
                    &&& final(self).global == old(self).global
                    &&& final(self).capsules@ == old(self).capsules@
                    &&& *final(old_recipient_profile) == *old(old_recipient_profile)
                    &&& *final(new_recipient_profile) == *old(new_recipient_profile)
                },
                Ok(()) => {
                    &&& r is Ok
                    &&& final(self).capsules@ == old(self).capsules@.update(
                        i as int,
                        ops::transfer_apply(old(self).capsules@[i as int], new_recipient),
                    )
                    &&& final(self).global == old(self).global
                    &&& *final(old_recipient_profile) == (UserProfile {
                        total_capsules_received: ops::floor_dec(
                            old(old_recipient_profile).total_capsules_received,
                        ),
                        ..*old(old_recipient_profile)
                    })
                    &&& *final(new_recipient_profile) == (UserProfile {
                        total_capsules_received: (old(
                            new_recipient_profile,
                        ).total_capsules_received + 1) as u32,
                        ..*old(new_recipient_profile)
                    })
                },
            }),
    {
        let ghost before = self.capsules@;
        let r = ops::transfer_capsule_recipient(
            caller,
            new_recipient,
            &mut self.capsules[i],
            old_recipient_profile,
            new_recipient_profile,
        );
        proof {
            lemma_locked_sum_update(before, i as int, self.capsules@[i as int]);
            assert(self.capsules@ =~= before.update(i as int, self.capsules@[i as int]));
            assert(before.update(i as int, before[i as int]) =~= before);
        }
        r
    }

    /// Cancels the capsule at `i` through `ops::cancel_time_capsule`. As in
    /// `unlock_capsule`, the invariant covers the subtraction.
    pub fn cancel_capsule(
        &mut self,
        i: usize,
        caller: Address,
        recipient_profile: &mut UserProfile,
    ) -> (r: Result<u64, RotorError>)
        requires
            old(self).wf(),
            i < old(self).capsules@.len(),
            old(recipient_profile).owner == old(self).capsules@[i as int].recipient,
        ensures
            final(self).wf(),
            (match ops::live_mutation_check(old(self).capsules@[i as int], caller) {
                Err(e) => {
                    &&& r == Err::<u64, RotorError>(e)
                    &&& final(self).global == old(self).global
                    &&& final(self).capsules@ == old(self).capsules@
                    &&& *final(recipient_profile) == *old(recipient_profile)
                },
                Ok(()) => {
                    &&& r == Ok::<u64, RotorError>(old(self).capsules@[i as int].locked_sol)
                    &&& final(self).capsules@ == old(self).capsules@.update(
                        i as int,
                        ops::cancel_apply(old(self).capsules@[i as int]),
                    )
                    &&& final(self).global == (GlobalState {
                        total_sol_locked: (old(self).global.total_sol_locked - old(
                            self,
                        ).capsules@[i as int].locked_sol) as u64,
                        ..old(self).global
                    })
                    &&& *final(recipient_profile) == (UserProfile {
                        total_capsules_received: ops::floor_dec(
                            old(recipient_profile).total_capsules_received,
                        ),
                        ..*old(recipient_profile)
                    })
                },
            }),
    {
        proof {
            lemma_locked_sum_element_bound(self.capsules@, i as int);
        }
        let ghost before = self.capsules@;
        let r = ops::cancel_time_capsule(
            caller,
            &mut self.capsules[i],
            recipient_profile,
            &mut self.global,
        );
        proof {
            lemma_locked_sum_update(before, i as int, self.capsules@[i as int]);
            assert(self.capsules@ =~= before.update(i as int, self.capsules@[i as int]));
            assert(before.update(i as int, before[i as int]) =~= before);
        }
        r
    }

    /// Tears down the capsule record at `i` once `ops::delete_time_capsule`
    /// approves it. A deletable record is unlocked or cancelled, so it
    /// contributed nothing and the total is untouched.
    pub fn delete_capsule(&mut self, i: usize, caller: Address) -> (r: Result<(), RotorError>)
        requires
            old(self).wf(),
            i < old(self).capsules@.len(),
        ensures
            final(self).wf(),
            (match ops::delete_check(old(self).capsules@[i as int], caller) {
                Err(e) => {
                    &&& r == Err::<(), RotorError>(e)
                    &&& *final(self) == *old(self)
                },
                Ok(()) => {
                    &&& r is Ok
                    &&& final(self).capsules@ == old(self).capsules@.remove(i as int)
                    &&& final(self).global == old(self).global
                },
            }),
    {
        let r = ops::delete_time_capsule(caller, &self.capsules[i]);
        match r {
            Ok(()) => {
                proof {
                    lemma_locked_sum_remove(self.capsules@, i as int);
                }
                self.capsules.remove(i);
                Ok(())
            },
            Err(e) => Err(e),
        }
    }
}

} // verus!
