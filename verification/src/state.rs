//! The persisted account records: per-user profiles, the platform-wide
//! singleton, the capsule itself and its escrow vault, plus the error
//! taxonomy shared by every operation.

use vstd::prelude::*;

verus! {

/// Identifier of an account on the hosting ledger: 256 bits, held as four
/// 64-bit words. An identifier is either held by a participant or derived
/// by the service (see `address`); the operations only ever compare
/// identifiers for equality.
#[derive(Clone, Copy, PartialEq, Eq, Structural, Debug)]
pub struct Address {
    pub w0: u64,
    pub w1: u64,
    pub w2: u64,
    pub w3: u64,
}

/// Longest display name a profile may carry, in characters.
pub const MAX_USERNAME_CHARS: usize = 32;

/// Longest capsule title, in characters.
pub const MAX_TITLE_CHARS: usize = 64;

/// Longest capsule message, in characters.
pub const MAX_MESSAGE_CHARS: usize = 280;

/// Fee rates are measured in basis points; 10000 bps is 100%, and the
/// platform rate must never exceed it.
pub const MAX_FEE_BPS: u16 = 10000;

/// The category a creator files a capsule under.
#[derive(Clone, Copy, PartialEq, Eq, Structural, Debug)]
pub enum CapsuleType {
    Personal,
    Gift,
    Collective,
    Legacy,
}

/// Why an operation rejected its transaction. Every failure leaves all
/// accounts exactly as they were.
#[derive(Clone, Copy, PartialEq, Eq, Structural, Debug)]
pub enum RotorError {
    /// A display name longer than `MAX_USERNAME_CHARS`.
    UsernameTooLong,
    /// A capsule title longer than `MAX_TITLE_CHARS`.
    TitleTooLong,
    /// A capsule message longer than `MAX_MESSAGE_CHARS`.
    MessageTooLong,
    /// An unlock timestamp that does not lie in the future.
    InvalidUnlockDate,
    /// The capsule's unlock timestamp has not been reached, or a capsule
    /// that is neither unlocked nor cancelled was asked to be deleted.
    CapsuleStillLocked,
    /// The capsule was already unlocked.
    AlreadyUnlocked,
    /// The capsule was cancelled.
    CapsuleCancelled,
    /// The caller does not match the stored owner, creator or recipient.
    Unauthorized,
    /// The creator's spendable balance cannot cover the amount to lock.
    InsufficientFunds,
}

/// Per-participant statistics, one record per identity.
#[derive(Clone, Debug, PartialEq, Eq)]
pub struct UserProfile {
    pub owner: Address,
    pub username: String,
    pub total_capsules_created: u32,
    pub total_capsules_received: u32,
    pub created_at: i64,
    pub bump: u8,
}

/// The platform-wide singleton: admin and fee-wallet identities, the fee
/// rate, and running totals.
#[derive(Clone, Copy, PartialEq, Eq, Structural, Debug)]
pub struct GlobalState {
    pub admin: Address,
    pub total_capsules: u64,
    pub total_unlocked: u64,
    pub total_sol_locked: u64,
    pub fee_wallet: Address,
    pub platform_fee_bps: u16,
    pub bump: u8,
}

/// The core entity: who locked what for whom, until when, and how far its
/// lifecycle has progressed.
#[derive(Clone, Debug, PartialEq, Eq)]
pub struct TimeCapsule {
    pub creator: Address,
    pub recipient: Address,
    pub capsule_id: u64,
    pub title: String,
    pub message: String,
    pub locked_sol: u64,
    pub created_at: i64,
    pub unlock_at: i64,
    pub unlocked_at: Option<i64>,
    pub is_cancelled: bool,
    pub is_public: bool,
    pub capsule_type: CapsuleType,
    pub bump: u8,
}

/// The custodial record paired 1:1 with a capsule; on the ledger its account
/// holds exactly the capsule's locked balance plus its storage reserve.
#[derive(Clone, Copy, PartialEq, Eq, Structural, Debug)]
pub struct CapsuleVault {
    pub capsule: Address,
    pub bump: u8,
}

/// The fee rate stays within [0, 10000] basis points.
pub open spec fn global_state_wf(g: GlobalState) -> bool {
    g.platform_fee_bps <= MAX_FEE_BPS
}

/// A capsule still awaiting resolution: neither unlocked nor cancelled.
/// Only live capsules contribute to `GlobalState.total_sol_locked`.
pub open spec fn is_live(c: TimeCapsule) -> bool {
    c.unlocked_at is None && !c.is_cancelled
}

/// What creation establishes and every later operation preserves: the two
/// terminal flags are mutually exclusive, the deadline lies after creation,
/// and the texts respect their bounds.
pub open spec fn capsule_wf(c: TimeCapsule) -> bool {
    &&& !(c.unlocked_at is Some && c.is_cancelled)
    &&& c.unlock_at > c.created_at
    &&& c.title@.len() <= MAX_TITLE_CHARS
    &&& c.message@.len() <= MAX_MESSAGE_CHARS
}

} // verus!
