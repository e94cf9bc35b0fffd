use rotor::ops::cancel_time_capsule;
use rotor::ops::create_time_capsule;
use rotor::ops::delete_time_capsule;
use rotor::ops::initialize_global_state;
use rotor::ops::initialize_user_profile;
use rotor::ops::transfer_capsule_recipient;
use rotor::ops::unlock_time_capsule;
use rotor::state::Address;
use rotor::state::CapsuleType;
use rotor::state::CapsuleVault;
use rotor::state::GlobalState;
use rotor::state::RotorError;
use rotor::state::TimeCapsule;
use rotor::state::UserProfile;

fn addr(n: u64) -> Address {
    Address { w0: n, w1: 0, w2: 0, w3: 0 }
}

const CREATOR: u64 = 1;
const RECIPIENT: u64 = 2;
const ADMIN: u64 = 3;
const FEE_WALLET: u64 = 4;
const NOW: i64 = 1_700_000_000;

fn profile(owner: u64) -> UserProfile {
    initialize_user_profile(addr(owner), format!("user{owner}"), NOW, 1).unwrap()
}

fn global(fee_bps: u16) -> GlobalState {
    initialize_global_state(addr(ADMIN), addr(FEE_WALLET), fee_bps, 1)
}

/// Creates a capsule locking `locked_sol` that unlocks one hour from NOW.
fn make_capsule(
    locked_sol: u64,
    creator_profile: &mut UserProfile,
    recipient_profile: &mut UserProfile,
    global_state: &mut GlobalState,
) -> (TimeCapsule, CapsuleVault) {
    create_time_capsule(
        addr(CREATOR),
        locked_sol,
        42,
        "title".to_string(),
        "message".to_string(),
        NOW + 3600,
        locked_sol,
        true,
        CapsuleType::Personal,
        NOW,
        addr(100),
        5,
        6,
        creator_profile,
        recipient_profile,
        global_state,
    )
    .expect("valid capsule")
}

#[test]
fn create_fills_record_and_counters() {
    let mut pc = profile(CREATOR);
    let mut pr = profile(RECIPIENT);
    let mut g = global(250);
    let (c, v) = make_capsule(1_000_000, &mut pc, &mut pr, &mut g);
    assert_eq!(c.creator, addr(CREATOR));
    assert_eq!(c.recipient, addr(RECIPIENT));
    assert_eq!(c.capsule_id, 42);
    assert_eq!(c.title, "title");
    assert_eq!(c.message, "message");
    assert_eq!(c.locked_sol, 1_000_000);
    assert_eq!(c.created_at, NOW);
    assert_eq!(c.unlock_at, NOW + 3600);
    assert_eq!(c.unlocked_at, None);
    assert!(!c.is_cancelled);
    assert!(c.is_public);
    assert_eq!(c.capsule_type, CapsuleType::Personal);
    assert_eq!(v.capsule, addr(100));
    assert_eq!(pc.total_capsules_created, 1);
    assert_eq!(pr.total_capsules_received, 1);
    assert_eq!(g.total_capsules, 1);
    assert_eq!(g.total_sol_locked, 1_000_000);
}

#[test]
fn create_rejects_long_title() {
    let mut pc = profile(CREATOR);
    let mut pr = profile(RECIPIENT);
    let mut g = global(250);
    let r = create_time_capsule(
        addr(CREATOR),
        0,
        1,
        "t".repeat(65),
        "m".to_string(),
        NOW + 1,
        0,
        false,
        CapsuleType::Gift,
        NOW,
        addr(100),
        5,
        6,
        &mut pc,
        &mut pr,
        &mut g,
    );
    assert_eq!(r, Err(RotorError::TitleTooLong));
    assert_eq!(pc.total_capsules_created, 0);
    assert_eq!(g.total_capsules, 0);
}

#[test]
fn create_rejects_long_message() {
    let mut pc = profile(CREATOR);
    let mut pr = profile(RECIPIENT);
    let mut g = global(250);
    let r = create_time_capsule(
        addr(CREATOR),
        0,
        1,
        "t".to_string(),
        "m".repeat(281),
        NOW + 1,
        0,
        false,
        CapsuleType::Collective,
        NOW,
        addr(100),
        5,
        6,
        &mut pc,
        &mut pr,
        &mut g,
    );
    assert_eq!(r, Err(RotorError::MessageTooLong));
}

#[test]
fn create_rejects_unlock_in_the_past() {
    let mut pc = profile(CREATOR);
    let mut pr = profile(RECIPIENT);
    let mut g = global(250);
    let r = create_time_capsule(
        addr(CREATOR),
        0,
        1,
        "t".to_string(),
        "m".to_string(),
        NOW - 1,
        0,
        false,
        CapsuleType::Legacy,
        NOW,
        addr(100),
        5,
        6,
        &mut pc,
        &mut pr,
        &mut g,
    );
    assert_eq!(r, Err(RotorError::InvalidUnlockDate));
}

#[test]
fn create_rejects_uncovered_lock() {
    let mut pc = profile(CREATOR);
    let mut pr = profile(RECIPIENT);
    let mut g = global(250);
    let r = create_time_capsule(
        addr(CREATOR),
        999,
        1,
        "t".to_string(),
        "m".to_string(),
        NOW + 1,
        1000,
        false,
        CapsuleType::Personal,
        NOW,
        addr(100),
        5,
        6,
        &mut pc,
        &mut pr,
        &mut g,
    );
    assert_eq!(r, Err(RotorError::InsufficientFunds));
}

#[test]
fn create_rejects_foreign_profile() {
    let mut pc = profile(RECIPIENT);
    let mut pr = profile(RECIPIENT);
    let mut g = global(250);
    let r = create_time_capsule(
        addr(CREATOR),
        0,
        1,
        "t".to_string(),
        "m".to_string(),
        NOW + 1,
        0,
        false,
        CapsuleType::Personal,
        NOW,
        addr(100),
        5,
        6,
        &mut pc,
        &mut pr,
        &mut g,
    );
    assert_eq!(r, Err(RotorError::Unauthorized));
}

#[test]
fn unlock_splits_the_lock_between_fee_wallet_and_recipient() {
    let mut pc = profile(CREATOR);
    let mut pr = profile(RECIPIENT);
    let mut g = global(250);
    let (mut c, _v) = make_capsule(1_000_000, &mut pc, &mut pr, &mut g);
    let pay = unlock_time_capsule(addr(RECIPIENT), NOW + 3600, &mut c, &mut g).unwrap();
    assert_eq!(pay.to_fee_wallet, 25_000);
    assert_eq!(pay.to_recipient, 975_000);
    assert_eq!(pay.to_fee_wallet + pay.to_recipient, 1_000_000);
    assert_eq!(c.unlocked_at, Some(NOW + 3600));
    assert_eq!(g.total_unlocked, 1);
    assert_eq!(g.total_sol_locked, 0);
}

#[test]
fn unlock_before_deadline_fails_and_changes_nothing() {
    let mut pc = profile(CREATOR);
    let mut pr = profile(RECIPIENT);
    let mut g = global(250);
    let (mut c, _v) = make_capsule(500, &mut pc, &mut pr, &mut g);
    let before_c = c.clone();
    let before_g = g;
    let r = unlock_time_capsule(addr(RECIPIENT), NOW + 3599, &mut c, &mut g);
    assert_eq!(r, Err(RotorError::CapsuleStillLocked));
    assert_eq!(c, before_c);
    assert_eq!(g, before_g);
}

#[test]
fn unlock_by_stranger_fails() {
    let mut pc = profile(CREATOR);
    let mut pr = profile(RECIPIENT);
    let mut g = global(250);
    let (mut c, _v) = make_capsule(500, &mut pc, &mut pr, &mut g);
    let r = unlock_time_capsule(addr(9), NOW + 3600, &mut c, &mut g);
    assert_eq!(r, Err(RotorError::Unauthorized));
    assert_eq!(c.unlocked_at, None);
}

#[test]
fn second_unlock_fails_as_already_unlocked() {
    let mut pc = profile(CREATOR);
    let mut pr = profile(RECIPIENT);
    let mut g = global(250);
    let (mut c, _v) = make_capsule(1_000_000, &mut pc, &mut pr, &mut g);
    assert!(unlock_time_capsule(addr(RECIPIENT), NOW + 3600, &mut c, &mut g).is_ok());
    let r = unlock_time_capsule(addr(RECIPIENT), NOW + 7200, &mut c, &mut g);
    assert_eq!(r, Err(RotorError::AlreadyUnlocked));
    assert_eq!(c.unlocked_at, Some(NOW + 3600));
    assert_eq!(g.total_unlocked, 1);
}

#[test]
fn unlock_with_zero_fee_rate_pays_everything_to_recipient() {
    let mut pc = profile(CREATOR);
    let mut pr = profile(RECIPIENT);
    let mut g = global(0);
    let (mut c, _v) = make_capsule(777, &mut pc, &mut pr, &mut g);
    let pay = unlock_time_capsule(addr(RECIPIENT), NOW + 3600, &mut c, &mut g).unwrap();
    assert_eq!(pay.to_fee_wallet, 0);
    assert_eq!(pay.to_recipient, 777);
}

#[test]
fn unlock_with_full_fee_rate_pays_everything_to_fee_wallet() {
    let mut pc = profile(CREATOR);
    let mut pr = profile(RECIPIENT);
    let mut g = global(10_000);
    let (mut c, _v) = make_capsule(777, &mut pc, &mut pr, &mut g);
    let pay = unlock_time_capsule(addr(RECIPIENT), NOW + 3600, &mut c, &mut g).unwrap();
    assert_eq!(pay.to_fee_wallet, 777);
    assert_eq!(pay.to_recipient, 0);
}

#[test]
fn fee_is_floored() {
    let mut pc = profile(CREATOR);
    let mut pr = profile(RECIPIENT);
    let mut g = global(250);
    // floor(999 * 250 / 10000) = floor(24.975) = 24
    let (mut c, _v) = make_capsule(999, &mut pc, &mut pr, &mut g);
    let pay = unlock_time_capsule(addr(RECIPIENT), NOW + 3600, &mut c, &mut g).unwrap();
    assert_eq!(pay.to_fee_wallet, 24);
    assert_eq!(pay.to_recipient, 975);
}

#[test]
fn unlock_of_the_largest_lock_does_not_overflow() {
    let mut pc = profile(CREATOR);
    let mut pr = profile(RECIPIENT);
    let mut g = global(10_000);
    let (mut c, _v) = make_capsule(u64::MAX, &mut pc, &mut pr, &mut g);
    assert_eq!(g.total_sol_locked, u64::MAX);
    let pay = unlock_time_capsule(addr(RECIPIENT), NOW + 3600, &mut c, &mut g).unwrap();
    assert_eq!(pay.to_fee_wallet, u64::MAX);
    assert_eq!(pay.to_recipient, 0);
    assert_eq!(g.total_sol_locked, 0);
}

#[test]
fn transfer_rewrites_recipient_and_adjusts_counters() {
    let mut pc = profile(CREATOR);
    let mut pr = profile(RECIPIENT);
    let mut g = global(250);
    let (mut c, _v) = make_capsule(500, &mut pc, &mut pr, &mut g);
    let mut pn = profile(7);
    let r = transfer_capsule_recipient(addr(CREATOR), addr(7), &mut c, &mut pr, &mut pn);
    assert_eq!(r, Ok(()));
    assert_eq!(c.recipient, addr(7));
    assert_eq!(pr.total_capsules_received, 0);
    assert_eq!(pn.total_capsules_received, 1);
}

#[test]
fn transfer_floors_the_old_counter_at_zero() {
    let mut pc = profile(CREATOR);
    let mut pr = profile(RECIPIENT);
    let mut g = global(250);
    let (mut c, _v) = make_capsule(500, &mut pc, &mut pr, &mut g);
    // An already inconsistent old-recipient counter must not underflow.
    pr.total_capsules_received = 0;
    let mut pn = profile(7);
    let r = transfer_capsule_recipient(addr(CREATOR), addr(7), &mut c, &mut pr, &mut pn);
    assert_eq!(r, Ok(()));
    assert_eq!(pr.total_capsules_received, 0);
    assert_eq!(pn.total_capsules_received, 1);
}

#[test]
fn transfer_by_stranger_fails() {
    let mut pc = profile(CREATOR);
    let mut pr = profile(RECIPIENT);
    let mut g = global(250);
    let (mut c, _v) = make_capsule(500, &mut pc, &mut pr, &mut g);
    let mut pn = profile(7);
    let r = transfer_capsule_recipient(addr(RECIPIENT), addr(7), &mut c, &mut pr, &mut pn);
    assert_eq!(r, Err(RotorError::Unauthorized));
    assert_eq!(c.recipient, addr(RECIPIENT));
}

#[test]
fn cancel_refunds_the_full_lock_without_fee() {
    let mut pc = profile(CREATOR);
    let mut pr = profile(RECIPIENT);
    let mut g = global(250);
    let (mut c, _v) = make_capsule(1_000_000, &mut pc, &mut pr, &mut g);
    let refund = cancel_time_capsule(addr(CREATOR), &mut c, &mut pr, &mut g).unwrap();
    assert_eq!(refund, 1_000_000);
    assert!(c.is_cancelled);
    assert_eq!(g.total_sol_locked, 0);
    assert_eq!(pr.total_capsules_received, 0);
}

#[test]
fn cancel_then_unlock_fails_and_vice_versa() {
    let mut pc = profile(CREATOR);
    let mut pr = profile(RECIPIENT);
    let mut g = global(250);

    let (mut c1, _v) = make_capsule(500, &mut pc, &mut pr, &mut g);
    cancel_time_capsule(addr(CREATOR), &mut c1, &mut pr, &mut g).unwrap();
    let r = unlock_time_capsule(addr(RECIPIENT), NOW + 3600, &mut c1, &mut g);
    assert_eq!(r, Err(RotorError::CapsuleCancelled));

    let (mut c2, _v) = make_capsule(500, &mut pc, &mut pr, &mut g);
    unlock_time_capsule(addr(RECIPIENT), NOW + 3600, &mut c2, &mut g).unwrap();
    let r = cancel_time_capsule(addr(CREATOR), &mut c2, &mut pr, &mut g);
    assert_eq!(r, Err(RotorError::AlreadyUnlocked));
    let r = transfer_capsule_recipient(
        addr(CREATOR),
        addr(7),
        &mut c2,
        &mut pr,
        &mut profile(7),
    );
    assert_eq!(r, Err(RotorError::AlreadyUnlocked));
}

#[test]
fn delete_fails_while_the_capsule_is_live() {
    let mut pc = profile(CREATOR);
    let mut pr = profile(RECIPIENT);
    let mut g = global(250);
    let (c, _v) = make_capsule(500, &mut pc, &mut pr, &mut g);
    let r = delete_time_capsule(addr(CREATOR), &c);
    assert_eq!(r, Err(RotorError::CapsuleStillLocked));
}

#[test]
fn delete_succeeds_once_resolved() {
    let mut pc = profile(CREATOR);
    let mut pr = profile(RECIPIENT);
    let mut g = global(250);

    let (mut c1, _v) = make_capsule(500, &mut pc, &mut pr, &mut g);
    cancel_time_capsule(addr(CREATOR), &mut c1, &mut pr, &mut g).unwrap();
    assert_eq!(delete_time_capsule(addr(CREATOR), &c1), Ok(()));

    let (mut c2, _v) = make_capsule(500, &mut pc, &mut pr, &mut g);
    unlock_time_capsule(addr(RECIPIENT), NOW + 3600, &mut c2, &mut g).unwrap();
    assert_eq!(delete_time_capsule(addr(CREATOR), &c2), Ok(()));
}

#[test]
fn delete_by_stranger_fails() {
    let mut pc = profile(CREATOR);
    let mut pr = profile(RECIPIENT);
    let mut g = global(250);
    let (mut c, _v) = make_capsule(500, &mut pc, &mut pr, &mut g);
    cancel_time_capsule(addr(CREATOR), &mut c, &mut pr, &mut g).unwrap();
    assert_eq!(
        delete_time_capsule(addr(RECIPIENT), &c),
        Err(RotorError::Unauthorized)
    );
}
