//! An escrow and time-lock service: a creator locks a message and an optional
//! amount of native coin into a capsule that a designated recipient may only
//! claim after a future timestamp, paying a platform fee on release.
//!
//! The library holds the complete account model and the state-transition
//! operations that create, unlock, reassign, cancel, and delete capsules,
//! together with the platform-wide counters and per-user profiles they
//! maintain. The hosting ledger (account loading, coin movement, atomic
//! commit) stays outside; every operation here is a pure transition on the
//! loaded account values, with its contract stating exactly when it succeeds,
//! which error it returns otherwise, and how each account changes.

pub mod address;
pub mod laws;
pub mod ops;
pub mod platform;
pub mod state;
