//! Deterministic derivation of sub-account identifiers.
//!
//! Every keyed record lives at an address computed from a domain tag and the
//! identity or numeric components that key it, plus a disambiguating nonce
//! (the "bump"). The derivation is a pure hash-and-probe: candidate
//! identifiers are generated for bumps from 255 downward, and the first one
//! outside the signer domain — the set of identifiers an externally held key
//! could control — is taken, so only program logic can authorize mutation at
//! a derived address. The same inputs always yield the same identifier and
//! bump, because the result equals a spec function of the inputs alone. If
//! every candidate lands in the signer domain the search fails, and the
//! caller must surface that as a fatal initialization error.

use vstd::prelude::*;

use crate::state::Address;

verus! {

/// Hash seed for the mixing function.
pub const MIX_OFFSET: u64 = 0xcbf29ce484222325;

/// Multiplier of the mixing function.
pub const MIX_PRIME: u64 = 0x100000001b3;

/// Domain tag keying user profiles: f(tag, owner identity).
pub const TAG_USER_PROFILE: u8 = 1;

/// Domain tag keying the platform singleton: f(tag).
pub const TAG_GLOBAL_STATE: u8 = 2;

/// Domain tag keying capsules: f(tag, creator identity, sequence number).
pub const TAG_TIME_CAPSULE: u8 = 3;

/// Domain tag keying vaults: f(tag, capsule address).
pub const TAG_CAPSULE_VAULT: u8 = 4;

/// One mixing step: fold a word into the running hash.
pub open spec fn mix64_s(h: u64, x: u64) -> u64 {
    ((((h ^ x) as nat) * (MIX_PRIME as nat)) % 0x10000000000000000) as u64
}

fn mix64(h: u64, x: u64) -> (r: u64)
    ensures
        r == mix64_s(h, x),
{
    let folded: u64 = h ^ x;
    proof {
        assert((folded as u128) * (MIX_PRIME as u128) <= 0xffffffffffffffffu128 * 0x100000001b3u128)
            by (nonlinear_arith)
            requires
                folded <= 0xffffffffffffffffu128,
        ;
    }
    let wide: u128 = (folded as u128) * (MIX_PRIME as u128);
    (wide % 0x10000000000000000u128) as u64
}

/// The hash after folding in the first `n` components.
pub open spec fn mix_parts(h: u64, parts: Seq<u64>, n: int) -> u64
    decreases n,
{
    if n <= 0 {
        h
    } else {
        mix64_s(mix_parts(h, parts, n - 1), parts[n - 1])
    }
}

/// One 64-bit lane of a candidate identifier: the lane index, the domain
/// tag, the components and the bump, folded in that order.
pub open spec fn lane_hash(tag: u8, parts: Seq<u64>, bump: u8, lane: u64) -> u64 {
    mix64_s(
        mix_parts(mix64_s(mix64_s(MIX_OFFSET, lane), tag as u64), parts, parts.len() as int),
        bump as u64,
    )
}

/// The candidate identifier generated for a given bump.
pub open spec fn candidate_address(tag: u8, parts: Seq<u64>, bump: u8) -> Address {
    Address {
        w0: lane_hash(tag, parts, bump, 0),
        w1: lane_hash(tag, parts, bump, 1),
        w2: lane_hash(tag, parts, bump, 2),
        w3: lane_hash(tag, parts, bump, 3),
    }
}

/// The identifiers an externally held private key could control: in this
/// model, those whose first word is odd. A derived address must avoid them,
/// so that no key holder can independently authorize writes at it.
pub open spec fn in_signer_domain(a: Address) -> bool {
    a.w0 % 2 == 1
}

/// The probe: the first bump at or below `bump` whose candidate lies outside
/// the signer domain, with that candidate; `None` when the whole search
/// space below is exhausted.
pub open spec fn find_from(tag: u8, parts: Seq<u64>, bump: int) -> Option<(Address, u8)>
    decreases bump + 1,
{
    if bump < 0 {
        None
    } else if !in_signer_domain(candidate_address(tag, parts, bump as u8)) {
        Some((candidate_address(tag, parts, bump as u8), bump as u8))
    } else {
        find_from(tag, parts, bump - 1)
    }
}

/// What derivation returns for a tag and components: the probe started at
/// bump 255.
pub open spec fn derived_address(tag: u8, parts: Seq<u64>) -> Option<(Address, u8)> {
    find_from(tag, parts, 255)
}

/// Whatever the probe returns lies outside the signer domain.
pub proof fn lemma_derived_address_off_domain(tag: u8, parts: Seq<u64>, bump: int)
    ensures
        find_from(tag, parts, bump) matches Some(found) ==> !in_signer_domain(found.0),
    decreases bump + 1,
{
    if bump >= 0 && in_signer_domain(candidate_address(tag, parts, bump as u8)) {
        lemma_derived_address_off_domain(tag, parts, bump - 1);
    }
}

fn lane_hash_exec(tag: u8, parts: &Vec<u64>, bump: u8, lane: u64) -> (r: u64)
    ensures
        r == lane_hash(tag, parts@, bump, lane),
{
    let start: u64 = mix64(mix64(MIX_OFFSET, lane), tag as u64);
    let mut h: u64 = start;
    let mut i: usize = 0;
    while i < parts.len()
        invariant
            i <= parts@.len(),
            h == mix_parts(start, parts@, i as int),
        decreases parts@.len() - i,
    {
        h = mix64(h, parts[i]);
        i = i + 1;
    }
    mix64(h, bump as u64)
}

fn candidate_address_exec(tag: u8, parts: &Vec<u64>, bump: u8) -> (r: Address)
    ensures
        r == candidate_address(tag, parts@, bump),
{
    Address {
        w0: lane_hash_exec(tag, parts, bump, 0),
        w1: lane_hash_exec(tag, parts, bump, 1),
        w2: lane_hash_exec(tag, parts, bump, 2),
        w3: lane_hash_exec(tag, parts, bump, 3),
    }
}

/// Derives the sub-account identifier for a tag and components: the highest
/// bump in [0, 255] whose candidate avoids the signer domain, searched from
/// 255 downward. Returns `None` when no bump works — a fatal initialization
/// error for the caller, never silently retried under other inputs.
pub fn find_address(tag: u8, parts: &Vec<u64>) -> (r: Option<(Address, u8)>)
    ensures
        r == derived_address(tag, parts@),
        r matches Some(found) ==> !in_signer_domain(found.0),
{
    proof {
        lemma_derived_address_off_domain(tag, parts@, 255);
    }
    let mut remaining: u16 = 256;
    while remaining > 0
        invariant
            remaining <= 256,
            derived_address(tag, parts@) == find_from(tag, parts@, remaining as int - 1),
        decreases remaining,
    {
        let bump: u8 = (remaining - 1) as u8;
        let candidate = candidate_address_exec(tag, parts, bump);
        if candidate.w0 % 2 == 0 {
            return Some((candidate, bump));
        }
        remaining = remaining - 1;
    }
    None
}

/// A 256-bit identifier as the component words derivation folds in.
pub open spec fn address_words(a: Address) -> Seq<u64> {
    seq![a.w0, a.w1, a.w2, a.w3]
}

fn push_address_words(parts: &mut Vec<u64>, a: &Address)
    ensures
        final(parts)@ == old(parts)@ + address_words(*a),
{
    parts.push(a.w0);
    parts.push(a.w1);
    parts.push(a.w2);
    parts.push(a.w3);
    proof {
        assert(parts@ =~= old(parts)@ + address_words(*a));
    }
}

/// Address of the profile keyed by `owner`.
pub fn user_profile_address(owner: &Address) -> (r: Option<(Address, u8)>)
    ensures
        r == derived_address(TAG_USER_PROFILE, address_words(*owner)),
{
    let mut parts: Vec<u64> = Vec::new();
    push_address_words(&mut parts, owner);
    proof {
        assert(parts@ =~= address_words(*owner));
    }
    find_address(TAG_USER_PROFILE, &parts)
}

/// Address of the platform singleton.
pub fn global_state_address() -> (r: Option<(Address, u8)>)
    ensures
        r == derived_address(TAG_GLOBAL_STATE, Seq::empty()),
{
    let parts: Vec<u64> = Vec::new();
    proof {
        assert(parts@ =~= Seq::<u64>::empty());
    }
    find_address(TAG_GLOBAL_STATE, &parts)
}

/// Address of the capsule keyed by its creator and sequence number;
/// uniqueness of that pair is what keeps capsule addresses distinct.
pub fn time_capsule_address(creator: &Address, capsule_id: u64) -> (r: Option<(Address, u8)>)
    ensures
        r == derived_address(TAG_TIME_CAPSULE, address_words(*creator).push(capsule_id)),
{
    let mut parts: Vec<u64> = Vec::new();
    push_address_words(&mut parts, creator);
    parts.push(capsule_id);
    proof {
        assert(parts@ =~= address_words(*creator).push(capsule_id));
    }
    find_address(TAG_TIME_CAPSULE, &parts)
}

/// Address of the vault custodying one capsule's escrow, keyed by the
/// capsule's own address.
pub fn capsule_vault_address(capsule: &Address) -> (r: Option<(Address, u8)>)
    ensures
        r == derived_address(TAG_CAPSULE_VAULT, address_words(*capsule)),
{
    let mut parts: Vec<u64> = Vec::new();
    push_address_words(&mut parts, capsule);
    proof {
        assert(parts@ =~= address_words(*capsule));
    }
    find_address(TAG_CAPSULE_VAULT, &parts)
}

} // verus!
