use vstd::prelude::*;
use crate::schema::state::AccountId;

verus! {

/// Domain-separation label of the custody authority, the keyless signer for
/// freeze and thaw.
pub const CUSTODY_LABEL: u64 = 1;

/// Domain-separation label of the mint authority, the keyless signer for
/// reward minting.
pub const MINT_LABEL: u64 = 2;

/// Domain-separation label under which stake-record keys are derived.
pub const RECORD_LABEL: u64 = 3;

/// Multiplier of the 64-bit mixing fold behind every derivation here.
pub const MIX_MULTIPLIER: u64 = 6364136223846793005;

/// Weight of the bump byte in the mixing fold. It is odd, so stepping the
/// bump always flips the parity of the derived identity.
pub const MIX_BUMP_FACTOR: u64 = 1442695040888963407;

/// The identity derived from a base and a bump: a deterministic 64-bit mix,
/// the model's stand-in for the host's address derivation. The base is a
/// domain-separation label, or the folded base of a record key. The result
/// holds no secret; anyone can recompute it, and no one holds a key for it.
pub open spec fn spec_derived(base: u64, bump: u8) -> u64 {
    (((base * MIX_MULTIPLIER) + (bump * MIX_BUMP_FACTOR)) % 0x1_0000_0000_0000_0000) as u64
}

/// Whether an identity sits in the keyless half of the address space. In
/// this model the space is split by parity: even identities stand for
/// ordinary key-holding accounts, odd ones can never hold assets. A derived
/// identity must land in the keyless half, so that it cannot double as an
/// asset-holding address.
pub open spec fn spec_keyless(id: u64) -> bool {
    id % 2 == 1
}

/// The greatest bump at or below `from` whose derived identity is keyless.
pub open spec fn spec_find_bump(base: u64, from: int) -> Option<u8>
    decreases from + 1,
{
    if from < 0 {
        None
    } else if spec_keyless(spec_derived(base, from as u8)) {
        Some(from as u8)
    } else {
        spec_find_bump(base, from - 1)
    }
}

/// The canonical bump of a base: the greatest bump, searched downward from
/// 255, whose derived identity is keyless.
pub open spec fn spec_canonical_bump(base: u64) -> Option<u8> {
    spec_find_bump(base, 255)
}

/// One step of the record-key fold: the accumulator mixed with the next
/// seed word.
pub open spec fn spec_fold_word(acc: u64, word: u64) -> u64 {
    ((acc * MIX_MULTIPLIER + word) % 0x1_0000_0000_0000_0000) as u64
}

/// The derivation base of the stake record for an (owner, asset) pair: the
/// record label folded with the eight words of the two identities, in a
/// fixed role order. The key is derivable by anyone from the identities
/// alone, so records need no separate index to be found.
pub open spec fn spec_record_base(user: AccountId, token_account: AccountId) -> u64 {
    spec_fold_word(spec_fold_word(spec_fold_word(spec_fold_word(
    spec_fold_word(spec_fold_word(spec_fold_word(spec_fold_word(
        RECORD_LABEL,
        user.w0), user.w1), user.w2), user.w3),
        token_account.w0), token_account.w1), token_account.w2), token_account.w3)
}

/// Computes the identity derived from a base and a bump.
pub fn derived_id(base: u64, bump: u8) -> (id: u64)
    ensures
        id == spec_derived(base, bump),
{
    proof {
        vstd::arithmetic::mul::lemma_mul_inequality(
            base as int,
            u64::MAX as int,
            MIX_MULTIPLIER as int,
        );
        vstd::arithmetic::mul::lemma_mul_inequality(
            bump as int,
            u8::MAX as int,
            MIX_BUMP_FACTOR as int,
        );
    }
    let wide: u128 = (base as u128) * (MIX_MULTIPLIER as u128)
        + (bump as u128) * (MIX_BUMP_FACTOR as u128);
    (wide % 0x1_0000_0000_0000_0000u128) as u64
}

/// Computes one step of the record-key fold.
fn fold_word(acc: u64, word: u64) -> (r: u64)
    ensures
        r == spec_fold_word(acc, word),
{
    proof {
        vstd::arithmetic::mul::lemma_mul_inequality(
            acc as int,
            u64::MAX as int,
            MIX_MULTIPLIER as int,
        );
    }
    let wide: u128 = (acc as u128) * (MIX_MULTIPLIER as u128) + (word as u128);
    (wide % 0x1_0000_0000_0000_0000u128) as u64
}

/// The derivation base of an (owner, asset) record key. Handing it to
/// `derive_authority` and `check_authority` yields and verifies the
/// record's address and bump, exactly as for the two signer labels.
pub fn record_base(user: AccountId, token_account: AccountId) -> (base: u64)
    ensures
        base == spec_record_base(user, token_account),
{
    let mut acc: u64 = fold_word(RECORD_LABEL, user.w0);
    acc = fold_word(acc, user.w1);
    acc = fold_word(acc, user.w2);
    acc = fold_word(acc, user.w3);
    acc = fold_word(acc, token_account.w0);
    acc = fold_word(acc, token_account.w1);
    acc = fold_word(acc, token_account.w2);
    acc = fold_word(acc, token_account.w3);
    acc
}

/// Every base has a canonical bump: the bump weight is odd, so stepping the
/// bump from 254 to 255 flips the parity of the derived identity, and one
/// of the two topmost candidates is always keyless.
pub proof fn lemma_canonical_bump_exists(base: u64)
    ensures
        spec_canonical_bump(base) is Some,
{
    let half: int = 0x8000_0000_0000_0000;
    let y254: int = base * MIX_MULTIPLIER + 254 * MIX_BUMP_FACTOR;
    let y255: int = base * MIX_MULTIPLIER + 255 * MIX_BUMP_FACTOR;
    vstd::arithmetic::div_mod::lemma_mod_mod(y254, 2, half);
    vstd::arithmetic::div_mod::lemma_mod_mod(y255, 2, half);
    vstd::arithmetic::div_mod::lemma_add_mod_noop(y254, MIX_BUMP_FACTOR as int, 2);
    assert(2 * half == 0x1_0000_0000_0000_0000);
    assert(spec_derived(base, 255) % 2 == y255 % 2);
    assert(spec_derived(base, 254) % 2 == y254 % 2);
    assert(y255 == y254 + MIX_BUMP_FACTOR);
    if y254 % 2 == 0 {
        assert(y255 % 2 == 1);
        assert(spec_keyless(spec_derived(base, 255)));
    } else {
        assert(spec_keyless(spec_derived(base, 254)));
        assert(spec_find_bump(base, 254) is Some);
    }
}

/// Derives the keyless identity for a base: the canonical bump and the
/// identity it yields, found by searching the bump downward from 255 for
/// the first keyless candidate. The search always succeeds: one of the two
/// topmost bumps is keyless.
pub fn derive_authority(base: u64) -> (res: Option<(u64, u8)>)
    ensures
        res is Some,
        (res matches Some((id, bump)) ==> {
            &&& spec_canonical_bump(base) == Some(bump)
            &&& id == spec_derived(base, bump)
            &&& spec_keyless(id)
        }),
{
    let mut candidate: i32 = 255;
    while candidate >= 0
        invariant
            candidate <= 255,
            spec_canonical_bump(base) == spec_find_bump(base, candidate as int),
        decreases candidate + 1,
    {
        let bump: u8 = candidate as u8;
        let id: u64 = derived_id(base, bump);
        if id % 2 == 1 {
            return Some((id, bump));
        }
        candidate = candidate - 1;
    }
    proof {
        lemma_canonical_bump_exists(base);
    }
    None
}

/// Verifies a claimed (identity, bump) pair for a base by recomputing the
/// derivation and comparing both parts. Callers must never trust a supplied
/// pair directly: a wrong bump would let a caller pass off an unrelated
/// derived identity as an authority.
pub fn check_authority(base: u64, id: u64, bump: u8) -> (ok: bool)
    ensures
        ok <==> (spec_canonical_bump(base) == Some(bump) && id == spec_derived(base, bump)),
{
    match derive_authority(base) {
        Some((derived, canonical)) => derived == id && canonical == bump,
        None => false,
    }
}

} // verus!
