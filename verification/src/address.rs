//! The addresses that the program derives for its records and vaults.
//!
//! An address is derived from seeds and the program's own address. The
//! derivation searches for a bump seed and can, in principle, find none;
//! every function here then returns `None`.

use vstd::prelude::*;
use crate::state::{BondingCurveState, CreatorProfile, GlobalState, LaunchpadState, Pubkey};

verus! {

/// Address seed of a campaign's payment vault: the ASCII bytes of
/// `sol_vault`.
pub const SOL_VAULT_SEED: [u8; 9] = [115, 111, 108, 95, 118, 97, 117, 108, 116];

/// Address seed of a campaign's token vault: the ASCII bytes of
/// `token_vault`.
pub const TOKEN_VAULT_SEED: [u8; 11] = [116, 111, 107, 101, 110, 95, 118, 97, 117, 108, 116];

/// The program-derived address for the given seeds under the given program,
/// with its bump seed, as `Pubkey::try_find_program_address` of the Solana
/// SDK computes it; `None` where it finds none. The address is a hash of the
/// seeds, the bump seed and the program's address, for the highest bump seed
/// whose hash is not a point of the curve ed25519.
pub uninterp spec fn spec_program_address(seeds: Seq<Seq<u8>>, program_id: Seq<u8>) -> Option<
    (Seq<u8>, u8),
>;

/// The seeds as sequences of bytes.
pub open spec fn spec_seeds(seeds: Seq<Vec<u8>>) -> Seq<Seq<u8>> {
    Seq::new(seeds.len(), |i: int| seeds[i]@)
}

/// What a derivation returned stands for the named address.
pub open spec fn is_program_address(
    found: Option<(Pubkey, u8)>,
    seeds: Seq<Seq<u8>>,
    program_id: Pubkey,
) -> bool {
    match found {
        Some((address, bump)) => spec_program_address(seeds, program_id.bytes@) == Some(
            (address.bytes@, bump),
        ),
        None => spec_program_address(seeds, program_id.bytes@) is None,
    }
}

/// Calls `Pubkey::try_find_program_address` of the Solana SDK, as `anchor_lang`
/// hands it on, with the seeds in their order and the program's address. The
/// result is the named address of exactly these seeds and this program.
#[verifier::external_body]
fn try_find_program_address(seeds: &Vec<Vec<u8>>, program_id: &Pubkey) -> (found: Option<
    (Pubkey, u8),
>)
    ensures
        match found {
            Some((address, bump)) => spec_program_address(spec_seeds(seeds@), program_id.bytes@)
                == Some((address.bytes@, bump)),
            None => spec_program_address(spec_seeds(seeds@), program_id.bytes@) is None,
        },
{
    let parts: Vec<&[u8]> = seeds.iter().map(|seed| seed.as_slice()).collect();
    let program = anchor_lang::prelude::Pubkey::new_from_array(program_id.bytes);
    match anchor_lang::prelude::Pubkey::try_find_program_address(&parts, &program) {
        Some((address, bump)) => Some((Pubkey { bytes: address.to_bytes() }, bump)),
        None => None,
    }
}

/// Copies an array of bytes into a vector.
fn seed_of<const N: usize>(bytes: &[u8; N]) -> (seed: Vec<u8>)
    ensures
        seed@ == bytes@,
{
    let mut seed: Vec<u8> = Vec::new();
    let mut i: usize = 0;
    while i < N
        invariant
            i <= N,
            seed@ == bytes@.take(i as int),
        decreases N - i,
    {
        seed.push(bytes[i]);
        i += 1;
        assert(seed@ =~= bytes@.take(i as int));
    }
    assert(bytes@.take(N as int) =~= bytes@);
    seed
}

/// Derives the address for one seed.
fn find_with_one_seed<const N: usize>(tag: &[u8; N], program_id: &Pubkey) -> (found: Option<
    (Pubkey, u8),
>)
    ensures
        is_program_address(found, seq![tag@], *program_id),
{
    let mut seeds: Vec<Vec<u8>> = Vec::new();
    seeds.push(seed_of(tag));
    assert(spec_seeds(seeds@) =~= seq![tag@]);
    try_find_program_address(&seeds, program_id)
}

/// Derives the address for a tag and the address of another account.
fn find_with_two_seeds<const N: usize>(tag: &[u8; N], key: &Pubkey, program_id: &Pubkey) -> (found:
    Option<(Pubkey, u8)>)
    ensures
        is_program_address(found, seq![tag@, key.bytes@], *program_id),
{
    let mut seeds: Vec<Vec<u8>> = Vec::new();
    seeds.push(seed_of(tag));
    seeds.push(seed_of(&key.bytes));
    assert(spec_seeds(seeds@) =~= seq![tag@, key.bytes@]);
    try_find_program_address(&seeds, program_id)
}

/// Derives the address of the platform's configuration: the seed is
/// `global_state`.
pub fn find_global_state_pda(program_id: &Pubkey) -> (found: Option<(Pubkey, u8)>)
    ensures
        is_program_address(found, seq![GlobalState::SEEDS@], *program_id),
{
    find_with_one_seed(&GlobalState::SEEDS, program_id)
}

/// Derives the address of a campaign: the seeds are `launchpad` and the
/// address of the campaign's token.
pub fn find_launchpad_pda(mint: &Pubkey, program_id: &Pubkey) -> (found: Option<(Pubkey, u8)>)
    ensures
        is_program_address(found, seq![LaunchpadState::SEEDS@, mint.bytes@], *program_id),
{
    find_with_two_seeds(&LaunchpadState::SEEDS, mint, program_id)
}

/// Derives the address of a campaign's ledger: the seeds are `bonding_curve`
/// and the address of the campaign.
pub fn find_bonding_curve_pda(launchpad: &Pubkey, program_id: &Pubkey) -> (found: Option<
    (Pubkey, u8),
>)
    ensures
        is_program_address(found, seq![BondingCurveState::SEEDS@, launchpad.bytes@], *program_id),
{
    find_with_two_seeds(&BondingCurveState::SEEDS, launchpad, program_id)
}

/// Derives the address of a creator's profile: the seeds are
/// `creator_profile` and the address of the creator.
pub fn find_creator_profile_pda(creator: &Pubkey, program_id: &Pubkey) -> (found: Option<
    (Pubkey, u8),
>)
    ensures
        is_program_address(found, seq![CreatorProfile::SEEDS@, creator.bytes@], *program_id),
{
    find_with_two_seeds(&CreatorProfile::SEEDS, creator, program_id)
}

/// Derives the address of a campaign's payment vault: the seeds are
/// `sol_vault` and the address of the campaign.
pub fn find_sol_vault_pda(launchpad: &Pubkey, program_id: &Pubkey) -> (found: Option<(Pubkey, u8)>)
    ensures
        is_program_address(found, seq![SOL_VAULT_SEED@, launchpad.bytes@], *program_id),
{
    find_with_two_seeds(&SOL_VAULT_SEED, launchpad, program_id)
}

/// Derives the address of a campaign's token vault: the seeds are
/// `token_vault` and the address of the campaign.
pub fn find_token_vault_pda(launchpad: &Pubkey, program_id: &Pubkey) -> (found: Option<
    (Pubkey, u8),
>)
    ensures
        is_program_address(found, seq![TOKEN_VAULT_SEED@, launchpad.bytes@], *program_id),
{
    find_with_two_seeds(&TOKEN_VAULT_SEED, launchpad, program_id)
}

} // verus!
