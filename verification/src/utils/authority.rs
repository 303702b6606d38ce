//! The authority of the program over the vaults of its pools.
//!
//! No key pair stands behind the authority. Its address is derived from
//! the seed `state`, a bump and the identity of the program, and only the
//! program can act under an address that is derived from its own identity.
//! The address is derived anew whenever it is relied on.

use vstd::prelude::*;
use crate::errors::error::ErrorCode;
use crate::pubkey::Pubkey;

verus! {

#[verifier::external_type_specification]
#[verifier::external_body]
pub struct ExPubkeyError(solana_program::pubkey::PubkeyError);

/// The seed of the pool state: the bytes of `state`.
pub const STATE_SEED: [u8; 5] = [115, 116, 97, 116, 101];

/// The address that the seeds derive for the program, if they derive one.
pub uninterp spec fn program_address(seeds: Seq<Seq<u8>>, program_id: Seq<u8>) -> Option<Seq<u8>>;

/// Derives an address with
/// `solana_program::pubkey::Pubkey::create_program_address`, which computes
/// it from the seeds and the program's identity and from nothing else. What
/// it derives, or that it derives nothing, is by definition
/// `program_address` of the two; nothing more is claimed of it.
#[verifier::external_body]
fn create_program_address(seeds: &Vec<Vec<u8>>, program_id: &Pubkey) -> (r: Result<
    Pubkey,
    solana_program::pubkey::PubkeyError,
>)
    ensures
        match r {
            Ok(address) => program_address(seeds.deep_view(), program_id@) == Some(address@),
            Err(_) => program_address(seeds.deep_view(), program_id@) is None,
        },
{
    let seeds: Vec<&[u8]> = seeds.iter().map(|seed| seed.as_slice()).collect();
    let program_id = solana_program::pubkey::Pubkey::new_from_array(program_id.bytes);
    let address = solana_program::pubkey::Pubkey::create_program_address(&seeds, &program_id)?;
    Ok(Pubkey { bytes: address.to_bytes() })
}

/// The seeds of the authority: `state`, then the bump.
pub open spec fn spec_authority_seeds(bump: u8) -> Seq<Seq<u8>> {
    seq![STATE_SEED@, seq![bump]]
}

/// The address of the authority of the program `program_id` under `bump`,
/// if the two derive one.
pub open spec fn pool_authority(bump: u8, program_id: Seq<u8>) -> Option<Seq<u8>> {
    program_address(spec_authority_seeds(bump), program_id)
}

/// The seeds of the authority: `state`, then the bump.
pub fn authority_seeds(bump: u8) -> (seeds: Vec<Vec<u8>>)
    ensures
        seeds.deep_view() == spec_authority_seeds(bump),
{
    let mut state: Vec<u8> = Vec::new();
    let mut i: usize = 0;
    while i < 5
        invariant
            i <= 5,
            state@ == STATE_SEED@.take(i as int),
        decreases 5 - i,
    {
        state.push(STATE_SEED[i]);
        proof {
            assert(STATE_SEED@.take(i as int).push(STATE_SEED@[i as int]) =~= STATE_SEED@.take(
                i + 1,
            ));
        }
        i += 1;
    }
    let mut last: Vec<u8> = Vec::new();
    last.push(bump);
    let mut seeds: Vec<Vec<u8>> = Vec::new();
    seeds.push(state);
    seeds.push(last);
    proof {
        assert(STATE_SEED@.take(5) =~= STATE_SEED@);
        assert(seeds@[0].deep_view() =~= STATE_SEED@);
        assert(seeds@[1].deep_view() =~= seq![bump]);
        assert(seeds.deep_view() =~= spec_authority_seeds(bump));
    }
    seeds
}

/// Derives the address of the authority of the program under `bump`.
pub fn derive_authority(bump: u8, program_id: &Pubkey) -> (r: Option<Pubkey>)
    ensures
        match r {
            Some(address) => pool_authority(bump, program_id@) == Some(address@),
            None => pool_authority(bump, program_id@) is None,
        },
{
    let seeds = authority_seeds(bump);
    match create_program_address(&seeds, program_id) {
        Ok(address) => Some(address),
        Err(_) => None,
    }
}

/// Whether `state_key` is the address of the authority of the program
/// under `bump`.
pub open spec fn is_authority(state_key: Pubkey, bump: u8, program_id: Pubkey) -> bool {
    pool_authority(bump, program_id@) == Some(state_key@)
}

/// Checks that `state_key` is the address of the authority of the program
/// under `bump`.
pub fn check_authority(state_key: &Pubkey, bump: u8, program_id: &Pubkey) -> (r: Result<
    (),
    ErrorCode,
>)
    ensures
        r is Ok <==> is_authority(*state_key, bump, *program_id),
        r is Err ==> r == Err::<(), ErrorCode>(ErrorCode::AccountError),
{
    match derive_authority(bump, program_id) {
        Some(address) => if address == *state_key {
            Ok(())
        } else {
            Err(ErrorCode::AccountError)
        },
        None => Err(ErrorCode::AccountError),
    }
}

} // verus!
