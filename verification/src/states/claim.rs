use vstd::prelude::*;
use crate::pubkey::Pubkey;

verus! {

/// The state of the reward pools, of which there is one.
#[derive(Clone, Copy, Debug, PartialEq, Eq)]
pub struct StateAccount {
    /// The kind of token that the primary pool pays out.
    pub token_mint: Pubkey,
    /// The vault that holds the tokens of the primary pool.
    pub token_vault: Pubkey,
    /// The bump of the seed from which the pool's authority is derived.
    pub bump: u8,
    /// The total that has been claimed.
    pub claimed: u64,
    /// The kind of token that the public pool pays out.
    pub public_token_mint: Pubkey,
    /// The vault that holds the tokens of the public pool.
    pub public_token_vault: Pubkey,
}

/// The claim record of one claimant for one task.
#[derive(Clone, Copy, Debug, PartialEq, Eq)]
pub struct ClaimReward {
    pub owner: Pubkey,
    /// The reward of the claim that was accepted last.
    pub reward: u64,
    /// The nonce that the next claim must carry: the number of claims
    /// accepted so far.
    pub times: u16,
}

/// A token balance: what the program reads of one, and the amount it holds.
#[derive(Clone, Copy, Debug, PartialEq, Eq)]
pub struct TokenAccount {
    /// The kind of token.
    pub mint: Pubkey,
    /// The identity that may move the tokens.
    pub owner: Pubkey,
    pub amount: u64,
}

impl StateAccount {
    /// The bytes that the stored state takes.
    pub const LEN: usize = 32 + 32 + 1 + 8 + 64;

    /// The pool state before any pool is set up.
    pub open spec fn spec_new() -> StateAccount {
        StateAccount {
            token_mint: Pubkey::spec_default(),
            token_vault: Pubkey::spec_default(),
            bump: 0,
            claimed: 0,
            public_token_mint: Pubkey::spec_default(),
            public_token_vault: Pubkey::spec_default(),
        }
    }

    /// The pool state before any pool is set up.
    pub fn new() -> (state: StateAccount)
        ensures
            state == StateAccount::spec_new(),
    {
        StateAccount {
            token_mint: Pubkey::default(),
            token_vault: Pubkey::default(),
            bump: 0,
            claimed: 0,
            public_token_mint: Pubkey::default(),
            public_token_vault: Pubkey::default(),
        }
    }
}

impl ClaimReward {
    /// A claim record before its first claim: it expects nonce zero.
    pub open spec fn spec_new() -> ClaimReward {
        ClaimReward { owner: Pubkey::spec_default(), reward: 0, times: 0 }
    }

    /// A claim record before its first claim: it expects nonce zero.
    pub fn new() -> (record: ClaimReward)
        ensures
            record == ClaimReward::spec_new(),
    {
        ClaimReward { owner: Pubkey::default(), reward: 0, times: 0 }
    }
}

} // verus!
