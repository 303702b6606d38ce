use vstd::prelude::*;
use crate::pubkey::Pubkey;

verus! {

/// The authority configuration, of which there is one.
///
/// No statement is admitted while `initialized` is false.
#[derive(Clone, Copy, Debug, PartialEq, Eq)]
pub struct Config {
    /// The key of the trusted signer of statements.
    pub signer: Pubkey,
    /// The identity that may change the configuration and withdraw fees.
    pub owner: Pubkey,
    /// The fee charged for each consensus proof that is uploaded.
    pub fee: u64,
    pub initialized: bool,
    pub bump: u8,
}

/// A consensus proof, one for each pair of timestamp and submitter.
#[derive(Clone, Copy, Debug, PartialEq, Eq)]
pub struct ConsensusState {
    /// Whether the submitter was the configured signer itself.
    pub global: bool,
    pub timestamp: u64,
    pub consensus_proof: [u8; 32],
    pub bump: u8,
}

impl Config {
    /// The configuration before it is set up.
    pub open spec fn spec_new() -> Config {
        Config {
            signer: Pubkey::spec_default(),
            owner: Pubkey::spec_default(),
            fee: 0,
            initialized: false,
            bump: 0,
        }
    }

    /// The configuration before it is set up.
    pub fn new() -> (config: Config)
        ensures
            config == Config::spec_new(),
    {
        Config {
            signer: Pubkey::default(),
            owner: Pubkey::default(),
            fee: 0,
            initialized: false,
            bump: 0,
        }
    }
}

} // verus!
