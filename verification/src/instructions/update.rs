//! Changing the authority configuration.

use vstd::prelude::*;
use crate::errors::error::ErrorCode;
use crate::pubkey::Pubkey;
use crate::states::consensus::Config;

verus! {

/// The records that changing the configuration touches.
#[derive(Clone, Copy, Debug, PartialEq, Eq)]
pub struct Update {
    pub config: Config,
    /// The caller.
    pub payer: Pubkey,
}

/// Why the caller may not act as the owner of the configuration, if it may
/// not: it must be the owner, and the configuration must be set up.
pub open spec fn owner_refusal(config: Config, payer: Pubkey) -> Option<ErrorCode> {
    if config.owner@ != payer@ {
        Some(ErrorCode::OnlyOwner)
    } else if !config.initialized {
        Some(ErrorCode::NotInitialized)
    } else {
        None
    }
}

/// Checks that the caller may act as the owner of the configuration.
pub fn check_owner(config: &Config, payer: &Pubkey) -> (r: Result<(), ErrorCode>)
    ensures
        match owner_refusal(*config, *payer) {
            Some(e) => r == Err::<(), ErrorCode>(e),
            None => r is Ok,
        },
{
    if config.owner != *payer {
        return Err(ErrorCode::OnlyOwner);
    }
    if !config.initialized {
        return Err(ErrorCode::NotInitialized);
    }
    Ok(())
}

/// Makes `signer` and `fee` the trusted signer and the upload fee.
pub fn update(ctx: &mut Update, signer: Pubkey, fee: u64) -> (r: Result<(), ErrorCode>)
    ensures
        match owner_refusal(old(ctx).config, old(ctx).payer) {
            Some(e) => r == Err::<(), ErrorCode>(e) && *final(ctx) == *old(ctx),
            None => r is Ok && *final(ctx) == (Update {
                config: Config { signer, fee, ..old(ctx).config },
                ..*old(ctx)
            }),
        },
{
    check_owner(&ctx.config, &ctx.payer)?;
    ctx.config.signer = signer;
    ctx.config.fee = fee;
    Ok(())
}

} // verus!
