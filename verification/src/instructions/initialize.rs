//! Setting the authority configuration up.

use vstd::prelude::*;
use crate::errors::error::ErrorCode;
use crate::pubkey::Pubkey;
use crate::states::consensus::Config;

verus! {

/// The records that setting the configuration up touches.
#[derive(Clone, Copy, Debug, PartialEq, Eq)]
pub struct Initialize {
    pub config: Config,
    /// The caller, who becomes the owner.
    pub payer: Pubkey,
}

/// Sets the configuration up, once: the caller becomes its owner, and
/// `signer` and `fee` the trusted signer and the upload fee.
pub fn initialize(ctx: &mut Initialize, signer: Pubkey, fee: u64) -> (r: Result<(), ErrorCode>)
    ensures
        old(ctx).config.initialized ==> r == Err::<(), ErrorCode>(ErrorCode::Initialized)
            && *final(ctx) == *old(ctx),
        !old(ctx).config.initialized ==> r is Ok && *final(ctx) == (Initialize {
            config: Config { signer, owner: old(ctx).payer, fee, initialized: true, ..old(ctx).config },
            ..*old(ctx)
        }),
{
    if ctx.config.initialized {
        return Err(ErrorCode::Initialized);
    }
    ctx.config.owner = ctx.payer;
    ctx.config.signer = signer;
    ctx.config.fee = fee;
    ctx.config.initialized = true;
    Ok(())
}

} // verus!
