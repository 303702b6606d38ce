//! Withdrawing what the configuration has in custody.

use vstd::prelude::*;
use crate::errors::error::ErrorCode;
use crate::instructions::update::{check_owner, owner_refusal};
use crate::pubkey::Pubkey;
use crate::states::consensus::Config;

verus! {

/// The records that a withdrawal touches.
#[derive(Clone, Copy, Debug, PartialEq, Eq)]
pub struct Withdraw {
    pub config: Config,
    /// The balance in the configuration's custody.
    pub config_lamports: u64,
    /// The caller.
    pub payer: Pubkey,
    /// The caller's general balance.
    pub payer_lamports: u64,
}

/// What a withdrawal of `amount` moves: the whole balance if `amount` is
/// zero.
pub open spec fn withdrawn(balance: u64, amount: u64) -> u64 {
    if amount == 0 {
        balance
    } else {
        amount
    }
}

/// Why a withdrawal is refused, if it is: the caller must be the owner of
/// a configuration that is set up, the custody must hold the amount, and
/// the caller's balance must have room for it.
pub open spec fn withdraw_refusal(ctx: Withdraw, amount: u64) -> Option<ErrorCode> {
    match owner_refusal(ctx.config, ctx.payer) {
        Some(e) => Some(e),
        None => if ctx.config_lamports < amount {
            Some(ErrorCode::InsufficientFunds)
        } else if ctx.payer_lamports + withdrawn(ctx.config_lamports, amount) > u64::MAX {
            Some(ErrorCode::Overflow)
        } else {
            None
        },
    }
}

/// Moves `amount` out of the configuration's custody to the caller; all of
/// it if `amount` is zero.
pub fn withdraw(ctx: &mut Withdraw, amount: u64) -> (r: Result<(), ErrorCode>)
    ensures
        match withdraw_refusal(*old(ctx), amount) {
            Some(e) => r == Err::<(), ErrorCode>(e) && *final(ctx) == *old(ctx),
            None => r is Ok && *final(ctx) == (Withdraw {
                config_lamports: (old(ctx).config_lamports - withdrawn(
                    old(ctx).config_lamports,
                    amount,
                )) as u64,
                payer_lamports: (old(ctx).payer_lamports + withdrawn(
                    old(ctx).config_lamports,
                    amount,
                )) as u64,
                ..*old(ctx)
            }),
        },
{
    check_owner(&ctx.config, &ctx.payer)?;
    let mut balance = ctx.config_lamports;
    if amount != 0 {
        balance = amount;
    }
    if ctx.config_lamports < balance {
        return Err(ErrorCode::InsufficientFunds);
    }
    if ctx.payer_lamports > u64::MAX - balance {
        return Err(ErrorCode::Overflow);
    }
    ctx.config_lamports = ctx.config_lamports - balance;
    ctx.payer_lamports = ctx.payer_lamports + balance;
    Ok(())
}

} // verus!
