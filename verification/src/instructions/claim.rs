//! Setting up the reward pools, and claiming rewards out of them.

use vstd::prelude::*;
use crate::codec::json::{
    as_pubkey, as_u16, decode_json, field_pubkey, field_u16, field_u64, json_field_pubkey,
    json_field_u16, json_field_u64, json_items, json_pubkey, json_u16, json_u64, json_view,
    message_json, value_as_array, value_as_u64, Json,
};
use crate::errors::error::ErrorCode;
use crate::pubkey::Pubkey;
use crate::states::claim::{ClaimReward, StateAccount, TokenAccount};
use crate::states::consensus::Config;
use crate::utils::authority::{check_authority, is_authority};
use crate::utils::instructions::{signed_by, verify_signed_by, InstructionsSysvar};

verus! {

/// The statement that a receiver is granted a reward for a task.
#[derive(Clone, Copy, Debug, PartialEq, Eq)]
pub struct ClaimInput {
    pub task: u16,
    pub nonce: u16,
    pub reward: u64,
    pub receiver: Pubkey,
}

/// A claim statement as a mathematical value.
pub struct ClaimInputView {
    pub task: u16,
    pub nonce: u16,
    pub reward: u64,
    pub receiver: Seq<u8>,
}

impl View for ClaimInput {
    type V = ClaimInputView;

    open spec fn view(&self) -> ClaimInputView {
        ClaimInputView {
            task: self.task,
            nonce: self.nonce,
            reward: self.reward,
            receiver: self.receiver@,
        }
    }
}

/// The claim statement that a JSON value makes: an object with the
/// numbers `task`, `nonce` and `reward` and the public key `receiver`, or
/// an array of exactly these four in this order. A public key is an array
/// of its 32 bytes. Members of other names are passed over; of a member
/// that an object names more than once, the last counts.
pub open spec fn claim_of_json(j: Json) -> Option<ClaimInputView> {
    match json_items(j) {
        Some(items) => if items.len() == 4 {
            claim_of_fields(
                json_u16(items[0]),
                json_u16(items[1]),
                json_u64(items[2]),
                json_pubkey(items[3]),
            )
        } else {
            None
        },
        None => claim_of_fields(
            json_field_u16(j, "task"@),
            json_field_u16(j, "nonce"@),
            json_field_u64(j, "reward"@),
            json_field_pubkey(j, "receiver"@),
        ),
    }
}

/// The claim statement of the four fields, if all four were read.
pub open spec fn claim_of_fields(
    task: Option<u16>,
    nonce: Option<u16>,
    reward: Option<u64>,
    receiver: Option<Seq<u8>>,
) -> Option<ClaimInputView> {
    match (task, nonce, reward, receiver) {
        (Some(task), Some(nonce), Some(reward), Some(receiver)) => Some(
            ClaimInputView { task, nonce, reward, receiver },
        ),
        _ => None,
    }
}

/// The claim statement that a message makes.
pub open spec fn claim_statement(msg: Seq<u8>) -> Result<ClaimInputView, ErrorCode> {
    match message_json(msg) {
        Ok(j) => match claim_of_json(j) {
            Some(statement) => Ok(statement),
            None => Err(ErrorCode::MessageShouldJson),
        },
        Err(e) => Err(e),
    }
}

impl ClaimInput {
    /// Reads a claim statement out of a parsed JSON value.
    pub fn from_json(value: &serde_json::Value) -> (r: Option<ClaimInput>)
        ensures
            match r {
                Some(statement) => claim_of_json(json_view(*value)) == Some(statement@),
                None => claim_of_json(json_view(*value)) is None,
            },
    {
        let (task, nonce, reward, receiver) = match value_as_array(value) {
            Some(items) => {
                if items.len() != 4 {
                    return None;
                }
                (
                    as_u16(&items[0]),
                    as_u16(&items[1]),
                    value_as_u64(&items[2]),
                    as_pubkey(&items[3]),
                )
            },
            None => (
                field_u16(value, "task"),
                field_u16(value, "nonce"),
                field_u64(value, "reward"),
                field_pubkey(value, "receiver"),
            ),
        };
        match (task, nonce, reward, receiver) {
            (Some(task), Some(nonce), Some(reward), Some(receiver)) => Some(
                ClaimInput { task, nonce, reward, receiver },
            ),
            _ => None,
        }
    }

    /// Reads the claim statement that a message makes.
    pub fn decode(msg: &Vec<u8>) -> (r: Result<ClaimInput, ErrorCode>)
        ensures
            match r {
                Ok(statement) => claim_statement(msg@) == Ok::<ClaimInputView, ErrorCode>(
                    statement@,
                ),
                Err(e) => claim_statement(msg@) == Err::<ClaimInputView, ErrorCode>(e),
            },
    {
        let value = decode_json(msg)?;
        match ClaimInput::from_json(&value) {
            Some(statement) => Ok(statement),
            None => Err(ErrorCode::MessageShouldJson),
        }
    }
}

/// The records that setting up the primary pool touches.
#[derive(Clone, Copy, Debug, PartialEq, Eq)]
pub struct IniClaim {
    /// The identity of the program.
    pub program_id: Pubkey,
    pub state: StateAccount,
    /// The address of the pool state, which is the authority over its
    /// vaults.
    pub state_key: Pubkey,
    /// The bump with which that address was derived.
    pub state_bump: u8,
    /// The kind of token that the pool is to pay out.
    pub mint: Pubkey,
    pub token_vault: TokenAccount,
    /// The address of the vault.
    pub token_vault_key: Pubkey,
    pub config: Config,
    pub payer: Pubkey,
}

/// The records that setting up the public pool touches: the same as for
/// the primary pool.
pub type IniClaimPublic = IniClaim;

/// Why a vault cannot be made the vault of a pool, if it cannot: the pool
/// state must be at the address that the bump derives for the program, the
/// vault must hold the pool's kind of token and be in the custody of the
/// pool state, and the caller must own the configuration.
pub open spec fn pool_refusal(ctx: IniClaim) -> Option<ErrorCode> {
    if !is_authority(ctx.state_key, ctx.state_bump, ctx.program_id) {
        Some(ErrorCode::AccountError)
    } else if ctx.token_vault.mint@ != ctx.mint@ {
        Some(ErrorCode::InvalidTokenAccount)
    } else if ctx.token_vault.owner@ != ctx.state_key@ {
        Some(ErrorCode::InvalidVaultOwner)
    } else if ctx.config.owner@ != ctx.payer@ {
        Some(ErrorCode::OnlyOwner)
    } else {
        None
    }
}

fn check_pool(ctx: &IniClaim) -> (r: Result<(), ErrorCode>)
    ensures
        match pool_refusal(*ctx) {
            Some(e) => r == Err::<(), ErrorCode>(e),
            None => r is Ok,
        },
{
    check_authority(&ctx.state_key, ctx.state_bump, &ctx.program_id)?;
    if ctx.token_vault.mint != ctx.mint {
        return Err(ErrorCode::InvalidTokenAccount);
    }
    if ctx.token_vault.owner != ctx.state_key {
        return Err(ErrorCode::InvalidVaultOwner);
    }
    if ctx.config.owner != ctx.payer {
        return Err(ErrorCode::OnlyOwner);
    }
    Ok(())
}

/// Makes the vault the vault of the primary pool.
pub fn ini_claim(ctx: &mut IniClaim) -> (r: Result<(), ErrorCode>)
    ensures
        match pool_refusal(*old(ctx)) {
            Some(e) => r == Err::<(), ErrorCode>(e) && *final(ctx) == *old(ctx),
            None => r is Ok && *final(ctx) == (IniClaim {
                state: StateAccount {
                    token_mint: old(ctx).mint,
                    token_vault: old(ctx).token_vault_key,
                    bump: old(ctx).state_bump,
                    ..old(ctx).state
                },
                ..*old(ctx)
            }),
        },
{
    check_pool(ctx)?;
    ctx.state.token_mint = ctx.mint;
    ctx.state.token_vault = ctx.token_vault_key;
    ctx.state.bump = ctx.state_bump;
    Ok(())
}

/// Makes the vault the vault of the public pool.
pub fn ini_claim_public(ctx: &mut IniClaimPublic) -> (r: Result<(), ErrorCode>)
    ensures
        match pool_refusal(*old(ctx)) {
            Some(e) => r == Err::<(), ErrorCode>(e) && *final(ctx) == *old(ctx),
            None => r is Ok && *final(ctx) == (IniClaim {
                state: StateAccount {
                    public_token_mint: old(ctx).mint,
                    public_token_vault: old(ctx).token_vault_key,
                    bump: old(ctx).state_bump,
                    ..old(ctx).state
                },
                ..*old(ctx)
            }),
        },
{
    check_pool(ctx)?;
    ctx.state.public_token_mint = ctx.mint;
    ctx.state.public_token_vault = ctx.token_vault_key;
    ctx.state.bump = ctx.state_bump;
    Ok(())
}

/// The records that a claim out of the primary pool touches.
#[derive(Clone, Debug, PartialEq, Eq)]
pub struct Claim {
    /// The identity of the program.
    pub program_id: Pubkey,
    /// The caller, who claims for itself.
    pub payer: Pubkey,
    pub config: Config,
    pub state: StateAccount,
    /// The address of the pool state, which is the authority over its
    /// vaults.
    pub state_key: Pubkey,
    /// The claim record of the caller for the task.
    pub reward: ClaimReward,
    pub token_vault: TokenAccount,
    /// The token balance of the caller, into which the reward goes.
    pub receiver: TokenAccount,
    /// The kind of token of that balance.
    pub mint: Pubkey,
    pub ix_sysvar: InstructionsSysvar,
}

/// The records that a claim out of the public pool touches: the same as
/// for the primary pool.
pub type ClaimPublic = Claim;

/// Why the balances of a claim are refused, if they are: the pool state
/// must be at the address that its bump derives for the program, so that
/// the program is the authority over what is in its custody; the vault
/// must hold the pool's kind of token and be in the custody of the pool
/// state; the receiving balance must be of the kind it is said to be, which
/// must be the pool's, and must belong to the caller.
pub open spec fn balances_refusal(ctx: Claim, pool_mint: Pubkey) -> Option<ErrorCode> {
    if !is_authority(ctx.state_key, ctx.state.bump, ctx.program_id) {
        Some(ErrorCode::AccountError)
    } else if ctx.token_vault.mint@ != pool_mint@ {
        Some(ErrorCode::InvalidTokenAccount)
    } else if ctx.token_vault.owner@ != ctx.state_key@ {
        Some(ErrorCode::InvalidVaultOwner)
    } else if ctx.receiver.mint@ != ctx.mint@ || ctx.receiver.owner@ != ctx.payer@
        || ctx.receiver.mint@ != pool_mint@ {
        Some(ErrorCode::InvalidTokenAccount)
    } else {
        None
    }
}

/// What was read of a message, as a mathematical value.
pub open spec fn claim_read(statement: Result<ClaimInput, ErrorCode>) -> Result<
    ClaimInputView,
    ErrorCode,
> {
    match statement {
        Ok(statement) => Ok(statement@),
        Err(e) => Err(e),
    }
}

/// Why a claim is not settled, if it is not, given what was read of its
/// message and whether the step before it verified the message's
/// signature under the configured signer. In this order: the message must
/// have made a claim statement; the caller must be the receiver that it
/// names; the configuration must be set up; the signature must have been
/// verified; the statement must be for the task whose claim record is
/// held against it; its nonce must be the one that the record expects
/// next; the counters must have room; the vault must hold the reward; the
/// receiving balance must have room for it.
pub open spec fn settlement_refusal(
    ctx: Claim,
    task: u16,
    statement: Result<ClaimInputView, ErrorCode>,
    signed: bool,
) -> Option<ErrorCode> {
    match statement {
        Err(e) => Some(e),
        Ok(statement) => if ctx.payer@ != statement.receiver {
            Some(ErrorCode::InvalidOwnerError)
        } else if !ctx.config.initialized {
            Some(ErrorCode::NotInitialized)
        } else if !signed {
            Some(ErrorCode::SigVerificationFailed)
        } else if statement.task != task {
            Some(ErrorCode::AccountError)
        } else if ctx.reward.times != statement.nonce {
            Some(ErrorCode::NonceError)
        } else if ctx.reward.times == u16::MAX || ctx.state.claimed + statement.reward
            > u64::MAX {
            Some(ErrorCode::Overflow)
        } else if ctx.token_vault.amount < statement.reward {
            Some(ErrorCode::InsufficientFunds)
        } else if ctx.receiver.amount + statement.reward > u64::MAX {
            Some(ErrorCode::Overflow)
        } else {
            None
        },
    }
}

/// Why a claim for `task` out of the pool that pays `pool_mint` is
/// refused, if it is: for its balances first, then for its statement.
pub open spec fn claim_refusal(
    ctx: Claim,
    pool_mint: Pubkey,
    task: u16,
    msg: Seq<u8>,
    sig: Seq<u8>,
) -> Option<ErrorCode> {
    match balances_refusal(ctx, pool_mint) {
        Some(e) => Some(e),
        None => settlement_refusal(
            ctx,
            task,
            claim_statement(msg),
            signed_by(ctx.ix_sysvar.key@, ctx.ix_sysvar.data@, ctx.config.signer@, msg, sig),
        ),
    }
}

/// What an accepted claim of `reward` leaves behind: the claim record
/// belongs to the caller, holds the reward and expects the next nonce; the
/// total claimed has grown by the reward; the reward has moved from the
/// vault to the receiving balance; nothing else has changed.
pub open spec fn claim_settled(pre: Claim, post: Claim, reward: u64) -> bool {
    &&& post.reward.owner@ == pre.payer@
    &&& post.reward.reward == reward
    &&& post.reward.times == pre.reward.times + 1
    &&& post.state == (StateAccount { claimed: (pre.state.claimed + reward) as u64, ..pre.state })
    &&& post.token_vault == (TokenAccount {
        amount: (pre.token_vault.amount - reward) as u64,
        ..pre.token_vault
    })
    &&& post.receiver == (TokenAccount {
        amount: (pre.receiver.amount + reward) as u64,
        ..pre.receiver
    })
    &&& post.program_id == pre.program_id
    &&& post.payer == pre.payer
    &&& post.config == pre.config
    &&& post.state_key == pre.state_key
    &&& post.mint == pre.mint
    &&& post.ix_sysvar == pre.ix_sysvar
}

fn check_balances(ctx: &Claim, pool_mint: &Pubkey) -> (r: Result<(), ErrorCode>)
    ensures
        match balances_refusal(*ctx, *pool_mint) {
            Some(e) => r == Err::<(), ErrorCode>(e),
            None => r is Ok,
        },
{
    check_authority(&ctx.state_key, ctx.state.bump, &ctx.program_id)?;
    if ctx.token_vault.mint != *pool_mint {
        return Err(ErrorCode::InvalidTokenAccount);
    }
    if ctx.token_vault.owner != ctx.state_key {
        return Err(ErrorCode::InvalidVaultOwner);
    }
    if ctx.receiver.mint != ctx.mint || ctx.receiver.owner != ctx.payer || ctx.receiver.mint
        != *pool_mint {
        return Err(ErrorCode::InvalidTokenAccount);
    }
    Ok(())
}

/// Settles a claim for `task`, given what was read of its message and
/// whether the step before it verified the message's signature under the
/// configured signer. The claim record in `ctx` is the caller's for `task`.
///
/// The balances are not looked at here beyond their amounts, and the
/// signature is taken on the caller's word: `claim` and `claim_public`
/// check both before they settle.
pub fn settle(ctx: &mut Claim, task: u16, statement: Result<ClaimInput, ErrorCode>, signed: bool) -> (r:
    Result<(), ErrorCode>)
    ensures
        match settlement_refusal(*old(ctx), task, claim_read(statement), signed) {
            Some(e) => r == Err::<(), ErrorCode>(e) && *final(ctx) == *old(ctx),
            None => r is Ok && claim_settled(*old(ctx), *final(ctx), statement->Ok_0.reward),
        },
{
    let statement = statement?;
    if ctx.payer != statement.receiver {
        return Err(ErrorCode::InvalidOwnerError);
    }
    if !ctx.config.initialized {
        return Err(ErrorCode::NotInitialized);
    }
    if !signed {
        return Err(ErrorCode::SigVerificationFailed);
    }
    if statement.task != task {
        return Err(ErrorCode::AccountError);
    }
    if ctx.reward.times != statement.nonce {
        return Err(ErrorCode::NonceError);
    }
    let reward = statement.reward;
    if ctx.reward.times == u16::MAX || ctx.state.claimed > u64::MAX - reward {
        return Err(ErrorCode::Overflow);
    }
    if ctx.token_vault.amount < reward {
        return Err(ErrorCode::InsufficientFunds);
    }
    if ctx.receiver.amount > u64::MAX - reward {
        return Err(ErrorCode::Overflow);
    }
    ctx.reward.owner = ctx.payer;
    ctx.reward.reward = reward;
    ctx.reward.times = ctx.reward.times + 1;
    ctx.state.claimed = ctx.state.claimed + reward;
    ctx.token_vault.amount = ctx.token_vault.amount - reward;
    ctx.receiver.amount = ctx.receiver.amount + reward;
    Ok(())
}

/// Claims, out of the primary pool and for the caller, the reward that
/// `msg` grants for `task`, signed by `sig`. The claim record in `ctx` is
/// the caller's for `task`.
pub fn claim(ctx: &mut Claim, task: u16, msg: Vec<u8>, sig: [u8; 64]) -> (r: Result<(), ErrorCode>)
    ensures
        match claim_refusal(*old(ctx), old(ctx).state.token_mint, task, msg@, sig@) {
            Some(e) => r == Err::<(), ErrorCode>(e) && *final(ctx) == *old(ctx),
            None => r is Ok && claim_settled(
                *old(ctx),
                *final(ctx),
                claim_statement(msg@)->Ok_0.reward,
            ),
        },
        r is Ok ==> claim_statement(msg@) is Ok && claim_statement(msg@)->Ok_0.task == task
            && claim_statement(msg@)->Ok_0.nonce == old(ctx).reward.times,
{
    let pool_mint = ctx.state.token_mint;
    check_balances(ctx, &pool_mint)?;
    let statement = ClaimInput::decode(&msg);
    let signed = verify_signed_by(&ctx.ix_sysvar, &ctx.config.signer, msg.as_slice(), &sig).is_ok();
    settle(ctx, task, statement, signed)
}

/// Claims, out of the public pool and for the caller, the reward that
/// `msg` grants for `task`, signed by `sig`. The claim record in `ctx` is
/// the caller's for `task`.
pub fn claim_public(ctx: &mut ClaimPublic, task: u16, msg: Vec<u8>, sig: [u8; 64]) -> (r: Result<
    (),
    ErrorCode,
>)
    ensures
        match claim_refusal(*old(ctx), old(ctx).state.public_token_mint, task, msg@, sig@) {
            Some(e) => r == Err::<(), ErrorCode>(e) && *final(ctx) == *old(ctx),
            None => r is Ok && claim_settled(
                *old(ctx),
                *final(ctx),
                claim_statement(msg@)->Ok_0.reward,
            ),
        },
        r is Ok ==> claim_statement(msg@) is Ok && claim_statement(msg@)->Ok_0.task == task
            && claim_statement(msg@)->Ok_0.nonce == old(ctx).reward.times,
{
    let pool_mint = ctx.state.public_token_mint;
    check_balances(ctx, &pool_mint)?;
    let statement = ClaimInput::decode(&msg);
    let signed = verify_signed_by(&ctx.ix_sysvar, &ctx.config.signer, msg.as_slice(), &sig).is_ok();
    settle(ctx, task, statement, signed)
}

} // verus!
