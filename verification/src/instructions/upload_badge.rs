//! Recording a badge.

use vstd::prelude::*;
use crate::codec::json::{
    as_pubkey, decode_json, field_pubkey, field_u64, json_field_pubkey, json_field_u64,
    json_items, json_pubkey, json_u64, json_view, message_json, value_as_array, value_as_u64,
    Json,
};
use crate::errors::error::ErrorCode;
use crate::pubkey::Pubkey;
use crate::states::badge::{Badge, BadgeConfig, BadgeConfigPool};
use crate::states::consensus::Config;
use crate::utils::instructions::{signed_by, verify_signed_by, InstructionsSysvar};

verus! {

/// The statement that an owner has earned a tier in a quiz.
#[derive(Clone, Copy, Debug, PartialEq, Eq)]
pub struct BadgeInfo {
    pub quiz: u64,
    pub tier: u64,
    pub owner: Pubkey,
}

/// A badge statement as a mathematical value.
pub struct BadgeInfoView {
    pub quiz: u64,
    pub tier: u64,
    pub owner: Seq<u8>,
}

impl View for BadgeInfo {
    type V = BadgeInfoView;

    open spec fn view(&self) -> BadgeInfoView {
        BadgeInfoView { quiz: self.quiz, tier: self.tier, owner: self.owner@ }
    }
}

/// The badge statement that a JSON value makes: an object with the
/// numbers `quiz` and `tier` and the public key `owner`, or an array of
/// exactly these three in this order. A public key is an array of its 32
/// bytes. Members of other names are passed over; of a member that an
/// object names more than once, the last counts.
pub open spec fn badge_of_json(j: Json) -> Option<BadgeInfoView> {
    match json_items(j) {
        Some(items) => if items.len() == 3 {
            badge_of_fields(json_u64(items[0]), json_u64(items[1]), json_pubkey(items[2]))
        } else {
            None
        },
        None => badge_of_fields(
            json_field_u64(j, "quiz"@),
            json_field_u64(j, "tier"@),
            json_field_pubkey(j, "owner"@),
        ),
    }
}

/// The badge statement of the three fields, if all three were read.
pub open spec fn badge_of_fields(quiz: Option<u64>, tier: Option<u64>, owner: Option<Seq<u8>>) -> Option<
    BadgeInfoView,
> {
    match (quiz, tier, owner) {
        (Some(quiz), Some(tier), Some(owner)) => Some(BadgeInfoView { quiz, tier, owner }),
        _ => None,
    }
}

/// The badge statement that a message makes.
pub open spec fn badge_statement(msg: Seq<u8>) -> Result<BadgeInfoView, ErrorCode> {
    match message_json(msg) {
        Ok(j) => match badge_of_json(j) {
            Some(statement) => Ok(statement),
            None => Err(ErrorCode::MessageShouldJson),
        },
        Err(e) => Err(e),
    }
}

impl BadgeInfo {
    /// Reads a badge statement out of a parsed JSON value.
    pub fn from_json(value: &serde_json::Value) -> (r: Option<BadgeInfo>)
        ensures
            match r {
                Some(statement) => badge_of_json(json_view(*value)) == Some(statement@),
                None => badge_of_json(json_view(*value)) is None,
            },
    {
        let (quiz, tier, owner) = match value_as_array(value) {
            Some(items) => {
                if items.len() != 3 {
                    return None;
                }
                (value_as_u64(&items[0]), value_as_u64(&items[1]), as_pubkey(&items[2]))
            },
            None => (
                field_u64(value, "quiz"),
                field_u64(value, "tier"),
                field_pubkey(value, "owner"),
            ),
        };
        match (quiz, tier, owner) {
            (Some(quiz), Some(tier), Some(owner)) => Some(BadgeInfo { quiz, tier, owner }),
            _ => None,
        }
    }

    /// Reads the badge statement that a message makes.
    pub fn decode(msg: &Vec<u8>) -> (r: Result<BadgeInfo, ErrorCode>)
        ensures
            match r {
                Ok(statement) => badge_statement(msg@) == Ok::<BadgeInfoView, ErrorCode>(
                    statement@,
                ),
                Err(e) => badge_statement(msg@) == Err::<BadgeInfoView, ErrorCode>(e),
            },
    {
        let value = decode_json(msg)?;
        match BadgeInfo::from_json(&value) {
            Some(statement) => Ok(statement),
            None => Err(ErrorCode::MessageShouldJson),
        }
    }
}

/// The records that recording a badge touches.
#[derive(Clone, Debug, PartialEq, Eq)]
pub struct UploadBadge {
    /// The caller, who records its own badge.
    pub user: Pubkey,
    pub config: Config,
    pub badge_config_pool: BadgeConfigPool,
    /// The counter of the quiz.
    pub badge_config: BadgeConfig,
    /// The badge of the caller for the quiz: none before it is recorded.
    pub badge: Option<Badge>,
    pub ix_sysvar: InstructionsSysvar,
}

/// What was read of a message, as a mathematical value.
pub open spec fn badge_read(statement: Result<BadgeInfo, ErrorCode>) -> Result<
    BadgeInfoView,
    ErrorCode,
> {
    match statement {
        Ok(statement) => Ok(statement@),
        Err(e) => Err(e),
    }
}

/// The tier that a caller is to be given in a quiz, or why there is none,
/// given what was read of the message and whether the step before verified
/// its signature under the configured signer. In this order: the quiz must
/// not be zero; the message must have made a badge statement; the caller
/// must be the owner that it names; the configuration must be set up; the
/// signature must have been verified.
pub open spec fn tier_admitted(
    ctx: UploadBadge,
    quiz: u64,
    statement: Result<BadgeInfoView, ErrorCode>,
    signed: bool,
) -> Result<u64, ErrorCode> {
    if quiz == 0 {
        Err(ErrorCode::InvalidQuizIDError)
    } else {
        match statement {
            Err(e) => Err(e),
            Ok(statement) => if ctx.user@ != statement.owner {
                Err(ErrorCode::InvalidOwnerError)
            } else if !ctx.config.initialized {
                Err(ErrorCode::NotInitialized)
            } else if !signed {
                Err(ErrorCode::SigVerificationFailed)
            } else {
                Ok(statement.tier)
            },
        }
    }
}

/// The tier that a caller is to be given in a quiz by the message `msg`,
/// signed by `sig`, or why there is none.
pub open spec fn admitted_tier(ctx: UploadBadge, quiz: u64, msg: Seq<u8>, sig: Seq<u8>) -> Result<
    u64,
    ErrorCode,
> {
    tier_admitted(
        ctx,
        quiz,
        badge_statement(msg),
        signed_by(ctx.ix_sysvar.key@, ctx.ix_sysvar.data@, ctx.config.signer@, msg, sig),
    )
}

/// Whether the counter of a quiz counts its first badge.
pub open spec fn is_first_of_quiz(counter: BadgeConfig) -> bool {
    counter.quiz == 0
}

/// Why a badge is not recorded, if it is not, given what was read of the
/// message and whether its signature was verified. A tier that is admitted
/// is still refused if the caller has a badge for the quiz already, or if
/// a counter has no room.
pub open spec fn record_badge_refusal(
    ctx: UploadBadge,
    quiz: u64,
    statement: Result<BadgeInfoView, ErrorCode>,
    signed: bool,
) -> Option<ErrorCode> {
    match tier_admitted(ctx, quiz, statement, signed) {
        Err(e) => Some(e),
        Ok(_) => if ctx.badge is Some {
            Some(ErrorCode::AccountInUse)
        } else if ctx.badge_config.total == u64::MAX || ctx.badge_config_pool.total == u64::MAX
            || (is_first_of_quiz(ctx.badge_config) && ctx.badge_config_pool.config_count
            == u64::MAX) {
            Some(ErrorCode::Overflow)
        } else {
            None
        },
    }
}

/// Why the badge that `msg` states, signed by `sig`, is not recorded, if
/// it is not.
pub open spec fn upload_badge_refusal(ctx: UploadBadge, quiz: u64, msg: Seq<u8>, sig: Seq<u8>) -> Option<
    ErrorCode,
> {
    record_badge_refusal(
        ctx,
        quiz,
        badge_statement(msg),
        signed_by(ctx.ix_sysvar.key@, ctx.ix_sysvar.data@, ctx.config.signer@, msg, sig),
    )
}

/// What a recorded badge leaves behind: the badge of the caller for the
/// quiz, with the tier; one more badge counted for the quiz and one more
/// over all; one more quiz counted if the badge is the first of its quiz;
/// nothing else changed.
pub open spec fn badge_uploaded(pre: UploadBadge, post: UploadBadge, quiz: u64, tier: u64) -> bool {
    &&& post.badge matches Some(badge)
    &&& badge.owner@ == pre.user@
    &&& badge.quiz == quiz
    &&& badge.tier == tier
    &&& post.badge_config.total == pre.badge_config.total + 1
    &&& post.badge_config.quiz == if is_first_of_quiz(pre.badge_config) {
        quiz
    } else {
        pre.badge_config.quiz
    }
    &&& post.badge_config_pool.total == pre.badge_config_pool.total + 1
    &&& post.badge_config_pool.config_count == if is_first_of_quiz(pre.badge_config) {
        pre.badge_config_pool.config_count + 1
    } else {
        pre.badge_config_pool.config_count as int
    }
    &&& post.user == pre.user
    &&& post.config == pre.config
    &&& post.ix_sysvar == pre.ix_sysvar
}

/// Records the badge of the caller for the quiz, given what was read of
/// its message and whether the step before verified the message's
/// signature under the configured signer.
///
/// The signature is taken on the caller's word: `upload_badge` checks it
/// before it records.
pub fn record_badge(
    ctx: &mut UploadBadge,
    quiz: u64,
    statement: Result<BadgeInfo, ErrorCode>,
    signed: bool,
) -> (r: Result<(), ErrorCode>)
    ensures
        match record_badge_refusal(*old(ctx), quiz, badge_read(statement), signed) {
            Some(e) => r == Err::<(), ErrorCode>(e) && *final(ctx) == *old(ctx),
            None => r is Ok && badge_uploaded(*old(ctx), *final(ctx), quiz, statement->Ok_0.tier),
        },
{
    if quiz == 0 {
        return Err(ErrorCode::InvalidQuizIDError);
    }
    let statement = statement?;
    if ctx.user != statement.owner {
        return Err(ErrorCode::InvalidOwnerError);
    }
    if !ctx.config.initialized {
        return Err(ErrorCode::NotInitialized);
    }
    if !signed {
        return Err(ErrorCode::SigVerificationFailed);
    }
    if ctx.badge.is_some() {
        return Err(ErrorCode::AccountInUse);
    }
    let first = ctx.badge_config.quiz == 0;
    if ctx.badge_config.total == u64::MAX || ctx.badge_config_pool.total == u64::MAX || (first
        && ctx.badge_config_pool.config_count == u64::MAX) {
        return Err(ErrorCode::Overflow);
    }
    ctx.badge = Some(Badge { owner: ctx.user, quiz, tier: statement.tier });
    if first {
        ctx.badge_config.quiz = quiz;
        ctx.badge_config_pool.config_count = ctx.badge_config_pool.config_count + 1;
    }
    ctx.badge_config.total = ctx.badge_config.total + 1;
    ctx.badge_config_pool.total = ctx.badge_config_pool.total + 1;
    Ok(())
}

/// Records, for the caller and the quiz, the badge that `msg` states,
/// signed by `sig`.
pub fn upload_badge(ctx: &mut UploadBadge, quiz: u64, msg: Vec<u8>, sig: [u8; 64]) -> (r: Result<
    (),
    ErrorCode,
>)
    ensures
        match upload_badge_refusal(*old(ctx), quiz, msg@, sig@) {
            Some(e) => r == Err::<(), ErrorCode>(e) && *final(ctx) == *old(ctx),
            None => r is Ok && badge_uploaded(
                *old(ctx),
                *final(ctx),
                quiz,
                admitted_tier(*old(ctx), quiz, msg@, sig@)->Ok_0,
            ),
        },
{
    let statement = BadgeInfo::decode(&msg);
    let signed = verify_signed_by(&ctx.ix_sysvar, &ctx.config.signer, msg.as_slice(), &sig).is_ok();
    record_badge(ctx, quiz, statement, signed)
}

} // verus!
