//! Uploading a consensus proof.

use vstd::prelude::*;
use vstd::utf8::encode_utf8;
use crate::codec::hex::{decode_proof, proof_bytes};
use crate::codec::json::{
    decode_json, field_str, field_u64, json_field_str, json_field_u64, json_items, json_str,
    json_u64, json_view, message_json, value_as_array, value_as_str, value_as_u64, Json,
};
use crate::errors::error::ErrorCode;
use crate::pubkey::Pubkey;
use crate::states::consensus::{Config, ConsensusState};
use crate::utils::instructions::{signed_by, verify_signed_by, InstructionsSysvar};

verus! {

/// The statement that a consensus proof was reached at a time.
#[derive(Clone, Debug, PartialEq, Eq)]
pub struct Validation {
    pub timestamp: u64,
    /// The proof in hexadecimal, with or without `0x` before it.
    pub consensus_proof: String,
}

/// A consensus statement as a mathematical value.
pub struct ValidationView {
    pub timestamp: u64,
    pub consensus_proof: Seq<char>,
}

impl View for Validation {
    type V = ValidationView;

    open spec fn view(&self) -> ValidationView {
        ValidationView { timestamp: self.timestamp, consensus_proof: self.consensus_proof@ }
    }
}

/// The consensus statement that a JSON value makes: an object with a
/// number `timestamp` and a string `consensus_proof`, or an array of
/// exactly these two in this order. Members of other names are passed
/// over; of a member that an object names more than once, the last counts.
pub open spec fn validation_of_json(j: Json) -> Option<ValidationView> {
    match json_items(j) {
        Some(items) => if items.len() == 2 {
            validation_of_fields(json_u64(items[0]), json_str(items[1]))
        } else {
            None
        },
        None => validation_of_fields(
            json_field_u64(j, "timestamp"@),
            json_field_str(j, "consensus_proof"@),
        ),
    }
}

/// The consensus statement of the two fields, if both were read.
pub open spec fn validation_of_fields(timestamp: Option<u64>, consensus_proof: Option<Seq<char>>) -> Option<
    ValidationView,
> {
    match (timestamp, consensus_proof) {
        (Some(timestamp), Some(consensus_proof)) => Some(
            ValidationView { timestamp, consensus_proof },
        ),
        _ => None,
    }
}

/// The consensus statement that a message makes.
pub open spec fn validation_statement(msg: Seq<u8>) -> Result<ValidationView, ErrorCode> {
    match message_json(msg) {
        Ok(j) => match validation_of_json(j) {
            Some(statement) => Ok(statement),
            None => Err(ErrorCode::MessageShouldJson),
        },
        Err(e) => Err(e),
    }
}

impl Validation {
    /// Reads a consensus statement out of a parsed JSON value.
    pub fn from_json(value: &serde_json::Value) -> (r: Option<Validation>)
        ensures
            match r {
                Some(statement) => validation_of_json(json_view(*value)) == Some(statement@),
                None => validation_of_json(json_view(*value)) is None,
            },
    {
        let (timestamp, proof) = match value_as_array(value) {
            Some(items) => {
                if items.len() != 2 {
                    return None;
                }
                (value_as_u64(&items[0]), value_as_str(&items[1]))
            },
            None => (field_u64(value, "timestamp"), field_str(value, "consensus_proof")),
        };
        match (timestamp, proof) {
            (Some(timestamp), Some(proof)) => Some(
                Validation { timestamp, consensus_proof: proof.to_owned() },
            ),
            _ => None,
        }
    }

    /// Reads the consensus statement that a message makes.
    pub fn decode(msg: &Vec<u8>) -> (r: Result<Validation, ErrorCode>)
        ensures
            match r {
                Ok(statement) => validation_statement(msg@) == Ok::<ValidationView, ErrorCode>(
                    statement@,
                ),
                Err(e) => validation_statement(msg@) == Err::<ValidationView, ErrorCode>(e),
            },
    {
        let value = decode_json(msg)?;
        match Validation::from_json(&value) {
            Some(statement) => Ok(statement),
            None => Err(ErrorCode::MessageShouldJson),
        }
    }
}

/// The records that the upload of a consensus proof touches.
#[derive(Clone, Debug, PartialEq, Eq)]
pub struct UploadValidation {
    /// The submitter.
    pub user: Pubkey,
    /// The submitter's general balance, out of which the fee is paid.
    pub user_lamports: u64,
    pub config: Config,
    /// The balance in the configuration's custody, into which fees go.
    pub config_lamports: u64,
    /// The proof record kept for the timestamp and the submitter: none
    /// before the upload.
    pub consensus: Option<ConsensusState>,
    pub ix_sysvar: InstructionsSysvar,
}

/// What was read of a message, as a mathematical value.
pub open spec fn validation_read(statement: Result<Validation, ErrorCode>) -> Result<
    ValidationView,
    ErrorCode,
> {
    match statement {
        Ok(statement) => Ok(statement@),
        Err(e) => Err(e),
    }
}

/// The timestamp and the proof that an upload is to record, or why there
/// are none, given what was read of the message and whether the step
/// before the upload verified its signature under the configured signer.
/// In this order: the configuration must be set up; the signature must
/// have been verified; the message must have made a consensus statement;
/// the statement's proof must write 32 bytes.
pub open spec fn proof_admitted(
    ctx: UploadValidation,
    statement: Result<ValidationView, ErrorCode>,
    signed: bool,
) -> Result<(u64, Seq<u8>), ErrorCode> {
    if !ctx.config.initialized {
        Err(ErrorCode::NotInitialized)
    } else if !signed {
        Err(ErrorCode::SigVerificationFailed)
    } else {
        match statement {
            Ok(statement) => match proof_bytes(encode_utf8(statement.consensus_proof)) {
                Ok(proof) => Ok((statement.timestamp, proof)),
                Err(e) => Err(e),
            },
            Err(e) => Err(e),
        }
    }
}

/// The timestamp and the proof that the upload of `msg`, signed by `sig`,
/// is to record, or why there are none.
pub open spec fn admitted_proof(ctx: UploadValidation, msg: Seq<u8>, sig: Seq<u8>) -> Result<
    (u64, Seq<u8>),
    ErrorCode,
> {
    proof_admitted(
        ctx,
        validation_statement(msg),
        signed_by(ctx.ix_sysvar.key@, ctx.ix_sysvar.data@, ctx.config.signer@, msg, sig),
    )
}

/// Why a proof is not recorded, if it is not, given what was read of the
/// message and whether its signature was verified. A proof that is
/// admitted is still refused if there is a record for the timestamp and
/// the submitter already, or if the fee cannot be moved.
pub open spec fn record_proof_refusal(
    ctx: UploadValidation,
    statement: Result<ValidationView, ErrorCode>,
    signed: bool,
) -> Option<ErrorCode> {
    match proof_admitted(ctx, statement, signed) {
        Err(e) => Some(e),
        Ok(_) => if ctx.consensus is Some {
            Some(ErrorCode::AccountInUse)
        } else if ctx.user_lamports < ctx.config.fee {
            Some(ErrorCode::InsufficientFunds)
        } else if ctx.config_lamports + ctx.config.fee > u64::MAX {
            Some(ErrorCode::Overflow)
        } else {
            None
        },
    }
}

/// Why the upload of `msg`, signed by `sig`, is refused, if it is.
pub open spec fn upload_validation_refusal(ctx: UploadValidation, msg: Seq<u8>, sig: Seq<u8>) -> Option<
    ErrorCode,
> {
    record_proof_refusal(
        ctx,
        validation_statement(msg),
        signed_by(ctx.ix_sysvar.key@, ctx.ix_sysvar.data@, ctx.config.signer@, msg, sig),
    )
}

/// What a recorded proof leaves behind: the new record holds the admitted
/// timestamp and proof and says whether the submitter is the configured
/// signer; the fee has moved from the submitter to the configuration's
/// custody; nothing else has changed.
pub open spec fn proof_recorded(
    pre: UploadValidation,
    post: UploadValidation,
    admitted: (u64, Seq<u8>),
) -> bool {
    &&& post.consensus matches Some(record)
    &&& record.timestamp == admitted.0
    &&& record.consensus_proof@ == admitted.1
    &&& record.global == (pre.user@ == pre.config.signer@)
    &&& record.bump == 0
    &&& post.user_lamports == pre.user_lamports - pre.config.fee
    &&& post.config_lamports == pre.config_lamports + pre.config.fee
    &&& post.user == pre.user
    &&& post.config == pre.config
    &&& post.ix_sysvar == pre.ix_sysvar
}

/// What an accepted upload of `msg`, signed by `sig`, leaves behind.
pub open spec fn validation_uploaded(
    pre: UploadValidation,
    post: UploadValidation,
    msg: Seq<u8>,
    sig: Seq<u8>,
) -> bool {
    admitted_proof(pre, msg, sig) matches Ok(admitted) && proof_recorded(pre, post, admitted)
}

/// Records a consensus proof for the submitter, given what was read of its
/// message and whether the step before verified the message's signature
/// under the configured signer.
///
/// The signature is taken on the caller's word: `upload_validation` checks
/// it before it records.
pub fn record_proof(ctx: &mut UploadValidation, statement: Result<Validation, ErrorCode>, signed: bool) -> (r:
    Result<(), ErrorCode>)
    ensures
        match record_proof_refusal(*old(ctx), validation_read(statement), signed) {
            Some(e) => r == Err::<(), ErrorCode>(e) && *final(ctx) == *old(ctx),
            None => r is Ok && proof_recorded(
                *old(ctx),
                *final(ctx),
                proof_admitted(*old(ctx), validation_read(statement), signed)->Ok_0,
            ),
        },
{
    if !ctx.config.initialized {
        return Err(ErrorCode::NotInitialized);
    }
    if !signed {
        return Err(ErrorCode::SigVerificationFailed);
    }
    let statement = statement?;
    let proof = decode_proof(statement.consensus_proof.as_str())?;
    if ctx.consensus.is_some() {
        return Err(ErrorCode::AccountInUse);
    }
    let fee = ctx.config.fee;
    if ctx.user_lamports < fee {
        return Err(ErrorCode::InsufficientFunds);
    }
    if ctx.config_lamports > u64::MAX - fee {
        return Err(ErrorCode::Overflow);
    }
    ctx.consensus = Some(
        ConsensusState {
            global: ctx.user == ctx.config.signer,
            timestamp: statement.timestamp,
            consensus_proof: proof,
            bump: 0,
        },
    );
    ctx.user_lamports = ctx.user_lamports - fee;
    ctx.config_lamports = ctx.config_lamports + fee;
    Ok(())
}

/// Uploads the consensus proof that `msg` states, signed by `sig`, to be
/// kept under `timestamp` and the submitter.
pub fn upload_validation(ctx: &mut UploadValidation, timestamp: u64, msg: Vec<u8>, sig: [u8; 64]) -> (r:
    Result<(), ErrorCode>)
    ensures
        match upload_validation_refusal(*old(ctx), msg@, sig@) {
            Some(e) => r == Err::<(), ErrorCode>(e) && *final(ctx) == *old(ctx),
            None => r is Ok && validation_uploaded(*old(ctx), *final(ctx), msg@, sig@),
        },
{
    let statement = Validation::decode(&msg);
    let signed = verify_signed_by(&ctx.ix_sysvar, &ctx.config.signer, msg.as_slice(), &sig).is_ok();
    record_proof(ctx, statement, signed)
}

} // verus!
