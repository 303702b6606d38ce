//! The steps of the transaction that an operation runs in.
//!
//! The platform lays the transaction's instructions out in the data of a
//! well-known account and notes, in the last two bytes, which of them is
//! running. An operation finds there the step that came right before it.

use vstd::prelude::*;
use crate::errors::error::ErrorCode;
use crate::pubkey::Pubkey;
use crate::utils::ed25519::{attests, verify_ed25519_ix, AccountMeta, Instruction, InstructionView};

verus! {

/// The identity of the account that holds the transaction's instructions.
pub const INSTRUCTIONS_ID: [u8; 32] = [
    6, 167, 213, 23, 24, 123, 209, 102, 53, 218, 212, 4, 85, 253, 194, 192,
    193, 36, 198, 143, 33, 86, 117, 165, 219, 186, 203, 95, 8, 0, 0, 0,
];

/// The account that holds the transaction's instructions, as an operation
/// is handed it: its address and its data.
#[derive(Clone, Debug, PartialEq, Eq)]
pub struct InstructionsSysvar {
    pub key: Pubkey,
    pub data: Vec<u8>,
}

#[verifier::external_type_specification]
#[verifier::external_body]
pub struct ExSanitizeError(solana_program::sanitize::SanitizeError);

/// The instruction that the platform's layout `data` holds at `index`, if
/// it holds one there.
pub uninterp spec fn instruction_at(data: Seq<u8>, index: int) -> Option<InstructionView>;

/// Reads one instruction out of the platform's layout with
/// `solana_program::sysvar::instructions::load_instruction_at`, which
/// parses `data` and nothing else, and does not look at the address of the
/// account that the data came from. What it finds at `index`, or that it
/// finds nothing, is by definition `instruction_at(data, index)`; nothing
/// more is claimed of it.
#[allow(deprecated)]
#[verifier::external_body]
fn load_instruction_at(index: usize, data: &[u8]) -> (r: Result<
    Instruction,
    solana_program::sanitize::SanitizeError,
>)
    ensures
        match r {
            Ok(ix) => instruction_at(data@, index as int) == Some(ix@),
            Err(_) => instruction_at(data@, index as int) is None,
        },
{
    let ix = solana_program::sysvar::instructions::load_instruction_at(index, data)?;
    let accounts = ix.accounts.iter().map(
        |m| AccountMeta {
            pubkey: Pubkey { bytes: m.pubkey.to_bytes() },
            is_signer: m.is_signer,
            is_writable: m.is_writable,
        },
    ).collect();
    Ok(Instruction { program_id: Pubkey { bytes: ix.program_id.to_bytes() }, accounts, data: ix.data })
}

/// The index of the running instruction that `data` notes in its last two
/// bytes, low byte first.
pub open spec fn current_index(data: Seq<u8>) -> int
    recommends
        data.len() >= 2,
{
    data[data.len() - 2] as int + 256 * (data[data.len() - 1] as int)
}

/// The instruction that stands right before the running one: none if the
/// account is not the one that holds the instructions, if its data is too
/// short to note an index, if the running instruction is the first, or if
/// the layout holds nothing at the index before it.
pub open spec fn preceding_instruction(key: Seq<u8>, data: Seq<u8>) -> Option<InstructionView> {
    if key == INSTRUCTIONS_ID@ && data.len() >= 2 && current_index(data) >= 1 {
        instruction_at(data, current_index(data) - 1)
    } else {
        None
    }
}

impl InstructionsSysvar {
    /// Whether this is the account that holds the instructions.
    pub fn check_id(&self) -> (ok: bool)
        ensures
            ok == (self.key@ == INSTRUCTIONS_ID@),
    {
        self.key == Pubkey { bytes: INSTRUCTIONS_ID }
    }

    /// The index of the running instruction.
    pub fn load_current_index_checked(&self) -> (r: Option<u16>)
        ensures
            r is Some <==> self.key@ == INSTRUCTIONS_ID@ && self.data@.len() >= 2,
            r matches Some(index) ==> index == current_index(self.data@),
    {
        let len = self.data.len();
        if !self.check_id() || len < 2 {
            return None;
        }
        let low: u16 = self.data[len - 2] as u16;
        let high: u16 = self.data[len - 1] as u16;
        Some(low + 256 * high)
    }

    /// The instruction that stands right before the running one.
    pub fn load_preceding_instruction(&self) -> (r: Option<Instruction>)
        ensures
            match r {
                Some(ix) => preceding_instruction(self.key@, self.data@) == Some(ix@),
                None => preceding_instruction(self.key@, self.data@) is None,
            },
    {
        match self.load_current_index_checked() {
            Some(index) => {
                if index == 0 {
                    return None;
                }
                match load_instruction_at((index - 1) as usize, self.data.as_slice()) {
                    Ok(ix) => Some(ix),
                    Err(_) => None,
                }
            },
            None => None,
        }
    }
}

/// Whether the step right before the running one verified `sig` over `msg`
/// under `signer`.
pub open spec fn signed_by(key: Seq<u8>, data: Seq<u8>, signer: Seq<u8>, msg: Seq<u8>, sig: Seq<u8>) -> bool {
    preceding_instruction(key, data) matches Some(ix) && attests(ix, signer, msg, sig)
}

/// Checks that the step right before the running one is a genuine
/// verification of `sig` over `msg` under `signer`.
pub fn verify_signed_by(sysvar: &InstructionsSysvar, signer: &Pubkey, msg: &[u8], sig: &[u8; 64]) -> (r:
    Result<(), ErrorCode>)
    ensures
        r is Ok <==> signed_by(sysvar.key@, sysvar.data@, signer@, msg@, sig@),
        r is Err ==> r == Err::<(), ErrorCode>(ErrorCode::SigVerificationFailed),
{
    match sysvar.load_preceding_instruction() {
        Some(ix) => verify_ed25519_ix(&ix, &signer.bytes, msg, sig),
        None => Err(ErrorCode::SigVerificationFailed),
    }
}

} // verus!
