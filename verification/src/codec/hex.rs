//! Consensus proofs are written in hexadecimal.

use vstd::prelude::*;
use vstd::slice::slice_subrange;
use vstd::string::StringSliceAdditionalSpecFns;
use crate::errors::error::ErrorCode;

verus! {

#[verifier::external_type_specification]
#[verifier::external_body]
pub struct ExFromHexError(hex::FromHexError);

/// The value of a hexadecimal digit, in either case.
pub open spec fn hex_value(c: u8) -> Option<u8> {
    if 0x30 <= c <= 0x39 {
        Some((c - 0x30) as u8)
    } else if 0x61 <= c <= 0x66 {
        Some((c - 0x61 + 10) as u8)
    } else if 0x41 <= c <= 0x46 {
        Some((c - 0x41 + 10) as u8)
    } else {
        None
    }
}

/// Whether `digits` is an even number of hexadecimal digits.
pub open spec fn is_hex(digits: Seq<u8>) -> bool {
    &&& digits.len() % 2 == 0
    &&& forall|i: int| 0 <= i < digits.len() ==> hex_value(#[trigger] digits[i]) is Some
}

/// The bytes that `digits` write, two digits to the byte, the high one
/// first.
pub open spec fn hex_bytes(digits: Seq<u8>) -> Seq<u8> {
    Seq::new(
        digits.len() / 2,
        |i: int| (16 * hex_value(digits[2 * i])->0 + hex_value(digits[2 * i + 1])->0) as u8,
    )
}

/// Calls `hex::decode`, which succeeds exactly on an even number of
/// hexadecimal digits, of either case, and then gives the bytes they write.
#[verifier::external_body]
fn hex_decode(digits: &[u8]) -> (r: Result<Vec<u8>, hex::FromHexError>)
    ensures
        r is Ok <==> is_hex(digits@),
        r matches Ok(bytes) ==> bytes@ == hex_bytes(digits@),
{
    hex::decode(digits)
}

/// Whether `text` opens with `0x` or `0X`.
pub open spec fn has_prefix(text: Seq<u8>) -> bool {
    text.len() >= 2 && text[0] == 0x30 && (text[1] == 0x78 || text[1] == 0x58)
}

/// `text` without the `0x` that may open it.
pub open spec fn strip_prefix(text: Seq<u8>) -> Seq<u8> {
    if has_prefix(text) {
        text.skip(2)
    } else {
        text
    }
}

/// The consensus proof that `text` writes: after the `0x` that may open
/// it, `text` must be hexadecimal digits, and they must write exactly 32
/// bytes.
pub open spec fn proof_bytes(text: Seq<u8>) -> Result<Seq<u8>, ErrorCode> {
    let digits = strip_prefix(text);
    if !is_hex(digits) {
        Err(ErrorCode::ProofDataError)
    } else if digits.len() != 64 {
        Err(ErrorCode::ProofLengthError)
    } else {
        Ok(hex_bytes(digits))
    }
}

/// What each text decodes to: 64 hexadecimal digits, with or without `0x`
/// before them, are accepted and give the 32 bytes that they write; any
/// other even number of hexadecimal digits is a length error; anything
/// else is a data error.
pub proof fn lemma_proof_decoding(text: Seq<u8>)
    ensures
        is_hex(strip_prefix(text)) && strip_prefix(text).len() == 64 ==> proof_bytes(text) == Ok::<
            Seq<u8>,
            ErrorCode,
        >(hex_bytes(strip_prefix(text))) && hex_bytes(strip_prefix(text)).len() == 32,
        is_hex(strip_prefix(text)) && strip_prefix(text).len() != 64 ==> proof_bytes(text) == Err::<
            Seq<u8>,
            ErrorCode,
        >(ErrorCode::ProofLengthError),
        !is_hex(strip_prefix(text)) ==> proof_bytes(text) == Err::<Seq<u8>, ErrorCode>(
            ErrorCode::ProofDataError,
        ),
        forall|i: int|
            0 <= i < strip_prefix(text).len() && hex_value(#[trigger] strip_prefix(text)[i])
                is None ==> proof_bytes(text) == Err::<Seq<u8>, ErrorCode>(
                ErrorCode::ProofDataError,
            ),
{
}

/// Reads the consensus proof that `text` writes.
pub fn decode_proof(text: &str) -> (r: Result<[u8; 32], ErrorCode>)
    ensures
        match r {
            Ok(proof) => proof_bytes(text.spec_bytes()) == Ok::<Seq<u8>, ErrorCode>(proof@),
            Err(e) => proof_bytes(text.spec_bytes()) == Err::<Seq<u8>, ErrorCode>(e),
        },
{
    let bytes = text.as_bytes();
    let len = bytes.len();
    let prefixed = len >= 2 && bytes[0] == 0x30 && (bytes[1] == 0x78 || bytes[1] == 0x58);
    let digits = if prefixed {
        slice_subrange(bytes, 2, len)
    } else {
        bytes
    };
    proof {
        assert(bytes@.skip(2) =~= bytes@.subrange(2, len as int));
        assert(digits@ == strip_prefix(bytes@));
    }
    let decoded = match hex_decode(digits) {
        Ok(decoded) => decoded,
        Err(_) => {
            return Err(ErrorCode::ProofDataError);
        },
    };
    if decoded.len() != 32 {
        return Err(ErrorCode::ProofLengthError);
    }
    let mut proof = [0u8; 32];
    let mut i: usize = 0;
    while i < 32
        invariant
            i <= 32,
            decoded@.len() == 32,
            forall|j: int| 0 <= j < i ==> proof@[j] == decoded@[j],
        decreases 32 - i,
    {
        proof[i] = decoded[i];
        i += 1;
    }
    proof {
        assert(proof@ =~= decoded@);
    }
    Ok(proof)
}

} // verus!
