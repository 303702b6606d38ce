//! Messages are UTF-8 text.

use vstd::prelude::*;
use vstd::utf8::{decode_utf8, valid_utf8};
use crate::errors::error::ErrorCode;

verus! {

#[verifier::external_type_specification]
#[verifier::external_body]
pub struct ExFromUtf8Error(std::string::FromUtf8Error);

/// Calls `String::from_utf8`, which succeeds exactly on valid UTF-8 and
/// then gives the string that the bytes encode.
#[verifier::external_body]
fn string_from_utf8(bytes: Vec<u8>) -> (r: Result<String, std::string::FromUtf8Error>)
    ensures
        r is Ok <==> valid_utf8(bytes@),
        r matches Ok(text) ==> text@ == decode_utf8(bytes@),
{
    String::from_utf8(bytes)
}

/// The text of a message, or that it has none.
pub open spec fn message_text(msg: Seq<u8>) -> Result<Seq<char>, ErrorCode> {
    if valid_utf8(msg) {
        Ok(decode_utf8(msg))
    } else {
        Err(ErrorCode::MessageShouldString)
    }
}

/// Reads a message as text.
pub fn decode_text(msg: &Vec<u8>) -> (r: Result<String, ErrorCode>)
    ensures
        match r {
            Ok(text) => message_text(msg@) == Ok::<Seq<char>, ErrorCode>(text@),
            Err(e) => message_text(msg@) == Err::<Seq<char>, ErrorCode>(e),
        },
{
    match string_from_utf8(msg.clone()) {
        Ok(text) => Ok(text),
        Err(_) => Err(ErrorCode::MessageShouldString),
    }
}

} // verus!
