//! Statements are JSON objects.
//!
//! The text is parsed by `serde_json`. What it parses to is known here only
//! through the mathematical value `Json` that a parsed value stands for; the
//! schema of each statement is checked against that.
//!
//! A statement is an object with one member for each of its fields, in any
//! order, or an array of its fields in their order and of nothing else.
//! The whole text is parsed before the fields are looked at, so:
//!
//! - members that the statement does not name are passed over, but each
//!   must itself be JSON that `serde_json` reads into a value;
//! - where an object names a member more than once, the last one counts.

use vstd::prelude::*;
use crate::codec::text::{decode_text, message_text};
use crate::errors::error::ErrorCode;
use crate::pubkey::Pubkey;

verus! {

/// A JSON value. Of a number only its reading as an unsigned 64-bit integer
/// is kept: `None` for a number that is not such an integer.
pub enum Json {
    Null,
    Bool(bool),
    Number(Option<u64>),
    String(Seq<char>),
    Array(Seq<Json>),
    Object(Map<Seq<char>, Json>),
}

#[verifier::external_type_specification]
#[verifier::external_body]
pub struct ExValue(serde_json::Value);

#[verifier::external_type_specification]
#[verifier::external_body]
pub struct ExJsonError(serde_json::Error);

/// The JSON value that a text is, if it is one.
pub uninterp spec fn json_parse(text: Seq<char>) -> Option<Json>;

/// The JSON value that a parsed value holds.
pub uninterp spec fn json_view(value: serde_json::Value) -> Json;

/// The member `key` of an object; none of anything else.
pub open spec fn json_field(j: Json, key: Seq<char>) -> Option<Json> {
    match j {
        Json::Object(members) => if members.contains_key(key) {
            Some(members[key])
        } else {
            None
        },
        _ => None,
    }
}

/// A number that fits 64 bits without sign.
pub open spec fn json_u64(j: Json) -> Option<u64> {
    match j {
        Json::Number(n) => n,
        _ => None,
    }
}

/// A number that fits 16 bits without sign.
pub open spec fn json_u16(j: Json) -> Option<u16> {
    match json_u64(j) {
        Some(n) => if n <= 0xffff {
            Some(n as u16)
        } else {
            None
        },
        None => None,
    }
}

/// A number that fits a byte.
pub open spec fn json_u8(j: Json) -> Option<u8> {
    match json_u64(j) {
        Some(n) => if n <= 0xff {
            Some(n as u8)
        } else {
            None
        },
        None => None,
    }
}

/// A string.
pub open spec fn json_str(j: Json) -> Option<Seq<char>> {
    match j {
        Json::String(s) => Some(s),
        _ => None,
    }
}

/// A public key: an array of exactly 32 numbers that each fit a byte.
pub open spec fn json_pubkey(j: Json) -> Option<Seq<u8>> {
    match j {
        Json::Array(items) => if items.len() == 32 && forall|i: int|
            0 <= i < 32 ==> json_u8(#[trigger] items[i]) is Some {
            Some(Seq::new(32, |i: int| json_u8(items[i])->0))
        } else {
            None
        },
        _ => None,
    }
}

/// The items of an array; none of anything else.
pub open spec fn json_items(j: Json) -> Option<Seq<Json>> {
    match j {
        Json::Array(items) => Some(items),
        _ => None,
    }
}

/// The member `key` of an object, as a number of 64 bits without sign.
pub open spec fn json_field_u64(j: Json, key: Seq<char>) -> Option<u64> {
    match json_field(j, key) {
        Some(member) => json_u64(member),
        None => None,
    }
}

/// The member `key` of an object, as a number of 16 bits without sign.
pub open spec fn json_field_u16(j: Json, key: Seq<char>) -> Option<u16> {
    match json_field(j, key) {
        Some(member) => json_u16(member),
        None => None,
    }
}

/// The member `key` of an object, as a string.
pub open spec fn json_field_str(j: Json, key: Seq<char>) -> Option<Seq<char>> {
    match json_field(j, key) {
        Some(member) => json_str(member),
        None => None,
    }
}

/// The member `key` of an object, as a public key.
pub open spec fn json_field_pubkey(j: Json, key: Seq<char>) -> Option<Seq<u8>> {
    match json_field(j, key) {
        Some(member) => json_pubkey(member),
        None => None,
    }
}

/// Parses a text with `serde_json::from_str`, into a `serde_json::Value`.
/// What the text parses to, or that it does not parse, is by definition
/// `json_parse` of the text; nothing more is claimed of it.
#[verifier::external_body]
pub(crate) fn parse_value(text: &str) -> (r: Result<serde_json::Value, serde_json::Error>)
    ensures
        match r {
            Ok(value) => json_parse(text@) == Some(json_view(value)),
            Err(_) => json_parse(text@) is None,
        },
{
    serde_json::from_str::<serde_json::Value>(text)
}

/// Calls `serde_json::Value::get` with a string index: the member of that
/// name if the value is an object that has one, nothing otherwise.
#[verifier::external_body]
pub(crate) fn value_get<'a>(value: &'a serde_json::Value, key: &str) -> (r: Option<&'a serde_json::Value>)
    ensures
        match r {
            Some(member) => json_field(json_view(*value), key@) == Some(json_view(*member)),
            None => json_field(json_view(*value), key@) is None,
        },
{
    value.get(key)
}

/// Calls `serde_json::Value::as_u64`: the number if the value is an integer
/// that fits 64 bits without sign, nothing otherwise.
#[verifier::external_body]
pub(crate) fn value_as_u64(value: &serde_json::Value) -> (r: Option<u64>)
    ensures
        r == json_u64(json_view(*value)),
{
    value.as_u64()
}

/// Calls `serde_json::Value::as_str`: the string if the value is one,
/// nothing otherwise.
#[verifier::external_body]
pub(crate) fn value_as_str<'a>(value: &'a serde_json::Value) -> (r: Option<&'a str>)
    ensures
        match r {
            Some(s) => json_str(json_view(*value)) == Some(s@),
            None => json_str(json_view(*value)) is None,
        },
{
    value.as_str()
}

/// Calls `serde_json::Value::as_array`: the items if the value is an array,
/// nothing otherwise.
#[verifier::external_body]
pub(crate) fn value_as_array<'a>(value: &'a serde_json::Value) -> (r: Option<&'a Vec<serde_json::Value>>)
    ensures
        match r {
            Some(items) => json_view(*value) == Json::Array(
                items@.map_values(|item: serde_json::Value| json_view(item)),
            ),
            None => !(json_view(*value) is Array),
        },
{
    value.as_array()
}

/// The JSON value that a message is: its text, parsed.
pub open spec fn message_json(msg: Seq<u8>) -> Result<Json, ErrorCode> {
    match message_text(msg) {
        Ok(text) => match json_parse(text) {
            Some(j) => Ok(j),
            None => Err(ErrorCode::MessageShouldJson),
        },
        Err(e) => Err(e),
    }
}

/// Reads a message as JSON.
pub fn decode_json(msg: &Vec<u8>) -> (r: Result<serde_json::Value, ErrorCode>)
    ensures
        match r {
            Ok(value) => message_json(msg@) == Ok::<Json, ErrorCode>(json_view(value)),
            Err(e) => message_json(msg@) == Err::<Json, ErrorCode>(e),
        },
{
    let text = decode_text(msg)?;
    match parse_value(text.as_str()) {
        Ok(value) => Ok(value),
        Err(_) => Err(ErrorCode::MessageShouldJson),
    }
}

/// Reads a value as a number of 16 bits without sign.
pub fn as_u16(value: &serde_json::Value) -> (r: Option<u16>)
    ensures
        r == json_u16(json_view(*value)),
{
    match value_as_u64(value) {
        Some(n) => if n <= 0xffff {
            Some(n as u16)
        } else {
            None
        },
        None => None,
    }
}

/// Reads a value as a byte.
pub fn as_u8(value: &serde_json::Value) -> (r: Option<u8>)
    ensures
        r == json_u8(json_view(*value)),
{
    match value_as_u64(value) {
        Some(n) => if n <= 0xff {
            Some(n as u8)
        } else {
            None
        },
        None => None,
    }
}

/// Reads a value as a public key.
pub fn as_pubkey(value: &serde_json::Value) -> (r: Option<Pubkey>)
    ensures
        match r {
            Some(key) => json_pubkey(json_view(*value)) == Some(key@),
            None => json_pubkey(json_view(*value)) is None,
        },
{
    let items = match value_as_array(value) {
        Some(items) => items,
        None => {
            return None;
        },
    };
    if items.len() != 32 {
        return None;
    }
    let ghost model = items@.map_values(|item: serde_json::Value| json_view(item));
    let mut bytes = [0u8; 32];
    let mut i: usize = 0;
    while i < 32
        invariant
            i <= 32,
            items@.len() == 32,
            model == items@.map_values(|item: serde_json::Value| json_view(item)),
            json_view(*value) == Json::Array(model),
            forall|j: int| 0 <= j < i ==> json_u8(#[trigger] model[j]) == Some(bytes@[j]),
        decreases 32 - i,
    {
        match as_u8(&items[i]) {
            Some(byte) => {
                bytes[i] = byte;
            },
            None => {
                assert(json_u8(model[i as int]) is None);
                return None;
            },
        }
        i += 1;
    }
    let key = Pubkey { bytes };
    proof {
        assert(key@ =~= Seq::new(32, |i: int| json_u8(model[i])->0));
    }
    Some(key)
}

/// Reads the member `key` of an object as a number of 64 bits without sign.
pub fn field_u64(value: &serde_json::Value, key: &str) -> (r: Option<u64>)
    ensures
        r == json_field_u64(json_view(*value), key@),
{
    match value_get(value, key) {
        Some(member) => value_as_u64(member),
        None => None,
    }
}

/// Reads the member `key` of an object as a number of 16 bits without sign.
pub fn field_u16(value: &serde_json::Value, key: &str) -> (r: Option<u16>)
    ensures
        r == json_field_u16(json_view(*value), key@),
{
    match value_get(value, key) {
        Some(member) => as_u16(member),
        None => None,
    }
}

/// Reads the member `key` of an object as a string.
pub fn field_str<'a>(value: &'a serde_json::Value, key: &str) -> (r: Option<&'a str>)
    ensures
        match r {
            Some(s) => json_field_str(json_view(*value), key@) == Some(s@),
            None => json_field_str(json_view(*value), key@) is None,
        },
{
    match value_get(value, key) {
        Some(member) => value_as_str(member),
        None => None,
    }
}

/// Reads the member `key` of an object as a public key.
pub fn field_pubkey(value: &serde_json::Value, key: &str) -> (r: Option<Pubkey>)
    ensures
        match r {
            Some(k) => json_field_pubkey(json_view(*value), key@) == Some(k@),
            None => json_field_pubkey(json_view(*value), key@) is None,
        },
{
    match value_get(value, key) {
        Some(member) => as_pubkey(member),
        None => None,
    }
}

} // verus!
