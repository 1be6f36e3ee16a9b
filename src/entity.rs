//! Entity ids and the storage key they name.

use vstd::prelude::*;
use vstd::string::StringSliceAdditionalSpecFns;

verus! {

/// The storage engine's native key: twelve bytes, written as 24 hex digits.
#[derive(Clone, Copy, Debug, PartialEq, Eq)]
pub struct EntityKey {
    pub bytes: [u8; 12],
}

/// Why an entity id names no key. Kept apart from lookup failures.
#[derive(Clone, Copy, Debug, PartialEq, Eq, Structural)]
pub enum KeyError {
    InvalidEntityId,
}

pub open spec fn is_hex_digit(c: u8) -> bool {
    (48 <= c <= 57) || (65 <= c <= 70) || (97 <= c <= 102)
}

pub open spec fn hex_value(c: u8) -> nat {
    if 48 <= c <= 57 {
        (c - 48) as nat
    } else if 65 <= c <= 70 {
        (c - 55) as nat
    } else {
        (c - 87) as nat
    }
}

/// Text that names a key: exactly 24 hex digits, in either case.
pub open spec fn is_key_text(b: Seq<u8>) -> bool {
    b.len() == 24 && forall|i: int| 0 <= i < b.len() ==> is_hex_digit(#[trigger] b[i])
}

/// The bytes that key text spells, two digits per byte, high digit first.
pub open spec fn key_bytes(b: Seq<u8>) -> Seq<u8> {
    Seq::new(12, |i: int| (hex_value(b[2 * i]) * 16 + hex_value(b[2 * i + 1])) as u8)
}

/// Relies on bson's `ObjectId::parse_str`: it hex-decodes the text and accepts
/// exactly twelve resulting bytes, which the id then holds.
#[verifier::external_body]
fn object_id_bytes(text: &str) -> (r: Option<[u8; 12]>)
    ensures
        r is Some <==> is_key_text(text.spec_bytes()),
        r matches Some(k) ==> k@ == key_bytes(text.spec_bytes()),
{
    bson::oid::ObjectId::parse_str(text).ok().map(|id| id.bytes())
}

/// Parses an entity id into its storage key; a malformed id is an error, never
/// a panic.
pub fn parse_entity_key(id: &str) -> (r: Result<EntityKey, KeyError>)
    ensures
        r is Ok <==> is_key_text(id.spec_bytes()),
        r matches Ok(k) ==> k.bytes@ == key_bytes(id.spec_bytes()),
        r matches Err(e) ==> e == KeyError::InvalidEntityId,
{
    match object_id_bytes(id) {
        Some(bytes) => Ok(EntityKey { bytes }),
        None => Err(KeyError::InvalidEntityId),
    }
}

} // verus!
