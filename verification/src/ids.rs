//! Message identifiers: 128-bit values, drawn at random and written as UUIDs.

use vstd::prelude::*;

verus! {

/// The identifier that a text denotes when read as a UUID, if it denotes one.
/// It stands for what `uuid::Uuid::parse_str` returns on the text, with the
/// UUID taken as a number, most significant byte first.
pub uninterp spec fn parsed_id(text: Seq<char>) -> Option<u128>;

/// Whether `id` carries the marks of a random UUID: version 4 in bits 76 to
/// 79, and the variant `10` in bits 62 and 63.
pub open spec fn is_random_id(id: u128) -> bool {
    id & 0xF000_C000_0000_0000_0000u128 == 0x4000_8000_0000_0000_0000u128
}

/// A new identifier, drawn by `uuid::Uuid::new_v4` from the operating
/// system's random numbers.
///
/// The identifier carries the marks of a random UUID; nothing else is claimed
/// of it. In particular it may, however unlikely, be one drawn before.
/// `uuid::Uuid::new_v4` panics where the system has no random numbers to
/// give.
#[verifier::external_body]
pub(crate) fn fresh_id() -> (id: u128)
    ensures
        is_random_id(id),
{
    uuid::Uuid::new_v4().as_u128()
}

/// Reads `text` as a UUID with `uuid::Uuid::parse_str`, which takes the
/// hyphenated, simple, braced and URN forms, and returns `None` where the
/// text is none of them.
#[verifier::external_body]
pub(crate) fn parse_id(text: &str) -> (id: Option<u128>)
    ensures
        id == parsed_id(text@),
{
    match uuid::Uuid::parse_str(text) {
        Ok(uuid) => Some(uuid.as_u128()),
        Err(_) => None,
    }
}

} // verus!
