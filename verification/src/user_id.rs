//! Account identifiers.
//!
//! An account is identified by a UUID. The library holds it as the 128-bit
//! number it stands for and turns to the `uuid` crate for its text forms: the
//! hyphenated lower-case form that a token's `sub` claim carries, and the
//! parser that reads it back.

use crate::hex::hex_of;
use vstd::arithmetic::power2::pow2;
use vstd::prelude::*;

verus! {

/// Byte `i` of the identifier, most significant byte first.
pub open spec fn id_byte(id: u128, i: int) -> u8 {
    ((id as nat / pow2((8 * (15 - i)) as nat)) % 256) as u8
}

/// The sixteen bytes of the identifier in big-endian order.
pub open spec fn id_bytes(id: u128) -> Seq<u8> {
    Seq::new(16, |i: int| id_byte(id, i))
}

/// The hyphenated lower-case form: the bytes in hexadecimal, grouped
/// 8-4-4-4-12.
pub open spec fn user_id_text(id: u128) -> Seq<char> {
    let b = id_bytes(id);
    hex_of(b.subrange(0, 4)) + seq!['-'] + hex_of(b.subrange(4, 6)) + seq!['-'] + hex_of(
        b.subrange(6, 8),
    ) + seq!['-'] + hex_of(b.subrange(8, 10)) + seq!['-'] + hex_of(b.subrange(10, 16))
}

/// What `uuid::Uuid::parse_str` makes of a text: the identifier it denotes,
/// or `None` where the text is no UUID in any of the forms the crate reads.
pub uninterp spec fn parsed_user_id(text: Seq<char>) -> Option<u128>;

/// Calls `Uuid::from_u128(id).hyphenated().to_string()`.
///
/// Trusted: the result is the hyphenated lower-case text of `id`, and
/// `Uuid::parse_str` reads that text back as `id`.
#[verifier::external_body]
pub(crate) fn format_user_id(id: u128) -> (text: String)
    ensures
        text@ == user_id_text(id),
        parsed_user_id(text@) == Some(id),
{
    uuid::Uuid::from_u128(id).hyphenated().to_string()
}

/// Calls `Uuid::parse_str(text)` and takes the parsed value as a number.
///
/// Trusted: the result is what the parser makes of the text, in any of the
/// forms it accepts; a text that is no UUID gives `None`.
#[verifier::external_body]
pub(crate) fn parse_user_id(text: &str) -> (id: Option<u128>)
    ensures
        id == parsed_user_id(text@),
{
    uuid::Uuid::parse_str(text).ok().map(|u| u.as_u128())
}

} // verus!
