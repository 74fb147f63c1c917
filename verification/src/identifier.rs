//! Identifiers of messages and tokens.
//!
//! Both are UUIDs, held as the 128-bit number that they are. A new message
//! gets a version 7 UUID, which starts with the time of its creation.

use uuid::Uuid;
use vstd::prelude::*;

use crate::hexadecimal::lower_hex;

verus! {

/// The usual text of a UUID: its 32 lowercase hexadecimal digits in groups
/// of 8, 4, 4, 4 and 12, joined by hyphens.
pub open spec fn hyphenated(id: u128) -> Seq<char> {
    let digits = lower_hex(id as nat, 32);
    digits.subrange(0, 8) + seq!['-'] + digits.subrange(8, 12) + seq!['-'] + digits.subrange(
        12,
        16,
    ) + seq!['-'] + digits.subrange(16, 20) + seq!['-'] + digits.subrange(20, 32)
}

/// The identifier that a text stands for, in any of the forms that the
/// `uuid` crate reads: hyphenated, plain, in braces, or as a URN.
pub uninterp spec fn uuid_value(text: Seq<char>) -> Option<u128>;

/// Whether `id` is marked as a version 7 identifier of the RFC 4122
/// variant: the four bits below the 48 bits of the timestamp say 7, and the
/// two bits that lead its lower half say 2.
pub open spec fn is_version7(id: u128) -> bool {
    (id >> 76) & 0xf == 7 && (id >> 62) & 0x3 == 2
}

/// Calls `Uuid::now_v7` and returns the new identifier as a number.
///
/// Trusted: the identifier carries the marks of version 7. Its other bits
/// depend on the clock and on chance, and nothing is claimed of them.
#[verifier::external_body]
pub(crate) fn uuid_now() -> (id: u128)
    ensures
        is_version7(id),
{
    Uuid::now_v7().as_u128()
}

/// Calls `Uuid::from_u128` and formats the result with `to_string`.
///
/// Trusted: the text is the hyphenated lowercase form of the identifier.
#[verifier::external_body]
pub(crate) fn uuid_text(id: u128) -> (text: String)
    ensures
        text@ == hyphenated(id),
{
    Uuid::from_u128(id).to_string()
}

/// Calls `Uuid::parse_str`.
///
/// Trusted: the result is what `uuid_value` names, `None` where the crate
/// rejects the text.
#[verifier::external_body]
pub(crate) fn uuid_parse(text: &str) -> (id: Option<u128>)
    ensures
        id == uuid_value(text@),
{
    Uuid::parse_str(text).ok().map(|id| id.as_u128())
}

/// The text of an identifier, as it appears in tokens, replies and storage
/// keys.
pub fn identifier_text(id: u128) -> (text: String)
    ensures
        text@ == hyphenated(id),
        text@.len() == 36,
{
    proof {
        crate::hexadecimal::lemma_lower_hex_shape(id as nat, 32);
    }
    uuid_text(id)
}

} // verus!
