//! Identifiers: the 128-bit value of a UUID and its hyphenated text.
use vstd::prelude::*;

use crate::text::hex_digits;

verus! {

/// The hyphenated lowercase text of the UUID with value `value`
/// (`8-4-4-4-12` hexadecimal digits, most significant first).
pub open spec fn uuid_text(value: u128) -> Seq<char> {
    hex_digits(value as nat / 0x1_0000_0000_0000_0000_0000_0000, 8) + seq!['-'] + hex_digits(
        value as nat / 0x1_0000_0000_0000_0000_0000,
        4,
    ) + seq!['-'] + hex_digits(value as nat / 0x1_0000_0000_0000_0000, 4) + seq!['-']
        + hex_digits(value as nat / 0x1_0000_0000_0000, 4) + seq!['-'] + hex_digits(
        value as nat,
        12,
    )
}

/// The UUID value that `uuid::Uuid::parse_str` reads from `text`, if it reads one.
pub uninterp spec fn parsed_uuid(text: Seq<char>) -> Option<u128>;

/// `uuid::Uuid::from_u128(value).to_string()`: the hyphenated lowercase
/// text of a UUID, which `Uuid::parse_str` reads back.
#[verifier::external_body]
pub fn uuid_string(value: u128) -> (text: String)
    ensures
        text@ == uuid_text(value),
        parsed_uuid(text@) == Some(value),
{
    uuid::Uuid::from_u128(value).to_string()
}

/// `uuid::Uuid::parse_str`: the UUID that `text` writes, in any of the
/// formats the crate reads (simple, hyphenated, braced, URN). Which texts it
/// accepts is left to the name `parsed_uuid`.
#[verifier::external_body]
pub fn parse_uuid(text: &str) -> (value: Option<u128>)
    ensures
        value == parsed_uuid(text@),
{
    match uuid::Uuid::parse_str(text) {
        Ok(id) => Some(id.as_u128()),
        Err(_) => None,
    }
}

pub proof fn lemma_hex_digits_len(value: nat, count: nat)
    ensures
        crate::text::hex_digits(value, count).len() == count,
    decreases count,
{
    if count > 0 {
        lemma_hex_digits_len(value / 16, (count - 1) as nat);
    }
}

/// Whether the stored identifier text `stored` names the UUID `id`.
pub fn names_id(stored: &str, id: u128) -> (same: bool)
    ensures
        same == (stored@ == uuid_text(id)),
{
    let text = uuid_string(id);
    crate::text::text_eq(stored, text.as_str())
}

} // verus!
