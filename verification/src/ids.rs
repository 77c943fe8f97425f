//! Ids of context items: 128-bit values, minted at random.

use vstd::prelude::*;
use crate::crypto::hex_digit;

verus! {

/// Whether a 128-bit value has the version and variant bits of a random
/// (version 4) UUID.
pub open spec fn is_random_uuid(id: u128) -> bool {
    id & 0x0000_0000_0000_f000_c000_0000_0000_0000u128
        == 0x0000_0000_0000_4000_8000_0000_0000_0000u128
}

/// The hexadecimal digit of an id at place `k` of its 32 digits, the
/// highest first.
pub open spec fn uuid_digit(id: u128, k: int) -> int {
    (id as int / vstd::arithmetic::power::pow(16, (31 - k) as nat)) % 16
}

/// The text of an id as a UUID: its 32 lower-case hexadecimal digits, the
/// highest first, in groups of 8, 4, 4, 4 and 12 with hyphens between them.
pub open spec fn uuid_text(id: u128) -> Seq<char> {
    Seq::new(
        36,
        |i: int|
            if i == 8 || i == 13 || i == 18 || i == 23 {
                '-'
            } else if i < 8 {
                hex_digit(uuid_digit(id, i))
            } else if i < 13 {
                hex_digit(uuid_digit(id, i - 1))
            } else if i < 18 {
                hex_digit(uuid_digit(id, i - 2))
            } else if i < 23 {
                hex_digit(uuid_digit(id, i - 3))
            } else {
                hex_digit(uuid_digit(id, i - 4))
            },
    )
}

/// The id that a text names as a UUID; `None` where the text is no UUID.
pub uninterp spec fn uuid_value(text: Seq<char>) -> Option<u128>;

/// `Uuid::parse_str` and `Uuid::as_u128`: the id that the text names, or
/// `None` where it names none. The id depends on the text alone.
#[verifier::external_body]
pub(crate) fn parse_uuid(text: &str) -> (id: Option<u128>)
    ensures
        id == uuid_value(text@),
{
    match uuid::Uuid::parse_str(text) {
        Ok(uuid) => Some(uuid.as_u128()),
        Err(_) => None,
    }
}

/// `Uuid::new_v4` and `Uuid::as_u128`: a random UUID as a number. Of its
/// 128 bits six are fixed, those of the version and the variant; nothing is
/// said of the others.
#[verifier::external_body]
pub(crate) fn mint_id() -> (id: u128)
    ensures
        is_random_uuid(id),
{
    uuid::Uuid::new_v4().as_u128()
}

/// `Uuid::from_u128` and the `Display` of `Uuid`: the text of the UUID of
/// this number, hyphenated and in lower case.
#[verifier::external_body]
pub(crate) fn id_text(id: u128) -> (text: String)
    ensures
        text@ == uuid_text(id),
{
    uuid::Uuid::from_u128(id).to_string()
}

} // verus!
