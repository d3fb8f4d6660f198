//! Computer identifiers: random 128-bit values, written as 32 lower-case
//! hexadecimal digits in groups of 8, 4, 4, 4 and 12 with hyphens between.

use vstd::arithmetic::power::pow;
use vstd::prelude::*;

verus! {

/// Length of an identifier's text.
pub const TEXT_LENGTH: usize = 36;

/// The hexadecimal digit `position` of `value`, counted from the most
/// significant of its 32 digits.
pub open spec fn hex_digit_value(value: u128, position: int) -> int {
    (value as int / pow(16, (31 - position) as nat)) % 16
}

/// The lower-case character of one hexadecimal digit.
pub open spec fn hex_digit_char(digit: int) -> char {
    seq!['0', '1', '2', '3', '4', '5', '6', '7', '8', '9', 'a', 'b', 'c', 'd', 'e', 'f'][digit]
}

/// Number of hyphens that stand before index `index` of an identifier's text.
pub open spec fn hyphens_before(index: int) -> int {
    if index < 8 {
        0
    } else if index < 13 {
        1
    } else if index < 18 {
        2
    } else if index < 23 {
        3
    } else {
        4
    }
}

/// The character at `index` of the hyphenated text of `value`.
pub open spec fn hyphenated_char(value: u128, index: int) -> char {
    if index == 8 || index == 13 || index == 18 || index == 23 {
        '-'
    } else {
        hex_digit_char(hex_digit_value(value, index - hyphens_before(index)))
    }
}

/// The canonical text of `value`, such as
/// `936da01f-9abd-4d9d-80c7-02af85c822a8`.
pub open spec fn hyphenated(value: u128) -> Seq<char> {
    Seq::new(36, |index: int| hyphenated_char(value, index))
}

/// A value marked as a random identifier: its version digit is 4 and the
/// two bits of its variant are `10`.
pub open spec fn is_random_version(value: u128) -> bool {
    &&& hex_digit_value(value, 12) == 4
    &&& 8 <= hex_digit_value(value, 16) <= 11
}

/// Whether `text` is the canonical text of some random identifier.
pub open spec fn is_identifier_text(text: Seq<char>) -> bool {
    exists|value: u128| is_random_version(value) && text == #[trigger] hyphenated(value)
}

/// The identifier of one computer.
#[derive(Clone, Copy, Debug, PartialEq, Eq, Structural)]
pub struct ComputerId {
    pub value: u128,
}

/// Calls `uuid::Uuid::new_v4` and hands the identifier out as a number, most
/// significant byte first. Trusted: the version and variant bits are those of
/// a random identifier; nothing else is known of the value, and two calls may
/// differ. The call panics where the operating system gives no random bytes.
#[verifier::external_body]
fn random_value() -> (value: u128)
    ensures
        is_random_version(value),
{
    uuid::Uuid::new_v4().as_u128()
}

/// Calls `uuid::Uuid::to_hyphenated` on the identifier with the number
/// `value` and formats the result. Trusted: the text is the 32 lower-case
/// hexadecimal digits of `value`, most significant first, with a hyphen after
/// the digits 8, 12, 16 and 20.
#[verifier::external_body]
fn hyphenated_text(value: u128) -> (text: String)
    ensures
        text@ == hyphenated(value),
{
    uuid::Uuid::from_u128(value).to_hyphenated().to_string()
}

impl ComputerId {
    /// The canonical text of this identifier.
    pub open spec fn text(self) -> Seq<char> {
        hyphenated(self.value)
    }

    /// Draws a fresh random identifier.
    pub fn generate() -> (id: ComputerId)
        ensures
            is_random_version(id.value),
    {
        ComputerId { value: random_value() }
    }

    /// Writes the identifier in its canonical hyphenated form.
    pub fn to_text(&self) -> (text: String)
        ensures
            text@ == self.text(),
            text@.len() == TEXT_LENGTH,
            is_random_version(self.value) ==> is_identifier_text(text@),
    {
        hyphenated_text(self.value)
    }
}

} // verus!
