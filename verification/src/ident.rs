//! 128-bit identifiers: the section marker of a file, the identifier of a
//! file, and the identifier of a read, each held as its sixteen bytes.

use vstd::prelude::*;
use crate::error::Pod5Error;

verus! {

/// The error with which `uuid` refuses a text.
#[verifier::external_type_specification]
#[verifier::external_body]
pub struct ExUuidError(uuid::Error);

/// The lower-case hexadecimal digit for a number below 16.
pub open spec fn hex_digit(n: int) -> char {
    if n < 10 {
        (48 + n) as char
    } else {
        (87 + n) as char
    }
}

/// The canonical text of an identifier: its 32 hexadecimal digits in lower
/// case, in groups of 8, 4, 4, 4 and 12 with a hyphen between them.
pub open spec fn hyphenated_text(id: Seq<u8>) -> Seq<char> {
    Seq::new(
        36,
        |i: int|
            if i == 8 || i == 13 || i == 18 || i == 23 {
                '-'
            } else {
                let k = if i > 23 {
                    i - 4
                } else if i > 18 {
                    i - 3
                } else if i > 13 {
                    i - 2
                } else if i > 8 {
                    i - 1
                } else {
                    i
                };
                let byte = id[k / 2] as int;
                hex_digit(
                    if k % 2 == 0 {
                        byte / 16
                    } else {
                        byte % 16
                    },
                )
            },
    )
}

/// The identifier that `uuid::Uuid::parse_str` reads from a text, `None`
/// where it refuses the text.
pub uninterp spec fn parsed_identifier(text: Seq<char>) -> Option<Seq<u8>>;

/// Calls `uuid::Uuid::new_v4`, which draws 128 bits from the operating
/// system's random source and overwrites six of them: the high half of byte 6
/// becomes 4, the version, and the two top bits of byte 8 become 1 and 0, the
/// variant. Nothing else is known of the result.
#[verifier::external_body]
fn new_v4() -> (id: [u8; 16])
    ensures
        id@[6] / 16 == 4,
        id@[8] / 64 == 2,
{
    uuid::Uuid::new_v4().into_bytes()
}

/// Calls `uuid::Uuid::to_string`, which writes the hyphenated lower-case
/// form of the identifier.
#[verifier::external_body]
fn to_string(id: &[u8; 16]) -> (text: String)
    ensures
        text@ == hyphenated_text(id@),
{
    uuid::Uuid::from_bytes(*id).to_string()
}

/// Calls `uuid::Uuid::parse_str`. The result is the bytes of the identifier
/// that it read, or its error.
#[verifier::external_body]
fn parse_str(text: &str) -> (result: Result<[u8; 16], uuid::Error>)
    ensures
        result matches Ok(id) ==> parsed_identifier(text@) == Some(id@),
        result is Err ==> parsed_identifier(text@) is None,
{
    uuid::Uuid::parse_str(text).map(uuid::Uuid::into_bytes)
}

/// A fresh random identifier, as a file's section marker or a file's
/// identifier. Two calls give two unrelated values.
pub fn _generate_section_marker() -> (marker: [u8; 16])
    ensures
        marker@[6] / 16 == 4,
        marker@[8] / 64 == 2,
{
    new_v4()
}

/// The canonical text of an identifier.
pub fn identifier_text(id: &[u8; 16]) -> (text: String)
    ensures
        text@ == hyphenated_text(id@),
        text@.len() == 36,
{
    to_string(id)
}

/// Reads an identifier from a text, in any of the forms that `uuid` knows.
pub fn parse_identifier(text: &str) -> (result: Result<[u8; 16], Pod5Error>)
    ensures
        match result {
            Ok(id) => parsed_identifier(text@) == Some(id@),
            Err(e) => e == Pod5Error::InvalidIdentifier && parsed_identifier(text@) is None,
        },
{
    match parse_str(text) {
        Ok(id) => Ok(id),
        Err(_) => Err(Pod5Error::InvalidIdentifier),
    }
}

} // verus!
