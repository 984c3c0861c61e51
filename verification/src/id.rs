//! Identifiers for devices and passwords.

use vstd::prelude::*;

verus! {

/// Number of characters in an identifier.
pub const ID_LEN: usize = 32;

/// Whether the character is a digit or a lower-case letter from `a` to `f`.
pub open spec fn is_hex_digit(c: char) -> bool {
    ('0' <= c && c <= '9') || ('a' <= c && c <= 'f')
}

/// Whether the text has the shape of an identifier: 32 lower-case hexadecimal
/// digits.
pub open spec fn is_id(text: Seq<char>) -> bool {
    &&& text.len() == ID_LEN
    &&& forall|i: int| 0 <= i < text.len() ==> is_hex_digit(#[trigger] text[i])
}

/// A new identifier from 128 random bits.
pub fn generate_id() -> (id: String)
    ensures
        is_id(id@),
{
    random_uuid()
}

/// Calls `Uuid::new_v4` of `uuid` and writes the result in its simple form.
/// Assumed, as documented for that form: 32 lower-case hexadecimal digits.
/// Which digits is left open: they differ from call to call. It panics where
/// the operating system hands out no random bytes.
#[verifier::external_body]
fn random_uuid() -> (id: String)
    ensures
        is_id(id@),
{
    uuid::Uuid::new_v4().to_simple().to_string()
}

} // verus!
