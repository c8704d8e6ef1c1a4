//! Connection identities.
//!
//! An identity is minted when a connection is accepted and lives as long as
//! the connection. It is a key of the registry and the display name of a
//! client that never registered one.
use vstd::prelude::*;

verus! {

/// Whether a character is a lower-case hexadecimal digit.
pub open spec fn is_hex_digit(c: char) -> bool {
    let code = c as u32;
    ('0' as u32 <= code && code <= '9' as u32) || ('a' as u32 <= code && code <= 'f' as u32)
}

/// Whether a position of an identity holds a hyphen.
pub open spec fn is_hyphen_place(i: int) -> bool {
    i == 8 || i == 13 || i == 18 || i == 23
}

/// The form of a minted identity: thirty-six characters, hyphens after the
/// eighth, twelfth, sixteenth and twentieth digit, lower-case hexadecimal
/// digits everywhere else.
pub open spec fn is_identity(text: Seq<char>) -> bool {
    &&& text.len() == 36
    &&& forall|i: int|
        0 <= i < 36 ==> if is_hyphen_place(i) {
            #[trigger] text[i] == '-'
        } else {
            is_hex_digit(text[i])
        }
}

/// Calls `uuid::Uuid::new_v4` and writes the result with `to_string`, which
/// gives the hyphenated lower-case form. Which identity comes is left to
/// chance: the contract states the form alone. The call ends the program
/// where the system has no source of random bytes.
#[verifier::external_body]
pub(crate) fn mint() -> (r: String)
    ensures
        is_identity(r@),
{
    uuid::Uuid::new_v4().to_string()
}

} // verus!
