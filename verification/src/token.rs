//! Format validation for authentication tokens.
//!
//! A token is an opaque bearer credential: exactly 64 characters, each an
//! ASCII hexadecimal digit. Nothing else about it is inspected.

use vstd::prelude::*;

verus! {

/// An ASCII hexadecimal digit: `0-9`, `A-F` or `a-f`.
pub open spec fn is_hex_digit(c: char) -> bool {
    let u = c as u32;
    (48 <= u && u <= 57) || (65 <= u && u <= 70) || (97 <= u && u <= 102)
}

/// A well-formed token: exactly 64 characters, all ASCII hex digits.
pub open spec fn token_ok(s: Seq<char>) -> bool {
    s.len() == 64 && (forall|i: int| 0 <= i < s.len() ==> is_hex_digit(#[trigger] s[i]))
}

/// Returns true exactly when the token is 64 characters long and every
/// character is an ASCII hexadecimal digit.
pub fn is_valid_token_format(token: &str) -> (r: bool)
    ensures
        r == token_ok(token@),
{
    let n = token.unicode_len();
    if n != 64 {
        return false;
    }
    let mut i: usize = 0;
    while i < 64
        invariant
            0 <= i <= 64,
            token@.len() == 64,
            forall|j: int| 0 <= j < i ==> is_hex_digit(#[trigger] token@[j]),
        decreases 64 - i,
    {
        let c = token.get_char(i);
        let u = c as u32;
        let hex = (48 <= u && u <= 57) || (65 <= u && u <= 70) || (97 <= u && u <= 102);
        if !hex {
            return false;
        }
        i += 1;
    }
    true
}

} // verus!
