//! The code generator: fixed-length random alphanumeric identifiers.

use vstd::prelude::*;
use rand::RngExt;

verus! {

/// A character of the code alphabet: an ASCII digit or letter.
pub open spec fn is_code_char(c: char) -> bool {
    ('0' <= c && c <= '9') || ('A' <= c && c <= 'Z') || ('a' <= c && c <= 'z')
}

/// Every character of the sequence comes from the code alphabet.
pub open spec fn all_code_chars(s: Seq<char>) -> bool {
    forall|i: int| 0 <= i < s.len() ==> is_code_char(#[trigger] s[i])
}

/// Relies on rand: `rng().sample_iter(Alphanumeric)` draws bytes uniformly
/// from the 62-symbol alphanumeric alphabet (ASCII digits, upper and lower
/// case letters); `take(len)` keeps exactly `len` of them, and `char::from`
/// turns each byte into the corresponding ASCII character. The draws are
/// random, so nothing beyond length and alphabet is promised.
#[verifier::external_body]
fn sample_alphanumeric(len: usize) -> (r: String)
    ensures
        r@.len() == len,
        all_code_chars(r@),
{
    rand::rng().sample_iter(rand::distr::Alphanumeric).take(len).map(char::from).collect()
}

/// Produce a fresh candidate code: `code_size` characters, each drawn from
/// the alphanumeric alphabet. Safe to call concurrently; no shared state.
pub fn generate_random_code(code_size: usize) -> (r: String)
    ensures
        r@.len() == code_size,
        all_code_chars(r@),
{
    sample_alphanumeric(code_size)
}

} // verus!
