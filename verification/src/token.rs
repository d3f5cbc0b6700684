//! The token that names one upload at the backend.
//!
//! It only has to keep two uploads apart: it is short, drawn at random, and
//! no secret.

use rand::distributions::{Alphanumeric, DistString};
use vstd::prelude::*;

verus! {

/// The number of characters of an upload token.
pub const TOKEN_LENGTH: usize = 6;

/// A letter of the English alphabet or a digit.
pub open spec fn is_alphanumeric(c: char) -> bool {
    ||| '0' <= c <= '9'
    ||| 'a' <= c <= 'z'
    ||| 'A' <= c <= 'Z'
}

/// A string that can be an upload token: six letters and digits.
pub open spec fn is_upload_token(token: Seq<char>) -> bool {
    &&& token.len() == TOKEN_LENGTH
    &&& forall|i: int| 0 <= i < token.len() ==> is_alphanumeric(#[trigger] token[i])
}

/// `DistString::sample_string` of the crate `rand`, for its distribution
/// `Alphanumeric` and on the generator that `rand::thread_rng` gives: `len`
/// characters, each a letter or a digit. Which ones, chance decides.
#[verifier::external_body]
fn sample_alphanumeric(len: usize) -> (sample: String)
    ensures
        sample@.len() == len,
        forall|i: int| 0 <= i < sample@.len() ==> is_alphanumeric(#[trigger] sample@[i]),
{
    Alphanumeric.sample_string(&mut rand::thread_rng(), len)
}

/// Draws a token for one upload.
pub fn upload_token() -> (token: String)
    ensures
        is_upload_token(token@),
{
    sample_alphanumeric(TOKEN_LENGTH)
}

} // verus!
