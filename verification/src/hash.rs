//! The content hash of a file: the SHA-1 of its bytes, in lower-case hex.
//!
//! The bytes are taken in piece by piece, so a file is never held in memory
//! as a whole.

use sha1::{Digest, Sha1};
use vstd::prelude::*;

verus! {

/// The hasher `Sha1` of the crate `sha1`. Its inside is the crate's
/// business: what is known of it is what the functions below say.
#[verifier::external_body]
pub struct Sha1State {
    hasher: Sha1,
}

/// The bytes that a hasher has taken in, in the order in which they came.
pub uninterp spec fn taken_in(state: Sha1State) -> Seq<u8>;

/// The SHA-1 digest of `data`.
pub uninterp spec fn sha1_digest(data: Seq<u8>) -> Seq<u8>;

/// `Digest::new` of the crate `sha1`, for `Sha1`: a hasher that has taken in
/// nothing.
#[verifier::external_body]
fn sha1_new() -> (state: Sha1State)
    ensures
        taken_in(state) == Seq::<u8>::empty(),
{
    Sha1State { hasher: Sha1::new() }
}

/// `Digest::update` of the crate `sha1`, for `Sha1`: the hasher takes in
/// `data` after what it has taken in before.
#[verifier::external_body]
fn sha1_update(state: &mut Sha1State, data: &[u8])
    ensures
        taken_in(*final(state)) == taken_in(*old(state)) + data@,
{
    state.hasher.update(data)
}

/// `Digest::finalize` of the crate `sha1`, for `Sha1`: the SHA-1 digest of
/// all that the hasher has taken in, twenty bytes.
#[verifier::external_body]
fn sha1_finalize(state: Sha1State) -> (digest: Vec<u8>)
    ensures
        digest@ == sha1_digest(taken_in(state)),
        digest@.len() == 20,
{
    state.hasher.finalize().to_vec()
}

/// The sixteen hex digits, lower case.
pub open spec fn hex_digits() -> Seq<char> {
    seq!['0', '1', '2', '3', '4', '5', '6', '7', '8', '9', 'a', 'b', 'c', 'd', 'e', 'f']
}

/// `bytes` in hex: two lower-case digits for each byte, the high half first.
pub open spec fn hex_text(bytes: Seq<u8>) -> Seq<char> {
    Seq::new(
        2 * bytes.len(),
        |i: int|
            if i % 2 == 0 {
                hex_digits()[bytes[i / 2] as int / 16]
            } else {
                hex_digits()[bytes[i / 2] as int % 16]
            },
    )
}

/// `hex::encode` of the crate `hex`: the bytes in lower-case hex, two digits
/// for each.
#[verifier::external_body]
fn hex_encode(bytes: &[u8]) -> (text: String)
    ensures
        text@ == hex_text(bytes@),
{
    hex::encode(bytes)
}

/// The content hash of a file with the bytes `data`.
pub open spec fn content_hash(data: Seq<u8>) -> Seq<char> {
    hex_text(sha1_digest(data))
}

/// Computes the content hash of a file from its bytes, piece by piece.
pub struct ContentHasher {
    state: Sha1State,
}

impl View for ContentHasher {
    type V = Seq<u8>;

    /// The bytes taken in so far.
    closed spec fn view(&self) -> Seq<u8> {
        taken_in(self.state)
    }
}

impl ContentHasher {
    /// A hasher that has taken in nothing.
    pub fn new() -> (hasher: Self)
        ensures
            hasher@ == Seq::<u8>::empty(),
    {
        ContentHasher { state: sha1_new() }
    }

    /// Takes in the next piece of the file.
    pub fn update(&mut self, data: &[u8])
        ensures
            final(self)@ == old(self)@ + data@,
    {
        sha1_update(&mut self.state, data);
    }

    /// The content hash of all that was taken in: forty hex digits. It is
    /// the hash of the pieces put together, however they were cut.
    pub fn finish(self) -> (hash: String)
        ensures
            hash@ == content_hash(self@),
            hash@.len() == 40,
    {
        let digest = sha1_finalize(self.state);
        hex_encode(digest.as_slice())
    }
}

} // verus!
