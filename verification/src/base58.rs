//! Base58 text for digests.

use vstd::prelude::*;

verus! {

/// The Base58 text of a byte string, in the Bitcoin alphabet.
///
/// The encoding itself is the work of the `bs58` crate and is not restated
/// here; this names its result so that contracts can speak of it. The text
/// depends on the bytes alone: the same bytes have the same text, always.
pub uninterp spec fn base58_text(bytes: Seq<u8>) -> Seq<char>;

/// Encodes 32 bytes as Base58 text.
///
/// Trusted, not proved: the body is `bs58::encode(..).into_string()` with
/// that crate's default alphabet, and the contract says only that the string
/// returned is the text that crate computes for these bytes. The crate sizes
/// its own buffer for the input it is given, so the call does not fail.
#[verifier::external_body]
pub(crate) fn encode_32(bytes: &[u8; 32]) -> (text: String)
    ensures
        text@ == base58_text(bytes@),
{
    bs58::encode(bytes).into_string()
}

} // verus!
