//! The hashing utility: a deterministic cryptographic digest over text,
//! used for block identity and for the proof-of-work predicate.

use vstd::prelude::*;
use sha2::Digest;

verus! {

/// The SHA-256 digest of a text, written as lowercase hexadecimal.
/// The digest itself is not modelled; the engine only relies on the digest
/// being a function of its input.
pub uninterp spec fn sha256_hex_of(data: Seq<char>) -> Seq<char>;

/// Relies on sha2::Sha256 and on the lowercase-hexadecimal formatting of its
/// 32-byte output: the result is a function of the input text alone, and two
/// hexadecimal digits are written for each output byte, 64 characters in all.
#[verifier::external_body]
pub(crate) fn sha256_hex(data: &str) -> (r: String)
    ensures
        r@ == sha256_hex_of(data@),
        r@.len() == 64,
{
    let mut hasher = sha2::Sha256::new();
    hasher.update(data.as_bytes());
    format!("{:x}", hasher.finalize())
}

} // verus!
