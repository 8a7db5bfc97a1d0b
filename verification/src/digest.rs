use sha2::Digest;
use sha2::Sha256;
use vstd::prelude::*;

use crate::hex::{encode_hex_lower, hex_lower};

verus! {

/// The SHA-256 digest of a byte sequence, as computed by the `sha2` crate.
pub uninterp spec fn sha256_digest(data: Seq<u8>) -> Seq<u8>;

/// Calls `<sha2::Sha256 as sha2::Digest>::digest`. Trusted claim: the result is the
/// SHA-256 digest of the input bytes, which depends on those bytes alone, and it is
/// 32 bytes long (`Sha256`'s output size is `U32`).
#[verifier::external_body]
fn sha256(data: &[u8]) -> (digest: Vec<u8>)
    ensures
        digest@ == sha256_digest(data@),
        digest@.len() == 32,
{
    Sha256::digest(data).to_vec()
}

/// Lower-case hex text of the SHA-256 digest of `data`.
pub open spec fn spec_sha256_hex(data: Seq<u8>) -> Seq<char> {
    hex_lower(sha256_digest(data))
}

/// SHA-256 of `bytes`, as 64 lower-case hexadecimal characters.
pub fn sha256_hex(bytes: &[u8]) -> (s: String)
    ensures
        s@ == spec_sha256_hex(bytes@),
        s@.len() == 64,
{
    let digest = sha256(bytes);
    encode_hex_lower(digest.as_slice())
}

} // verus!
