//! Content checksums. The service verifies every uploaded body against a
//! lowercase hex SHA-1 digest, per part and per whole file.

use vstd::prelude::*;
use sha1::Digest;
use crate::encoding::hex_of;
use crate::encoding::hex_string;

verus! {

/// The SHA-1 digest of a byte string. The digest itself is left abstract:
/// the library only relies on it being a function of the input bytes.
pub uninterp spec fn sha1_of(data: Seq<u8>) -> Seq<u8>;

/// Relies on `sha1::Sha1` (RustCrypto): the digest is 20 bytes and depends
/// on the input bytes alone.
#[verifier::external_body]
fn sha1_digest_bytes(data: &[u8]) -> (r: Vec<u8>)
    ensures
        r@ == sha1_of(data@),
        r@.len() == 20,
{
    sha1::Sha1::digest(data).as_slice().to_vec()
}

/// The wire form of a digest: forty lowercase hex characters.
pub open spec fn sha1_hex_of(data: Seq<u8>) -> Seq<char> {
    hex_of(sha1_of(data))
}

pub fn sha1_hex(data: &[u8]) -> (r: String)
    ensures
        r@ == sha1_hex_of(data@),
        r@.len() == 40,
{
    let digest = sha1_digest_bytes(data);
    hex_string(digest.as_slice())
}

/// A part that is retried carries the same digest as an upload of the same
/// bytes that never failed: the digest depends on the bytes alone.
pub proof fn lemma_digest_of_retried_bytes(first: Seq<u8>, retried: Seq<u8>)
    requires
        retried == first,
    ensures
        sha1_hex_of(retried) == sha1_hex_of(first),
{
}

} // verus!
