//! SHA-256 digests and the fingerprints made of them.

use crate::rules::is_fingerprint;
use crate::text::{hex_lower, is_hex_digit, join};
use vstd::prelude::*;

verus! {

/// The SHA-256 digest of some bytes.
pub uninterp spec fn sha256_bytes(data: Seq<u8>) -> Seq<u8>;

/// `sha2::Sha256::digest`: thirty-two bytes, determined by the data alone.
#[verifier::external_body]
fn sha256(data: &[u8]) -> (digest: Vec<u8>)
    ensures
        digest@ == sha256_bytes(data@),
        digest@.len() == 32,
{
    <sha2::Sha256 as sha2::Digest>::digest(data).to_vec()
}

/// The digest of some bytes in lower-case hexadecimal.
pub open spec fn digest_text(data: Seq<u8>) -> Seq<char> {
    crate::text::hex_text(sha256_bytes(data))
}

/// The fingerprint of some bytes: the digest after `sha256:`.
pub open spec fn fingerprint_text(data: Seq<u8>) -> Seq<char> {
    "sha256:"@ + digest_text(data)
}

/// The SHA-256 digest of some bytes in lower-case hexadecimal.
pub fn sha256_hex(data: &[u8]) -> (text: String)
    ensures
        text@ == digest_text(data@),
        text@.len() == 64,
{
    hex_lower(sha256(data).as_slice())
}

/// The fingerprint of some bytes, `sha256:` and the digest.
pub fn sha256_fingerprint(data: &[u8]) -> (text: String)
    ensures
        text@ == fingerprint_text(data@),
        is_fingerprint(text@),
{
    let digest = sha256_hex(data);
    let out = join("sha256:", digest.as_str());
    proof {
        reveal_strlit("sha256:");
        assert("sha256:"@.len() == 7);
        assert(out@.take(7) =~= "sha256:"@);
        assert forall|i: int| 7 <= i < out@.len() implies is_hex_digit(#[trigger] out@[i]) by {
            assert(out@[i] == digest@[i - 7]);
        }
    }
    out
}

} // verus!
