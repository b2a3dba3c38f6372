//! The MD5 digest of a byte buffer.

use vstd::prelude::*;
use crate::hex::{hex_of, is_lower_hex, lemma_hex_of_shape, to_hex};

verus! {

/// The MD5 digest (RFC 1321) of a byte sequence. The function itself is not
/// written out here: `md5_compute` is trusted to return it.
pub uninterp spec fn md5_of(data: Seq<u8>) -> [u8; 16];

/// The hexadecimal digest string of a byte sequence.
pub open spec fn digest_hex(data: Seq<u8>) -> Seq<char> {
    hex_of(md5_of(data)@)
}

/// A 128-bit MD5 output, most significant byte of the printed form first.
#[derive(Clone, Copy, Debug, PartialEq, Eq)]
pub struct Digest {
    pub bytes: [u8; 16],
}

impl View for Digest {
    type V = Seq<u8>;

    open spec fn view(&self) -> Seq<u8> {
        self.bytes@
    }
}

/// Calls `md5::compute` on the buffer and hands out the sixteen bytes of the
/// `md5::Digest` it returns. Trusted, not proved: that these bytes are the
/// MD5 digest of exactly the bytes given, the same for the same input on
/// every call.
#[verifier::external_body]
fn md5_compute(data: &[u8]) -> (r: [u8; 16])
    ensures
        r == md5_of(data@),
{
    md5::compute(data).0
}

impl Digest {
    /// Computes the digest of a whole buffer in one pass.
    pub fn compute(data: &[u8]) -> (d: Digest)
        ensures
            d.bytes == md5_of(data@),
            d@ == md5_of(data@)@,
    {
        Digest { bytes: md5_compute(data) }
    }

    /// The digest as 32 lowercase hexadecimal characters.
    pub fn to_hex(&self) -> (s: String)
        ensures
            s@ == hex_of(self@),
            s@.len() == 32,
            forall|i: int| 0 <= i < 32 ==> is_lower_hex(#[trigger] s@[i]),
    {
        proof {
            lemma_hex_of_shape(self@);
        }
        to_hex(self.bytes.as_slice())
    }
}

/// Computes the digest of a buffer and renders it as 32 lowercase
/// hexadecimal characters.
pub fn hash_bytes(data: &[u8]) -> (s: String)
    ensures
        s@ == digest_hex(data@),
        s@.len() == 32,
        forall|i: int| 0 <= i < 32 ==> is_lower_hex(#[trigger] s@[i]),
{
    Digest::compute(data).to_hex()
}

/// A digest string has exactly 32 characters, each a lowercase hexadecimal
/// digit, whatever was hashed.
pub proof fn lemma_digest_hex_shape(data: Seq<u8>)
    ensures
        digest_hex(data).len() == 32,
        forall|i: int| 0 <= i < 32 ==> is_lower_hex(#[trigger] digest_hex(data)[i]),
{
    lemma_hex_of_shape(md5_of(data)@);
}

} // verus!
