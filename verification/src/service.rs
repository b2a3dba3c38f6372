//! The digest service: from what was read of a file to its digest string.

use vstd::prelude::*;
use crate::digest::{digest_hex, hash_bytes, lemma_digest_hex_shape};
use crate::error::{length_mismatch_message, ErrorKind, HashError};
use crate::hex::is_lower_hex;

verus! {

/// Whether the bytes at hand are the whole file: as many as the file system
/// declared.
pub open spec fn is_complete(declared_len: u64, data: Seq<u8>) -> bool {
    data.len() == declared_len
}

/// What a hash request returns for a file of the declared length of which
/// `data` was read: the digest string of a complete buffer, or the kind of
/// the failure.
pub open spec fn hash_outcome(declared_len: u64, data: Seq<u8>) -> Result<Seq<char>, ErrorKind> {
    if is_complete(declared_len, data) {
        Ok(digest_hex(data))
    } else {
        Err(ErrorKind::Truncated)
    }
}

/// Hashes the content read from a file whose metadata declared
/// `declared_len` bytes.
///
/// A buffer of exactly the declared length gives its digest string; a
/// zero-length file is no exception. Any other buffer is refused as
/// truncated, and nothing is hashed.
pub fn hash_contents(declared_len: u64, data: &[u8]) -> (r: Result<String, HashError>)
    ensures
        r is Ok <==> is_complete(declared_len, data@),
        match r {
            Ok(hex) => {
                &&& hash_outcome(declared_len, data@) == Ok::<Seq<char>, ErrorKind>(hex@)
                &&& hex@ == digest_hex(data@)
                &&& hex@.len() == 32
                &&& forall|i: int| 0 <= i < 32 ==> is_lower_hex(#[trigger] hex@[i])
            },
            Err(e) => {
                &&& hash_outcome(declared_len, data@) == Err::<Seq<char>, ErrorKind>(e.kind)
                &&& e.kind == ErrorKind::Truncated
                &&& e.message@ == length_mismatch_message()
            },
        },
{
    if data.len() as u64 == declared_len {
        Ok(hash_bytes(data))
    } else {
        Err(HashError::length_mismatch())
    }
}

/// Hashing is a function of what was read: the same declared length and
/// the same bytes give the same digest string, or the same failure, on
/// every request.
pub proof fn lemma_hash_deterministic(
    first_len: u64,
    first: Seq<u8>,
    second_len: u64,
    second: Seq<u8>,
)
    requires
        first_len == second_len,
        first == second,
    ensures
        hash_outcome(first_len, first) == hash_outcome(second_len, second),
{
}

/// Every digest string that a request returns has exactly 32 characters,
/// all of them lowercase hexadecimal digits.
pub proof fn lemma_hash_shape(declared_len: u64, data: Seq<u8>)
    requires
        hash_outcome(declared_len, data) is Ok,
    ensures
        hash_outcome(declared_len, data)->Ok_0.len() == 32,
        forall|i: int|
            0 <= i < 32 ==> is_lower_hex(#[trigger] hash_outcome(declared_len, data)->Ok_0[i]),
{
    lemma_digest_hex_shape(data);
}

/// A request succeeds exactly on a complete buffer, and then with the
/// digest string of that buffer; the empty file is complete at length zero.
pub proof fn lemma_hash_succeeds_when_complete(declared_len: u64, data: Seq<u8>)
    ensures
        data.len() == declared_len ==> hash_outcome(declared_len, data) == Ok::<
            Seq<char>,
            ErrorKind,
        >(digest_hex(data)),
        data.len() != declared_len ==> hash_outcome(declared_len, data) == Err::<
            Seq<char>,
            ErrorKind,
        >(ErrorKind::Truncated),
        hash_outcome(0, Seq::<u8>::empty()) is Ok,
{
}

} // verus!
