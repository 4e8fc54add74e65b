//! The BLAKE3 digest used for cache keys and artifact integrity.
use vstd::prelude::*;

verus! {

/// The 32-byte BLAKE3 digest of `data`, as computed by `blake3::hash`.
pub uninterp spec fn blake3_digest(data: Seq<u8>) -> Seq<u8>;

/// Calls `blake3::hash` and returns the digest's 32 bytes. The digest is
/// a function of the input bytes alone.
#[verifier::external_body]
pub(crate) fn blake3_hash(data: &[u8]) -> (r: [u8; 32])
    ensures
        r@ == blake3_digest(data@),
{
    blake3::hash(data).into()
}

} // verus!
