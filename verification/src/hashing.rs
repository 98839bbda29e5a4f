//! The two hash functions the pool relies on.

use sha2::{Digest, Sha256};
use stratum_apps::stratum_core::bitcoin::hashes::{sha256d, Hash as BitcoinHash};
use vstd::prelude::*;

verus! {

/// The double SHA-256 digest of `data`, as `sha256d::Hash::hash` computes it.
pub uninterp spec fn sha256d_digest(data: Seq<u8>) -> Seq<u8>;

/// The SHA-256 digest of `data`, as `Sha256::digest` computes it.
pub uninterp spec fn sha256_digest(data: Seq<u8>) -> Seq<u8>;

/// Calls `sha256d::Hash::hash` of the `bitcoin` crate and hands its 32 bytes out in the order in
/// which they are hashed further. Claimed: the result is a function of the input bytes alone.
#[verifier::external_body]
pub(crate) fn sha256d(data: &[u8]) -> (digest: [u8; 32])
    ensures
        digest@ == sha256d_digest(data@),
{
    sha256d::Hash::hash(data).to_byte_array()
}

/// Calls `Sha256::digest` of the `sha2` crate. Claimed: the result is a function of the input
/// bytes alone.
#[verifier::external_body]
pub(crate) fn sha256(data: &[u8]) -> (digest: [u8; 32])
    ensures
        digest@ == sha256_digest(data@),
{
    Sha256::digest(data).into()
}

/// Copies `source` to the end of `target`.
pub(crate) fn extend_bytes(target: &mut Vec<u8>, source: &[u8])
    ensures
        final(target)@ == old(target)@ + source@,
{
    target.extend_from_slice(source);
    assert(target@ =~= old(target)@ + source@);
}

/// Whether two hashes are the same.
pub(crate) fn same_hash(a: &[u8; 32], b: &[u8; 32]) -> (same: bool)
    ensures
        same == (a@ == b@),
{
    let mut i: usize = 0;
    while i < 32
        invariant
            i <= 32,
            forall|k: int| 0 <= k < i ==> a@[k] == b@[k],
        decreases 32 - i,
    {
        if a[i] != b[i] {
            return false;
        }
        i = i + 1;
    }
    assert(a@ =~= b@);
    true
}

} // verus!
