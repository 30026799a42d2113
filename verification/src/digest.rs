//! The Whirlpool digest, through the `rust-crypto` crate.
use vstd::prelude::*;

use crypto::digest::Digest;

verus! {

/// The Whirlpool digest of a byte string, as `rust-crypto` computes it.
pub uninterp spec fn whirlpool_digest(data: Seq<u8>) -> Seq<u8>;

/// Feeds `data` into a fresh `crypto::whirlpool::Whirlpool` with `input` and
/// reads the 64 bytes of `result`. Claims: the bytes are the digest of
/// `data`, named `whirlpool_digest`. (Whirlpool hashes the concatenation of
/// what it is fed, so one call over all bytes is the digest of the file.)
#[verifier::external_body]
pub(crate) fn whirlpool(data: &[u8]) -> (d: [u8; 64])
    ensures
        d@ == whirlpool_digest(data@),
{
    let mut hasher = crypto::whirlpool::Whirlpool::new();
    hasher.input(data);
    let mut out = [0u8; 64];
    hasher.result(&mut out);
    out
}

} // verus!
