//! Digests used to derive runtime storage addresses.
//!
//! The digests themselves are computed by `sp-crypto-hashing`. Each one is a
//! function of the input bytes alone, so each gets a name that contracts can
//! speak of; nothing is claimed about the value beyond its width.

use vstd::prelude::*;

verus! {

/// The 64-bit XX digest of `data` (seed 0, little-endian).
pub uninterp spec fn twox_64_digest(data: Seq<u8>) -> [u8; 8];

/// The 128-bit XX digest of `data`: two 64-bit XX hashes, seeded 0 and 1.
pub uninterp spec fn twox_128_digest(data: Seq<u8>) -> [u8; 16];

/// The 128-bit Blake2b digest of `data`.
pub uninterp spec fn blake2_128_digest(data: Seq<u8>) -> [u8; 16];

/// Calls `sp_crypto_hashing::twox_64`, which hashes the bytes it is given and
/// nothing else. The contract only names the result.
#[verifier::external_body]
pub(crate) fn twox_64(data: &[u8]) -> (digest: [u8; 8])
    ensures
        digest == twox_64_digest(data@),
{
    sp_crypto_hashing::twox_64(data)
}

/// Calls `sp_crypto_hashing::twox_128`, which hashes the bytes it is given and
/// nothing else. The contract only names the result.
#[verifier::external_body]
pub(crate) fn twox_128(data: &[u8]) -> (digest: [u8; 16])
    ensures
        digest == twox_128_digest(data@),
{
    sp_crypto_hashing::twox_128(data)
}

/// Calls `sp_crypto_hashing::blake2_128`, which hashes the bytes it is given
/// and nothing else. The contract only names the result.
#[verifier::external_body]
pub(crate) fn blake2_128(data: &[u8]) -> (digest: [u8; 16])
    ensures
        digest == blake2_128_digest(data@),
{
    sp_crypto_hashing::blake2_128(data)
}

} // verus!
