//! SCALE encoding of the few values the relay puts into storage keys.
//!
//! The bytes are produced by `parity-scale-codec`. For fixed-width integers
//! and fixed-size byte arrays its format is short enough to state in full.

use vstd::prelude::*;
use vstd::bytes::{
    spec_u32_from_le_bytes, spec_u32_to_le_bytes, spec_u64_from_le_bytes, spec_u64_to_le_bytes,
};
use crate::primitives::H256;

verus! {

/// Calls `Encode::encode` of `parity-scale-codec` on a `u32`, which writes
/// the four bytes of the number, least significant first.
#[verifier::external_body]
pub(crate) fn encode_u32(value: u32) -> (bytes: Vec<u8>)
    ensures
        bytes@ == spec_u32_to_le_bytes(value),
{
    parity_scale_codec::Encode::encode(&value)
}

/// Calls `Encode::encode` of `parity-scale-codec` on a `u64`, which writes
/// the eight bytes of the number, least significant first.
#[verifier::external_body]
pub(crate) fn encode_u64(value: u64) -> (bytes: Vec<u8>)
    ensures
        bytes@ == spec_u64_to_le_bytes(value),
{
    parity_scale_codec::Encode::encode(&value)
}

/// Calls `Decode::decode` of `parity-scale-codec` for a `u32` on a byte
/// slice. It reads four bytes, least significant first, leaves the rest
/// alone, and fails on a shorter input.
#[verifier::external_body]
pub(crate) fn decode_u32(bytes: &[u8]) -> (value: Option<u32>)
    ensures
        bytes@.len() < 4 ==> value is None,
        bytes@.len() >= 4 ==> value == Some(spec_u32_from_le_bytes(bytes@.subrange(0, 4))),
{
    let mut input = bytes;
    <u32 as parity_scale_codec::Decode>::decode(&mut input).ok()
}

/// Calls `Decode::decode` of `parity-scale-codec` for a `u64` on a byte
/// slice. It reads eight bytes, least significant first, leaves the rest
/// alone, and fails on a shorter input.
#[verifier::external_body]
pub(crate) fn decode_u64(bytes: &[u8]) -> (value: Option<u64>)
    ensures
        bytes@.len() < 8 ==> value is None,
        bytes@.len() >= 8 ==> value == Some(spec_u64_from_le_bytes(bytes@.subrange(0, 8))),
{
    let mut input = bytes;
    <u64 as parity_scale_codec::Decode>::decode(&mut input).ok()
}

/// Calls `Encode::encode` of `parity-scale-codec` on an `sp_core::H256`,
/// which writes its thirty-two bytes as they are, with no length in front.
#[verifier::external_body]
pub(crate) fn encode_h256(hash: &H256) -> (bytes: Vec<u8>)
    ensures
        bytes@ == hash@,
{
    parity_scale_codec::Encode::encode(&sp_core::H256(hash.0))
}

} // verus!
