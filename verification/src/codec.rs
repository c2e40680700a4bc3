//! Fixed-width integers as the SCALE codec lays them out.

use vstd::prelude::*;

verus! {

/// The error value of `parity_scale_codec`. Nothing is known of its content;
/// it is only ever mapped to an error of this crate.
#[verifier::external_type_specification]
#[verifier::external_body]
pub struct ExCodecError(parity_scale_codec::Error);

/// The number that the first four bytes of `bytes` spell, least significant
/// byte first.
pub open spec fn le_u32(bytes: Seq<u8>) -> int
    recommends
        bytes.len() >= 4,
{
    bytes[0] as int + 0x100 * (bytes[1] as int) + 0x1_0000 * (bytes[2] as int) + 0x100_0000 * (
    bytes[3] as int)
}

/// `le_u32` always fits a `u32`.
pub proof fn lemma_le_u32_range(bytes: Seq<u8>)
    ensures
        0 <= le_u32(bytes) <= u32::MAX,
{
}

/// Calls `<u32 as parity_scale_codec::Decode>::decode` with the slice as
/// input.
///
/// Trusted: the decoder fills a four-byte buffer from the front of the input,
/// fails when the input holds fewer than four bytes, and otherwise returns
/// `u32::from_le_bytes` of that buffer. Bytes after the fourth are ignored.
#[verifier::external_body]
pub(crate) fn scale_decode_u32(bytes: &[u8]) -> (out: Result<u32, parity_scale_codec::Error>)
    ensures
        out is Ok <==> bytes@.len() >= 4,
        out matches Ok(v) ==> v as int == le_u32(bytes@),
{
    let mut input: &[u8] = bytes;
    <u32 as parity_scale_codec::Decode>::decode(&mut input)
}

} // verus!
