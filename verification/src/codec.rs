//! The four-byte little-endian layout of the counter, and the calls into
//! `borsh` that read and write it.

use vstd::arithmetic::div_mod::{
    lemma_div_denominator, lemma_fundamental_div_mod, lemma_fundamental_div_mod_converse,
};
use vstd::prelude::*;

verus! {

/// The number of bytes that an encoded counter takes.
pub const COUNTER_LEN: usize = 4;

/// The bytes that hold `value`, least significant first.
pub open spec fn le_bytes(value: u32) -> Seq<u8> {
    seq![
        (value % 256) as u8,
        (value / 256 % 256) as u8,
        (value / 65536 % 256) as u8,
        (value / 16777216) as u8,
    ]
}

/// The number that the first four bytes of `bytes` hold, least significant
/// first.
pub open spec fn le_value(bytes: Seq<u8>) -> int
    recommends
        bytes.len() >= COUNTER_LEN,
{
    bytes[0] + 256 * bytes[1] + 65536 * bytes[2] + 16777216 * bytes[3]
}

/// Four bytes always hold a number that fits in 32 bits.
pub proof fn lemma_le_value_fits(bytes: Seq<u8>)
    ensures
        0 <= le_value(bytes) <= u32::MAX,
{
}

/// Reading back what was written gives the number that was written.
pub proof fn lemma_le_value_of_le_bytes(value: u32)
    ensures
        le_bytes(value).len() == COUNTER_LEN,
        le_value(le_bytes(value)) == value,
{
    let v = value as int;
    lemma_fundamental_div_mod(v, 256);
    lemma_fundamental_div_mod(v / 256, 256);
    lemma_fundamental_div_mod(v / 65536, 256);
    lemma_div_denominator(v, 256, 256);
    lemma_div_denominator(v, 65536, 256);
}

/// Writing back what was read gives the bytes that were read.
pub proof fn lemma_le_bytes_of_le_value(bytes: Seq<u8>)
    requires
        bytes.len() == COUNTER_LEN,
    ensures
        le_bytes(le_value(bytes) as u32) == bytes,
{
    let b0 = bytes[0] as int;
    let b1 = bytes[1] as int;
    let b2 = bytes[2] as int;
    let b3 = bytes[3] as int;
    let value = le_value(bytes);
    lemma_fundamental_div_mod_converse(value, 256, b1 + 256 * b2 + 65536 * b3, b0);
    lemma_fundamental_div_mod_converse(value / 256, 256, b2 + 256 * b3, b1);
    lemma_fundamental_div_mod_converse(value, 65536, b2 + 256 * b3, b0 + 256 * b1);
    lemma_fundamental_div_mod_converse(value / 65536, 256, b3, b2);
    lemma_fundamental_div_mod_converse(value, 16777216, b3, b0 + 256 * b1 + 65536 * b2);
    assert(le_bytes(value as u32) =~= bytes);
}

/// The error type of `borsh`'s readers and writers, `borsh::io::Error`, which
/// is `std::io::Error`. Nothing is known of a value of it.
#[verifier::external_type_specification]
#[verifier::external_body]
pub struct ExIoError(std::io::Error);

/// `borsh::BorshDeserialize::try_from_slice` at `u32`.
///
/// Trusted: the call succeeds exactly on a slice of four bytes, and then
/// returns the number that they hold in little-endian order. A shorter slice
/// ends the read early, and a longer one leaves bytes unread; `borsh` reports
/// both as errors.
#[verifier::external_body]
pub(crate) fn u32_try_from_slice(bytes: &[u8]) -> (r: Result<u32, std::io::Error>)
    ensures
        r.is_ok() <==> bytes@.len() == COUNTER_LEN,
        r matches Ok(value) ==> value == le_value(bytes@),
{
    <u32 as borsh::BorshDeserialize>::try_from_slice(bytes)
}

/// `borsh::BorshSerialize::serialize` at `u32`, with the front of `buf` as the
/// writer.
///
/// Trusted: the call succeeds exactly when `buf` has room for four bytes, and
/// then the first four bytes of `buf` are those of `value` in little-endian
/// order and the rest is as it was. The buffer never changes its length.
/// Nothing is claimed of the contents of a buffer that was too short.
#[verifier::external_body]
pub(crate) fn u32_serialize(value: u32, buf: &mut [u8]) -> (r: Result<(), std::io::Error>)
    ensures
        final(buf)@.len() == old(buf)@.len(),
        r.is_ok() <==> old(buf)@.len() >= COUNTER_LEN,
        r.is_ok() ==> final(buf)@ == le_bytes(value) + old(buf)@.skip(COUNTER_LEN as int),
{
    let mut writer: &mut [u8] = buf;
    borsh::BorshSerialize::serialize(&value, &mut writer)
}

} // verus!
