//! Big-endian encoding of the chip's 16-bit register values.

use byteorder::{BigEndian, ByteOrder};
use vstd::prelude::*;

verus! {

/// The two bytes, most significant first, that encode `value`.
pub open spec fn be_bytes(value: u16) -> Seq<u8> {
    seq![(value / 256) as u8, (value % 256) as u8]
}

/// The number that the first two bytes of `bytes` encode, most significant first.
pub open spec fn be_value(bytes: Seq<u8>) -> int
    recommends
        bytes.len() >= 2,
{
    bytes[0] * 256 + bytes[1]
}

/// `BigEndian::read_u16` of byteorder: the first two bytes of `buf`, read most significant
/// first. It panics when `buf` is shorter than two bytes, which `requires` rules out.
#[verifier::external_body]
fn read_be_u16(buf: &[u8]) -> (value: u16)
    requires
        buf@.len() >= 2,
    ensures
        value == be_value(buf@),
{
    BigEndian::read_u16(buf)
}

/// `BigEndian::write_u16` of byteorder: stores `value` into the first two bytes of `buf`, most
/// significant first, and leaves the rest of `buf` as it was. It panics when `buf` is shorter
/// than two bytes, which `requires` rules out.
#[verifier::external_body]
fn write_be_u16(buf: &mut [u8], value: u16)
    requires
        old(buf)@.len() >= 2,
    ensures
        final(buf)@ == old(buf)@.update(0, be_bytes(value)[0]).update(1, be_bytes(value)[1]),
{
    BigEndian::write_u16(buf, value)
}

/// The two bytes that carry `value` in a register of the chip, most significant first.
pub fn encode_u16(value: u16) -> (bytes: [u8; 2])
    ensures
        bytes@ == be_bytes(value),
{
    let mut bytes = [0u8; 2];
    write_be_u16(&mut bytes, value);
    proof {
        assert(bytes@ =~= be_bytes(value));
    }
    bytes
}

/// The value that the first two bytes of `bytes` carry, most significant first.
pub fn decode_u16(bytes: &[u8]) -> (value: u16)
    requires
        bytes@.len() >= 2,
    ensures
        value == be_value(bytes@),
{
    read_be_u16(bytes)
}

/// Decoding what was encoded gives the value back, and encoding what was decoded gives the two
/// bytes back.
pub proof fn lemma_decode_encode(value: u16, bytes: Seq<u8>)
    ensures
        be_value(be_bytes(value)) == value,
        bytes.len() == 2 ==> be_bytes(be_value(bytes) as u16) == bytes,
{
    if bytes.len() == 2 {
        assert(be_bytes(be_value(bytes) as u16) =~= bytes);
    }
}

} // verus!
