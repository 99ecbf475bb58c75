//! Byte-level encodings of the integers used in message headers.
//!
//! The spec functions here say how a 32 bit integer is laid out in four bytes,
//! in little or big endian order. The executable functions read and write those
//! bytes through the `byteorder` crate.

use vstd::prelude::*;
use byteorder::ByteOrder;

verus! {

/// The four bytes of `v`, least significant byte first.
pub open spec fn u32_le_bytes(v: u32) -> Seq<u8> {
    seq![
        (v % 256) as u8,
        ((v / 256) % 256) as u8,
        ((v / 65536) % 256) as u8,
        (v / 16777216) as u8,
    ]
}

/// The four bytes of `v`, most significant byte first.
pub open spec fn u32_be_bytes(v: u32) -> Seq<u8> {
    seq![
        (v / 16777216) as u8,
        ((v / 65536) % 256) as u8,
        ((v / 256) % 256) as u8,
        (v % 256) as u8,
    ]
}

/// The value of the first four bytes of `b`, read least significant byte first.
pub open spec fn u32_from_le(b: Seq<u8>) -> u32
    recommends
        b.len() >= 4,
{
    (b[0] as int + 256 * b[1] + 65536 * b[2] + 16777216 * b[3]) as u32
}

/// The value of the first four bytes of `b`, read most significant byte first.
pub open spec fn u32_from_be(b: Seq<u8>) -> u32
    recommends
        b.len() >= 4,
{
    (b[3] as int + 256 * b[2] + 65536 * b[1] + 16777216 * b[0]) as u32
}

/// Decoding the little endian bytes of a value gives the value back.
pub proof fn lemma_u32_le_roundtrip(v: u32)
    ensures
        u32_le_bytes(v).len() == 4,
        u32_from_le(u32_le_bytes(v)) == v,
{
    let b = u32_le_bytes(v);
    assert(b[0] as int + 256 * b[1] + 65536 * b[2] + 16777216 * b[3] == v) by (nonlinear_arith)
        requires
            b[0] == v % 256,
            b[1] == (v / 256) % 256,
            b[2] == (v / 65536) % 256,
            b[3] == v / 16777216,
            v < 4294967296,
    ;
}

/// Decoding the big endian bytes of a value gives the value back.
pub proof fn lemma_u32_be_roundtrip(v: u32)
    ensures
        u32_be_bytes(v).len() == 4,
        u32_from_be(u32_be_bytes(v)) == v,
{
    let b = u32_be_bytes(v);
    assert(b[3] as int + 256 * b[2] + 65536 * b[1] + 16777216 * b[0] == v) by (nonlinear_arith)
        requires
            b[3] == v % 256,
            b[2] == (v / 256) % 256,
            b[1] == (v / 65536) % 256,
            b[0] == v / 16777216,
            v < 4294967296,
    ;
}

/// Encoding the value read from four little endian bytes gives those bytes back.
pub proof fn lemma_u32_le_bytes_of_read(b: Seq<u8>)
    requires
        b.len() >= 4,
    ensures
        u32_le_bytes(u32_from_le(b)) == b.take(4),
{
    let (b0, b1, b2, b3) = (b[0], b[1], b[2], b[3]);
    let x: int = b0 as int + 256 * b1 + 65536 * b2 + 16777216 * b3;
    assert(0 <= x < 4294967296) by (nonlinear_arith)
        requires x == b0 as int + 256 * b1 + 65536 * b2 + 16777216 * b3,
            b0 < 256, b1 < 256, b2 < 256, b3 < 256;
    assert(x % 256 == b0 && (x / 256) % 256 == b1 && (x / 65536) % 256 == b2 && x / 16777216 == b3)
        by (nonlinear_arith)
        requires x == b0 as int + 256 * b1 + 65536 * b2 + 16777216 * b3,
            b0 < 256, b1 < 256, b2 < 256, b3 < 256;
    assert(u32_le_bytes(u32_from_le(b)) =~= b.take(4));
}

/// Encoding the value read from four big endian bytes gives those bytes back.
pub proof fn lemma_u32_be_bytes_of_read(b: Seq<u8>)
    requires
        b.len() >= 4,
    ensures
        u32_be_bytes(u32_from_be(b)) == b.take(4),
{
    let (b0, b1, b2, b3) = (b[3], b[2], b[1], b[0]);
    let x: int = b0 as int + 256 * b1 + 65536 * b2 + 16777216 * b3;
    assert(0 <= x < 4294967296) by (nonlinear_arith)
        requires x == b0 as int + 256 * b1 + 65536 * b2 + 16777216 * b3,
            b0 < 256, b1 < 256, b2 < 256, b3 < 256;
    assert(x % 256 == b0 && (x / 256) % 256 == b1 && (x / 65536) % 256 == b2 && x / 16777216 == b3)
        by (nonlinear_arith)
        requires x == b0 as int + 256 * b1 + 65536 * b2 + 16777216 * b3,
            b0 < 256, b1 < 256, b2 < 256, b3 < 256;
    assert(u32_be_bytes(u32_from_be(b)) =~= b.take(4));
}

/// `buf` with the four bytes at `offset` replaced by `bytes`.
pub open spec fn splice4(buf: Seq<u8>, offset: int, bytes: Seq<u8>) -> Seq<u8> {
    buf.take(offset) + bytes + buf.skip(offset + 4)
}

/// Reads a `u32` in little endian order from `buf[offset..offset + 4]`
/// with `byteorder::LittleEndian::read_u32`, which decodes the first four bytes
/// of the slice it is given, least significant byte first.
#[verifier::external_body]
pub(crate) fn le_read_u32(buf: &[u8], offset: usize) -> (r: u32)
    requires
        offset + 4 <= buf@.len(),
    ensures
        r == u32_from_le(buf@.skip(offset as int)),
{
    byteorder::LittleEndian::read_u32(&buf[offset..])
}

/// Reads a `u32` in big endian order from `buf[offset..offset + 4]`
/// with `byteorder::BigEndian::read_u32`, which decodes the first four bytes
/// of the slice it is given, most significant byte first.
#[verifier::external_body]
pub(crate) fn be_read_u32(buf: &[u8], offset: usize) -> (r: u32)
    requires
        offset + 4 <= buf@.len(),
    ensures
        r == u32_from_be(buf@.skip(offset as int)),
{
    byteorder::BigEndian::read_u32(&buf[offset..])
}

/// Writes `n` in little endian order to `buf[offset..offset + 4]`
/// with `byteorder::LittleEndian::write_u32`, which copies `n.to_le_bytes()`
/// into the first four bytes of the slice it is given and leaves the rest alone.
#[verifier::external_body]
pub(crate) fn le_write_u32(buf: &mut [u8], offset: usize, n: u32)
    requires
        offset + 4 <= old(buf)@.len(),
    ensures
        final(buf)@ == splice4(old(buf)@, offset as int, u32_le_bytes(n)),
{
    byteorder::LittleEndian::write_u32(&mut buf[offset..], n)
}

/// Writes `n` in big endian order to `buf[offset..offset + 4]`
/// with `byteorder::BigEndian::write_u32`, which copies `n.to_be_bytes()`
/// into the first four bytes of the slice it is given and leaves the rest alone.
#[verifier::external_body]
pub(crate) fn be_write_u32(buf: &mut [u8], offset: usize, n: u32)
    requires
        offset + 4 <= old(buf)@.len(),
    ensures
        final(buf)@ == splice4(old(buf)@, offset as int, u32_be_bytes(n)),
{
    byteorder::BigEndian::write_u32(&mut buf[offset..], n)
}

/// Writes `n` in the byte order of the platform to the first four bytes of `buf`
/// with `byteorder::NativeEndian::write_u32`.
/// `NativeEndian` is `LittleEndian` or `BigEndian` depending on the target,
/// so the bytes are one of the two encodings; which one is not stated.
#[verifier::external_body]
pub(crate) fn native_write_u32(buf: &mut [u8], n: u32)
    requires
        4 <= old(buf)@.len(),
    ensures
        final(buf)@ == splice4(old(buf)@, 0, u32_le_bytes(n))
            || final(buf)@ == splice4(old(buf)@, 0, u32_be_bytes(n)),
{
    byteorder::NativeEndian::write_u32(buf, n)
}

/// Reads a `u32` in the byte order of the platform from the first four bytes of `buf`
/// with `byteorder::NativeEndian::read_u32`.
/// The result is the little or the big endian reading; which one is not stated.
#[verifier::external_body]
pub(crate) fn native_read_u32(buf: &[u8]) -> (r: u32)
    requires
        4 <= buf@.len(),
    ensures
        r == u32_from_le(buf@) || r == u32_from_be(buf@),
{
    byteorder::NativeEndian::read_u32(buf)
}

} // verus!
