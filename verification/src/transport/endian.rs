//! The byte order of header fields on the wire.

use vstd::prelude::*;
use crate::wire::{
    be_read_u32, be_write_u32, le_read_u32, le_write_u32, native_read_u32, native_write_u32,
    splice4, u32_be_bytes, u32_from_be, u32_from_le, u32_le_bytes, lemma_u32_be_roundtrip,
    lemma_u32_le_roundtrip,
};

verus! {

/// The endianness to use for encoding header fields.
///
/// The encoding and serialization of message bodies is up to the application code,
/// and it not affected by this configuration parameter.
#[derive(Debug, Clone, Copy, PartialEq, Eq, Structural, PartialOrd, Ord, Hash)]
pub enum Endian {
    /// Encode header fields in little endian.
    LittleEndian,

    /// Encode header fields in big endian.
    BigEndian,

    /// Encode header fields in the native endianness of the platform.
    ///
    /// NOTE: You should only use this when you know for sure that the other side of the connection
    /// is on the same platform, such as when using a Unix socket.
    /// Otherwise, both sides may select native endianness and end up using a different endianness.
    NativeEndian,
}

/// The bytes of a `u32` in a fixed byte order.
pub open spec fn spec_u32_bytes(endian: Endian, v: u32) -> Seq<u8> {
    match endian {
        Endian::BigEndian => u32_be_bytes(v),
        _ => u32_le_bytes(v),
    }
}

/// The `u32` that the first four bytes of `b` hold in a fixed byte order.
pub open spec fn spec_u32_from(endian: Endian, b: Seq<u8>) -> u32 {
    match endian {
        Endian::BigEndian => u32_from_be(b),
        _ => u32_from_le(b),
    }
}

impl Endian {
    /// The byte order is known without asking the platform.
    pub open spec fn is_fixed(self) -> bool {
        !(self is NativeEndian)
    }

    /// `r` is what this byte order reads from the first four bytes of `b`.
    ///
    /// For the native byte order this is the little or the big endian reading,
    /// as the platform decides.
    pub open spec fn reads_u32(self, b: Seq<u8>, r: u32) -> bool {
        match self {
            Endian::LittleEndian => r == u32_from_le(b),
            Endian::BigEndian => r == u32_from_be(b),
            Endian::NativeEndian => r == u32_from_le(b) || r == u32_from_be(b),
        }
    }

    /// `new` is `old` with `v` written at `offset` in this byte order.
    ///
    /// For the native byte order the bytes are the little or the big endian encoding,
    /// as the platform decides.
    pub open spec fn writes_u32(self, old: Seq<u8>, offset: int, v: u32, new: Seq<u8>) -> bool {
        match self {
            Endian::LittleEndian => new == splice4(old, offset, u32_le_bytes(v)),
            Endian::BigEndian => new == splice4(old, offset, u32_be_bytes(v)),
            Endian::NativeEndian => new == splice4(old, offset, u32_le_bytes(v))
                || new == splice4(old, offset, u32_be_bytes(v)),
        }
    }

    /// Resolve the native byte order to the byte order of this platform.
    ///
    /// Fixed byte orders are returned unchanged.
    pub fn resolve(self) -> (r: Endian)
        ensures
            r.is_fixed(),
            self.is_fixed() ==> r == self,
    {
        match self {
            Endian::NativeEndian => {
                let mut probe = [0u8; 4];
                native_write_u32(&mut probe, 1);
                if probe[0] == 1 {
                    Endian::LittleEndian
                } else {
                    Endian::BigEndian
                }
            },
            other => other,
        }
    }

    /// Read a [`u32`] from `buffer[offset..offset + 4]` in this byte order.
    pub fn read_u32_at(self, buffer: &[u8], offset: usize) -> (r: u32)
        requires
            offset + 4 <= buffer@.len(),
        ensures
            self.reads_u32(buffer@.skip(offset as int), r),
    {
        match self {
            Endian::LittleEndian => le_read_u32(buffer, offset),
            Endian::BigEndian => be_read_u32(buffer, offset),
            Endian::NativeEndian => {
                let mut four = [0u8; 4];
                four[0] = buffer[offset];
                four[1] = buffer[offset + 1];
                four[2] = buffer[offset + 2];
                four[3] = buffer[offset + 3];
                let r = native_read_u32(&four);
                assert(four@ =~= buffer@.skip(offset as int).take(4));
                r
            },
        }
    }

    /// Write a [`u32`] to `buffer[offset..offset + 4]` in this byte order.
    pub fn write_u32_at(self, buffer: &mut [u8], offset: usize, value: u32)
        requires
            offset + 4 <= old(buffer)@.len(),
        ensures
            self.writes_u32(old(buffer)@, offset as int, value, final(buffer)@),
    {
        match self {
            Endian::LittleEndian => le_write_u32(buffer, offset, value),
            Endian::BigEndian => be_write_u32(buffer, offset, value),
            Endian::NativeEndian => {
                let mut four = [0u8; 4];
                native_write_u32(&mut four, value);
                buffer[offset] = four[0];
                buffer[offset + 1] = four[1];
                buffer[offset + 2] = four[2];
                buffer[offset + 3] = four[3];
                assert(final(buffer)@ =~= splice4(old(buffer)@, offset as int, four@));
            },
        }
    }

    /// Read a [`u32`] from a buffer in the correct endianness.
    pub fn read_u32(self, buffer: &[u8]) -> (r: u32)
        requires
            4 <= buffer@.len(),
        ensures
            self.reads_u32(buffer@, r),
    {
        let r = self.read_u32_at(buffer, 0);
        assert(buffer@.skip(0) =~= buffer@);
        r
    }

    /// Write a [`u32`] to a buffer in the correct endianness.
    pub fn write_u32(self, buffer: &mut [u8], value: u32)
        requires
            4 <= old(buffer)@.len(),
        ensures
            self.writes_u32(old(buffer)@, 0, value, final(buffer)@),
    {
        self.write_u32_at(buffer, 0, value)
    }

    /// Read a [`i32`] from a buffer in the correct endianness.
    ///
    /// The four bytes are read as a `u32` and reinterpreted in two's complement.
    pub fn read_i32(self, buffer: &[u8]) -> (r: i32)
        requires
            4 <= buffer@.len(),
        ensures
            exists|u: u32| self.reads_u32(buffer@, u) && r == u as i32,
    {
        let u = self.read_u32(buffer);
        u as i32
    }

    /// Write a [`i32`] to a buffer in the correct endianness.
    ///
    /// The value is written as the `u32` with the same two's complement bits.
    pub fn write_i32(self, buffer: &mut [u8], value: i32)
        requires
            4 <= old(buffer)@.len(),
        ensures
            self.writes_u32(old(buffer)@, 0, value as u32, final(buffer)@),
    {
        self.write_u32(buffer, value as u32)
    }
}

/// What a fixed byte order writes at an offset, it reads back from that offset.
pub proof fn lemma_endian_u32_roundtrip(endian: Endian, old: Seq<u8>, offset: int, v: u32, new: Seq<u8>)
    requires
        endian.is_fixed(),
        0 <= offset,
        offset + 4 <= old.len(),
        endian.writes_u32(old, offset, v, new),
    ensures
        new.len() == old.len(),
        endian.reads_u32(new.skip(offset), v),
{
    lemma_u32_le_roundtrip(v);
    lemma_u32_be_roundtrip(v);
    let bytes = spec_u32_bytes(endian, v);
    assert(new.skip(offset).take(4) =~= bytes);
}

} // verus!
