//! Integers as they lie on the wire, and the calls that read them.
//!
//! The specification functions say what number a run of bytes stands for. The
//! executable functions hand the bytes to the `byteorder` crate; their
//! contracts are taken on trust from that crate's source.

use vstd::prelude::*;
use byteorder::ByteOrder;

verus! {

/// The number that two bytes stand for, most significant byte first.
pub open spec fn be16(bytes: Seq<u8>) -> int {
    bytes[0] as int * 0x100 + bytes[1] as int
}

/// The number that four bytes stand for, most significant byte first.
pub open spec fn be32(bytes: Seq<u8>) -> int {
    bytes[0] as int * 0x100_0000 + bytes[1] as int * 0x1_0000 + bytes[2] as int * 0x100
        + bytes[3] as int
}

/// The number that eight bytes stand for, most significant byte first.
pub open spec fn be64(bytes: Seq<u8>) -> int {
    be32(bytes.subrange(0, 4)) * 0x1_0000_0000 + be32(bytes.subrange(4, 8))
}

/// The number that four bytes stand for, least significant byte first.
pub open spec fn le32(bytes: Seq<u8>) -> int {
    bytes[0] as int + bytes[1] as int * 0x100 + bytes[2] as int * 0x1_0000 + bytes[3] as int
        * 0x100_0000
}

/// The number that `width` bytes stand for, most significant byte first, for
/// the widths that the format uses.
pub open spec fn be_uint(bytes: Seq<u8>, width: nat) -> int {
    if width == 1 {
        bytes[0] as int
    } else if width == 2 {
        be16(bytes)
    } else if width == 4 {
        be32(bytes)
    } else {
        be64(bytes)
    }
}

/// An unsigned number of `8 * width` bits read as two's complement.
pub open spec fn signed(value: int, width: nat) -> int {
    if width == 1 {
        if value < 0x80 { value } else { value - 0x100 }
    } else if width == 2 {
        if value < 0x8000 { value } else { value - 0x1_0000 }
    } else if width == 4 {
        if value < 0x8000_0000 { value } else { value - 0x1_0000_0000 }
    } else {
        if value < 0x8000_0000_0000_0000 { value } else { value - 0x1_0000_0000_0000_0000 }
    }
}

/// Calls `byteorder::BigEndian::read_u16`, which builds the number from the
/// first two bytes of the slice, most significant first, and panics on a
/// shorter slice.
#[verifier::external_body]
pub(crate) fn be_u16(bytes: &[u8]) -> (value: u16)
    requires
        bytes@.len() == 2,
    ensures
        value as int == be16(bytes@),
{
    byteorder::BigEndian::read_u16(bytes)
}

/// Calls `byteorder::BigEndian::read_u32`, which builds the number from the
/// first four bytes of the slice, most significant first, and panics on a
/// shorter slice.
#[verifier::external_body]
pub(crate) fn be_u32(bytes: &[u8]) -> (value: u32)
    requires
        bytes@.len() == 4,
    ensures
        value as int == be32(bytes@),
{
    byteorder::BigEndian::read_u32(bytes)
}

/// Calls `byteorder::BigEndian::read_u64`, which builds the number from the
/// first eight bytes of the slice, most significant first, and panics on a
/// shorter slice.
#[verifier::external_body]
pub(crate) fn be_u64(bytes: &[u8]) -> (value: u64)
    requires
        bytes@.len() == 8,
    ensures
        value as int == be64(bytes@),
{
    byteorder::BigEndian::read_u64(bytes)
}

/// Calls `byteorder::BigEndian::read_i16`, which reads the unsigned number
/// and casts it to `i16`: the same sixteen bits as two's complement.
#[verifier::external_body]
pub(crate) fn be_i16(bytes: &[u8]) -> (value: i16)
    requires
        bytes@.len() == 2,
    ensures
        value as int == signed(be16(bytes@), 2),
{
    byteorder::BigEndian::read_i16(bytes)
}

/// Calls `byteorder::BigEndian::read_i32`, which reads the unsigned number
/// and casts it to `i32`: the same thirty-two bits as two's complement.
#[verifier::external_body]
pub(crate) fn be_i32(bytes: &[u8]) -> (value: i32)
    requires
        bytes@.len() == 4,
    ensures
        value as int == signed(be32(bytes@), 4),
{
    byteorder::BigEndian::read_i32(bytes)
}

/// Calls `byteorder::BigEndian::read_i64`, which reads the unsigned number
/// and casts it to `i64`: the same sixty-four bits as two's complement.
#[verifier::external_body]
pub(crate) fn be_i64(bytes: &[u8]) -> (value: i64)
    requires
        bytes@.len() == 8,
    ensures
        value as int == signed(be64(bytes@), 8),
{
    byteorder::BigEndian::read_i64(bytes)
}

/// Calls `byteorder::LittleEndian::read_u32`, which builds the number from
/// the first four bytes of the slice, least significant first, and panics on
/// a shorter slice.
#[verifier::external_body]
pub(crate) fn le_u32(bytes: &[u8]) -> (value: u32)
    requires
        bytes@.len() == 4,
    ensures
        value as int == le32(bytes@),
{
    byteorder::LittleEndian::read_u32(bytes)
}

/// Takes a word apart into its four bytes, least significant first: the bytes
/// that the word stands for in little-endian order, and no others.
pub(crate) fn le_bytes(word: u32) -> (bytes: [u8; 4])
    ensures
        le32(bytes@) == word,
        forall|other: Seq<u8>| other.len() == 4 && le32(other) == word ==> other =~= bytes@,
{
    let b0: u8 = (word % 0x100) as u8;
    let b1: u8 = (word / 0x100 % 0x100) as u8;
    let b2: u8 = (word / 0x1_0000 % 0x100) as u8;
    let b3: u8 = (word / 0x100_0000) as u8;
    let bytes: [u8; 4] = [b0, b1, b2, b3];
    assert forall|other: Seq<u8>| other.len() == 4 && le32(other) == word implies other
        =~= bytes@ by {
        lemma_le32_digits(other[0], other[1], other[2], other[3]);
    }
    bytes
}

/// The digits of a number written to base 256 can be read off it by division.
proof fn lemma_le32_digits(b0: u8, b1: u8, b2: u8, b3: u8)
    ensures
        ({
            let word = b0 as int + b1 as int * 0x100 + b2 as int * 0x1_0000 + b3 as int
                * 0x100_0000;
            &&& word % 0x100 == b0
            &&& word / 0x100 % 0x100 == b1
            &&& word / 0x1_0000 % 0x100 == b2
            &&& word / 0x100_0000 == b3
        }),
{
}

} // verus!
