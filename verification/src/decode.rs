//! The readers: each takes one value off the front of an input.
//!
//! A reader's contract equates what it returns, and the input it leaves, with
//! the function of `wire` that states its part of the format.

use vstd::prelude::*;
use vstd::slice::slice_subrange;
use crate::endian::{be16, be_i16, be_i32, be_i64, be_u16, be_u32, be_u64, le_bytes, le_u32};
use crate::error::{
    DecodeStringError, FixedValueReadError, MarkerReadError, ReadError, StringFailure,
    ValueReadError,
};
use crate::input::{Input, Stream};
use crate::marker::Marker;
use crate::text::{check_utf8, lemma_valid_up_to_is_prefix_len};
use crate::wire;
use crate::wire::{widen, Fixed, Reader};

verus! {

/// Reads one byte and classifies it. Every reader starts here.
pub fn read_marker(rd: &mut Input) -> (res: Result<Marker, MarkerReadError>)
    ensures
        (res, final(rd)@) == wire::read_marker(old(rd)@),
{
    match rd.next_byte() {
        Ok(byte) => Ok(Marker::from_u8(byte)),
        Err(err) => Err(MarkerReadError::from(err)),
    }
}

/// Reads nil.
///
/// Any other marker is handed back as a type mismatch.
pub fn read_nil(rd: &mut Input) -> (res: Result<(), FixedValueReadError>)
    ensures
        (widen(res), final(rd)@) == wire::read_fixed(old(rd)@, Fixed::Nil),
{
    match read_marker(rd) {
        Err(err) => Err(FixedValueReadError::from(err)),
        Ok(Marker::Null) => Ok(()),
        Ok(marker) => Err(FixedValueReadError::TypeMismatch(marker)),
    }
}

/// Reads a boolean.
///
/// Any other marker is handed back as a type mismatch.
pub fn read_bool(rd: &mut Input) -> (res: Result<bool, FixedValueReadError>)
    ensures
        (widen(res), final(rd)@) == wire::read_fixed(old(rd)@, Fixed::Bool),
{
    match read_marker(rd) {
        Err(err) => Err(FixedValueReadError::from(err)),
        Ok(Marker::True) => Ok(true),
        Ok(Marker::False) => Ok(false),
        Ok(marker) => Err(FixedValueReadError::TypeMismatch(marker)),
    }
}

/// Reads a positive fixnum: an integer from 0 to 127 held in the marker.
///
/// Any other marker is handed back as a type mismatch.
pub fn read_pfix(rd: &mut Input) -> (res: Result<u8, FixedValueReadError>)
    ensures
        (widen(res), final(rd)@) == wire::read_fixed(old(rd)@, Fixed::PositiveFixnum),
{
    match read_marker(rd) {
        Err(err) => Err(FixedValueReadError::from(err)),
        Ok(Marker::PositiveFixnum(value)) => Ok(value),
        Ok(marker) => Err(FixedValueReadError::TypeMismatch(marker)),
    }
}

/// Reads a negative fixnum: an integer from -32 to -1 held in the marker.
///
/// Any other marker is handed back as a type mismatch.
pub fn read_nfix(rd: &mut Input) -> (res: Result<i8, FixedValueReadError>)
    ensures
        (widen(res), final(rd)@) == wire::read_fixed(old(rd)@, Fixed::NegativeFixnum),
{
    match read_marker(rd) {
        Err(err) => Err(FixedValueReadError::from(err)),
        Ok(Marker::NegativeFixnum(value)) => Ok(value),
        Ok(marker) => Err(FixedValueReadError::TypeMismatch(marker)),
    }
}

/// Reads a payload of one byte as an unsigned number.
pub fn read_data_u8(rd: &mut Input) -> (res: Result<u8, ValueReadError>)
    ensures
        (widen(res), final(rd)@) == wire::read_data(old(rd)@, 1, false),
{
    match rd.take(1) {
        Ok(bytes) => Ok(bytes[0]),
        Err(err) => Err(ValueReadError::InvalidDataRead(err)),
    }
}

/// Reads a payload of two bytes as an unsigned number.
pub fn read_data_u16(rd: &mut Input) -> (res: Result<u16, ValueReadError>)
    ensures
        (widen(res), final(rd)@) == wire::read_data(old(rd)@, 2, false),
{
    match rd.take(2) {
        Ok(bytes) => Ok(be_u16(bytes)),
        Err(err) => Err(ValueReadError::InvalidDataRead(err)),
    }
}

/// Reads a payload of four bytes as an unsigned number.
pub fn read_data_u32(rd: &mut Input) -> (res: Result<u32, ValueReadError>)
    ensures
        (widen(res), final(rd)@) == wire::read_data(old(rd)@, 4, false),
{
    match rd.take(4) {
        Ok(bytes) => Ok(be_u32(bytes)),
        Err(err) => Err(ValueReadError::InvalidDataRead(err)),
    }
}

/// Reads a payload of eight bytes as an unsigned number.
pub fn read_data_u64(rd: &mut Input) -> (res: Result<u64, ValueReadError>)
    ensures
        (widen(res), final(rd)@) == wire::read_data(old(rd)@, 8, false),
{
    match rd.take(8) {
        Ok(bytes) => Ok(be_u64(bytes)),
        Err(err) => Err(ValueReadError::InvalidDataRead(err)),
    }
}

/// Reads a payload of one byte as a two's complement number.
pub fn read_data_i8(rd: &mut Input) -> (res: Result<i8, ValueReadError>)
    ensures
        (widen(res), final(rd)@) == wire::read_data(old(rd)@, 1, true),
{
    match rd.take(1) {
        Ok(bytes) => {
            let byte: u8 = bytes[0];
            if byte < 0x80 {
                Ok(byte as i8)
            } else {
                let wide: i16 = byte as i16;
                Ok((wide - 0x100) as i8)
            }
        },
        Err(err) => Err(ValueReadError::InvalidDataRead(err)),
    }
}

/// Reads a payload of two bytes as a two's complement number.
pub fn read_data_i16(rd: &mut Input) -> (res: Result<i16, ValueReadError>)
    ensures
        (widen(res), final(rd)@) == wire::read_data(old(rd)@, 2, true),
{
    match rd.take(2) {
        Ok(bytes) => Ok(be_i16(bytes)),
        Err(err) => Err(ValueReadError::InvalidDataRead(err)),
    }
}

/// Reads a payload of four bytes as a two's complement number.
pub fn read_data_i32(rd: &mut Input) -> (res: Result<i32, ValueReadError>)
    ensures
        (widen(res), final(rd)@) == wire::read_data(old(rd)@, 4, true),
{
    match rd.take(4) {
        Ok(bytes) => Ok(be_i32(bytes)),
        Err(err) => Err(ValueReadError::InvalidDataRead(err)),
    }
}

/// Reads a payload of eight bytes as a two's complement number.
pub fn read_data_i64(rd: &mut Input) -> (res: Result<i64, ValueReadError>)
    ensures
        (widen(res), final(rd)@) == wire::read_data(old(rd)@, 8, true),
{
    match rd.take(8) {
        Ok(bytes) => Ok(be_i64(bytes)),
        Err(err) => Err(ValueReadError::InvalidDataRead(err)),
    }
}

/// Reads a `u8` written at its full width: the marker `U8` and one byte.
///
/// Any other marker is handed back as a type mismatch, also that of a
/// narrower integer.
pub fn read_u8(rd: &mut Input) -> (res: Result<u8, ValueReadError>)
    ensures
        (widen(res), final(rd)@) == wire::read_value(old(rd)@, Reader::Strict(Marker::U8)),
{
    match read_marker(rd) {
        Err(err) => Err(ValueReadError::from(err)),
        Ok(Marker::U8) => read_data_u8(rd),
        Ok(marker) => Err(ValueReadError::TypeMismatch(marker)),
    }
}

/// Reads a `u16` written at its full width: the marker `U16` and two bytes.
///
/// Any other marker is handed back as a type mismatch, also that of a
/// narrower integer.
pub fn read_u16(rd: &mut Input) -> (res: Result<u16, ValueReadError>)
    ensures
        (widen(res), final(rd)@) == wire::read_value(old(rd)@, Reader::Strict(Marker::U16)),
{
    match read_marker(rd) {
        Err(err) => Err(ValueReadError::from(err)),
        Ok(Marker::U16) => read_data_u16(rd),
        Ok(marker) => Err(ValueReadError::TypeMismatch(marker)),
    }
}

/// Reads a `u32` written at its full width: the marker `U32` and four bytes.
///
/// Any other marker is handed back as a type mismatch, also that of a
/// narrower integer.
pub fn read_u32(rd: &mut Input) -> (res: Result<u32, ValueReadError>)
    ensures
        (widen(res), final(rd)@) == wire::read_value(old(rd)@, Reader::Strict(Marker::U32)),
{
    match read_marker(rd) {
        Err(err) => Err(ValueReadError::from(err)),
        Ok(Marker::U32) => read_data_u32(rd),
        Ok(marker) => Err(ValueReadError::TypeMismatch(marker)),
    }
}

/// Reads a `u64` written at its full width: the marker `U64` and eight bytes.
///
/// Any other marker is handed back as a type mismatch, also that of a
/// narrower integer.
pub fn read_u64(rd: &mut Input) -> (res: Result<u64, ValueReadError>)
    ensures
        (widen(res), final(rd)@) == wire::read_value(old(rd)@, Reader::Strict(Marker::U64)),
{
    match read_marker(rd) {
        Err(err) => Err(ValueReadError::from(err)),
        Ok(Marker::U64) => read_data_u64(rd),
        Ok(marker) => Err(ValueReadError::TypeMismatch(marker)),
    }
}

/// Reads an `i8` written at its full width: the marker `I8` and one byte.
///
/// Any other marker is handed back as a type mismatch, also that of a
/// narrower integer.
pub fn read_i8(rd: &mut Input) -> (res: Result<i8, ValueReadError>)
    ensures
        (widen(res), final(rd)@) == wire::read_value(old(rd)@, Reader::Strict(Marker::I8)),
{
    match read_marker(rd) {
        Err(err) => Err(ValueReadError::from(err)),
        Ok(Marker::I8) => read_data_i8(rd),
        Ok(marker) => Err(ValueReadError::TypeMismatch(marker)),
    }
}

/// Reads an `i16` written at its full width: the marker `I16` and two bytes.
///
/// Any other marker is handed back as a type mismatch, also that of a
/// narrower integer.
pub fn read_i16(rd: &mut Input) -> (res: Result<i16, ValueReadError>)
    ensures
        (widen(res), final(rd)@) == wire::read_value(old(rd)@, Reader::Strict(Marker::I16)),
{
    match read_marker(rd) {
        Err(err) => Err(ValueReadError::from(err)),
        Ok(Marker::I16) => read_data_i16(rd),
        Ok(marker) => Err(ValueReadError::TypeMismatch(marker)),
    }
}

/// Reads an `i32` written at its full width: the marker `I32` and four bytes.
///
/// Any other marker is handed back as a type mismatch, also that of a
/// narrower integer.
pub fn read_i32(rd: &mut Input) -> (res: Result<i32, ValueReadError>)
    ensures
        (widen(res), final(rd)@) == wire::read_value(old(rd)@, Reader::Strict(Marker::I32)),
{
    match read_marker(rd) {
        Err(err) => Err(ValueReadError::from(err)),
        Ok(Marker::I32) => read_data_i32(rd),
        Ok(marker) => Err(ValueReadError::TypeMismatch(marker)),
    }
}

/// Reads an `i64` written at its full width: the marker `I64` and eight bytes.
///
/// Any other marker is handed back as a type mismatch, also that of a
/// narrower integer.
pub fn read_i64(rd: &mut Input) -> (res: Result<i64, ValueReadError>)
    ensures
        (widen(res), final(rd)@) == wire::read_value(old(rd)@, Reader::Strict(Marker::I64)),
{
    match read_marker(rd) {
        Err(err) => Err(ValueReadError::from(err)),
        Ok(Marker::I64) => read_data_i64(rd),
        Ok(marker) => Err(ValueReadError::TypeMismatch(marker)),
    }
}

/// Reads a `u8` written at any width up to its own: a positive fixnum
/// or an unsigned integer of at most one byte, widened.
///
/// The marker of a signed integer is handed back as a type mismatch,
/// whatever its value, and so is that of a wider integer.
pub fn read_u8_loosely(rd: &mut Input) -> (res: Result<u8, ValueReadError>)
    ensures
        (widen(res), final(rd)@) == wire::read_value(old(rd)@, Reader::LooseUnsigned(1)),
{
    match read_marker(rd) {
        Err(err) => Err(ValueReadError::from(err)),
        Ok(Marker::PositiveFixnum(value)) => Ok(value),
        Ok(Marker::U8) => read_data_u8(rd),
        Ok(marker) => Err(ValueReadError::TypeMismatch(marker)),
    }
}

/// Reads a `u16` written at any width up to its own: a positive fixnum
/// or an unsigned integer of at most two bytes, widened.
///
/// The marker of a signed integer is handed back as a type mismatch,
/// whatever its value, and so is that of a wider integer.
pub fn read_u16_loosely(rd: &mut Input) -> (res: Result<u16, ValueReadError>)
    ensures
        (widen(res), final(rd)@) == wire::read_value(old(rd)@, Reader::LooseUnsigned(2)),
{
    match read_marker(rd) {
        Err(err) => Err(ValueReadError::from(err)),
        Ok(Marker::PositiveFixnum(value)) => Ok(value as u16),
        Ok(Marker::U8) => match read_data_u8(rd) {
            Ok(value) => Ok(value as u16),
            Err(err) => Err(err),
        },
        Ok(Marker::U16) => read_data_u16(rd),
        Ok(marker) => Err(ValueReadError::TypeMismatch(marker)),
    }
}

/// Reads a `u32` written at any width up to its own: a positive fixnum
/// or an unsigned integer of at most four bytes, widened.
///
/// The marker of a signed integer is handed back as a type mismatch,
/// whatever its value, and so is that of a wider integer.
pub fn read_u32_loosely(rd: &mut Input) -> (res: Result<u32, ValueReadError>)
    ensures
        (widen(res), final(rd)@) == wire::read_value(old(rd)@, Reader::LooseUnsigned(4)),
{
    match read_marker(rd) {
        Err(err) => Err(ValueReadError::from(err)),
        Ok(Marker::PositiveFixnum(value)) => Ok(value as u32),
        Ok(Marker::U8) => match read_data_u8(rd) {
            Ok(value) => Ok(value as u32),
            Err(err) => Err(err),
        },
        Ok(Marker::U16) => match read_data_u16(rd) {
            Ok(value) => Ok(value as u32),
            Err(err) => Err(err),
        },
        Ok(Marker::U32) => read_data_u32(rd),
        Ok(marker) => Err(ValueReadError::TypeMismatch(marker)),
    }
}

/// Reads a `u64` written at any width up to its own: a positive fixnum
/// or an unsigned integer of at most eight bytes, widened.
///
/// The marker of a signed integer is handed back as a type mismatch,
/// whatever its value, and so is that of a wider integer.
pub fn read_u64_loosely(rd: &mut Input) -> (res: Result<u64, ValueReadError>)
    ensures
        (widen(res), final(rd)@) == wire::read_value(old(rd)@, Reader::LooseUnsigned(8)),
{
    match read_marker(rd) {
        Err(err) => Err(ValueReadError::from(err)),
        Ok(Marker::PositiveFixnum(value)) => Ok(value as u64),
        Ok(Marker::U8) => match read_data_u8(rd) {
            Ok(value) => Ok(value as u64),
            Err(err) => Err(err),
        },
        Ok(Marker::U16) => match read_data_u16(rd) {
            Ok(value) => Ok(value as u64),
            Err(err) => Err(err),
        },
        Ok(Marker::U32) => match read_data_u32(rd) {
            Ok(value) => Ok(value as u64),
            Err(err) => Err(err),
        },
        Ok(Marker::U64) => read_data_u64(rd),
        Ok(marker) => Err(ValueReadError::TypeMismatch(marker)),
    }
}

/// Reads an `i8` written at any width up to its own: a negative fixnum
/// or a signed integer of at most one byte, widened.
///
/// The marker of an unsigned integer is handed back as a type mismatch,
/// whatever its value, and so is that of a wider integer.
pub fn read_i8_loosely(rd: &mut Input) -> (res: Result<i8, ValueReadError>)
    ensures
        (widen(res), final(rd)@) == wire::read_value(old(rd)@, Reader::LooseSigned(1)),
{
    match read_marker(rd) {
        Err(err) => Err(ValueReadError::from(err)),
        Ok(Marker::NegativeFixnum(value)) => Ok(value),
        Ok(Marker::I8) => read_data_i8(rd),
        Ok(marker) => Err(ValueReadError::TypeMismatch(marker)),
    }
}

/// Reads an `i16` written at any width up to its own: a negative fixnum
/// or a signed integer of at most two bytes, widened.
///
/// The marker of an unsigned integer is handed back as a type mismatch,
/// whatever its value, and so is that of a wider integer.
pub fn read_i16_loosely(rd: &mut Input) -> (res: Result<i16, ValueReadError>)
    ensures
        (widen(res), final(rd)@) == wire::read_value(old(rd)@, Reader::LooseSigned(2)),
{
    match read_marker(rd) {
        Err(err) => Err(ValueReadError::from(err)),
        Ok(Marker::NegativeFixnum(value)) => Ok(value as i16),
        Ok(Marker::I8) => match read_data_i8(rd) {
            Ok(value) => Ok(value as i16),
            Err(err) => Err(err),
        },
        Ok(Marker::I16) => read_data_i16(rd),
        Ok(marker) => Err(ValueReadError::TypeMismatch(marker)),
    }
}

/// Reads an `i32` written at any width up to its own: a negative fixnum
/// or a signed integer of at most four bytes, widened.
///
/// The marker of an unsigned integer is handed back as a type mismatch,
/// whatever its value, and so is that of a wider integer.
pub fn read_i32_loosely(rd: &mut Input) -> (res: Result<i32, ValueReadError>)
    ensures
        (widen(res), final(rd)@) == wire::read_value(old(rd)@, Reader::LooseSigned(4)),
{
    match read_marker(rd) {
        Err(err) => Err(ValueReadError::from(err)),
        Ok(Marker::NegativeFixnum(value)) => Ok(value as i32),
        Ok(Marker::I8) => match read_data_i8(rd) {
            Ok(value) => Ok(value as i32),
            Err(err) => Err(err),
        },
        Ok(Marker::I16) => match read_data_i16(rd) {
            Ok(value) => Ok(value as i32),
            Err(err) => Err(err),
        },
        Ok(Marker::I32) => read_data_i32(rd),
        Ok(marker) => Err(ValueReadError::TypeMismatch(marker)),
    }
}

/// Reads an `i64` written at any width up to its own: a negative fixnum
/// or a signed integer of at most eight bytes, widened.
///
/// The marker of an unsigned integer is handed back as a type mismatch,
/// whatever its value, and so is that of a wider integer.
pub fn read_i64_loosely(rd: &mut Input) -> (res: Result<i64, ValueReadError>)
    ensures
        (widen(res), final(rd)@) == wire::read_value(old(rd)@, Reader::LooseSigned(8)),
{
    match read_marker(rd) {
        Err(err) => Err(ValueReadError::from(err)),
        Ok(Marker::NegativeFixnum(value)) => Ok(value as i64),
        Ok(Marker::I8) => match read_data_i8(rd) {
            Ok(value) => Ok(value as i64),
            Err(err) => Err(err),
        },
        Ok(Marker::I16) => match read_data_i16(rd) {
            Ok(value) => Ok(value as i64),
            Err(err) => Err(err),
        },
        Ok(Marker::I32) => match read_data_i32(rd) {
            Ok(value) => Ok(value as i64),
            Err(err) => Err(err),
        },
        Ok(Marker::I64) => read_data_i64(rd),
        Ok(marker) => Err(ValueReadError::TypeMismatch(marker)),
    }
}

/// Reads the bits of a 32-bit float: the marker `F32` and four bytes, which
/// spell the float as IEEE 754 lays it out.
///
/// Any other marker is handed back as a type mismatch.
pub fn read_f32_bits(rd: &mut Input) -> (res: Result<u32, ValueReadError>)
    ensures
        (widen(res), final(rd)@) == wire::read_value(old(rd)@, Reader::Strict(Marker::F32)),
{
    match read_marker(rd) {
        Err(err) => Err(ValueReadError::from(err)),
        Ok(Marker::F32) => read_data_u32(rd),
        Ok(marker) => Err(ValueReadError::TypeMismatch(marker)),
    }
}

/// Reads the bits of a 64-bit float: the marker `F64` and eight bytes, which
/// spell the float as IEEE 754 lays it out.
///
/// Any other marker is handed back as a type mismatch.
pub fn read_f64_bits(rd: &mut Input) -> (res: Result<u64, ValueReadError>)
    ensures
        (widen(res), final(rd)@) == wire::read_value(old(rd)@, Reader::Strict(Marker::F64)),
{
    match read_marker(rd) {
        Err(err) => Err(ValueReadError::from(err)),
        Ok(Marker::F64) => read_data_u64(rd),
        Ok(marker) => Err(ValueReadError::TypeMismatch(marker)),
    }
}

/// Reads the length in bytes of a string.
///
/// The length is held in the marker or in a field of one, two or four bytes
/// behind it; either way it comes back as `u32`. Any
/// other marker is handed back as a type mismatch.
pub fn read_str_len(rd: &mut Input) -> (res: Result<u32, ValueReadError>)
    ensures
        (widen(res), final(rd)@) == wire::read_value(old(rd)@, Reader::StrLen),
{
    match read_marker(rd) {
        Err(err) => Err(ValueReadError::from(err)),
        Ok(Marker::FixedString(len)) => Ok(len as u32),
        Ok(Marker::Str8) => match read_data_u8(rd) {
            Ok(len) => Ok(len as u32),
            Err(err) => Err(err),
        },
        Ok(Marker::Str16) => match read_data_u16(rd) {
            Ok(len) => Ok(len as u32),
            Err(err) => Err(err),
        },
        Ok(Marker::Str32) => read_data_u32(rd),
        Ok(marker) => Err(ValueReadError::TypeMismatch(marker)),
    }
}

/// Reads the number of elements of an array.
///
/// The number is held in the marker or in a field of two or four bytes behind
/// it; either way it comes back as `u32`. Any
/// other marker is handed back as a type mismatch.
pub fn read_array_size(rd: &mut Input) -> (res: Result<u32, ValueReadError>)
    ensures
        (widen(res), final(rd)@) == wire::read_value(old(rd)@, Reader::ArraySize),
{
    match read_marker(rd) {
        Err(err) => Err(ValueReadError::from(err)),
        Ok(Marker::FixedArray(len)) => Ok(len as u32),
        Ok(Marker::Array16) => match read_data_u16(rd) {
            Ok(len) => Ok(len as u32),
            Err(err) => Err(err),
        },
        Ok(Marker::Array32) => read_data_u32(rd),
        Ok(marker) => Err(ValueReadError::TypeMismatch(marker)),
    }
}

/// Reads the number of entries of a map.
///
/// The number is held in the marker or in a field of two or four bytes behind
/// it; either way it comes back as `u32`. Any
/// other marker is handed back as a type mismatch.
pub fn read_map_size(rd: &mut Input) -> (res: Result<u32, ValueReadError>)
    ensures
        (widen(res), final(rd)@) == wire::read_value(old(rd)@, Reader::MapSize),
{
    match read_marker(rd) {
        Err(err) => Err(ValueReadError::from(err)),
        Ok(Marker::FixedMap(len)) => Ok(len as u32),
        Ok(Marker::Map16) => match read_data_u16(rd) {
            Ok(len) => Ok(len as u32),
            Err(err) => Err(err),
        },
        Ok(Marker::Map32) => read_data_u32(rd),
        Ok(marker) => Err(ValueReadError::TypeMismatch(marker)),
    }
}

/// Reads the length in bytes of a binary blob.
///
/// The length is a field of one, two or four bytes behind the marker; either way it comes back as `u32`. Any
/// other marker is handed back as a type mismatch.
pub fn read_bin_len(rd: &mut Input) -> (res: Result<u32, ValueReadError>)
    ensures
        (widen(res), final(rd)@) == wire::read_value(old(rd)@, Reader::BinLen),
{
    match read_marker(rd) {
        Err(err) => Err(ValueReadError::from(err)),
        Ok(Marker::Bin8) => match read_data_u8(rd) {
            Ok(len) => Ok(len as u32),
            Err(err) => Err(err),
        },
        Ok(Marker::Bin16) => match read_data_u16(rd) {
            Ok(len) => Ok(len as u32),
            Err(err) => Err(err),
        },
        Ok(Marker::Bin32) => read_data_u32(rd),
        Ok(marker) => Err(ValueReadError::TypeMismatch(marker)),
    }
}

/// What a string reader returns, with the text as characters and the bytes
/// that a failure hands back as sequences.
pub open spec fn text_view(res: Result<&str, DecodeStringError>) -> Result<Seq<char>, StringFailure> {
    match res {
        Ok(text) => Ok(text@),
        Err(err) => Err(err@),
    }
}

/// Reads the payload of a string of `len` bytes into the front of `buf`, and
/// returns it as text that lies in `buf`.
///
/// The buffer must hold `len` bytes at least.
pub fn read_str_data<'r>(rd: &mut Input, len: u32, buf: &'r mut [u8]) -> (res: Result<
    &'r str,
    DecodeStringError<'r>,
>)
    requires
        len <= old(buf)@.len(),
    ensures
        (text_view(res), final(rd)@) == wire::read_str_data(old(rd)@, len as nat),
        final(buf)@ == wire::copied(old(rd)@, len as nat) + old(buf)@.skip(
            wire::copied(old(rd)@, len as nat).len() as int,
        ),
{
    let end: ReadError = rd.end();
    let chunk: &[u8] = rd.take_up_to(len as usize);
    let count: usize = chunk.len();
    let mut at: usize = 0;
    while at < count
        invariant
            at <= count == chunk@.len(),
            count <= buf@.len() == old(buf)@.len(),
            buf@.take(at as int) == chunk@.take(at as int),
            buf@.skip(at as int) == old(buf)@.skip(at as int),
        decreases count - at,
    {
        let ghost before = buf@;
        buf[at] = chunk[at];
        assert(buf@.take(at + 1) =~= before.take(at as int).push(chunk@[at as int]));
        assert(chunk@.take(at + 1) =~= chunk@.take(at as int).push(chunk@[at as int]));
        assert(buf@.skip(at + 1) =~= before.skip(at as int).skip(1));
        assert(old(buf)@.skip(at + 1) =~= old(buf)@.skip(at as int).skip(1));
        at = at + 1;
    }
    let filled: &'r [u8] = buf;
    let payload: &'r [u8] = slice_subrange(filled, 0, count);
    proof {
        assert(chunk@ =~= wire::copied(old(rd)@, len as nat));
        assert(payload@ =~= chunk@);
        assert(filled@ =~= chunk@ + old(buf)@.skip(count as int));
    }
    if count == len as usize {
        match check_utf8(payload) {
            Ok(text) => {
                proof {
                    vstd::utf8::encode_utf8_decode_utf8(text@);
                }
                Ok(text)
            },
            Err(failure) => {
                proof {
                    lemma_valid_up_to_is_prefix_len(payload@, failure.valid_up_to as int);
                }
                Err(DecodeStringError::InvalidUtf8(payload, failure))
            },
        }
    } else {
        match end {
            ReadError::UnexpectedEOF => Err(
                DecodeStringError::InvalidDataCopy(payload, ReadError::UnexpectedEOF),
            ),
            ReadError::Io(kind) => Err(DecodeStringError::InvalidDataRead(ReadError::Io(kind))),
        }
    }
}

/// Reads a string into `buf`, and returns it as text that lies in `buf`.
///
/// A string longer than the buffer is refused with its length, and none of
/// its payload is read. A payload that is not UTF-8 is handed back as bytes:
/// no part of it comes back as text.
pub fn read_str<'r>(rd: &mut Input, buf: &'r mut [u8]) -> (res: Result<
    &'r str,
    DecodeStringError<'r>,
>)
    ensures
        (text_view(res), final(rd)@) == wire::read_str(old(rd)@, old(buf)@.len()),
        final(buf)@ == wire::buffer_after_read_str(old(rd)@, old(buf)@),
{
    let len: u32 = match read_str_len(rd) {
        Ok(len) => len,
        Err(err) => { return Err(DecodeStringError::from(err)); },
    };
    if buf.len() < len as usize {
        return Err(DecodeStringError::BufferSizeTooSmall(len));
    }
    read_str_data(rd, len, buf)
}

/// Reads a string from bytes in memory and returns its payload, not checked
/// for UTF-8, as a part of those bytes.
///
/// Bytes that end before the payload does are a failure to read the data.
pub fn read_str_ref<'a>(rd: &'a [u8]) -> (res: Result<&'a [u8], DecodeStringError<'a>>)
    ensures
        match res {
            Ok(payload) => wire::read_borrowed(Stream::of_bytes(rd@), Reader::StrLen) == Ok::<
                Seq<u8>,
                ValueReadError,
            >(payload@),
            Err(err) => wire::read_borrowed(Stream::of_bytes(rd@), Reader::StrLen) matches Err(e)
                && err@ == StringFailure::of_value(e),
        },
{
    let mut cur: Input<'a> = Input::new(rd);
    let len: usize = match read_str_len(&mut cur) {
        Ok(len) => len as usize,
        Err(err) => { return Err(DecodeStringError::from(err)); },
    };
    let rest: &'a [u8] = cur.remaining();
    if rest.len() < len {
        Err(DecodeStringError::InvalidDataRead(ReadError::UnexpectedEOF))
    } else {
        Ok(slice_subrange(rest, 0, len))
    }
}

/// Reads a binary blob from bytes in memory and returns its payload as a
/// part of those bytes.
///
/// Bytes that end before the payload does are a failure to read the data.
pub fn read_bin_borrow<'a>(rd: &'a [u8]) -> (res: Result<&'a [u8], ValueReadError>)
    ensures
        match res {
            Ok(payload) => wire::read_borrowed(Stream::of_bytes(rd@), Reader::BinLen) == Ok::<
                Seq<u8>,
                ValueReadError,
            >(payload@),
            Err(err) => wire::read_borrowed(Stream::of_bytes(rd@), Reader::BinLen) == Err::<
                Seq<u8>,
                ValueReadError,
            >(err),
        },
{
    let mut cur: Input<'a> = Input::new(rd);
    let len: usize = read_bin_len(&mut cur)? as usize;
    let rest: &'a [u8] = cur.remaining();
    if rest.len() < len {
        Err(ValueReadError::InvalidDataRead(ReadError::UnexpectedEOF))
    } else {
        Ok(slice_subrange(rest, 0, len))
    }
}

/// Reads an extension value with a payload of one byte: the type id and the
/// payload.
///
/// Any other marker is handed back as a type mismatch, also that of an
/// extension value of another size.
pub fn read_fixext1(rd: &mut Input) -> (res: Result<(i8, u8), ValueReadError>)
    ensures
        final(rd)@ == wire::read_fixext(old(rd)@, 1).1,
        match res {
            Ok((typeid, data)) => wire::read_fixext(old(rd)@, 1).0 == Ok::<
                (int, Seq<u8>),
                ValueReadError,
            >((typeid as int, seq![data])),
            Err(err) => wire::read_fixext(old(rd)@, 1).0 == Err::<(int, Seq<u8>), ValueReadError>(
                err,
            ),
        },
{
    match read_marker(rd) {
        Err(err) => Err(ValueReadError::from(err)),
        Ok(Marker::FixExt1) => {
            let typeid: i8 = read_data_i8(rd)?;
            let ghost before = rd@;
            let data: u8 = read_data_u8(rd)?;
            assert(before.bytes.take(1) =~= seq![data]);
            Ok((typeid, data))
        },
        Ok(marker) => Err(ValueReadError::TypeMismatch(marker)),
    }
}

/// Reads an extension value with a payload of two bytes: the type id and the
/// payload as a big-endian number.
///
/// Any other marker is handed back as a type mismatch, also that of an
/// extension value of another size.
pub fn read_fixext2(rd: &mut Input) -> (res: Result<(i8, u16), ValueReadError>)
    ensures
        final(rd)@ == wire::read_fixext(old(rd)@, 2).1,
        match res {
            Ok((typeid, data)) => {
                &&& wire::read_fixext(old(rd)@, 2).0 matches Ok((id, payload))
                &&& id == typeid
                &&& be16(payload) == data
            },
            Err(err) => wire::read_fixext(old(rd)@, 2).0 == Err::<(int, Seq<u8>), ValueReadError>(
                err,
            ),
        },
{
    match read_marker(rd) {
        Err(err) => Err(ValueReadError::from(err)),
        Ok(Marker::FixExt2) => {
            let typeid: i8 = read_data_i8(rd)?;
            let data: u16 = read_data_u16(rd)?;
            Ok((typeid, data))
        },
        Ok(marker) => Err(ValueReadError::TypeMismatch(marker)),
    }
}

/// Reads an extension value with a payload of four bytes: the type id and
/// the payload, byte for byte as it lies in the input.
///
/// The payload is read as one little-endian word and taken apart in the same
/// order. Any other marker is handed back as a type mismatch, also that of an
/// extension value of another size.
pub fn read_fixext4(rd: &mut Input) -> (res: Result<(i8, [u8; 4]), ValueReadError>)
    ensures
        final(rd)@ == wire::read_fixext(old(rd)@, 4).1,
        match res {
            Ok((typeid, data)) => wire::read_fixext(old(rd)@, 4).0 == Ok::<
                (int, Seq<u8>),
                ValueReadError,
            >((typeid as int, data@)),
            Err(err) => wire::read_fixext(old(rd)@, 4).0 == Err::<(int, Seq<u8>), ValueReadError>(
                err,
            ),
        },
{
    match read_marker(rd) {
        Err(err) => Err(ValueReadError::from(err)),
        Ok(Marker::FixExt4) => {
            let typeid: i8 = read_data_i8(rd)?;
            match rd.take(4) {
                Ok(bytes) => {
                    let data: [u8; 4] = le_bytes(le_u32(bytes));
                    Ok((typeid, data))
                },
                Err(err) => Err(ValueReadError::InvalidDataRead(err)),
            }
        },
        Ok(marker) => Err(ValueReadError::TypeMismatch(marker)),
    }
}

/// Reads an extension value with a payload of eight bytes: the type id and
/// the payload, byte for byte as it lies in the input.
///
/// Any other marker is handed back as a type mismatch, also that of an
/// extension value of another size. An input that ends inside the payload is
/// a failure to read the data.
pub fn read_fixext8(rd: &mut Input) -> (res: Result<(i8, [u8; 8]), ValueReadError>)
    ensures
        final(rd)@ == wire::read_fixext(old(rd)@, 8).1,
        match res {
            Ok((typeid, data)) => wire::read_fixext(old(rd)@, 8).0 == Ok::<
                (int, Seq<u8>),
                ValueReadError,
            >((typeid as int, data@)),
            Err(err) => wire::read_fixext(old(rd)@, 8).0 == Err::<(int, Seq<u8>), ValueReadError>(
                err,
            ),
        },
{
    match read_marker(rd) {
        Err(err) => Err(ValueReadError::from(err)),
        Ok(Marker::FixExt8) => {
            let typeid: i8 = read_data_i8(rd)?;
            match rd.take(8) {
                Ok(bytes) => {
                    let data: [u8; 8] = [
                        bytes[0],
                        bytes[1],
                        bytes[2],
                        bytes[3],
                        bytes[4],
                        bytes[5],
                        bytes[6],
                        bytes[7],
                    ];
                    assert(data@ =~= bytes@);
                    Ok((typeid, data))
                },
                Err(err) => Err(ValueReadError::InvalidDataRead(err)),
            }
        },
        Ok(marker) => Err(ValueReadError::TypeMismatch(marker)),
    }
}

/// Reads an extension value with a payload of sixteen bytes: the type id and
/// the payload, byte for byte as it lies in the input.
///
/// Any other marker is handed back as a type mismatch, also that of an
/// extension value of another size. An input that ends inside the payload is
/// a failure to read the data.
pub fn read_fixext16(rd: &mut Input) -> (res: Result<(i8, [u8; 16]), ValueReadError>)
    ensures
        final(rd)@ == wire::read_fixext(old(rd)@, 16).1,
        match res {
            Ok((typeid, data)) => wire::read_fixext(old(rd)@, 16).0 == Ok::<
                (int, Seq<u8>),
                ValueReadError,
            >((typeid as int, data@)),
            Err(err) => wire::read_fixext(old(rd)@, 16).0 == Err::<(int, Seq<u8>), ValueReadError>(
                err,
            ),
        },
{
    match read_marker(rd) {
        Err(err) => Err(ValueReadError::from(err)),
        Ok(Marker::FixExt16) => {
            let typeid: i8 = read_data_i8(rd)?;
            match rd.take(16) {
                Ok(bytes) => {
                    let data: [u8; 16] = [
                        bytes[0],
                        bytes[1],
                        bytes[2],
                        bytes[3],
                        bytes[4],
                        bytes[5],
                        bytes[6],
                        bytes[7],
                        bytes[8],
                        bytes[9],
                        bytes[10],
                        bytes[11],
                        bytes[12],
                        bytes[13],
                        bytes[14],
                        bytes[15],
                    ];
                    assert(data@ =~= bytes@);
                    Ok((typeid, data))
                },
                Err(err) => Err(ValueReadError::InvalidDataRead(err)),
            }
        },
        Ok(marker) => Err(ValueReadError::TypeMismatch(marker)),
    }
}

/// The header of an extension value: the type that the application gave it,
/// and the length of its payload in bytes, whichever marker spelled it.
#[derive(Clone, Copy, Debug, PartialEq, Eq, Structural)]
pub struct ExtMeta {
    pub typeid: i8,
    pub size: u32,
}

/// Reads the header of an extension value of any size, and leaves the
/// payload in the input.
///
/// Any marker that is not one of an extension value is handed back as a type
/// mismatch.
pub fn read_ext_meta(rd: &mut Input) -> (res: Result<ExtMeta, ValueReadError>)
    ensures
        (res, final(rd)@) == wire::read_ext_meta(old(rd)@),
{
    let size: u32 = match read_marker(rd) {
        Err(err) => { return Err(ValueReadError::from(err)); },
        Ok(Marker::FixExt1) => 1,
        Ok(Marker::FixExt2) => 2,
        Ok(Marker::FixExt4) => 4,
        Ok(Marker::FixExt8) => 8,
        Ok(Marker::FixExt16) => 16,
        Ok(Marker::Ext8) => read_data_u8(rd)? as u32,
        Ok(Marker::Ext16) => read_data_u16(rd)? as u32,
        Ok(Marker::Ext32) => read_data_u32(rd)?,
        Ok(marker) => { return Err(ValueReadError::TypeMismatch(marker)); },
    };
    let typeid: i8 = read_data_i8(rd)?;
    Ok(ExtMeta { typeid, size })
}

} // verus!
