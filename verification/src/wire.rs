//! The wire format, stated as functions on streams.
//!
//! Each function takes the stream before a read and gives the result of the
//! read together with the stream after it. The readers in `decode` are proved
//! to compute exactly these.

use vstd::prelude::*;
use crate::decode::ExtMeta;
use crate::endian::{be_uint, signed};
use vstd::utf8::{decode_utf8, valid_utf8};
use crate::error::{
    FixedValueReadError, MarkerReadError, ReadError, StringFailure, Utf8Failure, ValueReadError,
};
use crate::text::valid_prefix_len;
use crate::input::Stream;
use crate::marker::{decode_marker, Marker};

verus! {

/// The types that the readers hand out, each value read as the integer it
/// stands for: `true` as 1, `false` and `()` as 0.
pub trait Number {
    spec fn number(self) -> int;
}

impl Number for () {
    open spec fn number(self) -> int {
        0
    }
}

impl Number for bool {
    open spec fn number(self) -> int {
        if self { 1 } else { 0 }
    }
}

impl Number for u8 {
    open spec fn number(self) -> int {
        self as int
    }
}

impl Number for u16 {
    open spec fn number(self) -> int {
        self as int
    }
}

impl Number for u32 {
    open spec fn number(self) -> int {
        self as int
    }
}

impl Number for u64 {
    open spec fn number(self) -> int {
        self as int
    }
}

impl Number for i8 {
    open spec fn number(self) -> int {
        self as int
    }
}

impl Number for i16 {
    open spec fn number(self) -> int {
        self as int
    }
}

impl Number for i32 {
    open spec fn number(self) -> int {
        self as int
    }
}

impl Number for i64 {
    open spec fn number(self) -> int {
        self as int
    }
}

/// A reader's result with the value, if there is one, as an integer. Two
/// results of one type that widen to the same are the same.
pub open spec fn widen<T: Number, E>(res: Result<T, E>) -> Result<int, E> {
    match res {
        Ok(value) => Ok(value.number()),
        Err(err) => Err(err),
    }
}

/// The readers of values that lie wholly in the marker.
pub enum Fixed {
    Nil,
    Bool,
    PositiveFixnum,
    NegativeFixnum,
}

/// The readers of numbers: integers, the bits of floats, and lengths.
pub enum Reader {
    /// Takes the one marker named, which is that of a number with a payload,
    /// and no other.
    Strict(Marker),
    /// Takes any unsigned integer whose payload has at most this many bytes.
    LooseUnsigned(nat),
    /// Takes any signed integer whose payload has at most this many bytes.
    LooseSigned(nat),
    /// Takes the length of a string.
    StrLen,
    /// Takes the length of a binary blob.
    BinLen,
    /// Takes the number of elements of an array.
    ArraySize,
    /// Takes the number of entries of a map.
    MapSize,
    /// Takes the length of the payload of an extension value.
    ExtLen,
}

/// What a reader finds behind a marker.
pub enum Payload {
    /// Nothing: the marker holds the number.
    Inline(int),
    /// An unsigned big-endian number of this many bytes.
    Unsigned(nat),
    /// A two's complement big-endian number of this many bytes.
    Signed(nat),
    /// The marker is not one that the reader takes.
    Rejected,
}

/// The number of payload bytes of an unsigned integer. A positive fixnum has
/// none.
pub open spec fn unsigned_width(marker: Marker) -> Option<nat> {
    match marker {
        Marker::PositiveFixnum(_) => Some(0),
        Marker::U8 => Some(1),
        Marker::U16 => Some(2),
        Marker::U32 => Some(4),
        Marker::U64 => Some(8),
        _ => None,
    }
}

/// The number of payload bytes of a signed integer. A negative fixnum has
/// none.
pub open spec fn signed_width(marker: Marker) -> Option<nat> {
    match marker {
        Marker::NegativeFixnum(_) => Some(0),
        Marker::I8 => Some(1),
        Marker::I16 => Some(2),
        Marker::I32 => Some(4),
        Marker::I64 => Some(8),
        _ => None,
    }
}

/// The payload of a number that is not held in its marker. A float is read
/// as the unsigned number that its bits spell.
pub open spec fn number_payload(marker: Marker) -> Payload {
    match marker {
        Marker::U8 => Payload::Unsigned(1),
        Marker::U16 => Payload::Unsigned(2),
        Marker::U32 => Payload::Unsigned(4),
        Marker::U64 => Payload::Unsigned(8),
        Marker::I8 => Payload::Signed(1),
        Marker::I16 => Payload::Signed(2),
        Marker::I32 => Payload::Signed(4),
        Marker::I64 => Payload::Signed(8),
        Marker::F32 => Payload::Unsigned(4),
        Marker::F64 => Payload::Unsigned(8),
        _ => Payload::Rejected,
    }
}

/// What `reader` finds behind `marker`.
pub open spec fn payload_of(reader: Reader, marker: Marker) -> Payload {
    match reader {
        Reader::Strict(wanted) => if marker == wanted {
            number_payload(marker)
        } else {
            Payload::Rejected
        },
        Reader::LooseUnsigned(width) => match marker {
            Marker::PositiveFixnum(value) => Payload::Inline(value as int),
            _ => match unsigned_width(marker) {
                Some(w) => if w <= width {
                    Payload::Unsigned(w)
                } else {
                    Payload::Rejected
                },
                None => Payload::Rejected,
            },
        },
        Reader::LooseSigned(width) => match marker {
            Marker::NegativeFixnum(value) => Payload::Inline(value as int),
            _ => match signed_width(marker) {
                Some(w) => if w <= width {
                    Payload::Signed(w)
                } else {
                    Payload::Rejected
                },
                None => Payload::Rejected,
            },
        },
        Reader::StrLen => match marker {
            Marker::FixedString(len) => Payload::Inline(len as int),
            Marker::Str8 => Payload::Unsigned(1),
            Marker::Str16 => Payload::Unsigned(2),
            Marker::Str32 => Payload::Unsigned(4),
            _ => Payload::Rejected,
        },
        Reader::BinLen => match marker {
            Marker::Bin8 => Payload::Unsigned(1),
            Marker::Bin16 => Payload::Unsigned(2),
            Marker::Bin32 => Payload::Unsigned(4),
            _ => Payload::Rejected,
        },
        Reader::ArraySize => match marker {
            Marker::FixedArray(len) => Payload::Inline(len as int),
            Marker::Array16 => Payload::Unsigned(2),
            Marker::Array32 => Payload::Unsigned(4),
            _ => Payload::Rejected,
        },
        Reader::MapSize => match marker {
            Marker::FixedMap(len) => Payload::Inline(len as int),
            Marker::Map16 => Payload::Unsigned(2),
            Marker::Map32 => Payload::Unsigned(4),
            _ => Payload::Rejected,
        },
        Reader::ExtLen => match marker {
            Marker::FixExt1 => Payload::Inline(1),
            Marker::FixExt2 => Payload::Inline(2),
            Marker::FixExt4 => Payload::Inline(4),
            Marker::FixExt8 => Payload::Inline(8),
            Marker::FixExt16 => Payload::Inline(16),
            Marker::Ext8 => Payload::Unsigned(1),
            Marker::Ext16 => Payload::Unsigned(2),
            Marker::Ext32 => Payload::Unsigned(4),
            _ => Payload::Rejected,
        },
    }
}

/// Reading the marker: one byte, classified. An empty stream stays as it is.
pub open spec fn read_marker(s: Stream) -> (Result<Marker, MarkerReadError>, Stream) {
    if s.bytes.len() == 0 {
        (Err(MarkerReadError::of_read(s.end)), s)
    } else {
        (Ok(decode_marker(s.bytes[0])), s.skip(1))
    }
}

/// The value that a marker-only reader takes from a marker, if it takes the
/// marker at all. `true` counts as 1, `false` and nil as 0.
pub open spec fn fixed_value(reader: Fixed, marker: Marker) -> Option<int> {
    match (reader, marker) {
        (Fixed::Nil, Marker::Null) => Some(0),
        (Fixed::Bool, Marker::True) => Some(1),
        (Fixed::Bool, Marker::False) => Some(0),
        (Fixed::PositiveFixnum, Marker::PositiveFixnum(value)) => Some(value as int),
        (Fixed::NegativeFixnum, Marker::NegativeFixnum(value)) => Some(value as int),
        _ => None,
    }
}

/// Reading a value that lies wholly in its marker.
pub open spec fn read_fixed(s: Stream, reader: Fixed) -> (Result<int, FixedValueReadError>, Stream) {
    match read_marker(s) {
        (Err(err), rest) => (Err(FixedValueReadError::of_marker(err)), rest),
        (Ok(marker), rest) => match fixed_value(reader, marker) {
            Some(value) => (Ok(value), rest),
            None => (Err(FixedValueReadError::TypeMismatch(marker)), rest),
        },
    }
}

/// Reading a big-endian payload of `width` bytes. A stream too short for it
/// is used up, and the failure is one of the data, not of the marker.
pub open spec fn read_data(s: Stream, width: nat, twos_complement: bool) -> (
    Result<int, ValueReadError>,
    Stream,
) {
    match s.take(width) {
        (Ok(bytes), rest) => (
            Ok(
                if twos_complement {
                    signed(be_uint(bytes, width), width)
                } else {
                    be_uint(bytes, width)
                },
            ),
            rest,
        ),
        (Err(err), rest) => (Err(ValueReadError::InvalidDataRead(err)), rest),
    }
}

/// Reading a number: the marker, then the payload that the reader finds
/// behind it. A marker that the reader does not take is handed back in the
/// failure, and nothing behind it is read.
pub open spec fn read_value(s: Stream, reader: Reader) -> (Result<int, ValueReadError>, Stream) {
    match read_marker(s) {
        (Err(err), rest) => (Err(ValueReadError::of_marker(err)), rest),
        (Ok(marker), rest) => match payload_of(reader, marker) {
            Payload::Inline(value) => (Ok(value), rest),
            Payload::Unsigned(width) => read_data(rest, width, false),
            Payload::Signed(width) => read_data(rest, width, true),
            Payload::Rejected => (Err(ValueReadError::TypeMismatch(marker)), rest),
        },
    }
}

/// The marker of an extension value with a payload of `size` bytes, where the
/// format has one for that size alone.
pub open spec fn fixext_marker(size: nat) -> Marker {
    if size == 1 {
        Marker::FixExt1
    } else if size == 2 {
        Marker::FixExt2
    } else if size == 4 {
        Marker::FixExt4
    } else if size == 8 {
        Marker::FixExt8
    } else {
        Marker::FixExt16
    }
}

/// Reading an extension value of a fixed size: its marker, the type id as a
/// signed byte, then `size` bytes of payload. The marker of any other size is
/// handed back like any other marker.
pub open spec fn read_fixext(s: Stream, size: nat) -> (
    Result<(int, Seq<u8>), ValueReadError>,
    Stream,
) {
    match read_marker(s) {
        (Err(err), rest) => (Err(ValueReadError::of_marker(err)), rest),
        (Ok(marker), rest) => if marker != fixext_marker(size) {
            (Err(ValueReadError::TypeMismatch(marker)), rest)
        } else {
            match read_data(rest, 1, true) {
                (Err(err), rest) => (Err(err), rest),
                (Ok(typeid), rest) => match rest.take(size) {
                    (Ok(payload), rest) => (Ok((typeid, payload)), rest),
                    (Err(err), rest) => (Err(ValueReadError::InvalidDataRead(err)), rest),
                },
            }
        },
    }
}

/// Reading the header of any extension value: the length of its payload,
/// given by the marker or by a field behind it, then the type id as a signed
/// byte. The payload is left in the stream.
pub open spec fn read_ext_meta(s: Stream) -> (Result<ExtMeta, ValueReadError>, Stream) {
    match read_value(s, Reader::ExtLen) {
        (Err(err), rest) => (Err(err), rest),
        (Ok(size), rest) => match read_data(rest, 1, true) {
            (Err(err), rest) => (Err(err), rest),
            (Ok(typeid), rest) => (Ok(ExtMeta { typeid: typeid as i8, size: size as u32 }), rest),
        },
    }
}

/// The bytes that a copy of `len` bytes takes off a stream: `len` of them, or
/// all that are left.
pub open spec fn copied(s: Stream, len: nat) -> Seq<u8> {
    if len <= s.bytes.len() {
        s.bytes.take(len as int)
    } else {
        s.bytes
    }
}

/// Reading the payload of a string of `len` bytes.
///
/// A payload that is there in full is text if it is valid UTF-8; if not, it
/// is handed back with the length of its longest valid prefix. Where the
/// input ends inside the payload, what was copied is handed back; where the
/// source fails inside it, the failure is one of the data.
pub open spec fn read_str_data(s: Stream, len: nat) -> (Result<Seq<char>, StringFailure>, Stream) {
    let payload = copied(s, len);
    let rest = s.skip(payload.len() as int);
    if payload.len() == len {
        if valid_utf8(payload) {
            (Ok(decode_utf8(payload)), rest)
        } else {
            (
                Err(
                    StringFailure::InvalidUtf8(
                        payload,
                        Utf8Failure { valid_up_to: valid_prefix_len(payload) as usize },
                    ),
                ),
                rest,
            )
        }
    } else {
        match s.end {
            ReadError::UnexpectedEOF => (
                Err(StringFailure::InvalidDataCopy(payload, ReadError::UnexpectedEOF)),
                rest,
            ),
            ReadError::Io(kind) => (Err(StringFailure::InvalidDataRead(ReadError::Io(kind))), rest),
        }
    }
}

/// Reading a string into a buffer of `capacity` bytes: the length, then the
/// payload. A string longer than the buffer is refused before any of its
/// payload is read, with its length.
pub open spec fn read_str(s: Stream, capacity: nat) -> (Result<Seq<char>, StringFailure>, Stream) {
    match read_value(s, Reader::StrLen) {
        (Err(err), rest) => (Err(StringFailure::of_value(err)), rest),
        (Ok(len), rest) => if capacity < len {
            (Err(StringFailure::BufferSizeTooSmall(len as u32)), rest)
        } else {
            read_str_data(rest, len as nat)
        },
    }
}

/// What reading a string leaves in a buffer that held `before`: the bytes
/// copied, at the front, and the old contents behind them.
pub open spec fn buffer_after_read_str(s: Stream, before: Seq<u8>) -> Seq<u8> {
    match read_value(s, Reader::StrLen) {
        (Ok(len), rest) => if before.len() < len {
            before
        } else {
            let payload = copied(rest, len as nat);
            payload + before.skip(payload.len() as int)
        },
        (Err(_), _) => before,
    }
}

/// Reading a payload without copying it: the length, as `reader` reads it,
/// then that many bytes of the stream itself. A stream that holds fewer has
/// ended too early, and none of them is read.
pub open spec fn read_borrowed(s: Stream, reader: Reader) -> Result<Seq<u8>, ValueReadError> {
    match read_value(s, reader) {
        (Err(err), _) => Err(err),
        (Ok(len), rest) => if rest.bytes.len() < len {
            Err(ValueReadError::InvalidDataRead(ReadError::UnexpectedEOF))
        } else {
            Ok(rest.bytes.take(len))
        },
    }
}

} // verus!
