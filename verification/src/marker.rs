//! The leading byte of an encoded value.

use vstd::prelude::*;

verus! {

/// What the first byte of an encoded value says about the value.
///
/// The fixed-size variants carry what the byte itself holds: a small integer,
/// or the length of a short string, array or map.
#[derive(Clone, Copy, Debug, PartialEq, Eq, Structural)]
pub enum Marker {
    PositiveFixnum(u8),
    NegativeFixnum(i8),
    Null,
    True,
    False,
    U8,
    U16,
    U32,
    U64,
    I8,
    I16,
    I32,
    I64,
    F32,
    F64,
    FixedString(u8),
    Str8,
    Str16,
    Str32,
    Bin8,
    Bin16,
    Bin32,
    FixedArray(u8),
    Array16,
    Array32,
    FixedMap(u8),
    Map16,
    Map32,
    FixExt1,
    FixExt2,
    FixExt4,
    FixExt8,
    FixExt16,
    Ext8,
    Ext16,
    Ext32,
    /// The one byte, `0xc1`, that the format leaves unused.
    Reserved,
}

/// The marker that a byte stands for. Every byte stands for exactly one.
pub open spec fn decode_marker(byte: u8) -> Marker {
    if byte <= 0x7f {
        Marker::PositiveFixnum(byte)
    } else if byte <= 0x8f {
        Marker::FixedMap((byte % 16) as u8)
    } else if byte <= 0x9f {
        Marker::FixedArray((byte % 16) as u8)
    } else if byte <= 0xbf {
        Marker::FixedString((byte % 32) as u8)
    } else if byte == 0xc0 {
        Marker::Null
    } else if byte == 0xc1 {
        Marker::Reserved
    } else if byte == 0xc2 {
        Marker::False
    } else if byte == 0xc3 {
        Marker::True
    } else if byte == 0xc4 {
        Marker::Bin8
    } else if byte == 0xc5 {
        Marker::Bin16
    } else if byte == 0xc6 {
        Marker::Bin32
    } else if byte == 0xc7 {
        Marker::Ext8
    } else if byte == 0xc8 {
        Marker::Ext16
    } else if byte == 0xc9 {
        Marker::Ext32
    } else if byte == 0xca {
        Marker::F32
    } else if byte == 0xcb {
        Marker::F64
    } else if byte == 0xcc {
        Marker::U8
    } else if byte == 0xcd {
        Marker::U16
    } else if byte == 0xce {
        Marker::U32
    } else if byte == 0xcf {
        Marker::U64
    } else if byte == 0xd0 {
        Marker::I8
    } else if byte == 0xd1 {
        Marker::I16
    } else if byte == 0xd2 {
        Marker::I32
    } else if byte == 0xd3 {
        Marker::I64
    } else if byte == 0xd4 {
        Marker::FixExt1
    } else if byte == 0xd5 {
        Marker::FixExt2
    } else if byte == 0xd6 {
        Marker::FixExt4
    } else if byte == 0xd7 {
        Marker::FixExt8
    } else if byte == 0xd8 {
        Marker::FixExt16
    } else if byte == 0xd9 {
        Marker::Str8
    } else if byte == 0xda {
        Marker::Str16
    } else if byte == 0xdb {
        Marker::Str32
    } else if byte == 0xdc {
        Marker::Array16
    } else if byte == 0xdd {
        Marker::Array32
    } else if byte == 0xde {
        Marker::Map16
    } else if byte == 0xdf {
        Marker::Map32
    } else {
        Marker::NegativeFixnum((byte - 256) as i8)
    }
}

/// The byte that an encoder writes for a marker. A value that does not fit
/// beside the tag bits is cut down to the bits that do.
pub open spec fn encode_marker(marker: Marker) -> u8 {
    match marker {
        Marker::PositiveFixnum(value) => (value % 128) as u8,
        Marker::NegativeFixnum(value) => (0xe0 + value % 32) as u8,
        Marker::Null => 0xc0,
        Marker::Reserved => 0xc1,
        Marker::False => 0xc2,
        Marker::True => 0xc3,
        Marker::Bin8 => 0xc4,
        Marker::Bin16 => 0xc5,
        Marker::Bin32 => 0xc6,
        Marker::Ext8 => 0xc7,
        Marker::Ext16 => 0xc8,
        Marker::Ext32 => 0xc9,
        Marker::F32 => 0xca,
        Marker::F64 => 0xcb,
        Marker::U8 => 0xcc,
        Marker::U16 => 0xcd,
        Marker::U32 => 0xce,
        Marker::U64 => 0xcf,
        Marker::I8 => 0xd0,
        Marker::I16 => 0xd1,
        Marker::I32 => 0xd2,
        Marker::I64 => 0xd3,
        Marker::FixExt1 => 0xd4,
        Marker::FixExt2 => 0xd5,
        Marker::FixExt4 => 0xd6,
        Marker::FixExt8 => 0xd7,
        Marker::FixExt16 => 0xd8,
        Marker::Str8 => 0xd9,
        Marker::Str16 => 0xda,
        Marker::Str32 => 0xdb,
        Marker::Array16 => 0xdc,
        Marker::Array32 => 0xdd,
        Marker::Map16 => 0xde,
        Marker::Map32 => 0xdf,
        Marker::FixedMap(len) => (0x80 + len % 16) as u8,
        Marker::FixedArray(len) => (0x90 + len % 16) as u8,
        Marker::FixedString(len) => (0xa0 + len % 32) as u8,
    }
}

impl Marker {
    /// True of the markers that a byte can stand for: the value that a
    /// fixed-size variant carries fits beside its tag bits.
    pub open spec fn fits(self) -> bool {
        match self {
            Marker::PositiveFixnum(value) => value <= 127,
            Marker::NegativeFixnum(value) => -32 <= value <= -1,
            Marker::FixedMap(len) => len <= 15,
            Marker::FixedArray(len) => len <= 15,
            Marker::FixedString(len) => len <= 31,
            _ => true,
        }
    }

    /// Classifies a byte. Total: no byte is refused.
    pub fn from_u8(byte: u8) -> (marker: Marker)
        ensures
            marker == decode_marker(byte),
            marker.fits(),
    {
        if byte <= 0x7f {
            Marker::PositiveFixnum(byte)
        } else if byte <= 0x8f {
            assert(byte & 0x0f == byte % 16) by (bit_vector);
            Marker::FixedMap(byte & 0x0f)
        } else if byte <= 0x9f {
            assert(byte & 0x0f == byte % 16) by (bit_vector);
            Marker::FixedArray(byte & 0x0f)
        } else if byte <= 0xbf {
            assert(byte & 0x1f == byte % 32) by (bit_vector);
            Marker::FixedString(byte & 0x1f)
        } else if byte >= 0xe0 {
            let wide: i16 = byte as i16;
            Marker::NegativeFixnum((wide - 256) as i8)
        } else {
            match byte {
                0xc0 => Marker::Null,
                0xc2 => Marker::False,
                0xc3 => Marker::True,
                0xc4 => Marker::Bin8,
                0xc5 => Marker::Bin16,
                0xc6 => Marker::Bin32,
                0xc7 => Marker::Ext8,
                0xc8 => Marker::Ext16,
                0xc9 => Marker::Ext32,
                0xca => Marker::F32,
                0xcb => Marker::F64,
                0xcc => Marker::U8,
                0xcd => Marker::U16,
                0xce => Marker::U32,
                0xcf => Marker::U64,
                0xd0 => Marker::I8,
                0xd1 => Marker::I16,
                0xd2 => Marker::I32,
                0xd3 => Marker::I64,
                0xd4 => Marker::FixExt1,
                0xd5 => Marker::FixExt2,
                0xd6 => Marker::FixExt4,
                0xd7 => Marker::FixExt8,
                0xd8 => Marker::FixExt16,
                0xd9 => Marker::Str8,
                0xda => Marker::Str16,
                0xdb => Marker::Str32,
                0xdc => Marker::Array16,
                0xdd => Marker::Array32,
                0xde => Marker::Map16,
                0xdf => Marker::Map32,
                _ => Marker::Reserved,
            }
        }
    }

    /// The byte that stands for this marker.
    pub fn to_u8(&self) -> (byte: u8)
        ensures
            byte == encode_marker(*self),
    {
        match *self {
            Marker::PositiveFixnum(value) => {
                assert(value & 0x7f == value % 128) by (bit_vector);
                value & 0x7f
            },
            Marker::NegativeFixnum(value) => {
                let low: i16 = (value as i16) % 32;
                let low: i16 = if low < 0 { low + 32 } else { low };
                (0xe0 + low) as u8
            },
            Marker::Null => 0xc0,
            Marker::Reserved => 0xc1,
            Marker::False => 0xc2,
            Marker::True => 0xc3,
            Marker::Bin8 => 0xc4,
            Marker::Bin16 => 0xc5,
            Marker::Bin32 => 0xc6,
            Marker::Ext8 => 0xc7,
            Marker::Ext16 => 0xc8,
            Marker::Ext32 => 0xc9,
            Marker::F32 => 0xca,
            Marker::F64 => 0xcb,
            Marker::U8 => 0xcc,
            Marker::U16 => 0xcd,
            Marker::U32 => 0xce,
            Marker::U64 => 0xcf,
            Marker::I8 => 0xd0,
            Marker::I16 => 0xd1,
            Marker::I32 => 0xd2,
            Marker::I64 => 0xd3,
            Marker::FixExt1 => 0xd4,
            Marker::FixExt2 => 0xd5,
            Marker::FixExt4 => 0xd6,
            Marker::FixExt8 => 0xd7,
            Marker::FixExt16 => 0xd8,
            Marker::Str8 => 0xd9,
            Marker::Str16 => 0xda,
            Marker::Str32 => 0xdb,
            Marker::Array16 => 0xdc,
            Marker::Array32 => 0xdd,
            Marker::Map16 => 0xde,
            Marker::Map32 => 0xdf,
            Marker::FixedMap(len) => {
                assert(len & 0x0f == len % 16) by (bit_vector);
                assert(0x80u8 | (len & 0x0f) == 0x80 + (len & 0x0f)) by (bit_vector);
                0x80 | (len & 0x0f)
            },
            Marker::FixedArray(len) => {
                assert(len & 0x0f == len % 16) by (bit_vector);
                assert(0x90u8 | (len & 0x0f) == 0x90 + (len & 0x0f)) by (bit_vector);
                0x90 | (len & 0x0f)
            },
            Marker::FixedString(len) => {
                assert(len & 0x1f == len % 32) by (bit_vector);
                assert(0xa0u8 | (len & 0x1f) == 0xa0 + (len & 0x1f)) by (bit_vector);
                0xa0 | (len & 0x1f)
            },
        }
    }
}

/// Every byte names a marker that fits, and encoding that marker gives the
/// byte back: no two bytes share a marker.
pub proof fn law_marker_of_byte_round_trips(byte: u8)
    ensures
        decode_marker(byte).fits(),
        encode_marker(decode_marker(byte)) == byte,
{
}

/// A marker that fits is the marker of the byte that encodes it: every
/// variant is reached, and by its own byte only.
pub proof fn law_byte_of_marker_round_trips(marker: Marker)
    requires
        marker.fits(),
    ensures
        decode_marker(encode_marker(marker)) == marker,
{
}

} // verus!
