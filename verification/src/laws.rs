//! What holds of the format as a whole: what a writer puts on the wire, the
//! readers take off it again.
//!
//! The writers are stated as specification functions only; the library does
//! not write.

use vstd::prelude::*;
use crate::decode::ExtMeta;
use crate::endian::{be16, be32, be64, be_uint, signed};
use vstd::utf8::encode_utf8;
use crate::error::{ReadError, StringFailure, ValueReadError};
use crate::input::Stream;
use crate::marker::{decode_marker, encode_marker, Marker};
use crate::wire::{
    copied, fixext_marker, number_payload, payload_of, read_data, read_ext_meta, read_fixed, read_fixext,
    read_marker, read_str, read_str_data, read_value, signed_width, unsigned_width, Fixed, Payload, Reader,
};

verus! {

/// The number of values that `width` bytes can hold, for the widths that the
/// format uses.
pub open spec fn capacity(width: nat) -> int {
    if width == 0 {
        1
    } else if width == 1 {
        0x100
    } else if width == 2 {
        0x1_0000
    } else if width == 4 {
        0x1_0000_0000
    } else {
        0x1_0000_0000_0000_0000
    }
}

/// True of the payload widths that the format uses.
pub open spec fn is_width(width: nat) -> bool {
    width == 1 || width == 2 || width == 4 || width == 8
}

/// The bytes that stand for `value`, most significant first.
pub open spec fn be_bytes(value: int, width: nat) -> Seq<u8> {
    if width == 1 {
        seq![value as u8]
    } else if width == 2 {
        seq![(value / 0x100) as u8, (value % 0x100) as u8]
    } else if width == 4 {
        be_bytes4(value)
    } else {
        be_bytes4(value / 0x1_0000_0000) + be_bytes4(value % 0x1_0000_0000)
    }
}

/// The four bytes that stand for `value`, most significant first.
pub open spec fn be_bytes4(value: int) -> Seq<u8> {
    seq![
        (value / 0x100_0000) as u8,
        (value / 0x1_0000 % 0x100) as u8,
        (value / 0x100 % 0x100) as u8,
        (value % 0x100) as u8,
    ]
}

/// The unsigned number whose bits are those of `value` in two's complement.
pub open spec fn unsigned(value: int, width: nat) -> int {
    if value < 0 {
        value + capacity(width)
    } else {
        value
    }
}

/// What a writer puts on the wire for a value with a payload: the marker,
/// then the payload as an unsigned big-endian number.
pub open spec fn written(marker: Marker, payload: int, width: nat) -> Seq<u8> {
    seq![encode_marker(marker)] + be_bytes(payload, width)
}

/// The stream that holds `bytes` in front of what `rest` holds.
pub open spec fn before(bytes: Seq<u8>, rest: Stream) -> Stream {
    Stream { bytes: bytes + rest.bytes, end: rest.end }
}

/// Four bytes written for a number spell that number.
proof fn lemma_be_round_trip4(value: u32)
    ensures
        be32(be_bytes4(value as int)) == value,
{
    assert(value / 0x100_0000 < 0x100) by (bit_vector);
    assert(value / 0x100_0000 * 0x100_0000 + value / 0x1_0000 % 0x100 * 0x1_0000 + value / 0x100
        % 0x100 * 0x100 + value % 0x100 == value) by (bit_vector);
}

/// Bytes written for a number spell that number.
pub proof fn lemma_be_round_trip(value: int, width: nat)
    requires
        is_width(width),
        0 <= value < capacity(width),
    ensures
        be_bytes(value, width).len() == width,
        be_uint(be_bytes(value, width), width) == value,
{
    if width == 4 {
        lemma_be_round_trip4(value as u32);
    } else if width == 8 {
        let high = value / 0x1_0000_0000;
        let low = value % 0x1_0000_0000;
        let bytes = be_bytes(value, 8);
        assert(bytes.subrange(0, 4) =~= be_bytes4(high));
        assert(bytes.subrange(4, 8) =~= be_bytes4(low));
        lemma_be_round_trip4(high as u32);
        lemma_be_round_trip4(low as u32);
    }
}

/// Two's complement there and back changes nothing.
pub proof fn lemma_signed_round_trip(value: int, width: nat)
    requires
        is_width(width),
        -capacity(width) / 2 <= value < capacity(width) / 2,
    ensures
        0 <= unsigned(value, width) < capacity(width),
        signed(unsigned(value, width), width) == value,
{
}

/// Reading the bytes written in front of a stream gives them back and leaves
/// the stream.
proof fn lemma_take_written(bytes: Seq<u8>, rest: Stream)
    ensures
        before(bytes, rest).take(bytes.len()) == (Ok::<Seq<u8>, ReadError>(bytes), rest),
{
    let s = before(bytes, rest);
    assert(s.bytes.take(bytes.len() as int) =~= bytes);
    assert(s.bytes.skip(bytes.len() as int) =~= rest.bytes);
}

/// Reading a value written with `marker` and a payload, by a reader that
/// finds that payload behind that marker.
proof fn lemma_read_written(marker: Marker, payload: int, width: nat, reader: Reader, rest: Stream)
    requires
        marker.fits(),
        is_width(width),
        0 <= payload < capacity(width),
        payload_of(reader, marker) == Payload::Unsigned(width) || payload_of(reader, marker)
            == Payload::Signed(width),
    ensures
        read_value(before(written(marker, payload, width), rest), reader) == (
            Ok::<int, ValueReadError>(
                if payload_of(reader, marker) == Payload::Signed(width) {
                    signed(payload, width)
                } else {
                    payload
                },
            ),
            rest,
        ),
{
    let s = before(written(marker, payload, width), rest);
    crate::marker::law_byte_of_marker_round_trips(marker);
    lemma_be_round_trip(payload, width);
    let tail = before(be_bytes(payload, width), rest);
    assert(s.skip(1).bytes =~= tail.bytes);
    assert(s.skip(1) == tail);
    lemma_take_written(be_bytes(payload, width), rest);
}

/// A strict reader gives back every value that a writer wrote with the
/// reader's own marker, and leaves what follows the value.
pub proof fn law_strict_reader_round_trips(marker: Marker, value: int, rest: Stream)
    requires
        match number_payload(marker) {
            Payload::Unsigned(width) => 0 <= value < capacity(width),
            Payload::Signed(width) => -capacity(width) / 2 <= value < capacity(width) / 2,
            _ => false,
        },
    ensures
        ({
            let width = match number_payload(marker) {
                Payload::Unsigned(width) => width,
                Payload::Signed(width) => width,
                _ => 0,
            };
            read_value(
                before(written(marker, unsigned(value, width), width), rest),
                Reader::Strict(marker),
            ) == (Ok::<int, ValueReadError>(value), rest)
        }),
{
    match number_payload(marker) {
        Payload::Unsigned(width) => {
            lemma_read_written(marker, value, width, Reader::Strict(marker), rest);
        },
        Payload::Signed(width) => {
            lemma_signed_round_trip(value, width);
            lemma_read_written(marker, unsigned(value, width), width, Reader::Strict(marker), rest);
        },
        _ => {},
    }
}

/// A strict reader refuses every value that starts with another marker than
/// its own, also that of the same number written narrower, and hands back
/// the marker that it found. Only the marker is read.
pub proof fn law_strict_reader_refuses_other_types(wanted: Marker, s: Stream)
    requires
        s.bytes.len() > 0,
        decode_marker(s.bytes[0]) != wanted,
    ensures
        read_value(s, Reader::Strict(wanted)) == (
            Err::<int, ValueReadError>(ValueReadError::TypeMismatch(decode_marker(s.bytes[0]))),
            s.skip(1),
        ),
{
}

/// A loose reader of unsigned integers gives back every unsigned integer
/// written at a width up to its own, whichever width that was.
pub proof fn law_loose_unsigned_widens(marker: Marker, value: int, target: nat, rest: Stream)
    requires
        is_width(target),
        unsigned_width(marker) matches Some(width) && width <= target && is_width(width) && 0
            <= value < capacity(width),
    ensures
        read_value(
            before(written(marker, value, unsigned_width(marker).unwrap()), rest),
            Reader::LooseUnsigned(target),
        ) == (Ok::<int, ValueReadError>(value), rest),
{
    lemma_read_written(
        marker,
        value,
        unsigned_width(marker).unwrap(),
        Reader::LooseUnsigned(target),
        rest,
    );
}

/// A loose reader of signed integers gives back every signed integer written
/// at a width up to its own, whichever width that was.
pub proof fn law_loose_signed_widens(marker: Marker, value: int, target: nat, rest: Stream)
    requires
        is_width(target),
        signed_width(marker) matches Some(width) && width <= target && is_width(width)
            && -capacity(width) / 2 <= value < capacity(width) / 2,
    ensures
        ({
            let width = signed_width(marker).unwrap();
            read_value(
                before(written(marker, unsigned(value, width), width), rest),
                Reader::LooseSigned(target),
            ) == (Ok::<int, ValueReadError>(value), rest)
        }),
{
    let width = signed_width(marker).unwrap();
    lemma_signed_round_trip(value, width);
    lemma_read_written(marker, unsigned(value, width), width, Reader::LooseSigned(target), rest);
}

/// A fixnum is read by the loose readers of its own sign, at every width.
pub proof fn law_loose_reader_takes_fixnum(byte: u8, target: nat, rest: Stream)
    ensures
        byte <= 0x7f ==> read_value(before(seq![byte], rest), Reader::LooseUnsigned(target)) == (
            Ok::<int, ValueReadError>(byte as int),
            rest,
        ),
        byte >= 0xe0 ==> read_value(before(seq![byte], rest), Reader::LooseSigned(target)) == (
            Ok::<int, ValueReadError>(byte - 0x100),
            rest,
        ),
{
    let s = before(seq![byte], rest);
    assert(s.skip(1).bytes =~= rest.bytes);
}

/// No loose reader crosses the sign: the reader of unsigned integers refuses
/// every signed marker, the reader of signed integers every unsigned one,
/// whatever the value behind it. The marker found is handed back and
/// nothing behind it is read.
pub proof fn law_loose_reader_keeps_sign(s: Stream, target: nat)
    requires
        s.bytes.len() > 0,
    ensures
        signed_width(decode_marker(s.bytes[0])) is Some ==> read_value(
            s,
            Reader::LooseUnsigned(target),
        ) == (
            Err::<int, ValueReadError>(ValueReadError::TypeMismatch(decode_marker(s.bytes[0]))),
            s.skip(1),
        ),
        unsigned_width(decode_marker(s.bytes[0])) is Some ==> read_value(
            s,
            Reader::LooseSigned(target),
        ) == (
            Err::<int, ValueReadError>(ValueReadError::TypeMismatch(decode_marker(s.bytes[0]))),
            s.skip(1),
        ),
{
}

/// The shortest header that a writer can put before an array of `len`
/// elements: the length in the marker up to 15, else in two bytes up to
/// 65535, else in four.
pub open spec fn array_header(len: int) -> Seq<u8> {
    if len <= 15 {
        seq![encode_marker(Marker::FixedArray(len as u8))]
    } else if len <= 0xffff {
        written(Marker::Array16, len, 2)
    } else {
        written(Marker::Array32, len, 4)
    }
}

/// The shortest header that a writer can put before a map of `len` entries.
pub open spec fn map_header(len: int) -> Seq<u8> {
    if len <= 15 {
        seq![encode_marker(Marker::FixedMap(len as u8))]
    } else if len <= 0xffff {
        written(Marker::Map16, len, 2)
    } else {
        written(Marker::Map32, len, 4)
    }
}

/// The shortest header that a writer can put before a string of `len` bytes.
pub open spec fn str_header(len: int) -> Seq<u8> {
    if len <= 31 {
        seq![encode_marker(Marker::FixedString(len as u8))]
    } else if len <= 0xff {
        written(Marker::Str8, len, 1)
    } else if len <= 0xffff {
        written(Marker::Str16, len, 2)
    } else {
        written(Marker::Str32, len, 4)
    }
}

/// The shortest header that a writer can put before a blob of `len` bytes.
pub open spec fn bin_header(len: int) -> Seq<u8> {
    if len <= 0xff {
        written(Marker::Bin8, len, 1)
    } else if len <= 0xffff {
        written(Marker::Bin16, len, 2)
    } else {
        written(Marker::Bin32, len, 4)
    }
}

/// Every length that fits in 32 bits comes back from its shortest header,
/// whichever of the three or four forms that is, for arrays, maps, strings
/// and blobs alike.
pub proof fn law_length_header_round_trips(len: u32, rest: Stream)
    ensures
        read_value(before(array_header(len as int), rest), Reader::ArraySize) == (
            Ok::<int, ValueReadError>(len as int),
            rest,
        ),
        read_value(before(map_header(len as int), rest), Reader::MapSize) == (
            Ok::<int, ValueReadError>(len as int),
            rest,
        ),
        read_value(before(str_header(len as int), rest), Reader::StrLen) == (
            Ok::<int, ValueReadError>(len as int),
            rest,
        ),
        read_value(before(bin_header(len as int), rest), Reader::BinLen) == (
            Ok::<int, ValueReadError>(len as int),
            rest,
        ),
{
    lemma_array_header(len, rest);
    lemma_map_header(len, rest);
    lemma_str_header(len, rest);
    lemma_bin_header(len, rest);
}

proof fn lemma_array_header(len: u32, rest: Stream)
    ensures
        read_value(before(array_header(len as int), rest), Reader::ArraySize) == (
            Ok::<int, ValueReadError>(len as int),
            rest,
        ),
{
    let n = len as int;
    if n <= 15 {
        assert(before(array_header(n), rest).skip(1).bytes =~= rest.bytes);
    } else if n <= 0xffff {
        lemma_read_written(Marker::Array16, n, 2, Reader::ArraySize, rest);
    } else {
        lemma_read_written(Marker::Array32, n, 4, Reader::ArraySize, rest);
    }
}

proof fn lemma_map_header(len: u32, rest: Stream)
    ensures
        read_value(before(map_header(len as int), rest), Reader::MapSize) == (
            Ok::<int, ValueReadError>(len as int),
            rest,
        ),
{
    let n = len as int;
    if n <= 15 {
        assert(before(map_header(n), rest).skip(1).bytes =~= rest.bytes);
    } else if n <= 0xffff {
        lemma_read_written(Marker::Map16, n, 2, Reader::MapSize, rest);
    } else {
        lemma_read_written(Marker::Map32, n, 4, Reader::MapSize, rest);
    }
}

proof fn lemma_str_header(len: u32, rest: Stream)
    ensures
        read_value(before(str_header(len as int), rest), Reader::StrLen) == (
            Ok::<int, ValueReadError>(len as int),
            rest,
        ),
{
    let n = len as int;
    if n <= 31 {
        assert(before(str_header(n), rest).skip(1).bytes =~= rest.bytes);
    } else if n <= 0xff {
        lemma_read_written(Marker::Str8, n, 1, Reader::StrLen, rest);
    } else if n <= 0xffff {
        lemma_read_written(Marker::Str16, n, 2, Reader::StrLen, rest);
    } else {
        lemma_read_written(Marker::Str32, n, 4, Reader::StrLen, rest);
    }
}

proof fn lemma_bin_header(len: u32, rest: Stream)
    ensures
        read_value(before(bin_header(len as int), rest), Reader::BinLen) == (
            Ok::<int, ValueReadError>(len as int),
            rest,
        ),
{
    let n = len as int;
    if n <= 0xff {
        lemma_read_written(Marker::Bin8, n, 1, Reader::BinLen, rest);
    } else if n <= 0xffff {
        lemma_read_written(Marker::Bin16, n, 2, Reader::BinLen, rest);
    } else {
        lemma_read_written(Marker::Bin32, n, 4, Reader::BinLen, rest);
    }
}

/// Text written as a string comes back as it was, into any buffer that is
/// long enough for it, and what follows the string is left.
pub proof fn law_string_round_trips(text: Seq<char>, capacity: nat, rest: Stream)
    requires
        encode_utf8(text).len() <= u32::MAX,
        encode_utf8(text).len() <= capacity,
    ensures
        read_str(
            before(str_header(encode_utf8(text).len() as int) + encode_utf8(text), rest),
            capacity,
        ) == (Ok::<Seq<char>, StringFailure>(text), rest),
{
    let payload = encode_utf8(text);
    let len = payload.len() as u32;
    let header = str_header(payload.len() as int);
    let s = before(header + payload, rest);
    let tail = before(payload, rest);
    assert(s.bytes =~= before(header, tail).bytes);
    lemma_str_header(len, tail);
    assert(tail.bytes.take(payload.len() as int) =~= payload);
    assert(tail.skip(payload.len() as int).bytes =~= rest.bytes);
    vstd::utf8::encode_utf8_valid_utf8(text);
    vstd::utf8::encode_utf8_decode_utf8(text);
}

/// A string longer than the buffer is refused, whatever it holds, with the
/// length that the buffer would have needed; its payload is left unread.
pub proof fn law_short_buffer_is_refused(len: u32, capacity: nat, rest: Stream)
    requires
        capacity < len,
    ensures
        read_str(before(str_header(len as int), rest), capacity) == (
            Err::<Seq<char>, StringFailure>(StringFailure::BufferSizeTooSmall(len)),
            rest,
        ),
{
    lemma_str_header(len, rest);
}

/// True of the payload sizes for which the format has a marker of its own.
pub open spec fn is_fixext_size(size: nat) -> bool {
    size == 1 || size == 2 || size == 4 || size == 8 || size == 16
}

/// An extension value written with the marker of its size: the marker, the
/// type id, the payload.
pub open spec fn fixext_written(typeid: i8, payload: Seq<u8>) -> Seq<u8> {
    seq![encode_marker(fixext_marker(payload.len())), unsigned(typeid as int, 1) as u8] + payload
}

/// The same extension value written with its length in a field of one byte.
pub open spec fn ext8_written(typeid: i8, payload: Seq<u8>) -> Seq<u8> {
    seq![encode_marker(Marker::Ext8), payload.len() as u8, unsigned(typeid as int, 1) as u8]
        + payload
}

/// The header of an extension value reads the same whether the length of
/// the payload was written in the marker or in a field behind it: the type
/// id and the length come back, and the payload is what is left to read.
pub proof fn law_ext_meta_is_one(typeid: i8, payload: Seq<u8>, rest: Stream)
    requires
        is_fixext_size(payload.len()),
    ensures
        read_ext_meta(before(fixext_written(typeid, payload), rest)) == (
            Ok::<ExtMeta, ValueReadError>(ExtMeta { typeid, size: payload.len() as u32 }),
            before(payload, rest),
        ),
        read_ext_meta(before(ext8_written(typeid, payload), rest)) == read_ext_meta(
            before(fixext_written(typeid, payload), rest),
        ),
{
    let id = unsigned(typeid as int, 1) as u8;
    let fixed = before(fixext_written(typeid, payload), rest);
    let tail = before(seq![id] + payload, rest);
    assert(fixed.skip(1).bytes =~= tail.bytes);
    assert(tail.bytes.take(1) =~= seq![id]);
    assert(tail.skip(1).bytes =~= before(payload, rest).bytes);
    let long = before(ext8_written(typeid, payload), rest);
    let field = before(seq![payload.len() as u8, id] + payload, rest);
    assert(long.skip(1).bytes =~= field.bytes);
    assert(field.bytes.take(1) =~= seq![payload.len() as u8]);
    assert(field.skip(1).bytes =~= tail.bytes);
}

/// An extension value of a fixed size, read by the reader of that size,
/// comes back whole.
pub proof fn law_fixext_round_trips(typeid: i8, payload: Seq<u8>, rest: Stream)
    requires
        is_fixext_size(payload.len()),
    ensures
        read_fixext(before(fixext_written(typeid, payload), rest), payload.len()) == (
            Ok::<(int, Seq<u8>), ValueReadError>((typeid as int, payload)),
            rest,
        ),
{
    let id = unsigned(typeid as int, 1) as u8;
    let fixed = before(fixext_written(typeid, payload), rest);
    let tail = before(seq![id] + payload, rest);
    assert(fixed.skip(1).bytes =~= tail.bytes);
    assert(tail.bytes.take(1) =~= seq![id]);
    assert(tail.skip(1).bytes =~= before(payload, rest).bytes);
    lemma_take_written(payload, rest);
}

/// A read only moves forward. Whether it succeeds or fails, what it leaves
/// is the end of what it found, and the way the input ends is untouched: a
/// failed read has no effect beyond the bytes it used up. What a read
/// returns and leaves is a function of the stream alone, so reading the
/// same bytes again from the start gives the same again.
pub proof fn law_reads_only_move_forward(s: Stream, fixed: Fixed, reader: Reader, size: nat)
    ensures
        s.leads_to(read_marker(s).1),
        s.leads_to(read_fixed(s, fixed).1),
        s.leads_to(read_value(s, reader).1),
        s.leads_to(read_ext_meta(s).1),
        s.leads_to(read_fixext(s, size).1),
        s.leads_to(read_str_data(s, size).1),
        s.leads_to(read_str(s, size).1),
{
    lemma_forward_data(s, copied(s, size).len());
    let after_str_len = read_value(s, Reader::StrLen).1;
    lemma_forward_value(s, Reader::StrLen);
    if let Ok(len) = read_value(s, Reader::StrLen).0 {
        lemma_forward_data(after_str_len, copied(after_str_len, len as nat).len());
        lemma_forward_trans(s, after_str_len, read_str_data(after_str_len, len as nat).1);
    }
    lemma_forward_value(s, reader);
    lemma_forward_value(s, Reader::ExtLen);
    let after_len = read_value(s, Reader::ExtLen).1;
    lemma_forward_data(after_len, 1);
    lemma_forward_trans(s, after_len, read_data(after_len, 1, true).1);
    let after_marker = read_marker(s).1;
    lemma_forward_data(after_marker, 1);
    let after_id = read_data(after_marker, 1, true).1;
    lemma_forward_data(after_id, size);
    lemma_forward_trans(s, after_marker, after_id);
    lemma_forward_trans(s, after_id, after_id.take(size).1);
}

proof fn lemma_forward_data(s: Stream, width: nat)
    ensures
        s.leads_to(s.take(width).1),
        s.leads_to(read_data(s, width, true).1),
        s.leads_to(read_data(s, width, false).1),
        s.leads_to(s),
        s.bytes.len() > 0 ==> s.leads_to(s.skip(1)),
        width <= s.bytes.len() ==> s.leads_to(s.skip(width as int)),
{
    assert(s.bytes.skip(0) =~= s.bytes);
    assert(s.bytes.skip(s.bytes.len() as int) =~= Seq::<u8>::empty());
}

proof fn lemma_forward_trans(a: Stream, b: Stream, c: Stream)
    requires
        a.leads_to(b),
        b.leads_to(c),
    ensures
        a.leads_to(c),
{
    let i = a.bytes.len() - b.bytes.len();
    let j = b.bytes.len() - c.bytes.len();
    assert(a.bytes.skip(i).skip(j) =~= a.bytes.skip(i + j));
}

proof fn lemma_forward_value(s: Stream, reader: Reader)
    ensures
        s.leads_to(read_marker(s).1),
        s.leads_to(read_value(s, reader).1),
{
    lemma_forward_data(s, 1);
    if s.bytes.len() > 0 {
        let rest = s.skip(1);
        match payload_of(reader, decode_marker(s.bytes[0])) {
            Payload::Unsigned(width) => {
                lemma_forward_data(rest, width);
                lemma_forward_trans(s, rest, read_data(rest, width, false).1);
            },
            Payload::Signed(width) => {
                lemma_forward_data(rest, width);
                lemma_forward_trans(s, rest, read_data(rest, width, true).1);
            },
            _ => {},
        }
    }
}

} // verus!
