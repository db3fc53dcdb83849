use std::io::ErrorKind;

use msgpack::decode::{
    read_bool, read_f32_bits, read_f64_bits, read_i16, read_i16_loosely, read_i32,
    read_i32_loosely, read_i64, read_i64_loosely, read_i8, read_i8_loosely, read_marker,
    read_nfix, read_nil, read_pfix, read_u16, read_u16_loosely, read_u32, read_u32_loosely,
    read_u64, read_u64_loosely, read_u8, read_u8_loosely,
};
use msgpack::{FixedValueReadError, Input, Marker, MarkerReadError, ReadError, ValueReadError};

#[test]
fn read_marker_takes_one_byte() {
    let buf = [0xc0, 0xc3];
    let mut rd = Input::new(&buf);
    assert_eq!(read_marker(&mut rd), Ok(Marker::Null));
    assert_eq!(rd.remaining(), &[0xc3]);
}

#[test]
fn read_marker_fails_on_empty_input() {
    let mut rd = Input::new(&[]);
    assert_eq!(read_marker(&mut rd), Err(MarkerReadError::UnexpectedEOF));
}

#[test]
fn read_marker_reports_a_failed_source() {
    let mut rd = Input::broken(&[], ReadError::Io(ErrorKind::BrokenPipe));
    assert_eq!(read_marker(&mut rd), Err(MarkerReadError::Io(ErrorKind::BrokenPipe)));
}

#[test]
fn read_nil_ok() {
    let buf = [0xc0];
    let mut rd = Input::new(&buf);
    assert_eq!(read_nil(&mut rd), Ok(()));
    assert!(rd.remaining().is_empty());
}

#[test]
fn read_nil_type_mismatch_carries_the_marker() {
    let buf = [0xc3];
    let mut rd = Input::new(&buf);
    assert_eq!(read_nil(&mut rd), Err(FixedValueReadError::TypeMismatch(Marker::True)));
    assert!(rd.remaining().is_empty());
}

#[test]
fn read_nil_eof() {
    let mut rd = Input::new(&[]);
    assert_eq!(read_nil(&mut rd), Err(FixedValueReadError::UnexpectedEOF));
}

#[test]
fn read_nil_io_failure() {
    let mut rd = Input::broken(&[], ReadError::Io(ErrorKind::TimedOut));
    assert_eq!(read_nil(&mut rd), Err(FixedValueReadError::Io(ErrorKind::TimedOut)));
}

#[test]
fn read_bool_both_values() {
    let buf = [0xc2, 0xc3, 0xc0];
    let mut rd = Input::new(&buf);
    assert_eq!(read_bool(&mut rd), Ok(false));
    assert_eq!(read_bool(&mut rd), Ok(true));
    assert_eq!(read_bool(&mut rd), Err(FixedValueReadError::TypeMismatch(Marker::Null)));
}

#[test]
fn read_pfix_values() {
    let buf = [0x00, 0x7f, 0xe0];
    let mut rd = Input::new(&buf);
    assert_eq!(read_pfix(&mut rd), Ok(0));
    assert_eq!(read_pfix(&mut rd), Ok(127));
    assert_eq!(
        read_pfix(&mut rd),
        Err(FixedValueReadError::TypeMismatch(Marker::NegativeFixnum(-32)))
    );
}

#[test]
fn read_nfix_values() {
    let buf = [0xe0, 0xff, 0x7f];
    let mut rd = Input::new(&buf);
    assert_eq!(read_nfix(&mut rd), Ok(-32));
    assert_eq!(read_nfix(&mut rd), Ok(-1));
    assert_eq!(
        read_nfix(&mut rd),
        Err(FixedValueReadError::TypeMismatch(Marker::PositiveFixnum(127)))
    );
}

#[test]
fn read_u8_value() {
    let buf = [0xcc, 0xff];
    assert_eq!(read_u8(&mut Input::new(&buf)), Ok(255));
}

#[test]
fn read_u16_is_big_endian() {
    let buf = [0xcd, 0x01, 0x02];
    assert_eq!(read_u16(&mut Input::new(&buf)), Ok(0x0102));
}

#[test]
fn read_u32_is_big_endian() {
    let buf = [0xce, 0x01, 0x02, 0x03, 0x04];
    assert_eq!(read_u32(&mut Input::new(&buf)), Ok(0x0102_0304));
}

#[test]
fn read_u64_is_big_endian() {
    let buf = [0xcf, 0x01, 0x02, 0x03, 0x04, 0x05, 0x06, 0x07, 0x08];
    assert_eq!(read_u64(&mut Input::new(&buf)), Ok(0x0102_0304_0506_0708));
}

#[test]
fn read_u64_max() {
    let buf = [0xcf, 0xff, 0xff, 0xff, 0xff, 0xff, 0xff, 0xff, 0xff];
    assert_eq!(read_u64(&mut Input::new(&buf)), Ok(u64::MAX));
}

#[test]
fn read_i8_values() {
    assert_eq!(read_i8(&mut Input::new(&[0xd0, 0x80])), Ok(-128));
    assert_eq!(read_i8(&mut Input::new(&[0xd0, 0x7f])), Ok(127));
    assert_eq!(read_i8(&mut Input::new(&[0xd0, 0xff])), Ok(-1));
}

#[test]
fn read_i16_values() {
    assert_eq!(read_i16(&mut Input::new(&[0xd1, 0x80, 0x00])), Ok(i16::MIN));
    assert_eq!(read_i16(&mut Input::new(&[0xd1, 0xec, 0x78])), Ok(-5000));
    assert_eq!(read_i16(&mut Input::new(&[0xd1, 0x01, 0x02])), Ok(0x0102));
}

#[test]
fn read_i32_values() {
    assert_eq!(read_i32(&mut Input::new(&[0xd2, 0x80, 0x00, 0x00, 0x00])), Ok(i32::MIN));
    assert_eq!(read_i32(&mut Input::new(&[0xd2, 0xff, 0xf0, 0xbd, 0xc0])), Ok(-1_000_000));
    assert_eq!(read_i32(&mut Input::new(&[0xd2, 0x7f, 0xff, 0xff, 0xff])), Ok(i32::MAX));
}

#[test]
fn read_i64_values() {
    let min = [0xd3, 0x80, 0, 0, 0, 0, 0, 0, 0];
    assert_eq!(read_i64(&mut Input::new(&min)), Ok(i64::MIN));
    let minus_two = [0xd3, 0xff, 0xff, 0xff, 0xff, 0xff, 0xff, 0xff, 0xfe];
    assert_eq!(read_i64(&mut Input::new(&minus_two)), Ok(-2));
    let big = [0xd3, 0x01, 0x02, 0x03, 0x04, 0x05, 0x06, 0x07, 0x08];
    assert_eq!(read_i64(&mut Input::new(&big)), Ok(0x0102_0304_0506_0708));
}

#[test]
fn strict_reader_leaves_what_follows() {
    let buf = [0xcd, 0x00, 0x07, 0xc0, 0x01];
    let mut rd = Input::new(&buf);
    assert_eq!(read_u16(&mut rd), Ok(7));
    assert_eq!(rd.remaining(), &[0xc0, 0x01]);
}

#[test]
fn read_u32_of_float64_is_a_type_mismatch() {
    let buf = [0xcb, 0x3f, 0xf0, 0, 0, 0, 0, 0, 0];
    let mut rd = Input::new(&buf);
    assert_eq!(read_u32(&mut rd), Err(ValueReadError::TypeMismatch(Marker::F64)));
    assert_eq!(rd.remaining().len(), 8);
}

#[test]
fn strict_reader_refuses_a_narrower_width() {
    let buf = [0xcc, 0x05];
    assert_eq!(read_u16(&mut Input::new(&buf)), Err(ValueReadError::TypeMismatch(Marker::U8)));
    let fix = [0x05];
    assert_eq!(
        read_u8(&mut Input::new(&fix)),
        Err(ValueReadError::TypeMismatch(Marker::PositiveFixnum(5)))
    );
}

#[test]
fn short_payload_is_a_data_error() {
    let buf = [0xce, 0x00, 0x01];
    let mut rd = Input::new(&buf);
    assert_eq!(read_u32(&mut rd), Err(ValueReadError::InvalidDataRead(ReadError::UnexpectedEOF)));
    assert!(rd.remaining().is_empty());
}

#[test]
fn missing_marker_is_a_marker_error() {
    let mut rd = Input::new(&[]);
    assert_eq!(read_u32(&mut rd), Err(ValueReadError::InvalidMarkerRead(ReadError::UnexpectedEOF)));
}

#[test]
fn failed_source_shows_in_both_stages() {
    let end = ReadError::Io(ErrorKind::ConnectionReset);
    let mut rd = Input::broken(&[], end);
    assert_eq!(read_i16(&mut rd), Err(ValueReadError::InvalidMarkerRead(end)));
    let buf = [0xd1, 0x01];
    let mut rd = Input::broken(&buf, end);
    assert_eq!(read_i16(&mut rd), Err(ValueReadError::InvalidDataRead(end)));
}

#[test]
fn loose_u32_takes_a_positive_fixnum() {
    let buf = [0x05];
    assert_eq!(read_u32_loosely(&mut Input::new(&buf)), Ok(5u32));
}

#[test]
fn loose_u32_refuses_a_negative_fixnum() {
    let buf = [0xfb];
    assert_eq!(
        read_u32_loosely(&mut Input::new(&buf)),
        Err(ValueReadError::TypeMismatch(Marker::NegativeFixnum(-5)))
    );
}

#[test]
fn loose_unsigned_widens_every_narrower_width() {
    assert_eq!(read_u8_loosely(&mut Input::new(&[0x7f])), Ok(127));
    assert_eq!(read_u8_loosely(&mut Input::new(&[0xcc, 0xc8])), Ok(200));
    assert_eq!(read_u16_loosely(&mut Input::new(&[0x01])), Ok(1));
    assert_eq!(read_u16_loosely(&mut Input::new(&[0xcc, 0xc8])), Ok(200));
    assert_eq!(read_u16_loosely(&mut Input::new(&[0xcd, 0x12, 0x34])), Ok(0x1234));
    assert_eq!(read_u32_loosely(&mut Input::new(&[0xcc, 0xc8])), Ok(200));
    assert_eq!(read_u32_loosely(&mut Input::new(&[0xcd, 0x12, 0x34])), Ok(0x1234));
    assert_eq!(read_u32_loosely(&mut Input::new(&[0xce, 0xff, 0xff, 0xff, 0xff])), Ok(u32::MAX));
    assert_eq!(read_u64_loosely(&mut Input::new(&[0x2a])), Ok(42));
    assert_eq!(read_u64_loosely(&mut Input::new(&[0xcc, 0xc8])), Ok(200));
    assert_eq!(read_u64_loosely(&mut Input::new(&[0xcd, 0x12, 0x34])), Ok(0x1234));
    assert_eq!(read_u64_loosely(&mut Input::new(&[0xce, 0x12, 0x34, 0x56, 0x78])), Ok(0x1234_5678));
    assert_eq!(
        read_u64_loosely(&mut Input::new(&[0xcf, 0xff, 0xff, 0xff, 0xff, 0xff, 0xff, 0xff, 0xff])),
        Ok(u64::MAX)
    );
}

#[test]
fn loose_signed_widens_every_narrower_width() {
    assert_eq!(read_i8_loosely(&mut Input::new(&[0xe0])), Ok(-32));
    assert_eq!(read_i8_loosely(&mut Input::new(&[0xd0, 0x9c])), Ok(-100));
    assert_eq!(read_i16_loosely(&mut Input::new(&[0xff])), Ok(-1));
    assert_eq!(read_i16_loosely(&mut Input::new(&[0xd0, 0x9c])), Ok(-100));
    assert_eq!(read_i16_loosely(&mut Input::new(&[0xd1, 0xec, 0x78])), Ok(-5000));
    assert_eq!(read_i32_loosely(&mut Input::new(&[0xfb])), Ok(-5));
    assert_eq!(read_i32_loosely(&mut Input::new(&[0xd0, 0x9c])), Ok(-100));
    assert_eq!(read_i32_loosely(&mut Input::new(&[0xd1, 0xec, 0x78])), Ok(-5000));
    assert_eq!(read_i32_loosely(&mut Input::new(&[0xd2, 0xff, 0xf0, 0xbd, 0xc0])), Ok(-1_000_000));
    assert_eq!(read_i64_loosely(&mut Input::new(&[0xfb])), Ok(-5));
    assert_eq!(read_i64_loosely(&mut Input::new(&[0xd0, 0x9c])), Ok(-100));
    assert_eq!(read_i64_loosely(&mut Input::new(&[0xd1, 0xec, 0x78])), Ok(-5000));
    assert_eq!(read_i64_loosely(&mut Input::new(&[0xd2, 0xff, 0xf0, 0xbd, 0xc0])), Ok(-1_000_000));
    assert_eq!(
        read_i64_loosely(&mut Input::new(&[0xd3, 0x80, 0, 0, 0, 0, 0, 0, 0])),
        Ok(i64::MIN)
    );
}

#[test]
fn loose_reader_refuses_a_wider_width() {
    assert_eq!(
        read_u8_loosely(&mut Input::new(&[0xcd, 0x00, 0x01])),
        Err(ValueReadError::TypeMismatch(Marker::U16))
    );
    assert_eq!(
        read_u32_loosely(&mut Input::new(&[0xcf, 0, 0, 0, 0, 0, 0, 0, 1])),
        Err(ValueReadError::TypeMismatch(Marker::U64))
    );
    assert_eq!(
        read_i16_loosely(&mut Input::new(&[0xd2, 0, 0, 0, 1])),
        Err(ValueReadError::TypeMismatch(Marker::I32))
    );
}

#[test]
fn loose_reader_never_crosses_the_sign() {
    assert_eq!(
        read_u64_loosely(&mut Input::new(&[0xd0, 0x05])),
        Err(ValueReadError::TypeMismatch(Marker::I8))
    );
    assert_eq!(
        read_i64_loosely(&mut Input::new(&[0xcc, 0x05])),
        Err(ValueReadError::TypeMismatch(Marker::U8))
    );
    assert_eq!(
        read_i64_loosely(&mut Input::new(&[0x05])),
        Err(ValueReadError::TypeMismatch(Marker::PositiveFixnum(5)))
    );
}

#[test]
fn loose_reader_short_payload() {
    let mut rd = Input::new(&[0xcd, 0x01]);
    assert_eq!(
        read_u64_loosely(&mut rd),
        Err(ValueReadError::InvalidDataRead(ReadError::UnexpectedEOF))
    );
    assert!(rd.remaining().is_empty());
}

#[test]
fn float32_bits() {
    let buf = [0xca, 0x3f, 0x80, 0x00, 0x00];
    let bits = read_f32_bits(&mut Input::new(&buf)).unwrap();
    assert_eq!(bits, 0x3f80_0000);
    assert_eq!(f32::from_bits(bits), 1.0f32);
}

#[test]
fn float64_bits() {
    let buf = [0xcb, 0xc0, 0x04, 0x00, 0x00, 0x00, 0x00, 0x00, 0x00];
    let bits = read_f64_bits(&mut Input::new(&buf)).unwrap();
    assert_eq!(f64::from_bits(bits), -2.5f64);
}

#[test]
fn float_bits_type_mismatch() {
    assert_eq!(
        read_f32_bits(&mut Input::new(&[0xcb, 0, 0, 0, 0, 0, 0, 0, 0])),
        Err(ValueReadError::TypeMismatch(Marker::F64))
    );
    assert_eq!(
        read_f64_bits(&mut Input::new(&[0xce, 0, 0, 0, 0])),
        Err(ValueReadError::TypeMismatch(Marker::U32))
    );
}

#[test]
fn decoding_again_from_the_start_gives_the_same() {
    let good = [0xce, 0x01, 0x02, 0x03, 0x04];
    assert_eq!(read_u32(&mut Input::new(&good)), read_u32(&mut Input::new(&good)));
    let short = [0xce, 0x01];
    let first = read_u32(&mut Input::new(&short));
    let second = read_u32(&mut Input::new(&short));
    assert_eq!(first, Err(ValueReadError::InvalidDataRead(ReadError::UnexpectedEOF)));
    assert_eq!(first, second);
    assert_eq!(short, [0xce, 0x01]);
}

#[test]
fn a_mismatch_uses_up_the_marker_only() {
    let buf = [0xc3, 0x05];
    let mut rd = Input::new(&buf);
    assert_eq!(read_u8(&mut rd), Err(ValueReadError::TypeMismatch(Marker::True)));
    assert_eq!(rd.remaining(), &[0x05]);
    assert_eq!(read_u8_loosely(&mut rd), Ok(5));
}
