use std::io::ErrorKind;

use msgpack::serialize::{check_arity, retry_as_absent, Decoder, Error};
use msgpack::{Input, Marker, ReadError};

fn decoder(bytes: &[u8]) -> Decoder<'_> {
    Decoder::new(Input::new(bytes))
}

#[test]
fn primitives_go_through_the_loose_readers() {
    let buf = [0x05, 0xcc, 0x06, 0x07, 0xcd, 0x00, 0x08, 0xfb, 0xd0, 0x80, 0xd1, 0xff, 0xfe, 0xff];
    let mut d = decoder(&buf);
    assert_eq!(d.read_u8(), Ok(5));
    assert_eq!(d.read_u16(), Ok(6));
    assert_eq!(d.read_u32(), Ok(7));
    assert_eq!(d.read_u64(), Ok(8));
    assert_eq!(d.read_i8(), Ok(-5));
    assert_eq!(d.read_i16(), Ok(-128));
    assert_eq!(d.read_i32(), Ok(-2));
    assert_eq!(d.read_i64(), Ok(-1));
    assert_eq!(d.read_u8(), Err(Error::InvalidMarkerRead(ReadError::UnexpectedEOF)));
}

#[test]
fn nil_and_bool() {
    let buf = [0xc0, 0xc3, 0xc2, 0x01];
    let mut d = decoder(&buf);
    assert_eq!(d.read_nil(), Ok(()));
    assert_eq!(d.read_bool(), Ok(true));
    assert_eq!(d.read_bool(), Ok(false));
    assert_eq!(d.read_bool(), Err(Error::TypeMismatch(Marker::PositiveFixnum(1))));
}

#[test]
fn usize_and_isize() {
    let buf = [0xcd, 0x01, 0x00, 0xd1, 0xff, 0x00];
    let mut d = decoder(&buf);
    assert_eq!(d.read_usize(), Ok(256));
    assert_eq!(d.read_isize(), Ok(-256));
    assert_eq!(d.read_usize(), Err(Error::InvalidMarkerRead(ReadError::UnexpectedEOF)));
}

#[test]
fn floats_as_bits() {
    let buf = [0xca, 0x40, 0x20, 0x00, 0x00, 0xcb, 0x3f, 0xf8, 0, 0, 0, 0, 0, 0];
    let mut d = decoder(&buf);
    assert_eq!(d.read_f32_bits().map(f32::from_bits), Ok(2.5));
    assert_eq!(d.read_f64_bits().map(f64::from_bits), Ok(1.5));
}

#[test]
fn integer_of_the_other_sign_is_refused() {
    let mut d = decoder(&[0xfb]);
    assert_eq!(d.read_u32(), Err(Error::TypeMismatch(Marker::NegativeFixnum(-5))));
    let mut d = decoder(&[0x05]);
    assert_eq!(d.read_i32(), Err(Error::TypeMismatch(Marker::PositiveFixnum(5))));
}

#[test]
fn short_payload_is_a_data_read_failure() {
    let mut d = decoder(&[0xce, 0x00]);
    assert_eq!(d.read_u64(), Err(Error::InvalidDataRead(ReadError::UnexpectedEOF)));
}

#[test]
fn failed_source_reaches_the_framework() {
    let end = ReadError::Io(ErrorKind::UnexpectedEof);
    let mut d = Decoder::new(Input::broken(&[0xcd], end));
    assert_eq!(d.read_u16(), Err(Error::InvalidDataRead(end)));
    assert_eq!(d.read_nil(), Err(Error::InvalidMarkerRead(end)));
}

#[test]
fn read_str_owns_its_text() {
    let buf = [0xaa, 0x6c, 0x65, 0x20, 0x6d, 0x65, 0x73, 0x73, 0x61, 0x67, 0x65, 0xc0];
    let mut d = decoder(&buf);
    assert_eq!(d.read_str(), Ok("le message".to_string()));
    assert_eq!(d.read_nil(), Ok(()));
}

#[test]
fn read_str_failures() {
    assert_eq!(decoder(&[0xc0]).read_str(), Err(Error::TypeMismatch(Marker::Null)));
    assert_eq!(
        decoder(&[0xa3, b'a']).read_str(),
        Err(Error::InvalidDataRead(ReadError::UnexpectedEOF))
    );
    assert_eq!(
        decoder(&[0xa2, 0xff, 0xff]).read_str(),
        Err(Error::Uncategorized("InvalidUtf8".to_string()))
    );
    assert_eq!(
        decoder(&[0xd9]).read_str(),
        Err(Error::InvalidDataRead(ReadError::UnexpectedEOF))
    );
}

#[test]
fn struct_with_wrong_arity_is_a_length_mismatch() {
    let buf = [0x93, 0x01, 0x02, 0x03];
    let mut d = decoder(&buf);
    let res = d.read_struct("Point", 2, |d| {
        let x = d.read_u8()?;
        let y = d.read_u8()?;
        Ok((x, y))
    });
    assert_eq!(res, Err(Error::LengthMismatch(3)));
    assert_eq!(d.input().remaining(), &[0x01, 0x02, 0x03]);
}

#[test]
fn struct_is_read_as_a_tuple_of_its_fields() {
    let buf = [0x92, 0x01, 0xa2, b'h', b'i'];
    let mut d = decoder(&buf);
    let res = d.read_struct("Named", 2, |d| {
        let id = d.read_struct_field("id", 0, |d| d.read_u32())?;
        let name = d.read_struct_field("name", 1, |d| d.read_str())?;
        Ok((id, name))
    });
    assert_eq!(res, Ok((1, "hi".to_string())));
}

#[test]
fn tuple_of_the_right_arity() {
    let buf = [0xdc, 0x00, 0x02, 0xc3, 0xfb];
    let mut d = decoder(&buf);
    let res = d.read_tuple(2, |d| {
        let a = d.read_tuple_arg(0, |d| d.read_bool())?;
        let b = d.read_tuple_arg(1, |d| d.read_i8())?;
        Ok((a, b))
    });
    assert_eq!(res, Ok((true, -5)));
}

#[test]
fn tuple_failures() {
    let mut d = decoder(&[0x91, 0x01]);
    assert_eq!(d.read_tuple(0, |_| Ok(())), Err(Error::LengthMismatch(1)));
    let mut d = decoder(&[0x81]);
    assert_eq!(d.read_tuple(1, |d| d.read_u8()), Err(Error::TypeMismatch(Marker::FixedMap(1))));
    let mut d = decoder(&[]);
    assert_eq!(
        d.read_tuple(1, |d| d.read_u8()),
        Err(Error::InvalidMarkerRead(ReadError::UnexpectedEOF))
    );
}

#[test]
fn check_arity_decides_by_equality() {
    assert_eq!(check_arity(2, 2), Ok(()));
    assert_eq!(check_arity(0, 0), Ok(()));
    assert_eq!(check_arity(2, 3), Err(Error::LengthMismatch(3)));
    assert_eq!(check_arity(3, 2), Err(Error::LengthMismatch(2)));
}

fn read_optional_u32(d: &mut Decoder<'_>) -> Result<Option<u32>, Error> {
    d.read_option(|d, present| if present { d.read_u32().map(Some) } else { Ok(None) })
}

#[test]
fn option_that_is_present() {
    let buf = [0xcc, 0x2a, 0x01];
    let mut d = decoder(&buf);
    assert_eq!(read_optional_u32(&mut d), Ok(Some(42)));
    assert_eq!(d.input().remaining(), &[0x01]);
}

#[test]
fn option_that_is_absent() {
    let buf = [0xc0, 0x01];
    let mut d = decoder(&buf);
    assert_eq!(read_optional_u32(&mut d), Ok(None));
    assert_eq!(d.input().remaining(), &[0x01]);
}

#[test]
fn option_hands_on_any_other_failure() {
    let mut d = decoder(&[0xc3]);
    assert_eq!(read_optional_u32(&mut d), Err(Error::TypeMismatch(Marker::True)));
    let mut d = decoder(&[]);
    assert_eq!(read_optional_u32(&mut d), Err(Error::InvalidMarkerRead(ReadError::UnexpectedEOF)));
    let mut d = decoder(&[0xce, 0x01]);
    assert_eq!(read_optional_u32(&mut d), Err(Error::InvalidDataRead(ReadError::UnexpectedEOF)));
}

#[test]
fn option_does_not_retry_after_nil_deeper_in_the_value() {
    let buf = [0x92, 0x01, 0xc0];
    let mut d = decoder(&buf);
    let mut calls = 0;
    let res: Result<Option<(u8, u8)>, Error> = d.read_option(|d, present| {
        calls += 1;
        if present {
            d.read_tuple(2, |d| Ok(Some((d.read_u8()?, d.read_u8()?))))
        } else {
            Ok(None)
        }
    });
    assert_eq!(res, Err(Error::TypeMismatch(Marker::Null)));
    assert_eq!(calls, 1);
}

#[test]
fn retry_as_absent_asks_for_nil_alone() {
    let buf = [0xc0, 0x01, 0x02];
    let start = Input::new(&buf);
    let after_one = Input::new(&buf[1..]);
    let after_two = Input::new(&buf[2..]);
    let nil: Result<u8, Error> = Err(Error::TypeMismatch(Marker::Null));
    assert!(retry_as_absent(&start, &after_one, &nil));
    assert!(!retry_as_absent(&start, &after_two, &nil));
    assert!(!retry_as_absent(&start, &start, &nil));
    assert!(!retry_as_absent(&after_one, &after_two, &nil));
    let other: Result<u8, Error> = Err(Error::TypeMismatch(Marker::True));
    assert!(!retry_as_absent(&start, &after_one, &other));
    let fine: Result<u8, Error> = Ok(1);
    assert!(!retry_as_absent(&start, &after_one, &fine));
    let empty = Input::new(&[]);
    assert!(!retry_as_absent(&empty, &empty, &nil));
}

#[test]
fn seq_is_driven_by_the_length_read() {
    let buf = [0x93, 0x01, 0x02, 0x03, 0xc0];
    let mut d = decoder(&buf);
    let res = d.read_seq(|d, len| {
        let mut items = Vec::new();
        for i in 0..len {
            items.push(d.read_seq_elt(i, |d| d.read_u8())?);
        }
        Ok(items)
    });
    assert_eq!(res, Ok(vec![1, 2, 3]));
    assert_eq!(d.input().remaining(), &[0xc0]);
}

#[test]
fn seq_that_claims_too_much_fails_where_the_input_ends() {
    let buf = [0xdd, 0xff, 0xff, 0xff, 0xff, 0x01];
    let mut d = decoder(&buf);
    let res: Result<Vec<u8>, Error> = d.read_seq(|d, len| {
        assert_eq!(len as u64, 0xffff_ffff);
        let mut items = Vec::new();
        for i in 0..len {
            items.push(d.read_seq_elt(i, |d| d.read_u8())?);
        }
        Ok(items)
    });
    assert_eq!(res, Err(Error::InvalidMarkerRead(ReadError::UnexpectedEOF)));
}

#[test]
fn seq_header_failure() {
    let mut d = decoder(&[0xa1, b'x']);
    let res: Result<usize, Error> = d.read_seq(|_, len| Ok(len));
    assert_eq!(res, Err(Error::TypeMismatch(Marker::FixedString(1))));
}

#[test]
fn map_is_driven_by_the_length_read() {
    let buf = [0x82, 0x01, 0xc3, 0x02, 0xc2];
    let mut d = decoder(&buf);
    let res = d.read_map(|d, len| {
        let mut entries = Vec::new();
        for i in 0..len {
            let key = d.read_map_elt_key(i, |d| d.read_u8())?;
            let val = d.read_map_elt_val(i, |d| d.read_bool())?;
            entries.push((key, val));
        }
        Ok(entries)
    });
    assert_eq!(res, Ok(vec![(1, true), (2, false)]));
}

#[test]
fn map_header_failure() {
    let mut d = decoder(&[0x92]);
    let res: Result<usize, Error> = d.read_map(|_, len| Ok(len));
    assert_eq!(res, Err(Error::TypeMismatch(Marker::FixedArray(2))));
}

#[test]
fn unsupported_operations_fail_at_once_and_read_nothing() {
    let buf = [0x01, 0x02];
    let mut d = decoder(&buf);
    assert_eq!(d.read_char(), Err(Error::Uncategorized("unsupported: char".to_string())));
    let enums: Result<u8, Error> = Err(Error::Uncategorized("unsupported: enum".to_string()));
    assert_eq!(d.read_enum("E", |d: &mut Decoder| d.read_u8()), enums);
    assert_eq!(d.read_enum_variant(&["A", "B"], |d: &mut Decoder, _: usize| d.read_u8()), enums);
    assert_eq!(d.read_enum_variant_arg(0, |d: &mut Decoder| d.read_u8()), enums);
    assert_eq!(
        d.read_enum_struct_variant(&["A"], |d: &mut Decoder, _: usize| d.read_u8()),
        enums
    );
    assert_eq!(d.read_enum_struct_variant_field("f", 0, |d: &mut Decoder| d.read_u8()), enums);
    let tuple_structs: Result<u8, Error> =
        Err(Error::Uncategorized("unsupported: tuple struct".to_string()));
    assert_eq!(d.read_tuple_struct("T", 1, |d: &mut Decoder| d.read_u8()), tuple_structs);
    assert_eq!(d.read_tuple_struct_arg(0, |d: &mut Decoder| d.read_u8()), tuple_structs);
    assert_eq!(d.input().remaining(), &[0x01, 0x02]);
}

#[test]
fn error_hook_keeps_the_words() {
    let mut d = decoder(&[0x01]);
    assert_eq!(d.error("missing field"), Error::Uncategorized("missing field".to_string()));
    assert_eq!(d.input().remaining(), &[0x01]);
}

#[test]
fn decoding_a_buffer_twice_gives_the_same_failure() {
    let buf = [0x92, 0x01];
    let run = |bytes: &[u8]| {
        let mut d = Decoder::new(Input::new(bytes));
        d.read_tuple(2, |d| Ok((d.read_u8()?, d.read_u8()?)))
    };
    let first = run(&buf);
    assert_eq!(first, Err(Error::InvalidMarkerRead(ReadError::UnexpectedEOF)));
    assert_eq!(run(&buf), first);
}
