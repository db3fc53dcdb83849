use std::io::ErrorKind;

use msgpack::decode::{read_bin_borrow, read_str, read_str_data, read_str_ref};
use msgpack::{DecodeStringError, Input, Marker, ReadError, Utf8Failure, ValueReadError};

const LE_MESSAGE: [u8; 11] = [0xaa, 0x6c, 0x65, 0x20, 0x6d, 0x65, 0x73, 0x73, 0x61, 0x67, 0x65];

#[test]
fn read_str_into_a_buffer_that_is_long_enough() {
    let mut out = [0u8; 16];
    let mut rd = Input::new(&LE_MESSAGE);
    assert_eq!(read_str(&mut rd, &mut out[..]), Ok("le message"));
    assert!(rd.remaining().is_empty());
}

#[test]
fn read_str_leaves_the_text_in_the_buffer() {
    let mut out = [0xeeu8; 16];
    let mut rd = Input::new(&LE_MESSAGE);
    assert!(read_str(&mut rd, &mut out[..]).is_ok());
    assert_eq!(&out[..10], b"le message");
    assert_eq!(&out[10..], &[0xee; 6]);
}

#[test]
fn read_str_buffer_too_small_carries_the_length() {
    let mut out = [0u8; 4];
    let mut rd = Input::new(&LE_MESSAGE);
    assert_eq!(read_str(&mut rd, &mut out[..]), Err(DecodeStringError::BufferSizeTooSmall(10)));
    assert_eq!(rd.remaining().len(), 10);
    assert_eq!(out, [0u8; 4]);
}

#[test]
fn read_str_truncated_payload_carries_the_bytes_copied() {
    let mut out = [0u8; 16];
    let mut rd = Input::new(&LE_MESSAGE[..6]);
    assert_eq!(
        read_str(&mut rd, &mut out[..]),
        Err(DecodeStringError::InvalidDataCopy(
            &[0x6c, 0x65, 0x20, 0x6d, 0x65],
            ReadError::UnexpectedEOF
        ))
    );
    assert!(rd.remaining().is_empty());
}

#[test]
fn read_str_failed_source_inside_the_payload() {
    let mut out = [0u8; 16];
    let end = ReadError::Io(ErrorKind::BrokenPipe);
    let mut rd = Input::broken(&LE_MESSAGE[..6], end);
    assert_eq!(read_str(&mut rd, &mut out[..]), Err(DecodeStringError::InvalidDataRead(end)));
}

#[test]
fn read_str_invalid_utf8_carries_the_payload_and_the_position() {
    let buf = [0xa4, b'a', b'b', 0xff, b'c'];
    let mut out = [0u8; 8];
    let mut rd = Input::new(&buf);
    assert_eq!(
        read_str(&mut rd, &mut out[..]),
        Err(DecodeStringError::InvalidUtf8(
            &[b'a', b'b', 0xff, b'c'],
            Utf8Failure { valid_up_to: 2 }
        ))
    );
    assert!(rd.remaining().is_empty());
}

#[test]
fn read_str_cut_inside_a_character_is_invalid_utf8() {
    let buf = [0xa2, b'a', 0xc3];
    let mut out = [0u8; 8];
    assert_eq!(
        read_str(&mut Input::new(&buf), &mut out[..]),
        Err(DecodeStringError::InvalidUtf8(&[b'a', 0xc3], Utf8Failure { valid_up_to: 1 }))
    );
}

#[test]
fn read_str_multibyte_text() {
    let text = "héllo wörld ✓";
    let mut buf = vec![0xd9, text.len() as u8];
    buf.extend_from_slice(text.as_bytes());
    buf.push(0xc0);
    let mut out = [0u8; 32];
    let mut rd = Input::new(&buf);
    assert_eq!(read_str(&mut rd, &mut out[..]), Ok(text));
    assert_eq!(rd.remaining(), &[0xc0]);
}

#[test]
fn read_str_empty_string() {
    let mut out = [0u8; 0];
    assert_eq!(read_str(&mut Input::new(&[0xa0]), &mut out[..]), Ok(""));
}

#[test]
fn read_str_exact_fit() {
    let mut out = [0u8; 10];
    assert_eq!(read_str(&mut Input::new(&LE_MESSAGE), &mut out[..]), Ok("le message"));
}

#[test]
fn read_str_type_mismatch_and_marker_failure() {
    let mut out = [0u8; 4];
    assert_eq!(
        read_str(&mut Input::new(&[0xc0]), &mut out[..]),
        Err(DecodeStringError::TypeMismatch(Marker::Null))
    );
    assert_eq!(
        read_str(&mut Input::new(&[]), &mut out[..]),
        Err(DecodeStringError::InvalidMarkerRead(ReadError::UnexpectedEOF))
    );
    assert_eq!(
        read_str(&mut Input::new(&[0xda, 0x00]), &mut out[..]),
        Err(DecodeStringError::InvalidDataRead(ReadError::UnexpectedEOF))
    );
}

#[test]
fn read_str_data_fills_the_front_of_the_buffer() {
    let mut out = [0x11u8; 6];
    let mut rd = Input::new(b"abcdef");
    assert_eq!(read_str_data(&mut rd, 3, &mut out[..]), Ok("abc"));
    assert_eq!(rd.remaining(), b"def");
    assert_eq!(out, [b'a', b'b', b'c', 0x11, 0x11, 0x11]);
}

#[test]
fn read_str_ref_borrows_the_payload() {
    assert_eq!(read_str_ref(&LE_MESSAGE), Ok(&b"le message"[..]));
    let longer = [0xa2, b'h', b'i', 0xc0, 0xc0];
    assert_eq!(read_str_ref(&longer), Ok(&b"hi"[..]));
}

#[test]
fn read_str_ref_does_not_check_utf8() {
    let buf = [0xa2, 0xff, 0xfe];
    assert_eq!(read_str_ref(&buf), Ok(&[0xff, 0xfe][..]));
}

#[test]
fn read_str_ref_short_input() {
    assert_eq!(
        read_str_ref(&LE_MESSAGE[..6]),
        Err(DecodeStringError::InvalidDataRead(ReadError::UnexpectedEOF))
    );
    assert_eq!(read_str_ref(&[0x05]), Err(DecodeStringError::TypeMismatch(Marker::PositiveFixnum(5))));
}

#[test]
fn read_bin_borrow_borrows_the_payload() {
    let buf = [0xc4, 0x03, 1, 2, 3, 4];
    assert_eq!(read_bin_borrow(&buf), Ok(&[1u8, 2, 3][..]));
    let wide = [0xc5, 0x00, 0x02, 9, 8];
    assert_eq!(read_bin_borrow(&wide), Ok(&[9u8, 8][..]));
    let empty = [0xc4, 0x00];
    assert_eq!(read_bin_borrow(&empty), Ok(&[][..]));
}

#[test]
fn read_bin_borrow_short_input() {
    let buf = [0xc4, 0x03, 1, 2];
    assert_eq!(
        read_bin_borrow(&buf),
        Err(ValueReadError::InvalidDataRead(ReadError::UnexpectedEOF))
    );
    assert_eq!(read_bin_borrow(&[0xa1, 0x61]), Err(ValueReadError::TypeMismatch(Marker::FixedString(1))));
    assert_eq!(
        read_bin_borrow(&[]),
        Err(ValueReadError::InvalidMarkerRead(ReadError::UnexpectedEOF))
    );
}
