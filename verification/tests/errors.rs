use std::io::ErrorKind;

use msgpack::serialize::Error;
use msgpack::{
    DecodeStringError, FixedValueReadError, Marker, MarkerReadError, ReadError, Utf8Failure,
    ValueReadError,
};

#[test]
fn read_error_from_io_kind() {
    assert_eq!(ReadError::from(ErrorKind::NotFound), ReadError::Io(ErrorKind::NotFound));
}

#[test]
fn marker_error_and_read_error_convert_both_ways() {
    assert_eq!(MarkerReadError::from(ReadError::UnexpectedEOF), MarkerReadError::UnexpectedEOF);
    assert_eq!(
        MarkerReadError::from(ReadError::Io(ErrorKind::Other)),
        MarkerReadError::Io(ErrorKind::Other)
    );
    assert_eq!(ReadError::from(MarkerReadError::UnexpectedEOF), ReadError::UnexpectedEOF);
    assert_eq!(
        ReadError::from(MarkerReadError::Io(ErrorKind::Other)),
        ReadError::Io(ErrorKind::Other)
    );
}

#[test]
fn fixed_value_error_from_marker_error() {
    assert_eq!(
        FixedValueReadError::from(MarkerReadError::UnexpectedEOF),
        FixedValueReadError::UnexpectedEOF
    );
    assert_eq!(
        FixedValueReadError::from(MarkerReadError::Io(ErrorKind::TimedOut)),
        FixedValueReadError::Io(ErrorKind::TimedOut)
    );
}

#[test]
fn value_error_from_marker_error() {
    assert_eq!(
        ValueReadError::from(MarkerReadError::UnexpectedEOF),
        ValueReadError::InvalidMarkerRead(ReadError::UnexpectedEOF)
    );
    assert_eq!(
        ValueReadError::from(MarkerReadError::Io(ErrorKind::TimedOut)),
        ValueReadError::InvalidMarkerRead(ReadError::Io(ErrorKind::TimedOut))
    );
}

#[test]
fn string_error_from_value_error() {
    assert_eq!(
        DecodeStringError::from(ValueReadError::InvalidMarkerRead(ReadError::UnexpectedEOF)),
        DecodeStringError::InvalidMarkerRead(ReadError::UnexpectedEOF)
    );
    assert_eq!(
        DecodeStringError::from(ValueReadError::InvalidDataRead(ReadError::UnexpectedEOF)),
        DecodeStringError::InvalidDataRead(ReadError::UnexpectedEOF)
    );
    assert_eq!(
        DecodeStringError::from(ValueReadError::TypeMismatch(Marker::U8)),
        DecodeStringError::TypeMismatch(Marker::U8)
    );
}

#[test]
fn adapter_error_from_fixed_value_error() {
    assert_eq!(
        Error::from(FixedValueReadError::UnexpectedEOF),
        Error::InvalidMarkerRead(ReadError::UnexpectedEOF)
    );
    assert_eq!(
        Error::from(FixedValueReadError::Io(ErrorKind::Other)),
        Error::InvalidMarkerRead(ReadError::Io(ErrorKind::Other))
    );
    assert_eq!(
        Error::from(FixedValueReadError::TypeMismatch(Marker::True)),
        Error::TypeMismatch(Marker::True)
    );
}

#[test]
fn adapter_error_from_value_error() {
    assert_eq!(
        Error::from(ValueReadError::TypeMismatch(Marker::F64)),
        Error::TypeMismatch(Marker::F64)
    );
    assert_eq!(
        Error::from(ValueReadError::InvalidMarkerRead(ReadError::UnexpectedEOF)),
        Error::InvalidMarkerRead(ReadError::UnexpectedEOF)
    );
    assert_eq!(
        Error::from(ValueReadError::InvalidDataRead(ReadError::UnexpectedEOF)),
        Error::InvalidDataRead(ReadError::UnexpectedEOF)
    );
}

#[test]
fn adapter_error_from_string_error() {
    assert_eq!(
        Error::from(DecodeStringError::InvalidMarkerRead(ReadError::UnexpectedEOF)),
        Error::InvalidMarkerRead(ReadError::UnexpectedEOF)
    );
    assert_eq!(
        Error::from(DecodeStringError::InvalidDataRead(ReadError::UnexpectedEOF)),
        Error::InvalidDataRead(ReadError::UnexpectedEOF)
    );
    assert_eq!(
        Error::from(DecodeStringError::TypeMismatch(Marker::Null)),
        Error::TypeMismatch(Marker::Null)
    );
    assert_eq!(
        Error::from(DecodeStringError::BufferSizeTooSmall(10)),
        Error::Uncategorized("BufferSizeTooSmall".to_string())
    );
    assert_eq!(
        Error::from(DecodeStringError::InvalidDataCopy(&[1, 2], ReadError::UnexpectedEOF)),
        Error::InvalidDataRead(ReadError::UnexpectedEOF)
    );
    assert_eq!(
        Error::from(DecodeStringError::InvalidUtf8(&[0xff], Utf8Failure { valid_up_to: 0 })),
        Error::Uncategorized("InvalidUtf8".to_string())
    );
}
