//! What can go wrong while decoding, one type per layer.
//!
//! A failure to read bytes becomes a failure to read the marker or the data,
//! then a failure to read a value, then a failure to read a string. Each layer
//! converts from the one below without losing what it said.

use vstd::prelude::*;
use crate::marker::Marker;

verus! {

#[verifier::external_type_specification]
#[verifier::external_body]
pub struct ExIoErrorKind(std::io::ErrorKind);

/// Bytes could not be read.
#[derive(Clone, Copy, Debug, PartialEq, Eq)]
pub enum ReadError {
    /// The input ended before the bytes asked for.
    UnexpectedEOF,
    /// The source of the input failed.
    Io(std::io::ErrorKind),
}

/// The marker byte could not be read.
#[derive(Clone, Copy, Debug, PartialEq, Eq)]
pub enum MarkerReadError {
    /// The input ended before the marker.
    UnexpectedEOF,
    /// The source of the input failed.
    Io(std::io::ErrorKind),
}

/// A value that lies wholly in its marker could not be read.
#[derive(Clone, Copy, Debug, PartialEq, Eq)]
pub enum FixedValueReadError {
    /// The input ended before the marker.
    UnexpectedEOF,
    /// The source of the input failed.
    Io(std::io::ErrorKind),
    /// The marker read is not one of the type asked for; it is handed back.
    TypeMismatch(Marker),
}

/// A value with a payload could not be read.
#[derive(Clone, Copy, Debug, PartialEq, Eq)]
pub enum ValueReadError {
    /// The marker could not be read.
    InvalidMarkerRead(ReadError),
    /// The marker was read, the payload could not.
    InvalidDataRead(ReadError),
    /// The marker read is not one of the type asked for; it is handed back.
    TypeMismatch(Marker),
}

/// Where the check of a payload for UTF-8 stopped.
#[derive(Clone, Copy, Debug, PartialEq, Eq)]
pub struct Utf8Failure {
    /// The length of the longest prefix of the payload that is valid UTF-8.
    pub valid_up_to: usize,
}

/// A string could not be read into the caller's buffer.
#[derive(Clone, Copy, Debug, PartialEq, Eq)]
pub enum DecodeStringError<'a> {
    /// The marker could not be read.
    InvalidMarkerRead(ReadError),
    /// The marker was read, the length or the payload could not.
    InvalidDataRead(ReadError),
    /// The marker read is not one of a string; it is handed back.
    TypeMismatch(Marker),
    /// The buffer is shorter than the string, whose length is handed back.
    BufferSizeTooSmall(u32),
    /// The input ended inside the payload; the bytes copied so far are handed
    /// back.
    InvalidDataCopy(&'a [u8], ReadError),
    /// The payload was copied in full and is not UTF-8; it is handed back.
    InvalidUtf8(&'a [u8], Utf8Failure),
}

/// A failure to read a string, with the bytes that it hands back as
/// sequences: what a `DecodeStringError` says, whatever buffer it borrows.
pub enum StringFailure {
    InvalidMarkerRead(ReadError),
    InvalidDataRead(ReadError),
    TypeMismatch(Marker),
    BufferSizeTooSmall(u32),
    InvalidDataCopy(Seq<u8>, ReadError),
    InvalidUtf8(Seq<u8>, Utf8Failure),
}

impl StringFailure {
    /// A failure to read the length of a string, as the string readers report
    /// it.
    pub open spec fn of_value(err: ValueReadError) -> StringFailure {
        match err {
            ValueReadError::InvalidMarkerRead(err) => StringFailure::InvalidMarkerRead(err),
            ValueReadError::InvalidDataRead(err) => StringFailure::InvalidDataRead(err),
            ValueReadError::TypeMismatch(marker) => StringFailure::TypeMismatch(marker),
        }
    }
}

impl<'a> View for DecodeStringError<'a> {
    type V = StringFailure;

    open spec fn view(&self) -> StringFailure {
        match *self {
            DecodeStringError::InvalidMarkerRead(err) => StringFailure::InvalidMarkerRead(err),
            DecodeStringError::InvalidDataRead(err) => StringFailure::InvalidDataRead(err),
            DecodeStringError::TypeMismatch(marker) => StringFailure::TypeMismatch(marker),
            DecodeStringError::BufferSizeTooSmall(len) => StringFailure::BufferSizeTooSmall(len),
            DecodeStringError::InvalidDataCopy(bytes, err) => StringFailure::InvalidDataCopy(
                bytes@,
                err,
            ),
            DecodeStringError::InvalidUtf8(bytes, failure) => StringFailure::InvalidUtf8(
                bytes@,
                failure,
            ),
        }
    }
}

impl ReadError {
    /// The failure to read bytes that a failure to read the marker stands for.
    pub open spec fn of_marker(err: MarkerReadError) -> ReadError {
        match err {
            MarkerReadError::UnexpectedEOF => ReadError::UnexpectedEOF,
            MarkerReadError::Io(kind) => ReadError::Io(kind),
        }
    }
}

impl MarkerReadError {
    /// A failure to read bytes, met while reading the marker.
    pub open spec fn of_read(err: ReadError) -> MarkerReadError {
        match err {
            ReadError::UnexpectedEOF => MarkerReadError::UnexpectedEOF,
            ReadError::Io(kind) => MarkerReadError::Io(kind),
        }
    }
}

impl FixedValueReadError {
    /// A failure to read the marker, as the readers of marker-only values
    /// report it.
    pub open spec fn of_marker(err: MarkerReadError) -> FixedValueReadError {
        match err {
            MarkerReadError::UnexpectedEOF => FixedValueReadError::UnexpectedEOF,
            MarkerReadError::Io(kind) => FixedValueReadError::Io(kind),
        }
    }
}

impl ValueReadError {
    /// A failure to read the marker, as the readers of values report it.
    pub open spec fn of_marker(err: MarkerReadError) -> ValueReadError {
        ValueReadError::InvalidMarkerRead(ReadError::of_marker(err))
    }
}

impl<'a> DecodeStringError<'a> {
    /// A failure to read the length of a string, as the string readers report
    /// it.
    pub open spec fn of_value(err: ValueReadError) -> DecodeStringError<'a> {
        match err {
            ValueReadError::InvalidMarkerRead(err) => DecodeStringError::InvalidMarkerRead(err),
            ValueReadError::InvalidDataRead(err) => DecodeStringError::InvalidDataRead(err),
            ValueReadError::TypeMismatch(marker) => DecodeStringError::TypeMismatch(marker),
        }
    }
}

impl From<std::io::ErrorKind> for ReadError {
    fn from(kind: std::io::ErrorKind) -> (err: ReadError) {
        ReadError::Io(kind)
    }
}

impl vstd::std_specs::convert::FromSpecImpl<std::io::ErrorKind> for ReadError {
    open spec fn obeys_from_spec() -> bool {
        true
    }

    open spec fn from_spec(kind: std::io::ErrorKind) -> ReadError {
        ReadError::Io(kind)
    }
}

impl From<ReadError> for MarkerReadError {
    fn from(err: ReadError) -> (res: MarkerReadError) {
        match err {
            ReadError::UnexpectedEOF => MarkerReadError::UnexpectedEOF,
            ReadError::Io(kind) => MarkerReadError::Io(kind),
        }
    }
}

impl vstd::std_specs::convert::FromSpecImpl<ReadError> for MarkerReadError {
    open spec fn obeys_from_spec() -> bool {
        true
    }

    open spec fn from_spec(err: ReadError) -> MarkerReadError {
        MarkerReadError::of_read(err)
    }
}

impl From<MarkerReadError> for ReadError {
    fn from(err: MarkerReadError) -> (res: ReadError) {
        match err {
            MarkerReadError::UnexpectedEOF => ReadError::UnexpectedEOF,
            MarkerReadError::Io(kind) => ReadError::Io(kind),
        }
    }
}

impl vstd::std_specs::convert::FromSpecImpl<MarkerReadError> for ReadError {
    open spec fn obeys_from_spec() -> bool {
        true
    }

    open spec fn from_spec(err: MarkerReadError) -> ReadError {
        ReadError::of_marker(err)
    }
}

impl From<MarkerReadError> for FixedValueReadError {
    fn from(err: MarkerReadError) -> (res: FixedValueReadError) {
        match err {
            MarkerReadError::UnexpectedEOF => FixedValueReadError::UnexpectedEOF,
            MarkerReadError::Io(kind) => FixedValueReadError::Io(kind),
        }
    }
}

impl vstd::std_specs::convert::FromSpecImpl<MarkerReadError> for FixedValueReadError {
    open spec fn obeys_from_spec() -> bool {
        true
    }

    open spec fn from_spec(err: MarkerReadError) -> FixedValueReadError {
        FixedValueReadError::of_marker(err)
    }
}

impl From<MarkerReadError> for ValueReadError {
    fn from(err: MarkerReadError) -> (res: ValueReadError) {
        let read: ReadError = From::from(err);
        ValueReadError::InvalidMarkerRead(read)
    }
}

impl vstd::std_specs::convert::FromSpecImpl<MarkerReadError> for ValueReadError {
    open spec fn obeys_from_spec() -> bool {
        true
    }

    open spec fn from_spec(err: MarkerReadError) -> ValueReadError {
        ValueReadError::of_marker(err)
    }
}

impl<'a> From<ValueReadError> for DecodeStringError<'a> {
    fn from(err: ValueReadError) -> (res: DecodeStringError<'a>) {
        match err {
            ValueReadError::InvalidMarkerRead(err) => DecodeStringError::InvalidMarkerRead(err),
            ValueReadError::InvalidDataRead(err) => DecodeStringError::InvalidDataRead(err),
            ValueReadError::TypeMismatch(marker) => DecodeStringError::TypeMismatch(marker),
        }
    }
}

impl<'a> vstd::std_specs::convert::FromSpecImpl<ValueReadError> for DecodeStringError<'a> {
    open spec fn obeys_from_spec() -> bool {
        true
    }

    open spec fn from_spec(err: ValueReadError) -> DecodeStringError<'a> {
        DecodeStringError::of_value(err)
    }
}

/// A failure to read bytes and a failure to read the marker say the same:
/// converting one way and back changes nothing.
pub proof fn law_marker_failure_is_read_failure(read: ReadError, marker: MarkerReadError)
    ensures
        ReadError::of_marker(MarkerReadError::of_read(read)) == read,
        MarkerReadError::of_read(ReadError::of_marker(marker)) == marker,
{
}

/// No conversion to a higher layer maps two failures to one: what the lower
/// layer said can be read off the result.
pub proof fn law_conversions_lose_nothing(
    m1: MarkerReadError,
    m2: MarkerReadError,
    v1: ValueReadError,
    v2: ValueReadError,
)
    ensures
        FixedValueReadError::of_marker(m1) == FixedValueReadError::of_marker(m2) ==> m1 == m2,
        ValueReadError::of_marker(m1) == ValueReadError::of_marker(m2) ==> m1 == m2,
        DecodeStringError::of_value(v1) == DecodeStringError::of_value(v2) ==> v1 == v2,
{
}

} // verus!
