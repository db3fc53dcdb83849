//! The decoder that a generic deserialization framework drives.
//!
//! The framework asks for one primitive after another and, for compound
//! values, hands over a closure that asks for the parts. Integers are read
//! loosely: a producer may have written a narrower width than the consumer
//! asks for.

use vstd::prelude::*;
use crate::decode::{
    read_array_size, read_bool, read_f32_bits, read_f64_bits, read_i16_loosely,
    read_i32_loosely, read_i64_loosely, read_i8_loosely, read_map_size, read_nil, read_str_data,
    read_str_len, read_u16_loosely, read_u32_loosely, read_u64_loosely, read_u8_loosely,
};
use crate::error::{
    DecodeStringError, FixedValueReadError, ReadError, StringFailure, ValueReadError,
};
use crate::input::{Input, Stream};
use crate::marker::Marker;
use crate::wire;
use crate::wire::{Fixed, Number, Reader};

verus! {

/// What the decoder reports to the framework.
#[derive(Debug, PartialEq, Eq)]
pub enum Error {
    /// The marker read is not one of the type asked for; it is handed back.
    TypeMismatch(Marker),
    /// The marker could not be read.
    InvalidMarkerRead(ReadError),
    /// The marker was read, the payload could not.
    InvalidDataRead(ReadError),
    /// An array does not have the number of elements that the caller expects;
    /// the number it has is handed back.
    LengthMismatch(u32),
    /// Anything else, in words.
    Uncategorized(String),
}

/// What an `Error` says, with the words as a sequence of characters.
pub enum Failure {
    TypeMismatch(Marker),
    InvalidMarkerRead(ReadError),
    InvalidDataRead(ReadError),
    LengthMismatch(u32),
    Uncategorized(Seq<char>),
}

impl View for Error {
    type V = Failure;

    open spec fn view(&self) -> Failure {
        match *self {
            Error::TypeMismatch(marker) => Failure::TypeMismatch(marker),
            Error::InvalidMarkerRead(err) => Failure::InvalidMarkerRead(err),
            Error::InvalidDataRead(err) => Failure::InvalidDataRead(err),
            Error::LengthMismatch(len) => Failure::LengthMismatch(len),
            Error::Uncategorized(words) => Failure::Uncategorized(words@),
        }
    }
}

impl Failure {
    /// A failure to read a marker-only value, as the decoder reports it.
    pub open spec fn of_fixed(err: FixedValueReadError) -> Failure {
        match err {
            FixedValueReadError::UnexpectedEOF => Failure::InvalidMarkerRead(
                ReadError::UnexpectedEOF,
            ),
            FixedValueReadError::Io(kind) => Failure::InvalidMarkerRead(ReadError::Io(kind)),
            FixedValueReadError::TypeMismatch(marker) => Failure::TypeMismatch(marker),
        }
    }

    /// A failure to read a value, as the decoder reports it.
    pub open spec fn of_value(err: ValueReadError) -> Failure {
        match err {
            ValueReadError::TypeMismatch(marker) => Failure::TypeMismatch(marker),
            ValueReadError::InvalidMarkerRead(err) => Failure::InvalidMarkerRead(err),
            ValueReadError::InvalidDataRead(err) => Failure::InvalidDataRead(err),
        }
    }

    /// A failure to read a string, as the decoder reports it. The three
    /// failures of the layers below keep their meaning; a payload cut short
    /// is a failure to read the data; the two that speak of a buffer or of
    /// its contents are named in words.
    pub open spec fn of_string(err: StringFailure) -> Failure {
        match err {
            StringFailure::InvalidMarkerRead(err) => Failure::InvalidMarkerRead(err),
            StringFailure::InvalidDataRead(err) => Failure::InvalidDataRead(err),
            StringFailure::TypeMismatch(marker) => Failure::TypeMismatch(marker),
            StringFailure::BufferSizeTooSmall(_) => Failure::Uncategorized(
                "BufferSizeTooSmall"@,
            ),
            StringFailure::InvalidDataCopy(_, err) => Failure::InvalidDataRead(err),
            StringFailure::InvalidUtf8(_, _) => Failure::Uncategorized("InvalidUtf8"@),
        }
    }
}

impl From<FixedValueReadError> for Error {
    fn from(err: FixedValueReadError) -> (res: Error)
        ensures
            res@ == Failure::of_fixed(err),
    {
        match err {
            FixedValueReadError::UnexpectedEOF => Error::InvalidMarkerRead(
                ReadError::UnexpectedEOF,
            ),
            FixedValueReadError::Io(kind) => Error::InvalidMarkerRead(ReadError::Io(kind)),
            FixedValueReadError::TypeMismatch(marker) => Error::TypeMismatch(marker),
        }
    }
}

impl vstd::std_specs::convert::FromSpecImpl<FixedValueReadError> for Error {
    open spec fn obeys_from_spec() -> bool {
        true
    }

    open spec fn from_spec(err: FixedValueReadError) -> Error {
        match err {
            FixedValueReadError::UnexpectedEOF => Error::InvalidMarkerRead(
                ReadError::UnexpectedEOF,
            ),
            FixedValueReadError::Io(kind) => Error::InvalidMarkerRead(ReadError::Io(kind)),
            FixedValueReadError::TypeMismatch(marker) => Error::TypeMismatch(marker),
        }
    }
}

impl From<ValueReadError> for Error {
    fn from(err: ValueReadError) -> (res: Error)
        ensures
            res@ == Failure::of_value(err),
    {
        match err {
            ValueReadError::TypeMismatch(marker) => Error::TypeMismatch(marker),
            ValueReadError::InvalidMarkerRead(err) => Error::InvalidMarkerRead(err),
            ValueReadError::InvalidDataRead(err) => Error::InvalidDataRead(err),
        }
    }
}

impl vstd::std_specs::convert::FromSpecImpl<ValueReadError> for Error {
    open spec fn obeys_from_spec() -> bool {
        true
    }

    open spec fn from_spec(err: ValueReadError) -> Error {
        match err {
            ValueReadError::TypeMismatch(marker) => Error::TypeMismatch(marker),
            ValueReadError::InvalidMarkerRead(err) => Error::InvalidMarkerRead(err),
            ValueReadError::InvalidDataRead(err) => Error::InvalidDataRead(err),
        }
    }
}

impl<'a> From<DecodeStringError<'a>> for Error {
    fn from(err: DecodeStringError<'a>) -> (res: Error)
        ensures
            res@ == Failure::of_string(err@),
    {
        match err {
            DecodeStringError::InvalidMarkerRead(err) => Error::InvalidMarkerRead(err),
            DecodeStringError::InvalidDataRead(err) => Error::InvalidDataRead(err),
            DecodeStringError::TypeMismatch(marker) => Error::TypeMismatch(marker),
            DecodeStringError::BufferSizeTooSmall(_) => Error::Uncategorized(
                "BufferSizeTooSmall".to_string(),
            ),
            DecodeStringError::InvalidDataCopy(_, err) => Error::InvalidDataRead(err),
            DecodeStringError::InvalidUtf8(_, _) => Error::Uncategorized("InvalidUtf8".to_string()),
        }
    }
}

impl<'a> vstd::std_specs::convert::FromSpecImpl<DecodeStringError<'a>> for Error {
    open spec fn obeys_from_spec() -> bool {
        false
    }

    open spec fn from_spec(err: DecodeStringError<'a>) -> Error {
        arbitrary()
    }
}

/// A reader's result as the decoder reports it: the value as an integer, the
/// failure as the decoder's own.
pub open spec fn lifted<T: Number>(res: Result<T, Error>) -> Result<int, Failure> {
    match res {
        Ok(value) => Ok(value.number()),
        Err(err) => Err(err@),
    }
}

/// True if `res` is the failure that `failure` describes.
pub open spec fn failed_with<T>(res: Result<T, Error>, failure: Failure) -> bool {
    res matches Err(err) && err@ == failure
}

/// The outcome of a marker-only reader with its failure turned into the
/// decoder's.
pub open spec fn via_fixed(outcome: (Result<int, FixedValueReadError>, Stream)) -> (
    Result<int, Failure>,
    Stream,
) {
    match outcome.0 {
        Ok(value) => (Ok(value), outcome.1),
        Err(err) => (Err(Failure::of_fixed(err)), outcome.1),
    }
}

/// The outcome of a reader of numbers with its failure turned into the
/// decoder's.
pub open spec fn via_value(outcome: (Result<int, ValueReadError>, Stream)) -> (
    Result<int, Failure>,
    Stream,
) {
    match outcome.0 {
        Ok(value) => (Ok(value), outcome.1),
        Err(err) => (Err(Failure::of_value(err)), outcome.1),
    }
}

/// The outcome of a string reader with its failure turned into the decoder's.
pub open spec fn via_string(outcome: (Result<Seq<char>, StringFailure>, Stream)) -> (
    Result<Seq<char>, Failure>,
    Stream,
) {
    match outcome.0 {
        Ok(text) => (Ok(text), outcome.1),
        Err(err) => (Err(Failure::of_string(err)), outcome.1),
    }
}

/// Reading a string of any length: the length, then the payload.
pub open spec fn read_string(s: Stream) -> (Result<Seq<char>, StringFailure>, Stream) {
    match wire::read_value(s, Reader::StrLen) {
        (Err(err), rest) => (Err(StringFailure::of_value(err)), rest),
        (Ok(len), rest) => wire::read_str_data(rest, len as nat),
    }
}

/// True if a first attempt to read an optional value, made as if the value
/// were there, shows that it is not: the attempt met nil where it wanted
/// something else, and it had read one byte, which was nil.
pub open spec fn found_nil<T>(start: Stream, now: Stream, attempt: Result<T, Error>) -> bool {
    &&& attempt matches Err(Error::TypeMismatch(Marker::Null))
    &&& start.bytes.len() > 0
    &&& start.bytes[0] == 0xc0
    &&& now.bytes.len() == start.bytes.len() - 1
}

/// Decides whether an array of `actual` elements can be read as the `len`
/// fields of a struct or a tuple: only if the two numbers are the same. If
/// not, the number found is handed back.
pub fn check_arity(len: usize, actual: u32) -> (res: Result<(), Error>)
    ensures
        len == actual ==> res == Ok::<(), Error>(()),
        len != actual ==> res == Err::<(), Error>(Error::LengthMismatch(actual)),
{
    if len == actual as usize {
        Ok(())
    } else {
        Err(Error::LengthMismatch(actual))
    }
}

/// Decides, after a first attempt to read an optional value as if it were
/// there, whether to read it again as absent. `start` is the input before
/// the attempt, `now` the input after it.
pub fn retry_as_absent<T>(start: &Input, now: &Input, attempt: &Result<T, Error>) -> (retry: bool)
    ensures
        retry == found_nil(start@, now@, *attempt),
{
    match attempt {
        Err(Error::TypeMismatch(Marker::Null)) => {
            let before: &[u8] = start.remaining();
            let after: &[u8] = now.remaining();
            before.len() > 0 && before[0] == 0xc0 && after.len() == before.len() - 1
        },
        _ => false,
    }
}

/// The decoder: an input, and the reads that the framework asks of it.
pub struct Decoder<'a> {
    rd: Input<'a>,
}

impl<'a> View for Decoder<'a> {
    type V = Stream;

    closed spec fn view(&self) -> Stream {
        self.rd@
    }
}

impl<'a> Decoder<'a> {
    /// A decoder that reads from `rd`.
    pub fn new(rd: Input<'a>) -> (decoder: Decoder<'a>)
        ensures
            decoder@ == rd@,
    {
        Decoder { rd }
    }

    /// The input as the reads so far have left it.
    pub fn input(&self) -> (rd: Input<'a>)
        ensures
            rd@ == self@,
    {
        self.rd
    }

    /// Reads nil.
    pub fn read_nil(&mut self) -> (res: Result<(), Error>)
        ensures
            (lifted(res), final(self)@) == via_fixed(wire::read_fixed(old(self)@, Fixed::Nil)),
    {
        match read_nil(&mut self.rd) {
            Ok(value) => Ok(value),
            Err(err) => Err(Error::from(err)),
        }
    }

    /// Reads a boolean.
    pub fn read_bool(&mut self) -> (res: Result<bool, Error>)
        ensures
            (lifted(res), final(self)@) == via_fixed(wire::read_fixed(old(self)@, Fixed::Bool)),
    {
        match read_bool(&mut self.rd) {
            Ok(value) => Ok(value),
            Err(err) => Err(Error::from(err)),
        }
    }

    /// Reads a `usize`: an unsigned integer of any width. On a machine whose
    /// `usize` is narrower than the number read, the number is cut down to
    /// the bits that fit.
    pub fn read_usize(&mut self) -> (res: Result<usize, Error>)
        ensures
            final(self)@ == wire::read_value(old(self)@, Reader::LooseUnsigned(8)).1,
            match res {
                Ok(value) => wire::read_value(old(self)@, Reader::LooseUnsigned(8)).0 matches Ok(
                    number,
                ) && value == number as u64 as usize,
                Err(err) => wire::read_value(old(self)@, Reader::LooseUnsigned(8)).0 matches Err(
                    e,
                ) && err@ == Failure::of_value(e),
            },
    {
        let value: u64 = self.read_u64()?;
        Ok(#[verifier::truncate] (value as usize))
    }

    /// Reads a `u8`, written at any width up to its own.
    pub fn read_u8(&mut self) -> (res: Result<u8, Error>)
        ensures
            (lifted(res), final(self)@) == via_value(wire::read_value(old(self)@, Reader::LooseUnsigned(1))),
    {
        match read_u8_loosely(&mut self.rd) {
            Ok(value) => Ok(value),
            Err(err) => Err(Error::from(err)),
        }
    }

    /// Reads a `u16`, written at any width up to its own.
    pub fn read_u16(&mut self) -> (res: Result<u16, Error>)
        ensures
            (lifted(res), final(self)@) == via_value(wire::read_value(old(self)@, Reader::LooseUnsigned(2))),
    {
        match read_u16_loosely(&mut self.rd) {
            Ok(value) => Ok(value),
            Err(err) => Err(Error::from(err)),
        }
    }

    /// Reads a `u32`, written at any width up to its own.
    pub fn read_u32(&mut self) -> (res: Result<u32, Error>)
        ensures
            (lifted(res), final(self)@) == via_value(wire::read_value(old(self)@, Reader::LooseUnsigned(4))),
    {
        match read_u32_loosely(&mut self.rd) {
            Ok(value) => Ok(value),
            Err(err) => Err(Error::from(err)),
        }
    }

    /// Reads a `u64`, written at any width up to its own.
    pub fn read_u64(&mut self) -> (res: Result<u64, Error>)
        ensures
            (lifted(res), final(self)@) == via_value(wire::read_value(old(self)@, Reader::LooseUnsigned(8))),
    {
        match read_u64_loosely(&mut self.rd) {
            Ok(value) => Ok(value),
            Err(err) => Err(Error::from(err)),
        }
    }

    /// Reads an `isize`: a signed integer of any width. On a machine whose
    /// `isize` is narrower than the number read, the number is cut down to
    /// the bits that fit.
    pub fn read_isize(&mut self) -> (res: Result<isize, Error>)
        ensures
            final(self)@ == wire::read_value(old(self)@, Reader::LooseSigned(8)).1,
            match res {
                Ok(value) => wire::read_value(old(self)@, Reader::LooseSigned(8)).0 matches Ok(
                    number,
                ) && value == number as i64 as isize,
                Err(err) => wire::read_value(old(self)@, Reader::LooseSigned(8)).0 matches Err(
                    e,
                ) && err@ == Failure::of_value(e),
            },
    {
        let value: i64 = self.read_i64()?;
        Ok(#[verifier::truncate] (value as isize))
    }

    /// Reads an `i8`, written at any width up to its own.
    pub fn read_i8(&mut self) -> (res: Result<i8, Error>)
        ensures
            (lifted(res), final(self)@) == via_value(wire::read_value(old(self)@, Reader::LooseSigned(1))),
    {
        match read_i8_loosely(&mut self.rd) {
            Ok(value) => Ok(value),
            Err(err) => Err(Error::from(err)),
        }
    }

    /// Reads an `i16`, written at any width up to its own.
    pub fn read_i16(&mut self) -> (res: Result<i16, Error>)
        ensures
            (lifted(res), final(self)@) == via_value(wire::read_value(old(self)@, Reader::LooseSigned(2))),
    {
        match read_i16_loosely(&mut self.rd) {
            Ok(value) => Ok(value),
            Err(err) => Err(Error::from(err)),
        }
    }

    /// Reads an `i32`, written at any width up to its own.
    pub fn read_i32(&mut self) -> (res: Result<i32, Error>)
        ensures
            (lifted(res), final(self)@) == via_value(wire::read_value(old(self)@, Reader::LooseSigned(4))),
    {
        match read_i32_loosely(&mut self.rd) {
            Ok(value) => Ok(value),
            Err(err) => Err(Error::from(err)),
        }
    }

    /// Reads an `i64`, written at any width up to its own.
    pub fn read_i64(&mut self) -> (res: Result<i64, Error>)
        ensures
            (lifted(res), final(self)@) == via_value(wire::read_value(old(self)@, Reader::LooseSigned(8))),
    {
        match read_i64_loosely(&mut self.rd) {
            Ok(value) => Ok(value),
            Err(err) => Err(Error::from(err)),
        }
    }

    /// Reads the bits of a 32-bit float.
    pub fn read_f32_bits(&mut self) -> (res: Result<u32, Error>)
        ensures
            (lifted(res), final(self)@) == via_value(wire::read_value(old(self)@, Reader::Strict(Marker::F32))),
    {
        match read_f32_bits(&mut self.rd) {
            Ok(value) => Ok(value),
            Err(err) => Err(Error::from(err)),
        }
    }

    /// Reads the bits of a 64-bit float.
    pub fn read_f64_bits(&mut self) -> (res: Result<u64, Error>)
        ensures
            (lifted(res), final(self)@) == via_value(wire::read_value(old(self)@, Reader::Strict(Marker::F64))),
    {
        match read_f64_bits(&mut self.rd) {
            Ok(value) => Ok(value),
            Err(err) => Err(Error::from(err)),
        }
    }

    /// Reads a string of any length, as text of its own.
    pub fn read_str(&mut self) -> (res: Result<String, Error>)
        ensures
            final(self)@ == read_string(old(self)@).1,
            match res {
                Ok(text) => via_string(read_string(old(self)@)).0 == Ok::<Seq<char>, Failure>(
                    text@,
                ),
                Err(err) => via_string(read_string(old(self)@)).0 == Err::<Seq<char>, Failure>(
                    err@,
                ),
            },
    {
        let len: u32 = match read_str_len(&mut self.rd) {
            Ok(len) => len,
            Err(err) => { return Err(Error::from(err)); },
        };
        let mut buf: Vec<u8> = vec![0u8; len as usize];
        match read_str_data(&mut self.rd, len, buf.as_mut_slice()) {
            Ok(text) => Ok(text.to_string()),
            Err(err) => Err(Error::from(err)),
        }
    }

    /// Reads an array header and checks that the array has the `len`
    /// elements of the tuple asked for, then lets `f` read the elements.
    ///
    /// An array of another size is refused with the size it has, and `f` is
    /// not called.
    pub fn read_tuple<T, F>(&mut self, len: usize, f: F) -> (res: Result<T, Error>) where
        F: FnOnce(&mut Decoder<'a>) -> Result<T, Error>,

        requires
            forall|d: &mut Decoder<'a>| f.requires((d,)),
        ensures
            match wire::read_value(old(self)@, Reader::ArraySize) {
                (Err(e), rest) => final(self)@ == rest && failed_with(res, Failure::of_value(e)),
                (Ok(actual), rest) => if actual == len {
                    exists|d: &mut Decoder<'a>|
                        d@ == rest && *final(d) == *final(self) && #[trigger] f.ensures((d,), res)
                } else {
                    final(self)@ == rest && failed_with(res, Failure::LengthMismatch(actual as u32))
                },
            },
    {
        let actual: u32 = match read_array_size(&mut self.rd) {
            Ok(actual) => actual,
            Err(err) => { return Err(Error::from(err)); },
        };
        match check_arity(len, actual) {
            Ok(()) => f(self),
            Err(err) => Err(err),
        }
    }

    /// Reads a struct of `len` fields, which is written as a tuple of its
    /// fields in the order in which `f` asks for them. The name is not on
    /// the wire.
    pub fn read_struct<T, F>(&mut self, name: &str, len: usize, f: F) -> (res: Result<
        T,
        Error,
    >) where F: FnOnce(&mut Decoder<'a>) -> Result<T, Error>
        requires
            forall|d: &mut Decoder<'a>| f.requires((d,)),
        ensures
            match wire::read_value(old(self)@, Reader::ArraySize) {
                (Err(e), rest) => final(self)@ == rest && failed_with(res, Failure::of_value(e)),
                (Ok(actual), rest) => if actual == len {
                    exists|d: &mut Decoder<'a>|
                        d@ == rest && *final(d) == *final(self) && #[trigger] f.ensures((d,), res)
                } else {
                    final(self)@ == rest && failed_with(res, Failure::LengthMismatch(actual as u32))
                },
            },
    {
        self.read_tuple(len, f)
    }

    /// Reads an optional value. `f` is first asked to read the value as if
    /// it were there. If that attempt read nothing but a nil marker and
    /// failed on it, `f` is asked again, now told that the value is absent.
    /// Any other failure is handed on as it is.
    pub fn read_option<T, F>(&mut self, f: F) -> (res: Result<T, Error>) where
        F: FnMut(&mut Decoder<'a>, bool) -> Result<T, Error>,

        requires
            forall|d: &mut Decoder<'a>, present: bool| f.requires((d, present)),
        ensures
            exists|first: &mut Decoder<'a>, attempt: Result<T, Error>|
                {
                    &&& *first == *old(self)
                    &&& #[trigger] f.ensures((first, true), attempt)
                    &&& if found_nil(old(self)@, final(first)@, attempt) {
                        exists|second: &mut Decoder<'a>|
                            *second == *final(first) && *final(second) == *final(self)
                                && #[trigger] f.ensures((second, false), res)
                    } else {
                        res == attempt && *final(self) == *final(first)
                    }
                },
    {
        let mut f = f;
        let start: Input<'a> = self.rd;
        let attempt: Result<T, Error> = f(self, true);
        if retry_as_absent(&start, &self.rd, &attempt) {
            f(self, false)
        } else {
            attempt
        }
    }

    /// Reads an array header and lets `f` read the elements, of which it is
    /// told the number. The number is not held against the input: an array
    /// that claims more elements than the input holds fails where the input
    /// ends.
    pub fn read_seq<T, F>(&mut self, f: F) -> (res: Result<T, Error>) where
        F: FnOnce(&mut Decoder<'a>, usize) -> Result<T, Error>,

        requires
            forall|d: &mut Decoder<'a>, len: usize| f.requires((d, len)),
        ensures
            match wire::read_value(old(self)@, Reader::ArraySize) {
                (Err(e), rest) => final(self)@ == rest && failed_with(res, Failure::of_value(e)),
                (Ok(len), rest) => exists|d: &mut Decoder<'a>, count: usize|
                    count == len && d@ == rest && *final(d) == *final(self)
                        && #[trigger] f.ensures((d, count), res),
            },
    {
        let len: u32 = match read_array_size(&mut self.rd) {
            Ok(len) => len,
            Err(err) => { return Err(Error::from(err)); },
        };
        f(self, len as usize)
    }

    /// Reads a map header and lets `f` read the entries, of which it is told
    /// the number. The number is not held against the input.
    pub fn read_map<T, F>(&mut self, f: F) -> (res: Result<T, Error>) where
        F: FnOnce(&mut Decoder<'a>, usize) -> Result<T, Error>,

        requires
            forall|d: &mut Decoder<'a>, len: usize| f.requires((d, len)),
        ensures
            match wire::read_value(old(self)@, Reader::MapSize) {
                (Err(e), rest) => final(self)@ == rest && failed_with(res, Failure::of_value(e)),
                (Ok(len), rest) => exists|d: &mut Decoder<'a>, count: usize|
                    count == len && d@ == rest && *final(d) == *final(self)
                        && #[trigger] f.ensures((d, count), res),
            },
    {
        let len: u32 = match read_map_size(&mut self.rd) {
            Ok(len) => len,
            Err(err) => { return Err(Error::from(err)); },
        };
        f(self, len as usize)
    }

    /// Lets `f` read one field of a struct. Fields stand on the wire in the
    /// order in which they are asked for, without name or index.
    pub fn read_struct_field<T, F>(&mut self, name: &str, idx: usize, f: F) -> (res: Result<T, Error>) where
        F: FnOnce(&mut Decoder<'a>) -> Result<T, Error>,

        requires
            forall|d: &mut Decoder<'a>| f.requires((d,)),
        ensures
            exists|d: &mut Decoder<'a>|
                *d == *old(self) && *final(d) == *final(self) && #[trigger] f.ensures((d,), res),
    {
        f(self)
    }

    /// Lets `f` read one element of a tuple. Elements stand on the wire one
    /// after another, without index.
    pub fn read_tuple_arg<T, F>(&mut self, idx: usize, f: F) -> (res: Result<T, Error>) where
        F: FnOnce(&mut Decoder<'a>) -> Result<T, Error>,

        requires
            forall|d: &mut Decoder<'a>| f.requires((d,)),
        ensures
            exists|d: &mut Decoder<'a>|
                *d == *old(self) && *final(d) == *final(self) && #[trigger] f.ensures((d,), res),
    {
        f(self)
    }

    /// Lets `f` read one element of a sequence.
    pub fn read_seq_elt<T, F>(&mut self, idx: usize, f: F) -> (res: Result<T, Error>) where
        F: FnOnce(&mut Decoder<'a>) -> Result<T, Error>,

        requires
            forall|d: &mut Decoder<'a>| f.requires((d,)),
        ensures
            exists|d: &mut Decoder<'a>|
                *d == *old(self) && *final(d) == *final(self) && #[trigger] f.ensures((d,), res),
    {
        f(self)
    }

    /// Lets `f` read the key of one entry of a map.
    pub fn read_map_elt_key<T, F>(&mut self, idx: usize, f: F) -> (res: Result<T, Error>) where
        F: FnOnce(&mut Decoder<'a>) -> Result<T, Error>,

        requires
            forall|d: &mut Decoder<'a>| f.requires((d,)),
        ensures
            exists|d: &mut Decoder<'a>|
                *d == *old(self) && *final(d) == *final(self) && #[trigger] f.ensures((d,), res),
    {
        f(self)
    }

    /// Lets `f` read the value of one entry of a map.
    pub fn read_map_elt_val<T, F>(&mut self, idx: usize, f: F) -> (res: Result<T, Error>) where
        F: FnOnce(&mut Decoder<'a>) -> Result<T, Error>,

        requires
            forall|d: &mut Decoder<'a>| f.requires((d,)),
        ensures
            exists|d: &mut Decoder<'a>|
                *d == *old(self) && *final(d) == *final(self) && #[trigger] f.ensures((d,), res),
    {
        f(self)
    }

    /// Not supported: the format has no characters. Fails at once and reads
    /// nothing.
    pub fn read_char(&mut self) -> (res: Result<char, Error>)
        ensures
            final(self)@ == old(self)@,
            failed_with(res, Failure::Uncategorized("unsupported: char"@)),
    {
        Err(Error::Uncategorized("unsupported: char".to_string()))
    }

    /// Not supported: enums have no agreed form on the wire. Fails at once,
    /// reads nothing and does not call `f`.
    pub fn read_enum<T, F>(&mut self, name: &str, f: F) -> (res: Result<T, Error>)
        ensures
            final(self)@ == old(self)@,
            failed_with(res, Failure::Uncategorized("unsupported: enum"@)),
    {
        Err(Error::Uncategorized("unsupported: enum".to_string()))
    }

    /// Not supported: enums have no agreed form on the wire. Fails at once,
    /// reads nothing and does not call `f`.
    pub fn read_enum_variant<T, F>(&mut self, names: &[&str], f: F) -> (res: Result<T, Error>)
        ensures
            final(self)@ == old(self)@,
            failed_with(res, Failure::Uncategorized("unsupported: enum"@)),
    {
        Err(Error::Uncategorized("unsupported: enum".to_string()))
    }

    /// Not supported: enums have no agreed form on the wire. Fails at once,
    /// reads nothing and does not call `f`.
    pub fn read_enum_variant_arg<T, F>(&mut self, idx: usize, f: F) -> (res: Result<T, Error>)
        ensures
            final(self)@ == old(self)@,
            failed_with(res, Failure::Uncategorized("unsupported: enum"@)),
    {
        Err(Error::Uncategorized("unsupported: enum".to_string()))
    }

    /// Not supported: enums have no agreed form on the wire. Fails at once,
    /// reads nothing and does not call `f`.
    pub fn read_enum_struct_variant<T, F>(&mut self, names: &[&str], f: F) -> (res: Result<T, Error>)
        ensures
            final(self)@ == old(self)@,
            failed_with(res, Failure::Uncategorized("unsupported: enum"@)),
    {
        Err(Error::Uncategorized("unsupported: enum".to_string()))
    }

    /// Not supported: enums have no agreed form on the wire. Fails at once,
    /// reads nothing and does not call `f`.
    pub fn read_enum_struct_variant_field<T, F>(&mut self, name: &str, idx: usize, f: F) -> (res: Result<T, Error>)
        ensures
            final(self)@ == old(self)@,
            failed_with(res, Failure::Uncategorized("unsupported: enum"@)),
    {
        Err(Error::Uncategorized("unsupported: enum".to_string()))
    }

    /// Not supported: tuple structs have no agreed form on the wire. Fails at
    /// once, reads nothing and does not call `f`.
    pub fn read_tuple_struct<T, F>(&mut self, name: &str, len: usize, f: F) -> (res: Result<T, Error>)
        ensures
            final(self)@ == old(self)@,
            failed_with(res, Failure::Uncategorized("unsupported: tuple struct"@)),
    {
        Err(Error::Uncategorized("unsupported: tuple struct".to_string()))
    }

    /// Not supported: tuple structs have no agreed form on the wire. Fails at
    /// once, reads nothing and does not call `f`.
    pub fn read_tuple_struct_arg<T, F>(&mut self, idx: usize, f: F) -> (res: Result<T, Error>)
        ensures
            final(self)@ == old(self)@,
            failed_with(res, Failure::Uncategorized("unsupported: tuple struct"@)),
    {
        Err(Error::Uncategorized("unsupported: tuple struct".to_string()))
    }

    /// Builds the failure by which the framework reports a fault of its own,
    /// in its own words.
    pub fn error(&mut self, err: &str) -> (res: Error)
        ensures
            final(self)@ == old(self)@,
            res@ == Failure::Uncategorized(err@),
    {
        Error::Uncategorized(err.to_string())
    }
}

} // verus!
