//! Decoding of MessagePack values from a byte stream.
//!
//! A value on the wire starts with one marker byte, which may be followed by a
//! big-endian payload. [`marker`] classifies that byte, [`input`] is the stream
//! the readers consume, [`wire`] states the format as specification functions,
//! and [`decode`] holds the readers, each proved against [`wire`]. [`serialize`]
//! is the decoder that a generic deserialization framework drives, and
//! [`laws`] proves what holds of the format as a whole. The only code taken on
//! trust is in [`endian`] and [`text`], where integers and UTF-8 are handed to
//! `byteorder` and to the standard library.

pub mod decode;
pub mod endian;
pub mod error;
pub mod input;
pub mod laws;
pub mod marker;
pub mod serialize;
pub mod text;
pub mod wire;

pub use error::{
    DecodeStringError, FixedValueReadError, MarkerReadError, ReadError, StringFailure,
    Utf8Failure, ValueReadError,
};
pub use input::{Input, Stream};
pub use marker::Marker;
