//! The byte stream that the readers consume.
//!
//! A stream is a run of bytes and what happens after the last of them: the
//! input has ended, or its source has failed. Reading only moves forward.

use vstd::prelude::*;
use vstd::slice::slice_subrange;
use crate::error::ReadError;

verus! {

/// The mathematical model of an input: the bytes not yet read, and the
/// failure that a read past the last of them meets.
pub struct Stream {
    pub bytes: Seq<u8>,
    pub end: ReadError,
}

impl Stream {
    /// The stream that holds `bytes` and then ends.
    pub open spec fn of_bytes(bytes: Seq<u8>) -> Stream {
        Stream { bytes, end: ReadError::UnexpectedEOF }
    }

    /// The stream after its first `n` bytes were read.
    pub open spec fn skip(self, n: int) -> Stream {
        Stream { bytes: self.bytes.skip(n), end: self.end }
    }

    /// The stream after all its bytes were read.
    pub open spec fn drained(self) -> Stream {
        Stream { bytes: Seq::empty(), end: self.end }
    }

    /// Reading exactly `n` bytes: they are handed out if the stream holds
    /// that many; if it does not, the read uses up what is there and fails
    /// with the stream's end.
    pub open spec fn take(self, n: nat) -> (Result<Seq<u8>, ReadError>, Stream) {
        if n <= self.bytes.len() {
            (Ok(self.bytes.take(n as int)), self.skip(n as int))
        } else {
            (Err(self.end), self.drained())
        }
    }

    /// True if `later` is what is left of this stream after some reads.
    pub open spec fn leads_to(self, later: Stream) -> bool {
        &&& later.end == self.end
        &&& later.bytes.len() <= self.bytes.len()
        &&& later.bytes == self.bytes.skip(self.bytes.len() - later.bytes.len())
    }
}

/// An input over bytes in memory.
#[derive(Clone, Copy, Debug)]
pub struct Input<'a> {
    rest: &'a [u8],
    end: ReadError,
}

impl<'a> View for Input<'a> {
    type V = Stream;

    closed spec fn view(&self) -> Stream {
        Stream { bytes: self.rest@, end: self.end }
    }
}

impl<'a> Input<'a> {
    /// An input that holds `data` and then ends.
    pub fn new(data: &'a [u8]) -> (input: Input<'a>)
        ensures
            input@ == Stream::of_bytes(data@),
    {
        Input { rest: data, end: ReadError::UnexpectedEOF }
    }

    /// An input whose source handed out `data` and then failed with `end`.
    pub fn broken(data: &'a [u8], end: ReadError) -> (input: Input<'a>)
        ensures
            input@ == (Stream { bytes: data@, end }),
    {
        Input { rest: data, end }
    }

    /// The bytes not yet read.
    pub fn remaining(&self) -> (rest: &'a [u8])
        ensures
            rest@ == self@.bytes,
    {
        self.rest
    }

    /// The failure that a read past the last byte meets.
    pub fn end(&self) -> (end: ReadError)
        ensures
            end == self@.end,
    {
        self.end
    }

    /// Reads one byte.
    pub fn next_byte(&mut self) -> (res: Result<u8, ReadError>)
        ensures
            final(self)@.end == old(self)@.end,
            old(self)@.bytes.len() > 0 ==> res == Ok::<u8, ReadError>(old(self)@.bytes[0])
                && final(self)@ == old(self)@.skip(1),
            old(self)@.bytes.len() == 0 ==> res == Err::<u8, ReadError>(old(self)@.end)
                && final(self)@ == old(self)@,
    {
        let len: usize = self.rest.len();
        if len == 0 {
            Err(self.end)
        } else {
            let byte: u8 = self.rest[0];
            self.rest = slice_subrange(self.rest, 1, len);
            assert(self.rest@ =~= old(self)@.bytes.skip(1));
            Ok(byte)
        }
    }

    /// Reads exactly `n` bytes, or uses up the input and fails.
    pub fn take(&mut self, n: usize) -> (res: Result<&'a [u8], ReadError>)
        ensures
            final(self)@ == old(self)@.take(n as nat).1,
            match res {
                Ok(bytes) => old(self)@.take(n as nat).0 == Ok::<Seq<u8>, ReadError>(bytes@),
                Err(err) => old(self)@.take(n as nat).0 == Err::<Seq<u8>, ReadError>(err),
            },
    {
        let len: usize = self.rest.len();
        if n <= len {
            let head: &'a [u8] = slice_subrange(self.rest, 0, n);
            self.rest = slice_subrange(self.rest, n, len);
            assert(self.rest@ =~= old(self)@.bytes.skip(n as int));
            assert(head@ =~= old(self)@.bytes.take(n as int));
            Ok(head)
        } else {
            self.rest = slice_subrange(self.rest, len, len);
            assert(self.rest@ =~= Seq::<u8>::empty());
            Err(self.end)
        }
    }

    /// Reads up to `n` bytes: as many as the input still holds.
    pub fn take_up_to(&mut self, n: usize) -> (bytes: &'a [u8])
        ensures
            bytes@.len() == if n <= old(self)@.bytes.len() { n as int } else { old(self)@.bytes.len() as int },
            bytes@ == old(self)@.bytes.take(bytes@.len() as int),
            final(self)@ == old(self)@.skip(bytes@.len() as int),
    {
        let len: usize = self.rest.len();
        let count: usize = if n <= len { n } else { len };
        let head: &'a [u8] = slice_subrange(self.rest, 0, count);
        self.rest = slice_subrange(self.rest, count, len);
        assert(self.rest@ =~= old(self)@.bytes.skip(count as int));
        assert(head@ =~= old(self)@.bytes.take(count as int));
        head
    }
}

} // verus!
