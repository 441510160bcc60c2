//! The receiving half of a stream.

use crate::buffer::bytes_view;
use bytes::Bytes;
use vstd::prelude::*;
use vstd::std_specs::convert::FromSpecImpl;

verus! {

/// Why [`RecvStream::read_exact`] could not fill the buffer.
#[derive(Debug)]
pub enum ReadFullError<T> {
    /// The stream ended before the buffer was full.
    UnexpectedEnd,
    /// A read failed; the backend's error is passed on unchanged.
    ReadError(T),
}

impl<T> From<T> for ReadFullError<T> {
    /// A backend's error stands for a failed read.
    fn from(e: T) -> (converted: ReadFullError<T>) {
        ReadFullError::ReadError(e)
    }
}

impl<T> FromSpecImpl<T> for ReadFullError<T> {
    open spec fn obeys_from_spec() -> bool {
        true
    }

    open spec fn from_spec(e: T) -> ReadFullError<T> {
        ReadFullError::ReadError(e)
    }
}

/// What one read means to a caller that still misses `missing` bytes: the
/// number still missing afterwards, or the reason to give up.
pub open spec fn after_read<E>(missing: usize, outcome: Result<Option<usize>, E>) -> Result<
    usize,
    ReadFullError<E>,
> {
    match outcome {
        Ok(Some(n)) => Ok((missing - n) as usize),
        Ok(None) => Err(ReadFullError::UnexpectedEnd),
        Err(e) => Err(ReadFullError::ReadError(e)),
    }
}

/// Decides how a caller that still misses `missing` bytes goes on after one
/// read: with fewer bytes missing after a read that delivered some, with
/// [`ReadFullError::UnexpectedEnd`] after the end of the stream, and with the
/// backend's own error after a failure.
pub fn read_exact_step<E>(missing: usize, outcome: Result<Option<usize>, E>) -> (next: Result<
    usize,
    ReadFullError<E>,
>)
    requires
        outcome matches Ok(Some(n)) ==> n <= missing,
    ensures
        next == after_read(missing, outcome),
{
    match outcome {
        Ok(Some(n)) => Ok(missing - n),
        Ok(None) => Err(ReadFullError::UnexpectedEnd),
        Err(e) => Err(ReadFullError::ReadError(e)),
    }
}

/// What a read delivered to a reader that missed `missing` bytes before it and
/// misses `left` after it: the number of bytes, or `None` where the read added
/// nothing, which is how a backend that reports no count shows the end of the
/// stream.
pub fn read_progress(missing: usize, left: usize) -> (delivered: Option<usize>)
    ensures
        delivered == if left >= missing {
            None
        } else {
            Some((missing - left) as usize)
        },
        delivered matches Some(n) ==> 1 <= n <= missing,
{
    if left >= missing {
        None
    } else {
        Some(missing - left)
    }
}

/// The "receive" actions of one stream.
pub trait RecvStream {
    /// The failure that a backend reports.
    type Error;

    /// Every byte that the stream has handed to its reader so far, in order.
    spec fn received(&self) -> Seq<u8>;

    /// Whether the stream has told its reader that no more data will come.
    spec fn ended(&self) -> bool;

    /// The error of the last read that failed, if one did.
    spec fn failure(&self) -> Option<Self::Error>;

    /// The stream's place among the streams that its session opened, or
    /// accepted, in the same way: `0` for the first.
    spec fn place(&self) -> nat;

    /// The application error code with which the peer was last told to stop
    /// sending, once it was.
    spec fn stop_code(&self) -> Option<u32>;

    /// Appends to `buf` the bytes that are available now, at most `max` of
    /// them, and returns their number: at least one where `max` is. Returns
    /// `None`, and leaves `buf` alone, once the stream has ended. After a
    /// failure `buf` is as it was.
    fn read(&mut self, buf: &mut Vec<u8>, max: usize) -> (outcome: Result<
        Option<usize>,
        Self::Error,
    >)
        ensures
            final(self).place() == old(self).place(),
            final(self).stop_code() == old(self).stop_code(),
            match outcome {
                Ok(Some(n)) => {
                    &&& n <= max
                    &&& max >= 1 ==> n >= 1
                    &&& final(buf)@.len() == old(buf)@.len() + n
                    &&& final(buf)@.subrange(0, old(buf)@.len() as int) == old(buf)@
                    &&& final(self).received() == old(self).received() + final(buf)@.subrange(
                        old(buf)@.len() as int,
                        final(buf)@.len() as int,
                    )
                    &&& final(self).ended() == old(self).ended()
                    &&& final(self).failure() == old(self).failure()
                },
                Ok(None) => {
                    &&& final(buf)@ == old(buf)@
                    &&& final(self).received() == old(self).received()
                    &&& final(self).ended()
                    &&& final(self).failure() == old(self).failure()
                },
                Err(e) => {
                    &&& final(buf)@ == old(buf)@
                    &&& final(self).received() == old(self).received()
                    &&& final(self).ended() == old(self).ended()
                    &&& final(self).failure() == Some(e)
                },
            },
    ;

    /// Takes the next run of bytes off the stream, at most `max` of them.
    ///
    /// The end of the stream shows as an empty result; a result with bytes
    /// never reports it. An empty result alone does not prove the end: a
    /// backend may hand on a run of no bytes that it was given.
    fn read_chunk(&mut self, max: usize) -> (outcome: Result<Bytes, Self::Error>)
        ensures
            final(self).place() == old(self).place(),
            final(self).stop_code() == old(self).stop_code(),
            match outcome {
                Ok(chunk) => {
                    &&& bytes_view(chunk).len() <= max
                    &&& final(self).received() == old(self).received() + bytes_view(chunk)
                    &&& final(self).failure() == old(self).failure()
                    &&& bytes_view(chunk).len() > 0 ==> final(self).ended() == old(self).ended()
                },
                Err(e) => {
                    &&& final(self).received() == old(self).received()
                    &&& final(self).failure() == Some(e)
                    &&& final(self).ended() == old(self).ended()
                },
            },
    ;

    /// Keeps reading until `len` more bytes stand at the end of `buf`.
    ///
    /// What is appended to `buf` is what the stream handed over, in its
    /// order. The call fails with [`ReadFullError::UnexpectedEnd`] when the
    /// stream ends first, and with the backend's error when a read fails; so
    /// where no read failed and fewer than `len` bytes arrived, the stream
    /// ended early. Either way `buf` keeps the bytes that arrived before.
    fn read_exact(&mut self, buf: &mut Vec<u8>, len: usize) -> (outcome: Result<
        (),
        ReadFullError<Self::Error>,
    >)
        ensures
            final(self).place() == old(self).place(),
            final(self).stop_code() == old(self).stop_code(),
            final(buf)@.len() >= old(buf)@.len(),
            final(buf)@.subrange(0, old(buf)@.len() as int) == old(buf)@,
            final(self).received() == old(self).received() + final(buf)@.subrange(
                old(buf)@.len() as int,
                final(buf)@.len() as int,
            ),
            match outcome {
                Ok(()) => {
                    &&& final(buf)@.len() == old(buf)@.len() + len
                    &&& final(self).ended() == old(self).ended()
                    &&& final(self).failure() == old(self).failure()
                },
                Err(ReadFullError::UnexpectedEnd) => {
                    &&& final(buf)@.len() < old(buf)@.len() + len
                    &&& final(self).ended()
                    &&& final(self).failure() == old(self).failure()
                },
                Err(ReadFullError::ReadError(e)) => {
                    &&& final(buf)@.len() < old(buf)@.len() + len
                    &&& final(self).ended() == old(self).ended()
                    &&& final(self).failure() == Some(e)
                },
            },
            final(self).failure() is None && final(buf)@.len() < old(buf)@.len() + len ==> outcome
                == Err::<(), ReadFullError<Self::Error>>(ReadFullError::UnexpectedEnd)
                && final(self).ended(),
    {
        let ghost start = buf@;
        let ghost taken = self.received();
        let mut missing: usize = len;
        while missing > 0
            invariant
                start == old(buf)@,
                taken == old(self).received(),
                missing <= len,
                buf@.len() == start.len() + (len - missing),
                buf@.subrange(0, start.len() as int) == start,
                self.received() == taken + buf@.subrange(start.len() as int, buf@.len() as int),
                self.ended() == old(self).ended(),
                self.failure() == old(self).failure(),
                self.place() == old(self).place(),
                self.stop_code() == old(self).stop_code(),
            decreases missing,
        {
            let outcome = self.read(buf, missing);
            match read_exact_step(missing, outcome) {
                Ok(rest) => {
                    missing = rest;
                },
                Err(e) => {
                    return Err(e);
                },
            }
        }
        Ok(())
    }

    /// Tells the peer to stop sending, with the given application error code.
    ///
    /// A stream that is discarded without this call reports code `0`.
    fn close(&mut self, code: u32) -> (outcome: Result<(), Self::Error>)
        ensures
            final(self).stop_code() == match outcome {
                Ok(()) => Some(code),
                Err(_) => old(self).stop_code(),
            },
            final(self).received() == old(self).received(),
            final(self).place() == old(self).place(),
    ;
}

} // verus!
