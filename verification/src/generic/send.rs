//! The sending half of a stream.

use crate::buffer::bytes_view;
use bytes::Bytes;
use vstd::prelude::*;

verus! {

/// What one write means to a caller that still has `missing` bytes to send:
/// the number still to send afterwards, or the backend's error.
pub open spec fn after_write<E>(missing: usize, outcome: Result<usize, E>) -> Result<usize, E> {
    match outcome {
        Ok(n) => Ok((missing - n) as usize),
        Err(e) => Err(e),
    }
}

/// Decides how a caller that still has `missing` bytes to send goes on after
/// one write: with fewer bytes to send after a write that the stream accepted,
/// and with the backend's own error, unchanged, after a failure.
pub fn write_all_step<E>(missing: usize, outcome: Result<usize, E>) -> (next: Result<usize, E>)
    requires
        outcome matches Ok(n) ==> n <= missing,
    ensures
        next == after_write(missing, outcome),
{
    match outcome {
        Ok(n) => Ok(missing - n),
        Err(e) => Err(e),
    }
}

/// What a write took from a writer that had `missing` bytes to send before it
/// and has `left` after it: the number of bytes, none where nothing left the
/// buffer.
pub fn write_progress(missing: usize, left: usize) -> (taken: usize)
    ensures
        taken == if left >= missing {
            0
        } else {
            missing - left
        },
        taken <= missing,
{
    if left >= missing {
        0
    } else {
        missing - left
    }
}

/// The "send" actions of one stream.
///
/// The bytes to send stand in a `Bytes`; what the stream accepts leaves it from
/// the front.
pub trait SendStream {
    /// The failure that a backend reports.
    type Error;

    /// Every byte that the stream has accepted so far, in order.
    spec fn sent(&self) -> Seq<u8>;

    /// The error of the last write that failed, if one did.
    spec fn failure(&self) -> Option<Self::Error>;

    /// The stream's priority among the streams of its session: `0` on a new
    /// stream, then the value that was set last.
    spec fn order(&self) -> i32;

    /// The application error code with which the stream was abandoned last,
    /// once it was.
    spec fn reset_code(&self) -> Option<u32>;

    /// The stream's place among the streams that its session opened, or
    /// accepted, in the same way: `0` for the first.
    spec fn place(&self) -> nat;

    /// Hands the stream as many leading bytes of `buf` as it will take now,
    /// removes them from `buf` and returns their number: at least one where
    /// `buf` holds any. After a failure `buf` is as it was, and the stream has
    /// accepted nothing more. A stream that was abandoned accepts nothing.
    fn write(&mut self, buf: &mut Bytes) -> (outcome: Result<usize, Self::Error>)
        ensures
            old(self).reset_code() is Some ==> outcome is Err,
            final(self).order() == old(self).order(),
            final(self).reset_code() == old(self).reset_code(),
            final(self).place() == old(self).place(),
            match outcome {
                Ok(n) => {
                    &&& n <= bytes_view(*old(buf)).len()
                    &&& bytes_view(*old(buf)).len() > 0 ==> n >= 1
                    &&& bytes_view(*final(buf)) == bytes_view(*old(buf)).skip(n as int)
                    &&& final(self).sent() == old(self).sent() + bytes_view(*old(buf)).take(
                        n as int,
                    )
                    &&& final(self).failure() == old(self).failure()
                },
                Err(e) => {
                    &&& bytes_view(*final(buf)) == bytes_view(*old(buf))
                    &&& final(self).sent() == old(self).sent()
                    &&& final(self).failure() == Some(e)
                },
            },
    ;

    /// Keeps writing until the stream has accepted all of `buf`.
    ///
    /// The stream accepts the bytes of `buf` in their order, none skipped and
    /// none twice. The first write that fails ends the call, with its error;
    /// `buf` then holds exactly the bytes that the stream has not accepted. On
    /// a stream that was abandoned that is all of them.
    fn write_all(&mut self, buf: &mut Bytes) -> (outcome: Result<(), Self::Error>)
        ensures
            old(self).reset_code() is Some && bytes_view(*old(buf)).len() > 0 ==> outcome is Err
                && bytes_view(*final(buf)) == bytes_view(*old(buf)),
            final(self).order() == old(self).order(),
            final(self).reset_code() == old(self).reset_code(),
            final(self).place() == old(self).place(),
            match outcome {
                Ok(()) => {
                    &&& bytes_view(*final(buf)).len() == 0
                    &&& final(self).sent() == old(self).sent() + bytes_view(*old(buf))
                    &&& final(self).failure() == old(self).failure()
                },
                Err(e) => {
                    &&& bytes_view(*final(buf)).len() > 0
                    &&& final(self).failure() == Some(e)
                },
            },
            final(self).sent() + bytes_view(*final(buf)) == old(self).sent() + bytes_view(
                *old(buf),
            ),
            exists|n: int|
                {
                    &&& 0 <= n <= bytes_view(*old(buf)).len()
                    &&& bytes_view(*final(buf)) == #[trigger] bytes_view(*old(buf)).skip(n)
                    &&& final(self).sent() == old(self).sent() + bytes_view(*old(buf)).take(n)
                },
    {
        let ghost mut gone: int = 0;
        let mut missing: usize = buf.len();
        while missing > 0
            invariant
                0 <= gone <= bytes_view(*old(buf)).len(),
                missing == bytes_view(*buf).len(),
                bytes_view(*buf) == bytes_view(*old(buf)).skip(gone),
                self.sent() == old(self).sent() + bytes_view(*old(buf)).take(gone),
                self.failure() == old(self).failure(),
                self.order() == old(self).order(),
                self.reset_code() == old(self).reset_code(),
                self.place() == old(self).place(),
                self.reset_code() is Some ==> gone == 0,
            decreases missing,
        {
            let outcome = self.write(buf);
            proof {
                if let Ok(n) = outcome {
                    gone = gone + n;
                }
            }
            match write_all_step(missing, outcome) {
                Ok(rest) => {
                    missing = rest;
                },
                Err(e) => {
                    return Err(e);
                },
            }
        }
        Ok(())
    }

    /// Abandons the stream, with the given application error code for the
    /// peer's reader. Later writes fail.
    ///
    /// A stream that is discarded without this call ends cleanly; where the
    /// peer sees an abrupt end all the same, its code is `0`.
    fn close(&mut self, code: u32) -> (outcome: Result<(), Self::Error>)
        ensures
            final(self).reset_code() == match outcome {
                Ok(()) => Some(code),
                Err(_) => old(self).reset_code(),
            },
            final(self).sent() == old(self).sent(),
            final(self).order() == old(self).order(),
            final(self).place() == old(self).place(),
    ;

    /// Sets the stream's priority among the streams of its session. Of the
    /// streams with data to send, the one with the highest priority goes
    /// first; a stream starts at priority `0`.
    fn priority(&mut self, order: i32) -> (outcome: Result<(), Self::Error>)
        ensures
            final(self).order() == match outcome {
                Ok(()) => order,
                Err(_) => old(self).order(),
            },
            final(self).sent() == old(self).sent(),
            final(self).reset_code() == old(self).reset_code(),
            final(self).place() == old(self).place(),
    ;
}

} // verus!
