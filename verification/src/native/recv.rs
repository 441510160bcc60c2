//! Failures of the receiving half of a stream.

use crate::buffer::bytes_view;
use crate::error_space::app_of;
use crate::generic::ErrorCode;
use crate::native::code::from_varint;
use crate::native::host;
use crate::native::host::VarInt;
use crate::native::session::SessionError;
use bytes::Bytes;
use vstd::prelude::*;
use vstd::std_specs::convert::FromSpecImpl;

verus! {

/// A failed read from a stream.
#[derive(Clone, Debug, PartialEq, Eq)]
pub enum ReadError {
    /// The session is gone.
    SessionError(SessionError),
    /// The peer reset the stream, with this application error code.
    Reset(u32),
    /// The peer reset the stream, with a code that is no WebTransport code.
    InvalidReset(VarInt),
    /// The stream was closed before.
    Closed,
    /// An ordered read was asked of a stream that had been read out of order.
    IllegalOrderedRead,
}

impl ReadError {
    /// The error of this crate that stands for a failed read of the host.
    pub open spec fn of_host(value: host::ReadError) -> ReadError {
        match value {
            host::ReadError::Reset(code) => match app_of(code.value() as int) {
                Some(code) => ReadError::Reset(code),
                None => ReadError::InvalidReset(code),
            },
            host::ReadError::ConnectionLost(e) => ReadError::SessionError(
                SessionError::ConnectionError(e),
            ),
            host::ReadError::IllegalOrderedRead => ReadError::IllegalOrderedRead,
            host::ReadError::UnknownStream => ReadError::Closed,
        }
    }

    /// The application error code that the failure carries: the peer's reset
    /// code, or the code with which the session was closed.
    pub open spec fn spec_code(self) -> Option<u32> {
        match self {
            ReadError::Reset(code) => Some(code),
            ReadError::SessionError(e) => e.spec_code(),
            _ => None,
        }
    }
}

impl From<SessionError> for ReadError {
    /// The loss of the session fails every read on it.
    fn from(e: SessionError) -> (converted: ReadError) {
        ReadError::SessionError(e)
    }
}

impl FromSpecImpl<SessionError> for ReadError {
    open spec fn obeys_from_spec() -> bool {
        true
    }

    open spec fn from_spec(e: SessionError) -> ReadError {
        ReadError::SessionError(e)
    }
}

impl From<host::ReadError> for ReadError {
    /// A reset becomes [`ReadError::Reset`] with the decoded code, or
    /// [`ReadError::InvalidReset`] where the code does not decode; a lost
    /// connection becomes a session error; an unknown stream is a closed one.
    fn from(value: host::ReadError) -> (converted: ReadError) {
        match value {
            host::ReadError::Reset(code) => match from_varint(code) {
                Some(code) => ReadError::Reset(code),
                None => ReadError::InvalidReset(code),
            },
            host::ReadError::ConnectionLost(e) => ReadError::SessionError(SessionError::from(e)),
            host::ReadError::IllegalOrderedRead => ReadError::IllegalOrderedRead,
            host::ReadError::UnknownStream => ReadError::Closed,
        }
    }
}

impl FromSpecImpl<host::ReadError> for ReadError {
    open spec fn obeys_from_spec() -> bool {
        true
    }

    open spec fn from_spec(value: host::ReadError) -> ReadError {
        ReadError::of_host(value)
    }
}

impl ErrorCode for ReadError {
    fn code(&self) -> (code: Option<u32>)
        ensures
            code == self.spec_code(),
    {
        match self {
            ReadError::Reset(code) => Some(*code),
            ReadError::SessionError(e) => e.code(),
            _ => None,
        }
    }
}

/// A failed attempt to fill a buffer from a stream.
#[derive(Clone, Debug, PartialEq, Eq)]
pub enum ReadExactError {
    /// The stream finished before the buffer was full.
    FinishedEarly,
    /// A read failed.
    ReadError(ReadError),
}

impl From<ReadError> for ReadExactError {
    /// A failed read fails the filling of the buffer.
    fn from(e: ReadError) -> (converted: ReadExactError) {
        ReadExactError::ReadError(e)
    }
}

impl FromSpecImpl<ReadError> for ReadExactError {
    open spec fn obeys_from_spec() -> bool {
        true
    }

    open spec fn from_spec(e: ReadError) -> ReadExactError {
        ReadExactError::ReadError(e)
    }
}

impl From<host::ReadExactError> for ReadExactError {
    fn from(e: host::ReadExactError) -> (converted: ReadExactError) {
        match e {
            host::ReadExactError::FinishedEarly => ReadExactError::FinishedEarly,
            host::ReadExactError::ReadError(e) => ReadExactError::ReadError(ReadError::from(e)),
        }
    }
}

impl FromSpecImpl<host::ReadExactError> for ReadExactError {
    open spec fn obeys_from_spec() -> bool {
        true
    }

    open spec fn from_spec(e: host::ReadExactError) -> ReadExactError {
        match e {
            host::ReadExactError::FinishedEarly => ReadExactError::FinishedEarly,
            host::ReadExactError::ReadError(e) => ReadExactError::ReadError(ReadError::of_host(e)),
        }
    }
}

/// A failed attempt to read a stream to its end.
#[derive(Clone, Debug, PartialEq, Eq)]
pub enum ReadToEndError {
    /// The stream is longer than the limit given.
    TooLong,
    /// A read failed.
    ReadError(ReadError),
}

impl From<ReadError> for ReadToEndError {
    /// A failed read fails the reading to the end.
    fn from(e: ReadError) -> (converted: ReadToEndError) {
        ReadToEndError::ReadError(e)
    }
}

impl FromSpecImpl<ReadError> for ReadToEndError {
    open spec fn obeys_from_spec() -> bool {
        true
    }

    open spec fn from_spec(e: ReadError) -> ReadToEndError {
        ReadToEndError::ReadError(e)
    }
}

impl From<host::ReadToEndError> for ReadToEndError {
    fn from(e: host::ReadToEndError) -> (converted: ReadToEndError) {
        match e {
            host::ReadToEndError::TooLong => ReadToEndError::TooLong,
            host::ReadToEndError::Read(e) => ReadToEndError::ReadError(ReadError::from(e)),
        }
    }
}

impl FromSpecImpl<host::ReadToEndError> for ReadToEndError {
    open spec fn obeys_from_spec() -> bool {
        true
    }

    open spec fn from_spec(e: host::ReadToEndError) -> ReadToEndError {
        match e {
            host::ReadToEndError::TooLong => ReadToEndError::TooLong,
            host::ReadToEndError::Read(e) => ReadToEndError::ReadError(ReadError::of_host(e)),
        }
    }
}

/// How a reader that has room for `space` more bytes goes on after one read of
/// the host: with the room that is left after a read that delivered bytes, or
/// not at all once the stream has ended.
///
/// The host never reports a read of no bytes, and never more than it was given
/// room for.
pub fn fill_step(space: usize, outcome: Option<usize>) -> (next: Option<usize>)
    requires
        outcome matches Some(n) ==> 1 <= n <= space,
    ensures
        next == match outcome {
            Some(n) => Some((space - n) as usize),
            None => None,
        },
        next matches Some(rest) ==> rest < space,
{
    match outcome {
        Some(n) => Some(space - n),
        None => None,
    }
}

/// The bytes of a chunk that the host delivered, where the end of the stream
/// counts as a chunk without bytes.
pub fn chunk_or_empty(chunk: Option<Bytes>) -> (bytes: Bytes)
    ensures
        bytes_view(bytes) == match chunk {
            Some(chunk) => bytes_view(chunk),
            None => Seq::<u8>::empty(),
        },
{
    match chunk {
        Some(chunk) => chunk,
        None => Bytes::new(),
    }
}

/// What a reader learns when it asks the peer to stop sending: the host knows
/// the stream or it was closed before.
pub fn close_outcome(stopped: Result<(), host::UnknownStream>) -> (outcome: Result<(), ReadError>)
    ensures
        outcome == match stopped {
            Ok(()) => Ok::<(), ReadError>(()),
            Err(_) => Err(ReadError::Closed),
        },
{
    match stopped {
        Ok(()) => Ok(()),
        Err(_) => Err(ReadError::Closed),
    }
}

} // verus!
