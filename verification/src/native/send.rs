//! Failures of the sending half of a stream.

use crate::error_space::app_of;
use crate::generic::ErrorCode;
use crate::native::code::from_varint;
use crate::native::host;
use crate::native::host::VarInt;
use crate::native::session::SessionError;
use vstd::prelude::*;
use vstd::std_specs::convert::FromSpecImpl;

verus! {

/// A failed write to a stream.
#[derive(Clone, Debug, PartialEq, Eq)]
pub enum WriteError {
    /// The peer stopped the stream, with this application error code.
    Stopped(u32),
    /// The peer stopped the stream, with a code that is no WebTransport code.
    InvalidStopped(VarInt),
    /// The session is gone.
    SessionError(SessionError),
    /// The stream was closed before.
    Closed,
}

impl WriteError {
    /// The error of this crate that stands for a failed write of the host.
    pub open spec fn of_host(e: host::WriteError) -> WriteError {
        match e {
            host::WriteError::Stopped(code) => match app_of(code.value() as int) {
                Some(code) => WriteError::Stopped(code),
                None => WriteError::InvalidStopped(code),
            },
            host::WriteError::UnknownStream => WriteError::Closed,
            host::WriteError::ConnectionLost(e) => WriteError::SessionError(
                SessionError::ConnectionError(e),
            ),
        }
    }

    /// The application error code that the failure carries: the peer's stop
    /// code, or the code with which the session was closed.
    pub open spec fn spec_code(self) -> Option<u32> {
        match self {
            WriteError::Stopped(code) => Some(code),
            WriteError::SessionError(e) => e.spec_code(),
            _ => None,
        }
    }
}

impl From<SessionError> for WriteError {
    /// The loss of the session fails every write on it.
    fn from(e: SessionError) -> (converted: WriteError) {
        WriteError::SessionError(e)
    }
}

impl FromSpecImpl<SessionError> for WriteError {
    open spec fn obeys_from_spec() -> bool {
        true
    }

    open spec fn from_spec(e: SessionError) -> WriteError {
        WriteError::SessionError(e)
    }
}

impl From<host::WriteError> for WriteError {
    /// A stop becomes [`WriteError::Stopped`] with the decoded code, or
    /// [`WriteError::InvalidStopped`] where the code does not decode; a lost
    /// connection becomes a session error; an unknown stream is a closed one.
    fn from(e: host::WriteError) -> (converted: WriteError) {
        match e {
            host::WriteError::Stopped(code) => match from_varint(code) {
                Some(code) => WriteError::Stopped(code),
                None => WriteError::InvalidStopped(code),
            },
            host::WriteError::UnknownStream => WriteError::Closed,
            host::WriteError::ConnectionLost(e) => WriteError::SessionError(SessionError::from(e)),
        }
    }
}

impl FromSpecImpl<host::WriteError> for WriteError {
    open spec fn obeys_from_spec() -> bool {
        true
    }

    open spec fn from_spec(e: host::WriteError) -> WriteError {
        WriteError::of_host(e)
    }
}

impl ErrorCode for WriteError {
    fn code(&self) -> (code: Option<u32>)
        ensures
            code == self.spec_code(),
    {
        match self {
            WriteError::Stopped(code) => Some(*code),
            WriteError::SessionError(e) => e.code(),
            _ => None,
        }
    }
}

/// The stream was closed before.
#[derive(Clone, Copy, Debug, PartialEq, Eq)]
pub struct StreamClosed;

impl From<host::UnknownStream> for StreamClosed {
    fn from(e: host::UnknownStream) -> (converted: StreamClosed) {
        StreamClosed
    }
}

impl FromSpecImpl<host::UnknownStream> for StreamClosed {
    open spec fn obeys_from_spec() -> bool {
        true
    }

    open spec fn from_spec(e: host::UnknownStream) -> StreamClosed {
        StreamClosed
    }
}

/// A failed wait for the peer to stop a stream.
#[derive(Clone, Debug, PartialEq, Eq)]
pub enum StoppedError {
    /// The session is gone.
    SessionError(SessionError),
    /// The stream was closed before.
    Closed,
}

impl StoppedError {
    /// The error of this crate that stands for a failed wait of the host.
    pub open spec fn of_host(e: host::StoppedError) -> StoppedError {
        match e {
            host::StoppedError::ConnectionLost(e) => StoppedError::SessionError(
                SessionError::ConnectionError(e),
            ),
            host::StoppedError::UnknownStream => StoppedError::Closed,
        }
    }
}

impl From<SessionError> for StoppedError {
    /// The loss of the session fails the wait.
    fn from(e: SessionError) -> (converted: StoppedError) {
        StoppedError::SessionError(e)
    }
}

impl FromSpecImpl<SessionError> for StoppedError {
    open spec fn obeys_from_spec() -> bool {
        true
    }

    open spec fn from_spec(e: SessionError) -> StoppedError {
        StoppedError::SessionError(e)
    }
}

impl From<host::StoppedError> for StoppedError {
    fn from(e: host::StoppedError) -> (converted: StoppedError) {
        match e {
            host::StoppedError::ConnectionLost(e) => StoppedError::SessionError(
                SessionError::from(e),
            ),
            host::StoppedError::UnknownStream => StoppedError::Closed,
        }
    }
}

impl FromSpecImpl<host::StoppedError> for StoppedError {
    open spec fn obeys_from_spec() -> bool {
        true
    }

    open spec fn from_spec(e: host::StoppedError) -> StoppedError {
        StoppedError::of_host(e)
    }
}

/// What the wait for the peer's stop yields: the application error code with
/// which the peer stopped the stream, `None` where its code is no WebTransport
/// code, or the failure of the wait.
pub fn stopped_outcome(waited: Result<VarInt, host::StoppedError>) -> (outcome: Result<
    Option<u32>,
    StoppedError,
>)
    ensures
        outcome == match waited {
            Ok(code) => Ok::<Option<u32>, StoppedError>(app_of(code.value() as int)),
            Err(e) => Err(StoppedError::of_host(e)),
        },
{
    match waited {
        Ok(code) => Ok(from_varint(code)),
        Err(e) => Err(StoppedError::from(e)),
    }
}

/// What a writer learns when it resets the stream or sets its priority: the
/// host knows the stream or it was closed before.
pub fn close_outcome(done: Result<(), StreamClosed>) -> (outcome: Result<(), WriteError>)
    ensures
        outcome == match done {
            Ok(()) => Ok::<(), WriteError>(()),
            Err(_) => Err(WriteError::Closed),
        },
{
    match done {
        Ok(()) => Ok(()),
        Err(_) => Err(WriteError::Closed),
    }
}

} // verus!
