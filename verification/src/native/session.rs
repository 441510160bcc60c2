//! The failure of a whole session.

use crate::error_space::app_of;
use crate::generic::ErrorCode;
use crate::native::code::from_varint;
use crate::native::host::ConnectionError;
use vstd::prelude::*;
use vstd::std_specs::convert::FromSpecImpl;

verus! {

/// The session is gone, and every stream on it with it.
#[derive(Clone, Debug, PartialEq, Eq)]
pub enum SessionError {
    /// The connection under the session was lost.
    ConnectionError(ConnectionError),
}

impl SessionError {
    /// The application error code with which the peer closed the session, if
    /// it closed it with a valid one.
    pub open spec fn spec_code(self) -> Option<u32> {
        match self {
            SessionError::ConnectionError(ConnectionError::ApplicationClosed { error_code, .. }) =>
                app_of(error_code.value() as int),
            _ => None,
        }
    }
}

impl From<ConnectionError> for SessionError {
    fn from(e: ConnectionError) -> (converted: SessionError) {
        SessionError::ConnectionError(e)
    }
}

impl FromSpecImpl<ConnectionError> for SessionError {
    open spec fn obeys_from_spec() -> bool {
        true
    }

    open spec fn from_spec(e: ConnectionError) -> SessionError {
        SessionError::ConnectionError(e)
    }
}

impl ErrorCode for SessionError {
    /// The code is the one that the peer's application gave when it closed the
    /// session, decoded; any other loss of the connection carries none.
    fn code(&self) -> (code: Option<u32>)
        ensures
            code == self.spec_code(),
    {
        match self {
            SessionError::ConnectionError(ConnectionError::ApplicationClosed { error_code, .. }) =>
                from_varint(*error_code),
            _ => None,
        }
    }
}

} // verus!
