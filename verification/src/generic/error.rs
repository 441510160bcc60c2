//! Error codes carried by transport failures.

use vstd::prelude::*;

verus! {

/// A failure of the transport layer that may carry an application error code.
pub trait ErrorCode {
    /// The application error code that came with the failure, if the peer sent
    /// one and it is a valid WebTransport code.
    fn code(&self) -> Option<u32>;
}

} // verus!
