//! The rules of a backend that runs over a QUIC library.
//!
//! The QUIC library performs the I/O. This module decides what its outcomes
//! mean: which HTTP/3 code to send for an application code, and which error of
//! this crate stands for a failure that the library reports. [`host`] holds the
//! library's values in plain form.

pub mod code;
pub mod host;
pub mod recv;
pub mod send;
pub mod session;

pub use recv::{ReadError, ReadExactError, ReadToEndError};
pub use send::{StoppedError, StreamClosed, WriteError};
pub use session::SessionError;
