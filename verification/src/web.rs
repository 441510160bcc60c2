//! The rules of a backend that runs on a browser's WebTransport.
//!
//! The browser performs the I/O and embeds error codes itself. What is left to
//! this crate is the buffer between the browser's chunks and a reader that
//! asks for fewer bytes, the error value, and what the end of the incoming
//! streams means to an accept.

pub mod error;
pub mod recv;
pub mod session;

pub use error::WebError;
pub use recv::RecvStream;
