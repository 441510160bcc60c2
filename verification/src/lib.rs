//! Transport-agnostic WebTransport sessions.
//!
//! The crate has four parts:
//!
//! * [`error_space`]: the embedding of 32-bit application error codes into the
//!   error-code space that HTTP/3 reserves for WebTransport, and its inverse.
//! * [`generic`]: the capabilities every backend offers (`Session`,
//!   `SendStream`, `RecvStream`, `ErrorCode`) and the helpers built on them.
//! * [`native`]: the rules by which a QUIC backend's failures and codes become
//!   the errors of this crate, over plain copies of the QUIC library's values.
//! * [`web`]: the rules a browser backend follows: chunk buffering and its
//!   error value.
//!
//! [`buffer`] holds what is assumed of `bytes::Bytes`.

pub mod buffer;
pub mod error_space;
pub mod generic;
pub mod native;
pub mod web;
