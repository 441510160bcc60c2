//! The capabilities that every transport backend offers.

pub mod error;
pub mod recv;
pub mod send;
pub mod session;

pub use error::ErrorCode;
pub use recv::{read_exact_step, read_progress, ReadFullError, RecvStream};
pub use send::{write_all_step, write_progress, SendStream};
pub use session::Session;
