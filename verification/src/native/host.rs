//! The values that the QUIC library hands to this crate, in plain form.
//!
//! Each type mirrors one of the library's: the same variants, with integers,
//! strings and byte vectors in place of the library's own wrappers. A session
//! of this crate never offers 0-RTT data, so the library's "0-RTT rejected"
//! outcomes have no counterpart here.

use vstd::prelude::*;

verus! {

/// The first value that is too large for a QUIC variable-length integer.
pub const VARINT_LIMIT: u64 = 0x4000_0000_0000_0000;

/// A QUIC variable-length integer: an unsigned number below 2^62.
#[derive(Clone, Copy, Debug, PartialEq, Eq)]
pub struct VarInt {
    inner: u64,
}

impl VarInt {
    #[verifier::type_invariant]
    spec fn in_range(self) -> bool {
        self.inner < VARINT_LIMIT
    }

    /// The number that this integer holds.
    pub closed spec fn value(self) -> u64 {
        self.inner
    }

    /// Two `VarInt`s that hold the same number are the same.
    pub proof fn lemma_value_determines(a: VarInt, b: VarInt)
        ensures
            a.value() == b.value() ==> a == b,
    {
    }

    /// Makes a `VarInt` of `x`; succeeds exactly when `x` is below 2^62.
    pub fn from_u64(x: u64) -> (made: Option<VarInt>)
        ensures
            made is Some <==> x < VARINT_LIMIT,
            made is Some ==> made->0.value() == x,
    {
        if x < VARINT_LIMIT {
            Some(VarInt { inner: x })
        } else {
            None
        }
    }

    /// Makes a `VarInt` of any 32-bit number.
    pub fn from_u32(x: u32) -> (made: VarInt)
        ensures
            made.value() == x,
    {
        VarInt { inner: x as u64 }
    }

    /// The number that this integer holds.
    pub fn into_inner(self) -> (x: u64)
        ensures
            x == self.value(),
            x < VARINT_LIMIT,
    {
        proof {
            use_type_invariant(self);
        }
        self.inner
    }
}

/// Why the connection under a session was lost.
#[derive(Clone, Debug, PartialEq, Eq)]
pub enum ConnectionError {
    /// The peer implements no supported version.
    VersionMismatch,
    /// The peer violated the QUIC specification.
    TransportError { code: u64, reason: String },
    /// The peer's QUIC stack aborted the connection.
    ConnectionClosed { error_code: u64, reason: Vec<u8> },
    /// The peer's application closed the connection, with an HTTP/3 code.
    ApplicationClosed { error_code: VarInt, reason: Vec<u8> },
    /// The peer can no longer continue the connection.
    Reset,
    /// The peer was silent for longer than the idle timeout.
    TimedOut,
    /// The local application closed the connection.
    LocallyClosed,
}

/// The stream was finished, reset or stopped before, or never existed.
#[derive(Clone, Copy, Debug, PartialEq, Eq)]
pub struct UnknownStream;

/// A failed read.
#[derive(Clone, Debug, PartialEq, Eq)]
pub enum ReadError {
    /// The peer abandoned the stream, with an HTTP/3 code.
    Reset(VarInt),
    /// The connection was lost.
    ConnectionLost(ConnectionError),
    /// The stream was closed before, or never existed.
    UnknownStream,
    /// An ordered read followed an unordered one.
    IllegalOrderedRead,
}

/// A failed attempt to fill a buffer.
#[derive(Clone, Debug, PartialEq, Eq)]
pub enum ReadExactError {
    /// The stream finished before the buffer was full.
    FinishedEarly,
    /// A read failed.
    ReadError(ReadError),
}

/// A failed attempt to read a stream to its end.
#[derive(Clone, Debug, PartialEq, Eq)]
pub enum ReadToEndError {
    /// A read failed.
    Read(ReadError),
    /// The stream is longer than the limit given.
    TooLong,
}

/// A failed write.
#[derive(Clone, Debug, PartialEq, Eq)]
pub enum WriteError {
    /// The peer no longer accepts data on the stream, with an HTTP/3 code.
    Stopped(VarInt),
    /// The connection was lost.
    ConnectionLost(ConnectionError),
    /// The stream was closed before, or never existed.
    UnknownStream,
}

/// A failed wait for the peer to stop a stream.
#[derive(Clone, Debug, PartialEq, Eq)]
pub enum StoppedError {
    /// The connection was lost.
    ConnectionLost(ConnectionError),
    /// The stream was closed before, or never existed.
    UnknownStream,
}

} // verus!
