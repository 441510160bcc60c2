//! Application error codes on their way into and out of QUIC frames.

use crate::error_space::{app_of, error_from_http3, error_to_http3, http3_of};
use crate::error_space::ERROR_LAST;
use crate::native::host::VarInt;
use vstd::prelude::*;

verus! {

/// The integer that a QUIC frame carries for an application error code: the
/// code's place in the HTTP/3 error space. It is what goes out when a stream
/// is reset, when the peer is told to stop sending, and when the session is
/// closed. Every application code has one, since the whole reserved range lies
/// below 2^62.
pub fn to_varint(code: u32) -> (host: VarInt)
    ensures
        host.value() as int == http3_of(code as int),
        host.value() <= ERROR_LAST,
        app_of(host.value() as int) == Some(code),
{
    VarInt::from_u64(error_to_http3(code)).unwrap()
}

/// The application error code that the integer of a QUIC frame stands for, or
/// `None` where it is no WebTransport code at all.
pub fn from_varint(host: VarInt) -> (code: Option<u32>)
    ensures
        code == app_of(host.value() as int),
{
    error_from_http3(host.into_inner())
}

} // verus!
