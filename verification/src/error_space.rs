//! The WebTransport error-code space inside HTTP/3.
//!
//! An application error code is any `u32`. On the wire it travels as an HTTP/3
//! error code taken from a reserved range that starts at [`ERROR_FIRST`]. HTTP/3
//! keeps every code of the form `0x1f * n + 0x21` free for greasing, so the
//! range has a hole after every [`GREASE_PERIOD`] codes, and the embedding
//! steps over them.

use vstd::prelude::*;

verus! {

/// The HTTP/3 code that stands for application code `0`.
pub const ERROR_FIRST: u64 = 0x52e4_a40f_a8db;

/// The HTTP/3 code that stands for application code `u32::MAX`.
pub const ERROR_LAST: u64 = 0x52e5_ac98_3162;

/// The number of consecutive application codes between two grease slots.
pub const GREASE_PERIOD: u64 = 0x1e;

/// The distance from one grease slot to the next.
pub const GREASE_STRIDE: u64 = 0x1f;

/// The HTTP/3 code of an application code: the base, plus the code, plus one
/// skipped slot for every full period of codes below it.
pub open spec fn http3_of(code: int) -> int {
    ERROR_FIRST as int + code + code / (GREASE_PERIOD as int)
}

/// Whether `host` lies at or above the base on a slot left free for greasing.
pub open spec fn is_grease(host: int) -> bool {
    host >= ERROR_FIRST as int && (host - ERROR_FIRST as int) % (GREASE_STRIDE as int)
        == GREASE_PERIOD as int
}

/// The application code of an HTTP/3 code, where it has one: none below the
/// base, none on a grease slot, none past the code of `u32::MAX`.
pub open spec fn app_of(host: int) -> Option<u32> {
    let delta = host - ERROR_FIRST as int;
    let code = delta - delta / (GREASE_STRIDE as int);
    if delta < 0 || delta % (GREASE_STRIDE as int) == GREASE_PERIOD as int || code > u32::MAX as int {
        None
    } else {
        Some(code as u32)
    }
}

/// Embeds an application error code into the HTTP/3 error space.
pub fn error_to_http3(code: u32) -> (host: u64)
    ensures
        host as int == http3_of(code as int),
        ERROR_FIRST <= host <= ERROR_LAST,
        !is_grease(host as int),
        app_of(host as int) == Some(code),
{
    let wide: u64 = code as u64;
    ERROR_FIRST + wide + wide / GREASE_PERIOD
}

/// Recovers the application error code from an HTTP/3 error code.
///
/// Returns `None` for every value that is not the image of an application
/// code: anything below the base, any grease slot, anything past the last code.
pub fn error_from_http3(host: u64) -> (code: Option<u32>)
    ensures
        code == app_of(host as int),
        host < ERROR_FIRST ==> code is None,
        is_grease(host as int) ==> code is None,
        host > ERROR_LAST ==> code is None,
        code is Some <==> ERROR_FIRST <= host <= ERROR_LAST && !is_grease(host as int),
        code is Some ==> http3_of(code->0 as int) == host as int,
{
    if host < ERROR_FIRST {
        return None;
    }
    let delta: u64 = host - ERROR_FIRST;
    if delta % GREASE_STRIDE == GREASE_PERIOD {
        return None;
    }
    let code: u64 = delta - delta / GREASE_STRIDE;
    if code > 0xffff_ffff {
        return None;
    }
    Some(code as u32)
}

/// Decoding undoes encoding: every application code comes back unchanged.
pub proof fn lemma_round_trip(code: u32)
    ensures
        app_of(http3_of(code as int)) == Some(code),
{
}

/// A host code decodes to `code` exactly when it is the encoding of `code`, so
/// no two application codes share a host code and no host code stands for two.
pub proof fn lemma_decode_is_inverse(host: u64, code: u32)
    ensures
        app_of(host as int) == Some(code) <==> host as int == http3_of(code as int),
{
}

/// Every grease slot decodes to no application code.
pub proof fn lemma_grease_has_no_code(host: u64)
    requires
        is_grease(host as int),
    ensures
        app_of(host as int) is None,
{
}

/// The grease slots of this range are HTTP/3's reserved codes, those of the
/// form `0x1f * n + 0x21`.
pub proof fn lemma_grease_is_reserved(host: u64)
    requires
        host >= ERROR_FIRST,
    ensures
        is_grease(host as int) <==> (host as int - 0x21) % 0x1f == 0,
{
}

/// Nothing below the base offset decodes to an application code.
pub proof fn lemma_below_base_has_no_code(host: u64)
    requires
        host < ERROR_FIRST,
    ensures
        app_of(host as int) is None,
{
}

/// Application code `0` encodes to the base offset itself, and `u32::MAX` to
/// the last code of the range, which fits the 62 bits of a QUIC integer.
pub proof fn lemma_range_ends()
    ensures
        http3_of(0) == ERROR_FIRST as int,
        http3_of(u32::MAX as int) == ERROR_LAST as int,
        (ERROR_LAST as int) < 0x4000_0000_0000_0000,
{
}

/// Encoding preserves order: a smaller application code has a smaller host
/// code.
pub proof fn lemma_strictly_monotonic(a: u32, b: u32)
    requires
        a < b,
    ensures
        http3_of(a as int) < http3_of(b as int),
{
}

} // verus!
