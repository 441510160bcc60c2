//! What the proofs of this crate take for granted of `bytes::Bytes`.
//!
//! A `Bytes` is a cheaply cloneable, immutable run of bytes. Verus cannot look
//! inside one, so its contents get a name, [`bytes_view`], and each operation
//! that the crate uses is described over that name. None of these descriptions
//! is proved: each restates the documentation of the `bytes` crate.

use bytes::Bytes;
use vstd::prelude::*;

verus! {

/// `bytes::Bytes`, whose fields stay hidden.
#[verifier::external_type_specification]
#[verifier::external_body]
pub struct ExBytes(Bytes);

/// The bytes that a `Bytes` holds, first to last.
pub uninterp spec fn bytes_view(b: Bytes) -> Seq<u8>;

/// `Bytes::new`: the result holds no bytes.
pub assume_specification[ Bytes::new ]() -> (b: Bytes)
    ensures
        bytes_view(b) == Seq::<u8>::empty(),
;

/// `Bytes::len`: the number of bytes held.
pub assume_specification[ Bytes::len ](b: &Bytes) -> (n: usize)
    ensures
        n == bytes_view(*b).len(),
;

/// `Bytes::split_to`: the result takes the first `at` bytes and the receiver
/// keeps the rest. The method panics when `at` exceeds the length, so such a
/// call is ruled out.
pub assume_specification[ Bytes::split_to ](b: &mut Bytes, at: usize) -> (head: Bytes)
    requires
        at <= bytes_view(*old(b)).len(),
    ensures
        bytes_view(head) == bytes_view(*old(b)).subrange(0, at as int),
        bytes_view(*final(b)) == bytes_view(*old(b)).subrange(
            at as int,
            bytes_view(*old(b)).len() as int,
        ),
;

/// `Bytes::from(Vec<u8>)`: the result holds the bytes of the vector, in order.
#[verifier::external_body]
pub(crate) fn bytes_from_vec(data: Vec<u8>) -> (b: Bytes)
    ensures
        bytes_view(b) == data@,
{
    Bytes::from(data)
}

/// `<[u8]>::to_vec` on the slice that a `Bytes` dereferences to: a vector with
/// the same bytes.
#[verifier::external_body]
pub(crate) fn bytes_to_vec(b: &Bytes) -> (data: Vec<u8>)
    ensures
        data@ == bytes_view(*b),
{
    b.to_vec()
}

} // verus!
