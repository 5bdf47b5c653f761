//! The receive buffers of the relay are `bytes::BytesMut` values. Verus sees
//! such a buffer only through the bytes it holds.

use vstd::prelude::*;

verus! {

#[verifier::external_type_specification]
#[verifier::external_body]
pub struct ExBytesMut(bytes::BytesMut);

/// The bytes that a buffer holds, from its start to its length.
pub uninterp spec fn buffer_bytes(b: bytes::BytesMut) -> Seq<u8>;

/// Relies on `BytesMut::len`: the number of bytes the buffer holds.
pub assume_specification[ bytes::BytesMut::len ](b: &bytes::BytesMut) -> (n: usize)
    ensures
        n == buffer_bytes(*b).len(),
;

/// Relies on `BytesMut::truncate`: keeps the first `len` bytes, and does
/// nothing where the buffer is not longer than that.
pub assume_specification[ bytes::BytesMut::truncate ](b: &mut bytes::BytesMut, len: usize)
    ensures
        buffer_bytes(*final(b)) == if len <= buffer_bytes(*old(b)).len() {
            buffer_bytes(*old(b)).take(len as int)
        } else {
            buffer_bytes(*old(b))
        },
;

/// Relies on `BytesMut::split_off`: the buffer keeps the bytes before `at`
/// and the result holds those from `at` on. It panics only where `at` passes
/// the capacity, which is never below the length.
pub assume_specification[ bytes::BytesMut::split_off ](b: &mut bytes::BytesMut, at: usize) -> (tail: bytes::BytesMut)
    requires
        at <= buffer_bytes(*old(b)).len(),
    ensures
        buffer_bytes(*final(b)) == buffer_bytes(*old(b)).take(at as int),
        buffer_bytes(tail) == buffer_bytes(*old(b)).skip(at as int),
;

/// Relies on the `Deref` impl of `BytesMut`: the slice holds the buffer's
/// bytes.
#[verifier::external_body]
pub(crate) fn buffer_slice(b: &bytes::BytesMut) -> (s: &[u8])
    ensures
        s@ == buffer_bytes(*b),
{
    &b[..]
}

} // verus!
