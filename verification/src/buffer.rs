//! The byte buffers of the `bytes` crate, as far as commands are written
//! with them. What a buffer holds is named by [`buf_view`] and
//! [`bytes_view`]; nothing else of a buffer is visible to the proofs.

use bytes::BufMut;
use vstd::prelude::*;

verus! {

/// `bytes::BytesMut`, a growable buffer; its fields are not read.
#[verifier::external_type_specification]
#[verifier::external_body]
pub struct ExBytesMut(bytes::BytesMut);

/// `bytes::Bytes`, an immutable buffer; its fields are not read.
#[verifier::external_type_specification]
#[verifier::external_body]
pub struct ExBytes(bytes::Bytes);

/// The bytes written to a `BytesMut` so far, in order.
pub uninterp spec fn buf_view(buf: bytes::BytesMut) -> Seq<u8>;

/// The bytes a `Bytes` holds, in order.
pub uninterp spec fn bytes_view(buf: bytes::Bytes) -> Seq<u8>;

/// `BytesMut::with_capacity`: the new buffer has length 0, whatever the
/// capacity asked for. The allocation behind it panics for a capacity above
/// `isize::MAX`, which the precondition rules out.
#[verifier::external_body]
pub(crate) fn buf_with_capacity(capacity: usize) -> (buf: bytes::BytesMut)
    requires
        capacity <= isize::MAX,
    ensures
        buf_view(buf) == Seq::<u8>::empty(),
{
    bytes::BytesMut::with_capacity(capacity)
}

/// `BufMut::put_u8` on a `BytesMut`: appends one byte, growing the buffer
/// when it is full. The crate panics when the new length would pass
/// `isize::MAX`, which the precondition rules out.
#[verifier::external_body]
pub(crate) fn buf_put_u8(buf: &mut bytes::BytesMut, n: u8)
    requires
        buf_view(*old(buf)).len() < isize::MAX,
    ensures
        buf_view(*final(buf)) == buf_view(*old(buf)).push(n),
{
    buf.put_u8(n)
}

/// `BufMut::put_slice` on a `BytesMut`: appends the bytes of `src` in order,
/// growing the buffer as needed. The crate panics when the new length would
/// pass `isize::MAX`, which the precondition rules out.
#[verifier::external_body]
pub(crate) fn buf_put_slice(buf: &mut bytes::BytesMut, src: &[u8])
    requires
        buf_view(*old(buf)).len() + src@.len() <= isize::MAX,
    ensures
        buf_view(*final(buf)) == buf_view(*old(buf)) + src@,
{
    buf.put_slice(src)
}

/// `From<BytesMut> for Bytes`, which is `BytesMut::freeze`: the same bytes,
/// no longer writable.
#[verifier::external_body]
pub(crate) fn buf_freeze(buf: bytes::BytesMut) -> (out: bytes::Bytes)
    ensures
        bytes_view(out) == buf_view(buf),
{
    buf.into()
}

/// `Bytes` dereferences to the slice of its bytes; this copies that slice
/// into a vector.
#[verifier::external_body]
pub(crate) fn bytes_to_vec(buf: &bytes::Bytes) -> (out: Vec<u8>)
    ensures
        out@ == bytes_view(*buf),
{
    buf.to_vec()
}

} // verus!
