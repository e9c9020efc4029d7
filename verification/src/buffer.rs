use vstd::prelude::*;

verus! {

/// `bytes::Bytes`, an immutable buffer of bytes, taken as opaque.
#[verifier::external_type_specification]
#[verifier::external_body]
pub struct ExBytes(bytes::Bytes);

/// `bytes::BytesMut`, a buffer of bytes that can grow, taken as opaque.
#[verifier::external_type_specification]
#[verifier::external_body]
pub struct ExBytesMut(bytes::BytesMut);

/// The bytes that a frozen buffer holds, in order.
pub uninterp spec fn bytes_contents(b: bytes::Bytes) -> Seq<u8>;

/// The bytes that a growing buffer holds so far, in order.
pub uninterp spec fn buffer_contents(b: bytes::BytesMut) -> Seq<u8>;

/// The number of bytes that a growing buffer was made to hold without
/// allocating again.
pub uninterp spec fn buffer_room(b: bytes::BytesMut) -> nat;

/// `BytesMut::with_capacity`: a buffer that holds nothing yet and can take
/// `capacity` bytes without allocating again. The allocation behind it
/// cannot be larger than `isize::MAX` bytes, so larger requests are left
/// out.
#[verifier::external_body]
pub(crate) fn buffer_with_capacity(capacity: usize) -> (b: bytes::BytesMut)
    requires
        capacity <= isize::MAX,
    ensures
        buffer_contents(b) == Seq::<u8>::empty(),
        buffer_room(b) == capacity,
{
    bytes::BytesMut::with_capacity(capacity)
}

/// `BytesMut::len`: the number of bytes held so far.
#[verifier::external_body]
pub(crate) fn buffer_len(b: &bytes::BytesMut) -> (n: usize)
    ensures
        n == buffer_contents(*b).len(),
{
    b.len()
}

/// `BytesMut::extend_from_slice`: appends the given bytes after those
/// already held. Asked for no more than the buffer has room for, it copies
/// them in place: it does not allocate, and so it returns.
#[verifier::external_body]
pub(crate) fn buffer_extend(b: &mut bytes::BytesMut, extend: &[u8])
    requires
        buffer_contents(*old(b)).len() + extend@.len() <= buffer_room(*old(b)),
    ensures
        buffer_contents(*final(b)) == buffer_contents(*old(b)) + extend@,
        buffer_room(*final(b)) == buffer_room(*old(b)),
    no_unwind
{
    b.extend_from_slice(extend)
}

/// `BytesMut::freeze`: the same bytes as an immutable buffer.
#[verifier::external_body]
pub(crate) fn buffer_freeze(b: bytes::BytesMut) -> (out: bytes::Bytes)
    ensures
        bytes_contents(out) == buffer_contents(b),
{
    b.freeze()
}

/// `Bytes::slice` on the range from `begin` up to, not including, `end`: a
/// handle to that part of the same bytes. It panics unless
/// `begin <= end <= len`, so other ranges are left out.
#[verifier::external_body]
pub(crate) fn bytes_slice(b: &bytes::Bytes, begin: usize, end: usize) -> (out: bytes::Bytes)
    requires
        begin <= end <= bytes_contents(*b).len(),
    ensures
        bytes_contents(out) == bytes_contents(*b).subrange(begin as int, end as int),
{
    b.slice(begin..end)
}

} // verus!
