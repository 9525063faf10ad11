use vstd::prelude::*;

verus! {

/// `bytes::BytesMut`, the growable byte buffer in which message bodies are
/// assembled; Verus sees it only through `buffer_contents`.
#[verifier::external_type_specification]
#[verifier::external_body]
pub struct ExBytesMut(bytes::BytesMut);

/// The bytes that a `BytesMut` holds, in order.
pub uninterp spec fn buffer_contents(b: bytes::BytesMut) -> Seq<u8>;

/// Calls `BytesMut::new`, which (by its documentation) returns an empty buffer.
#[verifier::external_body]
pub(crate) fn buffer_new() -> (b: bytes::BytesMut)
    ensures
        buffer_contents(b) == Seq::<u8>::empty(),
{
    bytes::BytesMut::new()
}

/// Calls `BytesMut::with_capacity`, which returns an empty buffer; it panics
/// on a capacity above `isize::MAX` (through `Vec::with_capacity`), which
/// `requires` leaves out. The capacity allocated is left unsaid.
#[verifier::external_body]
pub(crate) fn buffer_with_capacity(capacity: usize) -> (b: bytes::BytesMut)
    requires
        capacity <= isize::MAX,
    ensures
        buffer_contents(b) == Seq::<u8>::empty(),
{
    bytes::BytesMut::with_capacity(capacity)
}

/// Calls `BytesMut::extend_from_slice`, which appends `data` to the buffer; it
/// panics where the new length would pass `isize::MAX` (in `reserve`), which
/// `requires` leaves out.
#[verifier::external_body]
pub(crate) fn buffer_append(b: &mut bytes::BytesMut, data: &[u8])
    requires
        buffer_contents(*old(b)).len() + data@.len() <= isize::MAX,
    ensures
        buffer_contents(*final(b)) == buffer_contents(*old(b)) + data@,
{
    b.extend_from_slice(data)
}

/// Calls `BytesMut::split`, which moves all the bytes of the buffer into the
/// returned one and leaves the buffer empty.
#[verifier::external_body]
pub(crate) fn buffer_take(b: &mut bytes::BytesMut) -> (taken: bytes::BytesMut)
    ensures
        buffer_contents(taken) == buffer_contents(*old(b)),
        buffer_contents(*final(b)) == Seq::<u8>::empty(),
{
    b.split()
}

/// Calls `BytesMut::len`, the number of bytes the buffer holds.
#[verifier::external_body]
pub(crate) fn buffer_len(b: &bytes::BytesMut) -> (n: usize)
    ensures
        n == buffer_contents(*b).len(),
{
    b.len()
}

} // verus!
