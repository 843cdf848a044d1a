//! The byte buffers of the `bytes` crate, as the protocol code uses them.
//!
//! Each item here is trusted: its contract restates what the `bytes` source
//! does, over a name for the bytes a buffer holds.

use bytes::{Buf, BufMut, Bytes, BytesMut};
use vstd::prelude::*;

verus! {

#[verifier::external_type_specification]
#[verifier::external_body]
pub struct ExBytesMut(bytes::BytesMut);

#[verifier::external_type_specification]
#[verifier::external_body]
pub struct ExBytes(bytes::Bytes);

/// The bytes a `BytesMut` holds, first to last.
pub uninterp spec fn bytes_mut_contents(b: BytesMut) -> Seq<u8>;

/// The bytes a `Bytes` holds, first to last.
pub uninterp spec fn bytes_contents(b: Bytes) -> Seq<u8>;

/// `BytesMut::len`: the number of bytes held.
#[verifier::external_body]
pub(crate) fn bytes_mut_len(b: &BytesMut) -> (n: usize)
    ensures
        n == bytes_mut_contents(*b).len(),
{
    b.len()
}

/// Indexing a `BytesMut` (through its `Deref` to `[u8]`): the byte at `i`.
#[verifier::external_body]
pub(crate) fn bytes_mut_byte(b: &BytesMut, i: usize) -> (x: u8)
    requires
        i < bytes_mut_contents(*b).len(),
    ensures
        x == bytes_mut_contents(*b)[i as int],
{
    b[i]
}

/// `Buf::advance` on a `BytesMut`: drops the first `n` bytes. The source
/// panics when `n` exceeds the length.
#[verifier::external_body]
pub(crate) fn bytes_mut_advance(b: &mut BytesMut, n: usize)
    requires
        n <= bytes_mut_contents(*old(b)).len(),
    ensures
        bytes_mut_contents(*final(b)) == bytes_mut_contents(*old(b)).skip(n as int),
{
    b.advance(n)
}

/// `BytesMut::split_to`: returns the first `n` bytes and keeps the rest.
/// The source panics when `n` exceeds the length.
#[verifier::external_body]
pub(crate) fn bytes_mut_split_to(b: &mut BytesMut, n: usize) -> (head: BytesMut)
    requires
        n <= bytes_mut_contents(*old(b)).len(),
    ensures
        bytes_mut_contents(head) == bytes_mut_contents(*old(b)).take(n as int),
        bytes_mut_contents(*final(b)) == bytes_mut_contents(*old(b)).skip(n as int),
{
    b.split_to(n)
}

/// `BytesMut::freeze`: the same bytes, as an immutable `Bytes`.
#[verifier::external_body]
pub(crate) fn bytes_mut_freeze(b: BytesMut) -> (r: Bytes)
    ensures
        bytes_contents(r) == bytes_mut_contents(b),
{
    b.freeze()
}

/// `BytesMut::reserve`: makes room for `additional` more bytes; the bytes
/// held do not change. The source panics when the new capacity overflows,
/// and allocation fails beyond `isize::MAX`.
#[verifier::external_body]
pub(crate) fn bytes_mut_reserve(b: &mut BytesMut, additional: usize)
    requires
        bytes_mut_contents(*old(b)).len() + additional <= isize::MAX,
    ensures
        bytes_mut_contents(*final(b)) == bytes_mut_contents(*old(b)),
{
    b.reserve(additional)
}

/// `BufMut::put_slice` on a `BytesMut`: appends the slice.
#[verifier::external_body]
pub(crate) fn bytes_mut_put_slice(b: &mut BytesMut, s: &[u8])
    requires
        bytes_mut_contents(*old(b)).len() + s@.len() <= isize::MAX,
    ensures
        bytes_mut_contents(*final(b)) == bytes_mut_contents(*old(b)) + s@,
{
    b.put_slice(s)
}

/// `Bytes::new`: no bytes.
#[verifier::external_body]
pub(crate) fn bytes_new() -> (r: Bytes)
    ensures
        bytes_contents(r) == Seq::<u8>::empty(),
{
    Bytes::new()
}

/// `Bytes::len`: the number of bytes held.
#[verifier::external_body]
pub(crate) fn bytes_len(b: &Bytes) -> (n: usize)
    ensures
        n == bytes_contents(*b).len(),
{
    b.len()
}

/// The `Deref` of `Bytes` to `[u8]`: the bytes held, as a slice.
#[verifier::external_body]
pub(crate) fn bytes_as_slice(b: &Bytes) -> (s: &[u8])
    ensures
        s@ == bytes_contents(*b),
{
    b
}

/// `Bytes::copy_from_slice`: a new buffer holding a copy of the slice.
#[verifier::external_body]
pub(crate) fn bytes_copy_from_slice(s: &[u8]) -> (r: Bytes)
    ensures
        bytes_contents(r) == s@,
{
    Bytes::copy_from_slice(s)
}

/// `Buf::advance` on a `Bytes`: drops the first `n` bytes. The source
/// panics when `n` exceeds the length.
#[verifier::external_body]
pub(crate) fn bytes_advance(b: &mut Bytes, n: usize)
    requires
        n <= bytes_contents(*old(b)).len(),
    ensures
        bytes_contents(*final(b)) == bytes_contents(*old(b)).skip(n as int),
{
    b.advance(n)
}

/// `Bytes`'s `Clone`: another handle on the same bytes.
pub assume_specification[ <Bytes as Clone>::clone ](b: &Bytes) -> (r: Bytes)
    ensures
        bytes_contents(r) == bytes_contents(*b),
;

} // verus!
