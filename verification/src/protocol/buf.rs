//! The byte sink and the byte source of the codec, as the `bytes` crate
//! provides them.
//!
//! A sink is a `Vec<u8>` that is appended to; a source is a cursor over a
//! `Vec<u8>` that is read from front to back. Nothing in this file is proved:
//! each function states what the `bytes` crate does, and the rest of the
//! library is proved from these statements.

use crate::protocol::bigendian::{be_bytes, be_uint, pow256};
use std::io::Cursor;
use vstd::prelude::*;

verus! {

/// `std::io::Cursor`, whose inside the proofs never look at.
#[verifier::external_type_specification]
#[verifier::external_body]
#[verifier::reject_recursive_types(T)]
pub struct ExCursor<T>(Cursor<T>);

/// The bytes of a source that are still to be read, in reading order: those
/// from the cursor's position to the end of its vector, and none where the
/// position lies at or beyond the end.
pub uninterp spec fn unread(src: Cursor<Vec<u8>>) -> Seq<u8>;

/// `Buf::remaining` on a cursor: the number of bytes between the position and
/// the end, which is the length of what is still to be read.
#[verifier::external_body]
pub(crate) fn remaining(src: &Cursor<Vec<u8>>) -> (n: usize)
    ensures
        n == unread(*src).len(),
{
    bytes::Buf::remaining(src)
}

/// `Buf::get_u8`: hands out the next byte and moves the position past it. It
/// panics on an exhausted source, which the precondition leaves out.
#[verifier::external_body]
pub(crate) fn get_u8(src: &mut Cursor<Vec<u8>>) -> (b: u8)
    requires
        unread(*old(src)).len() >= 1,
    ensures
        b == unread(*old(src))[0],
        unread(*final(src)) == unread(*old(src)).skip(1),
{
    bytes::Buf::get_u8(src)
}

/// `Buf::get_uint_be`: reads the next `nbytes` bytes as one unsigned integer,
/// most significant byte first, and moves the position past them. It panics
/// unless `nbytes` is between 1 and 8 and that many bytes are left.
#[verifier::external_body]
pub(crate) fn get_uint_be(src: &mut Cursor<Vec<u8>>, nbytes: usize) -> (v: u64)
    requires
        1 <= nbytes <= 8,
        unread(*old(src)).len() >= nbytes,
    ensures
        v == be_uint(unread(*old(src)).take(nbytes as int)),
        unread(*final(src)) == unread(*old(src)).skip(nbytes as int),
{
    bytes::Buf::get_uint_be(src, nbytes)
}

/// `Buf::copy_to_slice`: fills `dst` with the next bytes of the source, as
/// many as `dst` is long, and moves the position past them. It panics where
/// fewer bytes are left than `dst` is long.
#[verifier::external_body]
pub(crate) fn copy_to_slice(src: &mut Cursor<Vec<u8>>, dst: &mut [u8])
    requires
        unread(*old(src)).len() >= old(dst)@.len(),
    ensures
        final(dst)@ == unread(*old(src)).take(old(dst)@.len() as int),
        unread(*final(src)) == unread(*old(src)).skip(old(dst)@.len() as int),
{
    bytes::Buf::copy_to_slice(src, dst)
}

/// `BufMut::remaining_mut` on a vector: how many bytes it still accepts, which
/// is the largest `usize` less its length.
#[verifier::external_body]
pub(crate) fn remaining_mut(dst: &Vec<u8>) -> (n: usize)
    ensures
        n == usize::MAX - dst@.len(),
{
    bytes::BufMut::remaining_mut(dst)
}

/// `BufMut::put_uint_be`: appends the `nbytes` low-order bytes of `v`, most
/// significant byte first. It panics unless `nbytes` is between 1 and 8, `v`
/// fits in that many bytes and the vector accepts them.
#[verifier::external_body]
pub(crate) fn put_uint_be(dst: &mut Vec<u8>, v: u64, nbytes: usize)
    requires
        1 <= nbytes <= 8,
        v < pow256(nbytes as nat),
        old(dst)@.len() + nbytes <= usize::MAX,
    ensures
        final(dst)@ == old(dst)@ + be_bytes(v as nat, nbytes as nat),
{
    bytes::BufMut::put_uint_be(dst, v, nbytes)
}

/// `BufMut::put_slice`: appends the bytes of `src` as they are. It panics
/// where the vector does not accept that many.
#[verifier::external_body]
pub(crate) fn put_slice(dst: &mut Vec<u8>, src: &[u8])
    requires
        old(dst)@.len() + src@.len() <= usize::MAX,
    ensures
        final(dst)@ == old(dst)@ + src@,
{
    bytes::BufMut::put_slice(dst, src)
}

/// `RngCore::fill_bytes` of the thread's generator: overwrites `dst` with
/// random bytes, of which nothing is claimed but that they are as many as
/// before.
#[verifier::external_body]
pub(crate) fn fill_bytes(dst: &mut [u8])
    ensures
        final(dst)@.len() == old(dst)@.len(),
{
    rand::RngCore::fill_bytes(&mut rand::thread_rng(), dst)
}

} // verus!
