//! The two capabilities of a wire type: to be written to a byte sink and to be
//! read from a byte source.
//!
//! Each wire type says in two spec functions what its layout is, and its
//! `encode` and `decode` are proved to follow them. The types share nothing
//! else.

use crate::error::{Error, ErrorKind};
use crate::protocol::buf::unread;
use std::io::Cursor;
use vstd::prelude::*;

verus! {

/// What `encode` owes for a value whose wire form is `wire` and a sink that
/// held `before`: the result `r` and the sink's contents `after`.
///
/// A value without a wire form is refused as an overflow. A sink that cannot
/// take the whole wire form is refused as an I/O error. In both cases the sink
/// stays as it was; otherwise the wire form is appended whole and its length
/// returned.
pub open spec fn encode_outcome(
    wire: Option<Seq<u8>>,
    before: Seq<u8>,
    after: Seq<u8>,
    r: Result<usize, Error>,
) -> bool {
    match wire {
        None => r is Err && r->Err_0.kind_of() == ErrorKind::Overflow && after == before,
        Some(w) => if before.len() + w.len() <= usize::MAX {
            r == Ok::<usize, Error>(w.len() as usize) && after == before + w
        } else {
            r is Err && r->Err_0.kind_of() == ErrorKind::Io && after == before
        },
    }
}

/// A value that can be written to a byte sink.
pub trait Encoder: View {
    /// The bytes that stand for this value on the wire, or `None` for a value
    /// too large for any size class.
    spec fn wire(&self) -> Option<Seq<u8>>;

    /// Appends the wire form of `self` to `dst` and returns its length, or
    /// leaves `dst` untouched and says why.
    fn encode(&self, dst: &mut Vec<u8>) -> (r: Result<usize, Error>)
        ensures
            encode_outcome(self.wire(), old(dst)@, final(dst)@, r),
    ;
}

/// A value that can be read from a byte source, in place.
pub trait Decoder: View + Sized {
    /// What the unread bytes `s` decode to, seen from a receiver `self`: the
    /// view of the new value and the number of bytes that belong to it, or
    /// `None` where `s` ends before the value does.
    spec fn parse(&self, s: Seq<u8>) -> Option<(Self::V, nat)>;

    /// The number of bytes that a decode takes from a source holding `s`: on
    /// success those of the value, on failure those read before the source
    /// was found short.
    spec fn consumed(&self, s: Seq<u8>) -> nat;

    /// Reads one value from `src` into `self` and returns the number of bytes
    /// that it took. A source that ends early gives an I/O error and leaves
    /// `self` as it was.
    fn decode(&mut self, src: &mut Cursor<Vec<u8>>) -> (r: Result<usize, Error>)
        ensures
            unread(*final(src)) == unread(*old(src)).skip(
                old(self).consumed(unread(*old(src))) as int,
            ),
            match old(self).parse(unread(*old(src))) {
                Some((v, n)) => r == Ok::<usize, Error>(n as usize) && final(self)@ == v,
                None => r is Err && r->Err_0.kind_of() == ErrorKind::Io && *final(self) == *old(
                    self,
                ),
            },
    ;
}

} // verus!
