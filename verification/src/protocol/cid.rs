//! The connection identifier: between 4 and 18 opaque bytes in a fixed array,
//! written and read as they are. Its length is not part of its wire form.

use crate::error::{Error, ErrorKind};
use crate::protocol::buf::{copy_to_slice, fill_bytes, put_slice, remaining, remaining_mut, unread};
use crate::protocol::codec::{Decoder, Encoder};
use std::io::Cursor;
use vstd::prelude::*;
use vstd::std_specs::cmp::PartialEqSpecImpl;

verus! {

/// The length of a generated identifier.
pub const DEFAULT_CID_LENGTH: usize = 8;

/// The smallest length of an identifier.
pub const MIN_CID_LENGTH: usize = 4;

/// The largest length of an identifier, and the capacity of its storage.
pub const MAX_CID_LENGTH: usize = 18;

/// A connection identifier. Its view is the sequence of its bytes.
#[derive(Debug)]
pub struct ConnectionID {
    len: usize,
    data: [u8; MAX_CID_LENGTH],
}

impl View for ConnectionID {
    type V = Seq<u8>;

    closed spec fn view(&self) -> Seq<u8> {
        self.data@.take(self.len as int)
    }
}

impl ConnectionID {
    /// The length lies in its range.
    #[verifier::type_invariant]
    pub closed spec fn inv(&self) -> bool {
        MIN_CID_LENGTH <= self.len <= MAX_CID_LENGTH
    }

    /// An identifier of `len` zero bytes, or `InvalidLength` where `len` is
    /// out of range.
    pub fn new(len: usize) -> (r: Result<ConnectionID, Error>)
        ensures
            match r {
                Ok(cid) => MIN_CID_LENGTH <= len <= MAX_CID_LENGTH && cid.inv() && cid@
                    == Seq::new(len as nat, |i: int| 0u8),
                Err(e) => !(MIN_CID_LENGTH <= len <= MAX_CID_LENGTH) && e.kind_of()
                    == ErrorKind::InvalidLength,
            },
    {
        if len < MIN_CID_LENGTH || len > MAX_CID_LENGTH {
            return Err(Error::new(ErrorKind::InvalidLength));
        }
        let cid = ConnectionID { len, data: [0;MAX_CID_LENGTH] };
        assert(cid@ =~= Seq::new(len as nat, |i: int| 0u8));
        Ok(cid)
    }

    /// An identifier of the default length, filled with random bytes.
    pub fn generate() -> (cid: ConnectionID)
        ensures
            cid.inv(),
            cid@.len() == DEFAULT_CID_LENGTH,
    {
        let mut cid = ConnectionID { len: DEFAULT_CID_LENGTH, data: [0;MAX_CID_LENGTH] };
        fill_bytes(cid.as_mut_slice());
        proof {
            use_type_invariant(&cid);
        }
        cid
    }

    /// The length as a packet header carries it: the number of bytes less
    /// three, which is at least 1 and at most 15.
    pub fn len(&self) -> (n: usize)
        ensures
            n == self@.len() - 3,
            1 <= n <= 15,
    {
        proof {
            use_type_invariant(self);
        }
        self.len - 3
    }

    /// The bytes of the identifier, to be overwritten in place.
    pub fn as_mut_slice(&mut self) -> (bytes: &mut [u8])
        ensures
            bytes@ == old(self)@,
            final(self)@ == final(bytes)@,
    {
        proof {
            use_type_invariant(&*self);
        }
        let whole: &mut [u8] = &mut self.data;
        let (head, _tail) = whole.split_at_mut(self.len);
        head
    }

    /// The bytes of the identifier.
    pub fn as_slice(&self) -> (bytes: &[u8])
        ensures
            bytes@ == self@,
    {
        proof {
            use_type_invariant(self);
        }
        vstd::slice::slice_subrange(self.data.as_slice(), 0, self.len)
    }
}

impl PartialEq for ConnectionID {
    fn eq(&self, other: &ConnectionID) -> (r: bool) {
        proof {
            use_type_invariant(self);
            use_type_invariant(other);
        }
        if self.len != other.len {
            assert(self@.len() != other@.len());
            return false;
        }
        let mut i: usize = 0;
        while i < self.len
            invariant
                i <= self.len,
                self.len == other.len,
                self.len <= MAX_CID_LENGTH,
                forall|j: int| 0 <= j < i ==> self.data@[j] == other.data@[j],
            decreases self.len - i,
        {
            if self.data[i] != other.data[i] {
                assert(self@[i as int] != other@[i as int]);
                return false;
            }
            i += 1;
        }
        assert(self@ =~= other@);
        true
    }
}

impl PartialEqSpecImpl for ConnectionID {
    open spec fn obeys_eq_spec() -> bool {
        true
    }

    open spec fn eq_spec(&self, other: &ConnectionID) -> bool {
        self@ == other@
    }
}

impl Eq for ConnectionID {

}

impl Encoder for ConnectionID {
    open spec fn wire(&self) -> Option<Seq<u8>> {
        Some(self@)
    }

    fn encode(&self, dst: &mut Vec<u8>) -> (r: Result<usize, Error>) {
        proof {
            use_type_invariant(self);
        }
        if remaining_mut(dst) < self.len {
            return Err(Error::new(ErrorKind::Io));
        }
        put_slice(dst, self.as_slice());
        Ok(self.len)
    }
}

impl Decoder for ConnectionID {
    open spec fn parse(&self, s: Seq<u8>) -> Option<(Seq<u8>, nat)> {
        if s.len() < self@.len() {
            None
        } else {
            Some((s.take(self@.len() as int), self@.len()))
        }
    }

    open spec fn consumed(&self, s: Seq<u8>) -> nat {
        if s.len() < self@.len() {
            0
        } else {
            self@.len()
        }
    }

    fn decode(&mut self, src: &mut Cursor<Vec<u8>>) -> (r: Result<usize, Error>) {
        proof {
            use_type_invariant(&*self);
        }
        let ghost s = unread(*src);
        if remaining(src) < self.len {
            assert(s.skip(0) =~= s);
            return Err(Error::new(ErrorKind::Io));
        }
        let ghost before = self@;
        copy_to_slice(src, self.as_mut_slice());
        proof {
            use_type_invariant(&*self);
            assert(self@.len() == before.len());
        }
        Ok(self.len)
    }
}

impl std::ops::Deref for ConnectionID {
    type Target = [u8];

    fn deref(&self) -> (bytes: &[u8])
        ensures
            bytes@ == self@,
    {
        self.as_slice()
    }
}

impl std::ops::DerefMut for ConnectionID {
    fn deref_mut(&mut self) -> (bytes: &mut [u8])
        ensures
            bytes@ == old(self)@,
            final(self)@ == final(bytes)@,
    {
        self.as_mut_slice()
    }
}

/// A valid identifier has between 4 and 18 bytes.
pub proof fn cid_length_in_range(cid: ConnectionID)
    requires
        cid.inv(),
    ensures
        MIN_CID_LENGTH <= cid@.len() <= MAX_CID_LENGTH,
{
}

/// An identifier that was written is read back: whatever follows its wire
/// form, a receiver of the same length takes exactly the identifier's bytes
/// from it and becomes equal to the identifier.
pub proof fn cid_round_trip(cid: ConnectionID, receiver: ConnectionID, rest: Seq<u8>)
    requires
        cid.inv(),
        receiver.inv(),
        receiver@.len() == cid@.len(),
    ensures
        cid.wire() == Some(cid@),
        receiver.parse(cid@ + rest) == Some((cid@, cid@.len())),
        receiver.consumed(cid@ + rest) == cid@.len(),
{
    assert((cid@ + rest).take(cid@.len() as int) =~= cid@);
}

} // verus!
