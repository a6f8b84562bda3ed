//! The variable-length integer: a value below 2^62 in 1, 2, 4 or 8 bytes, with
//! the size class in the two highest bits of the first byte.

use crate::error::{Error, ErrorKind};
use crate::protocol::bigendian::{
    be_bytes, be_bytes_len, be_uint, be_uint_of_be_bytes, pow256, pow256_values, split_first,
};
use crate::protocol::buf::{get_u8, get_uint_be, put_uint_be, remaining, remaining_mut, unread};
use crate::protocol::codec::{Decoder, Encoder};
use std::io::Cursor;
use vstd::prelude::*;

verus! {

/// The largest value of the 1-byte class.
pub const MAX_INT_1: u64 = 0x3f;

/// The largest value of the 2-byte class.
pub const MAX_INT_2: u64 = 0x3fff;

/// The largest value of the 4-byte class.
pub const MAX_INT_4: u64 = 0x3fff_ffff;

/// The largest value of the 8-byte class, and the largest that can be written.
pub const MAX_INT_8: u64 = 0x3fff_ffff_ffff_ffff;

const INT_1_FLAG: u8 = 0b00;

const INT_2_FLAG: u8 = 0b01;

const INT_4_FLAG: u8 = 0b10;

const INT_8_FLAG: u8 = 0b11;

/// A variable-length integer.
#[derive(Debug, PartialEq, Eq, Structural)]
pub struct VarInt(pub u64);

impl View for VarInt {
    type V = u64;

    open spec fn view(&self) -> u64 {
        self.0
    }
}

/// The number of bytes of the smallest size class that holds `v`.
pub open spec fn varint_size(v: u64) -> nat {
    if v <= MAX_INT_1 {
        1
    } else if v <= MAX_INT_2 {
        2
    } else if v <= MAX_INT_4 {
        4
    } else {
        8
    }
}

/// The tag of the size class of `n` bytes.
pub open spec fn varint_tag(n: nat) -> nat {
    if n == 1 {
        0
    } else if n == 2 {
        1
    } else if n == 4 {
        2
    } else {
        3
    }
}

/// The number of bytes of the size class that the first byte announces.
pub open spec fn varint_announced(first: u8) -> nat {
    let tag = first / 64;
    if tag == 0 {
        1
    } else if tag == 1 {
        2
    } else if tag == 2 {
        4
    } else {
        8
    }
}

/// The number of values of the size class of `n` bytes: all of its bits but
/// the two of the tag.
pub open spec fn varint_span(n: nat) -> nat {
    pow256(n) / 4
}

/// The wire form of `v`: the tag and `v` as one big-endian integer of the
/// smallest size class that holds `v`.
pub open spec fn varint_wire(v: u64) -> Seq<u8>
    recommends
        v <= MAX_INT_8,
{
    let n = varint_size(v);
    be_bytes((varint_tag(n) * varint_span(n) + v) as nat, n)
}

/// What the bytes `s` start with: a value and the number of bytes it takes, or
/// `None` where `s` is empty or shorter than its first byte announces.
pub open spec fn varint_parse(s: Seq<u8>) -> Option<(u64, nat)> {
    if s.len() == 0 || s.len() < varint_announced(s[0]) {
        None
    } else {
        let n = varint_announced(s[0]);
        Some(((be_uint(s.take(n as int)) % varint_span(n)) as u64, n))
    }
}

impl From<u64> for VarInt {
    fn from(v: u64) -> (r: VarInt) {
        VarInt(v)
    }
}

impl vstd::std_specs::convert::FromSpecImpl<u64> for VarInt {
    open spec fn obeys_from_spec() -> bool {
        true
    }

    open spec fn from_spec(v: u64) -> VarInt {
        VarInt(v)
    }
}

impl Default for VarInt {
    fn default() -> (r: VarInt)
        ensures
            r@ == 0,
    {
        VarInt(0)
    }
}

impl Encoder for VarInt {
    open spec fn wire(&self) -> Option<Seq<u8>> {
        if self@ <= MAX_INT_8 {
            Some(varint_wire(self@))
        } else {
            None
        }
    }

    fn encode(&self, dst: &mut Vec<u8>) -> (r: Result<usize, Error>) {
        let v = self.0;
        let word: u64;
        let n: usize;
        proof {
            pow256_values();
        }
        if v <= MAX_INT_1 {
            word = v | ((INT_1_FLAG as u64) << 6);
            n = 1;
            assert(word == v) by (bit_vector)
                requires
                    word == v | ((0u8 as u64) << 6),
            ;
        } else if v <= MAX_INT_2 {
            word = v | ((INT_2_FLAG as u64) << 14);
            n = 2;
            assert(word == 0x4000 + v) by (bit_vector)
                requires
                    v <= 0x3fff,
                    word == v | ((1u8 as u64) << 14),
            ;
        } else if v <= MAX_INT_4 {
            word = v | ((INT_4_FLAG as u64) << 30);
            n = 4;
            assert(word == 0x8000_0000 + v) by (bit_vector)
                requires
                    v <= 0x3fff_ffff,
                    word == v | ((2u8 as u64) << 30),
            ;
        } else if v <= MAX_INT_8 {
            word = v | ((INT_8_FLAG as u64) << 62);
            n = 8;
            assert(word == 0xc000_0000_0000_0000 + v) by (bit_vector)
                requires
                    v <= 0x3fff_ffff_ffff_ffff,
                    word == v | ((3u8 as u64) << 62),
            ;
        } else {
            return Err(Error::new(ErrorKind::Overflow));
        }
        proof {
            be_bytes_len(word as nat, n as nat);
        }
        if remaining_mut(dst) < n {
            return Err(Error::new(ErrorKind::Io));
        }
        put_uint_be(dst, word, n);
        Ok(n)
    }
}

impl Decoder for VarInt {
    open spec fn parse(&self, s: Seq<u8>) -> Option<(u64, nat)> {
        varint_parse(s)
    }

    open spec fn consumed(&self, s: Seq<u8>) -> nat {
        if s.len() == 0 {
            0
        } else if s.len() < varint_announced(s[0]) {
            1
        } else {
            varint_announced(s[0])
        }
    }

    fn decode(&mut self, src: &mut Cursor<Vec<u8>>) -> (r: Result<usize, Error>) {
        let ghost s = unread(*src);
        if remaining(src) < 1 {
            assert(s.skip(0) =~= s);
            return Err(Error::new(ErrorKind::Io));
        }
        let first = get_u8(src);
        let tag = first >> 6;
        assert(tag == first / 64 && tag < 4) by (bit_vector)
            requires
                tag == first >> 6,
        ;
        let rest = remaining(src);
        proof {
            pow256_values();
        }
        if tag == INT_1_FLAG {
            let v = (first as u64) & MAX_INT_1;
            proof {
                assert(v == first as u64 % 64) by (bit_vector)
                    requires
                        v == (first as u64) & 0x3f,
                ;
                split_first(s, 1);
                assert(s.skip(1).take(0) =~= Seq::<u8>::empty());
                assert(be_uint(s.take(1)) == first as nat) by (nonlinear_arith)
                    requires
                        be_uint(s.take(1)) == first as nat * pow256(0) + be_uint(
                            s.skip(1).take(0),
                        ),
                        be_uint(s.skip(1).take(0)) == 0,
                        pow256(0) == 1,
                ;
            }
            self.0 = v;
            Ok(1)
        } else if tag == INT_2_FLAG {
            if rest < 1 {
                return Err(Error::new(ErrorKind::Io));
            }
            let tail = get_uint_be(src, 1);
            let v = ((first as u64) << 8 | tail) & MAX_INT_2;
            proof {
                split_first(s, 2);
                assert(v == ((first as u64) * 0x100 + tail) % 0x4000) by (bit_vector)
                    requires
                        tail < 0x100,
                        v == ((first as u64) << 8 | tail) & 0x3fff,
                ;
                assert(s.skip(1).skip(1) =~= s.skip(2));
            }
            self.0 = v;
            Ok(2)
        } else if tag == INT_4_FLAG {
            if rest < 3 {
                return Err(Error::new(ErrorKind::Io));
            }
            let tail = get_uint_be(src, 3);
            let v = ((first as u64) << 24 | tail) & MAX_INT_4;
            proof {
                split_first(s, 4);
                assert(v == ((first as u64) * 0x100_0000 + tail) % 0x4000_0000) by (bit_vector)
                    requires
                        tail < 0x100_0000,
                        v == ((first as u64) << 24 | tail) & 0x3fff_ffff,
                ;
                assert(s.skip(1).skip(3) =~= s.skip(4));
            }
            self.0 = v;
            Ok(4)
        } else {
            if rest < 7 {
                return Err(Error::new(ErrorKind::Io));
            }
            let tail = get_uint_be(src, 7);
            let v = ((first as u64) << 56 | tail) & MAX_INT_8;
            proof {
                split_first(s, 8);
                assert(v == ((first as u64) * 0x100_0000_0000_0000 + tail)
                    % 0x4000_0000_0000_0000) by (bit_vector)
                    requires
                        tail < 0x100_0000_0000_0000,
                        v == ((first as u64) << 56 | tail) & 0x3fff_ffff_ffff_ffff,
                ;
                assert(s.skip(1).skip(7) =~= s.skip(8));
            }
            self.0 = v;
            Ok(8)
        }
    }
}

/// The size class chosen for a value holds it, and no smaller one does.
pub proof fn varint_size_is_minimal(v: u64, n: nat)
    requires
        v <= MAX_INT_8,
        n == 1 || n == 2 || n == 4 || n == 8,
    ensures
        v < varint_span(varint_size(v)),
        v < varint_span(n) ==> varint_size(v) <= n,
{
    pow256_values();
}

/// A value that was written is read back: whatever follows its wire form, the
/// bytes parse to the value and to the length of the wire form, which is the
/// size of the smallest class that holds the value.
pub proof fn varint_round_trip(v: u64, rest: Seq<u8>)
    requires
        v <= MAX_INT_8,
    ensures
        varint_wire(v).len() == varint_size(v),
        varint_parse(varint_wire(v) + rest) == Some((v, varint_size(v))),
{
    pow256_values();
    let n = varint_size(v);
    let word = (varint_tag(n) * varint_span(n) + v) as nat;
    let w = varint_wire(v);
    let s = w + rest;
    let span = varint_span(n);
    let tag = varint_tag(n);
    assert(span * 4 == pow256(n) && word == tag * span + v && v < span && tag < 4) by {
        if n == 1 {
            assert(span == 0x40 && tag == 0);
        } else if n == 2 {
            assert(span == 0x4000 && tag == 1);
        } else if n == 4 {
            assert(span == 0x4000_0000 && tag == 2);
        } else {
            assert(n == 8);
            assert(span == 0x4000_0000_0000_0000 && tag == 3);
        }
    }
    assert(word < pow256(n) && word / span == tag && word % span == v) by (nonlinear_arith)
        requires
            span * 4 == pow256(n),
            word == tag * span + v,
            v < span,
            tag < 4,
    ;
    be_bytes_len(word, n);
    be_uint_of_be_bytes(word, n);
    assert(word % pow256(n) == word) by (nonlinear_arith)
        requires
            word < pow256(n),
    ;
    assert(w.take(n as int) =~= w);
    assert(s.take(n as int) =~= w);
    assert(s[0] == w[0]);
    split_first(w, n);
    let high = w[0] as nat;
    let low = be_uint(w.skip(1).take(n - 1));
    assert(high / 64 == varint_tag(n)) by {
        if n == 1 {
            assert(w.skip(1).take(0) =~= Seq::<u8>::empty());
            assert(high * pow256(0) == high) by (nonlinear_arith)
                requires
                    pow256(0) == 1,
            ;
        } else if n == 2 {
            assert(word == high * 0x100 + low);
        } else if n == 4 {
            assert(word == high * 0x100_0000 + low);
        } else {
            assert(word == high * 0x100_0000_0000_0000 + low);
        }
    }
}

} // verus!
