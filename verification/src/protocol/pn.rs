//! The packet number: a counter value below 2^30 in 1, 2 or 4 bytes, and the
//! generator that hands such numbers out in order.

use crate::error::{Error, ErrorKind};
use crate::protocol::bigendian::{
    be_bytes, be_bytes_len, be_uint, be_uint_of_be_bytes, pow256, pow256_values, split_first,
};
use crate::protocol::buf::{get_u8, get_uint_be, put_uint_be, remaining, remaining_mut, unread};
use crate::protocol::codec::{Decoder, Encoder};
use std::io::Cursor;
use std::sync::atomic::AtomicU32;
use vstd::prelude::*;

verus! {

/// The largest value of the 1-byte class.
pub const MAX_PN_1: u32 = 0x7f;

/// The largest value of the 2-byte class.
pub const MAX_PN_2: u32 = 0x3fff;

/// The largest value of the 4-byte class, and the largest that can be written.
pub const MAX_PN_4: u32 = 0x3fff_ffff;

const PN_1_FLAG: u8 = 0b0;

const PN_2_FLAG: u8 = 0b10;

const PN_4_FLAG: u8 = 0b11;

/// A packet number.
#[derive(Debug, Eq, PartialEq, Clone, Copy, Structural)]
pub struct PackageNumber(pub u32);

impl View for PackageNumber {
    type V = u32;

    open spec fn view(&self) -> u32 {
        self.0
    }
}

impl From<PackageNumber> for u32 {
    fn from(pn: PackageNumber) -> (r: u32) {
        pn.0
    }
}

impl vstd::std_specs::convert::FromSpecImpl<PackageNumber> for u32 {
    open spec fn obeys_from_spec() -> bool {
        true
    }

    open spec fn from_spec(pn: PackageNumber) -> u32 {
        pn.0
    }
}

/// The number of bytes of the smallest size class that holds `v`.
pub open spec fn pn_size(v: u32) -> nat {
    if v <= MAX_PN_1 {
        1
    } else if v <= MAX_PN_2 {
        2
    } else {
        4
    }
}

/// The tag of the size class of `n` bytes: one bit for the 1-byte class, two
/// bits for the others.
pub open spec fn pn_tag(n: nat) -> nat {
    if n == 1 {
        0b0
    } else if n == 2 {
        0b10
    } else {
        0b11
    }
}

/// The number of values of the size class of `n` bytes: all of its bits but
/// those of the tag.
pub open spec fn pn_span(n: nat) -> nat {
    if n == 1 {
        pow256(1) / 2
    } else {
        pow256(n) / 4
    }
}

/// The number of bytes of the size class that the first byte announces.
pub open spec fn pn_announced(first: u8) -> nat {
    if first / 128 == 0 {
        1
    } else if first / 64 == 2 {
        2
    } else {
        4
    }
}

/// The wire form of `v`: the tag and `v` as one big-endian integer of the
/// smallest size class that holds `v`.
pub open spec fn pn_wire(v: u32) -> Seq<u8>
    recommends
        v <= MAX_PN_4,
{
    let n = pn_size(v);
    be_bytes((pn_tag(n) * pn_span(n) + v) as nat, n)
}

/// What the bytes `s` start with: a value and the number of bytes it takes, or
/// `None` where `s` is empty or shorter than its first byte announces.
pub open spec fn pn_parse(s: Seq<u8>) -> Option<(u32, nat)> {
    if s.len() == 0 || s.len() < pn_announced(s[0]) {
        None
    } else {
        let n = pn_announced(s[0]);
        Some(((be_uint(s.take(n as int)) % pn_span(n)) as u32, n))
    }
}

/// The packet number that a counter value stands for, if it stands for one:
/// its own value as long as that lies below the largest value that can be
/// written.
pub open spec fn pn_issued(counter: u32) -> Option<PackageNumber> {
    if counter < MAX_PN_4 {
        Some(PackageNumber(counter))
    } else {
        None
    }
}

impl PackageNumber {
    /// The packet number for a value fetched from a generator's counter, or
    /// `None` once the counter has reached the largest value that can be
    /// written: the numbers never wrap, and the connection has to end.
    pub fn from_counter(counter: u32) -> (r: Option<PackageNumber>)
        ensures
            r == pn_issued(counter),
    {
        if counter < MAX_PN_4 {
            Some(PackageNumber(counter))
        } else {
            None
        }
    }
}

impl Encoder for PackageNumber {
    open spec fn wire(&self) -> Option<Seq<u8>> {
        if self@ <= MAX_PN_4 {
            Some(pn_wire(self@))
        } else {
            None
        }
    }

    fn encode(&self, dst: &mut Vec<u8>) -> (r: Result<usize, Error>) {
        let v = self.0;
        let word: u32;
        let n: usize;
        proof {
            pow256_values();
        }
        if v <= MAX_PN_1 {
            word = v | ((PN_1_FLAG as u32) << 7);
            n = 1;
            assert(word == v) by (bit_vector)
                requires
                    word == v | ((0u8 as u32) << 7),
            ;
        } else if v <= MAX_PN_2 {
            word = v | ((PN_2_FLAG as u32) << 14);
            n = 2;
            assert(word == 0x8000 + v) by (bit_vector)
                requires
                    v <= 0x3fff,
                    word == v | ((2u8 as u32) << 14),
            ;
        } else if v <= MAX_PN_4 {
            word = v | ((PN_4_FLAG as u32) << 30);
            n = 4;
            assert(word == 0xc000_0000 + v) by (bit_vector)
                requires
                    v <= 0x3fff_ffff,
                    word == v | ((3u8 as u32) << 30),
            ;
        } else {
            return Err(Error::new(ErrorKind::Overflow));
        }
        proof {
            be_bytes_len(word as nat, n as nat);
        }
        if remaining_mut(dst) < n {
            return Err(Error::new(ErrorKind::Io));
        }
        put_uint_be(dst, word as u64, n);
        Ok(n)
    }
}

impl Decoder for PackageNumber {
    open spec fn parse(&self, s: Seq<u8>) -> Option<(u32, nat)> {
        pn_parse(s)
    }

    open spec fn consumed(&self, s: Seq<u8>) -> nat {
        if s.len() == 0 {
            0
        } else if s.len() < pn_announced(s[0]) {
            1
        } else {
            pn_announced(s[0])
        }
    }

    fn decode(&mut self, src: &mut Cursor<Vec<u8>>) -> (r: Result<usize, Error>) {
        let ghost s = unread(*src);
        if remaining(src) < 1 {
            assert(s.skip(0) =~= s);
            return Err(Error::new(ErrorKind::Io));
        }
        let first = get_u8(src);
        let rest = remaining(src);
        proof {
            pow256_values();
            assert(first >> 7 == first / 128 && first >> 6 == first / 64 && first >> 6 < 4)
                by (bit_vector);
        }
        if first >> 7 == PN_1_FLAG {
            let v = (first as u32) & MAX_PN_1;
            proof {
                assert(v == first as u32 % 128) by (bit_vector)
                    requires
                        v == (first as u32) & 0x7f,
                ;
                split_first(s, 1);
                assert(s.skip(1).take(0) =~= Seq::<u8>::empty());
                assert(be_uint(s.take(1)) == first as nat) by (nonlinear_arith)
                    requires
                        be_uint(s.take(1)) == first as nat * pow256(0) + be_uint(
                            s.skip(1).take(0),
                        ),
                        be_uint(s.skip(1).take(0)) == 0,
                        pow256(0) == 1,
                ;
            }
            self.0 = v;
            Ok(1)
        } else if first >> 6 == PN_2_FLAG {
            if rest < 1 {
                return Err(Error::new(ErrorKind::Io));
            }
            let second = get_u8(src);
            let v = ((first as u32) << 8 | (second as u32)) & MAX_PN_2;
            proof {
                split_first(s, 2);
                let t = s.skip(1).take(1);
                assert(t.drop_last() =~= Seq::<u8>::empty());
                assert(be_uint(t) == second as nat) by {
                    reveal_with_fuel(be_uint, 2);
                }
                assert(v == ((first as u32) * 0x100 + second as u32) % 0x4000) by (bit_vector)
                    requires
                        v == ((first as u32) << 8 | (second as u32)) & 0x3fff,
                ;
                assert(s.skip(1).skip(1) =~= s.skip(2));
            }
            self.0 = v;
            Ok(2)
        } else {
            if rest < 3 {
                return Err(Error::new(ErrorKind::Io));
            }
            let tail = get_uint_be(src, 3);
            let v = ((first as u32) << 24 | (tail as u32)) & MAX_PN_4;
            proof {
                split_first(s, 4);
                assert(v == ((first as u64) * 0x100_0000 + tail) % 0x4000_0000) by (bit_vector)
                    requires
                        tail < 0x100_0000,
                        v == ((first as u32) << 24 | (tail as u32)) & 0x3fff_ffff,
                ;
                assert(s.skip(1).skip(3) =~= s.skip(4));
            }
            self.0 = v;
            Ok(4)
        }
    }
}

/// Hands out packet numbers in order, starting at zero. One generator serves
/// one connection and may be shared by all that send on it.
#[derive(Debug)]
pub struct Generater(AtomicU32);

impl Generater {
    /// A generator whose first number is zero.
    pub fn new() -> Generater {
        Generater(AtomicU32::new(0))
    }

    /// Takes the next value of the counter, in one atomic step that all
    /// callers see in one order, and returns the packet number it stands for.
    /// `None` means that the numbers are used up and the connection must be
    /// closed; the counter is then set back to the bound, so that it cannot
    /// run on to where it would start again at zero. A number that was handed
    /// out can always be written.
    pub fn next(&self) -> (r: Option<PackageNumber>)
        ensures
            r matches Some(pn) ==> pn@ < MAX_PN_4 && pn.wire() == Some(pn_wire(pn@)),
    {
        let counter = self.0.fetch_add(1, std::sync::atomic::Ordering::SeqCst);
        let issued = PackageNumber::from_counter(counter);
        if issued.is_none() {
            self.0.store(MAX_PN_4, std::sync::atomic::Ordering::SeqCst);
        }
        issued
    }
}

/// The size class chosen for a packet number holds it, and no smaller one
/// does.
pub proof fn pn_size_is_minimal(v: u32, n: nat)
    requires
        v <= MAX_PN_4,
        n == 1 || n == 2 || n == 4,
    ensures
        v < pn_span(pn_size(v)),
        v < pn_span(n) ==> pn_size(v) <= n,
{
    pow256_values();
}

/// A packet number that was written is read back: whatever follows its wire
/// form, the bytes parse to the number and to the length of the wire form,
/// which is the size of the smallest class that holds the number.
pub proof fn pn_round_trip(v: u32, rest: Seq<u8>)
    requires
        v <= MAX_PN_4,
    ensures
        pn_wire(v).len() == pn_size(v),
        pn_parse(pn_wire(v) + rest) == Some((v, pn_size(v))),
{
    pow256_values();
    let n = pn_size(v);
    let span = pn_span(n);
    let tag = pn_tag(n);
    let word = (tag * span + v) as nat;
    let w = pn_wire(v);
    let s = w + rest;
    assert(word == tag * span + v && word < pow256(n) && word % span == v) by {
        if n == 1 {
            assert(span == 0x80 && tag == 0);
        } else if n == 2 {
            assert(span == 0x4000 && tag == 2);
        } else {
            assert(span == 0x4000_0000 && tag == 3);
        }
    }
    be_bytes_len(word, n);
    be_uint_of_be_bytes(word, n);
    assert(word % pow256(n) == word) by (nonlinear_arith)
        requires
            word < pow256(n),
    ;
    assert(w.take(n as int) =~= w);
    assert(s.take(n as int) =~= w);
    assert(s[0] == w[0]);
    split_first(w, n);
    let high = w[0] as nat;
    let low = be_uint(w.skip(1).take(n - 1));
    assert(pn_announced(w[0]) == n) by {
        if n == 1 {
            assert(w.skip(1).take(0) =~= Seq::<u8>::empty());
            assert(high * pow256(0) == high) by (nonlinear_arith)
                requires
                    pow256(0) == 1,
            ;
        } else if n == 2 {
            assert(word == high * 0x100 + low);
        } else {
            assert(word == high * 0x100_0000 + low);
        }
    }
}

/// Counter values below the bound stand each for its own packet number, so two
/// of them that differ stand for different numbers; a counter value at or
/// beyond the bound stands for none.
pub proof fn issued_numbers_follow_the_counter(a: u32, b: u32)
    ensures
        a < MAX_PN_4 ==> pn_issued(a) == Some(PackageNumber(a)),
        a >= MAX_PN_4 ==> pn_issued(a) is None,
        pn_issued(a) is Some && pn_issued(a) == pn_issued(b) ==> a == b,
        a < b && pn_issued(b) is Some ==> pn_issued(a) is Some && pn_issued(a)->Some_0@
            < pn_issued(b)->Some_0@,
{
}

} // verus!
