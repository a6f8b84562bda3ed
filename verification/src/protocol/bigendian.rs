//! Unsigned integers as byte strings, most significant byte first.

use vstd::arithmetic::div_mod::lemma_mod_breakdown;
use vstd::prelude::*;

verus! {

/// 256 to the power `n`: the number of values that `n` bytes can spell.
pub open spec fn pow256(n: nat) -> nat
    decreases n,
{
    if n == 0 {
        1
    } else {
        256 * pow256((n - 1) as nat)
    }
}

/// The integer that `s` spells, most significant byte first.
pub open spec fn be_uint(s: Seq<u8>) -> nat
    decreases s.len(),
{
    if s.len() == 0 {
        0
    } else {
        256 * be_uint(s.drop_last()) + s.last() as nat
    }
}

/// The `n` low-order bytes of `v`, most significant byte first.
pub open spec fn be_bytes(v: nat, n: nat) -> Seq<u8>
    decreases n,
{
    if n == 0 {
        Seq::empty()
    } else {
        be_bytes(v / 256, (n - 1) as nat).push((v % 256) as u8)
    }
}

/// The powers of 256 that the size classes use.
pub proof fn pow256_values()
    ensures
        pow256(0) == 1,
        pow256(1) == 0x100,
        pow256(2) == 0x1_0000,
        pow256(3) == 0x100_0000,
        pow256(4) == 0x1_0000_0000,
        pow256(7) == 0x100_0000_0000_0000,
        pow256(8) == 0x1_0000_0000_0000_0000,
{
    reveal_with_fuel(pow256, 9);
}

/// No power of 256 is zero.
pub proof fn pow256_positive(n: nat)
    ensures
        pow256(n) > 0,
    decreases n,
{
    if n > 0 {
        pow256_positive((n - 1) as nat);
    }
}

/// `be_bytes(v, n)` is `n` bytes long.
pub proof fn be_bytes_len(v: nat, n: nat)
    ensures
        be_bytes(v, n).len() == n,
    decreases n,
{
    if n > 0 {
        be_bytes_len(v / 256, (n - 1) as nat);
    }
}

/// A string of `n` bytes spells a number below `256^n`.
pub proof fn be_uint_bound(s: Seq<u8>)
    ensures
        be_uint(s) < pow256(s.len()),
    decreases s.len(),
{
    if s.len() > 0 {
        be_uint_bound(s.drop_last());
    }
}

/// Reading back the `n` low-order bytes of `v` gives `v` modulo `256^n`.
pub proof fn be_uint_of_be_bytes(v: nat, n: nat)
    ensures
        be_uint(be_bytes(v, n)) == v % pow256(n),
    decreases n,
{
    if n == 0 {
    } else {
        let m = (n - 1) as nat;
        let head = be_bytes(v / 256, m);
        be_uint_of_be_bytes(v / 256, m);
        assert(be_bytes(v, n).drop_last() =~= head);
        let p = pow256(m);
        pow256_positive(m);
        lemma_mod_breakdown(v as int, 256, p as int);
    }
}

/// The number that `a + b` spells is the one that `a` spells, shifted left by
/// the bytes of `b`, plus the one that `b` spells.
pub proof fn be_uint_concat(a: Seq<u8>, b: Seq<u8>)
    ensures
        be_uint(a + b) == be_uint(a) * pow256(b.len()) + be_uint(b),
    decreases b.len(),
{
    if b.len() == 0 {
        assert(a + b =~= a);
        assert(be_uint(a) * pow256(0) == be_uint(a)) by (nonlinear_arith)
            requires
                pow256(0) == 1,
        ;
    } else {
        let front = b.drop_last();
        be_uint_concat(a, front);
        assert((a + b).drop_last() =~= a + front);
        assert((a + b).last() == b.last());
        let p = pow256(front.len());
        let x = be_uint(a);
        let y = be_uint(front);
        assert(pow256(b.len()) == 256 * p);
        assert(be_uint(a + b) == 256 * (x * p + y) + b.last() as nat);
        assert(be_uint(b) == 256 * y + b.last() as nat);
        assert(256 * (x * p + y) == x * (256 * p) + 256 * y) by (nonlinear_arith);
    }
}

/// The first `n` bytes of `s` spell its first byte, shifted left by `n - 1`
/// bytes, plus what the `n - 1` bytes after it spell.
pub proof fn split_first(s: Seq<u8>, n: nat)
    requires
        1 <= n <= s.len(),
    ensures
        be_uint(s.take(n as int)) == s[0] as nat * pow256((n - 1) as nat) + be_uint(
            s.skip(1).take(n - 1),
        ),
        be_uint(s.skip(1).take(n - 1)) < pow256((n - 1) as nat),
{
    let head = seq![s[0]];
    let tail = s.skip(1).take(n - 1);
    assert(s.take(n as int) =~= head + tail);
    be_uint_concat(head, tail);
    be_uint_bound(tail);
    assert(head.drop_last() =~= Seq::<u8>::empty());
    assert(be_uint(head) == s[0] as nat) by {
        reveal_with_fuel(be_uint, 2);
    }
}

} // verus!
