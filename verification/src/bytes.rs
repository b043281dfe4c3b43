//! Little-endian interpretation of byte buffers as unsigned counters.
//!
//! The kernel counting backend exchanges its counter value with the kernel as
//! an eight-byte little-endian unsigned integer. This module gives that
//! encoding a mathematical definition and verified encode and decode
//! operations.

use vstd::prelude::*;

verus! {

/// The unsigned integer denoted by `s` read as little-endian bytes.
pub open spec fn u64_of_le(s: Seq<u8>) -> nat
    decreases s.len(),
{
    if s.len() == 0 {
        0
    } else {
        (s[0] + 256 * u64_of_le(s.skip(1))) as nat
    }
}

/// `256 ^ n`, the number of distinct values of an `n`-byte buffer.
pub open spec fn pow256(n: nat) -> nat
    decreases n,
{
    if n == 0 {
        1
    } else {
        256 * pow256((n - 1) as nat)
    }
}

/// An eight-byte buffer denotes a value that fits in a 64-bit word.
pub proof fn lemma_pow256_8()
    ensures
        pow256(8) == 0x1_0000_0000_0000_0000,
{
    reveal_with_fuel(pow256, 9);
}

/// A little-endian reading of `s` is below `256 ^ |s|`.
pub proof fn lemma_u64_of_le_bound(s: Seq<u8>)
    ensures
        u64_of_le(s) < pow256(s.len()),
    decreases s.len(),
{
    if s.len() > 0 {
        lemma_u64_of_le_bound(s.skip(1));
    }
}

/// A zero-filled read buffer of length `n`.
pub fn zeroed(n: usize) -> (r: Vec<u8>)
    ensures
        r@.len() == n,
        forall|i: int| 0 <= i < n ==> r@[i] == 0u8,
{
    let mut r: Vec<u8> = Vec::new();
    while r.len() < n
        invariant
            r@.len() <= n,
            forall|i: int| 0 <= i < r@.len() ==> r@[i] == 0u8,
        decreases n - r@.len(),
    {
        r.push(0);
    }
    r
}

/// Decode an eight-byte little-endian buffer into the counter it denotes.
pub fn u64_from_le(buf: &Vec<u8>) -> (r: u64)
    requires
        buf@.len() == 8,
    ensures
        r == u64_of_le(buf@),
{
    let mut acc: u64 = 0;
    let mut idx: usize = 8;
    while idx > 0
        invariant
            idx <= 8,
            buf@.len() == 8,
            acc == u64_of_le(buf@.skip(idx as int)),
        decreases idx,
    {
        proof {
            lemma_u64_of_le_bound(buf@.skip(idx as int));
            lemma_pow256_8();
            lemma_pow256_increases((8 - idx + 1) as nat, 8);
            assert(pow256((8 - idx + 1) as nat) == 256 * pow256((8 - idx) as nat));
            assert(buf@.skip(idx - 1)[0] == buf@[idx - 1]);
            assert(buf@.skip(idx - 1).skip(1) =~= buf@.skip(idx as int));
        }
        acc = acc * 256 + (buf[idx - 1] as u64);
        idx = idx - 1;
    }
    proof {
        assert(buf@.skip(0) =~= buf@);
    }
    acc
}

/// `pow256` grows with its exponent.
pub proof fn lemma_pow256_increases(m: nat, n: nat)
    requires
        m <= n,
    ensures
        pow256(m) <= pow256(n),
    decreases n,
{
    if m < n && n > 0 {
        lemma_pow256_increases(m, (n - 1) as nat);
    }
}

/// Encode `v` as its eight-byte little-endian representation.
pub fn u64_to_le(v: u64) -> (r: Vec<u8>)
    ensures
        r@.len() == 8,
        u64_of_le(r@) == v,
{
    let mut r: Vec<u8> = Vec::new();
    let mut rest: u64 = v;
    let mut i: usize = 0;
    proof {
        lemma_pow256_8();
        assert(pow256(0) == 1);
    }
    while i < 8
        invariant
            i <= 8,
            r@.len() == i,
            u64_of_le(r@) + rest * pow256(i as nat) == v,
            rest < pow256((8 - i) as nat),
        decreases 8 - i,
    {
        proof {
            lemma_pow256_8();
            lemma_pow256_increases((8 - i) as nat, 8);
            lemma_append_byte(r@, (rest % 256) as u8);
        }
        let byte: u8 = (rest % 256) as u8;
        r.push(byte);
        proof {
            lemma_mul_mod_split(rest, pow256(i as nat));
            assert(pow256((i + 1) as nat) == 256 * pow256(i as nat));
            assert(pow256((8 - i) as nat) == 256 * pow256((8 - (i + 1)) as nat));
            assert(rest / 256 < pow256((8 - (i + 1)) as nat)) by (nonlinear_arith)
                requires
                    rest < 256 * pow256((8 - (i + 1)) as nat),
            ;
        }
        rest = rest / 256;
        i = i + 1;
    }
    proof {
        assert(pow256(0) == 1);
        assert(rest == 0);
    }
    r
}

/// Appending one byte to a buffer adds it at the top of the denoted value.
proof fn lemma_append_byte(s: Seq<u8>, b: u8)
    ensures
        u64_of_le(s.push(b)) == u64_of_le(s) + b * pow256(s.len()),
    decreases s.len(),
{
    if s.len() == 0 {
        assert(s.push(b).skip(1) =~= Seq::<u8>::empty());
        assert(s.push(b)[0] == b);
        assert(pow256(0) == 1);
        assert(u64_of_le(Seq::<u8>::empty()) == 0);
        assert(u64_of_le(s) == 0);
        assert(u64_of_le(s.push(b)) == b);
    } else {
        lemma_append_byte(s.skip(1), b);
        assert(s.push(b).skip(1) =~= s.skip(1).push(b));
        assert(s.push(b)[0] == s[0]);
        assert(s.skip(1).len() == s.len() - 1);
        assert(pow256(s.len()) == 256 * pow256((s.len() - 1) as nat));
        let x = u64_of_le(s.skip(1)) as int;
        let p = pow256((s.len() - 1) as nat) as int;
        let bb = b as int;
        assert(u64_of_le(s.skip(1).push(b)) == x + bb * p);
        assert(u64_of_le(s.push(b)) == s[0] + 256 * (x + bb * p));
        assert(256 * (x + bb * p) == 256 * x + bb * (256 * p)) by (nonlinear_arith);
        assert(u64_of_le(s) == s[0] + 256 * x);
        assert(256 * p == pow256(s.len()));
    }
}

/// Splitting `rest` into its low byte and the rest, scaled by `p`.
proof fn lemma_mul_mod_split(rest: u64, p: nat)
    ensures
        (rest % 256) * p + (rest / 256) * (256 * p) == rest * p,
{
    assert((rest % 256) + 256 * (rest / 256) == rest) by (nonlinear_arith);
    assert(((rest % 256) + 256 * (rest / 256)) * p == (rest % 256) * p + (rest / 256) * (256 * p))
        by (nonlinear_arith);
}

/// The decoding of an encoding is the encoded value.
///
/// Together with `u64_to_le`'s length clause this says the eight-byte
/// little-endian representation is faithful: no counter value is confused
/// with another by a write followed by a read.
pub proof fn lemma_le_round_trip(v: u64, s: Seq<u8>)
    requires
        s.len() == 8,
        u64_of_le(s) == v,
    ensures
        forall|t: Seq<u8>| t.len() == 8 && u64_of_le(t) == v ==> t =~= s,
{
    assert forall|t: Seq<u8>| t.len() == 8 && u64_of_le(t) == v implies t =~= s by {
        lemma_le_injective(t, s);
    }
}

/// Two same-length buffers with the same reading are equal.
proof fn lemma_le_injective(a: Seq<u8>, b: Seq<u8>)
    requires
        a.len() == b.len(),
        u64_of_le(a) == u64_of_le(b),
    ensures
        a =~= b,
    decreases a.len(),
{
    if a.len() > 0 {
        lemma_u64_of_le_bound(a.skip(1));
        lemma_u64_of_le_bound(b.skip(1));
        assert(a[0] == b[0]) by (nonlinear_arith)
            requires
                a[0] + 256 * u64_of_le(a.skip(1)) == b[0] + 256 * u64_of_le(b.skip(1)),
                a[0] < 256,
                b[0] < 256,
        ;
        lemma_le_injective(a.skip(1), b.skip(1));
        assert(a =~= seq![a[0]].add(a.skip(1)));
        assert(b =~= seq![b[0]].add(b.skip(1)));
    }
}

} // verus!
