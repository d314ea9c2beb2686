//! Base-256 representations of integers: the wire form of every numeric
//! codec, little- or big-endian, together with the conversions and the
//! round-trip lemmas the codecs are proved against.

use crate::common::Endian;
use crate::error::Error;
use vstd::arithmetic::div_mod::{
    lemma_div_multiples_vanish, lemma_mod_breakdown, lemma_mod_multiples_vanish, lemma_small_mod,
};
use vstd::prelude::*;

verus! {

/// 256 raised to the power `n`: the number of values `n` bytes can hold.
pub open spec fn pow256(n: nat) -> nat
    decreases n,
{
    if n == 0 {
        1
    } else {
        256 * pow256((n - 1) as nat)
    }
}

/// The value of a byte sequence read little-endian: the first byte is the
/// least significant.
pub open spec fn le_value(s: Seq<u8>) -> nat
    decreases s.len(),
{
    if s.len() == 0 {
        0
    } else {
        (s[0] + 256 * le_value(s.drop_first())) as nat
    }
}

/// The `n` bytes of `v % pow256(n)` written little-endian.
pub open spec fn le_digits(v: nat, n: nat) -> Seq<u8>
    decreases n,
{
    if n == 0 {
        Seq::empty()
    } else {
        seq![(v % 256) as u8] + le_digits(v / 256, (n - 1) as nat)
    }
}

/// The value of a byte sequence read big-endian: the first byte is the most
/// significant.
pub open spec fn be_value(s: Seq<u8>) -> nat {
    le_value(s.reverse())
}

/// The `n` bytes of `v % pow256(n)` written big-endian.
pub open spec fn be_digits(v: nat, n: nat) -> Seq<u8> {
    le_digits(v, n).reverse()
}

pub proof fn lemma_pow256_positive(n: nat)
    ensures
        pow256(n) >= 1,
    decreases n,
{
    if n > 0 {
        lemma_pow256_positive((n - 1) as nat);
    }
}

pub proof fn lemma_pow256_increases(m: nat, n: nat)
    requires
        m <= n,
    ensures
        pow256(m) <= pow256(n),
    decreases n,
{
    lemma_pow256_positive(m);
    if m < n {
        lemma_pow256_increases(m, (n - 1) as nat);
    }
}

/// The two powers that bound what 15 and 16 bytes can hold; 16 bytes fill a
/// `u128` exactly.
pub proof fn lemma_pow256_16()
    ensures
        pow256(15) == 0x1000000000000000000000000000000,
        pow256(16) == 0x100000000000000000000000000000000,
{
    reveal_with_fuel(pow256, 17);
}

pub proof fn lemma_le_digits_len(v: nat, n: nat)
    ensures
        le_digits(v, n).len() == n,
    decreases n,
{
    if n > 0 {
        lemma_le_digits_len(v / 256, (n - 1) as nat);
    }
}

/// A little-endian sequence of `n` bytes holds a value below `pow256(n)`.
pub proof fn lemma_le_value_bound(s: Seq<u8>)
    ensures
        le_value(s) < pow256(s.len()),
    decreases s.len(),
{
    if s.len() > 0 {
        lemma_le_value_bound(s.drop_first());
    }
}

pub proof fn lemma_be_value_bound(s: Seq<u8>)
    ensures
        be_value(s) < pow256(s.len()),
{
    lemma_le_value_bound(s.reverse());
}

/// Reading back the little-endian digits of `v` yields `v % pow256(n)`.
pub proof fn lemma_le_value_of_digits(v: nat, n: nat)
    ensures
        le_value(le_digits(v, n)) == v % pow256(n),
    decreases n,
{
    lemma_pow256_positive(n);
    if n == 0 {
        lemma_small_mod(0, 1);
        assert(v % 1 == 0) by {
            lemma_mod_multiples_vanish(v as int, 0, 1);
        }
    } else {
        let h = (v % 256) as u8;
        let t = le_digits(v / 256, (n - 1) as nat);
        let s = seq![h] + t;
        assert(s[0] == h);
        assert(s.drop_first() =~= t);
        lemma_le_value_of_digits(v / 256, (n - 1) as nat);
        lemma_pow256_positive((n - 1) as nat);
        lemma_mod_breakdown(v as int, 256, pow256((n - 1) as nat) as int);
    }
}

/// Round trip for values that fit: the digits of `v` read back as `v` itself.
pub proof fn lemma_le_roundtrip(v: nat, n: nat)
    requires
        v < pow256(n),
    ensures
        le_value(le_digits(v, n)) == v,
{
    lemma_le_value_of_digits(v, n);
    lemma_small_mod(v, pow256(n));
}

/// Writing back the value of a little-endian sequence yields that sequence.
pub proof fn lemma_le_digits_of_value(s: Seq<u8>)
    ensures
        le_digits(le_value(s), s.len()) == s,
    decreases s.len(),
{
    if s.len() > 0 {
        let s0 = s[0] as nat;
        let r = le_value(s.drop_first());
        let v = le_value(s);
        assert(v == s0 + 256 * r);
        assert(v % 256 == s0) by {
            lemma_mod_multiples_vanish(r as int, s0 as int, 256);
            lemma_small_mod(s0, 256);
        }
        assert(v / 256 == r) by {
            lemma_div_multiples_vanish(r as int, 256);
            assert((s0 + 256 * r) / 256 == r) by (nonlinear_arith)
                requires
                    0 <= s0 < 256,
                    r >= 0,
            ;
        }
        lemma_le_digits_of_value(s.drop_first());
        assert(le_digits(v, s.len()) =~= s);
    } else {
        assert(le_digits(le_value(s), 0) =~= s);
    }
}

pub proof fn lemma_be_roundtrip(v: nat, n: nat)
    requires
        v < pow256(n),
    ensures
        be_value(be_digits(v, n)) == v,
{
    lemma_le_digits_len(v, n);
    assert(le_digits(v, n).reverse().reverse() =~= le_digits(v, n));
    lemma_le_roundtrip(v, n);
}

pub proof fn lemma_be_digits_of_value(s: Seq<u8>)
    ensures
        be_digits(be_value(s), s.len()) == s,
{
    lemma_le_digits_of_value(s.reverse());
    assert(s.reverse().len() == s.len());
    assert(le_digits(le_value(s.reverse()), s.len()).reverse() =~= s) by {
        assert(le_digits(le_value(s.reverse()), s.len()) == s.reverse());
        assert(s.reverse().reverse() =~= s);
    }
}

pub proof fn lemma_be_digits_len(v: nat, n: nat)
    ensures
        be_digits(v, n).len() == n,
{
    lemma_le_digits_len(v, n);
}

/// Appending a byte to a big-endian sequence multiplies its value by 256 and
/// adds the byte: the shape of the accumulator loop below.
pub proof fn lemma_be_value_push(s: Seq<u8>, x: u8)
    ensures
        be_value(s.push(x)) == 256 * be_value(s) + x,
{
    assert(s.push(x).reverse() =~= seq![x] + s.reverse());
    let t = seq![x] + s.reverse();
    assert(t[0] == x);
    assert(t.drop_first() =~= s.reverse());
}

/// Reads a chunk of at most 16 bytes as a little-endian value.
pub fn le_chunk_value(b: &[u8]) -> (v: u128)
    requires
        b@.len() <= 16,
    ensures
        v as nat == le_value(b@),
{
    let n = b.len();
    let mut v: u128 = 0;
    let mut i: usize = n;
    proof {
        assert(b@.subrange(n as int, n as int) =~= Seq::<u8>::empty());
    }
    while i > 0
        invariant
            i <= n,
            n == b@.len() <= 16,
            v as nat == le_value(b@.subrange(i as int, n as int)),
        decreases i,
    {
        proof {
            lemma_le_value_bound(b@.subrange(i as int, n as int));
            lemma_pow256_increases((n - i) as nat, 15);
            lemma_pow256_16();
            assert(b@.subrange(i - 1, n as int).drop_first() =~= b@.subrange(i as int, n as int));
        }
        i = i - 1;
        v = v * 256 + b[i] as u128;
    }
    proof {
        assert(b@.subrange(0, n as int) =~= b@);
    }
    v
}

/// Reads a chunk of at most 16 bytes as a big-endian value.
pub fn be_chunk_value(b: &[u8]) -> (v: u128)
    requires
        b@.len() <= 16,
    ensures
        v as nat == be_value(b@),
{
    let n = b.len();
    let mut v: u128 = 0;
    let mut i: usize = 0;
    proof {
        assert(b@.subrange(0, 0) =~= Seq::<u8>::empty());
        assert(be_value(Seq::<u8>::empty()) == 0);
    }
    while i < n
        invariant
            i <= n,
            n == b@.len() <= 16,
            v as nat == be_value(b@.subrange(0, i as int)),
        decreases n - i,
    {
        proof {
            lemma_be_value_bound(b@.subrange(0, i as int));
            lemma_pow256_increases(i as nat, 15);
            lemma_pow256_16();
            lemma_be_value_push(b@.subrange(0, i as int), b@[i as int]);
            assert(b@.subrange(0, i + 1) =~= b@.subrange(0, i as int).push(b@[i as int]));
        }
        v = v * 256 + b[i] as u128;
        i = i + 1;
    }
    proof {
        assert(b@.subrange(0, n as int) =~= b@);
    }
    v
}

/// Writes the `n` little-endian bytes of `v`.
pub fn le_chunk_digits(v: u128, n: usize) -> (b: Vec<u8>)
    requires
        n <= 16,
    ensures
        b@ == le_digits(v as nat, n as nat),
{
    proof {
        lemma_le_digits_len(v as nat, n as nat);
    }
    let mut b: Vec<u8> = Vec::new();
    let mut x = v;
    let mut i: usize = 0;
    while i < n
        invariant
            i <= n,
            b@.len() == i,
            b@ + le_digits(x as nat, (n - i) as nat) == le_digits(v as nat, n as nat),
        decreases n - i,
    {
        proof {
            let rest = le_digits(x as nat, (n - i) as nat);
            assert(rest == seq![(x as nat % 256) as u8] + le_digits(
                x as nat / 256,
                (n - i - 1) as nat,
            ));
            assert(b@ + rest =~= b@.push((x as nat % 256) as u8) + le_digits(
                x as nat / 256,
                (n - i - 1) as nat,
            ));
            assert(x as nat % 256 == (x % 256) as nat);
            assert(x as nat / 256 == (x / 256) as nat);
        }
        b.push((x % 256) as u8);
        x = x / 256;
        i = i + 1;
    }
    proof {
        assert(b@ + le_digits(x as nat, 0) =~= b@);
    }
    b
}

/// Writes the `n` big-endian bytes of `v`.
pub fn be_chunk_digits(v: u128, n: usize) -> (b: Vec<u8>)
    requires
        n <= 16,
    ensures
        b@ == be_digits(v as nat, n as nat),
{
    let le = le_chunk_digits(v, n);
    let mut b: Vec<u8> = Vec::new();
    let mut i: usize = n;
    proof {
        lemma_le_digits_len(v as nat, n as nat);
        assert(b@ =~= le@.subrange(i as int, n as int).reverse());
    }
    while i > 0
        invariant
            i <= n,
            le@.len() == n,
            b@ =~= le@.subrange(i as int, n as int).reverse(),
        decreases i,
    {
        proof {
            let before = le@.subrange(i as int, n as int);
            let after = le@.subrange(i - 1, n as int);
            assert(after.reverse() =~= before.reverse().push(after[0]));
        }
        i = i - 1;
        let x = le[i];
        b.push(x);
        proof {
            assert(b@ =~= le@.subrange(i as int, n as int).reverse());
        }
    }
    proof {
        assert(le@.subrange(0, n as int) =~= le@);
    }
    b
}

/// The value of `s` read in byte order `e`; `Native` resolves to little.
pub open spec fn chunk_value(e: Endian, s: Seq<u8>) -> nat {
    if e.resolved() is Big {
        be_value(s)
    } else {
        le_value(s)
    }
}

/// The `n` bytes of `v` written in byte order `e`.
pub open spec fn chunk_digits(e: Endian, v: nat, n: nat) -> Seq<u8> {
    if e.resolved() is Big {
        be_digits(v, n)
    } else {
        le_digits(v, n)
    }
}

pub proof fn lemma_chunk_value_bound(e: Endian, s: Seq<u8>)
    ensures
        chunk_value(e, s) < pow256(s.len()),
{
    lemma_le_value_bound(s);
    lemma_be_value_bound(s);
}

pub proof fn lemma_chunk_digits_len(e: Endian, v: nat, n: nat)
    ensures
        chunk_digits(e, v, n).len() == n,
{
    lemma_le_digits_len(v, n);
    lemma_be_digits_len(v, n);
}

/// Writing a value and reading it back in the same byte order is the
/// identity, for values that fit in `n` bytes.
pub proof fn lemma_chunk_roundtrip(e: Endian, v: nat, n: nat)
    requires
        v < pow256(n),
    ensures
        chunk_value(e, chunk_digits(e, v, n)) == v,
{
    lemma_le_roundtrip(v, n);
    lemma_be_roundtrip(v, n);
}

/// Decoding `n` raw bytes at `pos`: the exact value or error, and the
/// position after (unchanged on failure).
pub open spec fn chunk_dec(data: Seq<u8>, pos: int, e: Endian, n: nat) -> (Result<nat, Error>, int) {
    if pos + n <= data.len() {
        (Ok(chunk_value(e, data.subrange(pos, pos + n))), pos + n)
    } else {
        (
            Err(
                Error::InsufficientData {
                    requested: n as usize,
                    available: (data.len() - pos) as usize,
                },
            ),
            pos,
        )
    }
}

/// The buffer `data` with `bytes` written over it at `pos`.
pub open spec fn splice(data: Seq<u8>, pos: int, bytes: Seq<u8>) -> Seq<u8>
    recommends
        0 <= pos,
        pos + bytes.len() <= data.len(),
{
    data.subrange(0, pos) + bytes + data.subrange(pos + bytes.len(), data.len() as int)
}

/// Writing raw `bytes` over the buffer at `pos`: the exact outcome, the
/// buffer after, and the position after (both unchanged on failure).
pub open spec fn write_out(data: Seq<u8>, pos: int, bytes: Seq<u8>) -> (
    Result<(), Error>,
    Seq<u8>,
    int,
) {
    if pos + bytes.len() <= data.len() {
        (Ok(()), splice(data, pos, bytes), pos + bytes.len())
    } else {
        (
            Err(
                Error::InsufficientData {
                    requested: bytes.len() as usize,
                    available: (data.len() - pos) as usize,
                },
            ),
            data,
            pos,
        )
    }
}

/// Encoding `n` raw bytes of value `v` at `pos`: the exact outcome, the
/// buffer after, and the position after (both unchanged on failure).
pub open spec fn chunk_enc(v: nat, data: Seq<u8>, pos: int, e: Endian, n: nat) -> (
    Result<(), Error>,
    Seq<u8>,
    int,
) {
    if pos + n <= data.len() {
        (Ok(()), splice(data, pos, chunk_digits(e, v, n)), pos + n)
    } else {
        (
            Err(
                Error::InsufficientData {
                    requested: n as usize,
                    available: (data.len() - pos) as usize,
                },
            ),
            data,
            pos,
        )
    }
}

/// A single byte holds its own value in either byte order.
pub proof fn lemma_single_byte_value(e: Endian, s: Seq<u8>)
    requires
        s.len() == 1,
    ensures
        chunk_value(e, s) == s[0],
{
    assert(s.reverse() =~= s);
    assert(s.drop_first() =~= Seq::<u8>::empty());
    assert(le_value(Seq::<u8>::empty()) == 0);
    assert(le_value(s) == s[0] + 256 * le_value(s.drop_first()));
}

/// The values that 1, 2, 4, 8 and 16 bytes can hold.
pub proof fn lemma_pow256_vals()
    ensures
        pow256(1) == 0x100,
        pow256(2) == 0x10000,
        pow256(4) == 0x100000000,
        pow256(8) == 0x10000000000000000,
        pow256(16) == 0x100000000000000000000000000000000,
{
    reveal_with_fuel(pow256, 17);
}

} // verus!
