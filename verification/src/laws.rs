//! Round-trip laws: writing a primitive value and reading it back at the
//! same position under the same byte order reproduces the value exactly,
//! for every byte-order mode and every buffer where the value fits.

use crate::common::Endian;
use crate::encoding::{
    chunk_dec, chunk_digits, chunk_enc, lemma_chunk_digits_len, lemma_chunk_roundtrip,
    lemma_pow256_vals, lemma_single_byte_value, pow256, splice,
};
use crate::error::Error;
use crate::readable::{elems_dec, signed_of, Readable};
use crate::writable::{elems_enc, unsigned_of, Writable};
use crate::zstring::{zdec, ZString};
use vstd::prelude::*;

verus! {

/// The shared core of every numeric round trip: a value that fits in `n`
/// bytes, encoded at `pos` and decoded from there, comes back exactly, with
/// the buffer altered only over those `n` bytes and the position advanced
/// past them both times.
pub proof fn lemma_chunk_roundtrip_in_buffer(v: nat, data: Seq<u8>, pos: int, endian: Endian, n: nat)
    requires
        0 <= pos,
        pos + n <= data.len(),
        v < pow256(n),
    ensures
        ({
            let (wres, d, p) = chunk_enc(v, data, pos, endian, n);
            let (rres, p2) = chunk_dec(d, pos, endian, n);
            &&& wres is Ok
            &&& p == pos + n
            &&& d.len() == data.len()
            &&& d == splice(data, pos, chunk_digits(endian, v, n))
            &&& rres == Ok::<nat, Error>(v)
            &&& p2 == pos + n
        }),
{
    lemma_chunk_digits_len(endian, v, n);
    let digits = chunk_digits(endian, v, n);
    let d = splice(data, pos, digits);
    assert(d.subrange(pos, pos + n) =~= digits);
    lemma_chunk_roundtrip(endian, v, n);
}

/// Law: `write` then `read` of a `u8` under the same byte order, at the
/// same position, reproduces the value exactly, in all three byte-order
/// modes.
pub proof fn lemma_u8_roundtrip(v: u8, data: Seq<u8>, pos: int, endian: Endian)
    requires
        0 <= pos,
        pos + 1 <= data.len(),
    ensures
        ({
            let (wres, d, p) = <u8 as Writable>::enc(v, data, pos, endian);
            let (rres, p2) = <u8 as Readable>::dec(d, pos, endian);
            &&& wres is Ok
            &&& p == pos + 1
            &&& d.len() == data.len()
            &&& rres == Ok::<u8, Error>(v)
            &&& p2 == pos + 1
        }),
{
    lemma_pow256_vals();
    lemma_chunk_roundtrip_in_buffer(v as nat, data, pos, endian, 1);
}

/// Law: `write` then `read` of a `u16` under the same byte order, at the
/// same position, reproduces the value exactly, in all three byte-order
/// modes.
pub proof fn lemma_u16_roundtrip(v: u16, data: Seq<u8>, pos: int, endian: Endian)
    requires
        0 <= pos,
        pos + 2 <= data.len(),
    ensures
        ({
            let (wres, d, p) = <u16 as Writable>::enc(v, data, pos, endian);
            let (rres, p2) = <u16 as Readable>::dec(d, pos, endian);
            &&& wres is Ok
            &&& p == pos + 2
            &&& d.len() == data.len()
            &&& rres == Ok::<u16, Error>(v)
            &&& p2 == pos + 2
        }),
{
    lemma_pow256_vals();
    lemma_chunk_roundtrip_in_buffer(v as nat, data, pos, endian, 2);
}

/// Law: `write` then `read` of a `u32` under the same byte order, at the
/// same position, reproduces the value exactly, in all three byte-order
/// modes.
pub proof fn lemma_u32_roundtrip(v: u32, data: Seq<u8>, pos: int, endian: Endian)
    requires
        0 <= pos,
        pos + 4 <= data.len(),
    ensures
        ({
            let (wres, d, p) = <u32 as Writable>::enc(v, data, pos, endian);
            let (rres, p2) = <u32 as Readable>::dec(d, pos, endian);
            &&& wres is Ok
            &&& p == pos + 4
            &&& d.len() == data.len()
            &&& rres == Ok::<u32, Error>(v)
            &&& p2 == pos + 4
        }),
{
    lemma_pow256_vals();
    lemma_chunk_roundtrip_in_buffer(v as nat, data, pos, endian, 4);
}

/// Law: `write` then `read` of a `u64` under the same byte order, at the
/// same position, reproduces the value exactly, in all three byte-order
/// modes.
pub proof fn lemma_u64_roundtrip(v: u64, data: Seq<u8>, pos: int, endian: Endian)
    requires
        0 <= pos,
        pos + 8 <= data.len(),
    ensures
        ({
            let (wres, d, p) = <u64 as Writable>::enc(v, data, pos, endian);
            let (rres, p2) = <u64 as Readable>::dec(d, pos, endian);
            &&& wres is Ok
            &&& p == pos + 8
            &&& d.len() == data.len()
            &&& rres == Ok::<u64, Error>(v)
            &&& p2 == pos + 8
        }),
{
    lemma_pow256_vals();
    lemma_chunk_roundtrip_in_buffer(v as nat, data, pos, endian, 8);
}

/// Law: `write` then `read` of a `u128` under the same byte order, at the
/// same position, reproduces the value exactly, in all three byte-order
/// modes.
pub proof fn lemma_u128_roundtrip(v: u128, data: Seq<u8>, pos: int, endian: Endian)
    requires
        0 <= pos,
        pos + 16 <= data.len(),
    ensures
        ({
            let (wres, d, p) = <u128 as Writable>::enc(v, data, pos, endian);
            let (rres, p2) = <u128 as Readable>::dec(d, pos, endian);
            &&& wres is Ok
            &&& p == pos + 16
            &&& d.len() == data.len()
            &&& rres == Ok::<u128, Error>(v)
            &&& p2 == pos + 16
        }),
{
    lemma_pow256_vals();
    lemma_chunk_roundtrip_in_buffer(v as nat, data, pos, endian, 16);
}

/// Law: `write` then `read` of an `i8` under the same byte order, at the
/// same position, reproduces the value exactly, in all three byte-order
/// modes.
pub proof fn lemma_i8_roundtrip(v: i8, data: Seq<u8>, pos: int, endian: Endian)
    requires
        0 <= pos,
        pos + 1 <= data.len(),
    ensures
        ({
            let (wres, d, p) = <i8 as Writable>::enc(v, data, pos, endian);
            let (rres, p2) = <i8 as Readable>::dec(d, pos, endian);
            &&& wres is Ok
            &&& p == pos + 1
            &&& d.len() == data.len()
            &&& rres == Ok::<i8, Error>(v)
            &&& p2 == pos + 1
        }),
{
    lemma_pow256_vals();
    lemma_chunk_roundtrip_in_buffer(unsigned_of(v as int, 1), data, pos, endian, 1);
    assert(signed_of(unsigned_of(v as int, 1), 1) == v as int);
}

/// Law: `write` then `read` of an `i16` under the same byte order, at the
/// same position, reproduces the value exactly, in all three byte-order
/// modes.
pub proof fn lemma_i16_roundtrip(v: i16, data: Seq<u8>, pos: int, endian: Endian)
    requires
        0 <= pos,
        pos + 2 <= data.len(),
    ensures
        ({
            let (wres, d, p) = <i16 as Writable>::enc(v, data, pos, endian);
            let (rres, p2) = <i16 as Readable>::dec(d, pos, endian);
            &&& wres is Ok
            &&& p == pos + 2
            &&& d.len() == data.len()
            &&& rres == Ok::<i16, Error>(v)
            &&& p2 == pos + 2
        }),
{
    lemma_pow256_vals();
    lemma_chunk_roundtrip_in_buffer(unsigned_of(v as int, 2), data, pos, endian, 2);
    assert(signed_of(unsigned_of(v as int, 2), 2) == v as int);
}

/// Law: `write` then `read` of an `i32` under the same byte order, at the
/// same position, reproduces the value exactly, in all three byte-order
/// modes.
pub proof fn lemma_i32_roundtrip(v: i32, data: Seq<u8>, pos: int, endian: Endian)
    requires
        0 <= pos,
        pos + 4 <= data.len(),
    ensures
        ({
            let (wres, d, p) = <i32 as Writable>::enc(v, data, pos, endian);
            let (rres, p2) = <i32 as Readable>::dec(d, pos, endian);
            &&& wres is Ok
            &&& p == pos + 4
            &&& d.len() == data.len()
            &&& rres == Ok::<i32, Error>(v)
            &&& p2 == pos + 4
        }),
{
    lemma_pow256_vals();
    lemma_chunk_roundtrip_in_buffer(unsigned_of(v as int, 4), data, pos, endian, 4);
    assert(signed_of(unsigned_of(v as int, 4), 4) == v as int);
}

/// Law: `write` then `read` of an `i64` under the same byte order, at the
/// same position, reproduces the value exactly, in all three byte-order
/// modes.
pub proof fn lemma_i64_roundtrip(v: i64, data: Seq<u8>, pos: int, endian: Endian)
    requires
        0 <= pos,
        pos + 8 <= data.len(),
    ensures
        ({
            let (wres, d, p) = <i64 as Writable>::enc(v, data, pos, endian);
            let (rres, p2) = <i64 as Readable>::dec(d, pos, endian);
            &&& wres is Ok
            &&& p == pos + 8
            &&& d.len() == data.len()
            &&& rres == Ok::<i64, Error>(v)
            &&& p2 == pos + 8
        }),
{
    lemma_pow256_vals();
    lemma_chunk_roundtrip_in_buffer(unsigned_of(v as int, 8), data, pos, endian, 8);
    assert(signed_of(unsigned_of(v as int, 8), 8) == v as int);
}

/// Law: `write` then `read` of an `i128` under the same byte order, at the
/// same position, reproduces the value exactly, in all three byte-order
/// modes.
pub proof fn lemma_i128_roundtrip(v: i128, data: Seq<u8>, pos: int, endian: Endian)
    requires
        0 <= pos,
        pos + 16 <= data.len(),
    ensures
        ({
            let (wres, d, p) = <i128 as Writable>::enc(v, data, pos, endian);
            let (rres, p2) = <i128 as Readable>::dec(d, pos, endian);
            &&& wres is Ok
            &&& p == pos + 16
            &&& d.len() == data.len()
            &&& rres == Ok::<i128, Error>(v)
            &&& p2 == pos + 16
        }),
{
    lemma_pow256_vals();
    lemma_chunk_roundtrip_in_buffer(unsigned_of(v as int, 16), data, pos, endian, 16);
    assert(signed_of(unsigned_of(v as int, 16), 16) == v as int);
}

/// Law: `write` then `read` of a `usize` under the same byte order, at the
/// same position, reproduces the value exactly, in all three byte-order
/// modes.
pub proof fn lemma_usize_roundtrip(v: usize, data: Seq<u8>, pos: int, endian: Endian)
    requires
        0 <= pos,
        pos + 8 <= data.len(),
    ensures
        ({
            let (wres, d, p) = <usize as Writable>::enc(v, data, pos, endian);
            let (rres, p2) = <usize as Readable>::dec(d, pos, endian);
            &&& wres is Ok
            &&& p == pos + 8
            &&& d.len() == data.len()
            &&& rres == Ok::<usize, Error>(v)
            &&& p2 == pos + 8
        }),
{
    lemma_pow256_vals();
    lemma_chunk_roundtrip_in_buffer(v as nat, data, pos, endian, 8);
}

/// Law: `write` then `read` of an `isize` under the same byte order, at the
/// same position, reproduces the value exactly, in all three byte-order
/// modes.
pub proof fn lemma_isize_roundtrip(v: isize, data: Seq<u8>, pos: int, endian: Endian)
    requires
        0 <= pos,
        pos + 8 <= data.len(),
    ensures
        ({
            let (wres, d, p) = <isize as Writable>::enc(v, data, pos, endian);
            let (rres, p2) = <isize as Readable>::dec(d, pos, endian);
            &&& wres is Ok
            &&& p == pos + 8
            &&& d.len() == data.len()
            &&& rres == Ok::<isize, Error>(v)
            &&& p2 == pos + 8
        }),
{
    lemma_pow256_vals();
    lemma_chunk_roundtrip_in_buffer(unsigned_of(v as int, 8), data, pos, endian, 8);
    assert(signed_of(unsigned_of(v as int, 8), 8) == v as int);
}

/// Law: `write` then `read` of a `bool` under the same byte order, at the
/// same position, reproduces the value exactly; encode only ever emits the
/// bytes 0x00 and 0x01.
pub proof fn lemma_bool_roundtrip(v: bool, data: Seq<u8>, pos: int, endian: Endian)
    requires
        0 <= pos,
        pos + 1 <= data.len(),
    ensures
        ({
            let (wres, d, p) = <bool as Writable>::enc(v, data, pos, endian);
            let (rres, p2) = <bool as Readable>::dec(d, pos, endian);
            &&& wres is Ok
            &&& p == pos + 1
            &&& d.len() == data.len()
            &&& d[pos] == (if v { 1u8 } else { 0u8 })
            &&& rres == Ok::<bool, Error>(v)
            &&& p2 == pos + 1
        }),
{
    lemma_pow256_vals();
    let u: nat = if v { 1 } else { 0 };
    lemma_chunk_roundtrip_in_buffer(u, data, pos, endian, 1);
    let digits = chunk_digits(endian, u, 1);
    lemma_chunk_digits_len(endian, u, 1);
    let d = splice(data, pos, digits);
    assert(d[pos] == digits[0]);
    assert(d.subrange(pos, pos + 1) =~= digits);
    crate::encoding::lemma_single_byte_value(endian, digits);
}

/// Law: a boolean decode maps the byte 0x00 to `false`, 0x01 to `true`, and
/// any other byte to the generic invalidity error, always consuming one
/// byte.
pub proof fn lemma_bool_decode_byte(data: Seq<u8>, pos: int, endian: Endian)
    requires
        0 <= pos,
        pos + 1 <= data.len(),
    ensures
        ({
            let (rres, p2) = <bool as Readable>::dec(data, pos, endian);
            &&& p2 == pos + 1
            &&& data[pos] == 0 ==> rres == Ok::<bool, Error>(false)
            &&& data[pos] == 1 ==> rres == Ok::<bool, Error>(true)
            &&& (data[pos] != 0 && data[pos] != 1) ==> rres == Err::<bool, Error>(Error::NotValid)
        }),
{
    let s = data.subrange(pos, pos + 1);
    crate::encoding::lemma_single_byte_value(endian, s);
}


/// A sequence of single `u8` decodes reads the raw bytes: it succeeds on
/// exactly the bytes present, and runs to the end of the buffer before
/// failing.
pub proof fn lemma_u8_elems(data: Seq<u8>, pos: int, endian: Endian, n: nat)
    requires
        0 <= pos <= data.len(),
    ensures
        ({
            let (r, p) = elems_dec::<u8>(data, pos, endian, n);
            if pos + n <= data.len() {
                r == Ok::<Seq<u8>, Error>(data.subrange(pos, pos + n)) && p == pos + n
            } else {
                r == Err::<Seq<u8>, Error>(
                    Error::InsufficientData { requested: 1, available: 0 },
                ) && p == data.len()
            }
        }),
    decreases n,
{
    if n == 0 {
        assert(data.subrange(pos, pos) =~= Seq::<u8>::empty());
    } else if pos < data.len() {
        lemma_single_byte_value(endian, data.subrange(pos, pos + 1));
        assert(data.subrange(pos, pos + 1)[0] == data[pos]);
        lemma_u8_elems(data, pos + 1, endian, (n - 1) as nat);
        if pos + n <= data.len() {
            assert(seq![data[pos]] + data.subrange(pos + 1, pos + n) =~= data.subrange(
                pos,
                pos + n,
            ));
        }
    }
}

/// Law: a length-prefixed text round-trips: writing any string whose UTF-8
/// bytes fit the prefix and the buffer, then reading at the same position
/// under the same byte order, yields exactly the original characters.
pub proof fn lemma_string_roundtrip(v: Seq<char>, data: Seq<u8>, pos: int, endian: Endian)
    requires
        0 <= pos,
        vstd::utf8::encode_utf8(v).len() <= u32::MAX,
        pos + 4 + vstd::utf8::encode_utf8(v).len() <= data.len(),
        data.len() <= usize::MAX,
    ensures
        ({
            let bytes = vstd::utf8::encode_utf8(v);
            let (wres, d, p) = <String as Writable>::enc(v, data, pos, endian);
            let (rres, p2) = <String as Readable>::dec(d, pos, endian);
            &&& wres is Ok
            &&& p == pos + 4 + bytes.len()
            &&& d.len() == data.len()
            &&& rres == Ok::<Seq<char>, Error>(v)
            &&& p2 == p
        }),
{
    let bytes = vstd::utf8::encode_utf8(v);
    let n = bytes.len() as u32;
    lemma_pow256_vals();
    lemma_chunk_digits_len(endian, n as nat, 4);
    let d0 = splice(data, pos, chunk_digits(endian, n as nat, 4));
    let d = splice(d0, pos + 4, bytes);
    assert(d.subrange(pos, pos + 4) =~= chunk_digits(endian, n as nat, 4));
    lemma_chunk_roundtrip(endian, n as nat, 4);
    lemma_u8_elems(d, pos + 4, endian, bytes.len());
    assert(d.subrange(pos + 4, pos + 4 + bytes.len()) =~= bytes);
    vstd::utf8::encode_utf8_valid_utf8(v);
    vstd::utf8::encode_utf8_decode_utf8(v);
}

/// What decoding finds where zero-free content and a terminator were laid
/// down: the content, with the position just past the terminator.
proof fn lemma_zdec_of(data: Seq<u8>, pos: int, v: Seq<u8>)
    requires
        0 <= pos,
        pos + v.len() + 1 <= data.len(),
        forall|i: int| 0 <= i < v.len() ==> v[i] != 0,
        data.subrange(pos, pos + v.len()) == v,
        data[pos + v.len()] == 0,
    ensures
        zdec(data, pos) == (Ok::<Seq<u8>, Error>(v), pos + v.len() + 1),
    decreases v.len(),
{
    if v.len() == 0 {
        assert(data[pos] == 0);
        assert(v =~= Seq::<u8>::empty());
    } else {
        assert(data[pos] == v[0]);
        assert(data.subrange(pos + 1, pos + v.len()) =~= v.drop_first());
        lemma_zdec_of(data, pos + 1, v.drop_first());
        assert(seq![v[0]] + v.drop_first() =~= v);
    }
}

/// Law: null-terminated text round-trips: writing any zero-free content
/// that fits, then reading at the same position, appends exactly one
/// terminator, validates it, strips it, and yields the original content.
pub proof fn lemma_ztext_roundtrip(v: Seq<u8>, data: Seq<u8>, pos: int, endian: Endian)
    requires
        0 <= pos,
        forall|i: int| 0 <= i < v.len() ==> v[i] != 0,
        v.len() + 1 <= u32::MAX,
        pos + v.len() + 1 <= data.len(),
        data.len() <= usize::MAX,
    ensures
        ({
            let (wres, d, p) = <ZString as Writable>::enc(v, data, pos, endian);
            let (rres, p2) = <ZString as Readable>::dec(d, pos, endian);
            &&& wres is Ok
            &&& p == pos + v.len() + 1
            &&& d.len() == data.len()
            &&& d[pos + v.len()] == 0
            &&& rres == Ok::<Seq<u8>, Error>(v)
            &&& p2 == p
        }),
{
    let framed = v + seq![0u8];
    let d = splice(data, pos, framed);
    assert(d.subrange(pos, pos + v.len()) =~= v);
    assert(d[pos + v.len()] == framed[v.len() as int]);
    lemma_zdec_of(d, pos, v);
}

/// Encoding a run of `u32` values writes four bytes per element, leaves all
/// bytes before `pos` alone, and decodes back to the same values.
proof fn lemma_u32_elems_roundtrip(items: Seq<u32>, data: Seq<u8>, pos: int, endian: Endian)
    requires
        0 <= pos,
        pos + 4 * items.len() <= data.len(),
        data.len() <= usize::MAX,
    ensures
        ({
            let (wres, d, p) = elems_enc::<u32>(items, data, pos, endian);
            &&& wres is Ok
            &&& p == pos + 4 * items.len()
            &&& d.len() == data.len()
            &&& (forall|j: int| 0 <= j < pos ==> d[j] == data[j])
            &&& ({
                let (rres, p2) = elems_dec::<u32>(d, pos, endian, items.len());
                rres == Ok::<Seq<u32>, Error>(items) && p2 == p
            })
        }),
    decreases items.len(),
{
    lemma_pow256_vals();
    if items.len() == 0 {
        assert(elems_dec::<u32>(data, pos, endian, 0).0 == Ok::<Seq<u32>, Error>(
            Seq::empty(),
        ));
        assert(Seq::<u32>::empty() =~= items);
    } else {
        let v0 = items[0];
        lemma_chunk_digits_len(endian, v0 as nat, 4);
        let d0 = splice(data, pos, chunk_digits(endian, v0 as nat, 4));
        lemma_u32_elems_roundtrip(items.drop_first(), d0, pos + 4, endian);
        let (wres, d, p) = elems_enc::<u32>(items.drop_first(), d0, pos + 4, endian);
        assert(d.subrange(pos, pos + 4) =~= d0.subrange(pos, pos + 4)) by {
            assert(forall|j: int| 0 <= j < pos + 4 ==> d[j] == d0[j]);
        }
        assert(d0.subrange(pos, pos + 4) =~= chunk_digits(endian, v0 as nat, 4));
        lemma_chunk_roundtrip(endian, v0 as nat, 4);
        assert(seq![v0] + items.drop_first() =~= items);
    }
}

/// Law: a length-prefixed sequence of 4-byte unsigned values round-trips:
/// writing any `u32` sequence that fits the prefix and the buffer, then
/// reading at the same position under the same byte order, yields exactly
/// the original values, the empty sequence included.
pub proof fn lemma_vec_u32_roundtrip(items: Seq<u32>, data: Seq<u8>, pos: int, endian: Endian)
    requires
        0 <= pos,
        items.len() <= u32::MAX,
        pos + 4 + 4 * items.len() <= data.len(),
        data.len() <= usize::MAX,
    ensures
        ({
            let (wres, d, p) = <Vec<u32> as Writable>::enc(items, data, pos, endian);
            let (rres, p2) = <Vec<u32> as Readable>::dec(d, pos, endian);
            &&& wres is Ok
            &&& p == pos + 4 + 4 * items.len()
            &&& d.len() == data.len()
            &&& rres == Ok::<Seq<u32>, Error>(items)
            &&& p2 == p
        }),
{
    let n = items.len() as u32;
    lemma_pow256_vals();
    lemma_chunk_digits_len(endian, n as nat, 4);
    let d0 = splice(data, pos, chunk_digits(endian, n as nat, 4));
    lemma_u32_elems_roundtrip(items, d0, pos + 4, endian);
    let (wres, d, p) = elems_enc::<u32>(items, d0, pos + 4, endian);
    assert(d.subrange(pos, pos + 4) =~= d0.subrange(pos, pos + 4)) by {
        assert(forall|j: int| 0 <= j < pos + 4 ==> d[j] == d0[j]);
    }
    assert(d0.subrange(pos, pos + 4) =~= chunk_digits(endian, n as nat, 4));
    lemma_chunk_roundtrip(endian, n as nat, 4);
}

} // verus!
