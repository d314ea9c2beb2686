//! The consuming-encode protocol: the `Writable` trait, whose contract pins
//! every implementation to a deterministic encode function over the buffer,
//! and the built-in codecs for the primitive types.

use crate::common::Endian;
use crate::encoding::{chunk_enc, lemma_pow256_vals, pow256, splice, write_out};
use crate::error::Error;
use crate::writer::WriteStream;
use vstd::prelude::*;

verus! {

/// The unsigned representation of `x` in `n` bytes, two's complement.
pub open spec fn unsigned_of(x: int, n: nat) -> nat {
    if x >= 0 {
        x as nat
    } else {
        (x + pow256(n)) as nat
    }
}

/// A type that can be encoded into a byte stream.
///
/// The whole behaviour of `write` is the spec function [`Self::enc`]: given
/// the value (as its [`DeepView`]), the buffer, the position and the byte
/// order, `enc` names the exact buffer and position after the call and the
/// exact error, if any. Failed encodes are not rolled back: a composite that
/// fails part-way leaves its earlier fields written. The buffer's length
/// never changes; there is no implicit growth.
pub trait Writable: Sized + DeepView {
    /// The encode relation: the outcome, the buffer after, and the position
    /// after, all deterministic. Every verified implementation replaces the
    /// default, which claims only failure; implementations outside the
    /// verifier may leave it.
    open spec fn enc(v: Self::V, data: Seq<u8>, pos: int, endian: Endian) -> (
        Result<(), Error>,
        Seq<u8>,
        int,
    ) {
        (Err(Error::NotValid), data, pos)
    }

    /// Encodes one value of this type into the stream, changing its buffer
    /// and position exactly as [`Self::enc`] says.
    fn write(s: &mut WriteStream, val: &Self) -> (r: Result<(), Error>)
        requires
            old(s)@.wf(),
        ensures
            final(s)@.wf(),
            final(s)@.endian == old(s)@.endian,
            final(s)@.data.len() == old(s)@.data.len(),
            ({
                let (res, d, p) = Self::enc(
                    val.deep_view(),
                    old(s)@.data,
                    old(s)@.pos as int,
                    old(s)@.endian,
                );
                &&& final(s)@.data == d
                &&& final(s)@.pos == p
                &&& match (r, res) {
                    (Ok(()), Ok(())) => true,
                    (Err(e1), Err(e2)) => e1 == e2,
                    _ => false,
                }
            }),
    ;
}

impl Writable for u8 {
    /// Writes 1 byte in the stream's byte order.
    open spec fn enc(v: u8, data: Seq<u8>, pos: int, endian: Endian) -> (
        Result<(), Error>,
        Seq<u8>,
        int,
    ) {
        chunk_enc(v as nat, data, pos, endian, 1)
    }

    fn write(s: &mut WriteStream, val: &Self) -> (r: Result<(), Error>) {
        s.write_chunk(*val as u128, 1)
    }
}

impl Writable for u16 {
    /// Writes 2 bytes in the stream's byte order.
    open spec fn enc(v: u16, data: Seq<u8>, pos: int, endian: Endian) -> (
        Result<(), Error>,
        Seq<u8>,
        int,
    ) {
        chunk_enc(v as nat, data, pos, endian, 2)
    }

    fn write(s: &mut WriteStream, val: &Self) -> (r: Result<(), Error>) {
        s.write_chunk(*val as u128, 2)
    }
}

impl Writable for u32 {
    /// Writes 4 bytes in the stream's byte order.
    open spec fn enc(v: u32, data: Seq<u8>, pos: int, endian: Endian) -> (
        Result<(), Error>,
        Seq<u8>,
        int,
    ) {
        chunk_enc(v as nat, data, pos, endian, 4)
    }

    fn write(s: &mut WriteStream, val: &Self) -> (r: Result<(), Error>) {
        s.write_chunk(*val as u128, 4)
    }
}

impl Writable for u64 {
    /// Writes 8 bytes in the stream's byte order.
    open spec fn enc(v: u64, data: Seq<u8>, pos: int, endian: Endian) -> (
        Result<(), Error>,
        Seq<u8>,
        int,
    ) {
        chunk_enc(v as nat, data, pos, endian, 8)
    }

    fn write(s: &mut WriteStream, val: &Self) -> (r: Result<(), Error>) {
        s.write_chunk(*val as u128, 8)
    }
}

impl Writable for u128 {
    /// Writes 16 bytes in the stream's byte order.
    open spec fn enc(v: u128, data: Seq<u8>, pos: int, endian: Endian) -> (
        Result<(), Error>,
        Seq<u8>,
        int,
    ) {
        chunk_enc(v as nat, data, pos, endian, 16)
    }

    fn write(s: &mut WriteStream, val: &Self) -> (r: Result<(), Error>) {
        s.write_chunk(*val as u128, 16)
    }
}

impl Writable for i8 {
    /// Writes 1 byte in the stream's byte order, two's complement.
    open spec fn enc(v: i8, data: Seq<u8>, pos: int, endian: Endian) -> (
        Result<(), Error>,
        Seq<u8>,
        int,
    ) {
        chunk_enc(unsigned_of(v as int, 1), data, pos, endian, 1)
    }

    fn write(s: &mut WriteStream, val: &Self) -> (r: Result<(), Error>) {
        proof {
            lemma_pow256_vals();
        }
        let u: u128 = if *val >= 0 {
            *val as u128
        } else {
            ((*val as i128) + 0x100) as u128
        };
        s.write_chunk(u, 1)
    }
}

impl Writable for i16 {
    /// Writes 2 bytes in the stream's byte order, two's complement.
    open spec fn enc(v: i16, data: Seq<u8>, pos: int, endian: Endian) -> (
        Result<(), Error>,
        Seq<u8>,
        int,
    ) {
        chunk_enc(unsigned_of(v as int, 2), data, pos, endian, 2)
    }

    fn write(s: &mut WriteStream, val: &Self) -> (r: Result<(), Error>) {
        proof {
            lemma_pow256_vals();
        }
        let u: u128 = if *val >= 0 {
            *val as u128
        } else {
            ((*val as i128) + 0x10000) as u128
        };
        s.write_chunk(u, 2)
    }
}

impl Writable for i32 {
    /// Writes 4 bytes in the stream's byte order, two's complement.
    open spec fn enc(v: i32, data: Seq<u8>, pos: int, endian: Endian) -> (
        Result<(), Error>,
        Seq<u8>,
        int,
    ) {
        chunk_enc(unsigned_of(v as int, 4), data, pos, endian, 4)
    }

    fn write(s: &mut WriteStream, val: &Self) -> (r: Result<(), Error>) {
        proof {
            lemma_pow256_vals();
        }
        let u: u128 = if *val >= 0 {
            *val as u128
        } else {
            ((*val as i128) + 0x100000000) as u128
        };
        s.write_chunk(u, 4)
    }
}

impl Writable for i64 {
    /// Writes 8 bytes in the stream's byte order, two's complement.
    open spec fn enc(v: i64, data: Seq<u8>, pos: int, endian: Endian) -> (
        Result<(), Error>,
        Seq<u8>,
        int,
    ) {
        chunk_enc(unsigned_of(v as int, 8), data, pos, endian, 8)
    }

    fn write(s: &mut WriteStream, val: &Self) -> (r: Result<(), Error>) {
        proof {
            lemma_pow256_vals();
        }
        let u: u128 = if *val >= 0 {
            *val as u128
        } else {
            ((*val as i128) + 0x10000000000000000) as u128
        };
        s.write_chunk(u, 8)
    }
}

impl Writable for i128 {
    /// Writes 16 bytes in the stream's byte order, two's complement.
    open spec fn enc(v: i128, data: Seq<u8>, pos: int, endian: Endian) -> (
        Result<(), Error>,
        Seq<u8>,
        int,
    ) {
        chunk_enc(unsigned_of(v as int, 16), data, pos, endian, 16)
    }

    fn write(s: &mut WriteStream, val: &Self) -> (r: Result<(), Error>) {
        proof {
            lemma_pow256_vals();
        }
        let u: u128 = if *val >= 0 {
            *val as u128
        } else {
            ((*val - i128::MIN) as u128) + 0x80000000000000000000000000000000u128
        };
        s.write_chunk(u, 16)
    }
}

impl Writable for usize {
    /// Writes 8 bytes in the stream's byte order.
    open spec fn enc(v: usize, data: Seq<u8>, pos: int, endian: Endian) -> (
        Result<(), Error>,
        Seq<u8>,
        int,
    ) {
        chunk_enc(v as nat, data, pos, endian, 8)
    }

    fn write(s: &mut WriteStream, val: &Self) -> (r: Result<(), Error>) {
        s.write_chunk(*val as u128, 8)
    }
}

impl Writable for isize {
    /// Writes 8 bytes in the stream's byte order, two's complement.
    open spec fn enc(v: isize, data: Seq<u8>, pos: int, endian: Endian) -> (
        Result<(), Error>,
        Seq<u8>,
        int,
    ) {
        chunk_enc(unsigned_of(v as int, 8), data, pos, endian, 8)
    }

    fn write(s: &mut WriteStream, val: &Self) -> (r: Result<(), Error>) {
        proof {
            lemma_pow256_vals();
        }
        let u: u128 = if *val >= 0 {
            *val as u128
        } else {
            ((*val as i128) + 0x10000000000000000) as u128
        };
        s.write_chunk(u, 8)
    }
}

impl Writable for bool {
    /// Writes one byte: `false` as 0x00, `true` as 0x01; nothing else is
    /// ever emitted.
    open spec fn enc(v: bool, data: Seq<u8>, pos: int, endian: Endian) -> (
        Result<(), Error>,
        Seq<u8>,
        int,
    ) {
        chunk_enc(if v { 1 } else { 0 }, data, pos, endian, 1)
    }

    fn write(s: &mut WriteStream, val: &Self) -> (r: Result<(), Error>) {
        if *val {
            s.write_chunk(1, 1)
        } else {
            s.write_chunk(0, 1)
        }
    }
}


/// The deep views of a sequence of values, element by element.
pub open spec fn deep_of_seq<T: DeepView>(s: Seq<T>) -> Seq<T::V> {
    Seq::new(s.len(), |i: int| s[i].deep_view())
}

/// Computes the UTF-8 bytes of one character: one to four of them,
/// exactly [`vstd::utf8::encode_scalar`] of its scalar value.
fn encode_char_bytes(c: char) -> (b: Vec<u8>)
    ensures
        b@ == vstd::utf8::encode_scalar(c as u32),
{
    proof {
        vstd::utf8::char_is_scalar(c);
    }
    let v = c as u32;
    let mut b: Vec<u8> = Vec::new();
    if v <= 0x7F {
        b.push(#[verifier::truncate] ((v & 0x7F) as u8));
        proof {
            assert(b@ =~= vstd::utf8::encode_scalar(c as u32));
        }
    } else if v <= 0x7FF {
        b.push(0xC0u8 | (#[verifier::truncate] (((v >> 6) & 0x1F) as u8)));
        b.push(0x80u8 | (#[verifier::truncate] ((v & 0x3F) as u8)));
        proof {
            assert(b@ =~= vstd::utf8::encode_scalar(c as u32));
        }
    } else if v <= 0xFFFF {
        b.push(0xE0u8 | (#[verifier::truncate] (((v >> 12) & 0x0F) as u8)));
        b.push(0x80u8 | (#[verifier::truncate] (((v >> 6) & 0x3F) as u8)));
        b.push(0x80u8 | (#[verifier::truncate] ((v & 0x3F) as u8)));
        proof {
            assert(b@ =~= vstd::utf8::encode_scalar(c as u32));
        }
    } else {
        b.push(0xF0u8 | (#[verifier::truncate] (((v >> 18) & 0x7) as u8)));
        b.push(0x80u8 | (#[verifier::truncate] (((v >> 12) & 0x3F) as u8)));
        b.push(0x80u8 | (#[verifier::truncate] (((v >> 6) & 0x3F) as u8)));
        b.push(0x80u8 | (#[verifier::truncate] ((v & 0x3F) as u8)));
        proof {
            assert(b@ =~= vstd::utf8::encode_scalar(c as u32));
        }
    }
    b
}

impl Writable for char {
    /// Writes the character as its one to four UTF-8 bytes. The built-in
    /// set defines no symmetric decode: a scalar value is decoded by
    /// composite callers, and this asymmetry is deliberate.
    open spec fn enc(v: char, data: Seq<u8>, pos: int, endian: Endian) -> (
        Result<(), Error>,
        Seq<u8>,
        int,
    ) {
        write_out(data, pos, vstd::utf8::encode_scalar(v as u32))
    }

    fn write(s: &mut WriteStream, val: &Self) -> (r: Result<(), Error>) {
        let bytes = encode_char_bytes(*val);
        s.write_exact(bytes.as_slice())
    }
}

/// Encoding the values of `items` one after the other: the buffer and
/// position after, or the first failure at its exact stop state.
pub open spec fn elems_enc<T: Writable>(
    items: Seq<T::V>,
    data: Seq<u8>,
    pos: int,
    endian: Endian,
) -> (Result<(), Error>, Seq<u8>, int)
    decreases items.len(),
{
    if items.len() == 0 {
        (Ok(()), data, pos)
    } else {
        let (r0, d0, p0) = T::enc(items[0], data, pos, endian);
        match r0 {
            Err(e) => (Err(e), d0, p0),
            Ok(()) => elems_enc::<T>(items.drop_first(), d0, p0, endian),
        }
    }
}

/// Writes the elements of `items` in index order, exactly as [`elems_enc`]
/// says; a failure part-way leaves the earlier elements written.
#[verifier::loop_isolation(false)]
fn write_elems<T: Writable>(s: &mut WriteStream, items: &[T]) -> (r: Result<(), Error>)
    requires
        old(s)@.wf(),
    ensures
        final(s)@.wf(),
        final(s)@.endian == old(s)@.endian,
        final(s)@.data.len() == old(s)@.data.len(),
        ({
            let (res, d, p) = elems_enc::<T>(
                deep_of_seq(items@),
                old(s)@.data,
                old(s)@.pos as int,
                old(s)@.endian,
            );
            &&& final(s)@.data == d
            &&& final(s)@.pos == p
            &&& match (r, res) {
                (Ok(()), Ok(())) => true,
                (Err(e1), Err(e2)) => e1 == e2,
                _ => false,
            }
        }),
{
    let ghost full = elems_enc::<T>(deep_of_seq(items@), s@.data, s@.pos as int, s@.endian);
    let ghost e0 = s@.endian;
    let ghost len0 = s@.data.len();
    let n = items.len();
    let mut i: usize = 0;
    proof {
        assert(deep_of_seq(items@).subrange(0, n as int) =~= deep_of_seq(items@));
    }
    while i < n
        invariant
            i <= n,
            s@.wf(),
            s@.endian == e0,
            s@.data.len() == len0,
            full == elems_enc::<T>(
                deep_of_seq(items@).subrange(i as int, n as int),
                s@.data,
                s@.pos as int,
                e0,
            ),
        decreases n - i,
    {
        let ghost remaining = deep_of_seq(items@).subrange(i as int, n as int);
        proof {
            assert(remaining[0] == items@[i as int].deep_view());
            assert(remaining.drop_first() =~= deep_of_seq(items@).subrange(i + 1, n as int));
        }
        match s.write::<T>(&items[i]) {
            Ok(()) => {
                i = i + 1;
            },
            Err(e) => {
                return Err(e);
            },
        }
    }
    Ok(())
}

impl<T: Writable, const N: usize> Writable for [T; N] {
    /// Writes the `N` elements in index order, short-circuiting on the
    /// first failure without rolling back.
    open spec fn enc(v: Seq<T::V>, data: Seq<u8>, pos: int, endian: Endian) -> (
        Result<(), Error>,
        Seq<u8>,
        int,
    ) {
        elems_enc::<T>(v, data, pos, endian)
    }

    fn write(s: &mut WriteStream, val: &Self) -> (r: Result<(), Error>) {
        proof {
            assert(val.deep_view() =~= deep_of_seq(val@));
        }
        write_elems::<T>(s, vstd::array::array_as_slice(val))
    }
}

impl<T: Writable> Writable for Vec<T> {
    /// Writes a 4-byte unsigned count in the stream's byte order, then the
    /// elements in index order; a vector longer than the prefix can count
    /// fails as `NotValid` before anything is written.
    open spec fn enc(v: Seq<T::V>, data: Seq<u8>, pos: int, endian: Endian) -> (
        Result<(), Error>,
        Seq<u8>,
        int,
    ) {
        if v.len() > u32::MAX {
            (Err(Error::NotValid), data, pos)
        } else {
            let (r0, d0, p0) = <u32 as Writable>::enc(v.len() as u32, data, pos, endian);
            match r0 {
                Err(e) => (Err(e), d0, p0),
                Ok(()) => elems_enc::<T>(v, d0, p0, endian),
            }
        }
    }

    fn write(s: &mut WriteStream, val: &Self) -> (r: Result<(), Error>) {
        proof {
            assert(val.deep_view() =~= deep_of_seq(val@));
        }
        if val.len() > u32::MAX as usize {
            return Err(Error::NotValid);
        }
        let n = val.len() as u32;
        match s.write::<u32>(&n) {
            Ok(()) => (),
            Err(e) => {
                return Err(e);
            },
        }
        write_elems::<T>(s, val.as_slice())
    }
}

impl Writable for String {
    /// Writes a 4-byte unsigned count of the UTF-8 bytes in the stream's
    /// byte order, then those bytes; a string whose encoding is longer than
    /// the prefix can count fails as `NotValid` before anything is written.
    open spec fn enc(v: Seq<char>, data: Seq<u8>, pos: int, endian: Endian) -> (
        Result<(), Error>,
        Seq<u8>,
        int,
    ) {
        let bytes = vstd::utf8::encode_utf8(v);
        if bytes.len() > u32::MAX {
            (Err(Error::NotValid), data, pos)
        } else {
            let (r0, d0, p0) = <u32 as Writable>::enc(bytes.len() as u32, data, pos, endian);
            match r0 {
                Err(e) => (Err(e), d0, p0),
                Ok(()) => write_out(d0, p0, bytes),
            }
        }
    }

    fn write(s: &mut WriteStream, val: &Self) -> (r: Result<(), Error>) {
        let bs = val.as_str().as_bytes();
        let len = bs.len();
        if len > u32::MAX as usize {
            return Err(Error::NotValid);
        }
        let n = len as u32;
        match s.write::<u32>(&n) {
            Ok(()) => (),
            Err(e) => {
                return Err(e);
            },
        }
        s.write_exact(bs)
    }
}


impl<T0: Writable> Writable for (T0,) {
    /// Writes the 1 field in declaration order, short-circuiting on the
    /// first failure without rolling back.
    open spec fn enc(v: (T0::V,), data: Seq<u8>, pos: int, endian: Endian) -> (
        Result<(), Error>,
        Seq<u8>,
        int,
    ) {
        let (r0, d0, p0) = T0::enc(v.0, data, pos, endian);
        (r0, d0, p0)
    }

    fn write(s: &mut WriteStream, val: &Self) -> (r: Result<(), Error>) {
        s.write::<T0>(&val.0)
    }
}

impl<T0: Writable, T1: Writable> Writable for (T0, T1) {
    /// Writes the 2 fields in declaration order, short-circuiting on the
    /// first failure without rolling back.
    open spec fn enc(v: (T0::V, T1::V), data: Seq<u8>, pos: int, endian: Endian) -> (
        Result<(), Error>,
        Seq<u8>,
        int,
    ) {
        let (r0, d0, p0) = T0::enc(v.0, data, pos, endian);
        match r0 {
            Err(e) => (Err(e), d0, p0),
            Ok(()) => {
                let (r1, d1, p1) = T1::enc(v.1, d0, p0, endian);
                (r1, d1, p1)
            },
        }
    }

    fn write(s: &mut WriteStream, val: &Self) -> (r: Result<(), Error>) {
        match s.write::<T0>(&val.0) {
            Ok(()) => (),
            Err(e) => {
                return Err(e);
            },
        };
        s.write::<T1>(&val.1)
    }
}

impl<T0: Writable, T1: Writable, T2: Writable> Writable for (T0, T1, T2) {
    /// Writes the 3 fields in declaration order, short-circuiting on the
    /// first failure without rolling back.
    open spec fn enc(v: (T0::V, T1::V, T2::V), data: Seq<u8>, pos: int, endian: Endian) -> (
        Result<(), Error>,
        Seq<u8>,
        int,
    ) {
        let (r0, d0, p0) = T0::enc(v.0, data, pos, endian);
        match r0 {
            Err(e) => (Err(e), d0, p0),
            Ok(()) => {
                let (r1, d1, p1) = T1::enc(v.1, d0, p0, endian);
                match r1 {
                    Err(e) => (Err(e), d1, p1),
                    Ok(()) => {
                        let (r2, d2, p2) = T2::enc(v.2, d1, p1, endian);
                        (r2, d2, p2)
                    },
                }
            },
        }
    }

    fn write(s: &mut WriteStream, val: &Self) -> (r: Result<(), Error>) {
        match s.write::<T0>(&val.0) {
            Ok(()) => (),
            Err(e) => {
                return Err(e);
            },
        };
        match s.write::<T1>(&val.1) {
            Ok(()) => (),
            Err(e) => {
                return Err(e);
            },
        };
        s.write::<T2>(&val.2)
    }
}

impl<T0: Writable, T1: Writable, T2: Writable, T3: Writable> Writable for (T0, T1, T2, T3) {
    /// Writes the 4 fields in declaration order, short-circuiting on the
    /// first failure without rolling back.
    open spec fn enc(v: (T0::V, T1::V, T2::V, T3::V), data: Seq<u8>, pos: int, endian: Endian) -> (
        Result<(), Error>,
        Seq<u8>,
        int,
    ) {
        let (r0, d0, p0) = T0::enc(v.0, data, pos, endian);
        match r0 {
            Err(e) => (Err(e), d0, p0),
            Ok(()) => {
                let (r1, d1, p1) = T1::enc(v.1, d0, p0, endian);
                match r1 {
                    Err(e) => (Err(e), d1, p1),
                    Ok(()) => {
                        let (r2, d2, p2) = T2::enc(v.2, d1, p1, endian);
                        match r2 {
                            Err(e) => (Err(e), d2, p2),
                            Ok(()) => {
                                let (r3, d3, p3) = T3::enc(v.3, d2, p2, endian);
                                (r3, d3, p3)
                            },
                        }
                    },
                }
            },
        }
    }

    fn write(s: &mut WriteStream, val: &Self) -> (r: Result<(), Error>) {
        match s.write::<T0>(&val.0) {
            Ok(()) => (),
            Err(e) => {
                return Err(e);
            },
        };
        match s.write::<T1>(&val.1) {
            Ok(()) => (),
            Err(e) => {
                return Err(e);
            },
        };
        match s.write::<T2>(&val.2) {
            Ok(()) => (),
            Err(e) => {
                return Err(e);
            },
        };
        s.write::<T3>(&val.3)
    }
}

impl<T0: Writable, T1: Writable, T2: Writable, T3: Writable, T4: Writable> Writable for (T0, T1, T2, T3, T4) {
    /// Writes the 5 fields in declaration order, short-circuiting on the
    /// first failure without rolling back.
    open spec fn enc(v: (T0::V, T1::V, T2::V, T3::V, T4::V), data: Seq<u8>, pos: int, endian: Endian) -> (
        Result<(), Error>,
        Seq<u8>,
        int,
    ) {
        let (r0, d0, p0) = T0::enc(v.0, data, pos, endian);
        match r0 {
            Err(e) => (Err(e), d0, p0),
            Ok(()) => {
                let (r1, d1, p1) = T1::enc(v.1, d0, p0, endian);
                match r1 {
                    Err(e) => (Err(e), d1, p1),
                    Ok(()) => {
                        let (r2, d2, p2) = T2::enc(v.2, d1, p1, endian);
                        match r2 {
                            Err(e) => (Err(e), d2, p2),
                            Ok(()) => {
                                let (r3, d3, p3) = T3::enc(v.3, d2, p2, endian);
                                match r3 {
                                    Err(e) => (Err(e), d3, p3),
                                    Ok(()) => {
                                        let (r4, d4, p4) = T4::enc(v.4, d3, p3, endian);
                                        (r4, d4, p4)
                                    },
                                }
                            },
                        }
                    },
                }
            },
        }
    }

    fn write(s: &mut WriteStream, val: &Self) -> (r: Result<(), Error>) {
        match s.write::<T0>(&val.0) {
            Ok(()) => (),
            Err(e) => {
                return Err(e);
            },
        };
        match s.write::<T1>(&val.1) {
            Ok(()) => (),
            Err(e) => {
                return Err(e);
            },
        };
        match s.write::<T2>(&val.2) {
            Ok(()) => (),
            Err(e) => {
                return Err(e);
            },
        };
        match s.write::<T3>(&val.3) {
            Ok(()) => (),
            Err(e) => {
                return Err(e);
            },
        };
        s.write::<T4>(&val.4)
    }
}

impl<T0: Writable, T1: Writable, T2: Writable, T3: Writable, T4: Writable, T5: Writable> Writable for (T0, T1, T2, T3, T4, T5) {
    /// Writes the 6 fields in declaration order, short-circuiting on the
    /// first failure without rolling back.
    open spec fn enc(v: (T0::V, T1::V, T2::V, T3::V, T4::V, T5::V), data: Seq<u8>, pos: int, endian: Endian) -> (
        Result<(), Error>,
        Seq<u8>,
        int,
    ) {
        let (r0, d0, p0) = T0::enc(v.0, data, pos, endian);
        match r0 {
            Err(e) => (Err(e), d0, p0),
            Ok(()) => {
                let (r1, d1, p1) = T1::enc(v.1, d0, p0, endian);
                match r1 {
                    Err(e) => (Err(e), d1, p1),
                    Ok(()) => {
                        let (r2, d2, p2) = T2::enc(v.2, d1, p1, endian);
                        match r2 {
                            Err(e) => (Err(e), d2, p2),
                            Ok(()) => {
                                let (r3, d3, p3) = T3::enc(v.3, d2, p2, endian);
                                match r3 {
                                    Err(e) => (Err(e), d3, p3),
                                    Ok(()) => {
                                        let (r4, d4, p4) = T4::enc(v.4, d3, p3, endian);
                                        match r4 {
                                            Err(e) => (Err(e), d4, p4),
                                            Ok(()) => {
                                                let (r5, d5, p5) = T5::enc(v.5, d4, p4, endian);
                                                (r5, d5, p5)
                                            },
                                        }
                                    },
                                }
                            },
                        }
                    },
                }
            },
        }
    }

    fn write(s: &mut WriteStream, val: &Self) -> (r: Result<(), Error>) {
        match s.write::<T0>(&val.0) {
            Ok(()) => (),
            Err(e) => {
                return Err(e);
            },
        };
        match s.write::<T1>(&val.1) {
            Ok(()) => (),
            Err(e) => {
                return Err(e);
            },
        };
        match s.write::<T2>(&val.2) {
            Ok(()) => (),
            Err(e) => {
                return Err(e);
            },
        };
        match s.write::<T3>(&val.3) {
            Ok(()) => (),
            Err(e) => {
                return Err(e);
            },
        };
        match s.write::<T4>(&val.4) {
            Ok(()) => (),
            Err(e) => {
                return Err(e);
            },
        };
        s.write::<T5>(&val.5)
    }
}

impl<T0: Writable, T1: Writable, T2: Writable, T3: Writable, T4: Writable, T5: Writable, T6: Writable> Writable for (T0, T1, T2, T3, T4, T5, T6) {
    /// Writes the 7 fields in declaration order, short-circuiting on the
    /// first failure without rolling back.
    open spec fn enc(v: (T0::V, T1::V, T2::V, T3::V, T4::V, T5::V, T6::V), data: Seq<u8>, pos: int, endian: Endian) -> (
        Result<(), Error>,
        Seq<u8>,
        int,
    ) {
        let (r0, d0, p0) = T0::enc(v.0, data, pos, endian);
        match r0 {
            Err(e) => (Err(e), d0, p0),
            Ok(()) => {
                let (r1, d1, p1) = T1::enc(v.1, d0, p0, endian);
                match r1 {
                    Err(e) => (Err(e), d1, p1),
                    Ok(()) => {
                        let (r2, d2, p2) = T2::enc(v.2, d1, p1, endian);
                        match r2 {
                            Err(e) => (Err(e), d2, p2),
                            Ok(()) => {
                                let (r3, d3, p3) = T3::enc(v.3, d2, p2, endian);
                                match r3 {
                                    Err(e) => (Err(e), d3, p3),
                                    Ok(()) => {
                                        let (r4, d4, p4) = T4::enc(v.4, d3, p3, endian);
                                        match r4 {
                                            Err(e) => (Err(e), d4, p4),
                                            Ok(()) => {
                                                let (r5, d5, p5) = T5::enc(v.5, d4, p4, endian);
                                                match r5 {
                                                    Err(e) => (Err(e), d5, p5),
                                                    Ok(()) => {
                                                        let (r6, d6, p6) = T6::enc(v.6, d5, p5, endian);
                                                        (r6, d6, p6)
                                                    },
                                                }
                                            },
                                        }
                                    },
                                }
                            },
                        }
                    },
                }
            },
        }
    }

    fn write(s: &mut WriteStream, val: &Self) -> (r: Result<(), Error>) {
        match s.write::<T0>(&val.0) {
            Ok(()) => (),
            Err(e) => {
                return Err(e);
            },
        };
        match s.write::<T1>(&val.1) {
            Ok(()) => (),
            Err(e) => {
                return Err(e);
            },
        };
        match s.write::<T2>(&val.2) {
            Ok(()) => (),
            Err(e) => {
                return Err(e);
            },
        };
        match s.write::<T3>(&val.3) {
            Ok(()) => (),
            Err(e) => {
                return Err(e);
            },
        };
        match s.write::<T4>(&val.4) {
            Ok(()) => (),
            Err(e) => {
                return Err(e);
            },
        };
        match s.write::<T5>(&val.5) {
            Ok(()) => (),
            Err(e) => {
                return Err(e);
            },
        };
        s.write::<T6>(&val.6)
    }
}

impl<T0: Writable, T1: Writable, T2: Writable, T3: Writable, T4: Writable, T5: Writable, T6: Writable, T7: Writable> Writable for (T0, T1, T2, T3, T4, T5, T6, T7) {
    /// Writes the 8 fields in declaration order, short-circuiting on the
    /// first failure without rolling back.
    open spec fn enc(v: (T0::V, T1::V, T2::V, T3::V, T4::V, T5::V, T6::V, T7::V), data: Seq<u8>, pos: int, endian: Endian) -> (
        Result<(), Error>,
        Seq<u8>,
        int,
    ) {
        let (r0, d0, p0) = T0::enc(v.0, data, pos, endian);
        match r0 {
            Err(e) => (Err(e), d0, p0),
            Ok(()) => {
                let (r1, d1, p1) = T1::enc(v.1, d0, p0, endian);
                match r1 {
                    Err(e) => (Err(e), d1, p1),
                    Ok(()) => {
                        let (r2, d2, p2) = T2::enc(v.2, d1, p1, endian);
                        match r2 {
                            Err(e) => (Err(e), d2, p2),
                            Ok(()) => {
                                let (r3, d3, p3) = T3::enc(v.3, d2, p2, endian);
                                match r3 {
                                    Err(e) => (Err(e), d3, p3),
                                    Ok(()) => {
                                        let (r4, d4, p4) = T4::enc(v.4, d3, p3, endian);
                                        match r4 {
                                            Err(e) => (Err(e), d4, p4),
                                            Ok(()) => {
                                                let (r5, d5, p5) = T5::enc(v.5, d4, p4, endian);
                                                match r5 {
                                                    Err(e) => (Err(e), d5, p5),
                                                    Ok(()) => {
                                                        let (r6, d6, p6) = T6::enc(v.6, d5, p5, endian);
                                                        match r6 {
                                                            Err(e) => (Err(e), d6, p6),
                                                            Ok(()) => {
                                                                let (r7, d7, p7) = T7::enc(v.7, d6, p6, endian);
                                                                (r7, d7, p7)
                                                            },
                                                        }
                                                    },
                                                }
                                            },
                                        }
                                    },
                                }
                            },
                        }
                    },
                }
            },
        }
    }

    fn write(s: &mut WriteStream, val: &Self) -> (r: Result<(), Error>) {
        match s.write::<T0>(&val.0) {
            Ok(()) => (),
            Err(e) => {
                return Err(e);
            },
        };
        match s.write::<T1>(&val.1) {
            Ok(()) => (),
            Err(e) => {
                return Err(e);
            },
        };
        match s.write::<T2>(&val.2) {
            Ok(()) => (),
            Err(e) => {
                return Err(e);
            },
        };
        match s.write::<T3>(&val.3) {
            Ok(()) => (),
            Err(e) => {
                return Err(e);
            },
        };
        match s.write::<T4>(&val.4) {
            Ok(()) => (),
            Err(e) => {
                return Err(e);
            },
        };
        match s.write::<T5>(&val.5) {
            Ok(()) => (),
            Err(e) => {
                return Err(e);
            },
        };
        match s.write::<T6>(&val.6) {
            Ok(()) => (),
            Err(e) => {
                return Err(e);
            },
        };
        s.write::<T7>(&val.7)
    }
}

impl<T0: Writable, T1: Writable, T2: Writable, T3: Writable, T4: Writable, T5: Writable, T6: Writable, T7: Writable, T8: Writable> Writable for (T0, T1, T2, T3, T4, T5, T6, T7, T8) {
    /// Writes the 9 fields in declaration order, short-circuiting on the
    /// first failure without rolling back.
    open spec fn enc(v: (T0::V, T1::V, T2::V, T3::V, T4::V, T5::V, T6::V, T7::V, T8::V), data: Seq<u8>, pos: int, endian: Endian) -> (
        Result<(), Error>,
        Seq<u8>,
        int,
    ) {
        let (r0, d0, p0) = T0::enc(v.0, data, pos, endian);
        match r0 {
            Err(e) => (Err(e), d0, p0),
            Ok(()) => {
                let (r1, d1, p1) = T1::enc(v.1, d0, p0, endian);
                match r1 {
                    Err(e) => (Err(e), d1, p1),
                    Ok(()) => {
                        let (r2, d2, p2) = T2::enc(v.2, d1, p1, endian);
                        match r2 {
                            Err(e) => (Err(e), d2, p2),
                            Ok(()) => {
                                let (r3, d3, p3) = T3::enc(v.3, d2, p2, endian);
                                match r3 {
                                    Err(e) => (Err(e), d3, p3),
                                    Ok(()) => {
                                        let (r4, d4, p4) = T4::enc(v.4, d3, p3, endian);
                                        match r4 {
                                            Err(e) => (Err(e), d4, p4),
                                            Ok(()) => {
                                                let (r5, d5, p5) = T5::enc(v.5, d4, p4, endian);
                                                match r5 {
                                                    Err(e) => (Err(e), d5, p5),
                                                    Ok(()) => {
                                                        let (r6, d6, p6) = T6::enc(v.6, d5, p5, endian);
                                                        match r6 {
                                                            Err(e) => (Err(e), d6, p6),
                                                            Ok(()) => {
                                                                let (r7, d7, p7) = T7::enc(v.7, d6, p6, endian);
                                                                match r7 {
                                                                    Err(e) => (Err(e), d7, p7),
                                                                    Ok(()) => {
                                                                        let (r8, d8, p8) = T8::enc(v.8, d7, p7, endian);
                                                                        (r8, d8, p8)
                                                                    },
                                                                }
                                                            },
                                                        }
                                                    },
                                                }
                                            },
                                        }
                                    },
                                }
                            },
                        }
                    },
                }
            },
        }
    }

    fn write(s: &mut WriteStream, val: &Self) -> (r: Result<(), Error>) {
        match s.write::<T0>(&val.0) {
            Ok(()) => (),
            Err(e) => {
                return Err(e);
            },
        };
        match s.write::<T1>(&val.1) {
            Ok(()) => (),
            Err(e) => {
                return Err(e);
            },
        };
        match s.write::<T2>(&val.2) {
            Ok(()) => (),
            Err(e) => {
                return Err(e);
            },
        };
        match s.write::<T3>(&val.3) {
            Ok(()) => (),
            Err(e) => {
                return Err(e);
            },
        };
        match s.write::<T4>(&val.4) {
            Ok(()) => (),
            Err(e) => {
                return Err(e);
            },
        };
        match s.write::<T5>(&val.5) {
            Ok(()) => (),
            Err(e) => {
                return Err(e);
            },
        };
        match s.write::<T6>(&val.6) {
            Ok(()) => (),
            Err(e) => {
                return Err(e);
            },
        };
        match s.write::<T7>(&val.7) {
            Ok(()) => (),
            Err(e) => {
                return Err(e);
            },
        };
        s.write::<T8>(&val.8)
    }
}

impl<T0: Writable, T1: Writable, T2: Writable, T3: Writable, T4: Writable, T5: Writable, T6: Writable, T7: Writable, T8: Writable, T9: Writable> Writable for (T0, T1, T2, T3, T4, T5, T6, T7, T8, T9) {
    /// Writes the 10 fields in declaration order, short-circuiting on the
    /// first failure without rolling back.
    open spec fn enc(v: (T0::V, T1::V, T2::V, T3::V, T4::V, T5::V, T6::V, T7::V, T8::V, T9::V), data: Seq<u8>, pos: int, endian: Endian) -> (
        Result<(), Error>,
        Seq<u8>,
        int,
    ) {
        let (r0, d0, p0) = T0::enc(v.0, data, pos, endian);
        match r0 {
            Err(e) => (Err(e), d0, p0),
            Ok(()) => {
                let (r1, d1, p1) = T1::enc(v.1, d0, p0, endian);
                match r1 {
                    Err(e) => (Err(e), d1, p1),
                    Ok(()) => {
                        let (r2, d2, p2) = T2::enc(v.2, d1, p1, endian);
                        match r2 {
                            Err(e) => (Err(e), d2, p2),
                            Ok(()) => {
                                let (r3, d3, p3) = T3::enc(v.3, d2, p2, endian);
                                match r3 {
                                    Err(e) => (Err(e), d3, p3),
                                    Ok(()) => {
                                        let (r4, d4, p4) = T4::enc(v.4, d3, p3, endian);
                                        match r4 {
                                            Err(e) => (Err(e), d4, p4),
                                            Ok(()) => {
                                                let (r5, d5, p5) = T5::enc(v.5, d4, p4, endian);
                                                match r5 {
                                                    Err(e) => (Err(e), d5, p5),
                                                    Ok(()) => {
                                                        let (r6, d6, p6) = T6::enc(v.6, d5, p5, endian);
                                                        match r6 {
                                                            Err(e) => (Err(e), d6, p6),
                                                            Ok(()) => {
                                                                let (r7, d7, p7) = T7::enc(v.7, d6, p6, endian);
                                                                match r7 {
                                                                    Err(e) => (Err(e), d7, p7),
                                                                    Ok(()) => {
                                                                        let (r8, d8, p8) = T8::enc(v.8, d7, p7, endian);
                                                                        match r8 {
                                                                            Err(e) => (Err(e), d8, p8),
                                                                            Ok(()) => {
                                                                                let (r9, d9, p9) = T9::enc(v.9, d8, p8, endian);
                                                                                (r9, d9, p9)
                                                                            },
                                                                        }
                                                                    },
                                                                }
                                                            },
                                                        }
                                                    },
                                                }
                                            },
                                        }
                                    },
                                }
                            },
                        }
                    },
                }
            },
        }
    }

    fn write(s: &mut WriteStream, val: &Self) -> (r: Result<(), Error>) {
        match s.write::<T0>(&val.0) {
            Ok(()) => (),
            Err(e) => {
                return Err(e);
            },
        };
        match s.write::<T1>(&val.1) {
            Ok(()) => (),
            Err(e) => {
                return Err(e);
            },
        };
        match s.write::<T2>(&val.2) {
            Ok(()) => (),
            Err(e) => {
                return Err(e);
            },
        };
        match s.write::<T3>(&val.3) {
            Ok(()) => (),
            Err(e) => {
                return Err(e);
            },
        };
        match s.write::<T4>(&val.4) {
            Ok(()) => (),
            Err(e) => {
                return Err(e);
            },
        };
        match s.write::<T5>(&val.5) {
            Ok(()) => (),
            Err(e) => {
                return Err(e);
            },
        };
        match s.write::<T6>(&val.6) {
            Ok(()) => (),
            Err(e) => {
                return Err(e);
            },
        };
        match s.write::<T7>(&val.7) {
            Ok(()) => (),
            Err(e) => {
                return Err(e);
            },
        };
        match s.write::<T8>(&val.8) {
            Ok(()) => (),
            Err(e) => {
                return Err(e);
            },
        };
        s.write::<T9>(&val.9)
    }
}

impl<T0: Writable, T1: Writable, T2: Writable, T3: Writable, T4: Writable, T5: Writable, T6: Writable, T7: Writable, T8: Writable, T9: Writable, T10: Writable> Writable for (T0, T1, T2, T3, T4, T5, T6, T7, T8, T9, T10) {
    /// Writes the 11 fields in declaration order, short-circuiting on the
    /// first failure without rolling back.
    open spec fn enc(v: (T0::V, T1::V, T2::V, T3::V, T4::V, T5::V, T6::V, T7::V, T8::V, T9::V, T10::V), data: Seq<u8>, pos: int, endian: Endian) -> (
        Result<(), Error>,
        Seq<u8>,
        int,
    ) {
        let (r0, d0, p0) = T0::enc(v.0, data, pos, endian);
        match r0 {
            Err(e) => (Err(e), d0, p0),
            Ok(()) => {
                let (r1, d1, p1) = T1::enc(v.1, d0, p0, endian);
                match r1 {
                    Err(e) => (Err(e), d1, p1),
                    Ok(()) => {
                        let (r2, d2, p2) = T2::enc(v.2, d1, p1, endian);
                        match r2 {
                            Err(e) => (Err(e), d2, p2),
                            Ok(()) => {
                                let (r3, d3, p3) = T3::enc(v.3, d2, p2, endian);
                                match r3 {
                                    Err(e) => (Err(e), d3, p3),
                                    Ok(()) => {
                                        let (r4, d4, p4) = T4::enc(v.4, d3, p3, endian);
                                        match r4 {
                                            Err(e) => (Err(e), d4, p4),
                                            Ok(()) => {
                                                let (r5, d5, p5) = T5::enc(v.5, d4, p4, endian);
                                                match r5 {
                                                    Err(e) => (Err(e), d5, p5),
                                                    Ok(()) => {
                                                        let (r6, d6, p6) = T6::enc(v.6, d5, p5, endian);
                                                        match r6 {
                                                            Err(e) => (Err(e), d6, p6),
                                                            Ok(()) => {
                                                                let (r7, d7, p7) = T7::enc(v.7, d6, p6, endian);
                                                                match r7 {
                                                                    Err(e) => (Err(e), d7, p7),
                                                                    Ok(()) => {
                                                                        let (r8, d8, p8) = T8::enc(v.8, d7, p7, endian);
                                                                        match r8 {
                                                                            Err(e) => (Err(e), d8, p8),
                                                                            Ok(()) => {
                                                                                let (r9, d9, p9) = T9::enc(v.9, d8, p8, endian);
                                                                                match r9 {
                                                                                    Err(e) => (Err(e), d9, p9),
                                                                                    Ok(()) => {
                                                                                        let (r10, d10, p10) = T10::enc(v.10, d9, p9, endian);
                                                                                        (r10, d10, p10)
                                                                                    },
                                                                                }
                                                                            },
                                                                        }
                                                                    },
                                                                }
                                                            },
                                                        }
                                                    },
                                                }
                                            },
                                        }
                                    },
                                }
                            },
                        }
                    },
                }
            },
        }
    }

    fn write(s: &mut WriteStream, val: &Self) -> (r: Result<(), Error>) {
        match s.write::<T0>(&val.0) {
            Ok(()) => (),
            Err(e) => {
                return Err(e);
            },
        };
        match s.write::<T1>(&val.1) {
            Ok(()) => (),
            Err(e) => {
                return Err(e);
            },
        };
        match s.write::<T2>(&val.2) {
            Ok(()) => (),
            Err(e) => {
                return Err(e);
            },
        };
        match s.write::<T3>(&val.3) {
            Ok(()) => (),
            Err(e) => {
                return Err(e);
            },
        };
        match s.write::<T4>(&val.4) {
            Ok(()) => (),
            Err(e) => {
                return Err(e);
            },
        };
        match s.write::<T5>(&val.5) {
            Ok(()) => (),
            Err(e) => {
                return Err(e);
            },
        };
        match s.write::<T6>(&val.6) {
            Ok(()) => (),
            Err(e) => {
                return Err(e);
            },
        };
        match s.write::<T7>(&val.7) {
            Ok(()) => (),
            Err(e) => {
                return Err(e);
            },
        };
        match s.write::<T8>(&val.8) {
            Ok(()) => (),
            Err(e) => {
                return Err(e);
            },
        };
        match s.write::<T9>(&val.9) {
            Ok(()) => (),
            Err(e) => {
                return Err(e);
            },
        };
        s.write::<T10>(&val.10)
    }
}

impl<T0: Writable, T1: Writable, T2: Writable, T3: Writable, T4: Writable, T5: Writable, T6: Writable, T7: Writable, T8: Writable, T9: Writable, T10: Writable, T11: Writable> Writable for (T0, T1, T2, T3, T4, T5, T6, T7, T8, T9, T10, T11) {
    /// Writes the 12 fields in declaration order, short-circuiting on the
    /// first failure without rolling back.
    open spec fn enc(v: (T0::V, T1::V, T2::V, T3::V, T4::V, T5::V, T6::V, T7::V, T8::V, T9::V, T10::V, T11::V), data: Seq<u8>, pos: int, endian: Endian) -> (
        Result<(), Error>,
        Seq<u8>,
        int,
    ) {
        let (r0, d0, p0) = T0::enc(v.0, data, pos, endian);
        match r0 {
            Err(e) => (Err(e), d0, p0),
            Ok(()) => {
                let (r1, d1, p1) = T1::enc(v.1, d0, p0, endian);
                match r1 {
                    Err(e) => (Err(e), d1, p1),
                    Ok(()) => {
                        let (r2, d2, p2) = T2::enc(v.2, d1, p1, endian);
                        match r2 {
                            Err(e) => (Err(e), d2, p2),
                            Ok(()) => {
                                let (r3, d3, p3) = T3::enc(v.3, d2, p2, endian);
                                match r3 {
                                    Err(e) => (Err(e), d3, p3),
                                    Ok(()) => {
                                        let (r4, d4, p4) = T4::enc(v.4, d3, p3, endian);
                                        match r4 {
                                            Err(e) => (Err(e), d4, p4),
                                            Ok(()) => {
                                                let (r5, d5, p5) = T5::enc(v.5, d4, p4, endian);
                                                match r5 {
                                                    Err(e) => (Err(e), d5, p5),
                                                    Ok(()) => {
                                                        let (r6, d6, p6) = T6::enc(v.6, d5, p5, endian);
                                                        match r6 {
                                                            Err(e) => (Err(e), d6, p6),
                                                            Ok(()) => {
                                                                let (r7, d7, p7) = T7::enc(v.7, d6, p6, endian);
                                                                match r7 {
                                                                    Err(e) => (Err(e), d7, p7),
                                                                    Ok(()) => {
                                                                        let (r8, d8, p8) = T8::enc(v.8, d7, p7, endian);
                                                                        match r8 {
                                                                            Err(e) => (Err(e), d8, p8),
                                                                            Ok(()) => {
                                                                                let (r9, d9, p9) = T9::enc(v.9, d8, p8, endian);
                                                                                match r9 {
                                                                                    Err(e) => (Err(e), d9, p9),
                                                                                    Ok(()) => {
                                                                                        let (r10, d10, p10) = T10::enc(v.10, d9, p9, endian);
                                                                                        match r10 {
                                                                                            Err(e) => (Err(e), d10, p10),
                                                                                            Ok(()) => {
                                                                                                let (r11, d11, p11) = T11::enc(v.11, d10, p10, endian);
                                                                                                (r11, d11, p11)
                                                                                            },
                                                                                        }
                                                                                    },
                                                                                }
                                                                            },
                                                                        }
                                                                    },
                                                                }
                                                            },
                                                        }
                                                    },
                                                }
                                            },
                                        }
                                    },
                                }
                            },
                        }
                    },
                }
            },
        }
    }

    fn write(s: &mut WriteStream, val: &Self) -> (r: Result<(), Error>) {
        match s.write::<T0>(&val.0) {
            Ok(()) => (),
            Err(e) => {
                return Err(e);
            },
        };
        match s.write::<T1>(&val.1) {
            Ok(()) => (),
            Err(e) => {
                return Err(e);
            },
        };
        match s.write::<T2>(&val.2) {
            Ok(()) => (),
            Err(e) => {
                return Err(e);
            },
        };
        match s.write::<T3>(&val.3) {
            Ok(()) => (),
            Err(e) => {
                return Err(e);
            },
        };
        match s.write::<T4>(&val.4) {
            Ok(()) => (),
            Err(e) => {
                return Err(e);
            },
        };
        match s.write::<T5>(&val.5) {
            Ok(()) => (),
            Err(e) => {
                return Err(e);
            },
        };
        match s.write::<T6>(&val.6) {
            Ok(()) => (),
            Err(e) => {
                return Err(e);
            },
        };
        match s.write::<T7>(&val.7) {
            Ok(()) => (),
            Err(e) => {
                return Err(e);
            },
        };
        match s.write::<T8>(&val.8) {
            Ok(()) => (),
            Err(e) => {
                return Err(e);
            },
        };
        match s.write::<T9>(&val.9) {
            Ok(()) => (),
            Err(e) => {
                return Err(e);
            },
        };
        match s.write::<T10>(&val.10) {
            Ok(()) => (),
            Err(e) => {
                return Err(e);
            },
        };
        s.write::<T11>(&val.11)
    }
}

} // verus!
