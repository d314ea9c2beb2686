//! The consuming-decode protocol: the `Readable` trait, whose contract pins
//! every implementation to a deterministic decode function over the buffer,
//! and the built-in codecs for the primitive types.

use crate::common::Endian;
use crate::encoding::{chunk_dec, lemma_pow256_vals, pow256};
use crate::error::Error;
use crate::reader::ReadStream;
use vstd::prelude::*;

verus! {

/// The two's-complement reading of `v`, a value of `n` bytes.
pub open spec fn signed_of(v: nat, n: nat) -> int {
    if v < pow256(n) / 2 {
        v as int
    } else {
        v as int - pow256(n) as int
    }
}

/// A type that can be decoded from a byte stream.
///
/// The whole behaviour of `read` is the spec function [`Self::dec`]: given
/// the buffer, the position and the byte order, `dec` names the exact value
/// or the exact error that comes back, and the exact position after the
/// call. Failed decodes are not rolled back: `dec` names the position they
/// stop at. Implementations compose by reading sub-fields in order through
/// the stream and short-circuiting on the first failure.
pub trait Readable<'a>: Sized + DeepView {
    /// The decode relation: the result (over [`DeepView`] values) and the
    /// position after, both deterministic. Every verified implementation
    /// replaces the default, which claims only failure; implementations
    /// outside the verifier may leave it.
    open spec fn dec(data: Seq<u8>, pos: int, endian: Endian) -> (Result<Self::V, Error>, int) {
        (Err(Error::NotValid), pos)
    }

    /// Decodes one value of this type from the stream, advancing its
    /// position exactly as [`Self::dec`] says.
    fn read(s: &mut ReadStream<'a>) -> (r: Result<Self, Error>)
        requires
            old(s)@.wf(),
        ensures
            final(s)@.wf(),
            final(s)@.data == old(s)@.data,
            final(s)@.endian == old(s)@.endian,
            ({
                let (res, p) = Self::dec(old(s)@.data, old(s)@.pos as int, old(s)@.endian);
                &&& final(s)@.pos == p
                &&& match (r, res) {
                    (Ok(v), Ok(w)) => v.deep_view() == w,
                    (Err(e1), Err(e2)) => e1 == e2,
                    _ => false,
                }
            }),
    ;
}

impl<'a> Readable<'a> for u8 {
    /// Reads 1 byte in the stream's byte order.
    open spec fn dec(data: Seq<u8>, pos: int, endian: Endian) -> (Result<u8, Error>, int) {
        let (r, p) = chunk_dec(data, pos, endian, 1);
        (
            match r {
                Ok(v) => Ok(v as u8),
                Err(e) => Err(e),
            },
            p,
        )
    }

    fn read(s: &mut ReadStream<'a>) -> (r: Result<Self, Error>) {
        proof {
            lemma_pow256_vals();
        }
        match s.read_chunk(1) {
            Ok(v) => Ok(v as u8),
            Err(e) => Err(e),
        }
    }
}

impl<'a> Readable<'a> for u16 {
    /// Reads 2 bytes in the stream's byte order.
    open spec fn dec(data: Seq<u8>, pos: int, endian: Endian) -> (Result<u16, Error>, int) {
        let (r, p) = chunk_dec(data, pos, endian, 2);
        (
            match r {
                Ok(v) => Ok(v as u16),
                Err(e) => Err(e),
            },
            p,
        )
    }

    fn read(s: &mut ReadStream<'a>) -> (r: Result<Self, Error>) {
        proof {
            lemma_pow256_vals();
        }
        match s.read_chunk(2) {
            Ok(v) => Ok(v as u16),
            Err(e) => Err(e),
        }
    }
}

impl<'a> Readable<'a> for u32 {
    /// Reads 4 bytes in the stream's byte order.
    open spec fn dec(data: Seq<u8>, pos: int, endian: Endian) -> (Result<u32, Error>, int) {
        let (r, p) = chunk_dec(data, pos, endian, 4);
        (
            match r {
                Ok(v) => Ok(v as u32),
                Err(e) => Err(e),
            },
            p,
        )
    }

    fn read(s: &mut ReadStream<'a>) -> (r: Result<Self, Error>) {
        proof {
            lemma_pow256_vals();
        }
        match s.read_chunk(4) {
            Ok(v) => Ok(v as u32),
            Err(e) => Err(e),
        }
    }
}

impl<'a> Readable<'a> for u64 {
    /// Reads 8 bytes in the stream's byte order.
    open spec fn dec(data: Seq<u8>, pos: int, endian: Endian) -> (Result<u64, Error>, int) {
        let (r, p) = chunk_dec(data, pos, endian, 8);
        (
            match r {
                Ok(v) => Ok(v as u64),
                Err(e) => Err(e),
            },
            p,
        )
    }

    fn read(s: &mut ReadStream<'a>) -> (r: Result<Self, Error>) {
        proof {
            lemma_pow256_vals();
        }
        match s.read_chunk(8) {
            Ok(v) => Ok(v as u64),
            Err(e) => Err(e),
        }
    }
}

impl<'a> Readable<'a> for u128 {
    /// Reads 16 bytes in the stream's byte order.
    open spec fn dec(data: Seq<u8>, pos: int, endian: Endian) -> (Result<u128, Error>, int) {
        let (r, p) = chunk_dec(data, pos, endian, 16);
        (
            match r {
                Ok(v) => Ok(v as u128),
                Err(e) => Err(e),
            },
            p,
        )
    }

    fn read(s: &mut ReadStream<'a>) -> (r: Result<Self, Error>) {
        proof {
            lemma_pow256_vals();
        }
        match s.read_chunk(16) {
            Ok(v) => Ok(v as u128),
            Err(e) => Err(e),
        }
    }
}

impl<'a> Readable<'a> for i8 {
    /// Reads 1 byte in the stream's byte order, two's complement.
    open spec fn dec(data: Seq<u8>, pos: int, endian: Endian) -> (Result<i8, Error>, int) {
        let (r, p) = chunk_dec(data, pos, endian, 1);
        (
            match r {
                Ok(v) => Ok(signed_of(v, 1) as i8),
                Err(e) => Err(e),
            },
            p,
        )
    }

    fn read(s: &mut ReadStream<'a>) -> (r: Result<Self, Error>) {
        proof {
            lemma_pow256_vals();
        }
        match s.read_chunk(1) {
            Ok(v) => {
                let x: i128 = if v >= 0x80 {
                    (v as i128) - 0x100
                } else {
                    v as i128
                };
                Ok(x as i8)
            },
            Err(e) => Err(e),
        }
    }
}

impl<'a> Readable<'a> for i16 {
    /// Reads 2 bytes in the stream's byte order, two's complement.
    open spec fn dec(data: Seq<u8>, pos: int, endian: Endian) -> (Result<i16, Error>, int) {
        let (r, p) = chunk_dec(data, pos, endian, 2);
        (
            match r {
                Ok(v) => Ok(signed_of(v, 2) as i16),
                Err(e) => Err(e),
            },
            p,
        )
    }

    fn read(s: &mut ReadStream<'a>) -> (r: Result<Self, Error>) {
        proof {
            lemma_pow256_vals();
        }
        match s.read_chunk(2) {
            Ok(v) => {
                let x: i128 = if v >= 0x8000 {
                    (v as i128) - 0x10000
                } else {
                    v as i128
                };
                Ok(x as i16)
            },
            Err(e) => Err(e),
        }
    }
}

impl<'a> Readable<'a> for i32 {
    /// Reads 4 bytes in the stream's byte order, two's complement.
    open spec fn dec(data: Seq<u8>, pos: int, endian: Endian) -> (Result<i32, Error>, int) {
        let (r, p) = chunk_dec(data, pos, endian, 4);
        (
            match r {
                Ok(v) => Ok(signed_of(v, 4) as i32),
                Err(e) => Err(e),
            },
            p,
        )
    }

    fn read(s: &mut ReadStream<'a>) -> (r: Result<Self, Error>) {
        proof {
            lemma_pow256_vals();
        }
        match s.read_chunk(4) {
            Ok(v) => {
                let x: i128 = if v >= 0x80000000 {
                    (v as i128) - 0x100000000
                } else {
                    v as i128
                };
                Ok(x as i32)
            },
            Err(e) => Err(e),
        }
    }
}

impl<'a> Readable<'a> for i64 {
    /// Reads 8 bytes in the stream's byte order, two's complement.
    open spec fn dec(data: Seq<u8>, pos: int, endian: Endian) -> (Result<i64, Error>, int) {
        let (r, p) = chunk_dec(data, pos, endian, 8);
        (
            match r {
                Ok(v) => Ok(signed_of(v, 8) as i64),
                Err(e) => Err(e),
            },
            p,
        )
    }

    fn read(s: &mut ReadStream<'a>) -> (r: Result<Self, Error>) {
        proof {
            lemma_pow256_vals();
        }
        match s.read_chunk(8) {
            Ok(v) => {
                let x: i128 = if v >= 0x8000000000000000 {
                    (v as i128) - 0x10000000000000000
                } else {
                    v as i128
                };
                Ok(x as i64)
            },
            Err(e) => Err(e),
        }
    }
}

impl<'a> Readable<'a> for i128 {
    /// Reads 16 bytes in the stream's byte order, two's complement.
    open spec fn dec(data: Seq<u8>, pos: int, endian: Endian) -> (Result<i128, Error>, int) {
        let (r, p) = chunk_dec(data, pos, endian, 16);
        (
            match r {
                Ok(v) => Ok(signed_of(v, 16) as i128),
                Err(e) => Err(e),
            },
            p,
        )
    }

    fn read(s: &mut ReadStream<'a>) -> (r: Result<Self, Error>) {
        proof {
            lemma_pow256_vals();
        }
        match s.read_chunk(16) {
            Ok(v) => {
                let x: i128 = if v >= 0x80000000000000000000000000000000u128 {
                    ((v - 0x80000000000000000000000000000000u128) as i128) + i128::MIN
                } else {
                    v as i128
                };
                Ok(x)
            },
            Err(e) => Err(e),
        }
    }
}

impl<'a> Readable<'a> for usize {
    /// Reads 8 bytes in the stream's byte order; a value above `usize::MAX`
    /// is rejected as `NotValid`.
    open spec fn dec(data: Seq<u8>, pos: int, endian: Endian) -> (Result<usize, Error>, int) {
        let (r, p) = chunk_dec(data, pos, endian, 8);
        (
            match r {
                Ok(v) => if v <= usize::MAX {
                    Ok(v as usize)
                } else {
                    Err(Error::NotValid)
                },
                Err(e) => Err(e),
            },
            p,
        )
    }

    fn read(s: &mut ReadStream<'a>) -> (r: Result<Self, Error>) {
        proof {
            lemma_pow256_vals();
        }
        match s.read_chunk(8) {
            Ok(v) => {
                if v <= usize::MAX as u128 {
                    Ok(v as usize)
                } else {
                    Err(Error::NotValid)
                }
            },
            Err(e) => Err(e),
        }
    }
}

impl<'a> Readable<'a> for isize {
    /// Reads 8 bytes in the stream's byte order, two's complement; a value
    /// outside the `isize` range is rejected as `NotValid`.
    open spec fn dec(data: Seq<u8>, pos: int, endian: Endian) -> (Result<isize, Error>, int) {
        let (r, p) = chunk_dec(data, pos, endian, 8);
        (
            match r {
                Ok(v) => if isize::MIN <= signed_of(v, 8) <= isize::MAX {
                    Ok(signed_of(v, 8) as isize)
                } else {
                    Err(Error::NotValid)
                },
                Err(e) => Err(e),
            },
            p,
        )
    }

    fn read(s: &mut ReadStream<'a>) -> (r: Result<Self, Error>) {
        proof {
            lemma_pow256_vals();
        }
        match s.read_chunk(8) {
            Ok(v) => {
                let x: i128 = if v >= 0x8000000000000000 {
                    (v as i128) - 0x10000000000000000
                } else {
                    v as i128
                };
                if x >= isize::MIN as i128 && x <= isize::MAX as i128 {
                    Ok(x as isize)
                } else {
                    Err(Error::NotValid)
                }
            },
            Err(e) => Err(e),
        }
    }
}

impl<'a> Readable<'a> for bool {
    /// Reads one byte: 0 is `false`, 1 is `true`, anything else fails as
    /// `NotValid` with the byte consumed.
    open spec fn dec(data: Seq<u8>, pos: int, endian: Endian) -> (Result<bool, Error>, int) {
        let (r, p) = chunk_dec(data, pos, endian, 1);
        (
            match r {
                Ok(v) => if v == 0 {
                    Ok(false)
                } else if v == 1 {
                    Ok(true)
                } else {
                    Err(Error::NotValid)
                },
                Err(e) => Err(e),
            },
            p,
        )
    }

    fn read(s: &mut ReadStream<'a>) -> (r: Result<Self, Error>) {
        match s.read_chunk(1) {
            Ok(v) => {
                if v == 0 {
                    Ok(false)
                } else if v == 1 {
                    Ok(true)
                } else {
                    Err(Error::NotValid)
                }
            },
            Err(e) => Err(e),
        }
    }
}


/// Decoding `count` values of `T` one after the other: the sequence of
/// their deep views, or the first failure, with the exact stop position.
pub open spec fn elems_dec<'a, T: Readable<'a>>(
    data: Seq<u8>,
    pos: int,
    endian: Endian,
    count: nat,
) -> (Result<Seq<T::V>, Error>, int)
    decreases count,
{
    if count == 0 {
        (Ok(Seq::empty()), pos)
    } else {
        let (r0, p0) = T::dec(data, pos, endian);
        match r0 {
            Err(e) => (Err(e), p0),
            Ok(v) => {
                let (r1, p1) = elems_dec::<T>(data, p0, endian, (count - 1) as nat);
                match r1 {
                    Err(e) => (Err(e), p1),
                    Ok(rest) => (Ok(seq![v] + rest), p1),
                }
            },
        }
    }
}

/// Relies on `Vec::try_into` for arrays: a vector of exactly `N` elements
/// converts into the array of those same elements in order.
#[verifier::external_body]
fn vec_into_array<T, const N: usize>(v: Vec<T>) -> (r: [T; N])
    requires
        v@.len() == N,
    ensures
        r@ == v@,
{
    v.try_into().ok().unwrap()
}

/// Reads `count` values of `T` into a vector, exactly as
/// [`elems_dec`] says; on an element failure the elements already decoded
/// are dropped with the vector.
#[verifier::loop_isolation(false)]
fn read_elems<'a, T: Readable<'a>>(s: &mut ReadStream<'a>, count: usize) -> (r: Result<
    Vec<T>,
    Error,
>)
    requires
        old(s)@.wf(),
    ensures
        final(s)@.wf(),
        final(s)@.data == old(s)@.data,
        final(s)@.endian == old(s)@.endian,
        ({
            let (res, p) = elems_dec::<T>(
                old(s)@.data,
                old(s)@.pos as int,
                old(s)@.endian,
                count as nat,
            );
            &&& final(s)@.pos == p
            &&& match (r, res) {
                (Ok(v), Ok(w)) => v.deep_view() == w && v@.len() == count,
                (Err(e1), Err(e2)) => e1 == e2,
                _ => false,
            }
        }),
{
    let ghost data0 = s@.data;
    let ghost pos0 = s@.pos as int;
    let ghost e0 = s@.endian;
    let ghost full = elems_dec::<T>(data0, pos0, e0, count as nat);
    let mut out: Vec<T> = Vec::with_capacity(count);
    let mut i: usize = 0;
    proof {
        let (rr, pp) = elems_dec::<T>(data0, pos0, e0, count as nat);
        assert(out.deep_view() =~= Seq::<T::V>::empty());
        if rr is Ok {
            assert(out.deep_view() + rr.unwrap() =~= rr.unwrap());
        }
    }
    while i < count
        invariant
            i <= count,
            s@.wf(),
            s@.data == data0,
            s@.endian == e0,
            out@.len() == i,
            full == elems_dec::<T>(data0, pos0, e0, count as nat),
            ({
                let (rr, pp) = elems_dec::<T>(data0, s@.pos as int, e0, (count - i) as nat);
                match rr {
                    Ok(tail) => full.0 == Ok::<Seq<T::V>, Error>(out.deep_view() + tail)
                        && full.1 == pp,
                    Err(e) => full.0 == Err::<Seq<T::V>, Error>(e) && full.1 == pp,
                }
            }),
        decreases count - i,
    {
        let ghost before = s@.pos as int;
        match s.read::<T>() {
            Ok(v) => {
                let ghost olddeep = out.deep_view();
                proof {
                    let (rt, pt) = elems_dec::<T>(data0, s@.pos as int, e0, (count - i - 1) as nat);
                    if rt is Ok {
                        assert(olddeep + (seq![v.deep_view()] + rt.unwrap()) =~= (olddeep.push(
                            v.deep_view(),
                        )) + rt.unwrap());
                    }
                }
                out.push(v);
                i = i + 1;
                proof {
                    assert(out.deep_view() =~= olddeep.push(v.deep_view()));
                }
            },
            Err(e) => {
                return Err(e);
            },
        }
    }
    proof {
        assert(out.deep_view() + Seq::<T::V>::empty() =~= out.deep_view());
    }
    Ok(out)
}

impl<'a, T: Readable<'a>, const N: usize> Readable<'a> for [T; N] {
    /// Reads `N` elements in index order; if the `k`-th element fails, the
    /// `k` elements already built are dropped and the error propagates with
    /// the position where decoding stopped.
    open spec fn dec(data: Seq<u8>, pos: int, endian: Endian) -> (Result<Seq<T::V>, Error>, int) {
        elems_dec::<T>(data, pos, endian, N as nat)
    }

    fn read(s: &mut ReadStream<'a>) -> (r: Result<Self, Error>) {
        match read_elems::<T>(s, N) {
            Ok(v) => {
                let a: [T; N] = vec_into_array(v);
                proof {
                    assert(a.deep_view() =~= v.deep_view());
                }
                Ok(a)
            },
            Err(e) => Err(e),
        }
    }
}

impl<'a, T: Readable<'a>> Readable<'a> for Vec<T> {
    /// Reads a 4-byte unsigned count, then that many elements in order.
    /// The count's bytes follow the stream's byte order; an inflated count
    /// reserves capacity before the first element is validated, which is
    /// the caller's responsibility when the input is untrusted.
    open spec fn dec(data: Seq<u8>, pos: int, endian: Endian) -> (Result<Seq<T::V>, Error>, int) {
        let (rn, pn) = <u32 as Readable<'a>>::dec(data, pos, endian);
        match rn {
            Err(e) => (Err(e), pn),
            Ok(n) => elems_dec::<T>(data, pn, endian, n as nat),
        }
    }

    fn read(s: &mut ReadStream<'a>) -> (r: Result<Self, Error>) {
        let n = match s.read::<u32>() {
            Ok(n) => n,
            Err(e) => {
                return Err(e);
            },
        };
        read_elems::<T>(s, n as usize)
    }
}

impl<'a> Readable<'a> for String {
    /// Reads a 4-byte unsigned count and that many bytes, then validates
    /// them as UTF-8; invalid bytes fail as `NotValidUTF8` with the bytes
    /// consumed.
    open spec fn dec(data: Seq<u8>, pos: int, endian: Endian) -> (Result<Seq<char>, Error>, int) {
        let (rb, pb) = <Vec<u8> as Readable<'a>>::dec(data, pos, endian);
        match rb {
            Err(e) => (Err(e), pb),
            Ok(bytes) => if vstd::utf8::valid_utf8(bytes) {
                (Ok(vstd::utf8::decode_utf8(bytes)), pb)
            } else {
                (Err(Error::NotValidUTF8), pb)
            },
        }
    }

    fn read(s: &mut ReadStream<'a>) -> (r: Result<Self, Error>) {
        let bytes: Vec<u8> = match s.read::<Vec<u8>>() {
            Ok(b) => b,
            Err(e) => {
                return Err(e);
            },
        };
        proof {
            assert(bytes.deep_view() =~= bytes@);
        }
        if crate::text::utf8_check(bytes.as_slice()) {
            let st = crate::text::str_from_utf8(bytes.as_slice());
            proof {
                vstd::utf8::encode_utf8_decode_utf8(st@);
            }
            Ok(st.to_owned())
        } else {
            Err(Error::NotValidUTF8)
        }
    }
}


impl<'a, T0: Readable<'a>> Readable<'a> for (T0,) {
    /// Reads the 1 field in declaration order, short-circuiting on the
    /// first failure without rolling the position back.
    open spec fn dec(data: Seq<u8>, pos: int, endian: Endian) -> (Result<(T0::V,), Error>, int) {
        let (r0, p0) = T0::dec(data, pos, endian);
        match r0 {
            Err(e) => (Err(e), p0),
            Ok(v0) => {
                (Ok((v0,)), p0)
            },
        }
    }

    fn read(s: &mut ReadStream<'a>) -> (r: Result<Self, Error>) {
        let v0 = match s.read::<T0>() {
            Ok(v) => v,
            Err(e) => {
                return Err(e);
            },
        };
        Ok((v0,))
    }
}

impl<'a, T0: Readable<'a>, T1: Readable<'a>> Readable<'a> for (T0, T1) {
    /// Reads the 2 fields in declaration order, short-circuiting on the
    /// first failure without rolling the position back.
    open spec fn dec(data: Seq<u8>, pos: int, endian: Endian) -> (Result<(T0::V, T1::V), Error>, int) {
        let (r0, p0) = T0::dec(data, pos, endian);
        match r0 {
            Err(e) => (Err(e), p0),
            Ok(v0) => {
                let (r1, p1) = T1::dec(data, p0, endian);
                match r1 {
                    Err(e) => (Err(e), p1),
                    Ok(v1) => {
                        (Ok((v0, v1)), p1)
                    },
                }
            },
        }
    }

    fn read(s: &mut ReadStream<'a>) -> (r: Result<Self, Error>) {
        let v0 = match s.read::<T0>() {
            Ok(v) => v,
            Err(e) => {
                return Err(e);
            },
        };
        let v1 = match s.read::<T1>() {
            Ok(v) => v,
            Err(e) => {
                return Err(e);
            },
        };
        Ok((v0, v1))
    }
}

impl<'a, T0: Readable<'a>, T1: Readable<'a>, T2: Readable<'a>> Readable<'a> for (T0, T1, T2) {
    /// Reads the 3 fields in declaration order, short-circuiting on the
    /// first failure without rolling the position back.
    open spec fn dec(data: Seq<u8>, pos: int, endian: Endian) -> (Result<(T0::V, T1::V, T2::V), Error>, int) {
        let (r0, p0) = T0::dec(data, pos, endian);
        match r0 {
            Err(e) => (Err(e), p0),
            Ok(v0) => {
                let (r1, p1) = T1::dec(data, p0, endian);
                match r1 {
                    Err(e) => (Err(e), p1),
                    Ok(v1) => {
                        let (r2, p2) = T2::dec(data, p1, endian);
                        match r2 {
                            Err(e) => (Err(e), p2),
                            Ok(v2) => {
                                (Ok((v0, v1, v2)), p2)
                            },
                        }
                    },
                }
            },
        }
    }

    fn read(s: &mut ReadStream<'a>) -> (r: Result<Self, Error>) {
        let v0 = match s.read::<T0>() {
            Ok(v) => v,
            Err(e) => {
                return Err(e);
            },
        };
        let v1 = match s.read::<T1>() {
            Ok(v) => v,
            Err(e) => {
                return Err(e);
            },
        };
        let v2 = match s.read::<T2>() {
            Ok(v) => v,
            Err(e) => {
                return Err(e);
            },
        };
        Ok((v0, v1, v2))
    }
}

impl<'a, T0: Readable<'a>, T1: Readable<'a>, T2: Readable<'a>, T3: Readable<'a>> Readable<'a> for (T0, T1, T2, T3) {
    /// Reads the 4 fields in declaration order, short-circuiting on the
    /// first failure without rolling the position back.
    open spec fn dec(data: Seq<u8>, pos: int, endian: Endian) -> (Result<(T0::V, T1::V, T2::V, T3::V), Error>, int) {
        let (r0, p0) = T0::dec(data, pos, endian);
        match r0 {
            Err(e) => (Err(e), p0),
            Ok(v0) => {
                let (r1, p1) = T1::dec(data, p0, endian);
                match r1 {
                    Err(e) => (Err(e), p1),
                    Ok(v1) => {
                        let (r2, p2) = T2::dec(data, p1, endian);
                        match r2 {
                            Err(e) => (Err(e), p2),
                            Ok(v2) => {
                                let (r3, p3) = T3::dec(data, p2, endian);
                                match r3 {
                                    Err(e) => (Err(e), p3),
                                    Ok(v3) => {
                                        (Ok((v0, v1, v2, v3)), p3)
                                    },
                                }
                            },
                        }
                    },
                }
            },
        }
    }

    fn read(s: &mut ReadStream<'a>) -> (r: Result<Self, Error>) {
        let v0 = match s.read::<T0>() {
            Ok(v) => v,
            Err(e) => {
                return Err(e);
            },
        };
        let v1 = match s.read::<T1>() {
            Ok(v) => v,
            Err(e) => {
                return Err(e);
            },
        };
        let v2 = match s.read::<T2>() {
            Ok(v) => v,
            Err(e) => {
                return Err(e);
            },
        };
        let v3 = match s.read::<T3>() {
            Ok(v) => v,
            Err(e) => {
                return Err(e);
            },
        };
        Ok((v0, v1, v2, v3))
    }
}

impl<'a, T0: Readable<'a>, T1: Readable<'a>, T2: Readable<'a>, T3: Readable<'a>, T4: Readable<'a>> Readable<'a> for (T0, T1, T2, T3, T4) {
    /// Reads the 5 fields in declaration order, short-circuiting on the
    /// first failure without rolling the position back.
    open spec fn dec(data: Seq<u8>, pos: int, endian: Endian) -> (Result<(T0::V, T1::V, T2::V, T3::V, T4::V), Error>, int) {
        let (r0, p0) = T0::dec(data, pos, endian);
        match r0 {
            Err(e) => (Err(e), p0),
            Ok(v0) => {
                let (r1, p1) = T1::dec(data, p0, endian);
                match r1 {
                    Err(e) => (Err(e), p1),
                    Ok(v1) => {
                        let (r2, p2) = T2::dec(data, p1, endian);
                        match r2 {
                            Err(e) => (Err(e), p2),
                            Ok(v2) => {
                                let (r3, p3) = T3::dec(data, p2, endian);
                                match r3 {
                                    Err(e) => (Err(e), p3),
                                    Ok(v3) => {
                                        let (r4, p4) = T4::dec(data, p3, endian);
                                        match r4 {
                                            Err(e) => (Err(e), p4),
                                            Ok(v4) => {
                                                (Ok((v0, v1, v2, v3, v4)), p4)
                                            },
                                        }
                                    },
                                }
                            },
                        }
                    },
                }
            },
        }
    }

    fn read(s: &mut ReadStream<'a>) -> (r: Result<Self, Error>) {
        let v0 = match s.read::<T0>() {
            Ok(v) => v,
            Err(e) => {
                return Err(e);
            },
        };
        let v1 = match s.read::<T1>() {
            Ok(v) => v,
            Err(e) => {
                return Err(e);
            },
        };
        let v2 = match s.read::<T2>() {
            Ok(v) => v,
            Err(e) => {
                return Err(e);
            },
        };
        let v3 = match s.read::<T3>() {
            Ok(v) => v,
            Err(e) => {
                return Err(e);
            },
        };
        let v4 = match s.read::<T4>() {
            Ok(v) => v,
            Err(e) => {
                return Err(e);
            },
        };
        Ok((v0, v1, v2, v3, v4))
    }
}

impl<'a, T0: Readable<'a>, T1: Readable<'a>, T2: Readable<'a>, T3: Readable<'a>, T4: Readable<'a>, T5: Readable<'a>> Readable<'a> for (T0, T1, T2, T3, T4, T5) {
    /// Reads the 6 fields in declaration order, short-circuiting on the
    /// first failure without rolling the position back.
    open spec fn dec(data: Seq<u8>, pos: int, endian: Endian) -> (Result<(T0::V, T1::V, T2::V, T3::V, T4::V, T5::V), Error>, int) {
        let (r0, p0) = T0::dec(data, pos, endian);
        match r0 {
            Err(e) => (Err(e), p0),
            Ok(v0) => {
                let (r1, p1) = T1::dec(data, p0, endian);
                match r1 {
                    Err(e) => (Err(e), p1),
                    Ok(v1) => {
                        let (r2, p2) = T2::dec(data, p1, endian);
                        match r2 {
                            Err(e) => (Err(e), p2),
                            Ok(v2) => {
                                let (r3, p3) = T3::dec(data, p2, endian);
                                match r3 {
                                    Err(e) => (Err(e), p3),
                                    Ok(v3) => {
                                        let (r4, p4) = T4::dec(data, p3, endian);
                                        match r4 {
                                            Err(e) => (Err(e), p4),
                                            Ok(v4) => {
                                                let (r5, p5) = T5::dec(data, p4, endian);
                                                match r5 {
                                                    Err(e) => (Err(e), p5),
                                                    Ok(v5) => {
                                                        (Ok((v0, v1, v2, v3, v4, v5)), p5)
                                                    },
                                                }
                                            },
                                        }
                                    },
                                }
                            },
                        }
                    },
                }
            },
        }
    }

    fn read(s: &mut ReadStream<'a>) -> (r: Result<Self, Error>) {
        let v0 = match s.read::<T0>() {
            Ok(v) => v,
            Err(e) => {
                return Err(e);
            },
        };
        let v1 = match s.read::<T1>() {
            Ok(v) => v,
            Err(e) => {
                return Err(e);
            },
        };
        let v2 = match s.read::<T2>() {
            Ok(v) => v,
            Err(e) => {
                return Err(e);
            },
        };
        let v3 = match s.read::<T3>() {
            Ok(v) => v,
            Err(e) => {
                return Err(e);
            },
        };
        let v4 = match s.read::<T4>() {
            Ok(v) => v,
            Err(e) => {
                return Err(e);
            },
        };
        let v5 = match s.read::<T5>() {
            Ok(v) => v,
            Err(e) => {
                return Err(e);
            },
        };
        Ok((v0, v1, v2, v3, v4, v5))
    }
}

impl<'a, T0: Readable<'a>, T1: Readable<'a>, T2: Readable<'a>, T3: Readable<'a>, T4: Readable<'a>, T5: Readable<'a>, T6: Readable<'a>> Readable<'a> for (T0, T1, T2, T3, T4, T5, T6) {
    /// Reads the 7 fields in declaration order, short-circuiting on the
    /// first failure without rolling the position back.
    open spec fn dec(data: Seq<u8>, pos: int, endian: Endian) -> (Result<(T0::V, T1::V, T2::V, T3::V, T4::V, T5::V, T6::V), Error>, int) {
        let (r0, p0) = T0::dec(data, pos, endian);
        match r0 {
            Err(e) => (Err(e), p0),
            Ok(v0) => {
                let (r1, p1) = T1::dec(data, p0, endian);
                match r1 {
                    Err(e) => (Err(e), p1),
                    Ok(v1) => {
                        let (r2, p2) = T2::dec(data, p1, endian);
                        match r2 {
                            Err(e) => (Err(e), p2),
                            Ok(v2) => {
                                let (r3, p3) = T3::dec(data, p2, endian);
                                match r3 {
                                    Err(e) => (Err(e), p3),
                                    Ok(v3) => {
                                        let (r4, p4) = T4::dec(data, p3, endian);
                                        match r4 {
                                            Err(e) => (Err(e), p4),
                                            Ok(v4) => {
                                                let (r5, p5) = T5::dec(data, p4, endian);
                                                match r5 {
                                                    Err(e) => (Err(e), p5),
                                                    Ok(v5) => {
                                                        let (r6, p6) = T6::dec(data, p5, endian);
                                                        match r6 {
                                                            Err(e) => (Err(e), p6),
                                                            Ok(v6) => {
                                                                (Ok((v0, v1, v2, v3, v4, v5, v6)), p6)
                                                            },
                                                        }
                                                    },
                                                }
                                            },
                                        }
                                    },
                                }
                            },
                        }
                    },
                }
            },
        }
    }

    fn read(s: &mut ReadStream<'a>) -> (r: Result<Self, Error>) {
        let v0 = match s.read::<T0>() {
            Ok(v) => v,
            Err(e) => {
                return Err(e);
            },
        };
        let v1 = match s.read::<T1>() {
            Ok(v) => v,
            Err(e) => {
                return Err(e);
            },
        };
        let v2 = match s.read::<T2>() {
            Ok(v) => v,
            Err(e) => {
                return Err(e);
            },
        };
        let v3 = match s.read::<T3>() {
            Ok(v) => v,
            Err(e) => {
                return Err(e);
            },
        };
        let v4 = match s.read::<T4>() {
            Ok(v) => v,
            Err(e) => {
                return Err(e);
            },
        };
        let v5 = match s.read::<T5>() {
            Ok(v) => v,
            Err(e) => {
                return Err(e);
            },
        };
        let v6 = match s.read::<T6>() {
            Ok(v) => v,
            Err(e) => {
                return Err(e);
            },
        };
        Ok((v0, v1, v2, v3, v4, v5, v6))
    }
}

impl<'a, T0: Readable<'a>, T1: Readable<'a>, T2: Readable<'a>, T3: Readable<'a>, T4: Readable<'a>, T5: Readable<'a>, T6: Readable<'a>, T7: Readable<'a>> Readable<'a> for (T0, T1, T2, T3, T4, T5, T6, T7) {
    /// Reads the 8 fields in declaration order, short-circuiting on the
    /// first failure without rolling the position back.
    open spec fn dec(data: Seq<u8>, pos: int, endian: Endian) -> (Result<(T0::V, T1::V, T2::V, T3::V, T4::V, T5::V, T6::V, T7::V), Error>, int) {
        let (r0, p0) = T0::dec(data, pos, endian);
        match r0 {
            Err(e) => (Err(e), p0),
            Ok(v0) => {
                let (r1, p1) = T1::dec(data, p0, endian);
                match r1 {
                    Err(e) => (Err(e), p1),
                    Ok(v1) => {
                        let (r2, p2) = T2::dec(data, p1, endian);
                        match r2 {
                            Err(e) => (Err(e), p2),
                            Ok(v2) => {
                                let (r3, p3) = T3::dec(data, p2, endian);
                                match r3 {
                                    Err(e) => (Err(e), p3),
                                    Ok(v3) => {
                                        let (r4, p4) = T4::dec(data, p3, endian);
                                        match r4 {
                                            Err(e) => (Err(e), p4),
                                            Ok(v4) => {
                                                let (r5, p5) = T5::dec(data, p4, endian);
                                                match r5 {
                                                    Err(e) => (Err(e), p5),
                                                    Ok(v5) => {
                                                        let (r6, p6) = T6::dec(data, p5, endian);
                                                        match r6 {
                                                            Err(e) => (Err(e), p6),
                                                            Ok(v6) => {
                                                                let (r7, p7) = T7::dec(data, p6, endian);
                                                                match r7 {
                                                                    Err(e) => (Err(e), p7),
                                                                    Ok(v7) => {
                                                                        (Ok((v0, v1, v2, v3, v4, v5, v6, v7)), p7)
                                                                    },
                                                                }
                                                            },
                                                        }
                                                    },
                                                }
                                            },
                                        }
                                    },
                                }
                            },
                        }
                    },
                }
            },
        }
    }

    fn read(s: &mut ReadStream<'a>) -> (r: Result<Self, Error>) {
        let v0 = match s.read::<T0>() {
            Ok(v) => v,
            Err(e) => {
                return Err(e);
            },
        };
        let v1 = match s.read::<T1>() {
            Ok(v) => v,
            Err(e) => {
                return Err(e);
            },
        };
        let v2 = match s.read::<T2>() {
            Ok(v) => v,
            Err(e) => {
                return Err(e);
            },
        };
        let v3 = match s.read::<T3>() {
            Ok(v) => v,
            Err(e) => {
                return Err(e);
            },
        };
        let v4 = match s.read::<T4>() {
            Ok(v) => v,
            Err(e) => {
                return Err(e);
            },
        };
        let v5 = match s.read::<T5>() {
            Ok(v) => v,
            Err(e) => {
                return Err(e);
            },
        };
        let v6 = match s.read::<T6>() {
            Ok(v) => v,
            Err(e) => {
                return Err(e);
            },
        };
        let v7 = match s.read::<T7>() {
            Ok(v) => v,
            Err(e) => {
                return Err(e);
            },
        };
        Ok((v0, v1, v2, v3, v4, v5, v6, v7))
    }
}

impl<'a, T0: Readable<'a>, T1: Readable<'a>, T2: Readable<'a>, T3: Readable<'a>, T4: Readable<'a>, T5: Readable<'a>, T6: Readable<'a>, T7: Readable<'a>, T8: Readable<'a>> Readable<'a> for (T0, T1, T2, T3, T4, T5, T6, T7, T8) {
    /// Reads the 9 fields in declaration order, short-circuiting on the
    /// first failure without rolling the position back.
    open spec fn dec(data: Seq<u8>, pos: int, endian: Endian) -> (Result<(T0::V, T1::V, T2::V, T3::V, T4::V, T5::V, T6::V, T7::V, T8::V), Error>, int) {
        let (r0, p0) = T0::dec(data, pos, endian);
        match r0 {
            Err(e) => (Err(e), p0),
            Ok(v0) => {
                let (r1, p1) = T1::dec(data, p0, endian);
                match r1 {
                    Err(e) => (Err(e), p1),
                    Ok(v1) => {
                        let (r2, p2) = T2::dec(data, p1, endian);
                        match r2 {
                            Err(e) => (Err(e), p2),
                            Ok(v2) => {
                                let (r3, p3) = T3::dec(data, p2, endian);
                                match r3 {
                                    Err(e) => (Err(e), p3),
                                    Ok(v3) => {
                                        let (r4, p4) = T4::dec(data, p3, endian);
                                        match r4 {
                                            Err(e) => (Err(e), p4),
                                            Ok(v4) => {
                                                let (r5, p5) = T5::dec(data, p4, endian);
                                                match r5 {
                                                    Err(e) => (Err(e), p5),
                                                    Ok(v5) => {
                                                        let (r6, p6) = T6::dec(data, p5, endian);
                                                        match r6 {
                                                            Err(e) => (Err(e), p6),
                                                            Ok(v6) => {
                                                                let (r7, p7) = T7::dec(data, p6, endian);
                                                                match r7 {
                                                                    Err(e) => (Err(e), p7),
                                                                    Ok(v7) => {
                                                                        let (r8, p8) = T8::dec(data, p7, endian);
                                                                        match r8 {
                                                                            Err(e) => (Err(e), p8),
                                                                            Ok(v8) => {
                                                                                (Ok((v0, v1, v2, v3, v4, v5, v6, v7, v8)), p8)
                                                                            },
                                                                        }
                                                                    },
                                                                }
                                                            },
                                                        }
                                                    },
                                                }
                                            },
                                        }
                                    },
                                }
                            },
                        }
                    },
                }
            },
        }
    }

    fn read(s: &mut ReadStream<'a>) -> (r: Result<Self, Error>) {
        let v0 = match s.read::<T0>() {
            Ok(v) => v,
            Err(e) => {
                return Err(e);
            },
        };
        let v1 = match s.read::<T1>() {
            Ok(v) => v,
            Err(e) => {
                return Err(e);
            },
        };
        let v2 = match s.read::<T2>() {
            Ok(v) => v,
            Err(e) => {
                return Err(e);
            },
        };
        let v3 = match s.read::<T3>() {
            Ok(v) => v,
            Err(e) => {
                return Err(e);
            },
        };
        let v4 = match s.read::<T4>() {
            Ok(v) => v,
            Err(e) => {
                return Err(e);
            },
        };
        let v5 = match s.read::<T5>() {
            Ok(v) => v,
            Err(e) => {
                return Err(e);
            },
        };
        let v6 = match s.read::<T6>() {
            Ok(v) => v,
            Err(e) => {
                return Err(e);
            },
        };
        let v7 = match s.read::<T7>() {
            Ok(v) => v,
            Err(e) => {
                return Err(e);
            },
        };
        let v8 = match s.read::<T8>() {
            Ok(v) => v,
            Err(e) => {
                return Err(e);
            },
        };
        Ok((v0, v1, v2, v3, v4, v5, v6, v7, v8))
    }
}

impl<'a, T0: Readable<'a>, T1: Readable<'a>, T2: Readable<'a>, T3: Readable<'a>, T4: Readable<'a>, T5: Readable<'a>, T6: Readable<'a>, T7: Readable<'a>, T8: Readable<'a>, T9: Readable<'a>> Readable<'a> for (T0, T1, T2, T3, T4, T5, T6, T7, T8, T9) {
    /// Reads the 10 fields in declaration order, short-circuiting on the
    /// first failure without rolling the position back.
    open spec fn dec(data: Seq<u8>, pos: int, endian: Endian) -> (Result<(T0::V, T1::V, T2::V, T3::V, T4::V, T5::V, T6::V, T7::V, T8::V, T9::V), Error>, int) {
        let (r0, p0) = T0::dec(data, pos, endian);
        match r0 {
            Err(e) => (Err(e), p0),
            Ok(v0) => {
                let (r1, p1) = T1::dec(data, p0, endian);
                match r1 {
                    Err(e) => (Err(e), p1),
                    Ok(v1) => {
                        let (r2, p2) = T2::dec(data, p1, endian);
                        match r2 {
                            Err(e) => (Err(e), p2),
                            Ok(v2) => {
                                let (r3, p3) = T3::dec(data, p2, endian);
                                match r3 {
                                    Err(e) => (Err(e), p3),
                                    Ok(v3) => {
                                        let (r4, p4) = T4::dec(data, p3, endian);
                                        match r4 {
                                            Err(e) => (Err(e), p4),
                                            Ok(v4) => {
                                                let (r5, p5) = T5::dec(data, p4, endian);
                                                match r5 {
                                                    Err(e) => (Err(e), p5),
                                                    Ok(v5) => {
                                                        let (r6, p6) = T6::dec(data, p5, endian);
                                                        match r6 {
                                                            Err(e) => (Err(e), p6),
                                                            Ok(v6) => {
                                                                let (r7, p7) = T7::dec(data, p6, endian);
                                                                match r7 {
                                                                    Err(e) => (Err(e), p7),
                                                                    Ok(v7) => {
                                                                        let (r8, p8) = T8::dec(data, p7, endian);
                                                                        match r8 {
                                                                            Err(e) => (Err(e), p8),
                                                                            Ok(v8) => {
                                                                                let (r9, p9) = T9::dec(data, p8, endian);
                                                                                match r9 {
                                                                                    Err(e) => (Err(e), p9),
                                                                                    Ok(v9) => {
                                                                                        (Ok((v0, v1, v2, v3, v4, v5, v6, v7, v8, v9)), p9)
                                                                                    },
                                                                                }
                                                                            },
                                                                        }
                                                                    },
                                                                }
                                                            },
                                                        }
                                                    },
                                                }
                                            },
                                        }
                                    },
                                }
                            },
                        }
                    },
                }
            },
        }
    }

    fn read(s: &mut ReadStream<'a>) -> (r: Result<Self, Error>) {
        let v0 = match s.read::<T0>() {
            Ok(v) => v,
            Err(e) => {
                return Err(e);
            },
        };
        let v1 = match s.read::<T1>() {
            Ok(v) => v,
            Err(e) => {
                return Err(e);
            },
        };
        let v2 = match s.read::<T2>() {
            Ok(v) => v,
            Err(e) => {
                return Err(e);
            },
        };
        let v3 = match s.read::<T3>() {
            Ok(v) => v,
            Err(e) => {
                return Err(e);
            },
        };
        let v4 = match s.read::<T4>() {
            Ok(v) => v,
            Err(e) => {
                return Err(e);
            },
        };
        let v5 = match s.read::<T5>() {
            Ok(v) => v,
            Err(e) => {
                return Err(e);
            },
        };
        let v6 = match s.read::<T6>() {
            Ok(v) => v,
            Err(e) => {
                return Err(e);
            },
        };
        let v7 = match s.read::<T7>() {
            Ok(v) => v,
            Err(e) => {
                return Err(e);
            },
        };
        let v8 = match s.read::<T8>() {
            Ok(v) => v,
            Err(e) => {
                return Err(e);
            },
        };
        let v9 = match s.read::<T9>() {
            Ok(v) => v,
            Err(e) => {
                return Err(e);
            },
        };
        Ok((v0, v1, v2, v3, v4, v5, v6, v7, v8, v9))
    }
}

impl<'a, T0: Readable<'a>, T1: Readable<'a>, T2: Readable<'a>, T3: Readable<'a>, T4: Readable<'a>, T5: Readable<'a>, T6: Readable<'a>, T7: Readable<'a>, T8: Readable<'a>, T9: Readable<'a>, T10: Readable<'a>> Readable<'a> for (T0, T1, T2, T3, T4, T5, T6, T7, T8, T9, T10) {
    /// Reads the 11 fields in declaration order, short-circuiting on the
    /// first failure without rolling the position back.
    open spec fn dec(data: Seq<u8>, pos: int, endian: Endian) -> (Result<(T0::V, T1::V, T2::V, T3::V, T4::V, T5::V, T6::V, T7::V, T8::V, T9::V, T10::V), Error>, int) {
        let (r0, p0) = T0::dec(data, pos, endian);
        match r0 {
            Err(e) => (Err(e), p0),
            Ok(v0) => {
                let (r1, p1) = T1::dec(data, p0, endian);
                match r1 {
                    Err(e) => (Err(e), p1),
                    Ok(v1) => {
                        let (r2, p2) = T2::dec(data, p1, endian);
                        match r2 {
                            Err(e) => (Err(e), p2),
                            Ok(v2) => {
                                let (r3, p3) = T3::dec(data, p2, endian);
                                match r3 {
                                    Err(e) => (Err(e), p3),
                                    Ok(v3) => {
                                        let (r4, p4) = T4::dec(data, p3, endian);
                                        match r4 {
                                            Err(e) => (Err(e), p4),
                                            Ok(v4) => {
                                                let (r5, p5) = T5::dec(data, p4, endian);
                                                match r5 {
                                                    Err(e) => (Err(e), p5),
                                                    Ok(v5) => {
                                                        let (r6, p6) = T6::dec(data, p5, endian);
                                                        match r6 {
                                                            Err(e) => (Err(e), p6),
                                                            Ok(v6) => {
                                                                let (r7, p7) = T7::dec(data, p6, endian);
                                                                match r7 {
                                                                    Err(e) => (Err(e), p7),
                                                                    Ok(v7) => {
                                                                        let (r8, p8) = T8::dec(data, p7, endian);
                                                                        match r8 {
                                                                            Err(e) => (Err(e), p8),
                                                                            Ok(v8) => {
                                                                                let (r9, p9) = T9::dec(data, p8, endian);
                                                                                match r9 {
                                                                                    Err(e) => (Err(e), p9),
                                                                                    Ok(v9) => {
                                                                                        let (r10, p10) = T10::dec(data, p9, endian);
                                                                                        match r10 {
                                                                                            Err(e) => (Err(e), p10),
                                                                                            Ok(v10) => {
                                                                                                (Ok((v0, v1, v2, v3, v4, v5, v6, v7, v8, v9, v10)), p10)
                                                                                            },
                                                                                        }
                                                                                    },
                                                                                }
                                                                            },
                                                                        }
                                                                    },
                                                                }
                                                            },
                                                        }
                                                    },
                                                }
                                            },
                                        }
                                    },
                                }
                            },
                        }
                    },
                }
            },
        }
    }

    fn read(s: &mut ReadStream<'a>) -> (r: Result<Self, Error>) {
        let v0 = match s.read::<T0>() {
            Ok(v) => v,
            Err(e) => {
                return Err(e);
            },
        };
        let v1 = match s.read::<T1>() {
            Ok(v) => v,
            Err(e) => {
                return Err(e);
            },
        };
        let v2 = match s.read::<T2>() {
            Ok(v) => v,
            Err(e) => {
                return Err(e);
            },
        };
        let v3 = match s.read::<T3>() {
            Ok(v) => v,
            Err(e) => {
                return Err(e);
            },
        };
        let v4 = match s.read::<T4>() {
            Ok(v) => v,
            Err(e) => {
                return Err(e);
            },
        };
        let v5 = match s.read::<T5>() {
            Ok(v) => v,
            Err(e) => {
                return Err(e);
            },
        };
        let v6 = match s.read::<T6>() {
            Ok(v) => v,
            Err(e) => {
                return Err(e);
            },
        };
        let v7 = match s.read::<T7>() {
            Ok(v) => v,
            Err(e) => {
                return Err(e);
            },
        };
        let v8 = match s.read::<T8>() {
            Ok(v) => v,
            Err(e) => {
                return Err(e);
            },
        };
        let v9 = match s.read::<T9>() {
            Ok(v) => v,
            Err(e) => {
                return Err(e);
            },
        };
        let v10 = match s.read::<T10>() {
            Ok(v) => v,
            Err(e) => {
                return Err(e);
            },
        };
        Ok((v0, v1, v2, v3, v4, v5, v6, v7, v8, v9, v10))
    }
}

impl<'a, T0: Readable<'a>, T1: Readable<'a>, T2: Readable<'a>, T3: Readable<'a>, T4: Readable<'a>, T5: Readable<'a>, T6: Readable<'a>, T7: Readable<'a>, T8: Readable<'a>, T9: Readable<'a>, T10: Readable<'a>, T11: Readable<'a>> Readable<'a> for (T0, T1, T2, T3, T4, T5, T6, T7, T8, T9, T10, T11) {
    /// Reads the 12 fields in declaration order, short-circuiting on the
    /// first failure without rolling the position back.
    open spec fn dec(data: Seq<u8>, pos: int, endian: Endian) -> (Result<(T0::V, T1::V, T2::V, T3::V, T4::V, T5::V, T6::V, T7::V, T8::V, T9::V, T10::V, T11::V), Error>, int) {
        let (r0, p0) = T0::dec(data, pos, endian);
        match r0 {
            Err(e) => (Err(e), p0),
            Ok(v0) => {
                let (r1, p1) = T1::dec(data, p0, endian);
                match r1 {
                    Err(e) => (Err(e), p1),
                    Ok(v1) => {
                        let (r2, p2) = T2::dec(data, p1, endian);
                        match r2 {
                            Err(e) => (Err(e), p2),
                            Ok(v2) => {
                                let (r3, p3) = T3::dec(data, p2, endian);
                                match r3 {
                                    Err(e) => (Err(e), p3),
                                    Ok(v3) => {
                                        let (r4, p4) = T4::dec(data, p3, endian);
                                        match r4 {
                                            Err(e) => (Err(e), p4),
                                            Ok(v4) => {
                                                let (r5, p5) = T5::dec(data, p4, endian);
                                                match r5 {
                                                    Err(e) => (Err(e), p5),
                                                    Ok(v5) => {
                                                        let (r6, p6) = T6::dec(data, p5, endian);
                                                        match r6 {
                                                            Err(e) => (Err(e), p6),
                                                            Ok(v6) => {
                                                                let (r7, p7) = T7::dec(data, p6, endian);
                                                                match r7 {
                                                                    Err(e) => (Err(e), p7),
                                                                    Ok(v7) => {
                                                                        let (r8, p8) = T8::dec(data, p7, endian);
                                                                        match r8 {
                                                                            Err(e) => (Err(e), p8),
                                                                            Ok(v8) => {
                                                                                let (r9, p9) = T9::dec(data, p8, endian);
                                                                                match r9 {
                                                                                    Err(e) => (Err(e), p9),
                                                                                    Ok(v9) => {
                                                                                        let (r10, p10) = T10::dec(data, p9, endian);
                                                                                        match r10 {
                                                                                            Err(e) => (Err(e), p10),
                                                                                            Ok(v10) => {
                                                                                                let (r11, p11) = T11::dec(data, p10, endian);
                                                                                                match r11 {
                                                                                                    Err(e) => (Err(e), p11),
                                                                                                    Ok(v11) => {
                                                                                                        (Ok((v0, v1, v2, v3, v4, v5, v6, v7, v8, v9, v10, v11)), p11)
                                                                                                    },
                                                                                                }
                                                                                            },
                                                                                        }
                                                                                    },
                                                                                }
                                                                            },
                                                                        }
                                                                    },
                                                                }
                                                            },
                                                        }
                                                    },
                                                }
                                            },
                                        }
                                    },
                                }
                            },
                        }
                    },
                }
            },
        }
    }

    fn read(s: &mut ReadStream<'a>) -> (r: Result<Self, Error>) {
        let v0 = match s.read::<T0>() {
            Ok(v) => v,
            Err(e) => {
                return Err(e);
            },
        };
        let v1 = match s.read::<T1>() {
            Ok(v) => v,
            Err(e) => {
                return Err(e);
            },
        };
        let v2 = match s.read::<T2>() {
            Ok(v) => v,
            Err(e) => {
                return Err(e);
            },
        };
        let v3 = match s.read::<T3>() {
            Ok(v) => v,
            Err(e) => {
                return Err(e);
            },
        };
        let v4 = match s.read::<T4>() {
            Ok(v) => v,
            Err(e) => {
                return Err(e);
            },
        };
        let v5 = match s.read::<T5>() {
            Ok(v) => v,
            Err(e) => {
                return Err(e);
            },
        };
        let v6 = match s.read::<T6>() {
            Ok(v) => v,
            Err(e) => {
                return Err(e);
            },
        };
        let v7 = match s.read::<T7>() {
            Ok(v) => v,
            Err(e) => {
                return Err(e);
            },
        };
        let v8 = match s.read::<T8>() {
            Ok(v) => v,
            Err(e) => {
                return Err(e);
            },
        };
        let v9 = match s.read::<T9>() {
            Ok(v) => v,
            Err(e) => {
                return Err(e);
            },
        };
        let v10 = match s.read::<T10>() {
            Ok(v) => v,
            Err(e) => {
                return Err(e);
            },
        };
        let v11 = match s.read::<T11>() {
            Ok(v) => v,
            Err(e) => {
                return Err(e);
            },
        };
        Ok((v0, v1, v2, v3, v4, v5, v6, v7, v8, v9, v10, v11))
    }
}

} // verus!
