//! The non-consuming decode protocol: the `Peekable` trait and the built-in
//! peeks for the primitive types. A peek-view offers no way to move the
//! position, so peeking can never advance the cursor.

use crate::common::Endian;
use crate::encoding::{chunk_dec, lemma_pow256_vals, pow256};
use crate::error::Error;
use crate::readable::signed_of;
use crate::reader::PeekStream;
use vstd::prelude::*;

verus! {

/// A type whose value can be inspected at the current position without
/// consuming it.
///
/// The whole behaviour of `peek` is the spec function [`Self::pdec`]: the
/// exact value or error for the buffer, position and byte order at hand.
/// Peeking a nested composite type requires peeking a raw byte range and
/// building a fresh cursor over it: a peek-view cannot advance, so it cannot
/// recurse through the live cursor.
pub trait Peekable<'a>: Sized + DeepView {
    /// The peek relation: the result, over [`DeepView`] values. Every
    /// verified implementation replaces the default, which claims only
    /// failure; implementations outside the verifier may leave it.
    open spec fn pdec(data: Seq<u8>, pos: int, endian: Endian) -> Result<Self::V, Error> {
        Err(Error::NotValid)
    }

    /// Inspects one value of this type at the view's position.
    fn peek(s: &PeekStream<'a>) -> (r: Result<Self, Error>)
        requires
            s@.wf(),
        ensures
            ({
                let res = Self::pdec(s@.data, s@.pos as int, s@.endian);
                match (r, res) {
                    (Ok(v), Ok(w)) => v.deep_view() == w,
                    (Err(e1), Err(e2)) => e1 == e2,
                    _ => false,
                }
            }),
    ;
}

impl<'a> Peekable<'a> for u8 {
    /// Peeks 1 byte in the view's byte order.
    open spec fn pdec(data: Seq<u8>, pos: int, endian: Endian) -> Result<u8, Error> {
        let (r, p) = chunk_dec(data, pos, endian, 1);
        match r {
            Ok(v) => Ok(v as u8),
            Err(e) => Err(e),
        }
    }

    fn peek(s: &PeekStream<'a>) -> (r: Result<Self, Error>) {
        proof {
            lemma_pow256_vals();
        }
        match s.peek_chunk(1) {
            Ok(v) => Ok(v as u8),
            Err(e) => Err(e),
        }
    }
}

impl<'a> Peekable<'a> for u16 {
    /// Peeks 2 bytes in the view's byte order.
    open spec fn pdec(data: Seq<u8>, pos: int, endian: Endian) -> Result<u16, Error> {
        let (r, p) = chunk_dec(data, pos, endian, 2);
        match r {
            Ok(v) => Ok(v as u16),
            Err(e) => Err(e),
        }
    }

    fn peek(s: &PeekStream<'a>) -> (r: Result<Self, Error>) {
        proof {
            lemma_pow256_vals();
        }
        match s.peek_chunk(2) {
            Ok(v) => Ok(v as u16),
            Err(e) => Err(e),
        }
    }
}

impl<'a> Peekable<'a> for u32 {
    /// Peeks 4 bytes in the view's byte order.
    open spec fn pdec(data: Seq<u8>, pos: int, endian: Endian) -> Result<u32, Error> {
        let (r, p) = chunk_dec(data, pos, endian, 4);
        match r {
            Ok(v) => Ok(v as u32),
            Err(e) => Err(e),
        }
    }

    fn peek(s: &PeekStream<'a>) -> (r: Result<Self, Error>) {
        proof {
            lemma_pow256_vals();
        }
        match s.peek_chunk(4) {
            Ok(v) => Ok(v as u32),
            Err(e) => Err(e),
        }
    }
}

impl<'a> Peekable<'a> for u64 {
    /// Peeks 8 bytes in the view's byte order.
    open spec fn pdec(data: Seq<u8>, pos: int, endian: Endian) -> Result<u64, Error> {
        let (r, p) = chunk_dec(data, pos, endian, 8);
        match r {
            Ok(v) => Ok(v as u64),
            Err(e) => Err(e),
        }
    }

    fn peek(s: &PeekStream<'a>) -> (r: Result<Self, Error>) {
        proof {
            lemma_pow256_vals();
        }
        match s.peek_chunk(8) {
            Ok(v) => Ok(v as u64),
            Err(e) => Err(e),
        }
    }
}

impl<'a> Peekable<'a> for u128 {
    /// Peeks 16 bytes in the view's byte order.
    open spec fn pdec(data: Seq<u8>, pos: int, endian: Endian) -> Result<u128, Error> {
        let (r, p) = chunk_dec(data, pos, endian, 16);
        match r {
            Ok(v) => Ok(v as u128),
            Err(e) => Err(e),
        }
    }

    fn peek(s: &PeekStream<'a>) -> (r: Result<Self, Error>) {
        proof {
            lemma_pow256_vals();
        }
        match s.peek_chunk(16) {
            Ok(v) => Ok(v as u128),
            Err(e) => Err(e),
        }
    }
}

impl<'a> Peekable<'a> for i8 {
    /// Peeks 1 byte in the view's byte order, two's complement.
    open spec fn pdec(data: Seq<u8>, pos: int, endian: Endian) -> Result<i8, Error> {
        let (r, p) = chunk_dec(data, pos, endian, 1);
        match r {
            Ok(v) => Ok(signed_of(v, 1) as i8),
            Err(e) => Err(e),
        }
    }

    fn peek(s: &PeekStream<'a>) -> (r: Result<Self, Error>) {
        proof {
            lemma_pow256_vals();
        }
        match s.peek_chunk(1) {
            Ok(v) => {
                let x: i128 = if v >= 0x80 {
                    (v as i128) - 0x100
                } else {
                    v as i128
                };
                Ok(x as i8)
            },
            Err(e) => Err(e),
        }
    }
}

impl<'a> Peekable<'a> for i16 {
    /// Peeks 2 bytes in the view's byte order, two's complement.
    open spec fn pdec(data: Seq<u8>, pos: int, endian: Endian) -> Result<i16, Error> {
        let (r, p) = chunk_dec(data, pos, endian, 2);
        match r {
            Ok(v) => Ok(signed_of(v, 2) as i16),
            Err(e) => Err(e),
        }
    }

    fn peek(s: &PeekStream<'a>) -> (r: Result<Self, Error>) {
        proof {
            lemma_pow256_vals();
        }
        match s.peek_chunk(2) {
            Ok(v) => {
                let x: i128 = if v >= 0x8000 {
                    (v as i128) - 0x10000
                } else {
                    v as i128
                };
                Ok(x as i16)
            },
            Err(e) => Err(e),
        }
    }
}

impl<'a> Peekable<'a> for i32 {
    /// Peeks 4 bytes in the view's byte order, two's complement.
    open spec fn pdec(data: Seq<u8>, pos: int, endian: Endian) -> Result<i32, Error> {
        let (r, p) = chunk_dec(data, pos, endian, 4);
        match r {
            Ok(v) => Ok(signed_of(v, 4) as i32),
            Err(e) => Err(e),
        }
    }

    fn peek(s: &PeekStream<'a>) -> (r: Result<Self, Error>) {
        proof {
            lemma_pow256_vals();
        }
        match s.peek_chunk(4) {
            Ok(v) => {
                let x: i128 = if v >= 0x80000000 {
                    (v as i128) - 0x100000000
                } else {
                    v as i128
                };
                Ok(x as i32)
            },
            Err(e) => Err(e),
        }
    }
}

impl<'a> Peekable<'a> for i64 {
    /// Peeks 8 bytes in the view's byte order, two's complement.
    open spec fn pdec(data: Seq<u8>, pos: int, endian: Endian) -> Result<i64, Error> {
        let (r, p) = chunk_dec(data, pos, endian, 8);
        match r {
            Ok(v) => Ok(signed_of(v, 8) as i64),
            Err(e) => Err(e),
        }
    }

    fn peek(s: &PeekStream<'a>) -> (r: Result<Self, Error>) {
        proof {
            lemma_pow256_vals();
        }
        match s.peek_chunk(8) {
            Ok(v) => {
                let x: i128 = if v >= 0x8000000000000000 {
                    (v as i128) - 0x10000000000000000
                } else {
                    v as i128
                };
                Ok(x as i64)
            },
            Err(e) => Err(e),
        }
    }
}

impl<'a> Peekable<'a> for i128 {
    /// Peeks 16 bytes in the view's byte order, two's complement.
    open spec fn pdec(data: Seq<u8>, pos: int, endian: Endian) -> Result<i128, Error> {
        let (r, p) = chunk_dec(data, pos, endian, 16);
        match r {
            Ok(v) => Ok(signed_of(v, 16) as i128),
            Err(e) => Err(e),
        }
    }

    fn peek(s: &PeekStream<'a>) -> (r: Result<Self, Error>) {
        proof {
            lemma_pow256_vals();
        }
        match s.peek_chunk(16) {
            Ok(v) => {
                let x: i128 = if v >= 0x80000000000000000000000000000000u128 {
                    ((v - 0x80000000000000000000000000000000u128) as i128) + i128::MIN
                } else {
                    v as i128
                };
                Ok(x)
            },
            Err(e) => Err(e),
        }
    }
}

impl<'a> Peekable<'a> for usize {
    /// Peeks 8 bytes in the view's byte order; a value above `usize::MAX`
    /// is rejected as `NotValid`.
    open spec fn pdec(data: Seq<u8>, pos: int, endian: Endian) -> Result<usize, Error> {
        let (r, p) = chunk_dec(data, pos, endian, 8);
        match r {
            Ok(v) => if v <= usize::MAX {
                Ok(v as usize)
            } else {
                Err(Error::NotValid)
            },
            Err(e) => Err(e),
        }
    }

    fn peek(s: &PeekStream<'a>) -> (r: Result<Self, Error>) {
        proof {
            lemma_pow256_vals();
        }
        match s.peek_chunk(8) {
            Ok(v) => {
                if v <= usize::MAX as u128 {
                    Ok(v as usize)
                } else {
                    Err(Error::NotValid)
                }
            },
            Err(e) => Err(e),
        }
    }
}

impl<'a> Peekable<'a> for isize {
    /// Peeks 8 bytes in the view's byte order, two's complement; a value
    /// outside the `isize` range is rejected as `NotValid`.
    open spec fn pdec(data: Seq<u8>, pos: int, endian: Endian) -> Result<isize, Error> {
        let (r, p) = chunk_dec(data, pos, endian, 8);
        match r {
            Ok(v) => if isize::MIN <= signed_of(v, 8) <= isize::MAX {
                Ok(signed_of(v, 8) as isize)
            } else {
                Err(Error::NotValid)
            },
            Err(e) => Err(e),
        }
    }

    fn peek(s: &PeekStream<'a>) -> (r: Result<Self, Error>) {
        proof {
            lemma_pow256_vals();
        }
        match s.peek_chunk(8) {
            Ok(v) => {
                let x: i128 = if v >= 0x8000000000000000 {
                    (v as i128) - 0x10000000000000000
                } else {
                    v as i128
                };
                if x >= isize::MIN as i128 && x <= isize::MAX as i128 {
                    Ok(x as isize)
                } else {
                    Err(Error::NotValid)
                }
            },
            Err(e) => Err(e),
        }
    }
}

impl<'a> Peekable<'a> for bool {
    /// Peeks one byte: 0 is `false`, 1 is `true`, anything else fails as
    /// `NotValid`.
    open spec fn pdec(data: Seq<u8>, pos: int, endian: Endian) -> Result<bool, Error> {
        let (r, p) = chunk_dec(data, pos, endian, 1);
        match r {
            Ok(v) => if v == 0 {
                Ok(false)
            } else if v == 1 {
                Ok(true)
            } else {
                Err(Error::NotValid)
            },
            Err(e) => Err(e),
        }
    }

    fn peek(s: &PeekStream<'a>) -> (r: Result<Self, Error>) {
        match s.peek_chunk(1) {
            Ok(v) => {
                if v == 0 {
                    Ok(false)
                } else if v == 1 {
                    Ok(true)
                } else {
                    Err(Error::NotValid)
                }
            },
            Err(e) => Err(e),
        }
    }
}

} // verus!
