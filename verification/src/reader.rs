//! The reading cursor over an immutably borrowed byte buffer, and the two
//! view handles it lends to codec implementations.

use crate::common::{
    align_target, is_power_of_two, lemma_align_step, lemma_pow2_positive, magnitude, seek_target,
    CursorView, Endian, SeekFrom,
};
use crate::error::Error;
use crate::peekable::Peekable;
use crate::readable::Readable;
use crate::text::ascii_dec;
use vstd::prelude::*;

verus! {

/// A bounds-safe reading cursor: a borrowed byte buffer, a position within
/// `[0, len]`, and the byte order used for multi-byte values.
pub struct ByteReader<'a> {
    data: &'a [u8],
    pos: usize,
    endian: Endian,
}

impl<'a> View for ByteReader<'a> {
    type V = CursorView;

    closed spec fn view(&self) -> CursorView {
        CursorView { data: self.data@, pos: self.pos, endian: self.endian }
    }
}

impl<'a> ByteReader<'a> {
    /// A new reader over `data`, at position zero, in native byte order.
    pub fn new(data: &'a [u8]) -> (r: ByteReader<'a>)
        ensures
            r@ == (CursorView { data: data@, pos: 0, endian: Endian::Native }),
            r@.wf(),
    {
        let _len: usize = data.len();
        assert(data@.len() <= usize::MAX);
        ByteReader { data, pos: 0, endian: Endian::Native }
    }

    /// A new reader over `data`, at position zero, in the given byte order.
    pub fn with_endian(data: &'a [u8], endian: Endian) -> (r: ByteReader<'a>)
        ensures
            r@ == (CursorView { data: data@, pos: 0, endian }),
            r@.wf(),
    {
        let _len: usize = data.len();
        assert(data@.len() <= usize::MAX);
        ByteReader { data, pos: 0, endian }
    }

    /// The byte order used for multi-byte reads.
    pub fn endian(&self) -> (r: Endian)
        ensures
            r == self@.endian,
    {
        self.endian
    }

    /// Changes the byte order for the reads that follow; bytes already
    /// consumed are unaffected.
    pub fn set_endian(&mut self, endian: Endian)
        ensures
            final(self)@ == (CursorView { endian, ..old(self)@ }),
    {
        self.endian = endian;
    }

    /// The current position: always within `[0, len]`.
    pub fn position(&self) -> (r: usize)
        ensures
            r == self@.pos,
    {
        self.pos
    }

    /// Moves to the absolute position `pos`; fails with `OutOfBounds` when
    /// `pos > len`, leaving the position unchanged.
    pub fn set_position(&mut self, pos: usize) -> (r: Result<(), Error>)
        requires
            old(self)@.wf(),
        ensures
            final(self)@.wf(),
            final(self)@.data == old(self)@.data,
            final(self)@.endian == old(self)@.endian,
            if pos <= old(self)@.data.len() {
                r is Ok && final(self)@.pos == pos
            } else {
                &&& r matches Err(e) && e == (Error::OutOfBounds {
                    pos: old(self)@.pos,
                    requested: pos,
                    len: old(self)@.data.len() as usize,
                })
                &&& final(self)@.pos == old(self)@.pos
            },
    {
        if pos > self.data.len() {
            return Err(
                Error::OutOfBounds { pos: self.pos, requested: pos, len: self.data.len() },
            );
        }
        self.pos = pos;
        Ok(())
    }

    /// Moves forward by `count` bytes; fails with `OutOfBounds` when the
    /// target would pass the end, leaving the position unchanged.
    pub fn skip(&mut self, count: usize) -> (r: Result<(), Error>)
        requires
            old(self)@.wf(),
        ensures
            final(self)@.wf(),
            final(self)@.data == old(self)@.data,
            final(self)@.endian == old(self)@.endian,
            if old(self)@.pos + count <= old(self)@.data.len() {
                r is Ok && final(self)@.pos == old(self)@.pos + count
            } else {
                &&& r matches Err(e) && e == (Error::OutOfBounds {
                    pos: old(self)@.pos,
                    requested: count,
                    len: old(self)@.data.len() as usize,
                })
                &&& final(self)@.pos == old(self)@.pos
            },
    {
        if count <= self.data.len() - self.pos {
            self.pos = self.pos + count;
            Ok(())
        } else {
            Err(Error::OutOfBounds { pos: self.pos, requested: count, len: self.data.len() })
        }
    }

    /// Moves forward by `count` bytes, clamping to the end of the buffer;
    /// never fails.
    pub fn skip_force(&mut self, count: usize)
        requires
            old(self)@.wf(),
        ensures
            final(self)@.wf(),
            final(self)@.data == old(self)@.data,
            final(self)@.endian == old(self)@.endian,
            final(self)@.pos == if old(self)@.pos + count <= old(self)@.data.len() {
                old(self)@.pos + count
            } else {
                old(self)@.data.len() as int
            },
    {
        if count <= self.data.len() - self.pos {
            self.pos = self.pos + count;
        } else {
            self.pos = self.data.len();
        }
    }

    /// Moves backward by `count` bytes; fails with `OutOfBounds` when
    /// `count` exceeds the current position, leaving the position unchanged.
    pub fn rewind(&mut self, count: usize) -> (r: Result<(), Error>)
        requires
            old(self)@.wf(),
        ensures
            final(self)@.wf(),
            final(self)@.data == old(self)@.data,
            final(self)@.endian == old(self)@.endian,
            if count <= old(self)@.pos {
                r is Ok && final(self)@.pos == old(self)@.pos - count
            } else {
                &&& r matches Err(e) && e == (Error::OutOfBounds {
                    pos: old(self)@.pos,
                    requested: count,
                    len: old(self)@.data.len() as usize,
                })
                &&& final(self)@.pos == old(self)@.pos
            },
    {
        if count <= self.pos {
            self.pos = self.pos - count;
            Ok(())
        } else {
            Err(Error::OutOfBounds { pos: self.pos, requested: count, len: self.data.len() })
        }
    }

    /// Moves backward by `count` bytes, clamping to the start; never fails.
    pub fn rewind_force(&mut self, count: usize)
        requires
            old(self)@.wf(),
        ensures
            final(self)@.wf(),
            final(self)@.data == old(self)@.data,
            final(self)@.endian == old(self)@.endian,
            final(self)@.pos == if count <= old(self)@.pos {
                old(self)@.pos - count
            } else {
                0
            },
    {
        if count <= self.pos {
            self.pos = self.pos - count;
        } else {
            self.pos = 0;
        }
    }

    /// Rounds the position up to the next multiple of `A`, a power of two;
    /// fails with `OutOfBounds` when that multiple lies past the end,
    /// leaving the position unchanged.
    pub fn align_up<const A: usize>(&mut self) -> (r: Result<(), Error>)
        requires
            old(self)@.wf(),
            vstd::arithmetic::power2::is_pow2(A as int),
        ensures
            final(self)@.wf(),
            final(self)@.data == old(self)@.data,
            final(self)@.endian == old(self)@.endian,
            if align_target(old(self)@.pos as int, A as int) <= old(self)@.data.len() {
                r is Ok && final(self)@.pos == align_target(old(self)@.pos as int, A as int)
            } else {
                &&& r matches Err(e)
                &&& e matches Error::OutOfBounds { pos, len, .. } && pos == old(self)@.pos && len
                    == old(self)@.data.len()
                &&& final(self)@.pos == old(self)@.pos
            },
    {
        proof {
            lemma_pow2_positive(A as int);
        }
        let rem = self.pos % A;
        if rem == 0 {
            Ok(())
        } else {
            proof {
                lemma_align_step(self.pos as int, A as int);
            }
            let add = A - rem;
            if add <= self.data.len() - self.pos {
                self.pos = self.pos + add;
                Ok(())
            } else {
                Err(
                    Error::OutOfBounds {
                        pos: self.pos,
                        requested: self.pos.saturating_add(add),
                        len: self.data.len(),
                    },
                )
            }
        }
    }

    /// Rounds the position up to the next multiple of `A`, a power of two,
    /// clamping to the end of the buffer; never fails.
    pub fn align_up_force<const A: usize>(&mut self)
        requires
            old(self)@.wf(),
            vstd::arithmetic::power2::is_pow2(A as int),
        ensures
            final(self)@.wf(),
            final(self)@.data == old(self)@.data,
            final(self)@.endian == old(self)@.endian,
            final(self)@.pos == if align_target(old(self)@.pos as int, A as int) <= old(
                self,
            )@.data.len() {
                align_target(old(self)@.pos as int, A as int)
            } else {
                old(self)@.data.len() as int
            },
    {
        proof {
            lemma_pow2_positive(A as int);
        }
        let rem = self.pos % A;
        if rem != 0 {
            proof {
                lemma_align_step(self.pos as int, A as int);
            }
            let add = A - rem;
            if add <= self.data.len() - self.pos {
                self.pos = self.pos + add;
            } else {
                self.pos = self.data.len();
            }
        }
    }

    /// Rounds the position up to the next multiple of `alignment`; fails
    /// with `NotValid` when `alignment` is not a power of two, and with
    /// `OutOfBounds` when the target lies past the end. Failure leaves the
    /// position unchanged.
    pub fn align_up_dynamic(&mut self, alignment: usize) -> (r: Result<(), Error>)
        requires
            old(self)@.wf(),
        ensures
            final(self)@.wf(),
            final(self)@.data == old(self)@.data,
            final(self)@.endian == old(self)@.endian,
            if !vstd::arithmetic::power2::is_pow2(alignment as int) {
                &&& r matches Err(e) && e == Error::NotValid
                &&& final(self)@.pos == old(self)@.pos
            } else if align_target(old(self)@.pos as int, alignment as int) <= old(
                self,
            )@.data.len() {
                r is Ok && final(self)@.pos == align_target(
                    old(self)@.pos as int,
                    alignment as int,
                )
            } else {
                &&& r matches Err(e)
                &&& e matches Error::OutOfBounds { pos, len, .. } && pos == old(self)@.pos && len
                    == old(self)@.data.len()
                &&& final(self)@.pos == old(self)@.pos
            },
    {
        if !is_power_of_two(alignment) {
            return Err(Error::NotValid);
        }
        proof {
            lemma_pow2_positive(alignment as int);
        }
        let rem = self.pos % alignment;
        if rem == 0 {
            Ok(())
        } else {
            proof {
                lemma_align_step(self.pos as int, alignment as int);
            }
            let add = alignment - rem;
            if add <= self.data.len() - self.pos {
                self.pos = self.pos + add;
                Ok(())
            } else {
                Err(
                    Error::OutOfBounds {
                        pos: self.pos,
                        requested: self.pos.saturating_add(add),
                        len: self.data.len(),
                    },
                )
            }
        }
    }

    /// Resolves `from` to a target position and moves there, returning the
    /// new position. The exact outcome, including each error, is
    /// [`seek_target`]; failure leaves the position unchanged.
    pub fn seek(&mut self, from: SeekFrom) -> (r: Result<usize, Error>)
        requires
            old(self)@.wf(),
        ensures
            final(self)@.wf(),
            final(self)@.data == old(self)@.data,
            final(self)@.endian == old(self)@.endian,
            match seek_target(old(self)@.pos, old(self)@.data.len() as usize, from) {
                Ok(t) => r matches Ok(p) && p == t && final(self)@.pos == t,
                Err(e) => r matches Err(e2) && e2 == e && final(self)@.pos == old(self)@.pos,
            },
    {
        let len = self.data.len();
        match from {
            SeekFrom::Start(n) => {
                if n <= len {
                    self.pos = n;
                    Ok(n)
                } else {
                    Err(Error::OutOfBounds { pos: self.pos, requested: n, len })
                }
            },
            SeekFrom::End(n) => {
                if n > 0 {
                    Err(Error::OutOfBounds { pos: self.pos, requested: n as usize, len })
                } else {
                    let m = magnitude(n);
                    if m <= len {
                        self.pos = len - m;
                        Ok(self.pos)
                    } else {
                        Err(Error::OutOfBounds { pos: self.pos, requested: m, len })
                    }
                }
            },
            SeekFrom::Current(n) => {
                if n > 0 {
                    let step = n as usize;
                    if step <= usize::MAX - self.pos {
                        let t = self.pos + step;
                        if t <= len {
                            self.pos = t;
                            Ok(t)
                        } else {
                            Err(Error::OutOfBounds { pos: self.pos, requested: t, len })
                        }
                    } else {
                        Err(Error::OutOfBounds { pos: self.pos, requested: step, len })
                    }
                } else {
                    let m = magnitude(n);
                    if m <= self.pos {
                        self.pos = self.pos - m;
                        Ok(self.pos)
                    } else {
                        Err(Error::OutOfBounds { pos: self.pos, requested: m, len })
                    }
                }
            },
        }
    }

    /// Returns the position to the start; never fails.
    pub fn reset(&mut self)
        ensures
            final(self)@ == (CursorView { pos: 0, ..old(self)@ }),
            final(self)@.wf() == (old(self)@.data.len() <= usize::MAX),
    {
        self.pos = 0;
    }

    /// The whole underlying buffer, independent of the position.
    pub fn as_slice(&self) -> (r: &'a [u8])
        ensures
            r@ == self@.data,
    {
        self.data
    }

    /// Consumes the reader and hands the underlying buffer back.
    pub fn into_inner(self) -> (r: &'a [u8])
        ensures
            r@ == self@.data,
    {
        self.data
    }

    /// The buffer's total length in bytes.
    pub fn len(&self) -> (r: usize)
        ensures
            r == self@.data.len(),
    {
        self.data.len()
    }

    /// The bytes not yet read: everything from the position to the end.
    pub fn rest_bytes(&self) -> (r: &'a [u8])
        requires
            self@.wf(),
        ensures
            r@ == self@.data.subrange(self@.pos as int, self@.data.len() as int),
    {
        vstd::slice::slice_subrange(self.data, self.pos, self.data.len())
    }

    /// How many bytes remain to be read.
    pub fn rest_len(&self) -> (r: usize)
        requires
            self@.wf(),
        ensures
            r == self@.rest(),
    {
        self.data.len() - self.pos
    }

    /// Whether the buffer holds no bytes at all.
    pub fn is_empty(&self) -> (r: bool)
        ensures
            r == (self@.data.len() == 0),
    {
        self.data.is_empty()
    }

    /// Whether the position has reached the end of the buffer.
    pub fn is_eof(&self) -> (r: bool)
        ensures
            r == (self@.pos >= self@.data.len()),
    {
        self.pos >= self.data.len()
    }

    /// Decodes one value of `R` at the current position, advancing exactly
    /// as `R::dec` says; composite decodes that fail part-way are not
    /// rolled back.
    pub fn read<R: Readable<'a>>(&mut self) -> (r: Result<R, Error>)
        requires
            old(self)@.wf(),
        ensures
            final(self)@.wf(),
            final(self)@.data == old(self)@.data,
            final(self)@.endian == old(self)@.endian,
            ({
                let (res, p) = R::dec(old(self)@.data, old(self)@.pos as int, old(self)@.endian);
                &&& final(self)@.pos == p
                &&& match (r, res) {
                    (Ok(v), Ok(w)) => v.deep_view() == w,
                    (Err(e1), Err(e2)) => e1 == e2,
                    _ => false,
                }
            }),
    {
        let mut s = ReadStream { data: self.data, pos: self.pos, endian: self.endian };
        let r = R::read(&mut s);
        self.pos = s.pos;
        self.endian = s.endian;
        r
    }

    /// The foundational bounds-checked primitive: exactly `size` bytes at
    /// the current position, without moving. Fails with `InsufficientData`
    /// carrying the request and what remains.
    fn peek_exact(&self, size: usize) -> (r: Result<&'a [u8], Error>)
        requires
            self@.wf(),
        ensures
            if self@.pos + size <= self@.data.len() {
                r matches Ok(b) && b@ == self@.data.subrange(
                    self@.pos as int,
                    self@.pos + size,
                )
            } else {
                r matches Err(e) && e == (Error::InsufficientData {
                    requested: size,
                    available: self@.rest() as usize,
                })
            },
    {
        if size <= self.data.len() - self.pos {
            Ok(vstd::slice::slice_subrange(self.data, self.pos, self.pos + size))
        } else {
            Err(
                Error::InsufficientData {
                    requested: size,
                    available: self.data.len() - self.pos,
                },
            )
        }
    }

    /// Like [`Self::peek_exact`], and additionally advances the position by
    /// `size` on success. Failure leaves the position unchanged.
    fn read_exact(&mut self, size: usize) -> (r: Result<&'a [u8], Error>)
        requires
            old(self)@.wf(),
        ensures
            final(self)@.wf(),
            final(self)@.data == old(self)@.data,
            final(self)@.endian == old(self)@.endian,
            if old(self)@.pos + size <= old(self)@.data.len() {
                &&& r matches Ok(b) && b@ == old(self)@.data.subrange(
                    old(self)@.pos as int,
                    old(self)@.pos + size,
                )
                &&& final(self)@.pos == old(self)@.pos + size
            } else {
                &&& r matches Err(e) && e == (Error::InsufficientData {
                    requested: size,
                    available: old(self)@.rest() as usize,
                })
                &&& final(self)@.pos == old(self)@.pos
            },
    {
        if size <= self.data.len() - self.pos {
            let b = vstd::slice::slice_subrange(self.data, self.pos, self.pos + size);
            self.pos = self.pos + size;
            Ok(b)
        } else {
            Err(
                Error::InsufficientData {
                    requested: size,
                    available: self.data.len() - self.pos,
                },
            )
        }
    }

    /// Exactly `size` bytes at the current position, without moving.
    pub fn peek_bytes(&self, size: usize) -> (r: Result<&'a [u8], Error>)
        requires
            self@.wf(),
        ensures
            if self@.pos + size <= self@.data.len() {
                r matches Ok(b) && b@ == self@.data.subrange(
                    self@.pos as int,
                    self@.pos + size,
                )
            } else {
                r matches Err(e) && e == (Error::InsufficientData {
                    requested: size,
                    available: self@.rest() as usize,
                })
            },
    {
        self.peek_exact(size)
    }

    /// Exactly `size` bytes at the current position, advancing by `size` on
    /// success.
    pub fn read_bytes(&mut self, size: usize) -> (r: Result<&'a [u8], Error>)
        requires
            old(self)@.wf(),
        ensures
            final(self)@.wf(),
            final(self)@.data == old(self)@.data,
            final(self)@.endian == old(self)@.endian,
            if old(self)@.pos + size <= old(self)@.data.len() {
                &&& r matches Ok(b) && b@ == old(self)@.data.subrange(
                    old(self)@.pos as int,
                    old(self)@.pos + size,
                )
                &&& final(self)@.pos == old(self)@.pos + size
            } else {
                &&& r matches Err(e) && e == (Error::InsufficientData {
                    requested: size,
                    available: old(self)@.rest() as usize,
                })
                &&& final(self)@.pos == old(self)@.pos
            },
    {
        self.read_exact(size)
    }


    /// Inspects one value of `P` at the current position without moving it.
    pub fn peek<P: Peekable<'a>>(&self) -> (r: Result<P, Error>)
        requires
            self@.wf(),
        ensures
            ({
                let res = P::pdec(self@.data, self@.pos as int, self@.endian);
                match (r, res) {
                    (Ok(v), Ok(w)) => v.deep_view() == w,
                    (Err(e1), Err(e2)) => e1 == e2,
                    _ => false,
                }
            }),
    {
        let s = PeekStream { data: self.data, pos: self.pos, endian: self.endian };
        P::peek(&s)
    }

    /// Reads `size` bytes as ASCII text, advancing by `size` whenever the
    /// bytes were there; text that is not UTF-8 fails as `NotValidUTF8`,
    /// UTF-8 text with characters outside ASCII as `NotValidAscii`.
    pub fn read_ascii(&mut self, size: usize) -> (r: Result<&'a str, Error>)
        requires
            old(self)@.wf(),
        ensures
            final(self)@.wf(),
            final(self)@.data == old(self)@.data,
            final(self)@.endian == old(self)@.endian,
            final(self)@.pos == if old(self)@.pos + size <= old(self)@.data.len() {
                old(self)@.pos + size
            } else {
                old(self)@.pos as int
            },
            match ascii_dec(old(self)@.data, old(self)@.pos as int, size as nat) {
                Ok(cs) => r matches Ok(st) && st@ == cs,
                Err(e) => r matches Err(e2) && e2 == e,
            },
    {
        match self.read_exact(size) {
            Ok(b) => {
                if crate::text::utf8_check(b) {
                    let st = crate::text::str_from_utf8(b);
                    proof {
                        vstd::utf8::encode_utf8_decode_utf8(st@);
                    }
                    if st.is_ascii() {
                        Ok(st)
                    } else {
                        Err(Error::NotValidAscii)
                    }
                } else {
                    Err(Error::NotValidUTF8)
                }
            },
            Err(e) => Err(e),
        }
    }

    /// Like [`Self::read_ascii`], but never moves the position.
    pub fn peek_ascii(&self, size: usize) -> (r: Result<&'a str, Error>)
        requires
            self@.wf(),
        ensures
            match ascii_dec(self@.data, self@.pos as int, size as nat) {
                Ok(cs) => r matches Ok(st) && st@ == cs,
                Err(e) => r matches Err(e2) && e2 == e,
            },
    {
        match self.peek_exact(size) {
            Ok(b) => {
                if crate::text::utf8_check(b) {
                    let st = crate::text::str_from_utf8(b);
                    proof {
                        vstd::utf8::encode_utf8_decode_utf8(st@);
                    }
                    if st.is_ascii() {
                        Ok(st)
                    } else {
                        Err(Error::NotValidAscii)
                    }
                } else {
                    Err(Error::NotValidUTF8)
                }
            },
            Err(e) => Err(e),
        }
    }

    /// Like [`Self::read_bytes`], but returns an owned copy of the bytes.
    pub fn read_vec(&mut self, size: usize) -> (r: Result<Vec<u8>, Error>)
        requires
            old(self)@.wf(),
        ensures
            final(self)@.wf(),
            final(self)@.data == old(self)@.data,
            final(self)@.endian == old(self)@.endian,
            if old(self)@.pos + size <= old(self)@.data.len() {
                &&& r matches Ok(b) && b@ == old(self)@.data.subrange(
                    old(self)@.pos as int,
                    old(self)@.pos + size,
                )
                &&& final(self)@.pos == old(self)@.pos + size
            } else {
                &&& r matches Err(e) && e == (Error::InsufficientData {
                    requested: size,
                    available: old(self)@.rest() as usize,
                })
                &&& final(self)@.pos == old(self)@.pos
            },
    {
        match self.read_exact(size) {
            Ok(b) => Ok(vstd::slice::slice_to_vec(b)),
            Err(e) => Err(e),
        }
    }
}

impl<'a> Clone for ByteReader<'a> {
    /// A copy of the reader: same buffer, position and byte order.
    fn clone(&self) -> (r: Self)
        ensures
            r@ == self@,
    {
        ByteReader { data: self.data, pos: self.pos, endian: self.endian }
    }
}

/// A read-only view of a cursor for peeking: codec implementations get one
/// per `peek` call and can inspect bytes, but the handle offers no operation
/// that moves the position — advancing through a peek-view is structurally
/// impossible.
pub struct PeekStream<'a> {
    data: &'a [u8],
    pos: usize,
    endian: Endian,
}

impl<'a> View for PeekStream<'a> {
    type V = CursorView;

    closed spec fn view(&self) -> CursorView {
        CursorView { data: self.data@, pos: self.pos, endian: self.endian }
    }
}

impl<'a> PeekStream<'a> {
    /// The byte order of the underlying reader.
    pub fn get_endian(&self) -> (r: Endian)
        ensures
            r == self@.endian,
    {
        self.endian
    }

    /// The bytes not yet read.
    pub fn rest_bytes(&self) -> (r: &'a [u8])
        requires
            self@.wf(),
        ensures
            r@ == self@.data.subrange(self@.pos as int, self@.data.len() as int),
    {
        vstd::slice::slice_subrange(self.data, self.pos, self.data.len())
    }

    /// How many bytes remain to be read.
    pub fn rest_len(&self) -> (r: usize)
        requires
            self@.wf(),
        ensures
            r == self@.rest(),
    {
        self.data.len() - self.pos
    }

    /// Whether the position has reached the end of the data.
    pub fn is_eof(&self) -> (r: bool)
        ensures
            r == (self@.pos >= self@.data.len()),
    {
        self.pos >= self.data.len()
    }

    /// Exactly `size` bytes at the current position; the position cannot
    /// move.
    pub fn peek_exact(&self, size: usize) -> (r: Result<&'a [u8], Error>)
        requires
            self@.wf(),
        ensures
            if self@.pos + size <= self@.data.len() {
                r matches Ok(b) && b@ == self@.data.subrange(
                    self@.pos as int,
                    self@.pos + size,
                )
            } else {
                r matches Err(e) && e == (Error::InsufficientData {
                    requested: size,
                    available: self@.rest() as usize,
                })
            },
    {
        if size <= self.data.len() - self.pos {
            Ok(vstd::slice::slice_subrange(self.data, self.pos, self.pos + size))
        } else {
            Err(
                Error::InsufficientData {
                    requested: size,
                    available: self.data.len() - self.pos,
                },
            )
        }
    }


    /// Inspects one value of `P` at the view's position.
    pub fn peek<P: Peekable<'a>>(&self) -> (r: Result<P, Error>)
        requires
            self@.wf(),
        ensures
            ({
                let res = P::pdec(self@.data, self@.pos as int, self@.endian);
                match (r, res) {
                    (Ok(v), Ok(w)) => v.deep_view() == w,
                    (Err(e1), Err(e2)) => e1 == e2,
                    _ => false,
                }
            }),
    {
        P::peek(self)
    }

    /// Inspects `size` bytes as ASCII text without moving; text that is not
    /// UTF-8 fails as `NotValidUTF8`, UTF-8 text with characters outside
    /// ASCII as `NotValidAscii`.
    pub fn peek_ascii(&self, size: usize) -> (r: Result<&'a str, Error>)
        requires
            self@.wf(),
        ensures
            match ascii_dec(self@.data, self@.pos as int, size as nat) {
                Ok(cs) => r matches Ok(st) && st@ == cs,
                Err(e) => r matches Err(e2) && e2 == e,
            },
    {
        match self.peek_exact(size) {
            Ok(b) => {
                if crate::text::utf8_check(b) {
                    let st = crate::text::str_from_utf8(b);
                    proof {
                        vstd::utf8::encode_utf8_decode_utf8(st@);
                    }
                    if st.is_ascii() {
                        Ok(st)
                    } else {
                        Err(Error::NotValidAscii)
                    }
                } else {
                    Err(Error::NotValidUTF8)
                }
            },
            Err(e) => Err(e),
        }
    }

    /// Reads `n <= 16` raw bytes at the position as one number in the
    /// current byte order, without moving.
    pub(crate) fn peek_chunk(&self, n: usize) -> (r: Result<u128, Error>)
        requires
            self@.wf(),
            n <= 16,
        ensures
            ({
                let (res, p) = crate::encoding::chunk_dec(
                    self@.data,
                    self@.pos as int,
                    self@.endian,
                    n as nat,
                );
                match (r, res) {
                    (Ok(v), Ok(w)) => v as nat == w && w < crate::encoding::pow256(n as nat),
                    (Err(e1), Err(e2)) => e1 == e2,
                    _ => false,
                }
            }),
    {
        match self.peek_exact(n) {
            Ok(b) => {
                proof {
                    crate::encoding::lemma_chunk_value_bound(self@.endian, b@);
                }
                let v = match self.endian {
                    Endian::Big => crate::encoding::be_chunk_value(b),
                    _ => crate::encoding::le_chunk_value(b),
                };
                Ok(v)
            },
            Err(e) => Err(e),
        }
    }
}

/// A consuming view of a cursor for decoding: codec implementations get one
/// per `read` call. It offers per-call navigation (skip and align) but no
/// arbitrary seek, so mid-decode repositioning stays deliberate.
pub struct ReadStream<'a> {
    data: &'a [u8],
    pos: usize,
    endian: Endian,
}

impl<'a> View for ReadStream<'a> {
    type V = CursorView;

    closed spec fn view(&self) -> CursorView {
        CursorView { data: self.data@, pos: self.pos, endian: self.endian }
    }
}

impl<'a> ReadStream<'a> {
    /// The byte order of the underlying reader.
    pub fn get_endian(&self) -> (r: Endian)
        ensures
            r == self@.endian,
    {
        self.endian
    }

    /// Changes the byte order of the underlying reader for all reads that
    /// follow, inside and after this call.
    pub fn set_endian(&mut self, endian: Endian)
        ensures
            final(self)@ == (CursorView { endian, ..old(self)@ }),
    {
        self.endian = endian;
    }

    /// The bytes not yet read.
    pub fn rest_bytes(&self) -> (r: &'a [u8])
        requires
            self@.wf(),
        ensures
            r@ == self@.data.subrange(self@.pos as int, self@.data.len() as int),
    {
        vstd::slice::slice_subrange(self.data, self.pos, self.data.len())
    }

    /// How many bytes remain to be read.
    pub fn rest_len(&self) -> (r: usize)
        requires
            self@.wf(),
        ensures
            r == self@.rest(),
    {
        self.data.len() - self.pos
    }

    /// Whether the position has reached the end of the data.
    pub fn is_eof(&self) -> (r: bool)
        ensures
            r == (self@.pos >= self@.data.len()),
    {
        self.pos >= self.data.len()
    }

    /// Moves forward by `count` bytes; fails with `OutOfBounds` when the
    /// target would pass the end, leaving the position unchanged.
    pub fn skip(&mut self, count: usize) -> (r: Result<(), Error>)
        requires
            old(self)@.wf(),
        ensures
            final(self)@.wf(),
            final(self)@.data == old(self)@.data,
            final(self)@.endian == old(self)@.endian,
            if old(self)@.pos + count <= old(self)@.data.len() {
                r is Ok && final(self)@.pos == old(self)@.pos + count
            } else {
                &&& r matches Err(e) && e == (Error::OutOfBounds {
                    pos: old(self)@.pos,
                    requested: count,
                    len: old(self)@.data.len() as usize,
                })
                &&& final(self)@.pos == old(self)@.pos
            },
    {
        if count <= self.data.len() - self.pos {
            self.pos = self.pos + count;
            Ok(())
        } else {
            Err(Error::OutOfBounds { pos: self.pos, requested: count, len: self.data.len() })
        }
    }

    /// Moves forward by `count` bytes, clamping to the end; never fails.
    pub fn skip_force(&mut self, count: usize)
        requires
            old(self)@.wf(),
        ensures
            final(self)@.wf(),
            final(self)@.data == old(self)@.data,
            final(self)@.endian == old(self)@.endian,
            final(self)@.pos == if old(self)@.pos + count <= old(self)@.data.len() {
                old(self)@.pos + count
            } else {
                old(self)@.data.len() as int
            },
    {
        if count <= self.data.len() - self.pos {
            self.pos = self.pos + count;
        } else {
            self.pos = self.data.len();
        }
    }

    /// Rounds the position up to the next multiple of `A`, a power of two;
    /// fails with `OutOfBounds` when that multiple lies past the end,
    /// leaving the position unchanged.
    pub fn align_up<const A: usize>(&mut self) -> (r: Result<(), Error>)
        requires
            old(self)@.wf(),
            vstd::arithmetic::power2::is_pow2(A as int),
        ensures
            final(self)@.wf(),
            final(self)@.data == old(self)@.data,
            final(self)@.endian == old(self)@.endian,
            if align_target(old(self)@.pos as int, A as int) <= old(self)@.data.len() {
                r is Ok && final(self)@.pos == align_target(old(self)@.pos as int, A as int)
            } else {
                &&& r matches Err(e)
                &&& e matches Error::OutOfBounds { pos, len, .. } && pos == old(self)@.pos && len
                    == old(self)@.data.len()
                &&& final(self)@.pos == old(self)@.pos
            },
    {
        proof {
            lemma_pow2_positive(A as int);
        }
        let rem = self.pos % A;
        if rem == 0 {
            Ok(())
        } else {
            proof {
                lemma_align_step(self.pos as int, A as int);
            }
            let add = A - rem;
            if add <= self.data.len() - self.pos {
                self.pos = self.pos + add;
                Ok(())
            } else {
                Err(
                    Error::OutOfBounds {
                        pos: self.pos,
                        requested: self.pos.saturating_add(add),
                        len: self.data.len(),
                    },
                )
            }
        }
    }

    /// Rounds the position up to the next multiple of `A`, a power of two,
    /// clamping to the end; never fails.
    pub fn align_up_force<const A: usize>(&mut self)
        requires
            old(self)@.wf(),
            vstd::arithmetic::power2::is_pow2(A as int),
        ensures
            final(self)@.wf(),
            final(self)@.data == old(self)@.data,
            final(self)@.endian == old(self)@.endian,
            final(self)@.pos == if align_target(old(self)@.pos as int, A as int) <= old(
                self,
            )@.data.len() {
                align_target(old(self)@.pos as int, A as int)
            } else {
                old(self)@.data.len() as int
            },
    {
        proof {
            lemma_pow2_positive(A as int);
        }
        let rem = self.pos % A;
        if rem != 0 {
            proof {
                lemma_align_step(self.pos as int, A as int);
            }
            let add = A - rem;
            if add <= self.data.len() - self.pos {
                self.pos = self.pos + add;
            } else {
                self.pos = self.data.len();
            }
        }
    }

    /// Rounds the position up to the next multiple of `alignment`; fails
    /// with `NotValid` when `alignment` is not a power of two, and with
    /// `OutOfBounds` when the target lies past the end. Failure leaves the
    /// position unchanged.
    pub fn align_up_dynamic(&mut self, alignment: usize) -> (r: Result<(), Error>)
        requires
            old(self)@.wf(),
        ensures
            final(self)@.wf(),
            final(self)@.data == old(self)@.data,
            final(self)@.endian == old(self)@.endian,
            if !vstd::arithmetic::power2::is_pow2(alignment as int) {
                &&& r matches Err(e) && e == Error::NotValid
                &&& final(self)@.pos == old(self)@.pos
            } else if align_target(old(self)@.pos as int, alignment as int) <= old(
                self,
            )@.data.len() {
                r is Ok && final(self)@.pos == align_target(
                    old(self)@.pos as int,
                    alignment as int,
                )
            } else {
                &&& r matches Err(e)
                &&& e matches Error::OutOfBounds { pos, len, .. } && pos == old(self)@.pos && len
                    == old(self)@.data.len()
                &&& final(self)@.pos == old(self)@.pos
            },
    {
        if !is_power_of_two(alignment) {
            return Err(Error::NotValid);
        }
        proof {
            lemma_pow2_positive(alignment as int);
        }
        let rem = self.pos % alignment;
        if rem == 0 {
            Ok(())
        } else {
            proof {
                lemma_align_step(self.pos as int, alignment as int);
            }
            let add = alignment - rem;
            if add <= self.data.len() - self.pos {
                self.pos = self.pos + add;
                Ok(())
            } else {
                Err(
                    Error::OutOfBounds {
                        pos: self.pos,
                        requested: self.pos.saturating_add(add),
                        len: self.data.len(),
                    },
                )
            }
        }
    }

    /// Exactly `size` bytes at the current position, without moving.
    pub fn peek_exact(&self, size: usize) -> (r: Result<&'a [u8], Error>)
        requires
            self@.wf(),
        ensures
            if self@.pos + size <= self@.data.len() {
                r matches Ok(b) && b@ == self@.data.subrange(
                    self@.pos as int,
                    self@.pos + size,
                )
            } else {
                r matches Err(e) && e == (Error::InsufficientData {
                    requested: size,
                    available: self@.rest() as usize,
                })
            },
    {
        if size <= self.data.len() - self.pos {
            Ok(vstd::slice::slice_subrange(self.data, self.pos, self.pos + size))
        } else {
            Err(
                Error::InsufficientData {
                    requested: size,
                    available: self.data.len() - self.pos,
                },
            )
        }
    }

    /// Exactly `size` bytes at the current position, advancing by `size` on
    /// success. Failure leaves the position unchanged.
    pub fn read_exact(&mut self, size: usize) -> (r: Result<&'a [u8], Error>)
        requires
            old(self)@.wf(),
        ensures
            final(self)@.wf(),
            final(self)@.data == old(self)@.data,
            final(self)@.endian == old(self)@.endian,
            if old(self)@.pos + size <= old(self)@.data.len() {
                &&& r matches Ok(b) && b@ == old(self)@.data.subrange(
                    old(self)@.pos as int,
                    old(self)@.pos + size,
                )
                &&& final(self)@.pos == old(self)@.pos + size
            } else {
                &&& r matches Err(e) && e == (Error::InsufficientData {
                    requested: size,
                    available: old(self)@.rest() as usize,
                })
                &&& final(self)@.pos == old(self)@.pos
            },
    {
        if size <= self.data.len() - self.pos {
            let b = vstd::slice::slice_subrange(self.data, self.pos, self.pos + size);
            self.pos = self.pos + size;
            Ok(b)
        } else {
            Err(
                Error::InsufficientData {
                    requested: size,
                    available: self.data.len() - self.pos,
                },
            )
        }
    }

    /// Like [`Self::read_exact`], but returns an owned copy of the bytes.
    pub fn read_vec(&mut self, size: usize) -> (r: Result<Vec<u8>, Error>)
        requires
            old(self)@.wf(),
        ensures
            final(self)@.wf(),
            final(self)@.data == old(self)@.data,
            final(self)@.endian == old(self)@.endian,
            if old(self)@.pos + size <= old(self)@.data.len() {
                &&& r matches Ok(b) && b@ == old(self)@.data.subrange(
                    old(self)@.pos as int,
                    old(self)@.pos + size,
                )
                &&& final(self)@.pos == old(self)@.pos + size
            } else {
                &&& r matches Err(e) && e == (Error::InsufficientData {
                    requested: size,
                    available: old(self)@.rest() as usize,
                })
                &&& final(self)@.pos == old(self)@.pos
            },
    {
        match self.read_exact(size) {
            Ok(b) => Ok(vstd::slice::slice_to_vec(b)),
            Err(e) => Err(e),
        }
    }


    /// Inspects one value of `P` at the current position without moving it.
    pub fn peek<P: Peekable<'a>>(&self) -> (r: Result<P, Error>)
        requires
            self@.wf(),
        ensures
            ({
                let res = P::pdec(self@.data, self@.pos as int, self@.endian);
                match (r, res) {
                    (Ok(v), Ok(w)) => v.deep_view() == w,
                    (Err(e1), Err(e2)) => e1 == e2,
                    _ => false,
                }
            }),
    {
        let s = PeekStream { data: self.data, pos: self.pos, endian: self.endian };
        P::peek(&s)
    }

    /// Reads `size` bytes as ASCII text, advancing by `size` whenever the
    /// bytes were there; text that is not UTF-8 fails as `NotValidUTF8`,
    /// UTF-8 text with characters outside ASCII as `NotValidAscii`.
    pub fn read_ascii(&mut self, size: usize) -> (r: Result<&'a str, Error>)
        requires
            old(self)@.wf(),
        ensures
            final(self)@.wf(),
            final(self)@.data == old(self)@.data,
            final(self)@.endian == old(self)@.endian,
            final(self)@.pos == if old(self)@.pos + size <= old(self)@.data.len() {
                old(self)@.pos + size
            } else {
                old(self)@.pos as int
            },
            match ascii_dec(old(self)@.data, old(self)@.pos as int, size as nat) {
                Ok(cs) => r matches Ok(st) && st@ == cs,
                Err(e) => r matches Err(e2) && e2 == e,
            },
    {
        match self.read_exact(size) {
            Ok(b) => {
                if crate::text::utf8_check(b) {
                    let st = crate::text::str_from_utf8(b);
                    proof {
                        vstd::utf8::encode_utf8_decode_utf8(st@);
                    }
                    if st.is_ascii() {
                        Ok(st)
                    } else {
                        Err(Error::NotValidAscii)
                    }
                } else {
                    Err(Error::NotValidUTF8)
                }
            },
            Err(e) => Err(e),
        }
    }

    /// Like [`Self::read_ascii`], but never moves the position.
    pub fn peek_ascii(&self, size: usize) -> (r: Result<&'a str, Error>)
        requires
            self@.wf(),
        ensures
            match ascii_dec(self@.data, self@.pos as int, size as nat) {
                Ok(cs) => r matches Ok(st) && st@ == cs,
                Err(e) => r matches Err(e2) && e2 == e,
            },
    {
        match self.peek_exact(size) {
            Ok(b) => {
                if crate::text::utf8_check(b) {
                    let st = crate::text::str_from_utf8(b);
                    proof {
                        vstd::utf8::encode_utf8_decode_utf8(st@);
                    }
                    if st.is_ascii() {
                        Ok(st)
                    } else {
                        Err(Error::NotValidAscii)
                    }
                } else {
                    Err(Error::NotValidUTF8)
                }
            },
            Err(e) => Err(e),
        }
    }

    /// Decodes one value of `R` from this stream, advancing the position
    /// exactly as `R::dec` says.
    pub fn read<R: Readable<'a>>(&mut self) -> (r: Result<R, Error>)
        requires
            old(self)@.wf(),
        ensures
            final(self)@.wf(),
            final(self)@.data == old(self)@.data,
            final(self)@.endian == old(self)@.endian,
            ({
                let (res, p) = R::dec(old(self)@.data, old(self)@.pos as int, old(self)@.endian);
                &&& final(self)@.pos == p
                &&& match (r, res) {
                    (Ok(v), Ok(w)) => v.deep_view() == w,
                    (Err(e1), Err(e2)) => e1 == e2,
                    _ => false,
                }
            }),
    {
        R::read(self)
    }

    /// Reads `n <= 16` raw bytes at the position as one number in the
    /// current byte order, advancing past them on success.
    pub(crate) fn read_chunk(&mut self, n: usize) -> (r: Result<u128, Error>)
        requires
            old(self)@.wf(),
            n <= 16,
        ensures
            final(self)@.wf(),
            final(self)@.data == old(self)@.data,
            final(self)@.endian == old(self)@.endian,
            ({
                let (res, p) = crate::encoding::chunk_dec(
                    old(self)@.data,
                    old(self)@.pos as int,
                    old(self)@.endian,
                    n as nat,
                );
                &&& final(self)@.pos == p
                &&& match (r, res) {
                    (Ok(v), Ok(w)) => v as nat == w && w < crate::encoding::pow256(n as nat),
                    (Err(e1), Err(e2)) => e1 == e2,
                    _ => false,
                }
            }),
    {
        match self.read_exact(n) {
            Ok(b) => {
                proof {
                    crate::encoding::lemma_chunk_value_bound(self@.endian, b@);
                }
                let v = match self.endian {
                    Endian::Big => crate::encoding::be_chunk_value(b),
                    _ => crate::encoding::le_chunk_value(b),
                };
                Ok(v)
            },
            Err(e) => Err(e),
        }
    }
}

} // verus!
