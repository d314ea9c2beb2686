//! The writing cursor over an owned byte buffer of fixed length, and the
//! view handle it lends to codec implementations.

use crate::common::{magnitude, seek_target, CursorView, Endian, SeekFrom};
use crate::encoding::{chunk_enc, lemma_chunk_digits_len, splice, write_out};
use crate::error::Error;
use crate::writable::Writable;
use vstd::pervasive::VecAdditionalExecFns;
use vstd::prelude::*;

verus! {

/// Copies `bytes` over `data` starting at `pos`. The shared primitive under
/// every write: the buffer's length never changes.
#[verifier::loop_isolation(false)]
fn splice_into(data: &mut Vec<u8>, pos: usize, bytes: &[u8])
    requires
        pos + bytes@.len() <= old(data)@.len(),
    ensures
        final(data)@ == splice(old(data)@, pos as int, bytes@),
{
    let ghost data0 = data@;
    let total: usize = data.len();
    let size = bytes.len();
    let mut i: usize = 0;
    while i < size
        invariant
            i <= size,
            data@.len() == data0.len(),
            data@ == data0.subrange(0, pos as int) + bytes@.subrange(0, i as int) + data0.subrange(
                pos + i,
                data0.len() as int,
            ),
        decreases size - i,
    {
        data.set(pos + i, bytes[i]);
        i = i + 1;
        proof {
            assert(data@ =~= data0.subrange(0, pos as int) + bytes@.subrange(0, i as int)
                + data0.subrange(pos + i, data0.len() as int));
        }
    }
    proof {
        assert(data@ =~= splice(data0, pos as int, bytes@));
    }
}

/// A bounds-safe writing cursor: an owned byte buffer of fixed length, a
/// position within `[0, len]`, and the byte order used for multi-byte
/// values. The buffer never grows; writing past its end fails.
pub struct ByteWriter {
    data: Vec<u8>,
    pos: usize,
    endian: Endian,
}

impl View for ByteWriter {
    type V = CursorView;

    closed spec fn view(&self) -> CursorView {
        CursorView { data: self.data@, pos: self.pos, endian: self.endian }
    }
}

impl ByteWriter {
    /// A new writer over `data`, at position zero, in native byte order.
    pub fn new(data: Vec<u8>) -> (r: ByteWriter)
        ensures
            r@ == (CursorView { data: data@, pos: 0, endian: Endian::Native }),
            r@.wf(),
    {
        let _len: usize = data.len();
        assert(data@.len() <= usize::MAX);
        ByteWriter { data, pos: 0, endian: Endian::Native }
    }

    /// A new writer over `data`, at position zero, in the given byte order.
    pub fn with_endian(data: Vec<u8>, endian: Endian) -> (r: ByteWriter)
        ensures
            r@ == (CursorView { data: data@, pos: 0, endian }),
            r@.wf(),
    {
        let _len: usize = data.len();
        assert(data@.len() <= usize::MAX);
        ByteWriter { data, pos: 0, endian }
    }

    /// The byte order used for multi-byte writes.
    pub fn endian(&self) -> (r: Endian)
        ensures
            r == self@.endian,
    {
        self.endian
    }

    /// Changes the byte order for the writes that follow; bytes already
    /// written are unaffected.
    pub fn set_endian(&mut self, endian: Endian)
        ensures
            final(self)@ == (CursorView { endian, ..old(self)@ }),
    {
        self.endian = endian;
    }

    /// The current position: always within `[0, len]`.
    pub fn position(&self) -> (r: usize)
        ensures
            r == self@.pos,
    {
        self.pos
    }

    /// Moves to the absolute position `pos`; fails with `OutOfBounds` when
    /// `pos > len`, leaving the position unchanged.
    pub fn set_position(&mut self, pos: usize) -> (r: Result<(), Error>)
        requires
            old(self)@.wf(),
        ensures
            final(self)@.wf(),
            final(self)@.data == old(self)@.data,
            final(self)@.endian == old(self)@.endian,
            if pos <= old(self)@.data.len() {
                r is Ok && final(self)@.pos == pos
            } else {
                &&& r matches Err(e) && e == (Error::OutOfBounds {
                    pos: old(self)@.pos,
                    requested: pos,
                    len: old(self)@.data.len() as usize,
                })
                &&& final(self)@.pos == old(self)@.pos
            },
    {
        if pos > self.data.len() {
            return Err(
                Error::OutOfBounds { pos: self.pos, requested: pos, len: self.data.len() },
            );
        }
        self.pos = pos;
        Ok(())
    }

    /// Moves forward by `count` bytes; fails with `OutOfBounds` when the
    /// target would pass the end, leaving the position unchanged.
    pub fn skip(&mut self, count: usize) -> (r: Result<(), Error>)
        requires
            old(self)@.wf(),
        ensures
            final(self)@.wf(),
            final(self)@.data == old(self)@.data,
            final(self)@.endian == old(self)@.endian,
            if old(self)@.pos + count <= old(self)@.data.len() {
                r is Ok && final(self)@.pos == old(self)@.pos + count
            } else {
                &&& r matches Err(e) && e == (Error::OutOfBounds {
                    pos: old(self)@.pos,
                    requested: count,
                    len: old(self)@.data.len() as usize,
                })
                &&& final(self)@.pos == old(self)@.pos
            },
    {
        if count <= self.data.len() - self.pos {
            self.pos = self.pos + count;
            Ok(())
        } else {
            Err(Error::OutOfBounds { pos: self.pos, requested: count, len: self.data.len() })
        }
    }

    /// Moves forward by `count` bytes, clamping to the end; never fails.
    pub fn skip_force(&mut self, count: usize)
        requires
            old(self)@.wf(),
        ensures
            final(self)@.wf(),
            final(self)@.data == old(self)@.data,
            final(self)@.endian == old(self)@.endian,
            final(self)@.pos == if old(self)@.pos + count <= old(self)@.data.len() {
                old(self)@.pos + count
            } else {
                old(self)@.data.len() as int
            },
    {
        if count <= self.data.len() - self.pos {
            self.pos = self.pos + count;
        } else {
            self.pos = self.data.len();
        }
    }

    /// Moves backward by `count` bytes; fails with `OutOfBounds` when
    /// `count` exceeds the current position, leaving the position unchanged.
    pub fn rewind(&mut self, count: usize) -> (r: Result<(), Error>)
        requires
            old(self)@.wf(),
        ensures
            final(self)@.wf(),
            final(self)@.data == old(self)@.data,
            final(self)@.endian == old(self)@.endian,
            if count <= old(self)@.pos {
                r is Ok && final(self)@.pos == old(self)@.pos - count
            } else {
                &&& r matches Err(e) && e == (Error::OutOfBounds {
                    pos: old(self)@.pos,
                    requested: count,
                    len: old(self)@.data.len() as usize,
                })
                &&& final(self)@.pos == old(self)@.pos
            },
    {
        if count <= self.pos {
            self.pos = self.pos - count;
            Ok(())
        } else {
            Err(Error::OutOfBounds { pos: self.pos, requested: count, len: self.data.len() })
        }
    }

    /// Moves backward by `count` bytes, clamping to the start; never fails.
    pub fn rewind_force(&mut self, count: usize)
        requires
            old(self)@.wf(),
        ensures
            final(self)@.wf(),
            final(self)@.data == old(self)@.data,
            final(self)@.endian == old(self)@.endian,
            final(self)@.pos == if count <= old(self)@.pos {
                old(self)@.pos - count
            } else {
                0
            },
    {
        if count <= self.pos {
            self.pos = self.pos - count;
        } else {
            self.pos = 0;
        }
    }

    /// Resolves `from` to a target position and moves there, returning the
    /// new position. The exact outcome, including each error, is
    /// [`seek_target`]; failure leaves the position unchanged.
    pub fn seek(&mut self, from: SeekFrom) -> (r: Result<usize, Error>)
        requires
            old(self)@.wf(),
        ensures
            final(self)@.wf(),
            final(self)@.data == old(self)@.data,
            final(self)@.endian == old(self)@.endian,
            match seek_target(old(self)@.pos, old(self)@.data.len() as usize, from) {
                Ok(t) => r matches Ok(p) && p == t && final(self)@.pos == t,
                Err(e) => r matches Err(e2) && e2 == e && final(self)@.pos == old(self)@.pos,
            },
    {
        let len = self.data.len();
        match from {
            SeekFrom::Start(n) => {
                if n <= len {
                    self.pos = n;
                    Ok(n)
                } else {
                    Err(Error::OutOfBounds { pos: self.pos, requested: n, len })
                }
            },
            SeekFrom::End(n) => {
                if n > 0 {
                    Err(Error::OutOfBounds { pos: self.pos, requested: n as usize, len })
                } else {
                    let m = magnitude(n);
                    if m <= len {
                        self.pos = len - m;
                        Ok(self.pos)
                    } else {
                        Err(Error::OutOfBounds { pos: self.pos, requested: m, len })
                    }
                }
            },
            SeekFrom::Current(n) => {
                if n > 0 {
                    let step = n as usize;
                    if step <= usize::MAX - self.pos {
                        let t = self.pos + step;
                        if t <= len {
                            self.pos = t;
                            Ok(t)
                        } else {
                            Err(Error::OutOfBounds { pos: self.pos, requested: t, len })
                        }
                    } else {
                        Err(Error::OutOfBounds { pos: self.pos, requested: step, len })
                    }
                } else {
                    let m = magnitude(n);
                    if m <= self.pos {
                        self.pos = self.pos - m;
                        Ok(self.pos)
                    } else {
                        Err(Error::OutOfBounds { pos: self.pos, requested: m, len })
                    }
                }
            },
        }
    }

    /// Returns the position to the start; never fails.
    pub fn reset(&mut self)
        ensures
            final(self)@ == (CursorView { pos: 0, ..old(self)@ }),
            final(self)@.wf() == (old(self)@.data.len() <= usize::MAX),
    {
        self.pos = 0;
    }

    /// The whole underlying buffer, independent of the position.
    pub fn as_slice(&self) -> (r: &[u8])
        ensures
            r@ == self@.data,
    {
        self.data.as_slice()
    }

    /// The whole underlying buffer, mutably: what the caller writes through
    /// the returned slice is what the buffer holds afterwards.
    pub fn as_mut_slice(&mut self) -> (r: &mut [u8])
        ensures
            r@ == old(self)@.data,
            final(self)@ == (CursorView { data: final(r)@, ..old(self)@ }),
    {
        self.data.as_mut_slice()
    }

    /// Consumes the writer and hands the underlying buffer back.
    pub fn into_inner(self) -> (r: Vec<u8>)
        ensures
            r@ == self@.data,
    {
        self.data
    }

    /// The buffer's total length in bytes.
    pub fn len(&self) -> (r: usize)
        ensures
            r == self@.data.len(),
    {
        self.data.len()
    }

    /// The bytes from the position to the end: the space still writable.
    pub fn rest_bytes(&self) -> (r: &[u8])
        requires
            self@.wf(),
        ensures
            r@ == self@.data.subrange(self@.pos as int, self@.data.len() as int),
    {
        vstd::slice::slice_subrange(self.data.as_slice(), self.pos, self.data.len())
    }

    /// The bytes from the position to the end, mutably: what the caller
    /// writes through the returned slice lands in that tail of the buffer.
    pub fn rest_mut_bytes(&mut self) -> (r: &mut [u8])
        requires
            old(self)@.wf(),
        ensures
            r@ == old(self)@.data.subrange(old(self)@.pos as int, old(self)@.data.len() as int),
            final(self)@.pos == old(self)@.pos,
            final(self)@.endian == old(self)@.endian,
            final(self)@.data == old(self)@.data.subrange(0, old(self)@.pos as int) + final(r)@,
    {
        let pos = self.pos;
        let s = self.data.as_mut_slice();
        let (head, tail) = s.split_at_mut(pos);
        tail
    }

    /// How many bytes remain between the position and the end.
    pub fn rest_len(&self) -> (r: usize)
        requires
            self@.wf(),
        ensures
            r == self@.rest(),
    {
        self.data.len() - self.pos
    }

    /// Whether `size` more bytes fit between the position and the end.
    pub fn can_write(&self, size: usize) -> (r: bool)
        requires
            self@.wf(),
        ensures
            r == (self@.pos + size <= self@.data.len()),
    {
        size <= self.data.len() - self.pos
    }

    /// Whether the buffer holds no bytes at all.
    pub fn is_empty(&self) -> (r: bool)
        ensures
            r == (self@.data.len() == 0),
    {
        self.data.is_empty()
    }

    /// Whether the position has reached the end of the buffer.
    pub fn is_eof(&self) -> (r: bool)
        ensures
            r == (self@.pos >= self@.data.len()),
    {
        self.pos >= self.data.len()
    }

    /// The foundational write primitive: copies `bytes` to the current
    /// position and advances past them; fails with `InsufficientData` when
    /// they do not fit, changing nothing.
    fn write_exact(&mut self, bytes: &[u8]) -> (r: Result<(), Error>)
        requires
            old(self)@.wf(),
        ensures
            final(self)@.wf(),
            final(self)@.endian == old(self)@.endian,
            final(self)@.data.len() == old(self)@.data.len(),
            ({
                let (res, d, p) = write_out(old(self)@.data, old(self)@.pos as int, bytes@);
                &&& final(self)@.data == d
                &&& final(self)@.pos == p
                &&& match (r, res) {
                    (Ok(()), Ok(())) => true,
                    (Err(e1), Err(e2)) => e1 == e2,
                    _ => false,
                }
            }),
    {
        let size = bytes.len();
        if size <= self.data.len() - self.pos {
            splice_into(&mut self.data, self.pos, bytes);
            self.pos = self.pos + size;
            Ok(())
        } else {
            Err(
                Error::InsufficientData {
                    requested: size,
                    available: self.data.len() - self.pos,
                },
            )
        }
    }

    /// Encodes one value of `W` at the current position, advancing exactly
    /// as `W::enc` says; composite encodes that fail part-way leave their
    /// earlier fields written.
    pub fn write<W: Writable>(&mut self, val: &W) -> (r: Result<(), Error>)
        requires
            old(self)@.wf(),
        ensures
            final(self)@.wf(),
            final(self)@.endian == old(self)@.endian,
            final(self)@.data.len() == old(self)@.data.len(),
            ({
                let (res, d, p) = W::enc(
                    val.deep_view(),
                    old(self)@.data,
                    old(self)@.pos as int,
                    old(self)@.endian,
                );
                &&& final(self)@.data == d
                &&& final(self)@.pos == p
                &&& match (r, res) {
                    (Ok(()), Ok(())) => true,
                    (Err(e1), Err(e2)) => e1 == e2,
                    _ => false,
                }
            }),
    {
        let mut data: Vec<u8> = Vec::new();
        core::mem::swap(&mut data, &mut self.data);
        let mut s = WriteStream { data, pos: self.pos, endian: self.endian };
        let r = W::write(&mut s, val);
        let WriteStream { data: d2, pos: p2, endian: _ } = s;
        self.data = d2;
        self.pos = p2;
        r
    }

    /// Copies `bytes` to the current position and advances past them; fails
    /// with `InsufficientData` when they do not fit, changing nothing.
    pub fn write_bytes(&mut self, bytes: &[u8]) -> (r: Result<(), Error>)
        requires
            old(self)@.wf(),
        ensures
            final(self)@.wf(),
            final(self)@.endian == old(self)@.endian,
            final(self)@.data.len() == old(self)@.data.len(),
            ({
                let (res, d, p) = write_out(old(self)@.data, old(self)@.pos as int, bytes@);
                &&& final(self)@.data == d
                &&& final(self)@.pos == p
                &&& match (r, res) {
                    (Ok(()), Ok(())) => true,
                    (Err(e1), Err(e2)) => e1 == e2,
                    _ => false,
                }
            }),
    {
        self.write_exact(bytes)
    }
}

impl Clone for ByteWriter {
    /// A copy of the writer: same buffer contents, position and byte order.
    fn clone(&self) -> (r: Self)
        ensures
            r@ == self@,
    {
        let data = self.data.clone();
        proof {
            assert(data@ =~= self.data@);
        }
        ByteWriter { data, pos: self.pos, endian: self.endian }
    }
}

/// A consuming view of a writer for encoding: codec implementations get one
/// per `write` call. It offers per-call skips but no arbitrary seek.
pub struct WriteStream {
    data: Vec<u8>,
    pos: usize,
    endian: Endian,
}

impl View for WriteStream {
    type V = CursorView;

    closed spec fn view(&self) -> CursorView {
        CursorView { data: self.data@, pos: self.pos, endian: self.endian }
    }
}

impl WriteStream {
    /// The byte order of the underlying writer.
    pub fn get_endian(&self) -> (r: Endian)
        ensures
            r == self@.endian,
    {
        self.endian
    }

    /// Whether the position has reached the end of the buffer.
    pub fn is_eof(&self) -> (r: bool)
        ensures
            r == (self@.pos >= self@.data.len()),
    {
        self.pos >= self.data.len()
    }

    /// Moves forward by `count` bytes; fails with `OutOfBounds` when the
    /// target would pass the end, leaving the position unchanged.
    pub fn skip(&mut self, count: usize) -> (r: Result<(), Error>)
        requires
            old(self)@.wf(),
        ensures
            final(self)@.wf(),
            final(self)@.data == old(self)@.data,
            final(self)@.endian == old(self)@.endian,
            if old(self)@.pos + count <= old(self)@.data.len() {
                r is Ok && final(self)@.pos == old(self)@.pos + count
            } else {
                &&& r matches Err(e) && e == (Error::OutOfBounds {
                    pos: old(self)@.pos,
                    requested: count,
                    len: old(self)@.data.len() as usize,
                })
                &&& final(self)@.pos == old(self)@.pos
            },
    {
        if count <= self.data.len() - self.pos {
            self.pos = self.pos + count;
            Ok(())
        } else {
            Err(Error::OutOfBounds { pos: self.pos, requested: count, len: self.data.len() })
        }
    }

    /// Moves forward by `count` bytes, clamping to the end; never fails.
    pub fn skip_force(&mut self, count: usize)
        requires
            old(self)@.wf(),
        ensures
            final(self)@.wf(),
            final(self)@.data == old(self)@.data,
            final(self)@.endian == old(self)@.endian,
            final(self)@.pos == if old(self)@.pos + count <= old(self)@.data.len() {
                old(self)@.pos + count
            } else {
                old(self)@.data.len() as int
            },
    {
        if count <= self.data.len() - self.pos {
            self.pos = self.pos + count;
        } else {
            self.pos = self.data.len();
        }
    }

    /// Copies `bytes` to the current position and advances past them; fails
    /// with `InsufficientData` when they do not fit, changing nothing.
    pub fn write_exact(&mut self, bytes: &[u8]) -> (r: Result<(), Error>)
        requires
            old(self)@.wf(),
        ensures
            final(self)@.wf(),
            final(self)@.endian == old(self)@.endian,
            final(self)@.data.len() == old(self)@.data.len(),
            ({
                let (res, d, p) = write_out(old(self)@.data, old(self)@.pos as int, bytes@);
                &&& final(self)@.data == d
                &&& final(self)@.pos == p
                &&& match (r, res) {
                    (Ok(()), Ok(())) => true,
                    (Err(e1), Err(e2)) => e1 == e2,
                    _ => false,
                }
            }),
    {
        let size = bytes.len();
        if size <= self.data.len() - self.pos {
            splice_into(&mut self.data, self.pos, bytes);
            self.pos = self.pos + size;
            Ok(())
        } else {
            Err(
                Error::InsufficientData {
                    requested: size,
                    available: self.data.len() - self.pos,
                },
            )
        }
    }

    /// Encodes one value of `W` at the current position, advancing exactly
    /// as `W::enc` says.
    pub fn write<W: Writable>(&mut self, val: &W) -> (r: Result<(), Error>)
        requires
            old(self)@.wf(),
        ensures
            final(self)@.wf(),
            final(self)@.endian == old(self)@.endian,
            final(self)@.data.len() == old(self)@.data.len(),
            ({
                let (res, d, p) = W::enc(
                    val.deep_view(),
                    old(self)@.data,
                    old(self)@.pos as int,
                    old(self)@.endian,
                );
                &&& final(self)@.data == d
                &&& final(self)@.pos == p
                &&& match (r, res) {
                    (Ok(()), Ok(())) => true,
                    (Err(e1), Err(e2)) => e1 == e2,
                    _ => false,
                }
            }),
    {
        W::write(self, val)
    }

    /// Writes the `n <= 16` bytes of `v` in the current byte order at the
    /// position, advancing past them on success.
    pub(crate) fn write_chunk(&mut self, v: u128, n: usize) -> (r: Result<(), Error>)
        requires
            old(self)@.wf(),
            n <= 16,
        ensures
            final(self)@.wf(),
            final(self)@.endian == old(self)@.endian,
            final(self)@.data.len() == old(self)@.data.len(),
            ({
                let (res, d, p) = chunk_enc(
                    v as nat,
                    old(self)@.data,
                    old(self)@.pos as int,
                    old(self)@.endian,
                    n as nat,
                );
                &&& final(self)@.data == d
                &&& final(self)@.pos == p
                &&& match (r, res) {
                    (Ok(()), Ok(())) => true,
                    (Err(e1), Err(e2)) => e1 == e2,
                    _ => false,
                }
            }),
    {
        proof {
            lemma_chunk_digits_len(self@.endian, v as nat, n as nat);
        }
        let digits = match self.endian {
            Endian::Big => crate::encoding::be_chunk_digits(v, n),
            _ => crate::encoding::le_chunk_digits(v, n),
        };
        self.write_exact(digits.as_slice())
    }
}

} // verus!
