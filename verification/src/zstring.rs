//! Null-terminated text: an owned byte string with no interior terminator,
//! decoded by scanning to the first zero byte and encoded by appending one.

use crate::common::Endian;
use crate::error::Error;
use crate::reader::ReadStream;
use crate::readable::Readable;
use crate::writable::Writable;
use crate::writer::WriteStream;
use vstd::prelude::*;

verus! {

/// A byte string suitable for null termination: its content never holds the
/// zero byte, so encoding it and decoding the result is lossless.
#[derive(Debug)]
pub struct ZString {
    bytes: Vec<u8>,
}

impl View for ZString {
    type V = Seq<u8>;

    closed spec fn view(&self) -> Seq<u8> {
        self.bytes@
    }
}

impl DeepView for ZString {
    type V = Seq<u8>;

    open spec fn deep_view(&self) -> Seq<u8> {
        self@
    }
}

impl ZString {
    /// No content byte is the terminator.
    #[verifier::type_invariant]
    pub closed spec fn inv(self) -> bool {
        forall|i: int| 0 <= i < self.bytes@.len() ==> self.bytes@[i] != 0
    }

    /// Wraps `bytes` as null-terminated text; fails with `NotValid` when a
    /// content byte is zero.
    pub fn new(bytes: Vec<u8>) -> (r: Result<ZString, Error>)
        ensures
            if (exists|i: int| 0 <= i < bytes@.len() && bytes@[i] == 0) {
                r matches Err(e) && e == Error::NotValid
            } else {
                r matches Ok(z) && z@ == bytes@
            },
    {
        let n = bytes.len();
        let mut i: usize = 0;
        while i < n
            invariant
                i <= n,
                n == bytes@.len(),
                forall|j: int| 0 <= j < i ==> bytes@[j] != 0,
            decreases n - i,
        {
            if bytes[i] == 0 {
                return Err(Error::NotValid);
            }
            i = i + 1;
        }
        Ok(ZString { bytes })
    }

    /// The content bytes, without any terminator.
    pub fn as_bytes(&self) -> (r: &[u8])
        ensures
            r@ == self@,
    {
        self.bytes.as_slice()
    }

    /// Consumes the text and hands its content bytes back.
    pub fn into_bytes(self) -> (r: Vec<u8>)
        ensures
            r@ == self@,
    {
        self.bytes
    }

    /// The content's length in bytes, without the terminator.
    pub fn len(&self) -> (r: usize)
        ensures
            r == self@.len(),
    {
        self.bytes.len()
    }

    /// Whether the content is empty.
    pub fn is_empty(&self) -> (r: bool)
        ensures
            r == (self@.len() == 0),
    {
        self.bytes.is_empty()
    }
}

/// Decoding null-terminated text at `pos`: the content up to the first zero
/// byte, consuming the terminator too; a buffer that ends before any
/// terminator fails after consuming everything, with the error the read of
/// one more byte gives.
pub open spec fn zdec(data: Seq<u8>, pos: int) -> (Result<Seq<u8>, Error>, int)
    decreases data.len() - pos,
{
    if pos < 0 || pos >= data.len() {
        (Err(Error::InsufficientData { requested: 1, available: 0 }), pos)
    } else if data[pos] == 0 {
        (Ok(Seq::empty()), pos + 1)
    } else {
        let (r, p) = zdec(data, pos + 1);
        match r {
            Ok(rest) => (Ok(seq![data[pos]] + rest), p),
            Err(e) => (Err(e), p),
        }
    }
}

impl<'a> Readable<'a> for ZString {
    /// Reads bytes one at a time until and including a terminator; decoding
    /// validates exactly one trailing terminator and strips it.
    open spec fn dec(data: Seq<u8>, pos: int, endian: Endian) -> (Result<Seq<u8>, Error>, int) {
        zdec(data, pos)
    }

    #[verifier::loop_isolation(false)]
    fn read(s: &mut ReadStream<'a>) -> (r: Result<Self, Error>) {
        let ghost data0 = s@.data;
        let ghost full = zdec(data0, s@.pos as int);
        let mut bytes: Vec<u8> = Vec::new();
        proof {
            if full.0 is Ok {
                assert(bytes@ + full.0.unwrap() =~= full.0.unwrap());
            }
        }
        loop
            invariant
                s@.wf(),
                s@.data == data0,
                s@.endian == old(s)@.endian,
                forall|j: int| 0 <= j < bytes@.len() ==> bytes@[j] != 0,
                ({
                    let (rr, pp) = zdec(data0, s@.pos as int);
                    match rr {
                        Ok(tail) => full.0 == Ok::<Seq<u8>, Error>(bytes@ + tail) && full.1 == pp,
                        Err(e) => full.0 == Err::<Seq<u8>, Error>(e) && full.1 == pp,
                    }
                }),
            decreases data0.len() - s@.pos,
        {
            match s.read_exact(1) {
                Ok(b) => {
                    let x = b[0];
                    if x == 0 {
                        proof {
                            assert(bytes@ + Seq::<u8>::empty() =~= bytes@);
                        }
                        return Ok(ZString { bytes });
                    }
                    let ghost oldbytes = bytes@;
                    proof {
                        let (rt, pt) = zdec(data0, s@.pos as int);
                        if rt is Ok {
                            assert(oldbytes + (seq![x] + rt.unwrap()) =~= oldbytes.push(x)
                                + rt.unwrap());
                        }
                    }
                    bytes.push(x);
                },
                Err(e) => {
                    return Err(e);
                },
            }
        }
    }
}

impl Writable for ZString {
    /// Writes the content bytes and one terminator after them, in a single
    /// bounds-checked copy; content of `u32::MAX` bytes or more fails as
    /// `NotValid` before anything is written.
    open spec fn enc(v: Seq<u8>, data: Seq<u8>, pos: int, endian: Endian) -> (
        Result<(), Error>,
        Seq<u8>,
        int,
    ) {
        if v.len() + 1 > u32::MAX {
            (Err(Error::NotValid), data, pos)
        } else {
            crate::encoding::write_out(data, pos, v + seq![0u8])
        }
    }

    fn write(s: &mut WriteStream, val: &Self) -> (r: Result<(), Error>) {
        let n = val.bytes.len();
        if n > (u32::MAX - 1) as usize {
            return Err(Error::NotValid);
        }
        let mut framed = vstd::slice::slice_to_vec(val.bytes.as_slice());
        framed.push(0);
        proof {
            assert(framed@ =~= val@ + seq![0u8]);
        }
        s.write_exact(framed.as_slice())
    }
}

} // verus!
