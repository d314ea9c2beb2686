//! Shared types of the cursor engine: byte order and seek specifications.

use crate::error::Error;
use vstd::prelude::*;

verus! {

/// Byte order used to interpret or produce multi-byte numeric values.
///
/// `Native` stands for the byte order of the host this crate targets, which
/// is little-endian; every conversion treats it exactly as `Little`.
#[derive(Debug, Clone, Copy, PartialEq, Eq, Hash, Structural)]
pub enum Endian {
    /// Least significant byte first.
    Little,
    /// Most significant byte first.
    Big,
    /// The host's byte order; resolved to `Little`.
    Native,
}

pub const LE: Endian = Endian::Little;

pub const BE: Endian = Endian::Big;

pub const NE: Endian = Endian::Native;

impl Endian {
    /// The byte order that conversions actually use: `Native` resolves to `Little`.
    pub open spec fn resolved(self) -> Endian {
        if self is Big {
            Endian::Big
        } else {
            Endian::Little
        }
    }

    /// The byte order that a UTF-16 byte-order mark announces, if the two
    /// bytes form one.
    pub open spec fn spec_from_utf16_bom(bytes: [u8; 2]) -> Option<Endian> {
        if bytes[0] == 0xFE && bytes[1] == 0xFF {
            Some(Endian::Big)
        } else if bytes[0] == 0xFF && bytes[1] == 0xFE {
            Some(Endian::Little)
        } else {
            None
        }
    }

    pub fn from_utf16_bom(bytes: [u8; 2]) -> (r: Option<Endian>)
        ensures
            r == Self::spec_from_utf16_bom(bytes),
    {
        if bytes[0] == 0xFE && bytes[1] == 0xFF {
            Some(Endian::Big)
        } else if bytes[0] == 0xFF && bytes[1] == 0xFE {
            Some(Endian::Little)
        } else {
            None
        }
    }

    /// The UTF-16 byte-order mark for this byte order.
    pub open spec fn spec_into_utf16_bom(self) -> [u8; 2] {
        if self.resolved() is Big {
            [0xFEu8, 0xFFu8]
        } else {
            [0xFFu8, 0xFEu8]
        }
    }

    pub fn into_utf16_bom(&self) -> (r: [u8; 2])
        ensures
            r == self.spec_into_utf16_bom(),
    {
        match self {
            Endian::Big => [0xFE, 0xFF],
            _ => [0xFF, 0xFE],
        }
    }

    /// The byte order that a UTF-32 byte-order mark announces, if the four
    /// bytes form one.
    pub open spec fn spec_from_utf32_bom(bytes: [u8; 4]) -> Option<Endian> {
        if bytes[0] == 0x00 && bytes[1] == 0x00 && bytes[2] == 0xFE && bytes[3] == 0xFF {
            Some(Endian::Big)
        } else if bytes[0] == 0xFF && bytes[1] == 0xFE && bytes[2] == 0x00 && bytes[3] == 0x00 {
            Some(Endian::Little)
        } else {
            None
        }
    }

    pub fn from_utf32_bom(bytes: [u8; 4]) -> (r: Option<Endian>)
        ensures
            r == Self::spec_from_utf32_bom(bytes),
    {
        if bytes[0] == 0x00 && bytes[1] == 0x00 && bytes[2] == 0xFE && bytes[3] == 0xFF {
            Some(Endian::Big)
        } else if bytes[0] == 0xFF && bytes[1] == 0xFE && bytes[2] == 0x00 && bytes[3] == 0x00 {
            Some(Endian::Little)
        } else {
            None
        }
    }

    /// The UTF-32 byte-order mark for this byte order.
    pub open spec fn spec_into_utf32_bom(self) -> [u8; 4] {
        if self.resolved() is Big {
            [0x00u8, 0x00u8, 0xFEu8, 0xFFu8]
        } else {
            [0xFFu8, 0xFEu8, 0x00u8, 0x00u8]
        }
    }

    pub fn into_utf32_bom(&self) -> (r: [u8; 4])
        ensures
            r == self.spec_into_utf32_bom(),
    {
        match self {
            Endian::Big => [0x00, 0x00, 0xFE, 0xFF],
            _ => [0xFF, 0xFE, 0x00, 0x00],
        }
    }

    /// A readable name of the variant, for display purposes.
    pub fn label(&self) -> (r: &'static str)
        ensures
            self is Little ==> r@ == "Endian::Little"@,
            self is Big ==> r@ == "Endian::Big"@,
            self is Native ==> r@ == "Endian::Native"@,
    {
        match self {
            Endian::Little => "Endian::Little",
            Endian::Big => "Endian::Big",
            Endian::Native => "Endian::Native",
        }
    }
}

/// The abstract state of a cursor or of a view handle over one: the whole
/// buffer, the current position and the byte order. Bounds safety means
/// `pos <= data.len()` before and after every operation.
pub struct CursorView {
    pub data: Seq<u8>,
    pub pos: usize,
    pub endian: Endian,
}

impl CursorView {
    /// The single bounds invariant of the whole engine.
    pub open spec fn wf(self) -> bool {
        self.pos <= self.data.len() <= usize::MAX
    }

    /// How many bytes remain between the position and the end.
    pub open spec fn rest(self) -> int {
        self.data.len() - self.pos
    }
}

/// Where an upward alignment to a multiple of `a` lands, before any bounds
/// check: the next multiple of `a` at or above `pos`.
pub open spec fn align_target(pos: int, a: int) -> int
    recommends
        a > 0,
{
    if pos % a == 0 {
        pos
    } else {
        (pos / a + 1) * a
    }
}

/// Where a seek lands, or the exact error it fails with. Failed seeks leave
/// the position unchanged; a positive offset from the end is always out of
/// bounds, as is a target above `len` or arithmetic overflow during
/// resolution.
pub open spec fn seek_target(pos: usize, len: usize, from: SeekFrom) -> Result<usize, Error> {
    match from {
        SeekFrom::Start(n) => if n <= len {
            Ok(n)
        } else {
            Err(Error::OutOfBounds { pos, requested: n, len })
        },
        SeekFrom::End(n) => if n > 0 {
            Err(Error::OutOfBounds { pos, requested: n as usize, len })
        } else {
            let m = -(n as int);
            if m <= len {
                Ok((len - m) as usize)
            } else {
                Err(Error::OutOfBounds { pos, requested: m as usize, len })
            }
        },
        SeekFrom::Current(n) => if n > 0 {
            let t = pos + n;
            if t > usize::MAX {
                Err(Error::OutOfBounds { pos, requested: n as usize, len })
            } else if t <= len {
                Ok(t as usize)
            } else {
                Err(Error::OutOfBounds { pos, requested: t as usize, len })
            }
        } else {
            let m = -(n as int);
            if m <= pos {
                Ok((pos - m) as usize)
            } else {
                Err(Error::OutOfBounds { pos, requested: m as usize, len })
            }
        },
    }
}

/// Decides whether `a` is a power of two, as the dynamic alignment check
/// needs at run time.
pub fn is_power_of_two(a: usize) -> (r: bool)
    ensures
        r == vstd::arithmetic::power2::is_pow2(a as int),
{
    proof {
        reveal(vstd::arithmetic::power2::is_pow2);
    }
    if a == 0 {
        false
    } else {
        let mut x = a;
        while x > 1
            invariant
                x >= 1,
                vstd::arithmetic::power2::is_pow2(a as int)
                    == vstd::arithmetic::power2::is_pow2(x as int),
            decreases x,
        {
            proof {
                reveal(vstd::arithmetic::power2::is_pow2);
            }
            if x % 2 != 0 {
                return false;
            }
            x = x / 2;
        }
        proof {
            reveal(vstd::arithmetic::power2::is_pow2);
        }
        true
    }
}

/// A power of two is at least one; alignments are therefore never zero.
pub proof fn lemma_pow2_positive(a: int)
    requires
        vstd::arithmetic::power2::is_pow2(a),
    ensures
        a >= 1,
{
    reveal(vstd::arithmetic::power2::is_pow2);
}

/// Relates the exec computation `pos + ((a - pos % a))` to [`align_target`].
pub proof fn lemma_align_step(pos: int, a: int)
    requires
        a > 0,
        pos >= 0,
        pos % a != 0,
    ensures
        align_target(pos, a) == pos + (a - pos % a),
        pos < align_target(pos, a) <= pos + a,
{
    vstd::arithmetic::div_mod::lemma_fundamental_div_mod(pos, a);
    assert((pos / a + 1) * a == a * (pos / a) + a) by (nonlinear_arith);
}

/// The magnitude of a non-positive offset, as a `usize`.
pub(crate) fn magnitude(n: isize) -> (m: usize)
    requires
        n <= 0,
    ensures
        m == -(n as int),
{
    if n == isize::MIN {
        (isize::MAX as usize) + 1
    } else {
        (-n) as usize
    }
}

/// How to compute a target position: from the start, from the end, or
/// relative to the current position.
#[derive(Debug, Clone, Copy, PartialEq, Eq, Hash, Structural)]
pub enum SeekFrom {
    /// An absolute offset from the start of the buffer.
    Start(usize),
    /// A signed offset from the end of the buffer; positive values are
    /// always rejected.
    End(isize),
    /// A signed offset from the current position.
    Current(isize),
}

} // verus!
