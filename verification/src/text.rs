//! Text handling for the codecs: a verified UTF-8 validity check, the
//! decode relation for ASCII text, and the one trusted conversion from
//! already-checked bytes to a string slice.

use crate::error::Error;
use vstd::prelude::*;
use vstd::string::StringSliceAdditionalSpecFns;

verus! {

/// Relies on `str::from_utf8`: on bytes that are valid UTF-8 it succeeds,
/// and the returned string slice views those same bytes. Validity itself is
/// decided beforehand by the verified [`utf8_check`].
#[verifier::external_body]
pub(crate) fn str_from_utf8(v: &[u8]) -> (r: &str)
    requires
        vstd::utf8::valid_utf8(v@),
    ensures
        r.spec_bytes() == v@,
{
    core::str::from_utf8(v).unwrap()
}

/// Decides whether `bytes` are valid UTF-8, byte pattern by byte pattern:
/// leading and continuation forms, no overlong encodings, no surrogates.
#[verifier::loop_isolation(false)]
pub fn utf8_check(bytes: &[u8]) -> (r: bool)
    ensures
        r == vstd::utf8::valid_utf8(bytes@),
{
    let n = bytes.len();
    let mut i: usize = 0;
    proof {
        assert(bytes@.subrange(0, 0) =~= Seq::<u8>::empty());
    }
    while i < n
        invariant
            i <= n,
            n == bytes@.len(),
            vstd::utf8::partial_valid_utf8(bytes@, i as int),
        decreases n - i,
    {
        let ghost s = bytes@.subrange(i as int, n as int);
        proof {
            assert(s.len() == n - i);
            assert(forall|j: int| 0 <= j < s.len() ==> s[j] == bytes@[i + j]);
        }
        let b0 = bytes[i];
        let w: usize;
        if b0 <= 0x7F {
            proof {
                assert(vstd::utf8::valid_first_scalar(s));
                assert(vstd::utf8::length_of_first_scalar(s) == 1);
            }
            w = 1;
        } else if 0xC0 <= b0 && b0 <= 0xDF {
            if n - i < 2 {
                proof {
                    lemma_first_scalar_invalid(bytes@, i as int);
                }
                return false;
            }
            let b1 = bytes[i + 1];
            let cp: u32 = (((b0 & 0x1F) as u32) << 6) | ((b1 & 0x3F) as u32);
            if !(0x80 <= b1 && b1 <= 0xBF) || cp < 0x80 {
                proof {
                    lemma_first_scalar_invalid(bytes@, i as int);
                }
                return false;
            }
            proof {
                assert(cp <= 0x7FF) by (bit_vector)
                    requires
                        cp == (((b0 & 0x1F) as u32) << 6) | ((b1 & 0x3F) as u32),
                ;
                assert(vstd::utf8::valid_first_scalar(s));
                assert(vstd::utf8::length_of_first_scalar(s) == 2);
            }
            w = 2;
        } else if 0xE0 <= b0 && b0 <= 0xEF {
            if n - i < 3 {
                proof {
                    lemma_first_scalar_invalid(bytes@, i as int);
                }
                return false;
            }
            let b1 = bytes[i + 1];
            let b2 = bytes[i + 2];
            let cp: u32 = (((b0 & 0x0F) as u32) << 12) | (((b1 & 0x3F) as u32) << 6) | ((b2
                & 0x3F) as u32);
            if !(0x80 <= b1 && b1 <= 0xBF) || !(0x80 <= b2 && b2 <= 0xBF) || cp < 0x800 || (0xD800
                <= cp && cp <= 0xDFFF) {
                proof {
                    lemma_first_scalar_invalid(bytes@, i as int);
                }
                return false;
            }
            proof {
                assert(vstd::utf8::valid_first_scalar(s));
                assert(vstd::utf8::length_of_first_scalar(s) == 3);
            }
            w = 3;
        } else if 0xF0 <= b0 && b0 <= 0xF7 {
            if n - i < 4 {
                proof {
                    lemma_first_scalar_invalid(bytes@, i as int);
                }
                return false;
            }
            let b1 = bytes[i + 1];
            let b2 = bytes[i + 2];
            let b3 = bytes[i + 3];
            let cp: u32 = (((b0 & 0x7) as u32) << 18) | (((b1 & 0x3F) as u32) << 12) | (((b2
                & 0x3F) as u32) << 6) | ((b3 & 0x3F) as u32);
            if !(0x80 <= b1 && b1 <= 0xBF) || !(0x80 <= b2 && b2 <= 0xBF) || !(0x80 <= b3 && b3
                <= 0xBF) || cp < 0x10000 || cp > 0x10FFFF {
                proof {
                    lemma_first_scalar_invalid(bytes@, i as int);
                }
                return false;
            }
            proof {
                assert(vstd::utf8::valid_first_scalar(s));
                assert(vstd::utf8::length_of_first_scalar(s) == 4);
            }
            w = 4;
        } else {
            proof {
                lemma_first_scalar_invalid(bytes@, i as int);
            }
            return false;
        }
        proof {
            vstd::utf8::partial_valid_utf8_extend(bytes@, i as int);
        }
        i = i + w;
    }
    proof {
        assert(bytes@.subrange(0, n as int) =~= bytes@);
    }
    true
}

/// A prefix that is valid so far, followed by a malformed first scalar,
/// makes the whole sequence invalid.
proof fn lemma_first_scalar_invalid(bytes: Seq<u8>, i: int)
    requires
        0 <= i < bytes.len(),
        vstd::utf8::partial_valid_utf8(bytes, i),
        !vstd::utf8::valid_first_scalar(bytes.subrange(i, bytes.len() as int)),
    ensures
        !vstd::utf8::valid_utf8(bytes),
{
    let s = bytes.subrange(i, bytes.len() as int);
    assert(!vstd::utf8::valid_utf8(s));
    vstd::utf8::partial_valid_partial_invalid_utf8(bytes, i);
}

/// Decoding `size` bytes at `pos` as ASCII text: the bytes must be there,
/// must be valid UTF-8, and every character must then be in the ASCII range,
/// checked in that order.
pub open spec fn ascii_dec(data: Seq<u8>, pos: int, size: nat) -> Result<Seq<char>, Error> {
    if pos + size <= data.len() {
        let bytes = data.subrange(pos, pos + size);
        if !vstd::utf8::valid_utf8(bytes) {
            Err(Error::NotValidUTF8)
        } else if !vstd::utf8::is_ascii_chars(vstd::utf8::decode_utf8(bytes)) {
            Err(Error::NotValidAscii)
        } else {
            Ok(vstd::utf8::decode_utf8(bytes))
        }
    } else {
        Err(
            Error::InsufficientData {
                requested: size as usize,
                available: (data.len() - pos) as usize,
            },
        )
    }
}

} // verus!
