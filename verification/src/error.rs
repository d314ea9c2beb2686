//! The error taxonomy shared by every cursor and codec operation.

use vstd::prelude::*;

verus! {

/// The decimal rendering of `n`, most significant digit first.
pub open spec fn spec_decimal(n: nat) -> Seq<char>
    decreases n,
{
    let d = (48 + n % 10) as char;
    if n < 10 {
        seq![d]
    } else {
        spec_decimal(n / 10).push(d)
    }
}

/// Relies on `format!` with core's `Display` for `usize`: it renders the
/// number in decimal, most significant digit first, with no sign or padding.
#[verifier::external_body]
fn usize_to_decimal(n: usize) -> (r: String)
    ensures
        r@ == spec_decimal(n as nat),
{
    format!("{}", n)
}

/// Relies on `String::push_str`: it appends the given slice's characters to
/// the string.
#[verifier::external_body]
fn append_str(s: &mut String, t: &str)
    ensures
        final(s)@ == old(s)@ + t@,
{
    s.push_str(t);
}

/// What can go wrong while navigating a cursor or running a codec.
///
/// Every failing operation reports exactly one of these, and each verified
/// function's contract states precisely which variant comes back on which
/// input.
#[derive(Debug)]
pub enum Error {
    /// A read, peek or write asked for more bytes than remain between the
    /// current position and the end of the buffer. The position is left
    /// unchanged.
    InsufficientData {
        /// How many bytes the operation asked for.
        requested: usize,
        /// How many bytes actually remain.
        available: usize,
    },
    /// A navigation operation named a target outside `[0, len]`. The
    /// position is left unchanged.
    OutOfBounds {
        /// The position before the operation.
        pos: usize,
        /// The offset or position that was asked for.
        requested: usize,
        /// The buffer's length.
        len: usize,
    },
    /// The data or an argument is invalid for the requested operation: a
    /// boolean byte other than 0 or 1, an alignment that is not a power of
    /// two, or a collection too long for its length prefix.
    NotValid,
    /// Text that was required to be ASCII holds a byte of 128 or above.
    NotValidAscii,
    /// Bytes that were required to be UTF-8 are not valid UTF-8.
    NotValidUTF8,
    /// An error of a caller-supplied codec, carried as its message.
    Custom(String),
}

impl Error {
    /// The characters of [`Self::message`], variant by variant.
    pub open spec fn spec_message(self) -> Seq<char> {
        match self {
            Error::InsufficientData { requested, available } => "Insufficient data: requested "@
                + spec_decimal(requested as nat) + " bytes, but only "@ + spec_decimal(
                available as nat,
            ) + " available"@,
            Error::OutOfBounds { pos, requested, len } => "Position out of bounds: current="@
                + spec_decimal(pos as nat) + ", requested="@ + spec_decimal(requested as nat)
                + ", length="@ + spec_decimal(len as nat),
            Error::NotValid => "Data is not valid for the requested operation"@,
            Error::NotValidAscii => "Data contains non-ASCII characters"@,
            Error::NotValidUTF8 => "Invalid UTF-8 sequence"@,
            Error::Custom(msg) => "Custom error: "@ + msg@,
        }
    }

    /// A human-readable description of the error, for display purposes.
    pub fn message(&self) -> (r: String)
        ensures
            r@ == self.spec_message(),
    {
        match self {
            Error::InsufficientData { requested, available } => {
                let mut m = "Insufficient data: requested ".to_owned();
                let d1 = usize_to_decimal(*requested);
                append_str(&mut m, d1.as_str());
                append_str(&mut m, " bytes, but only ");
                let d2 = usize_to_decimal(*available);
                append_str(&mut m, d2.as_str());
                append_str(&mut m, " available");
                m
            },
            Error::OutOfBounds { pos, requested, len } => {
                let mut m = "Position out of bounds: current=".to_owned();
                let d1 = usize_to_decimal(*pos);
                append_str(&mut m, d1.as_str());
                append_str(&mut m, ", requested=");
                let d2 = usize_to_decimal(*requested);
                append_str(&mut m, d2.as_str());
                append_str(&mut m, ", length=");
                let d3 = usize_to_decimal(*len);
                append_str(&mut m, d3.as_str());
                m
            },
            Error::NotValid => "Data is not valid for the requested operation".to_owned(),
            Error::NotValidAscii => "Data contains non-ASCII characters".to_owned(),
            Error::NotValidUTF8 => "Invalid UTF-8 sequence".to_owned(),
            Error::Custom(msg) => {
                let mut m = "Custom error: ".to_owned();
                append_str(&mut m, msg.as_str());
                m
            },
        }
    }
}

} // verus!
