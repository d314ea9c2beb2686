//! Binary cursor engine with a recursive, trait-based codec protocol.
//!
//! The crate pairs bounds-checked cursors over byte buffers — a reading
//! cursor over a borrowed slice and a writing cursor over an owned,
//! fixed-length buffer — with three codec capability traits: consuming
//! decode ([`readable::Readable`]), consuming encode
//! ([`writable::Writable`]) and non-consuming peek
//! ([`peekable::Peekable`]). Built-in codecs cover the numeric primitives,
//! booleans, characters, fixed arrays, tuples, length-prefixed collections
//! and strings, and null-terminated text; each one's behaviour — value,
//! errors and final position — is pinned by a spec function, and
//! [`laws`] states the round-trip theorems the codecs satisfy.

pub mod common;
pub mod encoding;
pub mod error;
pub mod laws;
pub mod peekable;
pub mod readable;
pub mod reader;
pub mod text;
pub mod writable;
pub mod writer;
pub mod zstring;

