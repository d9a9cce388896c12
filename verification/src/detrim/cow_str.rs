//! Trimming of text that may still lie in the input buffer.

use crate::detrim::std_text::{from_utf8, trim};
use crate::detrim::whitespace::trimmed;
use crate::error::{Expected, InvalidValue, Unexpected};
use std::borrow::Cow;
use vstd::prelude::*;
use vstd::slice::slice_to_vec;
use vstd::string::StringSliceAdditionalSpecFns;
use vstd::utf8::{decode_utf8, encode_utf8_decode_utf8, valid_utf8};

verus! {

/// Text as the decoder hands it over: as characters or as bytes, and either
/// lying in the input buffer (for `'de`), lent for the moment, or owned.
#[derive(Debug, PartialEq, Eq)]
pub enum Source<'de, 't> {
    /// Characters lent for the moment, as after escape processing.
    Str(&'t str),
    /// Characters that lie in the input buffer.
    BorrowedStr(&'de str),
    /// Characters in a buffer of their own.
    String(String),
    /// Bytes lent for the moment.
    Bytes(&'t [u8]),
    /// Bytes that lie in the input buffer.
    BorrowedBytes(&'de [u8]),
    /// Bytes in a buffer of their own.
    ByteBuf(Vec<u8>),
}

impl<'de, 't> Source<'de, 't> {
    /// Whether the value lies in the input buffer.
    pub open spec fn in_input(self) -> bool {
        self is BorrowedStr || self is BorrowedBytes
    }

    /// The bytes handed over, where bytes were.
    pub open spec fn bytes(self) -> Option<Seq<u8>> {
        match self {
            Source::Bytes(v) => Some(v@),
            Source::BorrowedBytes(v) => Some(v@),
            Source::ByteBuf(v) => Some(v@),
            _ => None,
        }
    }

    /// The characters handed over; none where the bytes are not UTF-8.
    pub open spec fn text(self) -> Option<Seq<char>> {
        match self {
            Source::Str(s) => Some(s@),
            Source::BorrowedStr(s) => Some(s@),
            Source::String(s) => Some(s@),
            _ => if valid_utf8(self.bytes()->0) {
                Some(decode_utf8(self.bytes()->0))
            } else {
                None
            },
        }
    }
}

/// The failure for bytes that are not text.
fn not_text(bytes: Vec<u8>) -> (r: InvalidValue)
    ensures
        r.expected == Expected::AString,
        r.unexpected matches Unexpected::Bytes(b) && b@ == bytes@,
{
    InvalidValue { unexpected: Unexpected::Bytes(bytes), expected: Expected::AString }
}

/// Trims text, in place where it lies in the input buffer.
///
/// Text in the input buffer comes back as a narrower borrow of that buffer;
/// any other text comes back as an owned copy. Bytes have to be UTF-8: where
/// they are not, the failure names them.
pub fn cow_str<'de, 't>(src: Source<'de, 't>) -> (r: Result<Cow<'de, str>, InvalidValue>)
    ensures
        match src.text() {
            Some(text) => r matches Ok(out) && out@ == trimmed(text) && (out is Borrowed
                <==> src.in_input()),
            None => r matches Err(e) && ({
                &&& e.expected == Expected::AString
                &&& e.unexpected matches Unexpected::Bytes(b) && Some(b@) == src.bytes()
            }),
        },
{
    match src {
        Source::Str(val) => Ok(Cow::Owned(trim(val).to_owned())),
        Source::BorrowedStr(val) => Ok(Cow::Borrowed(trim(val))),
        Source::String(val) => Ok(Cow::Owned(trim(val.as_str()).to_owned())),
        Source::Bytes(val) => match from_utf8(val) {
            Some(text) => {
                proof {
                    encode_utf8_decode_utf8(text@);
                }
                Ok(Cow::Owned(trim(text).to_owned()))
            },
            None => Err(not_text(slice_to_vec(val))),
        },
        Source::BorrowedBytes(val) => match from_utf8(val) {
            Some(text) => {
                proof {
                    encode_utf8_decode_utf8(text@);
                }
                Ok(Cow::Borrowed(trim(text)))
            },
            None => Err(not_text(slice_to_vec(val))),
        },
        Source::ByteBuf(val) => match from_utf8(val.as_slice()) {
            Some(text) => {
                proof {
                    encode_utf8_decode_utf8(text@);
                }
                Ok(Cow::Owned(trim(text).to_owned()))
            },
            None => Err(not_text(val)),
        },
    }
}

} // verus!
