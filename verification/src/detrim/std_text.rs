//! The text functions of the standard library that the rules call, each with
//! the contract that Verus takes as given.

use crate::detrim::whitespace::trimmed;
use vstd::prelude::*;
use vstd::string::StringSliceAdditionalSpecFns;
use vstd::utf8::valid_utf8;

verus! {

/// Calls `str::trim`. The slice that comes back holds the characters of
/// `text` without the `White_Space` characters at its start and at its end;
/// it borrows from `text`.
#[verifier::external_body]
pub(crate) fn trim<'a>(text: &'a str) -> (r: &'a str)
    ensures
        r@ == trimmed(text@),
{
    text.trim()
}

/// Calls `core::str::from_utf8`. It succeeds exactly on well-formed UTF-8,
/// and the slice that comes back then is made of the bytes given; it borrows
/// from `bytes`.
#[verifier::external_body]
pub(crate) fn from_utf8<'a>(bytes: &'a [u8]) -> (r: Option<&'a str>)
    ensures
        r is Some <==> valid_utf8(bytes@),
        r matches Some(text) ==> text.spec_bytes() == bytes@,
{
    match core::str::from_utf8(bytes) {
        Ok(text) => Some(text),
        Err(_) => None,
    }
}

} // verus!
