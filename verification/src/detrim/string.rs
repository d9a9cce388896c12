//! Trimming of single strings.

use crate::detrim::std_text::trim;
use crate::detrim::whitespace::trimmed;
use vstd::prelude::*;

verus! {

/// The characters of an optional string, if there is one.
pub open spec fn option_text(val: Option<String>) -> Option<Seq<char>> {
    match val {
        Some(text) => Some(text@),
        None => None,
    }
}

/// An optional text trimmed, if there is one.
pub open spec fn trimmed_option(text: Option<Seq<char>>) -> Option<Seq<char>> {
    match text {
        Some(text) => Some(trimmed(text)),
        None => None,
    }
}

/// Trims a decoded string slice: the result is a narrower borrow of the same
/// buffer. A failure of the decoder is passed on unchanged.
pub fn str<'a, E>(decoded: Result<&'a str, E>) -> (r: Result<&'a str, E>)
    ensures
        match decoded {
            Ok(val) => r matches Ok(out) && out@ == trimmed(val@),
            Err(err) => r == Err::<&'a str, E>(err),
        },
{
    match decoded {
        Ok(val) => Ok(trim(val)),
        Err(err) => Err(err),
    }
}

/// Trims a decoded string. A failure of the decoder is passed on unchanged.
pub fn string<E>(decoded: Result<String, E>) -> (r: Result<String, E>)
    ensures
        match decoded {
            Ok(val) => r matches Ok(out) && out@ == trimmed(val@),
            Err(err) => r == Err::<String, E>(err),
        },
{
    match decoded {
        Ok(val) => Ok(trim(val.as_str()).to_owned()),
        Err(err) => Err(err),
    }
}

/// Trims a decoded optional string: an absent one stays absent, and one that
/// trims to nothing stays present. A failure of the decoder is passed on
/// unchanged.
pub fn option_string<E>(decoded: Result<Option<String>, E>) -> (r: Result<Option<String>, E>)
    ensures
        match decoded {
            Ok(val) => r matches Ok(out) && option_text(out) == trimmed_option(option_text(val)),
            Err(err) => r == Err::<Option<String>, E>(err),
        },
{
    match decoded {
        Ok(Some(val)) => Ok(Some(trim(val.as_str()).to_owned())),
        Ok(None) => Ok(None),
        Err(err) => Err(err),
    }
}

} // verus!
