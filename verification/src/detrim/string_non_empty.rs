//! Trimming of strings that must not be blank.

use crate::detrim::std_text::trim;
use crate::detrim::string::option_text;
use crate::detrim::whitespace::{
    is_blank, is_trimmed, lemma_blank_trims_to_nothing, lemma_trimmed_is_trimmed, trimmed,
};
use crate::error::{Expected, Failure, InvalidValue, Unexpected};
use vstd::prelude::*;

verus! {

/// The failure for a string that is empty once trimmed.
pub open spec fn empty_string() -> InvalidValue {
    InvalidValue { unexpected: Unexpected::EmptyString, expected: Expected::NonEmptyString }
}

/// `text` trimmed, if anything is left of it.
pub open spec fn non_empty(text: Seq<char>) -> Option<Seq<char>> {
    if trimmed(text).len() == 0 {
        None
    } else {
        Some(trimmed(text))
    }
}

/// An optional text trimmed, if there is one and anything is left of it.
pub open spec fn non_empty_option(text: Option<Seq<char>>) -> Option<Seq<char>> {
    match text {
        Some(text) => non_empty(text),
        None => None,
    }
}

/// Trims a decoded string and rejects it if nothing is left.
///
/// A failure of the decoder is passed on unchanged.
pub fn string_non_empty<E>(decoded: Result<String, E>) -> (r: Result<String, Failure<E>>)
    ensures
        match decoded {
            Ok(val) => match non_empty(val@) {
                Some(text) => r matches Ok(out) && out@ == text,
                None => r == Err::<String, Failure<E>>(Failure::Invalid(empty_string())),
            },
            Err(err) => r == Err::<String, Failure<E>>(Failure::Decoder(err)),
        },
{
    match decoded {
        Ok(val) => {
            let text = trim(val.as_str());
            if text.is_empty() {
                Err(
                    Failure::Invalid(
                        InvalidValue {
                            unexpected: Unexpected::EmptyString,
                            expected: Expected::NonEmptyString,
                        },
                    ),
                )
            } else {
                Ok(text.to_owned())
            }
        },
        Err(err) => Err(Failure::Decoder(err)),
    }
}

/// Trims a decoded optional string and takes one of which nothing is left as
/// absent.
///
/// A failure of the decoder is passed on unchanged.
pub fn option_string_non_empty<E>(decoded: Result<Option<String>, E>) -> (r: Result<
    Option<String>,
    E,
>)
    ensures
        match decoded {
            Ok(val) => r matches Ok(out) && option_text(out) == non_empty_option(option_text(val)),
            Err(err) => r == Err::<Option<String>, E>(err),
        },
{
    match decoded {
        Ok(None) => Ok(None),
        Ok(Some(val)) => {
            let text = trim(val.as_str());
            if text.is_empty() {
                Ok(None)
            } else {
                Ok(Some(text.to_owned()))
            }
        },
        Err(err) => Err(err),
    }
}

/// Nothing is left of a string exactly if all of it is whitespace: such a
/// string is rejected where one is required and absent where it is optional.
pub proof fn lemma_blank_is_nothing(text: Seq<char>)
    ensures
        is_blank(text) <==> non_empty(text) is None,
        is_blank(text) <==> non_empty_option(Some(text)) is None,
{
    lemma_blank_trims_to_nothing(text);
}

/// What is left of a string is never empty, and neither starts nor ends with
/// whitespace.
pub proof fn lemma_non_empty_is_trimmed(text: Seq<char>)
    ensures
        non_empty(text) matches Some(left) ==> left.len() > 0 && is_trimmed(left),
{
    lemma_trimmed_is_trimmed(text);
}

} // verus!
