//! Boolean singletons that decode from one literal only.
//!
//! A record that holds a [`False`] decodes only where the input says `false`,
//! and one that holds a [`True`] only where it says `true`. A decoder that
//! tries the variants of a union in turn can thereby choose the variant by a
//! flag, with no need to make every other field of it optional.

use crate::error::{Expected, Failure, InvalidValue, Unexpected};
use vstd::prelude::*;
use vstd::std_specs::cmp::PartialEqSpecImpl;
use vstd::std_specs::convert::FromSpecImpl;

verus! {

/// The boolean that is always `true`.
#[derive(Debug, Clone, Copy)]
pub struct True;

/// The boolean that is always `false`.
#[derive(Debug, Clone, Copy)]
pub struct False;

/// The failure for a boolean other than the literal that is accepted.
pub open spec fn wrong_literal(found: bool) -> InvalidValue {
    InvalidValue {
        unexpected: Unexpected::Bool(found),
        expected: if found {
            Expected::LiteralFalse
        } else {
            Expected::LiteralTrue
        },
    }
}

impl True {
    /// Returns `true`.
    pub fn as_bool(self) -> (r: bool)
        ensures
            r == true,
    {
        true
    }

    /// What decoding makes of a decoded boolean.
    pub open spec fn decoded<E>(decoded: Result<bool, E>) -> Result<True, Failure<E>> {
        match decoded {
            Ok(true) => Ok(True),
            Ok(false) => Err(Failure::Invalid(wrong_literal(false))),
            Err(err) => Err(Failure::Decoder(err)),
        }
    }

    /// Accepts a decoded boolean only if it is `true`.
    ///
    /// A failure of the decoder is passed on unchanged.
    pub fn deserialize<E>(decoded: Result<bool, E>) -> (r: Result<True, Failure<E>>)
        ensures
            r == Self::decoded(decoded),
    {
        match decoded {
            Ok(true) => Ok(True),
            Ok(false) => Err(
                Failure::Invalid(
                    InvalidValue {
                        unexpected: Unexpected::Bool(false),
                        expected: Expected::LiteralTrue,
                    },
                ),
            ),
            Err(err) => Err(Failure::Decoder(err)),
        }
    }

    /// The boolean to write for this value: always `true`.
    pub fn serialize(&self) -> (r: bool)
        ensures
            r == true,
    {
        true
    }
}

impl False {
    /// Returns `false`.
    pub fn as_bool(self) -> (r: bool)
        ensures
            r == false,
    {
        false
    }

    /// What decoding makes of a decoded boolean.
    pub open spec fn decoded<E>(decoded: Result<bool, E>) -> Result<False, Failure<E>> {
        match decoded {
            Ok(false) => Ok(False),
            Ok(true) => Err(Failure::Invalid(wrong_literal(true))),
            Err(err) => Err(Failure::Decoder(err)),
        }
    }

    /// Accepts a decoded boolean only if it is `false`.
    ///
    /// A failure of the decoder is passed on unchanged.
    pub fn deserialize<E>(decoded: Result<bool, E>) -> (r: Result<False, Failure<E>>)
        ensures
            r == Self::decoded(decoded),
    {
        match decoded {
            Ok(true) => Err(
                Failure::Invalid(
                    InvalidValue {
                        unexpected: Unexpected::Bool(true),
                        expected: Expected::LiteralFalse,
                    },
                ),
            ),
            Ok(false) => Ok(False),
            Err(err) => Err(Failure::Decoder(err)),
        }
    }

    /// The boolean to write for this value: always `false`.
    pub fn serialize(&self) -> (r: bool)
        ensures
            r == false,
    {
        false
    }
}

impl Default for True {
    fn default() -> (r: Self)
        ensures
            r == True,
    {
        True
    }
}

impl Default for False {
    fn default() -> (r: Self)
        ensures
            r == False,
    {
        False
    }
}

impl From<True> for bool {
    fn from(value: True) -> (r: bool) {
        true
    }
}

impl FromSpecImpl<True> for bool {
    open spec fn obeys_from_spec() -> bool {
        true
    }

    open spec fn from_spec(value: True) -> bool {
        true
    }
}

impl From<False> for bool {
    fn from(value: False) -> (r: bool) {
        false
    }
}

impl FromSpecImpl<False> for bool {
    open spec fn obeys_from_spec() -> bool {
        true
    }

    open spec fn from_spec(value: False) -> bool {
        false
    }
}

impl PartialEq for True {
    fn eq(&self, other: &True) -> (r: bool) {
        true
    }
}

impl PartialEqSpecImpl for True {
    open spec fn obeys_eq_spec() -> bool {
        true
    }

    open spec fn eq_spec(&self, other: &True) -> bool {
        true
    }
}

impl Eq for True {

}

impl PartialEq<False> for True {
    fn eq(&self, other: &False) -> (r: bool) {
        false
    }
}

impl PartialEqSpecImpl<False> for True {
    open spec fn obeys_eq_spec() -> bool {
        true
    }

    open spec fn eq_spec(&self, other: &False) -> bool {
        false
    }
}

impl PartialEq<bool> for True {
    fn eq(&self, other: &bool) -> (r: bool) {
        self.as_bool() == *other
    }
}

impl PartialEqSpecImpl<bool> for True {
    open spec fn obeys_eq_spec() -> bool {
        true
    }

    open spec fn eq_spec(&self, other: &bool) -> bool {
        *other == true
    }
}

impl PartialEq<True> for bool {
    fn eq(&self, other: &True) -> (r: bool) {
        *self == other.as_bool()
    }
}

impl PartialEqSpecImpl<True> for bool {
    open spec fn obeys_eq_spec() -> bool {
        true
    }

    open spec fn eq_spec(&self, other: &True) -> bool {
        *self == true
    }
}

impl PartialEq for False {
    fn eq(&self, other: &False) -> (r: bool) {
        true
    }
}

impl PartialEqSpecImpl for False {
    open spec fn obeys_eq_spec() -> bool {
        true
    }

    open spec fn eq_spec(&self, other: &False) -> bool {
        true
    }
}

impl Eq for False {

}

impl PartialEq<True> for False {
    fn eq(&self, other: &True) -> (r: bool) {
        false
    }
}

impl PartialEqSpecImpl<True> for False {
    open spec fn obeys_eq_spec() -> bool {
        true
    }

    open spec fn eq_spec(&self, other: &True) -> bool {
        false
    }
}

impl PartialEq<bool> for False {
    fn eq(&self, other: &bool) -> (r: bool) {
        self.as_bool() == *other
    }
}

impl PartialEqSpecImpl<bool> for False {
    open spec fn obeys_eq_spec() -> bool {
        true
    }

    open spec fn eq_spec(&self, other: &bool) -> bool {
        *other == false
    }
}

impl PartialEq<False> for bool {
    fn eq(&self, other: &False) -> (r: bool) {
        *self == other.as_bool()
    }
}

impl PartialEqSpecImpl<False> for bool {
    open spec fn obeys_eq_spec() -> bool {
        true
    }

    open spec fn eq_spec(&self, other: &False) -> bool {
        *self == false
    }
}

/// A decoded boolean is accepted by exactly one of the two singletons, and
/// that one stands for the boolean decoded.
pub proof fn lemma_exactly_one_accepts<E>(found: bool)
    ensures
        True::decoded(Ok::<bool, E>(found)) is Ok <==> found,
        False::decoded(Ok::<bool, E>(found)) is Ok <==> !found,
        True::decoded(Ok::<bool, E>(found)) is Ok != False::decoded(Ok::<bool, E>(found)) is Ok,
{
}

/// A failure of the decoder, as for input that is no boolean, is a failure
/// of both singletons.
pub proof fn lemma_decoder_failure_fails<E>(err: E)
    ensures
        True::decoded(Err::<bool, E>(err)) == Err::<True, Failure<E>>(Failure::Decoder(err)),
        False::decoded(Err::<bool, E>(err)) == Err::<False, Failure<E>>(Failure::Decoder(err)),
{
}

} // verus!
