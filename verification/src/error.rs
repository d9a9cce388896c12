//! The failures that the rules raise.

use vstd::prelude::*;
use vstd::string::StringExecFns;

verus! {

/// What a rule met in place of what it expects.
#[derive(Debug, PartialEq, Eq)]
pub enum Unexpected {
    /// A boolean other than the one literal that is accepted.
    Bool(bool),
    /// Bytes that are not UTF-8 text.
    Bytes(Vec<u8>),
    /// A string that is empty once trimmed.
    EmptyString,
    /// The null marker.
    Null,
    /// No value at all: the field's key does not occur.
    Missing,
}

/// What a rule expects to meet.
#[derive(Debug, Clone, Copy, PartialEq, Eq)]
pub enum Expected {
    /// Text.
    AString,
    /// Text that is not empty once trimmed.
    NonEmptyString,
    /// The boolean `true`.
    LiteralTrue,
    /// The boolean `false`.
    LiteralFalse,
    /// A fixed-point decimal number.
    Decimal,
}

/// A value of the right primitive shape that a rule's policy rejects.
#[derive(Debug, PartialEq, Eq)]
pub struct InvalidValue {
    /// The offending value.
    pub unexpected: Unexpected,
    /// What the rule accepts.
    pub expected: Expected,
}

/// Why a field could not be decoded.
#[derive(Debug, PartialEq, Eq)]
pub enum Failure<E> {
    /// The underlying decoder failed; its error is passed on unchanged.
    Decoder(E),
    /// The underlying decoder succeeded and the rule rejected the value.
    Invalid(InvalidValue),
}

impl Unexpected {
    /// The words that describe the offending value.
    pub open spec fn description_spec(self) -> Seq<char> {
        match self {
            Unexpected::Bool(true) => "true"@,
            Unexpected::Bool(false) => "false"@,
            Unexpected::Bytes(_) => "byte array"@,
            Unexpected::EmptyString => "empty string"@,
            Unexpected::Null => "null"@,
            Unexpected::Missing => "missing field"@,
        }
    }

    /// Describes the offending value in words.
    pub fn description(&self) -> (r: &'static str)
        ensures
            r@ == self.description_spec(),
    {
        match self {
            Unexpected::Bool(true) => "true",
            Unexpected::Bool(false) => "false",
            Unexpected::Bytes(_) => "byte array",
            Unexpected::EmptyString => "empty string",
            Unexpected::Null => "null",
            Unexpected::Missing => "missing field",
        }
    }
}

impl Expected {
    /// The noun phrase that names what is expected.
    pub open spec fn text_spec(self) -> Seq<char> {
        match self {
            Expected::AString => "a string"@,
            Expected::NonEmptyString => "non-empty string"@,
            Expected::LiteralTrue => "the literal true"@,
            Expected::LiteralFalse => "the literal false"@,
            Expected::Decimal => "a Decimal type representing a fixed-point number"@,
        }
    }

    /// Names what is expected, as a noun phrase.
    pub fn text(&self) -> (r: &'static str)
        ensures
            r@ == self.text_spec(),
    {
        match self {
            Expected::AString => "a string",
            Expected::NonEmptyString => "non-empty string",
            Expected::LiteralTrue => "the literal true",
            Expected::LiteralFalse => "the literal false",
            Expected::Decimal => "a Decimal type representing a fixed-point number",
        }
    }
}

impl InvalidValue {
    /// The sentence that reports the failure.
    pub open spec fn message_spec(self) -> Seq<char> {
        "invalid value: "@ + self.unexpected.description_spec() + ", expected "@
            + self.expected.text_spec()
    }

    /// Reports the failure as a sentence: the offending value, then what was
    /// expected.
    pub fn message(&self) -> (r: String)
        ensures
            r@ == self.message_spec(),
    {
        let mut out = String::from_str("invalid value: ");
        out.append(self.unexpected.description());
        out.append(", expected ");
        out.append(self.expected.text());
        out
    }
}

} // verus!
