//! What a decimal field looks like on the wire: to the decoder that reads
//! it and from the encoder that writes it.

use rust_decimal::Decimal;
use vstd::prelude::*;

verus! {

/// `rust_decimal::Decimal`, a fixed-point number. The rules carry it through
/// and read nothing from it.
#[verifier::external_type_specification]
#[verifier::external_body]
pub struct ExDecimal(rust_decimal::Decimal);

/// How a decimal that is present is written.
#[derive(Debug, Clone, Copy, PartialEq, Eq)]
pub enum Form {
    /// As a text literal.
    Str,
    /// As a numeric literal.
    Float,
}

/// What the record decoder hands to a field's rule. It does so only once it
/// has met the field's key, so there is something under the key: the null
/// marker, or a value, here as the scalar decoder left it.
#[derive(Debug, PartialEq, Eq)]
pub enum Seen<T> {
    /// The null marker.
    Null,
    /// A value.
    Value(T),
}

/// What a record holds for a field: nothing, where the key does not occur,
/// or what stands under the key.
#[derive(Debug, PartialEq, Eq)]
pub enum Field<T> {
    /// The key does not occur in the record.
    Absent,
    /// The key occurs.
    Present(Seen<T>),
}

/// What the encoder writes for a field.
#[derive(Debug, Clone, Copy, PartialEq, Eq)]
pub enum Written {
    /// Nothing: the key is left out of the record.
    Nothing,
    /// The key with the null marker.
    Null,
    /// The key with the decimal in the form given.
    Value(Form, Decimal),
}

impl Written {
    /// The field that a decoder meets where this was written, a decimal
    /// that was written being read back as the same decimal.
    pub open spec fn read_back<E>(self) -> Field<Result<Decimal, E>> {
        match self {
            Written::Nothing => Field::Absent,
            Written::Null => Field::Present(Seen::Null),
            Written::Value(_, number) => Field::Present(Seen::Value(Ok(number))),
        }
    }
}

} // verus!
