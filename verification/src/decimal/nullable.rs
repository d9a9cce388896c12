//! Decimal fields that are required and may be null.

use crate::decimal::wire::{Field, Form, Seen, Written};
use crate::error::{Expected, Failure, InvalidValue, Unexpected};
use rust_decimal::Decimal;
use vstd::prelude::*;

verus! {

/// The failure for a record in which the field's key does not occur.
pub open spec fn missing() -> InvalidValue {
    InvalidValue { unexpected: Unexpected::Missing, expected: Expected::Decimal }
}

/// What the field's rule makes of what stands under the key: the null marker
/// is no decimal, a value is the decimal that the scalar decoder read.
pub open spec fn decoded<E>(seen: Seen<Result<Decimal, E>>) -> Result<Option<Decimal>, Failure<E>> {
    match seen {
        Seen::Null => Ok(None),
        Seen::Value(Ok(number)) => Ok(Some(number)),
        Seen::Value(Err(err)) => Err(Failure::Decoder(err)),
    }
}

/// What decoding a record makes of the field: the key has to occur.
pub open spec fn decoded_field<E>(field: Field<Result<Decimal, E>>) -> Result<
    Option<Decimal>,
    Failure<E>,
> {
    match field {
        Field::Absent => Err(Failure::Invalid(missing())),
        Field::Present(seen) => decoded(seen),
    }
}

/// What is written for the field: the null marker for no decimal, else the
/// decimal.
pub open spec fn written(value: Option<Decimal>, form: Form) -> Written {
    match value {
        None => Written::Null,
        Some(number) => Written::Value(form, number),
    }
}

/// Decodes the field from what stands under its key.
///
/// A failure of the scalar decoder is passed on unchanged.
pub fn deserialize<E>(seen: Seen<Result<Decimal, E>>) -> (r: Result<Option<Decimal>, Failure<E>>)
    ensures
        r == decoded(seen),
{
    match seen {
        Seen::Null => Ok(None),
        Seen::Value(Ok(number)) => Ok(Some(number)),
        Seen::Value(Err(err)) => Err(Failure::Decoder(err)),
    }
}

/// Decodes the field from a record: a record without the key is rejected.
pub fn deserialize_field<E>(field: Field<Result<Decimal, E>>) -> (r: Result<
    Option<Decimal>,
    Failure<E>,
>)
    ensures
        r == decoded_field(field),
{
    match field {
        Field::Absent => Err(
            Failure::Invalid(
                InvalidValue { unexpected: Unexpected::Missing, expected: Expected::Decimal },
            ),
        ),
        Field::Present(seen) => deserialize(seen),
    }
}

/// Says what to write for the field.
pub fn serialize(value: &Option<Decimal>, form: Form) -> (r: Written)
    ensures
        r == written(*value, form),
{
    match value {
        None => Written::Null,
        Some(number) => Written::Value(form, *number),
    }
}

/// What was written for a value decodes to that value, and the key is
/// always written.
pub proof fn lemma_round_trip<E>(value: Option<Decimal>, form: Form)
    ensures
        written(value, form) != Written::Nothing,
        value is None <==> written(value, form) == Written::Null,
        decoded_field(written(value, form).read_back::<E>()) == Ok::<Option<Decimal>, Failure<E>>(
            value,
        ),
{
}

/// A record without the key never decodes.
pub proof fn lemma_absent_is_rejected<E>()
    ensures
        decoded_field(Field::<Result<Decimal, E>>::Absent) == Err::<Option<Decimal>, Failure<E>>(
            Failure::Invalid(missing()),
        ),
{
}

} // verus!
