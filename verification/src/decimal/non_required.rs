//! Decimal fields that may be missing and may not be null.

use crate::decimal::wire::{Field, Form, Seen, Written};
use crate::error::{Expected, Failure, InvalidValue, Unexpected};
use rust_decimal::Decimal;
use vstd::prelude::*;

verus! {

/// The failure for the null marker under the field's key.
pub open spec fn unexpected_null() -> InvalidValue {
    InvalidValue { unexpected: Unexpected::Null, expected: Expected::Decimal }
}

/// What the field's rule makes of what stands under the key: a value is the
/// decimal that the scalar decoder read, the null marker is rejected.
pub open spec fn decoded<E>(seen: Seen<Result<Decimal, E>>) -> Result<Option<Decimal>, Failure<E>> {
    match seen {
        Seen::Null => Err(Failure::Invalid(unexpected_null())),
        Seen::Value(Ok(number)) => Ok(Some(number)),
        Seen::Value(Err(err)) => Err(Failure::Decoder(err)),
    }
}

/// What decoding a record makes of the field: without the key there is no
/// decimal.
pub open spec fn decoded_field<E>(field: Field<Result<Decimal, E>>) -> Result<
    Option<Decimal>,
    Failure<E>,
> {
    match field {
        Field::Absent => Ok(None),
        Field::Present(seen) => decoded(seen),
    }
}

/// What is written for the field: nothing for no decimal, else the decimal.
pub open spec fn written(value: Option<Decimal>, form: Form) -> Written {
    match value {
        None => Written::Nothing,
        Some(number) => Written::Value(form, number),
    }
}

/// Decodes the field from what stands under its key.
///
/// A failure of the scalar decoder is passed on unchanged.
pub fn deserialize<E>(seen: Seen<Result<Decimal, E>>) -> (r: Result<Option<Decimal>, Failure<E>>)
    ensures
        r == decoded(seen),
{
    match seen {
        Seen::Null => Err(
            Failure::Invalid(
                InvalidValue { unexpected: Unexpected::Null, expected: Expected::Decimal },
            ),
        ),
        Seen::Value(Ok(number)) => Ok(Some(number)),
        Seen::Value(Err(err)) => Err(Failure::Decoder(err)),
    }
}

/// Decodes the field from a record: without the key there is no decimal.
pub fn deserialize_field<E>(field: Field<Result<Decimal, E>>) -> (r: Result<
    Option<Decimal>,
    Failure<E>,
>)
    ensures
        r == decoded_field(field),
{
    match field {
        Field::Absent => Ok(None),
        Field::Present(seen) => deserialize(seen),
    }
}

/// Says what to write for the field.
pub fn serialize(value: &Option<Decimal>, form: Form) -> (r: Written)
    ensures
        r == written(*value, form),
{
    match value {
        None => Written::Nothing,
        Some(number) => Written::Value(form, *number),
    }
}

/// What was written for a value decodes to that value; the key is left out
/// exactly for no decimal, and the null marker is never written.
pub proof fn lemma_round_trip<E>(value: Option<Decimal>, form: Form)
    ensures
        written(value, form) != Written::Null,
        value is None <==> written(value, form) == Written::Nothing,
        decoded_field(written(value, form).read_back::<E>()) == Ok::<Option<Decimal>, Failure<E>>(
            value,
        ),
{
}

/// A record without the key decodes to no decimal, and one with the null
/// marker under the key never decodes.
pub proof fn lemma_absent_and_null<E>()
    ensures
        decoded_field(Field::<Result<Decimal, E>>::Absent) == Ok::<Option<Decimal>, Failure<E>>(
            None,
        ),
        decoded_field(Field::<Result<Decimal, E>>::Present(Seen::Null)) == Err::<
            Option<Decimal>,
            Failure<E>,
        >(Failure::Invalid(unexpected_null())),
{
}

} // verus!
