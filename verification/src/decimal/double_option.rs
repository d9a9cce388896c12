//! Decimal fields that may be missing and may be null, the two told apart.

use crate::decimal::nullable;
use crate::decimal::wire::{Field, Form, Seen, Written};
use crate::error::Failure;
use rust_decimal::Decimal;
use vstd::prelude::*;

verus! {

/// What the field's rule makes of what stands under the key. The rule runs
/// only where the key occurs, so the outcome is always present: it holds no
/// decimal for the null marker, and for a value the decimal that the scalar
/// decoder read.
pub open spec fn decoded<E>(seen: Seen<Result<Decimal, E>>) -> Result<
    Option<Option<Decimal>>,
    Failure<E>,
> {
    match nullable::decoded(seen) {
        Ok(inner) => Ok(Some(inner)),
        Err(failure) => Err(failure),
    }
}

/// What decoding a record makes of the field. That the key does not occur is
/// seen by the record decoder, never by the field's rule.
pub open spec fn decoded_field<E>(field: Field<Result<Decimal, E>>) -> Result<
    Option<Option<Decimal>>,
    Failure<E>,
> {
    match field {
        Field::Absent => Ok(None),
        Field::Present(seen) => decoded(seen),
    }
}

/// What is written for the field: nothing for an absent value, the null
/// marker for a present one without a decimal, else the decimal.
pub open spec fn written(value: Option<Option<Decimal>>, form: Form) -> Written {
    match value {
        None => Written::Nothing,
        Some(inner) => nullable::written(inner, form),
    }
}

/// Decodes the field from what stands under its key.
///
/// A failure of the scalar decoder is passed on unchanged.
pub fn deserialize<E>(seen: Seen<Result<Decimal, E>>) -> (r: Result<
    Option<Option<Decimal>>,
    Failure<E>,
>)
    ensures
        r == decoded(seen),
{
    match nullable::deserialize(seen) {
        Ok(inner) => Ok(Some(inner)),
        Err(failure) => Err(failure),
    }
}

/// Decodes the field from a record: without the key the value is absent.
pub fn deserialize_field<E>(field: Field<Result<Decimal, E>>) -> (r: Result<
    Option<Option<Decimal>>,
    Failure<E>,
>)
    ensures
        r == decoded_field(field),
{
    match field {
        Field::Absent => Ok(None),
        Field::Present(seen) => deserialize(seen),
    }
}

/// Says what to write for the field.
pub fn serialize(value: &Option<Option<Decimal>>, form: Form) -> (r: Written)
    ensures
        r == written(*value, form),
{
    match value {
        None => Written::Nothing,
        Some(inner) => nullable::serialize(inner, form),
    }
}

/// Each of the three states is written in a way of its own, and what was
/// written decodes to the state it was written for.
pub proof fn lemma_round_trip<E>(value: Option<Option<Decimal>>, form: Form)
    ensures
        value is None <==> written(value, form) == Written::Nothing,
        value == Some(None::<Decimal>) <==> written(value, form) == Written::Null,
        decoded_field(written(value, form).read_back::<E>()) == Ok::<
            Option<Option<Decimal>>,
            Failure<E>,
        >(value),
{
}

/// A field that decodes is written back as it was found: left out where the
/// key did not occur, as the null marker where that stood under the key,
/// and as the decimal where one did.
pub proof fn lemma_written_as_found<E>(field: Field<Result<Decimal, E>>, form: Form)
    requires
        decoded_field(field) is Ok,
    ensures
        written(decoded_field(field)->Ok_0, form).read_back::<E>() == field,
{
}

/// The rule alone never yields an absent value: only the record decoder
/// does, for a record without the key.
pub proof fn lemma_absence_is_the_records<E>(seen: Seen<Result<Decimal, E>>)
    ensures
        decoded(seen) != Ok::<Option<Option<Decimal>>, Failure<E>>(None),
        decoded_field(Field::<Result<Decimal, E>>::Absent) == Ok::<
            Option<Option<Decimal>>,
            Failure<E>,
        >(None),
{
}

} // verus!
