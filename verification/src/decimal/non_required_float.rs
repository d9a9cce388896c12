//! Decimal fields that may be missing and may not be null, written as numeric literals.

use crate::decimal::non_required;
use crate::decimal::wire::{Form, Written};
use rust_decimal::Decimal;
use vstd::prelude::*;

pub use crate::decimal::non_required::{deserialize, deserialize_field};

verus! {

/// Says what to write for the field: a decimal goes out among numeric literals.
pub fn serialize(value: &Option<Decimal>) -> (r: Written)
    ensures
        r == non_required::written(*value, Form::Float),
{
    non_required::serialize(value, Form::Float)
}

} // verus!
