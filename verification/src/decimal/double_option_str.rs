//! Decimal fields that may be missing and may be null, written as text literals.

use crate::decimal::double_option;
use crate::decimal::wire::{Form, Written};
use rust_decimal::Decimal;
use vstd::prelude::*;

pub use crate::decimal::double_option::{deserialize, deserialize_field};

verus! {

/// Says what to write for the field: a decimal goes out among text literals.
pub fn serialize(value: &Option<Option<Decimal>>) -> (r: Written)
    ensures
        r == double_option::written(*value, Form::Str),
{
    double_option::serialize(value, Form::Str)
}

} // verus!
