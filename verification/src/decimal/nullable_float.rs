//! Decimal fields that are required and may be null, written as numeric literals.

use crate::decimal::nullable;
use crate::decimal::wire::{Form, Written};
use rust_decimal::Decimal;
use vstd::prelude::*;

pub use crate::decimal::nullable::{deserialize, deserialize_field};

verus! {

/// Says what to write for the field: a decimal goes out among numeric literals.
pub fn serialize(value: &Option<Decimal>) -> (r: Written)
    ensures
        r == nullable::written(*value, Form::Float),
{
    nullable::serialize(value, Form::Float)
}

} // verus!
