//! Tri-state decimal fields: a field may be missing from a record, hold the
//! null marker, or hold a decimal, and each shape of field admits two of the
//! three states or all of them.

pub mod double_option;
pub mod double_option_float;
pub mod double_option_str;
pub mod non_required;
pub mod non_required_float;
pub mod non_required_str;
pub mod nullable;
pub mod nullable_float;
pub mod nullable_str;
pub mod wire;
