//! Field rules for decoded data: what becomes of one field's value between
//! the wire and a typed record.
//!
//! * [`boolean`]: singletons that decode from one boolean literal only;
//! * [`detrim`]: trimming of strings, of lists and of sets of strings, and
//!   the rejection of strings that are blank;
//! * [`decimal`]: decimal fields that may be missing, null or present;
//! * [`error`]: the failures that the rules raise.
//!
//! A rule takes what a decoder has read for the field, or the decoder's
//! failure, and gives the field's value or a failure. It calls no decoder
//! and writes to no encoder: the adapter that does so hands the rule plain
//! values and acts on what comes back.

pub mod boolean;
pub mod decimal;
pub mod detrim;
pub mod error;

pub use crate::boolean::{False, True};
