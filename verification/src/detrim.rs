//! Trimming rules for decoded strings.

mod cow_str;
mod hashset_string;
mod std_text;
mod string;
mod string_non_empty;
mod vec_string;
pub mod whitespace;

pub use crate::detrim::cow_str::{cow_str, Source};
pub use crate::detrim::hashset_string::{
    hashset_string, lemma_trimmed_set_members, trimmed_set, TrimmedSet,
};
pub use crate::detrim::string::{option_string, option_text, str, string, trimmed_option};
pub use crate::detrim::string_non_empty::{
    empty_string, lemma_blank_is_nothing, lemma_non_empty_is_trimmed, non_empty,
    non_empty_option, option_string_non_empty, string_non_empty,
};
pub use crate::detrim::vec_string::{
    lemma_trimmed_all_idempotent, lemma_trimmed_all_in_place, trimmed_all, vec_string,
};
