//! Trimming of lists of strings.

use crate::detrim::std_text::trim;
use crate::detrim::whitespace::{lemma_trim_idempotent, trimmed};
use vstd::prelude::*;

verus! {

/// Each of `texts` trimmed, in the order given.
pub open spec fn trimmed_all(texts: Seq<Seq<char>>) -> Seq<Seq<char>> {
    texts.map_values(|text: Seq<char>| trimmed(text))
}

/// Trims each string of a decoded list in place: the list keeps its length,
/// its order and its duplicates. A failure of the decoder is passed on
/// unchanged.
pub fn vec_string<E>(decoded: Result<Vec<String>, E>) -> (r: Result<Vec<String>, E>)
    ensures
        match decoded {
            Ok(list) => r matches Ok(out) && out.deep_view() == trimmed_all(list.deep_view()),
            Err(err) => r == Err::<Vec<String>, E>(err),
        },
{
    let mut list = decoded?;
    let ghost given = list.deep_view();
    let mut i: usize = 0;
    while i < list.len()
        invariant
            i <= list.len(),
            list.len() == given.len(),
            forall|j: int| 0 <= j < i ==> list[j]@ == trimmed(#[trigger] given[j]),
            forall|j: int| i <= j < list.len() ==> list[j]@ == #[trigger] given[j],
        decreases list.len() - i,
    {
        let item = trim(list[i].as_str()).to_owned();
        list.set(i, item);
        i += 1;
    }
    assert(list.deep_view() =~= trimmed_all(given));
    Ok(list)
}

/// Trimming a list is trimming each string where it stands: the list keeps
/// its length and its order.
pub proof fn lemma_trimmed_all_in_place(texts: Seq<Seq<char>>)
    ensures
        trimmed_all(texts).len() == texts.len(),
        forall|i: int| 0 <= i < texts.len() ==> #[trigger] trimmed_all(texts)[i] == trimmed(texts[i]),
{
}

/// Trimming a list twice is trimming it once.
pub proof fn lemma_trimmed_all_idempotent(texts: Seq<Seq<char>>)
    ensures
        trimmed_all(trimmed_all(texts)) == trimmed_all(texts),
{
    assert forall|i: int| 0 <= i < texts.len() implies trimmed(#[trigger] trimmed_all(texts)[i])
        == trimmed(texts[i]) by {
        lemma_trim_idempotent(texts[i]);
    }
    assert(trimmed_all(trimmed_all(texts)) =~= trimmed_all(texts));
}

} // verus!
