//! Trimming of sets of strings.

use crate::detrim::std_text::trim;
use crate::detrim::vec_string::trimmed_all;
use crate::detrim::whitespace::trimmed;
use vstd::hash_set::StringHashSet;
use vstd::prelude::*;
use vstd::string::StringSliceAdditionalSpecFns;
use vstd::utf8::encode_utf8_decode_utf8;
use vstd::seq_lib::seq_to_set_is_finite;

verus! {

/// The set of strings that `texts` trim to.
pub open spec fn trimmed_set(texts: Seq<Seq<char>>) -> Set<Seq<char>> {
    trimmed_all(texts).to_set()
}

/// A set of trimmed strings: no string occurs in it twice, and two strings
/// that differ only in the whitespace around them are one member.
#[derive(Debug)]
pub struct TrimmedSet {
    items: Vec<String>,
}

impl View for TrimmedSet {
    type V = Set<Seq<char>>;

    closed spec fn view(&self) -> Set<Seq<char>> {
        self.items.deep_view().to_set()
    }
}

/// Tells whether two strings hold the same characters, by their bytes.
fn same_text(a: &str, b: &str) -> (r: bool)
    ensures
        r == (a@ == b@),
{
    let left = a.as_bytes();
    let right = b.as_bytes();
    if left.len() != right.len() {
        return false;
    }
    let mut i: usize = 0;
    while i < left.len()
        invariant
            i <= left.len(),
            left.len() == right.len(),
            forall|j: int| 0 <= j < i ==> left[j] == right[j],
            left@ == a.spec_bytes(),
            right@ == b.spec_bytes(),
        decreases left.len() - i,
    {
        if left[i] != right[i] {
            return false;
        }
        i += 1;
    }
    proof {
        assert(left@ =~= right@);
        encode_utf8_decode_utf8(a@);
        encode_utf8_decode_utf8(b@);
    }
    true
}

impl TrimmedSet {
    #[verifier::type_invariant]
    spec fn well_formed(&self) -> bool {
        self.items.deep_view().no_duplicates()
    }

    /// The number of members.
    pub fn len(&self) -> (r: usize)
        ensures
            r == self@.len(),
            self@.finite(),
    {
        proof {
            use_type_invariant(self);
            self.items.deep_view().unique_seq_to_set();
            seq_to_set_is_finite(self.items.deep_view());
        }
        self.items.len()
    }

    /// Whether the set has no member.
    pub fn is_empty(&self) -> (r: bool)
        ensures
            r == (self@ == Set::<Seq<char>>::empty()),
    {
        proof {
            use_type_invariant(self);
            self.items.deep_view().unique_seq_to_set();
            if self.items.len() == 0 {
                assert(self@ =~= Set::<Seq<char>>::empty());
            }
        }
        self.items.len() == 0
    }

    /// Whether `text` is a member.
    pub fn contains(&self, text: &str) -> (r: bool)
        ensures
            r == self@.contains(text@),
    {
        let ghost members = self.items.deep_view();
        let mut i: usize = 0;
        while i < self.items.len()
            invariant
                i <= self.items.len(),
                members == self.items.deep_view(),
                forall|j: int| 0 <= j < i ==> members[j] != text@,
            decreases self.items.len() - i,
        {
            if same_text(self.items[i].as_str(), text) {
                assert(members[i as int] == text@);
                return true;
            }
            i += 1;
        }
        false
    }

    /// The members, each once, in no order that is promised.
    pub fn into_vec(self) -> (r: Vec<String>)
        ensures
            r.deep_view().to_set() == self@,
            r.deep_view().no_duplicates(),
    {
        proof {
            use_type_invariant(&self);
        }
        self.items
    }
}

/// What is known of the set while the first `done` strings have been taken in.
spec fn collected(items: Vec<String>, index: StringHashSet, given: Seq<Seq<char>>, done: int) -> bool {
    &&& items.deep_view().no_duplicates()
    &&& index@ == items.deep_view().to_set()
    &&& index@ == trimmed_set(given.take(done))
}

/// Taking in one more string adds what it trims to.
proof fn lemma_take_in(given: Seq<Seq<char>>, done: int)
    requires
        0 <= done < given.len(),
    ensures
        trimmed_set(given.take(done + 1)) == trimmed_set(given.take(done)).insert(
            trimmed(given[done]),
        ),
{
    let before = given.take(done);
    assert(given.take(done + 1) =~= before.push(given[done]));
    before.lemma_push_map_commute(|text: Seq<char>| trimmed(text), given[done]);
    trimmed_all(before).lemma_push_to_set_commute(trimmed(given[done]));
}

/// Trims each string of a decoded list and collects the results into a set:
/// strings that are equal once trimmed are one member. A failure of the
/// decoder is passed on unchanged.
pub fn hashset_string<E>(decoded: Result<Vec<String>, E>) -> (r: Result<TrimmedSet, E>)
    ensures
        match decoded {
            Ok(list) => r matches Ok(out) && out@ == trimmed_set(list.deep_view()),
            Err(err) => r == Err::<TrimmedSet, E>(err),
        },
{
    let list = decoded?;
    let ghost given = list.deep_view();
    let mut items: Vec<String> = Vec::new();
    let mut index = StringHashSet::new();
    let mut i: usize = 0;
    proof {
        assert(items.deep_view() =~= Seq::<Seq<char>>::empty());
        assert(trimmed_all(given.take(0)) =~= Seq::<Seq<char>>::empty());
        assert(items.deep_view().to_set() =~= Set::<Seq<char>>::empty());
    }
    while i < list.len()
        invariant
            i <= list.len(),
            given == list.deep_view(),
            collected(items, index, given, i as int),
        decreases list.len() - i,
    {
        let item = trim(list[i].as_str()).to_owned();
        let ghost before = items.deep_view();
        let ghost members = index@;
        proof {
            lemma_take_in(given, i as int);
            assert(item@ == trimmed(given[i as int]));
        }
        if index.insert(item.clone()) {
            items.push(item);
            proof {
                assert(items.deep_view() =~= before.push(item@));
                before.lemma_push_to_set_commute(item@);
                assert(!before.contains(item@));
            }
        } else {
            proof {
                assert(members.insert(item@) =~= members);
            }
        }
        i += 1;
    }
    assert(given.take(i as int) =~= given);
    Ok(TrimmedSet { items })
}

/// The set holds what each string of the list trims to and nothing else, so
/// strings that differ only in the whitespace around them are one member,
/// and the set has at most as many members as the list has strings.
pub proof fn lemma_trimmed_set_members(texts: Seq<Seq<char>>)
    ensures
        forall|i: int| 0 <= i < texts.len() ==> trimmed_set(texts).contains(#[trigger] trimmed(texts[i])),
        forall|member: Seq<char>| #[trigger]
            trimmed_set(texts).contains(member) ==> exists|i: int|
                0 <= i < texts.len() && member == trimmed(#[trigger] texts[i]),
        trimmed_set(texts).finite(),
        trimmed_set(texts).len() <= texts.len(),
{
    let all = trimmed_all(texts);
    assert forall|i: int| 0 <= i < texts.len() implies trimmed_set(texts).contains(
        #[trigger] trimmed(texts[i]),
    ) by {
        assert(all[i] == trimmed(texts[i]));
    }
    assert forall|member: Seq<char>| #[trigger] trimmed_set(texts).contains(member) implies exists|
        i: int,
    |
        0 <= i < texts.len() && member == trimmed(#[trigger] texts[i]) by {
        let i = choose|i: int| 0 <= i < all.len() && all[i] == member;
        assert(member == trimmed(texts[i]));
    }
    seq_to_set_is_finite(all);
    all.lemma_cardinality_of_set();
}

} // verus!
