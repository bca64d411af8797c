//! Small helpers on texts and lists of texts.

use vstd::prelude::*;

verus! {

/// Whether two texts hold the same characters.
pub fn same_text(a: &str, b: &str) -> (same: bool)
    ensures
        same == (a@ == b@),
{
    a.to_owned() == b.to_owned()
}

/// A copy of a list of texts.
pub fn clone_texts(texts: &Vec<String>) -> (copy: Vec<String>)
    ensures
        copy@ == texts@,
{
    let mut copy: Vec<String> = Vec::new();
    let mut i: usize = 0;
    while i < texts.len()
        invariant
            i <= texts@.len(),
            copy@ == texts@.take(i as int),
        decreases texts@.len() - i,
    {
        copy.push(texts[i].clone());
        assert(copy@ =~= texts@.take(i + 1));
        i = i + 1;
    }
    assert(texts@.take(i as int) =~= texts@);
    copy
}

/// Whether the text at `i` equals `needle` and none before it does.
pub open spec fn is_first(texts: Seq<Seq<char>>, needle: Seq<char>, i: int) -> bool {
    &&& 0 <= i < texts.len()
    &&& texts[i] == needle
    &&& forall|j: int| 0 <= j < i ==> #[trigger] texts[j] != needle
}

/// The position of the first text that equals `needle`, where there is one.
pub open spec fn first_of(texts: Seq<Seq<char>>, needle: Seq<char>) -> int {
    choose|i: int| is_first(texts, needle, i)
}

/// There is one first position at most.
pub proof fn lemma_first_is_unique(texts: Seq<Seq<char>>, needle: Seq<char>, i: int)
    requires
        is_first(texts, needle, i),
    ensures
        first_of(texts, needle) == i,
{
    let chosen = first_of(texts, needle);
    assert(is_first(texts, needle, chosen));
    if chosen < i {
        assert(texts[chosen] != needle);
    }
    if i < chosen {
        assert(texts[i] != needle);
    }
}

/// The position of the first text that equals `needle`.
pub fn position(texts: &Vec<String>, needle: &str) -> (found: Option<usize>)
    ensures
        match found {
            Some(i) => is_first(texts.deep_view(), needle@, i as int),
            None => !texts.deep_view().contains(needle@),
        },
{
    let mut i: usize = 0;
    while i < texts.len()
        invariant
            i <= texts@.len(),
            forall|j: int| 0 <= j < i ==> #[trigger] texts.deep_view()[j] != needle@,
        decreases texts@.len() - i,
    {
        if same_text(texts[i].as_str(), needle) {
            return Some(i);
        }
        i = i + 1;
    }
    None
}

} // verus!
