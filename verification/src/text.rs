//! Small helpers on texts and lists of texts.

use vstd::prelude::*;

verus! {

/// The position of the first text in `texts` that equals `wanted`, if there
/// is one.
pub open spec fn first_position(texts: Seq<Seq<char>>, wanted: Seq<char>) -> Option<int>
    decreases texts.len(),
{
    if texts.len() == 0 {
        None
    } else if texts[0] == wanted {
        Some(0)
    } else {
        match first_position(texts.drop_first(), wanted) {
            Some(i) => Some(i + 1),
            None => None,
        }
    }
}

/// A position that holds `wanted`, with no `wanted` before it, is the first
/// position of `wanted`.
pub proof fn lemma_first_position_found(texts: Seq<Seq<char>>, wanted: Seq<char>, i: int)
    requires
        0 <= i < texts.len(),
        texts[i] == wanted,
        forall|j: int| 0 <= j < i ==> texts[j] != wanted,
    ensures
        first_position(texts, wanted) == Some(i),
    decreases texts.len(),
{
    if i > 0 {
        let rest = texts.drop_first();
        lemma_first_position_found(rest, wanted, i - 1);
    }
}

/// Where no text equals `wanted`, it has no first position.
pub proof fn lemma_first_position_absent(texts: Seq<Seq<char>>, wanted: Seq<char>)
    requires
        forall|j: int| 0 <= j < texts.len() ==> texts[j] != wanted,
    ensures
        first_position(texts, wanted) is None,
    decreases texts.len(),
{
    if texts.len() > 0 {
        let rest = texts.drop_first();
        lemma_first_position_absent(rest, wanted);
    }
}

/// A first position lies within the list and holds the wanted text.
pub proof fn lemma_first_position_holds(texts: Seq<Seq<char>>, wanted: Seq<char>)
    ensures
        first_position(texts, wanted) matches Some(i) ==> 0 <= i < texts.len() && texts[i]
            == wanted,
    decreases texts.len(),
{
    if texts.len() > 0 && texts[0] != wanted {
        lemma_first_position_holds(texts.drop_first(), wanted);
    }
}

/// Whether `text` reads exactly as `literal`.
pub fn reads_as(text: &String, literal: &str) -> (same: bool)
    ensures
        same == (text@ == literal@),
{
    let other = literal.to_owned();
    *text == other
}

} // verus!
