//! The view of a list of strings.

use vstd::prelude::*;

verus! {

/// The texts of a list of strings, in order.
pub open spec fn texts(strings: Seq<String>) -> Seq<Seq<char>> {
    strings.map_values(|s: String| s@)
}

/// The text of a string that may be absent.
pub open spec fn option_text(string: Option<String>) -> Option<Seq<char>> {
    match string {
        Some(s) => Some(s@),
        None => None,
    }
}

/// The texts of a list of strings that may be absent.
pub open spec fn option_texts(strings: Option<Vec<String>>) -> Option<Seq<Seq<char>>> {
    match strings {
        Some(list) => Some(texts(list@)),
        None => None,
    }
}

/// Pushing a string appends its text.
pub proof fn lemma_texts_push(strings: Seq<String>, last: String)
    ensures
        texts(strings.push(last)) == texts(strings).push(last@),
{
    assert(texts(strings.push(last)) =~= texts(strings).push(last@));
}

} // verus!
