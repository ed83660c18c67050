//! Lists of strings, as sequences of characters.

use vstd::prelude::*;

verus! {

/// The contents of a list of strings, in its order.
pub open spec fn string_views(items: Seq<String>) -> Seq<Seq<char>> {
    Seq::new(items.len(), |i: int| items[i]@)
}

/// Whether `text` reads as `word`.
pub fn reads(text: &String, word: &str) -> (r: bool)
    ensures
        r == (text@ == word@),
{
    *text == word.to_owned()
}

} // verus!
