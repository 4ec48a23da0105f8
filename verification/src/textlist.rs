//! Lists of strings and their models.

use crate::text::Text;
use vstd::prelude::*;

verus! {

/// The models of a list of strings.
#[verifier::opaque]
pub open spec fn texts(strings: Seq<String>) -> Seq<Text> {
    Seq::new(strings.len(), |i: int| strings[i]@)
}

/// A list of strings has as many models as strings.
pub broadcast proof fn lemma_texts_len(strings: Seq<String>)
    ensures
        #[trigger] texts(strings).len() == strings.len(),
{
    reveal(texts);
}

/// Each string of a list has its own model.
pub broadcast proof fn lemma_texts_index(strings: Seq<String>, i: int)
    requires
        0 <= i < strings.len(),
    ensures
        (#[trigger] texts(strings)[i]) == strings[i]@,
{
    reveal(texts);
}

pub broadcast group group_texts {
    lemma_texts_len,
    lemma_texts_index,
}

} // verus!
