//! Laws of texts.
use vstd::prelude::*;

use crate::text::{find_from, occurs_at};

verus! {

/// A search gives the first place from its start on where the text stands, and
/// fails only where it stands nowhere.
pub proof fn law_searches_find_the_first(s: Seq<char>, needle: Seq<char>, from: int)
    requires
        0 <= from,
    ensures
        find_from(s, needle, from) matches Some(i) ==> from <= i && occurs_at(s, needle, i)
            && forall|j: int| from <= j < i ==> !#[trigger] occurs_at(s, needle, j),
        find_from(s, needle, from) is None ==> forall|j: int|
            from <= j ==> !#[trigger] occurs_at(s, needle, j),
    decreases s.len() + 1 - from,
{
    if from + needle.len() <= s.len() && !occurs_at(s, needle, from) {
        law_searches_find_the_first(s, needle, from + 1);
    }
}

} // verus!
