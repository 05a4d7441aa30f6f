//! Finding a name in a list of names. Names are compared exactly, letter case
//! included, and of several equal names the first one counts.

use vstd::prelude::*;

verus! {

/// The index of the first name at or after `from` that equals `wanted`.
pub open spec fn first_named_from(names: Seq<Seq<char>>, wanted: Seq<char>, from: int) -> Option<
    int,
>
    decreases names.len() - from,
{
    if from < 0 || from >= names.len() {
        None
    } else if names[from] == wanted {
        Some(from)
    } else {
        first_named_from(names, wanted, from + 1)
    }
}

/// The index of the first name that equals `wanted`.
pub open spec fn first_named(names: Seq<Seq<char>>, wanted: Seq<char>) -> Option<int> {
    first_named_from(names, wanted, 0)
}

/// The names that `strings` holds.
pub open spec fn names_of(strings: Seq<String>) -> Seq<Seq<char>> {
    strings.map_values(|s: String| s@)
}

/// What `first_named_from` finds is a name that equals `wanted`, with none
/// that does between `from` and it; it finds nothing exactly when no name from
/// `from` on equals `wanted`.
pub proof fn lemma_first_named_from(names: Seq<Seq<char>>, wanted: Seq<char>, from: int)
    requires
        0 <= from,
    ensures
        match first_named_from(names, wanted, from) {
            Some(i) => {
                &&& from <= i < names.len()
                &&& names[i] == wanted
                &&& forall|j: int| from <= j < i ==> names[j] != wanted
            },
            None => forall|j: int| from <= j < names.len() ==> names[j] != wanted,
        },
    decreases names.len() - from,
{
    if from < names.len() && names[from] != wanted {
        lemma_first_named_from(names, wanted, from + 1);
    }
}

/// The index of the first of `names` that equals `wanted`.
pub fn position(names: &Vec<String>, wanted: &str) -> (index: Option<usize>)
    ensures
        match first_named(names_of(names@), wanted@) {
            Some(i) => index == Some(i as usize) && i < names@.len(),
            None => index is None,
        },
{
    let wanted_name = wanted.to_owned();
    let ghost all = names_of(names@);
    let mut i: usize = 0;
    while i < names.len()
        invariant
            i <= names@.len(),
            wanted_name@ == wanted@,
            all == names_of(names@),
            first_named(all, wanted@) == first_named_from(all, wanted@, i as int),
        decreases names@.len() - i,
    {
        if names[i] == wanted_name {
            return Some(i);
        }
        i = i + 1;
    }
    None
}

} // verus!
