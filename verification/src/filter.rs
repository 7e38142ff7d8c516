//! The ignore list: names whose chat is not relayed.

use vstd::prelude::*;

verus! {

/// The names of a list, each as its characters.
pub open spec fn names(list: Seq<String>) -> Seq<Seq<char>> {
    list.map_values(|s: String| s@)
}

/// Whether `name` is on the ignore list: some entry is the same string,
/// letter for letter.
pub fn is_ignored(name: &String, list: &Vec<String>) -> (ignored: bool)
    ensures
        ignored == names(list@).contains(name@),
{
    let mut i: usize = 0;
    while i < list.len()
        invariant
            i <= list.len(),
            forall|j: int| 0 <= j < i ==> names(list@)[j] != name@,
        decreases list.len() - i,
    {
        if list[i] == *name {
            assert(names(list@)[i as int] == name@);
            return true;
        }
        i = i + 1;
    }
    false
}

} // verus!
