//! The selection of tags, and what a pressed button does to it.
//!
//! A selection is a list of tag indices. A press on a tag's button toggles
//! that tag: it leaves the selection if it was in it, and joins it if it
//! was not.

use vstd::prelude::*;

verus! {

/// `at` is the first place where `id` stands in `values`.
pub open spec fn first_at(values: Seq<i32>, id: i32, at: int) -> bool {
    &&& 0 <= at < values.len()
    &&& values[at] == id
    &&& forall|j: int| 0 <= j < at ==> values[j] != id
}

/// The selection after the button `id` was pressed on a keyboard that showed
/// `values`: a selected tag leaves the selection (its first occurrence does),
/// a tag that was not selected joins it at the end, and an id below zero,
/// which is no tag, changes nothing.
pub open spec fn toggled(values: Seq<i32>, id: i32) -> Seq<i32> {
    if values.contains(id) {
        values.remove(choose|at: int| first_at(values, id, at))
    } else if id >= 0 {
        values.push(id)
    } else {
        values
    }
}

/// A selection is valid for a list of `n` tags when no index stands in it
/// twice and each one names a tag of the list.
pub open spec fn valid_selection(values: Seq<i32>, n: nat) -> bool {
    &&& values.no_duplicates()
    &&& forall|i: int| 0 <= i < values.len() ==> 0 <= #[trigger] values[i] < n
}

/// A copy of `values`.
pub(crate) fn copy_values(values: &Vec<i32>) -> (copy: Vec<i32>)
    ensures
        copy@ == values@,
{
    let mut copy: Vec<i32> = Vec::new();
    let mut i: usize = 0;
    while i < values.len()
        invariant
            i <= values.len(),
            copy@ == values@.subrange(0, i as int),
        decreases values.len() - i,
    {
        copy.push(values[i]);
        i += 1;
    }
    copy
}

/// Whether `id` is among `values`.
pub fn is_selected(values: &Vec<i32>, id: i32) -> (found: bool)
    ensures
        found == values@.contains(id),
{
    let mut i: usize = 0;
    while i < values.len()
        invariant
            i <= values.len(),
            forall|j: int| 0 <= j < i ==> values@[j] != id,
        decreases values.len() - i,
    {
        if values[i] == id {
            return true;
        }
        i += 1;
    }
    false
}

/// Any two first places of `id` in `values` are the same place.
proof fn lemma_first_at_is_unique(values: Seq<i32>, id: i32, a: int, b: int)
    requires
        first_at(values, id, a),
        first_at(values, id, b),
    ensures
        a == b,
{
}

/// Applies the press of button `id` to the selection `values`.
pub fn toggle(values: &Vec<i32>, id: i32) -> (new_values: Vec<i32>)
    ensures
        new_values@ == toggled(values@, id),
{
    let mut new_values = copy_values(values);
    let mut i: usize = 0;
    while i < values.len()
        invariant
            i <= values.len(),
            new_values@ == values@,
            forall|j: int| 0 <= j < i ==> values@[j] != id,
        decreases values.len() - i,
    {
        if values[i] == id {
            proof {
                let at = choose|at: int| first_at(values@, id, at);
                assert(first_at(values@, id, i as int));
                lemma_first_at_is_unique(values@, id, at, i as int);
            }
            new_values.remove(i);
            return new_values;
        }
        i += 1;
    }
    if id >= 0 {
        new_values.push(id);
    }
    new_values
}

/// An id that occurs in `values` has a first place there.
proof fn lemma_first_at_exists(values: Seq<i32>, id: i32, i: int)
    requires
        0 <= i < values.len(),
        values[i] == id,
    ensures
        exists|at: int| first_at(values, id, at),
    decreases i,
{
    if exists|j: int| 0 <= j < i && values[j] == id {
        let j = choose|j: int| 0 <= j < i && values[j] == id;
        lemma_first_at_exists(values, id, j);
    } else {
        assert(first_at(values, id, i));
    }
}

/// A press removes the first occurrence of a selected id.
proof fn lemma_toggled_selected(values: Seq<i32>, id: i32) -> (at: int)
    requires
        values.contains(id),
    ensures
        first_at(values, id, at),
        toggled(values, id) == values.remove(at),
{
    let i = choose|i: int| 0 <= i < values.len() && values[i] == id;
    lemma_first_at_exists(values, id, i);
    choose|at: int| first_at(values, id, at)
}

/// A press changes the membership of the pressed tag and of no other index:
/// in a selection without repetitions, the tag `id` is selected after the
/// press exactly if it was not before, and every other index is selected
/// after the press exactly if it was before. An id below zero is never
/// selected after the press. No repetition arises.
pub proof fn lemma_toggle_flips_one(values: Seq<i32>, id: i32)
    requires
        values.no_duplicates(),
    ensures
        toggled(values, id).contains(id) == (id >= 0 && !values.contains(id)),
        forall|k: i32| k != id ==> toggled(values, id).contains(k) == values.contains(k),
        toggled(values, id).no_duplicates(),
{
    let after = toggled(values, id);
    if values.contains(id) {
        let at = lemma_toggled_selected(values, id);
        assert forall|k: i32| k != id && values.contains(k) implies after.contains(k) by {
            let i = choose|i: int| 0 <= i < values.len() && values[i] == k;
            if i < at {
                assert(after[i] == k);
            } else {
                assert(after[i - 1] == k);
            }
        }
    } else if id >= 0 {
        assert(after[values.len() as int] == id);
        assert forall|k: i32| values.contains(k) implies after.contains(k) by {
            let i = choose|i: int| 0 <= i < values.len() && values[i] == k;
            assert(after[i] == k);
        }
    }
}

/// Pressing the same tag twice gives back the selection that was there: the
/// same indices are selected, and where the tag was not selected at first the
/// order is the same too.
pub proof fn lemma_toggle_twice(values: Seq<i32>, id: i32)
    requires
        values.no_duplicates(),
        id >= 0,
    ensures
        toggled(toggled(values, id), id).to_set() == values.to_set(),
        toggled(toggled(values, id), id).no_duplicates(),
        !values.contains(id) ==> toggled(toggled(values, id), id) == values,
{
    let once = toggled(values, id);
    lemma_toggle_flips_one(values, id);
    lemma_toggle_flips_one(once, id);
    if !values.contains(id) {
        let at = lemma_toggled_selected(once, id);
        lemma_first_at_is_unique(once, id, at, values.len() as int);
    }
}

/// A valid selection stays valid under the press of any button of the
/// keyboard: of a tag of the list, of the save button, or of none.
pub proof fn lemma_toggle_keeps_valid(values: Seq<i32>, id: i32, n: nat)
    requires
        valid_selection(values, n),
        id < n,
    ensures
        valid_selection(toggled(values, id), n),
{
    lemma_toggle_flips_one(values, id);
    if values.contains(id) {
        let at = lemma_toggled_selected(values, id);
    }
}

} // verus!
