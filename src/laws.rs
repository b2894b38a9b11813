//! Properties that relate the library's functions to one another.

use vstd::prelude::*;
use crate::browser_state::{is_toggle, toggled, Internal};
use crate::tree::{FsSnapshot, Sort, Tree, TreeOptions};
use crate::tree_build::built_from;

verus! {

/// Whether toggling `i` twice gives `o` back: always, but for a sort verb
/// while another sort is on (the verb switches to its own sort, then off)
/// and for "no sort" while a sort is on (it only switches sorting off).
pub open spec fn toggle_reversible(i: Internal, o: TreeOptions) -> bool {
    match i {
        Internal::SortByCount => o.sort == Sort::Count || o.sort == Sort::Unsorted,
        Internal::SortByDate => o.sort == Sort::Date || o.sort == Sort::Unsorted,
        Internal::SortBySize => o.sort == Sort::Size || o.sort == Sort::Unsorted,
        Internal::NoSort => o.sort == Sort::Unsorted,
        _ => true,
    }
}

/// Toggling an option twice gives the options back, for every toggling verb,
/// on the options where the verb is a two-state switch.
pub proof fn lemma_toggle_twice(i: Internal, o: TreeOptions)
    requires
        is_toggle(i),
        toggle_reversible(i, o),
    ensures
        toggled(i, toggled(i, o)) == o,
{
}

/// A tree built without the exhaustive flag never holds more lines than
/// the budget.
pub proof fn lemma_build_within_budget(t: Tree, fs: FsSnapshot, o: TreeOptions, max_lines: nat)
    requires
        max_lines >= 1,
        built_from(t, fs, o, max_lines, false),
    ensures
        t.lines@.len() <= max_lines,
{
}

} // verus!
