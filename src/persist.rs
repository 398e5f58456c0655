//! Decisions of the persisted model layout: a directory holding the
//! configuration, and one binary file per trainable tensor of each layer.
use vstd::prelude::*;

verus! {

/// What saving a model into a directory does.
#[derive(PartialEq, Eq, Structural, Clone, Copy, Debug)]
pub enum SaveAction {
    /// The directory does not exist: create it.
    Create,
    /// The directory exists and may be overwritten: remove it recursively,
    /// then create it afresh.
    ReplaceExisting,
    /// The directory exists and may not be overwritten: fail.
    Refuse,
}

/// Decides how to save into a directory that `exists` or not.
pub fn save_action(exists: bool, overwrite: bool) -> (r: SaveAction)
    ensures
        !exists ==> r == SaveAction::Create,
        exists && overwrite ==> r == SaveAction::ReplaceExisting,
        exists && !overwrite ==> r == SaveAction::Refuse,
{
    if !exists {
        SaveAction::Create
    } else if overwrite {
        SaveAction::ReplaceExisting
    } else {
        SaveAction::Refuse
    }
}

/// How many of a layer's part files are read back: the parts are numbered
/// from zero, and reading stops at the first number with no file.
pub fn parts_to_read(present: &Vec<bool>) -> (r: usize)
    ensures
        r <= present@.len(),
        forall|i: int| 0 <= i < r ==> #[trigger] present@[i],
        r < present@.len() ==> !present@[r as int],
{
    let mut i: usize = 0;
    while i < present.len() && present[i]
        invariant
            0 <= i <= present@.len(),
            forall|j: int| 0 <= j < i ==> #[trigger] present@[j],
        decreases present@.len() - i,
    {
        i = i + 1;
    }
    i
}

} // verus!
