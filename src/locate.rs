//! Choice of the built executable among the entries of the profile's output
//! directory.

use vstd::prelude::*;

verus! {

/// What the locator reads of one directory entry.
#[derive(Debug, Clone)]
pub struct DirEntryInfo {
    pub path: String,
    pub is_file: bool,
    pub is_executable: bool,
}

/// A regular file with the execute permission.
pub open spec fn qualifies(e: DirEntryInfo) -> bool {
    e.is_file && e.is_executable
}

/// The index of the first qualifying entry, in the order given (which is the
/// directory's own iteration order, not a sorted one), or `None` where no
/// entry qualifies.
pub fn locate(entries: &Vec<DirEntryInfo>) -> (r: Option<usize>)
    ensures
        match r {
            Some(i) => i < entries@.len() && qualifies(entries@[i as int]) && forall|j: int|
                0 <= j < i ==> !qualifies(#[trigger] entries@[j]),
            None => forall|j: int| 0 <= j < entries@.len() ==> !qualifies(#[trigger] entries@[j]),
        },
{
    let mut i: usize = 0;
    while i < entries.len()
        invariant
            i <= entries@.len(),
            forall|j: int| 0 <= j < i ==> !qualifies(#[trigger] entries@[j]),
        decreases entries@.len() - i,
    {
        if entries[i].is_file && entries[i].is_executable {
            return Some(i);
        }
        i = i + 1;
    }
    None
}

} // verus!
