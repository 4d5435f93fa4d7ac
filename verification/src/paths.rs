//! Absolute paths of definitions, and the test whether a resolved path is
//! one of them.

use vstd::prelude::*;

verus! {

/// The path of the transmute intrinsic.
pub const TRANSMUTE: [&'static str; 3] = ["core", "intrinsics", "transmute"];

/// Whether a resolved path and a given one are the same path: as many
/// segments, and each segment the same text.
pub open spec fn same_path(resolved: Seq<String>, path: Seq<&str>) -> bool {
    &&& resolved.len() == path.len()
    &&& forall|i: int| 0 <= i < resolved.len() ==> (#[trigger] resolved[i])@ == path[i]@
}

/// Tests whether `resolved` is exactly `path`.
pub fn match_def_path(resolved: &Vec<String>, path: &[&str]) -> (r: bool)
    ensures
        r == same_path(resolved@, path@),
{
    if resolved.len() != path.len() {
        return false;
    }
    let mut i: usize = 0;
    while i < resolved.len()
        invariant
            i <= resolved.len(),
            resolved.len() == path.len(),
            forall|j: int| 0 <= j < i ==> (#[trigger] resolved@[j])@ == path@[j]@,
        decreases resolved.len() - i,
    {
        let segment = String::from_str(path[i]);
        if resolved[i] != segment {
            return false;
        }
        i += 1;
    }
    true
}

/// Tests whether `resolved` is the path of the transmute intrinsic.
pub fn is_transmute(resolved: &Vec<String>) -> (r: bool)
    ensures
        r == same_path(resolved@, TRANSMUTE@),
{
    match_def_path(resolved, &TRANSMUTE)
}

} // verus!
