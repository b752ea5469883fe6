//! Exclusion of version-control metadata directories.
//!
//! Paths are handled as their sequence of components; a path is excluded
//! when any component equals the (single, fixed) excluded directory name.
//! The exclusion applies to every file discovered by a directory walk,
//! whatever its nesting depth.

use vstd::prelude::*;

verus! {

/// The one excluded directory name: version-control metadata.
pub open spec fn excluded_name() -> Seq<char> {
    ".git"@
}

/// Some component of `segments` equals the excluded name.
pub open spec fn excluded_spec(segments: Seq<Seq<char>>) -> bool {
    exists|i: int| 0 <= i < segments.len() && segments[i] == excluded_name()
}

/// Whether a path, given as its components, lies under the excluded
/// directory name.
pub fn is_excluded(segments: &Vec<String>) -> (r: bool)
    ensures
        r == excluded_spec(segments.deep_view()),
{
    let excluded: String = String::from_str(".git");
    let mut idx: usize = 0;
    while idx < segments.len()
        invariant
            idx <= segments.len(),
            excluded@ == excluded_name(),
            forall|i: int| 0 <= i < idx ==> segments.deep_view()[i] != excluded_name(),
        decreases segments.len() - idx,
    {
        if segments[idx] == excluded {
            assert(segments.deep_view()[idx as int] == excluded_name());
            return true;
        }
        idx += 1;
    }
    false
}

} // verus!
