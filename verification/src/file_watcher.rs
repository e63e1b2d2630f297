//! Matching file-system events against the layout file being edited.

use vstd::prelude::*;

verus! {

/// Whether an event concerns the source file: both paths, in their
/// canonical form (each falls back to itself where it cannot be
/// canonicalized), are equal. Without a source file nothing matches.
pub fn path_matches(event_path: &String, source: Option<&String>) -> (m: bool)
    ensures
        m == match source {
            Some(src) => src@ == event_path@,
            None => false,
        },
{
    match source {
        Some(src) => *event_path == *src,
        None => false,
    }
}

} // verus!
