//! The buffer-release function.

use vstd::prelude::*;

verus! {

/// What to do with a call of the release function.
#[derive(Clone, Copy, Debug, PartialEq, Eq, Structural)]
pub enum Release {
    /// Return at once: there is nothing to release.
    Skip,
    /// Hand the call on to the real release function.
    Forward,
}

/// The decision for a handle, given by its address: a null handle is
/// skipped, any other is handed on.
pub fn on_string_free(handle: usize) -> (release: Release)
    ensures
        release == if handle == 0 {
            Release::Skip
        } else {
            Release::Forward
        },
{
    if handle == 0 {
        Release::Skip
    } else {
        Release::Forward
    }
}

} // verus!
