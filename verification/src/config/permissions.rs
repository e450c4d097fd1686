//! The owner-only rule for the config file: no permission bit for group
//! or others.
use vstd::prelude::*;

verus! {

/// Whether a Unix mode grants nothing to group or others.
pub fn is_owner_only(mode: u32) -> (r: bool)
    ensures
        r == (mode & 0o077 == 0),
{
    mode & 0o077 == 0
}

} // verus!
