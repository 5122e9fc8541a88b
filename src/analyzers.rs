//! Analyses over the representations; none is written yet.

use vstd::prelude::*;

verus! {

/// States that no analysis is written yet.
pub fn placeholder() -> (r: &'static str)
    ensures
        r@ == "Not yet implemented"@,
{
    "Not yet implemented"
}

} // verus!
