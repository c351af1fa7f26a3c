//! Version of the curated character data.

use vstd::prelude::*;

verus! {

/// The Unicode version that the embedded character categories track.
pub fn get_char_table_version() -> (v: &'static str)
    ensures
        v@ == "16.0.0"@,
{
    "16.0.0"
}

} // verus!
