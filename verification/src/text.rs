//! Small string helpers shared by the modules.

use vstd::prelude::*;

verus! {

/// Whether two string slices hold the same characters.
pub fn str_eq(a: &str, b: &str) -> (r: bool)
    ensures
        r == (a@ == b@),
{
    let aa = String::from_str(a);
    let bb = String::from_str(b);
    aa == bb
}

} // verus!
