//! Building composite storage keys out of `_`-separated parts.
//!
//! Every entity key in this crate is a concatenation of logical attributes
//! separated by a single underscore; the helpers here append one part at a
//! time so that each key function's contract can state the exact character
//! sequence it produces.

use vstd::prelude::*;
use vstd::string::StringExecFns;

verus! {

/// The separator placed between the parts of a composite key.
pub open spec fn sep() -> Seq<char> {
    "_"@
}

/// Appends the separator and then `part` to `out`.
pub fn push_part(out: &mut String, part: &str)
    ensures
        final(out)@ == old(out)@ + sep() + part@,
{
    out.append("_");
    out.append(part);
}

} // verus!
