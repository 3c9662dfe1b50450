//! Small helpers for messages.

use vstd::prelude::*;
use vstd::string::*;

verus! {

/// `prefix` with `rest` behind it.
pub(crate) fn joined(prefix: &str, rest: &str) -> (r: String)
    ensures
        r@ == prefix@ + rest@,
{
    String::from_str(prefix).concat(rest)
}

} // verus!
