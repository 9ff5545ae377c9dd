//! Diagnostic texts for the run.
//!
//! An input that cannot be opened is reported, not fatal: the runner prints
//! this message on standard error and goes on with the next input.

use vstd::prelude::*;
use vstd::string::StrSliceExecFns;
use vstd::string::StringExecFns;

verus! {

/// The warning for an input that could not be opened: the input's name and
/// the underlying cause.
pub fn open_failure_message(name: &str, cause: &str) -> (r: String)
    ensures
        r@ == "Failed to open "@ + name@ + ": "@ + cause@,
{
    let mut s = String::from_str("Failed to open ");
    s.append(name);
    s.append(": ");
    s.append(cause);
    s
}

} // verus!
