//! Reads of the process environment.

use vstd::prelude::*;

verus! {

/// Calls `envmnt::exists`: whether the process environment holds a variable
/// of this name right now, with a value that is valid Unicode. The answer
/// depends on the environment, so nothing is claimed of it.
#[verifier::external_body]
pub(crate) fn is_set(name: &str) -> (yes: bool) {
    envmnt::exists(name)
}

/// Calls `envmnt::get_or`: the variable's value right now, or `fallback`
/// where the variable is not set. The answer depends on the environment, so
/// nothing is claimed of it.
#[verifier::external_body]
pub(crate) fn value_or(name: &str, fallback: &str) -> (value: String) {
    envmnt::get_or(name, fallback)
}

/// Looks a variable up in the process environment. A variable whose value
/// is not valid Unicode counts as not set. The lookup takes two reads, which
/// are not one step: a variable that is removed between them reads as set
/// and empty.
pub fn read_variable(name: &str) -> (value: Option<String>) {
    if is_set(name) {
        Some(value_or(name, ""))
    } else {
        None
    }
}

} // verus!
