//! The greeting shown when the front end first calls in.

use vstd::prelude::*;
use vstd::string::StringExecFns;

verus! {

/// Greets `name`.
pub fn greet(name: &str) -> (greeting: String)
    ensures
        greeting@ == "Hello, "@ + name@ + "! You've been greeted from Rust!"@,
{
    String::from_str("Hello, ").concat(name).concat("! You've been greeted from Rust!")
}

} // verus!
