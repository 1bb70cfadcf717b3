//! The trivial greeting command.

use vstd::prelude::*;
use vstd::string::StringExecFns;

verus! {

/// The greeting returned for `name`.
pub open spec fn greeting_spec(name: Seq<char>) -> Seq<char> {
    "Hello, "@ + name + "! You've been greeted from Rust!"@
}

/// Builds the greeting for `name`.
pub fn greet(name: &str) -> (r: String)
    ensures
        r@ == greeting_spec(name@),
{
    let mut m: String = String::from_str("Hello, ");
    m.append(name);
    m.append("! You've been greeted from Rust!");
    m
}

} // verus!
