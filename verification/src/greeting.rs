//! The greeting handler: a fixed sentence around the caller's name.

use vstd::prelude::*;
use vstd::string::StringExecFns;

verus! {

/// The exact text the greeting handler answers for a caller named `name`.
pub open spec fn greeting_text(name: Seq<char>) -> Seq<char> {
    "Hello, "@ + name + "! You've been greeted from Rust!"@
}

/// Builds the greeting for `name`, character for character.
pub fn greet(name: &str) -> (r: String)
    ensures
        r@ == greeting_text(name@),
{
    "Hello, ".to_owned().concat(name).concat("! You've been greeted from Rust!")
}

} // verus!
