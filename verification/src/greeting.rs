//! The greeting command: a pure function of the caller's name.

use vstd::prelude::*;
use vstd::string::*;

verus! {

/// The text that precedes the name in a greeting.
pub open spec fn greeting_prefix() -> Seq<char> {
    "Hello, "@
}

/// The text that follows the name in a greeting.
pub open spec fn greeting_suffix() -> Seq<char> {
    "! You've been greeted from Rust!"@
}

/// The greeting for `name`: the prefix, the name as given, the suffix.
pub open spec fn greeting(name: Seq<char>) -> Seq<char> {
    greeting_prefix() + name + greeting_suffix()
}

/// Greets `name`. Every name is accepted and none is altered.
pub fn greet(name: &str) -> (text: String)
    ensures
        text@ == greeting(name@),
{
    let text = String::from_str("Hello, ");
    let text = text.concat(name);
    text.concat("! You've been greeted from Rust!")
}

} // verus!
