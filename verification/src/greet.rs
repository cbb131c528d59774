//! The one invocable command of the shell: a deterministic greeting.

use vstd::prelude::*;
use vstd::string::StringExecFns;

verus! {

/// The greeting returned for a given name: the name spliced between two
/// fixed pieces of text, with no trimming or other transformation.
pub open spec fn greeting_of(name: Seq<char>) -> Seq<char> {
    "Hello, "@ + name + "! You've been greeted from Rust!"@
}

/// Format the greeting for `name`. Pure: no side effects, no errors, and
/// every input string is accepted as it is.
pub fn greet(name: &str) -> (r: String)
    ensures
        r@ == greeting_of(name@),
{
    let mut r = String::from_str("Hello, ");
    r.append(name);
    r.append("! You've been greeted from Rust!");
    r
}

} // verus!
