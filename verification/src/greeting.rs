//! The greeting command: format a greeting for a frontend-supplied name.

use vstd::prelude::*;
use vstd::string::StringExecFns;

verus! {

/// The greeting for `name`: the text `Hello, `, then the name, then `!`.
pub open spec fn greeting(name: Seq<char>) -> Seq<char> {
    "Hello, "@ + name + "!"@
}

/// Format the greeting returned to the frontend. For every input string the
/// result is exactly `Hello, ` followed by the name and a closing `!`; an
/// empty name yields `Hello, !`.
pub fn greet(name: &str) -> (r: String)
    ensures
        r@ == greeting(name@),
{
    let mut r = String::from_str("Hello, ");
    r.append(name);
    r.append("!");
    r
}

} // verus!
