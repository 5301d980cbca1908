use vstd::prelude::*;
use vstd::string::StringExecFns;

verus! {

/// How a progress line is shown: informational, or a success.
#[derive(Clone, Copy, Debug, PartialEq, Eq, Structural)]
pub enum LogCategory {
    Info,
    Success,
}

/// The title of a progress line: `[title]`.
pub fn bracketed(title: &str) -> (r: String)
    ensures
        r@ == "["@ + title@ + "]"@,
{
    let mut r = String::from_str("[");
    r.append(title);
    r.append("]");
    r
}

} // verus!
