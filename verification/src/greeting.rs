//! The line that the global greeting function produces.

use vstd::prelude::*;
use vstd::string::StringExecFns;

verus! {

/// The greeting for `name`, or for the world when no name is given.
pub open spec fn hello_text(name: Option<Seq<char>>) -> Seq<char> {
    match name {
        None => "Hello World!"@,
        Some(name) => "Hello "@ + name + "!"@,
    }
}

/// Builds the greeting line: `Hello World!` without a name, `Hello <name>!`
/// with one.
pub fn hello_line(name: Option<&str>) -> (line: String)
    ensures
        line@ == hello_text(
            match name {
                None => None,
                Some(name) => Some(name@),
            },
        ),
{
    match name {
        None => String::from_str("Hello World!"),
        Some(name) => {
            let mut line = String::from_str("Hello ");
            line.append(name);
            line.append("!");
            line
        },
    }
}

} // verus!
