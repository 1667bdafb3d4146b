//! The usage banner text.

use vstd::prelude::*;
use vstd::string::StringExecFns;

verus! {

/// The usage banner shown when the program is invoked with no arguments or
/// with `-h` alone: `Usage: <arg0> <command> [args]`.
pub fn usage_line(arg0: &str) -> (r: String)
    ensures
        r@ == "Usage: "@ + arg0@ + " <command> [args]"@,
{
    let mut line = String::from_str("Usage: ");
    line.append(arg0);
    line.append(" <command> [args]");
    line
}

} // verus!
