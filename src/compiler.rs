use vstd::prelude::*;
use crate::text::is_text;

verus! {

/// Logical compiler identity resolved to a command and its default flags.
pub struct Compiler {
    pub name: String,
    pub command: String,
    pub flags: String,
}

/// The (name, command, flags) entry of the compiler table for a requested compiler;
/// unknown names fall back to GCC.
pub open spec fn compiler_entry(requested: Seq<char>) -> (Seq<char>, Seq<char>, Seq<char>) {
    if requested == "clang"@ || requested == "Clang"@ {
        ("Clang"@, "clang++"@, "-Wall -O2"@)
    } else if requested == "MSVC"@ {
        ("MSVC"@, "cl"@, "/EHsc"@)
    } else {
        ("GCC"@, "g++"@, "-Wall -O2"@)
    }
}

impl Compiler {
    /// Looks a compiler up by its logical name.
    pub fn new(name: &str) -> (r: Self)
        ensures
            (r.name@, r.command@, r.flags@) == compiler_entry(name@),
    {
        let n = String::from_str(name);
        if is_text(&n, "clang") || is_text(&n, "Clang") {
            Compiler {
                name: String::from_str("Clang"),
                command: String::from_str("clang++"),
                flags: String::from_str("-Wall -O2"),
            }
        } else if is_text(&n, "MSVC") {
            Compiler {
                name: String::from_str("MSVC"),
                command: String::from_str("cl"),
                flags: String::from_str("/EHsc"),
            }
        } else {
            Compiler {
                name: String::from_str("GCC"),
                command: String::from_str("g++"),
                flags: String::from_str("-Wall -O2"),
            }
        }
    }
}

} // verus!
