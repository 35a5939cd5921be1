//! Warnings in the form in which cargo reads them from a build script.

use crate::text::{lines, split_lines, views};
use vstd::prelude::*;

verus! {

/// The output lines that make cargo show `message`, one directive for each line of it.
pub open spec fn warning_lines(message: Seq<char>) -> Seq<Seq<char>> {
    lines(message).map_values(|line: Seq<char>| "cargo:warning="@ + line)
}

/// The output lines that make cargo show `a`, one directive for each line of it.
pub fn warnln_impl(a: &str) -> (output: Vec<String>)
    ensures
        views(output@) == warning_lines(a@),
{
    let parts = split_lines(a);
    let mut output: Vec<String> = Vec::new();
    let mut i: usize = 0;
    while i < parts.len()
        invariant
            i <= parts.len(),
            output.len() == i,
            forall|j: int|
                0 <= j < i ==> (#[trigger] output[j])@ == "cargo:warning="@ + parts[j]@,
        decreases parts.len() - i,
    {
        let mut directive = "cargo:warning=".to_owned();
        directive.append(parts[i].as_str());
        output.push(directive);
        i += 1;
    }
    assert(lines(a@) == views(parts@));
    assert(views(output@) =~= warning_lines(a@));
    output
}

} // verus!
