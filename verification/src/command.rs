//! Command lines: an executable path followed by its arguments.

use vstd::prelude::*;

verus! {

/// The words of a command line as plain text.
pub open spec fn texts(words: Seq<String>) -> Seq<Seq<char>> {
    Seq::new(words.len(), |i: int| words[i]@)
}

/// Splits a command line into the executable path and its arguments.
///
/// An empty command line names no executable and gives `None`.
pub fn split_command(command: &Vec<String>) -> (parts: Option<(String, Vec<String>)>)
    ensures
        parts is None <==> command.len() == 0,
        parts matches Some((program, args)) ==> {
            &&& program@ == command[0]@
            &&& texts(args@) == texts(command@).skip(1)
        },
{
    if command.len() == 0 {
        return None;
    }
    let program = command[0].clone();
    let mut args: Vec<String> = Vec::new();
    let mut i: usize = 1;
    while i < command.len()
        invariant
            1 <= i <= command.len(),
            args.len() == i - 1,
            forall|j: int| 0 <= j < i - 1 ==> args[j]@ == command[j + 1]@,
        decreases command.len() - i,
    {
        args.push(command[i].clone());
        i += 1;
    }
    assert(texts(args@) =~= texts(command@).skip(1));
    Some((program, args))
}

} // verus!
