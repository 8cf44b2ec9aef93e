//! Commands: how a failed call of a program is described.

use vstd::prelude::*;
use vstd::string::*;
use crate::text::{chars_of, push_str, string_of, texts};

verus! {

/// Texts in a row, a blank between one and the next.
pub open spec fn joined(items: Seq<Seq<char>>) -> Seq<char>
    decreases items.len(),
{
    if items.len() == 0 {
        Seq::empty()
    } else if items.len() == 1 {
        items[0]
    } else {
        joined(items.drop_last()) + seq![' '] + items.last()
    }
}

/// What is said of a call that failed: the program and its arguments.
pub open spec fn failure_context_of(program: Seq<char>, args: Seq<Seq<char>>) -> Seq<char> {
    "Failed to execute command: "@ + program + seq![' '] + joined(args)
}

/// Describes a call that failed by the program and its arguments.
pub fn failure_context(program: &str, args: &Vec<String>) -> (s: String)
    ensures
        s@ == failure_context_of(program@, texts(args@)),
{
    let mut out = chars_of("Failed to execute command: ");
    push_str(&mut out, program);
    out.push(' ');
    let ghost head = out@;
    let ghost all = texts(args@);
    let mut i: usize = 0;
    while i < args.len()
        invariant
            i <= args.len(),
            all == texts(args@),
            out@ == head + joined(all.take(i as int)),
        decreases args.len() - i,
    {
        proof {
            assert(all.take(i + 1).drop_last() == all.take(i as int));
        }
        if i > 0 {
            out.push(' ');
            push_str(&mut out, args[i].as_str());
        } else {
            push_str(&mut out, args[i].as_str());
        }
        i = i + 1;
    }
    proof {
        assert(all.take(i as int) == all);
    }
    string_of(&out)
}

} // verus!
