//! What a command-line invocation writes, decided from its parsed arguments.
//!
//! The front end parses a subject and a verbosity count, then asks [`reply`]
//! what to do: the line for standard output, and whether a diagnostic line
//! describing the parsed arguments goes to standard error first.
use vstd::prelude::*;
use vstd::string::*;

use crate::greeting;
use crate::greeting_text;

verus! {

/// The outcome of one invocation.
pub struct Reply {
    /// The full text for standard output, newline included.
    pub stdout: String,
    /// Whether a diagnostic line goes to standard error before the output.
    pub diagnostic: bool,
}

/// The standard-output text for `subject`: its greeting and a newline.
pub open spec fn stdout_text(subject: Seq<char>) -> Seq<char> {
    greeting_text(subject) + seq!['\n']
}

/// Decides what an invocation with `subject` and `verbose` occurrences of the
/// verbosity flag writes.
pub fn reply(subject: &str, verbose: usize) -> (r: Reply)
    ensures
        r.stdout@ == stdout_text(subject@),
        r.diagnostic == (verbose > 0),
{
    let mut stdout = greeting(subject);
    stdout.append("\n");
    proof {
        reveal_strlit("\n");
        assert("\n"@ == seq!['\n']);
    }
    Reply { stdout, diagnostic: verbose > 0 }
}

} // verus!
