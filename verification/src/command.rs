//! What the prompt does with a finished line.

use vstd::prelude::*;
use crate::text::same_text;

verus! {

/// The reaction of the prompt to a line.
#[derive(Clone, Copy, Debug, PartialEq, Eq, Structural)]
pub enum Reaction {
    /// Nothing is said; the prompt asks for the next line.
    Continue,
    /// The congratulation is written once; the prompt then asks for the next line.
    Congratulate,
    /// The program ends with success.
    Terminate,
}

/// The reaction to `line`. The line is compared whole and with its case: `secret` is
/// congratulated; `exit` ends the program where the prompt supports it, and is a line like
/// any other where it does not.
pub open spec fn reaction_to(line: Seq<char>, exit_supported: bool) -> Reaction {
    if line == "secret"@ {
        Reaction::Congratulate
    } else if exit_supported && line == "exit"@ {
        Reaction::Terminate
    } else {
        Reaction::Continue
    }
}

/// Decides what the prompt does with `line`.
pub fn react(line: &str, exit_supported: bool) -> (reaction: Reaction)
    ensures
        reaction == reaction_to(line@, exit_supported),
{
    if same_text(line, "secret") {
        Reaction::Congratulate
    } else if exit_supported && same_text(line, "exit") {
        Reaction::Terminate
    } else {
        Reaction::Continue
    }
}

/// The message that congratulates on the secret word.
pub fn congratulation() -> (message: &'static str)
    ensures
        message@ == "Yoo! Secret!"@,
{
    "Yoo! Secret!"
}

} // verus!
