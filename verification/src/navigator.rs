//! Stepping through the frames of a run: what a line of input asks for, and
//! where it leads.

use crate::text::{to_uppercase, trim, trimmed, uppercase_of};
use vstd::prelude::*;
use vstd::string::StringExecFns;

verus! {

/// What a line of input asks for.
#[derive(Clone, Copy, Debug, PartialEq, Eq, Structural)]
pub enum Command {
    Next,
    Previous,
    Quit,
    Unknown,
}

/// What follows from a command.
#[derive(Clone, Copy, Debug, PartialEq, Eq, Structural)]
pub enum Response {
    /// The frame at the new position is to be shown.
    Show,
    /// There is no frame after the last one.
    AtLastFrame,
    /// There is no frame before the first one.
    AtFirstFrame,
    /// The session is over.
    Quit,
    /// The input names no command.
    Unknown,
}

/// The command that an input spells once it is trimmed and in upper case:
/// `N`, `P` or `Q`.
pub open spec fn command_of(word: Seq<char>) -> Command {
    if word == "N"@ {
        Command::Next
    } else if word == "P"@ {
        Command::Previous
    } else if word == "Q"@ {
        Command::Quit
    } else {
        Command::Unknown
    }
}

/// The position after `command` at `index` among `count` frames, and what
/// follows from the command. The position moves by one frame and never
/// leaves the frames.
pub open spec fn moved(index: nat, count: nat, command: Command) -> (nat, Response) {
    match command {
        Command::Next => if index + 1 < count {
            ((index + 1) as nat, Response::Show)
        } else {
            (index, Response::AtLastFrame)
        },
        Command::Previous => if index > 0 {
            ((index - 1) as nat, Response::Show)
        } else {
            (index, Response::AtFirstFrame)
        },
        Command::Quit => (index, Response::Quit),
        Command::Unknown => (index, Response::Unknown),
    }
}

/// The command that a word spells.
pub fn command_for(word: &str) -> (res: Command)
    ensures
        res == command_of(word@),
{
    let given = String::from_str(word);
    if given == String::from_str("N") {
        Command::Next
    } else if given == String::from_str("P") {
        Command::Previous
    } else if given == String::from_str("Q") {
        Command::Quit
    } else {
        Command::Unknown
    }
}

/// The command that a line of input asks for, whatever its case and the
/// white space around it.
pub fn read_command(input: &str) -> (res: Command)
    ensures
        res == command_of(uppercase_of(trimmed(input@))),
{
    let word = trim(input);
    let upper = to_uppercase(word.as_str());
    command_for(upper.as_str())
}

/// The position after `command` at `index` among `count` frames, and what
/// follows from the command.
pub fn navigate(index: usize, count: usize, command: Command) -> (res: (usize, Response))
    ensures
        (res.0 as nat, res.1) == moved(index as nat, count as nat, command),
        index < count ==> res.0 < count,
{
    match command {
        Command::Next => {
            if index < usize::MAX && index + 1 < count {
                (index + 1, Response::Show)
            } else {
                (index, Response::AtLastFrame)
            }
        },
        Command::Previous => {
            if index > 0 {
                (index - 1, Response::Show)
            } else {
                (index, Response::AtFirstFrame)
            }
        },
        Command::Quit => (index, Response::Quit),
        Command::Unknown => (index, Response::Unknown),
    }
}

} // verus!
