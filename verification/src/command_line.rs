//! The decisions behind the interactive console: which color an agent
//! status line takes, and how a confirmation answer is read. The printing
//! and reading themselves are terminal I/O and live with the caller.

use vstd::prelude::*;

use crate::general::str_eq;

verus! {

/// The kinds of agent status line the console distinguishes.
#[derive(Debug, Clone, Copy, PartialEq, Eq, Structural)]
pub enum PrintCommand {
    AICall,
    UnitTest,
    Issue,
}

/// The color a status line's statement part is printed in.
#[derive(Debug, Clone, Copy, PartialEq, Eq, Structural)]
pub enum StatementColor {
    Cyan,
    Magenta,
    Red,
}

impl PrintCommand {
    /// The statement color of this kind of status line: cyan for an
    /// endpoint call, magenta for a unit test, red for an issue.
    pub fn statement_color(&self) -> (c: StatementColor)
        ensures
            c == match *self {
                PrintCommand::AICall => StatementColor::Cyan,
                PrintCommand::UnitTest => StatementColor::Magenta,
                PrintCommand::Issue => StatementColor::Red,
            },
    {
        match self {
            PrintCommand::AICall => StatementColor::Cyan,
            PrintCommand::UnitTest => StatementColor::Magenta,
            PrintCommand::Issue => StatementColor::Red,
        }
    }
}

/// What a confirmation answer means, for an answer already trimmed and
/// lowercased: "1", "ok" and "y" accept; "2", "no" and "n" refuse; any
/// other answer decides nothing and the question is asked again.
pub open spec fn confirmation_of(s: Seq<char>) -> Option<bool> {
    if s == "1"@ || s == "ok"@ || s == "y"@ {
        Some(true)
    } else if s == "2"@ || s == "no"@ || s == "n"@ {
        Some(false)
    } else {
        None
    }
}

/// Decides a trimmed, lowercased confirmation answer.
pub fn confirmation_choice(response: &str) -> (r: Option<bool>)
    ensures
        r == confirmation_of(response@),
{
    if str_eq(response, "1") || str_eq(response, "ok") || str_eq(response, "y") {
        Some(true)
    } else if str_eq(response, "2") || str_eq(response, "no") || str_eq(response, "n") {
        Some(false)
    } else {
        None
    }
}

} // verus!
