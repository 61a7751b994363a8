//! The commands that run locally before the session is opened.

use crate::machine::CommandOutcome;
use crate::text::{pieces, split_on};
use vstd::prelude::*;

verus! {

/// A command as it is handed to the operating system.
pub struct CommandLine {
    pub program: String,
    pub args: Vec<String>,
}

/// The arguments that an argument string stands for: its pieces between
/// blanks. Two blanks in a row enclose an empty argument, and the empty
/// string is one empty argument.
pub open spec fn arguments(args: Seq<char>) -> Seq<Seq<char>> {
    pieces(args, ' ')
}

/// The command line for a program and its argument string.
pub fn command_line(program: &str, args: &str) -> (line: CommandLine)
    ensures
        line.program@ == program@,
        line.args.deep_view() == arguments(args@),
{
    CommandLine { program: program.to_owned(), args: split_on(args, ' ') }
}

impl CommandOutcome {
    /// How a command ended, from whether it could be started and the exit
    /// code it left, if any.
    pub open spec fn of(launched: bool, code: Option<i32>) -> CommandOutcome {
        if !launched {
            CommandOutcome::LaunchFailed
        } else {
            match code {
                Some(code) => if code == 0 {
                    CommandOutcome::Succeeded
                } else {
                    CommandOutcome::Failed(code)
                },
                None => CommandOutcome::Killed,
            }
        }
    }

    /// Whether the outcome is reported as a warning: every one but success.
    pub open spec fn warns(self) -> bool {
        !(self is Succeeded)
    }

    /// Classifies the end of a command.
    pub fn classify(launched: bool, code: Option<i32>) -> (outcome: CommandOutcome)
        ensures
            outcome == CommandOutcome::of(launched, code),
    {
        if !launched {
            CommandOutcome::LaunchFailed
        } else {
            match code {
                Some(code) => {
                    if code == 0 {
                        CommandOutcome::Succeeded
                    } else {
                        CommandOutcome::Failed(code)
                    }
                },
                None => CommandOutcome::Killed,
            }
        }
    }

    /// Whether the outcome is reported as a warning.
    pub fn is_warning(self) -> (warning: bool)
        ensures
            warning == self.warns(),
    {
        match self {
            CommandOutcome::Succeeded => false,
            _ => true,
        }
    }
}

/// The number of warnings among `outcomes`.
pub open spec fn warnings_in(outcomes: Seq<CommandOutcome>) -> nat
    decreases outcomes.len(),
{
    if outcomes.len() == 0 {
        0
    } else {
        warnings_in(outcomes.drop_last()) + if outcomes.last().warns() {
            1nat
        } else {
            0nat
        }
    }
}

/// Counts the commands that did not succeed.
pub fn count_warnings(outcomes: &Vec<CommandOutcome>) -> (count: usize)
    ensures
        count == warnings_in(outcomes@),
{
    let mut count: usize = 0;
    let mut i: usize = 0;
    while i < outcomes.len()
        invariant
            i <= outcomes.len(),
            count == warnings_in(outcomes@.take(i as int)),
            count <= i,
        decreases outcomes.len() - i,
    {
        assert(outcomes@.take(i + 1).drop_last() =~= outcomes@.take(i as int));
        if outcomes[i].is_warning() {
            count += 1;
        }
        i += 1;
    }
    assert(outcomes@.take(outcomes@.len() as int) =~= outcomes@);
    count
}

} // verus!
