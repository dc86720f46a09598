//! Interpreting the command line.
//!
//! The whole decision rests on the argument list's length and its first
//! real argument: a help flag prints the usage and exits 0, an empty list
//! goes straight to the notification, and anything else names a command to
//! run with the remaining arguments passed through unchanged.

use vstd::prelude::*;

verus! {

pub const USAGE: &'static str = "Usage: ding [command]

Without a command, `ding` plays a happy ding sound.

With a command, `ding` will execute that command and play a ding if the
command completed without error, otherwise an error sound will be played.

If the command took more than five seconds to execute, the elapsed time will be
shown.";

/// What the argument list asks for.
#[derive(Debug, PartialEq, Eq, Clone, Copy)]
pub enum Action {
    /// Print the usage text and exit 0; nothing runs, nothing plays.
    ShowHelp,
    /// No command was given: play the success clip and exit 0.
    PlayOnly,
    /// Run the first argument as a command, with the rest as its arguments.
    RunCommand,
}

/// The action an argument list (program name included, at index 0) asks for.
pub open spec fn interpret_spec(args: Seq<String>) -> Action {
    if args.len() <= 1 {
        Action::PlayOnly
    } else if args[1]@ == "-h"@ || args[1]@ == "--help"@ {
        Action::ShowHelp
    } else {
        Action::RunCommand
    }
}

/// Decides what to do with the argument list.
pub fn interpret(args: &Vec<String>) -> (r: Action)
    ensures
        r == interpret_spec(args@),
{
    if args.len() <= 1 {
        Action::PlayOnly
    } else {
        let h: String = String::from_str("-h");
        let help: String = String::from_str("--help");
        let first: &String = &args[1];
        if first.eq(&h) || first.eq(&help) {
            Action::ShowHelp
        } else {
            Action::RunCommand
        }
    }
}

/// Without arguments the program never runs a subprocess: interpretation
/// chooses the play-only path, and with the result code still 0 the
/// original process exits 0.
pub proof fn lemma_no_args_exits_zero(args: Seq<String>)
    requires
        args.len() <= 1,
    ensures
        interpret_spec(args) == Action::PlayOnly,
        crate::outcome::process_exit_spec(crate::outcome::ForkOutcome::InParent, 0) == 0,
{
}

/// A leading help flag always wins, whatever arguments follow it.
pub proof fn lemma_help_flag_wins(args: Seq<String>)
    requires
        args.len() > 1,
        args[1]@ == "-h"@ || args[1]@ == "--help"@,
    ensures
        interpret_spec(args) == Action::ShowHelp,
{
}

/// The decision reads only the first real argument: two argument lists
/// whose arguments at index 1 agree are interpreted alike, regardless of
/// what follows.
pub proof fn lemma_only_first_argument_matters(a: Seq<String>, b: Seq<String>)
    requires
        a.len() > 1,
        b.len() > 1,
        a[1]@ == b[1]@,
    ensures
        interpret_spec(a) == interpret_spec(b),
{
}

} // verus!
