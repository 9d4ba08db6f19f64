//! Reading commands from the terminal, one line at a time.
//!
//! The terminal itself is the caller's: [`eval`] says what a line asks
//! for, and [`reply`] what to print when a command is done. Nothing but
//! the line `quit` ends the session; a command that fails is reported and
//! the next line is read.

use vstd::prelude::*;
use vstd::string::StringExecFns;
use crate::attach::Attach;
use crate::attach::Validate;
use crate::cmd::Archive;
use crate::cmd::Command;
use crate::cmd::Handler;
use crate::cmd::describe;
use crate::cmd::describe_spec;
use crate::cli::Cli;
use crate::context::ExecutionContext;
use crate::error::Error;
use crate::text::concat;
use crate::text::concatenate;
use crate::text::pieces;
use crate::text::split;
use crate::text::trim;
use crate::text::trimmed;

verus! {

/// What a line asks for.
#[derive(Clone, Debug, PartialEq, Eq)]
pub enum ReplAction {
    /// To end the session.
    Quit,
    /// To print this text: the history.
    Show(String),
    /// To run a command: these are the words of its command line, the name
    /// of the tool first.
    Dispatch(Vec<String>),
}

/// A [`ReplAction`] with its texts as sequences.
pub enum ReplModel {
    Quit,
    Show(Seq<char>),
    Dispatch(Seq<Seq<char>>),
}

impl View for ReplAction {
    type V = ReplModel;

    open spec fn view(&self) -> ReplModel {
        match *self {
            ReplAction::Quit => ReplModel::Quit,
            ReplAction::Show(text) => ReplModel::Show(text@),
            ReplAction::Dispatch(words) => ReplModel::Dispatch(words@.map_values(|w: String| w@)),
        }
    }
}

/// What [`eval`] gives.
pub open spec fn eval_spec(history: Seq<String>, input: Seq<char>) -> ReplModel {
    let asked = trimmed(input);
    if asked == "quit"@ {
        ReplModel::Quit
    } else if asked == "history"@ {
        ReplModel::Show(trimmed(concat(history)))
    } else {
        ReplModel::Dispatch(seq!["humility"@] + pieces(asked, ' '))
    }
}

/// Nothing but the line `quit` ends the session, whatever went before.
pub proof fn law_only_quit_ends(history: Seq<String>, input: Seq<char>)
    ensures
        eval_spec(history, input) is Quit <==> trimmed(input) == "quit"@,
{
    reveal_strlit("quit");
    reveal_strlit("history");
}

/// Says what the line `input` asks for, white space at its start and at its
/// end left aside.
///
/// `quit` ends the session. `history` shows the texts of the commands that
/// went through, one after the other. Any other line is a command: its
/// words, split at each blank, behind the name of the tool.
pub fn eval(context: &ExecutionContext, input: &str) -> (action: ReplAction)
    ensures
        action@ == eval_spec(context.history@, input@),
{
    let asked = trim(input);
    let line = String::from_str(asked);
    if line == String::from_str("quit") {
        ReplAction::Quit
    } else if line == String::from_str("history") {
        let all = concatenate(&context.history);
        ReplAction::Show(String::from_str(trim(all.as_str())))
    } else {
        let parts = split(asked, ' ');
        let mut words: Vec<String> = Vec::new();
        words.push(String::from_str("humility"));
        let mut i: usize = 0;
        while i < parts.len()
            invariant
                i <= parts.len(),
                words.len() == i + 1,
                words[0]@ == "humility"@,
                parts.len() == pieces(asked@, ' ').len(),
                forall|k: int|
                    0 <= k < parts.len() ==> (#[trigger] parts[k])@ == pieces(asked@, ' ')[k],
                forall|k: int| 1 <= k <= i ==> (#[trigger] words[k])@ == pieces(asked@, ' ')[k - 1],
            decreases parts.len() - i,
        {
            assert(parts[i as int]@ == pieces(asked@, ' ')[i as int]);
            words.push(String::from_str(parts[i]));
            i += 1;
        }
        assert(words@.map_values(|w: String| w@) =~= seq!["humility"@] + pieces(asked@, ' '));
        ReplAction::Dispatch(words)
    }
}

/// What [`reply`] gives.
pub open spec fn reply_spec(cli: Cli, outcome: Result<(), Error>) -> Seq<char> {
    match outcome {
        Ok(_) => "It worked!"@,
        Err(e) => "I'm sorry, Dave. I'm afraid I can't understand that. "@ + describe_spec(cli, e),
    }
}

/// The text to print when the command that the session's options ask for
/// is done: that it worked, or why it did not, with the name of a command
/// that is not known and the path of an archive that could not be loaded.
/// A failure is reported and the session goes on.
pub fn reply(context: &ExecutionContext, outcome: Result<(), Error>) -> (text: String)
    ensures
        text@ == reply_spec(context.cli, outcome),
{
    match outcome {
        Ok(()) => String::from_str("It worked!"),
        Err(e) => {
            let mut text = String::from_str(
                "I'm sorry, Dave. I'm afraid I can't understand that. ",
            );
            let why = describe(context, e);
            text.append(why.as_str());
            text
        },
    }
}

/// The command that reads commands from the terminal. It requires an
/// archive, and takes the target as an earlier command left it, validated
/// against the archive.
pub fn init() -> (command: Command)
    ensures
        command.name@ == "repl"@,
        command.archive == Archive::Required,
        command.attach == Attach::Any,
        command.validate == Validate::Match,
        command.run == Handler::Repl,
{
    Command::attached("repl", Archive::Required, Attach::Any, Validate::Match, Handler::Repl)
}

} // verus!
