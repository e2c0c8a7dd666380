//! The command interpreter: what one line of input asks for.

use crate::text::{is_blank, is_blank_str, skip_chars, starts_with, trim, trimmed};
use vstd::prelude::*;

verus! {

/// The two words that the interpreter knows.
#[derive(Debug, PartialEq, Eq)]
pub struct Grammar {
    /// A line that begins with this selects the recipient named behind it.
    pub filter_prefix: String,
    /// A line that is this word, whitespace around it aside, activates the
    /// secondary channel.
    pub secondary_keyword: String,
}

/// A `Grammar` as contracts see it.
pub struct GrammarView {
    pub filter_prefix: Seq<char>,
    pub secondary_keyword: Seq<char>,
}

impl View for Grammar {
    type V = GrammarView;

    open spec fn view(&self) -> GrammarView {
        GrammarView {
            filter_prefix: self.filter_prefix@,
            secondary_keyword: self.secondary_keyword@,
        }
    }
}

impl Clone for Grammar {
    fn clone(&self) -> (r: Self)
        ensures
            r@ == self@,
    {
        Grammar {
            filter_prefix: self.filter_prefix.clone(),
            secondary_keyword: self.secondary_keyword.clone(),
        }
    }
}

impl Grammar {
    /// The usual words: `filter ` and `sms`.
    pub fn standard() -> (r: Grammar)
        ensures
            r@ == Grammar::standard_view(),
    {
        Grammar { filter_prefix: "filter ".to_owned(), secondary_keyword: "sms".to_owned() }
    }

    pub open spec fn standard_view() -> GrammarView {
        GrammarView { filter_prefix: "filter "@, secondary_keyword: "sms"@ }
    }
}

/// What a line of input asks for.
#[derive(Debug, PartialEq, Eq)]
pub enum Command {
    /// The line is empty or holds only whitespace.
    NoOp,
    /// Make this the recipient of plain messages; empty means none.
    SetFilter(String),
    /// Activate the account's secondary channel.
    ActivateSecondaryChannel,
    /// Plain text was typed while no recipient is selected.
    ReportUsageError,
    /// Send `body` to `target` as a scheduled message.
    SendScheduledPlainMessage { body: String, target: String },
}

/// A `Command` as contracts see it.
pub enum CommandView {
    NoOp,
    SetFilter(Seq<char>),
    ActivateSecondaryChannel,
    ReportUsageError,
    SendScheduledPlainMessage { body: Seq<char>, target: Seq<char> },
}

impl View for Command {
    type V = CommandView;

    open spec fn view(&self) -> CommandView {
        match self {
            Command::NoOp => CommandView::NoOp,
            Command::SetFilter(target) => CommandView::SetFilter(target@),
            Command::ActivateSecondaryChannel => CommandView::ActivateSecondaryChannel,
            Command::ReportUsageError => CommandView::ReportUsageError,
            Command::SendScheduledPlainMessage { body, target } => {
                CommandView::SendScheduledPlainMessage { body: body@, target: target@ }
            },
        }
    }
}

/// The command that `line` stands for while `filter_target` is the selected
/// recipient (empty: none selected).
///
/// The prefix is looked for in the line as typed, the keyword in the
/// trimmed line; the prefix goes first. Anything else is plain text.
pub open spec fn interpret_spec(
    grammar: GrammarView,
    filter_target: Seq<char>,
    line: Seq<char>,
) -> CommandView {
    if is_blank(line) {
        CommandView::NoOp
    } else if grammar.filter_prefix.is_prefix_of(line) {
        CommandView::SetFilter(trimmed(line.skip(grammar.filter_prefix.len() as int)))
    } else if trimmed(line) == grammar.secondary_keyword {
        CommandView::ActivateSecondaryChannel
    } else if filter_target.len() == 0 {
        CommandView::ReportUsageError
    } else {
        CommandView::SendScheduledPlainMessage { body: trimmed(line), target: filter_target }
    }
}

/// Reads one line of input.
pub fn interpret(grammar: &Grammar, filter_target: &str, line: &str) -> (command: Command)
    ensures
        command@ == interpret_spec(grammar@, filter_target@, line@),
{
    if is_blank_str(line) {
        return Command::NoOp;
    }
    let prefix = grammar.filter_prefix.as_str();
    if starts_with(line, prefix) {
        let rest = skip_chars(line, prefix.unicode_len());
        return Command::SetFilter(trim(rest.as_str()));
    }
    let body = trim(line);
    if body == grammar.secondary_keyword {
        Command::ActivateSecondaryChannel
    } else if filter_target.is_empty() {
        Command::ReportUsageError
    } else {
        Command::SendScheduledPlainMessage { body, target: filter_target.to_owned() }
    }
}

} // verus!
