//! The words that the session puts on the console and into the log.

use crate::command::{Grammar, GrammarView};
use crate::effect::{Notice, NoticeView};
use vstd::prelude::*;
use vstd::string::StringExecFns;

verus! {

/// The prompt, as a string.
pub open spec fn prompt_text() -> Seq<char> {
    ">> "@
}

/// What is written before each line of input is read.
pub fn prompt() -> (r: &'static str)
    ensures
        r@ == prompt_text(),
{
    ">> "
}

/// The line that tells the user of `notice`.
pub open spec fn notice_text(grammar: GrammarView, notice: NoticeView) -> Seq<char> {
    match notice {
        NoticeView::FilterSet(target) => "Filtering to "@ + target,
        NoticeView::Usage => "Usage: "@ + grammar.filter_prefix + "[target]"@,
        NoticeView::SecondaryChannelActivated => "sms activated"@,
        NoticeView::SendingReceipt => "sending delivered"@,
    }
}

/// The line that tells the user of `notice`, as a string.
pub fn notice_line(grammar: &Grammar, notice: &Notice) -> (r: String)
    ensures
        r@ == notice_text(grammar@, notice@),
{
    match notice {
        Notice::FilterSet(target) => "Filtering to ".to_owned().concat(target.as_str()),
        Notice::Usage => "Usage: ".to_owned().concat(grammar.filter_prefix.as_str()).concat(
            "[target]",
        ),
        Notice::SecondaryChannelActivated => "sms activated".to_owned(),
        Notice::SendingReceipt => "sending delivered".to_owned(),
    }
}

/// The log line for an envelope that could not be handled.
pub open spec fn receive_failure_text(detail: Seq<char>) -> Seq<char> {
    "Failed to receive "@ + detail
}

/// The log line for an envelope that could not be handled, as a string.
pub fn receive_failure_line(detail: &str) -> (r: String)
    ensures
        r@ == receive_failure_text(detail@),
{
    "Failed to receive ".to_owned().concat(detail)
}

/// The log line for a send that failed.
pub open spec fn send_failure_text(detail: Seq<char>) -> Seq<char> {
    "Error sending message "@ + detail
}

/// The log line for a send that failed, as a string.
pub fn send_failure_line(detail: &str) -> (r: String)
    ensures
        r@ == send_failure_text(detail@),
{
    "Error sending message ".to_owned().concat(detail)
}

} // verus!
