//! Reading the reply of the chat-completion service.

use vstd::prelude::*;
use vstd::string::StringExecFns;
use crate::error::outcome_view;
use crate::error::Outcome;
use crate::error::SummarizeError;
use crate::error::SummarizeErrorView;
use crate::json::json_document;
use crate::json::parse;
use crate::json::parsed_view;
use crate::json::Json;
use crate::json::JsonView;

verus! {

/// The names of the members that lead to the summary.
pub const KEY_CHOICES: &'static str = "choices";

pub const KEY_MESSAGE: &'static str = "message";

pub const KEY_CONTENT: &'static str = "content";

/// The summary that a reply holds: the string at `choices[0].message.content`.
/// There is none where a step of that path is missing, leads through a value
/// of another kind, or ends at anything but a string.
pub open spec fn summary_of(reply: JsonView) -> Option<Seq<char>> {
    match reply.member(KEY_CHOICES@) {
        Some(choices) => match choices.item(0) {
            Some(choice) => match choice.member(KEY_MESSAGE@) {
                Some(message) => match message.member(KEY_CONTENT@) {
                    Some(content) => content.text(),
                    None => None,
                },
                None => None,
            },
            None => None,
        },
        None => None,
    }
}

/// How a summarisation ends once the body of the reply has been parsed: an
/// unparsable body fails with the parser's words, a document without a
/// summary fails as such, and a summary is handed on as it stands.
pub open spec fn reply_outcome(parsed: Result<JsonView, Seq<char>>) -> Result<
    Seq<char>,
    SummarizeErrorView,
> {
    match parsed {
        Ok(reply) => match summary_of(reply) {
            Some(summary) => Ok(summary),
            None => Err(SummarizeErrorView::MissingContent),
        },
        Err(words) => Err(SummarizeErrorView::MalformedResponse(words)),
    }
}

/// The summary that `reply` holds, if it holds one.
pub fn summary(reply: &Json) -> (found: Option<String>)
    ensures
        match found {
            Some(summary) => summary_of(reply@) == Some(summary@),
            None => summary_of(reply@) is None,
        },
{
    let choices = match reply.member(KEY_CHOICES) {
        Some(choices) => choices,
        None => return None,
    };
    let choice = match choices.item(0) {
        Some(choice) => choice,
        None => return None,
    };
    let message = match choice.member(KEY_MESSAGE) {
        Some(message) => message,
        None => return None,
    };
    let content = match message.member(KEY_CONTENT) {
        Some(content) => content,
        None => return None,
    };
    match content.as_text() {
        Some(text) => Some(String::from_str(text)),
        None => None,
    }
}

/// Ends the summarisation on what the parser made of the reply's body.
pub fn interpret(parsed: Result<Json, String>) -> (outcome: Outcome)
    ensures
        outcome_view(outcome) == reply_outcome(parsed_view(parsed)),
{
    match parsed {
        Ok(reply) => match summary(&reply) {
            Some(summary) => Ok(summary),
            None => Err(SummarizeError::MissingContent),
        },
        Err(words) => Err(SummarizeError::MalformedResponse(words)),
    }
}

/// Ends the summarisation on the body of a reply that came with the status
/// "OK": parses it as JSON and hands on the summary it holds.
pub fn read_reply(body: &[u8]) -> (outcome: Outcome)
    ensures
        outcome_view(outcome) == reply_outcome(json_document(body@)),
{
    interpret(parse(body))
}

} // verus!
