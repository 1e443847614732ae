//! What holds of every summarisation, whatever the driver reports.

use vstd::prelude::*;
use crate::error::SummarizeErrorView;
use crate::json::JsonView;
use crate::payload::summarization_payload;
use crate::payload::ChatMessageView;
use crate::payload::Role;
use crate::payload::KEY_MESSAGES;
use crate::payload::SYSTEM_INSTRUCTION;
use crate::request::credential_ok;
use crate::request::ChatRequestView;
use crate::request::BEARER;
use crate::request::CONTENT_TYPE;
use crate::request::ENDPOINT;
use crate::session::begin;
use crate::session::begin_with_text;
use crate::session::next;
use crate::session::ActionView;
use crate::session::EventView;
use crate::session::SessionView;
use crate::session::SourceView;
use crate::session::Stage;
use crate::session::SummarizationRequestView;
use crate::wire::status_line;
use crate::wire::INVALID_HEADER_VALUE;
use crate::wire::STATUS_OK;

verus! {

/// The actions with which a session answers `events`, one after the other.
/// An event that the session does not wait for is passed over.
pub open spec fn answers(session: SessionView, events: Seq<EventView>) -> Seq<ActionView>
    decreases events.len(),
{
    if events.len() == 0 {
        Seq::empty()
    } else {
        match next(session, events[0]) {
            Some((after, action)) => seq![action] + answers(after, events.drop_first()),
            None => answers(session, events.drop_first()),
        }
    }
}

/// All that the driver is told to do for `request` when it reports `events`:
/// the first action, then the answers.
pub open spec fn conduct(request: SummarizationRequestView, events: Seq<EventView>) -> Seq<
    ActionView,
> {
    seq![begin(request).1] + answers(begin(request).0, events)
}

/// How many of `actions` send a request to the model.
pub open spec fn posts(actions: Seq<ActionView>) -> nat
    decreases actions.len(),
{
    if actions.len() == 0 {
        0
    } else if actions[0] is Post {
        1 + posts(actions.drop_first())
    } else {
        posts(actions.drop_first())
    }
}

/// How many of `actions` hand an outcome to the caller.
pub open spec fn outcomes(actions: Seq<ActionView>) -> nat
    decreases actions.len(),
{
    if actions.len() == 0 {
        0
    } else if actions[0] is Finish {
        1 + outcomes(actions.drop_first())
    } else {
        outcomes(actions.drop_first())
    }
}

proof fn lemma_answers_step(session: SessionView, event: EventView, rest: Seq<EventView>)
    ensures
        answers(session, seq![event] + rest) == match next(session, event) {
            Some((after, action)) => seq![action] + answers(after, rest),
            None => answers(session, rest),
        },
{
    let events = seq![event] + rest;
    assert(events[0] == event);
    assert(events.drop_first() == rest);
}

proof fn lemma_count_step(action: ActionView, rest: Seq<ActionView>)
    ensures
        posts(seq![action] + rest) == posts(rest) + if action is Post {
            1nat
        } else {
            0nat
        },
        outcomes(seq![action] + rest) == outcomes(rest) + if action is Finish {
            1nat
        } else {
            0nat
        },
{
    let actions = seq![action] + rest;
    assert(actions[0] == action);
    assert(actions.drop_first() == rest);
}

/// Nothing answers a session that has given its outcome.
proof fn lemma_done_is_silent(session: SessionView, events: Seq<EventView>)
    requires
        session.stage == Stage::Done,
    ensures
        answers(session, events) == Seq::<ActionView>::empty(),
    decreases events.len(),
{
    if events.len() > 0 {
        lemma_done_is_silent(session, events.drop_first());
    }
}

/// How many requests to the model a session may still send.
spec fn posts_left(stage: Stage) -> nat {
    match stage {
        Stage::Extracting | Stage::Downloading | Stage::ExtractingDownload => 1,
        _ => 0,
    }
}

/// How many outcomes a session may still give.
spec fn outcomes_left(stage: Stage) -> nat {
    match stage {
        Stage::Done => 0,
        _ => 1,
    }
}

proof fn lemma_answers_bounded(session: SessionView, events: Seq<EventView>)
    ensures
        posts(answers(session, events)) <= posts_left(session.stage),
        outcomes(answers(session, events)) <= outcomes_left(session.stage),
        !credential_ok(session.api_key) ==> posts(answers(session, events)) == 0,
        outcomes(answers(session, events)) == 1 ==> answers(session, events).last() is Finish,
    decreases events.len(),
{
    if events.len() > 0 {
        let rest = events.drop_first();
        match next(session, events[0]) {
            Some((after, action)) => {
                lemma_answers_bounded(after, rest);
                lemma_count_step(action, answers(after, rest));
                if after.stage == Stage::Done {
                    lemma_done_is_silent(after, rest);
                }
            },
            None => {
                lemma_answers_bounded(session, rest);
            },
        }
    }
}

/// No summarisation sends more than one request to the model, and none
/// gives more than one outcome; the outcome, once given, is the last thing
/// that the driver is told.
pub proof fn law_one_request_one_outcome(
    request: SummarizationRequestView,
    events: Seq<EventView>,
)
    ensures
        posts(conduct(request, events)) <= 1,
        outcomes(conduct(request, events)) <= 1,
        outcomes(conduct(request, events)) == 1 ==> conduct(request, events).last() is Finish,
{
    let (session, first) = begin(request);
    lemma_answers_bounded(session, events);
    lemma_count_step(first, answers(session, events));
}

/// A local document whose text the extractor hands over is sent to the model
/// exactly once, whatever happens afterwards, provided the API key can be
/// sent: the driver is told to extract the file, then to post the request
/// whose body is the payload made of the caller's prompt and that text, the
/// text being the content of its last message.
pub proof fn law_local_text_is_posted_once(
    request: SummarizationRequestView,
    path: Seq<char>,
    text: Seq<char>,
    rest: Seq<EventView>,
)
    requires
        request.source == SourceView::LocalPath(path),
        credential_ok(request.api_key),
    ensures
        ({
            let told = conduct(request, seq![EventView::Extracted(Ok(text))] + rest);
            let payload = summarization_payload(request.prompt, text);
            &&& told[0] == ActionView::ExtractFile { path }
            &&& told[1] == ActionView::Post(
                ChatRequestView {
                    url: ENDPOINT@,
                    content_type: CONTENT_TYPE@,
                    authorization: BEARER@ + request.api_key,
                    body: payload.body(),
                },
            )
            &&& payload.messages.last().content == text
            &&& posts(told) == 1
        }),
{
    let (session, first) = begin(request);
    let event = EventView::Extracted(Ok(text));
    lemma_answers_step(session, event, rest);
    let (after, action) = next(session, event).unwrap();
    lemma_answers_bounded(after, rest);
    lemma_count_step(action, answers(after, rest));
    lemma_count_step(first, answers(session, seq![event] + rest));
}

/// A download that is answered with a status other than "OK" ends the
/// summarisation there: the driver is told to send the GET request and then
/// to hand over the failure, which reads as the description of that status.
/// Nothing is extracted and nothing is sent to the model.
pub proof fn law_refused_download_ends(
    request: SummarizationRequestView,
    url: Seq<char>,
    code: u16,
    rest: Seq<EventView>,
)
    requires
        request.source == SourceView::RemoteUrl(url),
        code != STATUS_OK,
    ensures
        conduct(request, seq![EventView::Status(code)] + rest) == seq![
            (ActionView::Get { url }),
            ActionView::Finish(Err((SummarizeErrorView::DownloadFailed { status: code }))),
        ],
        (SummarizeErrorView::DownloadFailed { status: code }).message() == status_line(code),
{
    let (session, first) = begin(request);
    let event = EventView::Status(code);
    lemma_answers_step(session, event, rest);
    let (after, action) = next(session, event).unwrap();
    lemma_done_is_silent(after, rest);
    assert(conduct(request, seq![event] + rest) =~= seq![first, action]);
}

/// With an API key that holds a byte which no header value can hold, no
/// request is ever sent to the model, whatever the driver reports; and a
/// summarisation that starts with the text at hand fails at once, before
/// anything is sent at all.
pub proof fn law_unsendable_key_is_never_posted(
    request: SummarizationRequestView,
    events: Seq<EventView>,
    text: Seq<char>,
)
    requires
        !credential_ok(request.api_key),
    ensures
        posts(conduct(request, events)) == 0,
        begin_with_text(request.api_key, request.prompt, text).0.stage == Stage::Done,
        begin_with_text(request.api_key, request.prompt, text).1 == ActionView::Finish(
            Err(SummarizeErrorView::InvalidCredential(INVALID_HEADER_VALUE@)),
        ),
{
    let (session, first) = begin(request);
    lemma_answers_bounded(session, events);
    lemma_count_step(first, answers(session, events));
}

/// A request to the model that is answered with a status other than "OK"
/// ends the summarisation there: the failure, which reads as the description
/// of that status, is all that the driver is told, and the body of the reply
/// is never asked for.
pub proof fn law_refused_request_ends(session: SessionView, code: u16, rest: Seq<EventView>)
    requires
        session.stage == Stage::Asking,
        code != STATUS_OK,
    ensures
        answers(session, seq![EventView::Status(code)] + rest) == seq![
            ActionView::Finish(Err((SummarizeErrorView::RequestFailed { status: code }))),
        ],
        (SummarizeErrorView::RequestFailed { status: code }).message() == status_line(code),
{
    let event = EventView::Status(code);
    lemma_answers_step(session, event, rest);
    let (after, action) = next(session, event).unwrap();
    lemma_done_is_silent(after, rest);
    assert(answers(session, seq![event] + rest) =~= seq![action]);
}

/// The messages of a summarisation stand in the request body's document as
/// the array `messages`, three of them and in this order: the fixed
/// instruction and the caller's prompt, spoken by the system, then the text
/// of the document, spoken by the user.
pub proof fn law_messages_in_order(prompt: Seq<char>, text: Seq<char>)
    ensures
        summarization_payload(prompt, text).document().member(KEY_MESSAGES@) == Some(
            JsonView::Array(
                seq![
                    ChatMessageView { role: Role::System, content: SYSTEM_INSTRUCTION@ }.document(),
                    ChatMessageView { role: Role::System, content: prompt }.document(),
                    ChatMessageView { role: Role::User, content: text }.document(),
                ],
            ),
        ),
{
    let payload = summarization_payload(prompt, text);
    let members = payload.document()->Object_0;
    assert(members.last().0 == KEY_MESSAGES@);
    assert(members.last().1->Array_0 =~= seq![
        ChatMessageView { role: Role::System, content: SYSTEM_INSTRUCTION@ }.document(),
        ChatMessageView { role: Role::System, content: prompt }.document(),
        ChatMessageView { role: Role::User, content: text }.document(),
    ]);
}

} // verus!
