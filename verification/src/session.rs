//! One summarisation, from the request to its outcome.
//!
//! A [`Session`] performs nothing itself. It is started with a request and
//! answers with the first [`Action`]; whoever drives it performs the action,
//! reports what came of it as an [`Event`], and is told the next action, until
//! the action is [`Action::Finish`].

use vstd::prelude::*;
use crate::error::outcome_view;
use crate::error::Outcome;
use crate::error::SummarizeError;
use crate::error::SummarizeErrorView;
use crate::json::json_document;
use crate::reply::read_reply;
use crate::reply::reply_outcome;
use crate::request::build_request;
use crate::request::chat_request;
use crate::request::ChatRequest;
use crate::request::ChatRequestView;
use crate::wire::STATUS_OK;

verus! {

/// Where the document is.
#[derive(Debug, PartialEq, Eq)]
pub enum Source {
    /// A file on this machine, by its path.
    LocalPath(String),
    /// A resource to download, by its URL.
    RemoteUrl(String),
}

/// The mathematical value of a [`Source`].
pub enum SourceView {
    LocalPath(Seq<char>),
    RemoteUrl(Seq<char>),
}

impl View for Source {
    type V = SourceView;

    open spec fn view(&self) -> SourceView {
        match self {
            Source::LocalPath(path) => SourceView::LocalPath(path@),
            Source::RemoteUrl(url) => SourceView::RemoteUrl(url@),
        }
    }
}

/// What a caller asks for: a summary of the document at `source`, worked over
/// as `prompt` describes, in the name of `api_key`. It is made for one call
/// and kept nowhere; it cannot be printed, for the sake of the key.
#[derive(PartialEq, Eq)]
pub struct SummarizationRequest {
    pub api_key: String,
    pub prompt: String,
    pub source: Source,
}

/// The mathematical value of a [`SummarizationRequest`].
pub struct SummarizationRequestView {
    pub api_key: Seq<char>,
    pub prompt: Seq<char>,
    pub source: SourceView,
}

impl View for SummarizationRequest {
    type V = SummarizationRequestView;

    open spec fn view(&self) -> SummarizationRequestView {
        SummarizationRequestView {
            api_key: self.api_key@,
            prompt: self.prompt@,
            source: self.source@,
        }
    }
}

/// How far a summarisation has come, named by what it waits for.
#[derive(Clone, Copy, Debug, PartialEq, Eq, Structural)]
pub enum Stage {
    /// The text of the local document.
    Extracting,
    /// The status with which the download is answered.
    Downloading,
    /// The text of the downloaded document.
    ExtractingDownload,
    /// The status with which the request to the model is answered.
    Asking,
    /// The body of the model's reply.
    ReadingReply,
    /// Nothing: the outcome has been given.
    Done,
}

/// What the driver is to do next.
#[derive(Debug, PartialEq, Eq)]
pub enum Action {
    /// Read the file at `path` and extract its text; report
    /// [`Event::Extracted`].
    ExtractFile { path: String },
    /// Send a GET request to `url`; report the [`Event::Status`] of the
    /// response, or that sending [`Event::Failed`].
    Get { url: String },
    /// Read the whole body of the response to the GET request and extract
    /// its text; report [`Event::Extracted`], or that reading
    /// [`Event::Failed`].
    ExtractBody,
    /// Send this POST request; report the [`Event::Status`] of the response,
    /// or that sending [`Event::Failed`].
    Post(ChatRequest),
    /// Read the whole body of the response to the POST request; report it as
    /// [`Event::Body`], or that reading [`Event::Failed`].
    ReadBody,
    /// Hand the outcome to the caller. Nothing is left to do.
    Finish(Outcome),
}

/// The mathematical value of an [`Action`].
pub enum ActionView {
    ExtractFile { path: Seq<char> },
    Get { url: Seq<char> },
    ExtractBody,
    Post(ChatRequestView),
    ReadBody,
    Finish(Result<Seq<char>, SummarizeErrorView>),
}

impl View for Action {
    type V = ActionView;

    open spec fn view(&self) -> ActionView {
        match self {
            Action::ExtractFile { path } => ActionView::ExtractFile { path: path@ },
            Action::Get { url } => ActionView::Get { url: url@ },
            Action::ExtractBody => ActionView::ExtractBody,
            Action::Post(request) => ActionView::Post(request@),
            Action::ReadBody => ActionView::ReadBody,
            Action::Finish(outcome) => ActionView::Finish(outcome_view(*outcome)),
        }
    }
}

/// What came of an action.
#[derive(Debug, PartialEq, Eq)]
pub enum Event {
    /// The extractor is done: with the text of the document, or with its
    /// words on why there is none.
    Extracted(Result<String, String>),
    /// A response arrived, with this status code.
    Status(u16),
    /// The body of the response has been read.
    Body(Vec<u8>),
    /// The request could not be sent, or the response could not be read; with
    /// the HTTP client's words.
    Failed(String),
}

/// The mathematical value of an [`Event`].
pub enum EventView {
    Extracted(Result<Seq<char>, Seq<char>>),
    Status(u16),
    Body(Seq<u8>),
    Failed(Seq<char>),
}

impl View for Event {
    type V = EventView;

    open spec fn view(&self) -> EventView {
        match self {
            Event::Extracted(Ok(text)) => EventView::Extracted(Ok(text@)),
            Event::Extracted(Err(words)) => EventView::Extracted(Err(words@)),
            Event::Status(code) => EventView::Status(*code),
            Event::Body(bytes) => EventView::Body(bytes@),
            Event::Failed(words) => EventView::Failed(words@),
        }
    }
}

/// A summarisation under way. It holds the API key and the prompt until the
/// request to the model is built, and cannot be printed, for the sake of the
/// key.
pub struct Session {
    api_key: String,
    prompt: String,
    stage: Stage,
}

/// The mathematical value of a [`Session`].
pub struct SessionView {
    pub api_key: Seq<char>,
    pub prompt: Seq<char>,
    pub stage: Stage,
}

impl View for Session {
    type V = SessionView;

    closed spec fn view(&self) -> SessionView {
        SessionView { api_key: self.api_key@, prompt: self.prompt@, stage: self.stage }
    }
}

/// The session that a request starts, and the first thing to do: a local
/// document is read and taken apart, a remote one is asked for.
pub open spec fn begin(request: SummarizationRequestView) -> (SessionView, ActionView) {
    match request.source {
        SourceView::LocalPath(path) => (
            SessionView {
                api_key: request.api_key,
                prompt: request.prompt,
                stage: Stage::Extracting,
            },
            ActionView::ExtractFile { path },
        ),
        SourceView::RemoteUrl(url) => (
            SessionView {
                api_key: request.api_key,
                prompt: request.prompt,
                stage: Stage::Downloading,
            },
            ActionView::Get { url },
        ),
    }
}

impl SessionView {
    /// The session at another stage.
    pub open spec fn at(self, stage: Stage) -> SessionView {
        SessionView { stage, ..self }
    }

    /// The session brought to its end with a failure.
    pub open spec fn fail(self, failure: SummarizeErrorView) -> (SessionView, ActionView) {
        (self.at(Stage::Done), ActionView::Finish(Err(failure)))
    }

    /// What follows once the text of the document is there, or is known not
    /// to come: the request to the model is built and sent, unless the
    /// extractor failed or the API key cannot be sent.
    pub open spec fn on_extracted(self, extracted: Result<Seq<char>, Seq<char>>) -> (
        SessionView,
        ActionView,
    ) {
        match extracted {
            Ok(text) => match chat_request(self.api_key, self.prompt, text) {
                Ok(request) => (self.at(Stage::Asking), ActionView::Post(request)),
                Err(failure) => self.fail(failure),
            },
            Err(words) => self.fail(SummarizeErrorView::ExtractionFailed(words)),
        }
    }
}

/// The session after `event` and the action that answers it; nothing where
/// the session does not wait for such an event.
pub open spec fn next(session: SessionView, event: EventView) -> Option<(SessionView, ActionView)> {
    match (session.stage, event) {
        (Stage::Extracting, EventView::Extracted(extracted)) => Some(
            session.on_extracted(extracted),
        ),
        (Stage::Downloading, EventView::Status(code)) => Some(
            if code == STATUS_OK {
                (session.at(Stage::ExtractingDownload), ActionView::ExtractBody)
            } else {
                session.fail(SummarizeErrorView::DownloadFailed { status: code })
            },
        ),
        (Stage::Downloading, EventView::Failed(words)) => Some(
            session.fail(SummarizeErrorView::Transport(words)),
        ),
        (Stage::ExtractingDownload, EventView::Extracted(extracted)) => Some(
            session.on_extracted(extracted),
        ),
        (Stage::ExtractingDownload, EventView::Failed(words)) => Some(
            session.fail(SummarizeErrorView::Transport(words)),
        ),
        (Stage::Asking, EventView::Status(code)) => Some(
            if code == STATUS_OK {
                (session.at(Stage::ReadingReply), ActionView::ReadBody)
            } else {
                session.fail(SummarizeErrorView::RequestFailed { status: code })
            },
        ),
        (Stage::Asking, EventView::Failed(words)) => Some(
            session.fail(SummarizeErrorView::Transport(words)),
        ),
        (Stage::ReadingReply, EventView::Body(body)) => Some(
            (session.at(Stage::Done), ActionView::Finish(reply_outcome(json_document(body)))),
        ),
        (Stage::ReadingReply, EventView::Failed(words)) => Some(
            session.fail(SummarizeErrorView::Transport(words)),
        ),
        _ => None,
    }
}

/// The session that starts where the text of the document is already at
/// hand, and the first thing to do: to send the request to the model, or to
/// give up on an API key that cannot be sent.
pub open spec fn begin_with_text(api_key: Seq<char>, prompt: Seq<char>, text: Seq<char>) -> (
    SessionView,
    ActionView,
) {
    SessionView { api_key, prompt, stage: Stage::Extracting }.on_extracted(Ok(text))
}

/// What `step` returned, seen as a mathematical value.
pub open spec fn answer_view(answer: Option<Action>) -> Option<ActionView> {
    match answer {
        Some(action) => Some(action@),
        None => None,
    }
}

impl Session {
    /// Starts the summarisation that `request` asks for.
    pub fn start(request: SummarizationRequest) -> (started: (Session, Action))
        ensures
            (started.0@, started.1@) == begin(request@),
    {
        let SummarizationRequest { api_key, prompt, source } = request;
        match source {
            Source::LocalPath(path) => (
                Session { api_key, prompt, stage: Stage::Extracting },
                Action::ExtractFile { path },
            ),
            Source::RemoteUrl(url) => (
                Session { api_key, prompt, stage: Stage::Downloading },
                Action::Get { url },
            ),
        }
    }

    /// What the session waits for.
    pub fn stage(&self) -> (stage: Stage)
        ensures
            stage == self@.stage,
    {
        self.stage
    }

    fn fail(&mut self, failure: SummarizeError) -> (action: Action)
        ensures
            (final(self)@, action@) == old(self)@.fail(failure@),
    {
        self.stage = Stage::Done;
        Action::Finish(Err(failure))
    }

    fn on_extracted(&mut self, extracted: Result<String, String>) -> (action: Action)
        ensures
            (final(self)@, action@) == old(self)@.on_extracted(
                match extracted {
                    Ok(text) => Ok(text@),
                    Err(words) => Err(words@),
                },
            ),
    {
        match extracted {
            Ok(text) => match build_request(
                self.api_key.as_str(),
                self.prompt.as_str(),
                text.as_str(),
            ) {
                Ok(request) => {
                    self.stage = Stage::Asking;
                    Action::Post(request)
                },
                Err(failure) => self.fail(failure),
            },
            Err(words) => self.fail(SummarizeError::ExtractionFailed(words)),
        }
    }

    /// Takes in what came of the last action and answers with the next one.
    /// An event that the session does not wait for at its stage changes
    /// nothing and is answered with nothing.
    pub fn step(&mut self, event: Event) -> (answer: Option<Action>)
        ensures
            match next(old(self)@, event@) {
                Some((session, action)) => final(self)@ == session && answer_view(answer) == Some(
                    action,
                ),
                None => final(self)@ == old(self)@ && answer is None,
            },
    {
        match self.stage {
            Stage::Extracting => match event {
                Event::Extracted(extracted) => Some(self.on_extracted(extracted)),
                _ => None,
            },
            Stage::Downloading => match event {
                Event::Status(code) => if code == STATUS_OK {
                    self.stage = Stage::ExtractingDownload;
                    Some(Action::ExtractBody)
                } else {
                    Some(self.fail(SummarizeError::DownloadFailed { status: code }))
                },
                Event::Failed(words) => Some(self.fail(SummarizeError::Transport(words))),
                _ => None,
            },
            Stage::ExtractingDownload => match event {
                Event::Extracted(extracted) => Some(self.on_extracted(extracted)),
                Event::Failed(words) => Some(self.fail(SummarizeError::Transport(words))),
                _ => None,
            },
            Stage::Asking => match event {
                Event::Status(code) => if code == STATUS_OK {
                    self.stage = Stage::ReadingReply;
                    Some(Action::ReadBody)
                } else {
                    Some(self.fail(SummarizeError::RequestFailed { status: code }))
                },
                Event::Failed(words) => Some(self.fail(SummarizeError::Transport(words))),
                _ => None,
            },
            Stage::ReadingReply => match event {
                Event::Body(body) => {
                    let outcome = read_reply(body.as_slice());
                    self.stage = Stage::Done;
                    Some(Action::Finish(outcome))
                },
                Event::Failed(words) => Some(self.fail(SummarizeError::Transport(words))),
                _ => None,
            },
            Stage::Done => None,
        }
    }
}

/// Starts the summarisation of the PDF file at `path`.
pub fn summarize_from_local(api_key: String, path: String, prompt: String) -> (started: (
    Session,
    Action,
))
    ensures
        (started.0@, started.1@) == begin(
            SummarizationRequestView {
                api_key: api_key@,
                prompt: prompt@,
                source: SourceView::LocalPath(path@),
            },
        ),
{
    Session::start(SummarizationRequest { api_key, prompt, source: Source::LocalPath(path) })
}

/// Starts the summarisation of the PDF document that `url` leads to.
pub fn summarize_from_url(api_key: String, url: String, prompt: String) -> (started: (
    Session,
    Action,
))
    ensures
        (started.0@, started.1@) == begin(
            SummarizationRequestView {
                api_key: api_key@,
                prompt: prompt@,
                source: SourceView::RemoteUrl(url@),
            },
        ),
{
    Session::start(SummarizationRequest { api_key, prompt, source: Source::RemoteUrl(url) })
}

/// Starts the summarisation of a document whose text is at hand.
pub fn summarize_with_gpt(api_key: String, prompt: String, text: String) -> (started: (
    Session,
    Action,
))
    ensures
        (started.0@, started.1@) == begin_with_text(api_key@, prompt@, text@),
{
    let mut session = Session { api_key, prompt, stage: Stage::Extracting };
    let action = session.on_extracted(Ok(text));
    (session, action)
}

} // verus!
