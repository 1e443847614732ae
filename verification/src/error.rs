//! The ways in which a summarisation fails.

use vstd::prelude::*;
use vstd::string::StringExecFns;
use crate::wire::describe_status;
use crate::wire::status_line;

verus! {

/// The words for a reply that holds no summary.
pub const NO_CONTENT: &'static str = "null";

/// The words that precede the parser's own when a reply is no JSON.
pub const UNDECODABLE: &'static str = "error decoding response body: ";

/// Why a summarisation ended without a summary. Each failure ends the
/// summarisation at once; nothing is tried again.
#[derive(Debug, PartialEq, Eq)]
pub enum SummarizeError {
    /// The document could not be read or holds no PDF that can be taken
    /// apart; with the extractor's own words.
    ExtractionFailed(String),
    /// The download was answered with a status other than "OK".
    DownloadFailed { status: u16 },
    /// The API key cannot be written into a header; with the words of the
    /// refusal.
    InvalidCredential(String),
    /// The summarisation request was answered with a status other than "OK".
    RequestFailed { status: u16 },
    /// The reply is no JSON document; with the parser's own words.
    MalformedResponse(String),
    /// The reply holds no text at `choices[0].message.content`.
    MissingContent,
    /// A request could not be sent or its answer could not be read; with the
    /// HTTP client's own words.
    Transport(String),
}

/// The mathematical value of a [`SummarizeError`].
pub enum SummarizeErrorView {
    ExtractionFailed(Seq<char>),
    DownloadFailed { status: u16 },
    InvalidCredential(Seq<char>),
    RequestFailed { status: u16 },
    MalformedResponse(Seq<char>),
    MissingContent,
    Transport(Seq<char>),
}

impl View for SummarizeError {
    type V = SummarizeErrorView;

    open spec fn view(&self) -> SummarizeErrorView {
        match self {
            SummarizeError::ExtractionFailed(words) => SummarizeErrorView::ExtractionFailed(words@),
            SummarizeError::DownloadFailed { status } => SummarizeErrorView::DownloadFailed {
                status: *status,
            },
            SummarizeError::InvalidCredential(words) => SummarizeErrorView::InvalidCredential(
                words@,
            ),
            SummarizeError::RequestFailed { status } => SummarizeErrorView::RequestFailed {
                status: *status,
            },
            SummarizeError::MalformedResponse(words) => SummarizeErrorView::MalformedResponse(
                words@,
            ),
            SummarizeError::MissingContent => SummarizeErrorView::MissingContent,
            SummarizeError::Transport(words) => SummarizeErrorView::Transport(words@),
        }
    }
}

impl SummarizeErrorView {
    /// The one line in which the failure is reported to the caller.
    pub open spec fn message(self) -> Seq<char> {
        match self {
            SummarizeErrorView::ExtractionFailed(words) => words,
            SummarizeErrorView::DownloadFailed { status } => status_line(status),
            SummarizeErrorView::InvalidCredential(words) => words,
            SummarizeErrorView::RequestFailed { status } => status_line(status),
            SummarizeErrorView::MalformedResponse(words) => UNDECODABLE@ + words,
            SummarizeErrorView::MissingContent => NO_CONTENT@,
            SummarizeErrorView::Transport(words) => words,
        }
    }
}

/// How a summarisation ends: with the summary, or with the failure.
pub type Outcome = Result<String, SummarizeError>;

/// The mathematical value of an [`Outcome`].
pub open spec fn outcome_view(outcome: Outcome) -> Result<Seq<char>, SummarizeErrorView> {
    match outcome {
        Ok(summary) => Ok(summary@),
        Err(failure) => Err(failure@),
    }
}

impl SummarizeError {
    /// The one line in which the failure is reported to the caller: the words
    /// that the failure carries, the description of the status that was
    /// refused, or `null` where the reply held no summary.
    pub fn message(&self) -> (text: String)
        ensures
            text@ == self@.message(),
    {
        match self {
            SummarizeError::ExtractionFailed(words) => words.clone(),
            SummarizeError::DownloadFailed { status } => describe_status(*status),
            SummarizeError::InvalidCredential(words) => words.clone(),
            SummarizeError::RequestFailed { status } => describe_status(*status),
            SummarizeError::MalformedResponse(words) => String::from_str(UNDECODABLE).concat(
                words.as_str(),
            ),
            SummarizeError::MissingContent => String::from_str(NO_CONTENT),
            SummarizeError::Transport(words) => words.clone(),
        }
    }
}

} // verus!
