//! The one request that is sent to the chat-completion service.

use vstd::prelude::*;
use vstd::string::StringExecFns;
use vstd::utf8::encode_utf8;
use crate::error::SummarizeError;
use crate::error::SummarizeErrorView;
use crate::payload::summarization_payload;
use crate::payload::ChatPayload;
use crate::wire::header_bytes_ok;
use crate::wire::header_text_ok;
use crate::wire::check_header_value;
use crate::wire::lemma_header_text;
use crate::wire::lemma_header_text_concat;
use crate::wire::INVALID_HEADER_VALUE;

verus! {

/// Where chat completions are asked for.
pub const ENDPOINT: &'static str = "https://api.openai.com/v1/chat/completions";

/// The content type of the request body.
pub const CONTENT_TYPE: &'static str = "application/json";

/// What stands before the API key in the `Authorization` header.
pub const BEARER: &'static str = "Bearer ";

/// A POST request to the chat-completion service, as plain values: the
/// address, the values of its two headers, and its body.
#[derive(Debug, PartialEq, Eq)]
pub struct ChatRequest {
    pub url: String,
    /// The value of the `Content-Type` header.
    pub content_type: String,
    /// The value of the `Authorization` header.
    pub authorization: String,
    pub body: String,
}

/// The mathematical value of a [`ChatRequest`].
pub struct ChatRequestView {
    pub url: Seq<char>,
    pub content_type: Seq<char>,
    pub authorization: Seq<char>,
    pub body: Seq<char>,
}

impl View for ChatRequest {
    type V = ChatRequestView;

    open spec fn view(&self) -> ChatRequestView {
        ChatRequestView {
            url: self.url@,
            content_type: self.content_type@,
            authorization: self.authorization@,
            body: self.body@,
        }
    }
}

/// An API key that can be sent: no byte of it is one that a header value
/// cannot hold.
pub open spec fn credential_ok(api_key: Seq<char>) -> bool {
    header_bytes_ok(encode_utf8(api_key))
}

/// The request that asks for a summary of `text` as `prompt` describes, in the
/// name of `api_key`; or the refusal of a key that cannot be sent.
pub open spec fn chat_request(api_key: Seq<char>, prompt: Seq<char>, text: Seq<char>) -> Result<
    ChatRequestView,
    SummarizeErrorView,
> {
    if credential_ok(api_key) {
        Ok(
            ChatRequestView {
                url: ENDPOINT@,
                content_type: CONTENT_TYPE@,
                authorization: BEARER@ + api_key,
                body: summarization_payload(prompt, text).body(),
            },
        )
    } else {
        Err(SummarizeErrorView::InvalidCredential(INVALID_HEADER_VALUE@))
    }
}

/// The outcome of building a request, seen as mathematical values.
pub open spec fn built_view(built: Result<ChatRequest, SummarizeError>) -> Result<
    ChatRequestView,
    SummarizeErrorView,
> {
    match built {
        Ok(request) => Ok(request@),
        Err(failure) => Err(failure@),
    }
}

/// The `Authorization` header can hold the key behind [`BEARER`] exactly when
/// the key itself has no byte that a header value cannot hold.
pub proof fn lemma_bearer(api_key: Seq<char>)
    ensures
        header_bytes_ok(encode_utf8(BEARER@ + api_key)) <==> credential_ok(api_key),
{
    reveal_strlit("Bearer ");
    assert(header_text_ok(BEARER@));
    lemma_header_text(BEARER@ + api_key);
    lemma_header_text_concat(BEARER@, api_key);
    lemma_header_text(api_key);
}

/// Builds the request that asks for a summary of `text` as `prompt`
/// describes. The key is checked first: where it cannot be written into a
/// header, nothing else is done.
pub fn build_request(api_key: &str, prompt: &str, text: &str) -> (built: Result<
    ChatRequest,
    SummarizeError,
>)
    ensures
        built_view(built) == chat_request(api_key@, prompt@, text@),
{
    let authorization = String::from_str(BEARER).concat(api_key);
    proof {
        lemma_bearer(api_key@);
    }
    match check_header_value(authorization.as_str()) {
        Err(words) => Err(SummarizeError::InvalidCredential(words)),
        Ok(()) => {
            let body = ChatPayload::summarization(prompt, text).body();
            Ok(
                ChatRequest {
                    url: String::from_str(ENDPOINT),
                    content_type: String::from_str(CONTENT_TYPE),
                    authorization,
                    body,
                },
            )
        },
    }
}

} // verus!
