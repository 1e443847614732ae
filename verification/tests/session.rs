use pdf_summarizer::error::SummarizeError;
use pdf_summarizer::payload::ChatPayload;
use pdf_summarizer::request::{build_request, ChatRequest};
use pdf_summarizer::session::{
    summarize_from_local, summarize_from_url, summarize_with_gpt, Action, Event, Session, Source,
    Stage, SummarizationRequest,
};

const REPLY: &[u8] = br#"{"choices":[{"message":{"content":"hello"}}]}"#;

fn local() -> (Session, Action) {
    summarize_from_local("sk-123".to_string(), "/tmp/paper.pdf".to_string(), "shorten".to_string())
}

fn remote() -> (Session, Action) {
    summarize_from_url(
        "sk-123".to_string(),
        "https://example.org/paper.pdf".to_string(),
        "shorten".to_string(),
    )
}

fn asking() -> Session {
    let (mut session, _) = local();
    let answer = session.step(Event::Extracted(Ok("the text".to_string())));
    assert!(matches!(answer, Some(Action::Post(_))));
    session
}

fn every_event() -> Vec<Event> {
    vec![
        Event::Extracted(Ok("more text".to_string())),
        Event::Extracted(Err("no text".to_string())),
        Event::Status(200),
        Event::Status(500),
        Event::Body(REPLY.to_vec()),
        Event::Failed("broken pipe".to_string()),
    ]
}

fn assert_done(mut session: Session) {
    assert_eq!(session.stage(), Stage::Done);
    for event in every_event() {
        assert_eq!(session.step(event), None);
        assert_eq!(session.stage(), Stage::Done);
    }
}

#[test]
fn a_local_summary_starts_with_the_extraction_of_the_file() {
    let (session, action) = local();
    assert_eq!(action, Action::ExtractFile { path: "/tmp/paper.pdf".to_string() });
    assert_eq!(session.stage(), Stage::Extracting);
}

#[test]
fn a_remote_summary_starts_with_the_download() {
    let (session, action) = remote();
    assert_eq!(action, Action::Get { url: "https://example.org/paper.pdf".to_string() });
    assert_eq!(session.stage(), Stage::Downloading);
}

#[test]
fn start_goes_by_the_source() {
    let (session, action) = Session::start(SummarizationRequest {
        api_key: "k".to_string(),
        prompt: "p".to_string(),
        source: Source::LocalPath("a.pdf".to_string()),
    });
    assert_eq!(action, Action::ExtractFile { path: "a.pdf".to_string() });
    assert_eq!(session.stage(), Stage::Extracting);
    let (session, action) = Session::start(SummarizationRequest {
        api_key: "k".to_string(),
        prompt: "p".to_string(),
        source: Source::RemoteUrl("http://h/a.pdf".to_string()),
    });
    assert_eq!(action, Action::Get { url: "http://h/a.pdf".to_string() });
    assert_eq!(session.stage(), Stage::Downloading);
}

#[test]
fn a_local_summary_runs_to_the_content_of_the_reply() {
    let (mut session, _) = local();
    let answer = session.step(Event::Extracted(Ok("the text".to_string())));
    assert_eq!(
        answer,
        Some(Action::Post(ChatRequest {
            url: "https://api.openai.com/v1/chat/completions".to_string(),
            content_type: "application/json".to_string(),
            authorization: "Bearer sk-123".to_string(),
            body: ChatPayload::summarization("shorten", "the text").body(),
        }))
    );
    assert_eq!(session.stage(), Stage::Asking);
    assert_eq!(session.step(Event::Status(200)), Some(Action::ReadBody));
    assert_eq!(session.stage(), Stage::ReadingReply);
    assert_eq!(
        session.step(Event::Body(REPLY.to_vec())),
        Some(Action::Finish(Ok("hello".to_string())))
    );
    assert_done(session);
}

#[test]
fn a_remote_summary_runs_to_the_content_of_the_reply() {
    let (mut session, _) = remote();
    assert_eq!(session.step(Event::Status(200)), Some(Action::ExtractBody));
    assert_eq!(session.stage(), Stage::ExtractingDownload);
    let answer = session.step(Event::Extracted(Ok("downloaded text".to_string())));
    assert_eq!(
        answer,
        Some(Action::Post(build_request("sk-123", "shorten", "downloaded text").unwrap()))
    );
    assert_eq!(session.step(Event::Status(200)), Some(Action::ReadBody));
    assert_eq!(
        session.step(Event::Body(REPLY.to_vec())),
        Some(Action::Finish(Ok("hello".to_string())))
    );
    assert_done(session);
}

#[test]
fn the_extracted_text_is_the_content_of_the_last_message() {
    let text = "Attention Is All You Need\n\"quoted\" \u{8ad6}\u{6587}";
    let (mut session, _) = local();
    let request = match session.step(Event::Extracted(Ok(text.to_string()))) {
        Some(Action::Post(request)) => request,
        other => panic!("{other:?}"),
    };
    let body: serde_json::Value = serde_json::from_str(&request.body).unwrap();
    let messages = body["messages"].as_array().unwrap();
    assert_eq!(messages.len(), 3);
    assert_eq!(messages[1]["content"].as_str(), Some("shorten"));
    assert_eq!(messages[2]["role"].as_str(), Some("user"));
    assert_eq!(messages[2]["content"].as_str(), Some(text));
}

#[test]
fn one_request_is_posted_whatever_is_reported() {
    for first in [local(), remote()] {
        let (mut session, action) = first;
        let mut told = vec![action];
        let mut events = vec![Event::Status(200), Event::Extracted(Ok("text".to_string()))];
        events.extend(every_event());
        events.extend(every_event());
        for event in events {
            if let Some(action) = session.step(event) {
                told.push(action);
            }
        }
        let posts = told.iter().filter(|action| matches!(action, Action::Post(_))).count();
        let outcomes = told.iter().filter(|action| matches!(action, Action::Finish(_))).count();
        assert_eq!(posts, 1);
        assert_eq!(outcomes, 1);
        assert!(matches!(told.last(), Some(Action::Finish(_))));
    }
}

#[test]
fn a_failed_extraction_ends_with_the_words_of_the_extractor() {
    let words = "PDF error: invalid file header";
    let (mut session, _) = local();
    let answer = session.step(Event::Extracted(Err(words.to_string())));
    assert_eq!(
        answer,
        Some(Action::Finish(Err(SummarizeError::ExtractionFailed(words.to_string()))))
    );
    assert_eq!(SummarizeError::ExtractionFailed(words.to_string()).message(), words);
    assert_done(session);

    let (mut session, _) = remote();
    assert_eq!(session.step(Event::Status(200)), Some(Action::ExtractBody));
    let answer = session.step(Event::Extracted(Err(words.to_string())));
    assert_eq!(
        answer,
        Some(Action::Finish(Err(SummarizeError::ExtractionFailed(words.to_string()))))
    );
    assert_done(session);
}

#[test]
fn a_download_that_is_not_ok_ends_with_the_status() {
    for (code, line) in [(404, "404 Not Found"), (500, "500 Internal Server Error"), (201, "201 Created"), (304, "304 Not Modified")] {
        let (mut session, _) = remote();
        let answer = session.step(Event::Status(code));
        assert_eq!(
            answer,
            Some(Action::Finish(Err(SummarizeError::DownloadFailed { status: code })))
        );
        assert_eq!(SummarizeError::DownloadFailed { status: code }.message(), line);
        assert_done(session);
    }
}

#[test]
fn a_request_that_is_not_ok_ends_with_the_status() {
    for (code, line) in [(401, "401 Unauthorized"), (429, "429 Too Many Requests"), (204, "204 No Content"), (503, "503 Service Unavailable")] {
        let mut session = asking();
        let answer = session.step(Event::Status(code));
        assert_eq!(
            answer,
            Some(Action::Finish(Err(SummarizeError::RequestFailed { status: code })))
        );
        assert_eq!(SummarizeError::RequestFailed { status: code }.message(), line);
        assert_done(session);
    }
}

#[test]
fn a_key_that_no_header_can_hold_ends_before_the_request() {
    let refused =
        Some(Action::Finish(Err(SummarizeError::InvalidCredential(
            "failed to parse header value".to_string(),
        ))));
    let (mut session, action) = summarize_from_local(
        "sk\n123".to_string(),
        "/tmp/paper.pdf".to_string(),
        "shorten".to_string(),
    );
    assert_eq!(action, Action::ExtractFile { path: "/tmp/paper.pdf".to_string() });
    assert_eq!(session.step(Event::Extracted(Ok("the text".to_string()))), refused);
    assert_done(session);

    let (mut session, action) = summarize_from_url(
        "sk\n123".to_string(),
        "https://example.org/paper.pdf".to_string(),
        "shorten".to_string(),
    );
    assert_eq!(action, Action::Get { url: "https://example.org/paper.pdf".to_string() });
    assert_eq!(session.step(Event::Status(200)), Some(Action::ExtractBody));
    assert_eq!(session.step(Event::Extracted(Ok("the text".to_string()))), refused);
    assert_done(session);
}

#[test]
fn a_failure_of_the_client_ends_with_its_words() {
    let words = "error sending request for url (https://example.org/paper.pdf)";
    let failed =
        || Some(Action::Finish(Err(SummarizeError::Transport(words.to_string()))));

    let (mut session, _) = remote();
    assert_eq!(session.step(Event::Failed(words.to_string())), failed());
    assert_done(session);

    let (mut session, _) = remote();
    assert_eq!(session.step(Event::Status(200)), Some(Action::ExtractBody));
    assert_eq!(session.step(Event::Failed(words.to_string())), failed());
    assert_done(session);

    let mut session = asking();
    assert_eq!(session.step(Event::Failed(words.to_string())), failed());
    assert_done(session);

    let mut session = asking();
    assert_eq!(session.step(Event::Status(200)), Some(Action::ReadBody));
    assert_eq!(session.step(Event::Failed(words.to_string())), failed());
    assert_done(session);

    assert_eq!(SummarizeError::Transport(words.to_string()).message(), words);
}

#[test]
fn a_reply_without_content_ends_with_null() {
    let mut session = asking();
    assert_eq!(session.step(Event::Status(200)), Some(Action::ReadBody));
    let answer = session.step(Event::Body(br#"{"choices":[{"message":{}}]}"#.to_vec()));
    assert_eq!(answer, Some(Action::Finish(Err(SummarizeError::MissingContent))));
    assert_eq!(SummarizeError::MissingContent.message(), "null");
    assert_done(session);
}

#[test]
fn a_reply_that_is_no_json_ends_with_the_words_of_the_parser() {
    let mut session = asking();
    assert_eq!(session.step(Event::Status(200)), Some(Action::ReadBody));
    let answer = session.step(Event::Body(b"oops".to_vec()));
    let failure = SummarizeError::MalformedResponse("expected value at line 1 column 1".to_string());
    assert_eq!(
        failure.message(),
        "error decoding response body: expected value at line 1 column 1"
    );
    assert_eq!(answer, Some(Action::Finish(Err(failure))));
    assert_done(session);
}

#[test]
fn an_event_out_of_turn_changes_nothing() {
    let (mut session, _) = local();
    for event in [
        Event::Status(200),
        Event::Status(404),
        Event::Body(REPLY.to_vec()),
        Event::Failed("x".to_string()),
    ] {
        assert_eq!(session.step(event), None);
        assert_eq!(session.stage(), Stage::Extracting);
    }

    let (mut session, _) = remote();
    for event in [
        Event::Extracted(Ok("text".to_string())),
        Event::Extracted(Err("x".to_string())),
        Event::Body(REPLY.to_vec()),
    ] {
        assert_eq!(session.step(event), None);
        assert_eq!(session.stage(), Stage::Downloading);
    }
    assert_eq!(session.step(Event::Status(200)), Some(Action::ExtractBody));
    for event in [Event::Status(200), Event::Body(REPLY.to_vec())] {
        assert_eq!(session.step(event), None);
        assert_eq!(session.stage(), Stage::ExtractingDownload);
    }

    let mut session = asking();
    for event in [
        Event::Extracted(Ok("text".to_string())),
        Event::Extracted(Err("x".to_string())),
        Event::Body(REPLY.to_vec()),
    ] {
        assert_eq!(session.step(event), None);
        assert_eq!(session.stage(), Stage::Asking);
    }
    assert_eq!(session.step(Event::Status(200)), Some(Action::ReadBody));
    for event in [
        Event::Extracted(Ok("text".to_string())),
        Event::Status(200),
        Event::Status(401),
    ] {
        assert_eq!(session.step(event), None);
        assert_eq!(session.stage(), Stage::ReadingReply);
    }
    assert_eq!(
        session.step(Event::Body(REPLY.to_vec())),
        Some(Action::Finish(Ok("hello".to_string())))
    );
}

#[test]
fn summarize_with_gpt_posts_the_request_at_once() {
    let (mut session, action) =
        summarize_with_gpt("sk-123".to_string(), "shorten".to_string(), "the text".to_string());
    assert_eq!(action, Action::Post(build_request("sk-123", "shorten", "the text").unwrap()));
    assert_eq!(session.stage(), Stage::Asking);
    assert_eq!(session.step(Event::Status(200)), Some(Action::ReadBody));
    assert_eq!(
        session.step(Event::Body(REPLY.to_vec())),
        Some(Action::Finish(Ok("hello".to_string())))
    );
    assert_done(session);
}

#[test]
fn summarize_with_gpt_refuses_a_key_that_no_header_can_hold() {
    let (session, action) =
        summarize_with_gpt("sk\r\n".to_string(), "shorten".to_string(), "the text".to_string());
    assert_eq!(
        action,
        Action::Finish(Err(SummarizeError::InvalidCredential(
            "failed to parse header value".to_string()
        )))
    );
    assert_done(session);
}
