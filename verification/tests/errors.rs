use pdf_summarizer::error::{SummarizeError, NO_CONTENT, UNDECODABLE};
use pdf_summarizer::wire::{INVALID_STATUS_CODE, STATUS_OK};
use reqwest::StatusCode;

#[test]
fn the_fixed_words_of_the_failures() {
    assert_eq!(NO_CONTENT, "null");
    assert_eq!(UNDECODABLE, "error decoding response body: ");
    assert_eq!(INVALID_STATUS_CODE, "invalid status code");
    assert_eq!(STATUS_OK, 200);
    assert_eq!(STATUS_OK, StatusCode::OK.as_u16());
}

#[test]
fn a_failure_that_carries_words_reads_as_those_words() {
    assert_eq!(SummarizeError::ExtractionFailed("IO error: gone".to_string()).message(), "IO error: gone");
    assert_eq!(SummarizeError::InvalidCredential("refused".to_string()).message(), "refused");
    assert_eq!(SummarizeError::Transport("timed out".to_string()).message(), "timed out");
    assert_eq!(SummarizeError::ExtractionFailed(String::new()).message(), "");
}

#[test]
fn a_malformed_response_reads_as_a_decoding_failure() {
    assert_eq!(
        SummarizeError::MalformedResponse("EOF while parsing a value at line 1 column 0".to_string())
            .message(),
        "error decoding response body: EOF while parsing a value at line 1 column 0"
    );
    assert_eq!(
        SummarizeError::MalformedResponse(String::new()).message(),
        "error decoding response body: "
    );
}

#[test]
fn missing_content_reads_as_null() {
    assert_eq!(SummarizeError::MissingContent.message(), "null");
}

#[test]
fn a_refused_status_reads_as_its_description() {
    assert_eq!(SummarizeError::DownloadFailed { status: 404 }.message(), "404 Not Found");
    assert_eq!(SummarizeError::RequestFailed { status: 401 }.message(), "401 Unauthorized");
    assert_eq!(SummarizeError::RequestFailed { status: 200 }.message(), "200 OK");
    assert_eq!(SummarizeError::DownloadFailed { status: 418 }.message(), "418 I'm a teapot");
    assert_eq!(
        SummarizeError::DownloadFailed { status: 599 }.message(),
        "599 <unknown status code>"
    );
}

#[test]
fn every_status_code_reads_as_the_client_displays_it() {
    for code in 100u16..1000 {
        let line = StatusCode::from_u16(code).unwrap().to_string();
        assert_eq!(SummarizeError::DownloadFailed { status: code }.message(), line);
        assert_eq!(SummarizeError::RequestFailed { status: code }.message(), line);
        assert!(line.starts_with(&format!("{code} ")));
    }
}

#[test]
fn a_number_that_is_no_status_code_reads_as_invalid() {
    for code in [0u16, 1, 99, 1000, 1001, u16::MAX] {
        assert!(StatusCode::from_u16(code).is_err());
        assert_eq!(SummarizeError::DownloadFailed { status: code }.message(), "invalid status code");
        assert_eq!(SummarizeError::RequestFailed { status: code }.message(), "invalid status code");
    }
}
