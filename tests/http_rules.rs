use mise_http::config::{ClientConfig, Timeout, DEFAULT_TIMEOUT_SECS, VERSION_CHECK_TIMEOUT_SECS};
use mise_http::download::{declared_total, ChunkStep, Transfer, BUFFER_SIZE};
use mise_http::error::{error_code, Failure, FailureKind};
use mise_http::request::{authorization, https_url, is_failure, Attempt, GetStep, Target, TextStep};
use mise_http::text::{contains, same_text, starts_with};

fn target(url: &str, host: &str, attempt: Attempt) -> Target {
    Target {
        url: url.to_string(),
        host: Some(host.to_string()),
        attempt,
    }
}

#[test]
fn rewrites_plain_scheme() {
    assert_eq!(https_url("http://example.com/a"), "https://example.com/a");
    assert_eq!(https_url("https://example.com/a"), "https://example.com/a");
    assert_eq!(https_url("http://a.org/?next=http://b.org"), "https://a.org/?next=http://b.org");
    assert_eq!(https_url("ftp://x/http://y"), "ftp://x/http://y");
    assert_eq!(https_url("http://"), "https://");
    assert_eq!(https_url(""), "");
    assert_eq!(https_url("http:/x"), "http:/x");
}

#[test]
fn failure_statuses() {
    assert!(!is_failure(200));
    assert!(!is_failure(304));
    assert!(!is_failure(399));
    assert!(is_failure(400));
    assert!(is_failure(404));
    assert!(is_failure(599));
    assert!(!is_failure(600));
}

#[test]
fn plaintext_failure_retries_once_over_https() {
    let first = target("http://example.com/v", "example.com", Attempt::First);
    let url = match first.after_status(503) {
        GetStep::Retry { url } => url,
        other => panic!("expected a retry, got {:?}", other),
    };
    assert_eq!(url, "https://example.com/v");
    let second = target(&url, "example.com", Attempt::Fallback);
    match second.after_status(503) {
        GetStep::Fail { status } => assert_eq!(status, 503),
        other => panic!("expected a failure, got {:?}", other),
    }
    assert!(matches!(second.after_status(200), GetStep::Accept));
}

#[test]
fn retry_rewrites_the_scheme_only() {
    let first = target("http://a/?http://b", "a", Attempt::First);
    match first.after_status(503) {
        GetStep::Retry { url } => assert_eq!(url, "https://a/?http://b"),
        other => panic!("expected a retry, got {:?}", other),
    }
    match first.after_text("<!DOCTYPE html>") {
        TextStep::Retry { url } => assert_eq!(url, "https://a/?http://b"),
        other => panic!("expected a retry, got {:?}", other),
    }
    let second = target("https://a/?http://b", "a", Attempt::Fallback);
    match second.after_text("<!DOCTYPE html>") {
        TextStep::Mismatch { failure } => {
            assert_eq!(failure.message, "Got HTML instead of text from https://a/?http://b");
        }
        other => panic!("expected a mismatch, got {:?}", other),
    }
}

#[test]
fn https_first_try_with_plain_text_in_query_is_not_retried() {
    let t = target("https://a/?u=http://b", "a", Attempt::First);
    assert!(!t.can_fall_back());
    assert!(matches!(t.after_status(500), GetStep::Fail { status: 500 }));
}

#[test]
fn fallback_try_is_never_retried_even_if_plaintext() {
    let t = target("http://example.com/v", "example.com", Attempt::Fallback);
    assert!(!t.can_fall_back());
    assert!(matches!(t.after_status(404), GetStep::Fail { status: 404 }));
}

#[test]
fn https_failure_fails_without_retry() {
    let t = target("https://example.com/v", "example.com", Attempt::First);
    match t.after_status(404) {
        GetStep::Fail { status } => assert_eq!(status, 404),
        other => panic!("expected a failure, got {:?}", other),
    }
}

#[test]
fn success_is_accepted() {
    let t = target("http://example.com/v", "example.com", Attempt::First);
    assert!(matches!(t.after_status(200), GetStep::Accept));
}

#[test]
fn html_body_over_plaintext_retries_then_fails() {
    let first = target("http://example.com/t", "example.com", Attempt::First);
    let url = match first.after_text("<!DOCTYPE html>...") {
        TextStep::Retry { url } => url,
        other => panic!("expected a retry, got {:?}", other),
    };
    assert_eq!(url, "https://example.com/t");
    let second = target(&url, "example.com", Attempt::Fallback);
    match second.after_text("<!DOCTYPE html>...") {
        TextStep::Mismatch { failure } => {
            assert_eq!(failure.kind, FailureKind::ContentMismatch);
            assert_eq!(failure.message, "Got HTML instead of text from https://example.com/t");
            assert_eq!(failure.status, None);
        }
        other => panic!("expected a mismatch, got {:?}", other),
    }
}

#[test]
fn html_body_over_https_fails_at_once() {
    let t = target("https://example.com/t", "example.com", Attempt::First);
    match t.after_text("<!DOCTYPE html><html></html>") {
        TextStep::Mismatch { failure } => {
            assert_eq!(failure.message, "Got HTML instead of text from https://example.com/t");
        }
        other => panic!("expected a mismatch, got {:?}", other),
    }
}

#[test]
fn plain_text_is_accepted() {
    let t = target("http://example.com/t", "example.com", Attempt::First);
    assert!(matches!(t.after_text("1.2.3\n"), TextStep::Accept));
    assert!(matches!(t.after_text(" <!DOCTYPE html>"), TextStep::Accept));
    assert!(matches!(t.after_text(""), TextStep::Accept));
}

#[test]
fn credential_only_for_trusted_host() {
    assert_eq!(authorization(Some("api.github.com"), Some("abc")), Some("token abc".to_string()));
    assert_eq!(authorization(Some("github.com"), Some("abc")), None);
    assert_eq!(authorization(Some("api.github.com.evil.org"), Some("abc")), None);
    assert_eq!(authorization(None, Some("abc")), None);
    assert_eq!(authorization(Some("api.github.com"), None), None);
    let t = target("https://api.github.com/repos/x/y", "api.github.com", Attempt::First);
    assert_eq!(t.authorization(Some("s3cr3t")), Some("token s3cr3t".to_string()));
    let u = target("https://example.com/repos/x/y", "example.com", Attempt::First);
    assert_eq!(u.authorization(Some("s3cr3t")), None);
}

#[test]
fn classifies_not_found_by_message() {
    let e = Failure {
        kind: FailureKind::Transport,
        message: "request failed: 404 Not Found".to_string(),
        status: None,
    };
    assert_eq!(error_code(&e), Some(404));
}

#[test]
fn classifies_typed_status() {
    let e = Failure::http_status(
        503,
        "HTTP status server error (503 Service Unavailable) for url (https://example.com/)".to_string(),
    );
    assert_eq!(e.kind, FailureKind::Status);
    assert_eq!(error_code(&e), Some(503));
}

#[test]
fn message_heuristic_masks_typed_status() {
    let e = Failure::http_status(500, "server error for /v1/404/x".to_string());
    assert_eq!(error_code(&e), Some(404));
}

#[test]
fn unrelated_error_is_unclassified() {
    let e = Failure {
        kind: FailureKind::Decode,
        message: "expected value at line 1 column 1".to_string(),
        status: None,
    };
    assert_eq!(error_code(&e), None);
    let m = Failure::content_mismatch("http://x.org/");
    assert_eq!(m.to_message(), "Got HTML instead of text from http://x.org/");
    assert_eq!(error_code(&m), None);
}

#[test]
fn download_of_70000_bytes_is_metered() {
    assert_eq!(declared_total(Some(70000), true), Some(70000));
    let mut t = Transfer::new(Some(70000), true);
    let mut declared = Vec::new();
    if let Some(total) = t.take_total() {
        declared.push(total);
    }
    assert_eq!(t.take_total(), None);
    let mut reported: u64 = 0;
    let mut remaining: usize = 70000;
    loop {
        let n = remaining.min(BUFFER_SIZE);
        remaining -= n;
        match t.on_read(n) {
            ChunkStep::Finish => break,
            ChunkStep::Write { len } => {
                assert_eq!(len, n);
                reported += len as u64;
            }
        }
    }
    assert_eq!(declared, vec![70000]);
    assert_eq!(reported, 70000);
    assert_eq!(t.written, 70000);
    assert!(t.finished);
}

#[test]
fn download_metered_in_uneven_chunks() {
    let mut t = Transfer::new(Some(70000), true);
    assert_eq!(t.take_total(), Some(70000));
    let mut reported: u64 = 0;
    for n in [1usize, 32768, 17, 20000, 17214, 0] {
        if let ChunkStep::Write { len } = t.on_read(n) {
            reported += len as u64;
        }
    }
    assert_eq!(reported, 70000);
    assert_eq!(t.written, 70000);
    assert!(t.finished);
}

#[test]
fn nothing_declared_without_sink_or_length() {
    assert_eq!(declared_total(Some(70000), false), None);
    assert_eq!(declared_total(None, true), None);
    assert_eq!(declared_total(None, false), None);
    let mut t = Transfer::new(Some(70000), false);
    assert_eq!(t.take_total(), None);
    let mut u = Transfer::new(None, true);
    assert_eq!(u.take_total(), None);
}

#[test]
fn empty_body_finishes_at_once() {
    let mut t = Transfer::new(Some(0), true);
    assert_eq!(t.take_total(), Some(0));
    assert_eq!(t.on_read(0), ChunkStep::Finish);
    assert_eq!(t.written, 0);
    assert!(t.finished);
}

#[test]
fn client_profiles() {
    let timeout = Timeout { secs: 12, nanos: 345_000_001 };
    let c = ClientConfig::new(timeout, "2024.1.0");
    assert_eq!(c.timeout, timeout);
    assert_eq!(c.connect_timeout, timeout);
    assert_eq!(c.user_agent, "mise/2024.1.0");
    assert!(c.gzip);
    let v = ClientConfig::version_check("1.0");
    assert_eq!(v.timeout, Timeout::from_secs(VERSION_CHECK_TIMEOUT_SECS));
    assert_eq!(v.timeout, Timeout { secs: 3, nanos: 0 });
    assert_eq!(v.user_agent, "mise/1.0");
    let g = ClientConfig::general("1.0");
    assert_eq!(g.connect_timeout, Timeout { secs: DEFAULT_TIMEOUT_SECS, nanos: 0 });
    assert_eq!(g.timeout.secs, 30);
}

#[test]
fn text_helpers() {
    assert!(contains("abc404def", "404"));
    assert!(!contains("40 4", "404"));
    assert!(contains("x", ""));
    assert!(!contains("", "a"));
    assert!(starts_with("<!DOCTYPE html>", "<!DOCTYPE html>"));
    assert!(!starts_with("<!DOCTYPE", "<!DOCTYPE html>"));
    assert!(same_text("http", "http"));
    assert!(!same_text("https", "http"));
}
