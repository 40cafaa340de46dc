//! The library's error value and the status classifier over it.
use vstd::prelude::*;
use vstd::string::StringExecFns;

use crate::text::{contains, contains_seq};

verus! {

/// What went wrong, by origin.
#[derive(Clone, Copy, Debug, PartialEq, Eq, Structural)]
pub enum FailureKind {
    /// Connection failure, timeout, TLS failure.
    Transport,
    /// A non-success HTTP status after the fallback was spent.
    Status,
    /// An HTML page came back where text was expected.
    ContentMismatch,
    /// The body could not be deserialized.
    Decode,
    /// Creating a directory or writing the destination failed.
    Filesystem,
    /// The URL could not be parsed.
    Url,
}

/// An error as callers see it: its origin, its textual rendering, and the
/// HTTP status that the transport layer attached where it knew one.
#[derive(Clone, Debug)]
pub struct Failure {
    pub kind: FailureKind,
    pub message: String,
    pub status: Option<u16>,
}

/// The prefix of the message of a content-mismatch error.
pub open spec fn mismatch_prefix() -> Seq<char> {
    "Got HTML instead of text from "@
}

/// The substring that the classifier treats as a not-found status.
pub open spec fn not_found_marker() -> Seq<char> {
    "404"@
}

/// The status that `error_code` reports for an error with this rendering and
/// typed status: 404 wherever the rendering mentions "404", else the typed
/// status, if any.
pub open spec fn classify(message: Seq<char>, status: Option<u16>) -> Option<u16> {
    if contains_seq(message, not_found_marker()) {
        Some(404u16)
    } else {
        status
    }
}

impl Failure {
    /// A status error carrying the response's status code.
    pub fn http_status(status: u16, message: String) -> (f: Failure)
        ensures
            f.kind == FailureKind::Status,
            f.status == Some(status),
            f.message@ == message@,
    {
        Failure { kind: FailureKind::Status, message, status: Some(status) }
    }

    /// The error for an HTML body where text was expected, naming the URL.
    pub fn content_mismatch(url: &str) -> (f: Failure)
        ensures
            f.kind == FailureKind::ContentMismatch,
            f.status.is_none(),
            f.message@ == mismatch_prefix() + url@,
    {
        let mut message = String::from_str("Got HTML instead of text from ");
        message.append(url);
        Failure { kind: FailureKind::ContentMismatch, message, status: None }
    }

    /// The textual rendering of the error.
    pub fn to_message(&self) -> (r: String)
        ensures
            r@ == self.message@,
    {
        self.message.clone()
    }
}

/// Best-effort HTTP status of an error: 404 when its rendering contains
/// "404" (a coarse heuristic that can mask another typed status), else the
/// status that its origin attached, else none.
pub fn error_code(e: &Failure) -> (r: Option<u16>)
    ensures
        r == classify(e.message@, e.status),
{
    if contains(e.message.as_str(), "404") {
        Some(404)
    } else {
        e.status
    }
}

} // verus!
