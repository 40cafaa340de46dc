//! The request executor's decisions: which credential a request carries,
//! whether a response is accepted, and when a plaintext request is tried
//! once more over TLS.
use vstd::prelude::*;
use vstd::string::StringExecFns;

use crate::error::Failure;
use crate::text::{has_prefix, same_text, starts_with};

verus! {

/// The only host that ever receives the credential header.
pub open spec fn trusted_api_host() -> Seq<char> {
    "api.github.com"@
}

/// The prefix that the scheme rewrite replaces.
pub open spec fn plain_prefix() -> Seq<char> {
    seq!['h', 't', 't', 'p', ':', '/', '/']
}

/// What the scheme rewrite puts in its place.
pub open spec fn secure_prefix() -> Seq<char> {
    seq!['h', 't', 't', 'p', 's', ':', '/', '/']
}

/// The start of a body that marks an intercepted HTML page.
pub open spec fn html_marker() -> Seq<char> {
    "<!DOCTYPE html>"@
}

/// `s` with its scheme set to https: a leading `http://` becomes
/// `https://`, and nothing else changes.
pub open spec fn to_https(s: Seq<char>) -> Seq<char> {
    if has_prefix(s, plain_prefix()) {
        secure_prefix() + s.skip(7)
    } else {
        s
    }
}

/// The URL is plaintext: it starts with `http://`.
pub open spec fn is_plaintext(url: Seq<char>) -> bool {
    has_prefix(url, plain_prefix())
}

/// A status that the executor treats as failure: a client or server error.
pub open spec fn is_failure_status(status: u16) -> bool {
    400 <= status < 600
}

/// The value of the credential header for a request to `host`, when the
/// environment holds `token`.
pub open spec fn credential_header(host: Option<Seq<char>>, token: Option<Seq<char>>) -> Option<Seq<char>> {
    if host == Some(trusted_api_host()) && token is Some {
        Some("token "@ + token->0)
    } else {
        None
    }
}

/// The view of an optional string slice.
pub open spec fn opt_text(o: Option<&str>) -> Option<Seq<char>> {
    match o {
        Some(s) => Some(s@),
        None => None,
    }
}

/// The view of an optional string.
pub open spec fn opt_string(o: Option<String>) -> Option<Seq<char>> {
    match o {
        Some(s) => Some(s@),
        None => None,
    }
}

/// Whether `status` is a client or server error.
pub fn is_failure(status: u16) -> (r: bool)
    ensures
        r == is_failure_status(status),
{
    400 <= status && status < 600
}

/// `url` with its scheme set to https: a leading `http://` becomes
/// `https://`; the host, path and query are kept as they are.
pub fn https_url(url: &str) -> (r: String)
    ensures
        r@ == to_https(url@),
{
    proof {
        reveal_strlit("http://");
        reveal_strlit("https://");
    }
    assert("http://"@ =~= plain_prefix());
    assert("https://"@ =~= secure_prefix());
    if starts_with(url, "http://") {
        let n = url.unicode_len();
        let mut out = String::from_str("https://");
        out.append(url.substring_char(7, n));
        assert(url@.subrange(7, n as int) =~= url@.skip(7));
        out
    } else {
        String::from_str(url)
    }
}

/// The credential header value for a request to `host`: `token <value>`
/// where the host is the trusted API host and a credential is configured,
/// and nothing for any other host.
pub fn authorization(host: Option<&str>, token: Option<&str>) -> (r: Option<String>)
    ensures
        r is Some <==> credential_header(opt_text(host), opt_text(token)) is Some,
        r is Some ==> r->0@ == credential_header(opt_text(host), opt_text(token))->0,
{
    match (host, token) {
        (Some(h), Some(t)) => {
            if same_text(h, "api.github.com") {
                let mut value = String::from_str("token ");
                value.append(t);
                Some(value)
            } else {
                None
            }
        },
        _ => None,
    }
}

/// Which try of a logical request this is.
#[derive(Clone, Copy, Debug, PartialEq, Eq, Structural)]
pub enum Attempt {
    /// The request as the caller gave it.
    First,
    /// The single retry over TLS; nothing follows it.
    Fallback,
}

/// One request: its URL as serialized (scheme, `://`, then the rest), the
/// URL's host, and which try it is. The scheme is read from the URL itself,
/// so the two cannot disagree.
#[derive(Clone, Debug)]
pub struct Target {
    pub url: String,
    pub host: Option<String>,
    pub attempt: Attempt,
}

/// What follows a response's status.
#[derive(Debug)]
pub enum GetStep {
    /// Hand the response to the caller.
    Accept,
    /// Issue the request again, at this URL, as the fallback try.
    Retry { url: String },
    /// Fail with a status error carrying this status.
    Fail { status: u16 },
}

/// What follows a decoded text body.
#[derive(Debug)]
pub enum TextStep {
    /// Hand the text to the caller.
    Accept,
    /// Fetch the text again, at this URL, as the fallback try.
    Retry { url: String },
    /// Fail with this content-mismatch error.
    Mismatch { failure: Failure },
}

impl Target {
    /// This request may still fall back to TLS: its URL is plaintext and
    /// it is the first try.
    pub open spec fn may_fall_back(&self) -> bool {
        is_plaintext(self.url@) && self.attempt == Attempt::First
    }

    /// Whether this request may still fall back to TLS.
    pub fn can_fall_back(&self) -> (r: bool)
        ensures
            r == self.may_fall_back(),
    {
        proof {
            reveal_strlit("http://");
        }
        assert("http://"@ =~= plain_prefix());
        self.attempt == Attempt::First && starts_with(self.url.as_str(), "http://")
    }

    /// The credential header value this request carries, given the
    /// configured credential.
    pub fn authorization(&self, token: Option<&str>) -> (r: Option<String>)
        ensures
            r is Some <==> credential_header(opt_string(self.host), opt_text(token)) is Some,
            r is Some ==> r->0@ == credential_header(opt_string(self.host), opt_text(token))->0,
    {
        match &self.host {
            Some(h) => authorization(Some(h.as_str()), token),
            None => authorization(None, token),
        }
    }

    /// The decision after a response with `status` arrived: accept a
    /// success; on failure, retry once at the https URL when the request is
    /// a first plaintext try, else fail with the status.
    pub fn after_status(&self, status: u16) -> (r: GetStep)
        ensures
            r is Accept <==> !is_failure_status(status),
            r is Retry <==> is_failure_status(status) && self.may_fall_back(),
            r is Retry ==> r->url@ == to_https(self.url@),
            r is Fail ==> r->status == status,
    {
        if !is_failure(status) {
            GetStep::Accept
        } else if self.can_fall_back() {
            GetStep::Retry { url: https_url(self.url.as_str()) }
        } else {
            GetStep::Fail { status }
        }
    }

    /// The decision after the body decoded to `text`: accept it unless it
    /// starts with `<!DOCTYPE html>`; then retry once at the https URL when
    /// the request is a first plaintext try, else fail naming the URL.
    pub fn after_text(&self, text: &str) -> (r: TextStep)
        ensures
            r is Accept <==> !has_prefix(text@, html_marker()),
            r is Retry <==> has_prefix(text@, html_marker()) && self.may_fall_back(),
            r is Retry ==> r->url@ == to_https(self.url@),
            r is Mismatch ==> r->failure.kind == crate::error::FailureKind::ContentMismatch,
            r is Mismatch ==> r->failure.status.is_none(),
            r is Mismatch ==> r->failure.message@ == crate::error::mismatch_prefix() + self.url@,
    {
        if !starts_with(text, "<!DOCTYPE html>") {
            TextStep::Accept
        } else if self.can_fall_back() {
            TextStep::Retry { url: https_url(self.url.as_str()) }
        } else {
            TextStep::Mismatch { failure: Failure::content_mismatch(self.url.as_str()) }
        }
    }
}

/// The retry that a target falls back to: the https form of its URL, marked
/// as the fallback try.
pub open spec fn is_fallback_of(second: Target, first: Target) -> bool {
    &&& second.url@ == to_https(first.url@)
    &&& second.attempt == Attempt::Fallback
}

/// Rewriting a plaintext URL gives one that starts with `https://` and is
/// no longer plaintext; the part after the scheme is kept.
pub proof fn lemma_https_scheme(url: Seq<char>)
    requires
        is_plaintext(url),
    ensures
        has_prefix(to_https(url), secure_prefix()),
        !is_plaintext(to_https(url)),
        to_https(url).skip(8) == url.skip(7),
{
    let r = to_https(url);
    assert(r.subrange(0, 8) =~= secure_prefix());
    assert(r.skip(8) =~= url.skip(7));
    assert(r[4] == 's');
    assert(r.subrange(0, 7)[4] == 's');
}

/// A plaintext first try that fails is retried once, at its URL with only
/// the scheme set to https; the retry is never retried, whatever its status.
pub proof fn lemma_status_fallback_once(first: Target, s1: u16, second: Target, s2: u16)
    requires
        is_plaintext(first.url@),
        first.attempt == Attempt::First,
        is_failure_status(s1),
        is_fallback_of(second, first),
    ensures
        first.may_fall_back(),
        second.url@ == secure_prefix() + first.url@.skip(7),
        !(is_failure_status(s2) && second.may_fall_back()),
        !is_plaintext(second.url@),
{
    lemma_https_scheme(first.url@);
}

/// A request whose URL is not plaintext fails on a failure status with no
/// retry.
pub proof fn lemma_secure_failure_not_retried(t: Target, status: u16)
    requires
        !is_plaintext(t.url@),
    ensures
        !(is_failure_status(status) && t.may_fall_back()),
{
}

/// Text that starts with `<!DOCTYPE html>` from a plaintext first try is
/// fetched once more at the URL with only its scheme set to https; HTML from
/// the retry, or from a request that was not plaintext, is refused rather
/// than retried.
pub proof fn lemma_html_fallback_once(first: Target, text1: Seq<char>, second: Target, text2: Seq<char>)
    requires
        is_plaintext(first.url@),
        first.attempt == Attempt::First,
        has_prefix(text1, html_marker()),
        is_fallback_of(second, first),
    ensures
        first.may_fall_back(),
        second.url@ == secure_prefix() + first.url@.skip(7),
        !(has_prefix(text2, html_marker()) && second.may_fall_back()),
        forall|t: Target| !is_plaintext(t.url@) ==> !(has_prefix(text2, html_marker()) && t.may_fall_back()),
{
}

/// With a credential configured, a request to the trusted API host carries
/// `token <value>`, and a request to any other host carries no credential.
pub proof fn lemma_credential_allow_list(host: Option<Seq<char>>, token: Seq<char>)
    ensures
        credential_header(Some(trusted_api_host()), Some(token)) == Some("token "@ + token),
        host != Some(trusted_api_host()) ==> credential_header(host, Some(token)) is None,
{
}

} // verus!
