//! Classification of connectivity-probe results.
//!
//! A probe issues one HTTPS request against the target domain; what came back
//! (a response, an HTTP error status, or a transport failure) is classified
//! here into a [`ProbeOutcome`]. Every transport failure is converted into an
//! outcome value, never surfaced as an error.

use vstd::prelude::*;
use vstd::string::*;

use crate::text::{
    contains_seq, contains_sub, find_char_from, find_sub_from, first_char_from,
    first_occurrence_from, lower_of, lowercase,
};

verus! {

/// Result of one connectivity probe against the target domain.
///
/// `CensorshipRedirect` covers both a redirect to a known block page and a
/// served body that matches a block-page content signature.
#[derive(Debug, PartialEq, Eq, Structural, Clone, Copy)]
pub enum ProbeOutcome {
    Success,
    ConnectionReset,
    Timeout,
    NoConnection,
    CensorshipRedirect,
}

impl ProbeOutcome {
    /// A target is directly reachable exactly when a probe reports `Success`.
    pub fn is_success(&self) -> (r: bool)
        ensures
            r == (*self == ProbeOutcome::Success),
    {
        match self {
            ProbeOutcome::Success => true,
            _ => false,
        }
    }
}

/// A lowercased URL matches the block-page signature set.
pub open spec fn block_url_signature(s: Seq<char>) -> bool {
    ||| contains_seq(s, "block"@)
    ||| contains_seq(s, "warning"@)
    ||| contains_seq(s, "blocked"@)
    ||| contains_seq(s, "rkn"@)
    ||| contains_seq(s, "restriction"@)
}

/// Whether the URL, lowercased, matches a known block-page signature.
pub fn is_block_page_url(url: &str) -> (r: bool)
    ensures
        r == block_url_signature(lower_of(url@)),
{
    let lower = lowercase(url);
    let l = lower.as_str();
    contains_sub(l, "block") || contains_sub(l, "warning") || contains_sub(l, "blocked")
        || contains_sub(l, "rkn") || contains_sub(l, "restriction")
}

/// A lowercased response body matches the block-page content signature set.
pub open spec fn block_content_signature(s: Seq<char>) -> bool {
    ||| contains_seq(s, "заблокирован"@)
    ||| contains_seq(s, "доступ ограничен"@)
    ||| contains_seq(s, "access denied"@)
    ||| contains_seq(s, "blocked by"@)
    ||| contains_seq(s, "webmaster@rkn.gov.ru"@)
}

/// Whether the body, lowercased, matches a known block-page content
/// signature.
pub fn is_block_page_content(body: &str) -> (r: bool)
    ensures
        r == block_content_signature(lower_of(body@)),
{
    let lower = lowercase(body);
    let l = lower.as_str();
    contains_sub(l, "заблокирован") || contains_sub(l, "доступ ограничен") || contains_sub(
        l,
        "access denied",
    ) || contains_sub(l, "blocked by") || contains_sub(l, "webmaster@rkn.gov.ru")
}

/// The authority part of a URL: the second `://`-separated segment (or the
/// whole URL when it has no scheme separator).
pub open spec fn authority_of(url: Seq<char>) -> Seq<char> {
    let sep = seq![':', '/', '/'];
    match first_occurrence_from(url, sep, 0) {
        None => url,
        Some(p) => {
            let start = p + 3;
            let seg_end = match first_occurrence_from(url, sep, start) {
                None => url.len() as int,
                Some(q) => q,
            };
            url.subrange(start, seg_end)
        },
    }
}

/// The domain part of a URL: its authority up to the first `/`.
pub open spec fn domain_of(url: Seq<char>) -> Seq<char> {
    let auth = authority_of(url);
    auth.subrange(0, first_char_from(auth, '/', 0))
}

/// The domain of a URL: the part after the scheme separator and before the
/// first path separator.
pub fn extract_domain(url: &str) -> (r: String)
    ensures
        r@ == domain_of(url@),
{
    let sep = "://";
    proof {
        reveal_strlit("://");
        assert(sep@ =~= seq![':', '/', '/']);
    }
    let n = url.unicode_len();
    let rest_start: usize;
    let rest_end: usize;
    match find_sub_from(url, sep, 0) {
        None => {
            rest_start = 0;
            rest_end = n;
        },
        Some(p) => {
            rest_start = p + 3;
            match find_sub_from(url, sep, rest_start) {
                None => {
                    rest_end = n;
                },
                Some(q) => {
                    rest_end = q;
                },
            }
        },
    }
    let authority = url.substring_char(rest_start, rest_end);
    proof {
        assert(authority@ == authority_of(url@));
    }
    let slash = find_char_from(authority, '/', 0);
    let host = authority.substring_char(0, slash);
    proof {
        assert(host@ == domain_of(url@));
    }
    String::from_str(host)
}

/// The category of a transport-level failure, as reported by the HTTP client.
#[derive(Debug, PartialEq, Eq, Structural, Clone, Copy)]
pub enum TransportErrorKind {
    Io,
    UnknownScheme,
    InvalidUrl,
    Other,
}

/// A lowercased I/O error message carries a timeout signature.
pub open spec fn io_timeout_signature(m: Seq<char>) -> bool {
    contains_seq(m, "timed out"@) || contains_seq(m, "timeout"@)
}

/// A lowercased I/O error message carries a refused/reset/aborted signature.
pub open spec fn io_reset_signature(m: Seq<char>) -> bool {
    ||| contains_seq(m, "connection refused"@)
    ||| contains_seq(m, "connection reset"@)
    ||| contains_seq(m, "connection aborted"@)
}

/// A lowercased I/O error message carries a name-resolution or routing
/// failure signature.
pub open spec fn io_unreachable_signature(m: Seq<char>) -> bool {
    ||| contains_seq(m, "not found"@)
    ||| contains_seq(m, "name resolution failed"@)
    ||| contains_seq(m, "no such host"@)
}

/// Outcome assigned to a transport failure of category `kind` whose
/// lowercased message is `m`. An unrecognized failure is conservatively
/// treated as tampering (`ConnectionReset`), never as success.
pub open spec fn transport_outcome(kind: TransportErrorKind, m: Seq<char>) -> ProbeOutcome {
    match kind {
        TransportErrorKind::Io => if io_timeout_signature(m) {
            ProbeOutcome::Timeout
        } else if io_reset_signature(m) {
            ProbeOutcome::ConnectionReset
        } else if io_unreachable_signature(m) {
            ProbeOutcome::NoConnection
        } else {
            ProbeOutcome::ConnectionReset
        },
        TransportErrorKind::UnknownScheme => ProbeOutcome::NoConnection,
        TransportErrorKind::InvalidUrl => ProbeOutcome::NoConnection,
        TransportErrorKind::Other => ProbeOutcome::ConnectionReset,
    }
}

/// Maps a transport failure to a probe outcome. Total: every failure is
/// classified, none escapes as an error.
pub fn classify_transport_error(kind: &TransportErrorKind, message: &str) -> (r: ProbeOutcome)
    ensures
        r == transport_outcome(*kind, lower_of(message@)),
{
    match kind {
        TransportErrorKind::Io => {
            let lower = lowercase(message);
            let l = lower.as_str();
            if contains_sub(l, "timed out") || contains_sub(l, "timeout") {
                ProbeOutcome::Timeout
            } else if contains_sub(l, "connection refused") || contains_sub(l, "connection reset")
                || contains_sub(l, "connection aborted") {
                ProbeOutcome::ConnectionReset
            } else if contains_sub(l, "not found") || contains_sub(l, "name resolution failed")
                || contains_sub(l, "no such host") {
                ProbeOutcome::NoConnection
            } else {
                ProbeOutcome::ConnectionReset
            }
        },
        TransportErrorKind::UnknownScheme => ProbeOutcome::NoConnection,
        TransportErrorKind::InvalidUrl => ProbeOutcome::NoConnection,
        TransportErrorKind::Other => ProbeOutcome::ConnectionReset,
    }
}

/// View of an optional string slice.
pub open spec fn opt_view(o: Option<&str>) -> Option<Seq<char>> {
    match o {
        Some(s) => Some(s@),
        None => None,
    }
}

/// Outcome assigned to an HTTP error status: a redirect status whose
/// `Location` target matches the block-page signature set is a censorship
/// redirect; everything else counts as an active block.
pub open spec fn status_outcome(code: int, location: Option<Seq<char>>) -> ProbeOutcome {
    match location {
        Some(l) => if 300 <= code < 400 && block_url_signature(lower_of(l)) {
            ProbeOutcome::CensorshipRedirect
        } else {
            ProbeOutcome::ConnectionReset
        },
        None => ProbeOutcome::ConnectionReset,
    }
}

/// Classifies a non-success HTTP status, given the `Location` header when one
/// was present.
pub fn classify_http_status(code: u16, location: Option<&str>) -> (r: ProbeOutcome)
    ensures
        r == status_outcome(code as int, opt_view(location)),
{
    match location {
        Some(l) => {
            if 300 <= code && code < 400 && is_block_page_url(l) {
                ProbeOutcome::CensorshipRedirect
            } else {
                ProbeOutcome::ConnectionReset
            }
        },
        None => ProbeOutcome::ConnectionReset,
    }
}

/// Outcome assigned to a transport-level success: a cross-domain redirect to
/// a block page is a censorship redirect, a body matching a block-page
/// content signature is a censorship redirect, an unreadable body counts as
/// an active block, and anything else is success. `body` is `None` when the
/// body could not be read.
pub open spec fn response_outcome(req: Seq<char>, fin: Seq<char>, body: Option<Seq<char>>)
    -> ProbeOutcome {
    let req_l = lower_of(req);
    let fin_l = lower_of(fin);
    if req_l != fin_l && domain_of(req_l) != domain_of(fin_l) && block_url_signature(lower_of(fin)) {
        ProbeOutcome::CensorshipRedirect
    } else {
        match body {
            None => ProbeOutcome::ConnectionReset,
            Some(b) => if block_content_signature(lower_of(b)) {
                ProbeOutcome::CensorshipRedirect
            } else {
                ProbeOutcome::Success
            },
        }
    }
}

/// Classifies a response that arrived at the transport level: `req_url` is
/// the URL that was requested, `final_url` the URL the response came from
/// after redirects, and `body` the response body when it could be read.
pub fn classify_response(req_url: &str, final_url: &str, body: Option<&str>) -> (r: ProbeOutcome)
    ensures
        r == response_outcome(req_url@, final_url@, opt_view(body)),
{
    let req_l = lowercase(req_url);
    let fin_l = lowercase(final_url);
    if !crate::text::eq_str(req_l.as_str(), fin_l.as_str()) {
        let req_domain = extract_domain(req_l.as_str());
        let fin_domain = extract_domain(fin_l.as_str());
        if !crate::text::eq_str(req_domain.as_str(), fin_domain.as_str()) {
            if is_block_page_url(final_url) {
                return ProbeOutcome::CensorshipRedirect;
            }
        }
    }
    match body {
        None => ProbeOutcome::ConnectionReset,
        Some(b) => {
            if is_block_page_content(b) {
                ProbeOutcome::CensorshipRedirect
            } else {
                ProbeOutcome::Success
            }
        },
    }
}

/// Verdict of the upfront DPI fingerprint check against the bare target.
#[derive(Debug, PartialEq, Eq, Structural, Clone, Copy)]
pub enum DPITestResult {
    NoDPI,
    DPIDetected,
    ISPBlocked,
    NoConnection,
    Unclear,
}

/// The DPI verdict drawn from a probe outcome: a reset or a timeout is taken
/// as DPI interference, a censorship redirect as a provider-level block.
pub open spec fn dpi_outcome_of(o: ProbeOutcome) -> DPITestResult {
    match o {
        ProbeOutcome::Success => DPITestResult::NoDPI,
        ProbeOutcome::ConnectionReset => DPITestResult::DPIDetected,
        ProbeOutcome::Timeout => DPITestResult::DPIDetected,
        ProbeOutcome::NoConnection => DPITestResult::NoConnection,
        ProbeOutcome::CensorshipRedirect => DPITestResult::ISPBlocked,
    }
}

/// Maps a probe outcome to the DPI verdict reported to the user.
pub fn dpi_result_of(outcome: &ProbeOutcome) -> (r: DPITestResult)
    ensures
        r == dpi_outcome_of(*outcome),
{
    match outcome {
        ProbeOutcome::Success => DPITestResult::NoDPI,
        ProbeOutcome::ConnectionReset => DPITestResult::DPIDetected,
        ProbeOutcome::Timeout => DPITestResult::DPIDetected,
        ProbeOutcome::NoConnection => DPITestResult::NoConnection,
        ProbeOutcome::CensorshipRedirect => DPITestResult::ISPBlocked,
    }
}

impl DPITestResult {
    /// The fixed English report line for this verdict.
    pub open spec fn spec_english(self) -> Seq<char> {
        match self {
            DPITestResult::NoDPI => "DPI not found, site available directly"@,
            DPITestResult::DPIDetected => "DPI LOCKING FOUND"@,
            DPITestResult::ISPBlocked => "SITE LOCKED BY YOUR INTERNET PROVIDER"@,
            DPITestResult::NoConnection => "No connection with site"@,
            DPITestResult::Unclear => "Check result is unclear"@,
        }
    }

    /// Renders the verdict as its fixed English report line.
    pub fn to_english_string(&self) -> (r: String)
        ensures
            r@ == self.spec_english(),
    {
        match self {
            DPITestResult::NoDPI => String::from_str("DPI not found, site available directly"),
            DPITestResult::DPIDetected => String::from_str("DPI LOCKING FOUND"),
            DPITestResult::ISPBlocked => String::from_str(
                "SITE LOCKED BY YOUR INTERNET PROVIDER",
            ),
            DPITestResult::NoConnection => String::from_str("No connection with site"),
            DPITestResult::Unclear => String::from_str("Check result is unclear"),
        }
    }
}

} // verus!
