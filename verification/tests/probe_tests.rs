use preconfig_tester::probe::{
    classify_http_status, classify_response, classify_transport_error, dpi_result_of,
    extract_domain, is_block_page_content, is_block_page_url, DPITestResult, ProbeOutcome,
    TransportErrorKind,
};

#[test]
fn transport_timeout_signatures() {
    assert_eq!(
        classify_transport_error(&TransportErrorKind::Io, "Connection timed out after 5s"),
        ProbeOutcome::Timeout
    );
    assert_eq!(
        classify_transport_error(&TransportErrorKind::Io, "read TIMEOUT"),
        ProbeOutcome::Timeout
    );
}

#[test]
fn transport_reset_signatures() {
    assert_eq!(
        classify_transport_error(&TransportErrorKind::Io, "Connection reset by peer"),
        ProbeOutcome::ConnectionReset
    );
    assert_eq!(
        classify_transport_error(&TransportErrorKind::Io, "connection refused"),
        ProbeOutcome::ConnectionReset
    );
    assert_eq!(
        classify_transport_error(&TransportErrorKind::Io, "Connection aborted mid-flight"),
        ProbeOutcome::ConnectionReset
    );
}

#[test]
fn transport_resolution_signatures() {
    assert_eq!(
        classify_transport_error(&TransportErrorKind::Io, "host not found"),
        ProbeOutcome::NoConnection
    );
    assert_eq!(
        classify_transport_error(&TransportErrorKind::Io, "Name resolution failed for target"),
        ProbeOutcome::NoConnection
    );
    assert_eq!(
        classify_transport_error(&TransportErrorKind::Io, "no such host is known"),
        ProbeOutcome::NoConnection
    );
}

#[test]
fn transport_unrecognized_defaults_to_reset() {
    // Every transport failure is classified; an unknown one conservatively
    // counts as tampering, never as success.
    assert_eq!(
        classify_transport_error(&TransportErrorKind::Io, "weird I/O condition"),
        ProbeOutcome::ConnectionReset
    );
    assert_eq!(
        classify_transport_error(&TransportErrorKind::Other, "anything at all"),
        ProbeOutcome::ConnectionReset
    );
}

#[test]
fn transport_bad_urls_mean_no_connection() {
    assert_eq!(
        classify_transport_error(&TransportErrorKind::UnknownScheme, "gopher://x"),
        ProbeOutcome::NoConnection
    );
    assert_eq!(
        classify_transport_error(&TransportErrorKind::InvalidUrl, "not a url"),
        ProbeOutcome::NoConnection
    );
}

#[test]
fn redirect_to_block_page_is_censorship() {
    // HTTP 302 with a Location matching a block-page signature substring.
    assert_eq!(
        classify_http_status(302, Some("https://isp.example/blocked?src=x")),
        ProbeOutcome::CensorshipRedirect
    );
    assert_eq!(
        classify_http_status(302, Some("https://warning.rt.ru/")),
        ProbeOutcome::CensorshipRedirect
    );
}

#[test]
fn other_statuses_are_reset() {
    assert_eq!(
        classify_http_status(302, Some("https://example.com/elsewhere")),
        ProbeOutcome::ConnectionReset
    );
    assert_eq!(classify_http_status(302, None), ProbeOutcome::ConnectionReset);
    assert_eq!(
        classify_http_status(404, Some("https://isp.example/blocked")),
        ProbeOutcome::ConnectionReset
    );
    assert_eq!(classify_http_status(500, None), ProbeOutcome::ConnectionReset);
}

#[test]
fn cross_domain_redirect_to_block_page() {
    assert_eq!(
        classify_response(
            "https://example.com",
            "https://isp.example/BLOCKED.html",
            Some("irrelevant")
        ),
        ProbeOutcome::CensorshipRedirect
    );
}

#[test]
fn same_domain_redirect_reads_the_body() {
    // Same registrable domain: the redirect check does not fire even though
    // the final URL contains a signature substring.
    assert_eq!(
        classify_response(
            "https://example.com",
            "https://example.com/warning",
            Some("plain content")
        ),
        ProbeOutcome::Success
    );
}

#[test]
fn block_page_body_is_censorship() {
    assert_eq!(
        classify_response(
            "https://example.com",
            "https://example.com",
            Some("<html>Access Denied by policy</html>")
        ),
        ProbeOutcome::CensorshipRedirect
    );
    // Localized block-page content, uppercase: exercises real lowercasing.
    assert_eq!(
        classify_response(
            "https://example.com",
            "https://example.com",
            Some("<html>ДОСТУП ОГРАНИЧЕН</html>")
        ),
        ProbeOutcome::CensorshipRedirect
    );
}

#[test]
fn unreadable_body_is_reset() {
    assert_eq!(
        classify_response("https://example.com", "https://example.com", None),
        ProbeOutcome::ConnectionReset
    );
}

#[test]
fn ordinary_response_is_success() {
    assert_eq!(
        classify_response("https://example.com", "https://example.com", Some("<html>hi</html>")),
        ProbeOutcome::Success
    );
}

#[test]
fn block_page_url_signatures() {
    assert!(is_block_page_url("https://isp.example/block/123"));
    assert!(is_block_page_url("https://WARNING.example"));
    assert!(is_block_page_url("https://x.example/?reason=Restriction"));
    assert!(is_block_page_url("https://rkn.gov.ru/x"));
    assert!(!is_block_page_url("https://example.com/"));
}

#[test]
fn block_page_content_signatures() {
    assert!(is_block_page_content("доступ ограничен"));
    assert!(is_block_page_content("Сайт ЗАБЛОКИРОВАН провайдером"));
    assert!(is_block_page_content("access denied"));
    assert!(is_block_page_content("This site is Blocked By your ISP"));
    assert!(is_block_page_content("contact webmaster@rkn.gov.ru"));
    assert!(!is_block_page_content("everything is fine"));
}

#[test]
fn extract_domain_cases() {
    assert_eq!(extract_domain("https://example.com/path/x"), "example.com");
    assert_eq!(extract_domain("example.com/path"), "example.com");
    assert_eq!(extract_domain("https://example.com"), "example.com");
    // A second scheme separator ends the authority segment.
    assert_eq!(extract_domain("a://b:c://d"), "b:c");
}

#[test]
fn probe_outcome_success_test() {
    assert!(ProbeOutcome::Success.is_success());
    assert!(!ProbeOutcome::Timeout.is_success());
}

#[test]
fn dpi_verdicts() {
    assert_eq!(dpi_result_of(&ProbeOutcome::Success), DPITestResult::NoDPI);
    assert_eq!(dpi_result_of(&ProbeOutcome::ConnectionReset), DPITestResult::DPIDetected);
    assert_eq!(dpi_result_of(&ProbeOutcome::Timeout), DPITestResult::DPIDetected);
    assert_eq!(dpi_result_of(&ProbeOutcome::NoConnection), DPITestResult::NoConnection);
    assert_eq!(dpi_result_of(&ProbeOutcome::CensorshipRedirect), DPITestResult::ISPBlocked);
}

#[test]
fn english_report_lines() {
    assert_eq!(
        DPITestResult::NoDPI.to_english_string(),
        "DPI not found, site available directly"
    );
    assert_eq!(DPITestResult::DPIDetected.to_english_string(), "DPI LOCKING FOUND");
    assert_eq!(
        DPITestResult::ISPBlocked.to_english_string(),
        "SITE LOCKED BY YOUR INTERNET PROVIDER"
    );
    assert_eq!(DPITestResult::NoConnection.to_english_string(), "No connection with site");
    assert_eq!(DPITestResult::Unclear.to_english_string(), "Check result is unclear");
}
