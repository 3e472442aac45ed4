use actix_web_csp::reporting::likely;
use actix_web_csp::reporting::unlikely;
use actix_web_csp::reporting::ReportAction;
use actix_web_csp::csp_reporting_middleware;
use actix_web_csp::CspError;
use actix_web_csp::CspReportingMiddleware;
use actix_web_csp::CspStats;
use actix_web_csp::CspViolationReport;
use actix_web_csp::ViolationHandler;
use std::sync::atomic::AtomicUsize;
use std::sync::atomic::Ordering;
use std::sync::Arc;

struct Counting(Arc<AtomicUsize>);

impl ViolationHandler for Counting {
    fn on_violation(&self, report: CspViolationReport) {
        assert_eq!(report.blocked_uri, "https://evil.example/x.js");
        self.0.fetch_add(1, Ordering::SeqCst);
    }
}

fn sample(disposition: &str) -> CspViolationReport {
    CspViolationReport::new(
        "https://example.com/".to_string(),
        "".to_string(),
        "https://evil.example/x.js".to_string(),
        "script-src 'self'".to_string(),
        "script-src".to_string(),
        "script-src 'self'".to_string(),
        disposition.to_string(),
    )
}

#[test]
fn report_builders_set_the_optional_fields() {
    let report = sample("enforce");
    assert!(report.source_file.is_none());
    assert!(report.line_number.is_none());
    assert!(report.column_number.is_none());
    assert!(report.status_code.is_none());
    assert!(report.script_sample.is_none());
    assert!(report.is_enforce());
    assert!(!report.is_report());

    let full = sample("report")
        .with_source_file("https://example.com/app.js".to_string())
        .with_line_number(12)
        .with_column_number(34)
        .with_status_code(200)
        .with_script_sample("alert(1)".to_string());
    assert_eq!(full.source_file.as_deref(), Some("https://example.com/app.js"));
    assert_eq!(full.line_number, Some(12));
    assert_eq!(full.column_number, Some(34));
    assert_eq!(full.status_code, Some(200));
    assert_eq!(full.script_sample.as_deref(), Some("alert(1)"));
    assert_eq!(full.document_uri, "https://example.com/");
    assert!(full.is_report());
    assert!(!full.is_enforce());
    assert!(!sample("Enforce").is_enforce());
    assert_eq!(full.clone().line_number, Some(12));
}

#[test]
fn reporting_endpoint_settings() {
    let seen = Arc::new(AtomicUsize::new(0));
    let endpoint = CspReportingMiddleware::new(Box::new(Counting(seen.clone())));
    assert_eq!(endpoint.report_path(), "/csp-report");
    assert_eq!(endpoint.max_report_size(), 16 * 1024);
    assert_eq!(endpoint.stats().violation_count(), 0);

    let mut counted = CspStats::new();
    counted.increment_violation_count();
    let endpoint = endpoint
        .with_report_path("/reports")
        .with_max_report_size(10)
        .with_stats(counted);
    assert_eq!(endpoint.report_path(), "/reports");
    assert_eq!(endpoint.max_report_size(), 10);
    assert_eq!(endpoint.stats().violation_count(), 1);

    assert_eq!(endpoint.classify("/reports", true, 10), ReportAction::Process);
    assert_eq!(endpoint.classify("/reports", true, 11), ReportAction::Reject);
    assert_eq!(endpoint.classify("/reports", false, 1), ReportAction::Forward);
    assert_eq!(endpoint.classify("/csp-report", true, 1), ReportAction::Forward);
    assert!(endpoint.is_report_request("/reports", true));
    assert!(!endpoint.is_report_request("/reports/", true));
}

#[test]
fn reports_are_counted_and_handed_on() {
    let seen = Arc::new(AtomicUsize::new(0));
    let mut endpoint = csp_reporting_middleware(Box::new(Counting(seen.clone())));
    endpoint.handle_report(None);
    assert_eq!(seen.load(Ordering::SeqCst), 0);
    assert_eq!(endpoint.stats().violation_count(), 0);
    endpoint.handle_report(Some(sample("enforce")));
    endpoint.handle_report(Some(sample("report")));
    assert_eq!(seen.load(Ordering::SeqCst), 2);
    assert_eq!(endpoint.stats().violation_count(), 2);
}

#[test]
fn hints_are_the_condition() {
    assert!(likely(true));
    assert!(!likely(false));
    assert!(unlikely(true));
    assert!(!unlikely(false));
}

#[test]
fn errors_have_a_message_and_a_status() {
    let cases = [
        (CspError::InvalidDirectiveValue("v".to_string()), "Invalid directive value: v", 400),
        (CspError::InvalidDirectiveName("v".to_string()), "Invalid directive name: v", 400),
        (CspError::InvalidHashAlgorithm("md5".to_string()), "Invalid hash algorithm: md5", 400),
        (CspError::InvalidNonceValue("v".to_string()), "Invalid nonce value: v", 400),
        (CspError::InvalidReportUri("v".to_string()), "Invalid report URI: v", 400),
        (CspError::CryptoError("v".to_string()), "Crypto error: v", 500),
        (CspError::SerializationError("v".to_string()), "Serialization error: v", 500),
        (CspError::HeaderError("v".to_string()), "Header processing error: v", 500),
        (CspError::ValidationError("v".to_string()), "Policy validation error: v", 400),
        (CspError::ReportError("v".to_string()), "Report processing error: v", 500),
        (CspError::VerificationError("v".to_string()), "Policy verification error: v", 400),
        (CspError::ConfigError("v".to_string()), "Config error: v", 400),
        (CspError::IoError("v".to_string()), "I/O error: v", 500),
    ];
    for (error, message, status) in cases.iter() {
        assert_eq!(error.to_string(), *message);
        assert_eq!(error.status_code(), *status);
    }
}
