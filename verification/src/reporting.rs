use vstd::prelude::*;
use std::borrow::Cow;
use crate::report::CspViolationReport;
use crate::source::cow_str;
use crate::stats::CspStats;
use crate::stats::StatsView;
use crate::utils::fast_string_compare;
use crate::utils::wrapped_sum;

verus! {

/// The path that receives violation reports unless another is chosen.
pub const DEFAULT_REPORT_PATH: &'static str = "/csp-report";

/// The largest report body that is accepted unless another size is chosen.
pub const DEFAULT_MAX_REPORT_SIZE: usize = 16384;

/// A hint that a condition mostly holds. The value is the condition.
pub fn likely(b: bool) -> (r: bool)
    ensures
        r == b,
{
    b
}

/// A hint that a condition mostly fails. The value is the condition.
pub fn unlikely(b: bool) -> (r: bool)
    ensures
        r == b,
{
    b
}

/// Receives the violation reports that arrive.
pub trait ViolationHandler: Send + Sync {
    fn on_violation(&self, report: CspViolationReport);
}

/// What is to be done with a request, as far as reporting is concerned.
#[derive(Debug, Clone, Copy, PartialEq, Eq, Structural)]
pub enum ReportAction {
    /// The request is no report: it goes on to the wrapped service.
    Forward,
    /// The request is a report whose body is too large: it is refused.
    Reject,
    /// The request is a report: its body is read and handed to the handler.
    Process,
}

/// The settings of the endpoint that receives violation reports, with the
/// handler that the reports go to.
pub struct CspReportingMiddleware {
    handler: Box<dyn ViolationHandler>,
    report_path: Cow<'static, str>,
    max_report_size: usize,
    stats: CspStats,
}

impl CspReportingMiddleware {
    /// The path at which reports are received.
    pub closed spec fn report_path_spec(&self) -> Seq<char> {
        self.report_path@
    }

    /// The largest body that is accepted.
    pub closed spec fn max_report_size_spec(&self) -> usize {
        self.max_report_size
    }

    /// The counters of the endpoint.
    pub closed spec fn stats_spec(&self) -> StatsView {
        self.stats@
    }

    pub fn new(handler: Box<dyn ViolationHandler>) -> (r: Self)
        ensures
            r.report_path_spec() == DEFAULT_REPORT_PATH@,
            r.max_report_size_spec() == DEFAULT_MAX_REPORT_SIZE,
            r.stats_spec() == StatsView::zero(),
    {
        CspReportingMiddleware {
            handler,
            report_path: Cow::Borrowed(DEFAULT_REPORT_PATH),
            max_report_size: DEFAULT_MAX_REPORT_SIZE,
            stats: CspStats::new(),
        }
    }

    pub fn with_report_path(self, path: &str) -> (r: Self)
        ensures
            r.report_path_spec() == path@,
            r.max_report_size_spec() == self.max_report_size_spec(),
            r.stats_spec() == self.stats_spec(),
    {
        CspReportingMiddleware {
            handler: self.handler,
            report_path: Cow::Owned(path.to_owned()),
            max_report_size: self.max_report_size,
            stats: self.stats,
        }
    }

    pub fn with_max_report_size(self, size: usize) -> (r: Self)
        ensures
            r.report_path_spec() == self.report_path_spec(),
            r.max_report_size_spec() == size,
            r.stats_spec() == self.stats_spec(),
    {
        CspReportingMiddleware {
            handler: self.handler,
            report_path: self.report_path,
            max_report_size: size,
            stats: self.stats,
        }
    }

    pub fn with_stats(self, stats: CspStats) -> (r: Self)
        ensures
            r.report_path_spec() == self.report_path_spec(),
            r.max_report_size_spec() == self.max_report_size_spec(),
            r.stats_spec() == stats@,
    {
        CspReportingMiddleware {
            handler: self.handler,
            report_path: self.report_path,
            max_report_size: self.max_report_size,
            stats,
        }
    }

    pub fn stats(&self) -> (r: &CspStats)
        ensures
            r@ == self.stats_spec(),
    {
        &self.stats
    }

    pub fn report_path(&self) -> (r: &str)
        ensures
            r@ == self.report_path_spec(),
    {
        cow_str(&self.report_path)
    }

    pub fn max_report_size(&self) -> (r: usize)
        ensures
            r == self.max_report_size_spec(),
    {
        self.max_report_size
    }

    /// Whether a request is a report: a `POST` to the report path.
    pub fn is_report_request(&self, path: &str, is_post: bool) -> (r: bool)
        ensures
            r == (is_post && path@ == self.report_path_spec()),
    {
        is_post && fast_string_compare(path, cow_str(&self.report_path))
    }

    /// What is to be done with a request of that path and method whose body
    /// has that many bytes.
    pub fn classify(&self, path: &str, is_post: bool, body_len: usize) -> (r: ReportAction)
        ensures
            r == if !(is_post && path@ == self.report_path_spec()) {
                ReportAction::Forward
            } else if body_len > self.max_report_size_spec() {
                ReportAction::Reject
            } else {
                ReportAction::Process
            },
    {
        if !self.is_report_request(path, is_post) {
            ReportAction::Forward
        } else if body_len > self.max_report_size {
            ReportAction::Reject
        } else {
            ReportAction::Process
        }
    }

    /// Takes what the body of a report request held. A report is counted
    /// and handed to the handler; a body without a report changes nothing.
    pub fn handle_report(&mut self, report: Option<CspViolationReport>)
        ensures
            final(self).report_path_spec() == old(self).report_path_spec(),
            final(self).max_report_size_spec() == old(self).max_report_size_spec(),
            final(self).stats_spec() == if report is Some {
                StatsView {
                    violation_count: wrapped_sum(old(self).stats_spec().violation_count, 1),
                    ..old(self).stats_spec()
                }
            } else {
                old(self).stats_spec()
            },
    {
        match report {
            Some(found) => {
                self.stats.increment_violation_count();
                self.handler.on_violation(found);
            },
            None => {},
        }
    }
}

/// The reporting endpoint with its default settings.
pub fn csp_reporting_middleware(handler: Box<dyn ViolationHandler>) -> (r: CspReportingMiddleware)
    ensures
        r.report_path_spec() == DEFAULT_REPORT_PATH@,
        r.max_report_size_spec() == DEFAULT_MAX_REPORT_SIZE,
        r.stats_spec() == StatsView::zero(),
{
    CspReportingMiddleware::new(handler)
}

} // verus!
