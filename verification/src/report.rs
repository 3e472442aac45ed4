use vstd::prelude::*;
use crate::utils::fast_string_compare;

verus! {

/// A violation report as a browser sends it.
#[derive(Debug)]
pub struct CspViolationReport {
    pub document_uri: String,
    pub referrer: String,
    pub blocked_uri: String,
    pub violated_directive: String,
    pub effective_directive: String,
    pub original_policy: String,
    pub disposition: String,
    pub source_file: Option<String>,
    pub line_number: Option<u32>,
    pub column_number: Option<u32>,
    pub status_code: Option<u16>,
    pub script_sample: Option<String>,
}

impl Clone for CspViolationReport {
    fn clone(&self) -> (r: Self)
        ensures
            r == *self,
    {
        CspViolationReport {
            document_uri: self.document_uri.clone(),
            referrer: self.referrer.clone(),
            blocked_uri: self.blocked_uri.clone(),
            violated_directive: self.violated_directive.clone(),
            effective_directive: self.effective_directive.clone(),
            original_policy: self.original_policy.clone(),
            disposition: self.disposition.clone(),
            source_file: match &self.source_file {
                Some(text) => Some(text.clone()),
                None => None,
            },
            line_number: self.line_number,
            column_number: self.column_number,
            status_code: self.status_code,
            script_sample: match &self.script_sample {
                Some(text) => Some(text.clone()),
                None => None,
            },
        }
    }
}

impl CspViolationReport {
    /// A report with the required fields; the optional ones are absent.
    pub fn new(
        document_uri: String,
        referrer: String,
        blocked_uri: String,
        violated_directive: String,
        effective_directive: String,
        original_policy: String,
        disposition: String,
    ) -> (r: Self)
        ensures
            r == (CspViolationReport {
                document_uri,
                referrer,
                blocked_uri,
                violated_directive,
                effective_directive,
                original_policy,
                disposition,
                source_file: None,
                line_number: None,
                column_number: None,
                status_code: None,
                script_sample: None,
            }),
    {
        CspViolationReport {
            document_uri,
            referrer,
            blocked_uri,
            violated_directive,
            effective_directive,
            original_policy,
            disposition,
            source_file: None,
            line_number: None,
            column_number: None,
            status_code: None,
            script_sample: None,
        }
    }

    pub fn with_source_file(self, source_file: String) -> (r: Self)
        ensures
            r == (CspViolationReport { source_file: Some(source_file), ..self }),
    {
        CspViolationReport { source_file: Some(source_file), ..self }
    }

    pub fn with_line_number(self, line_number: u32) -> (r: Self)
        ensures
            r == (CspViolationReport { line_number: Some(line_number), ..self }),
    {
        CspViolationReport { line_number: Some(line_number), ..self }
    }

    pub fn with_column_number(self, column_number: u32) -> (r: Self)
        ensures
            r == (CspViolationReport { column_number: Some(column_number), ..self }),
    {
        CspViolationReport { column_number: Some(column_number), ..self }
    }

    pub fn with_status_code(self, status_code: u16) -> (r: Self)
        ensures
            r == (CspViolationReport { status_code: Some(status_code), ..self }),
    {
        CspViolationReport { status_code: Some(status_code), ..self }
    }

    pub fn with_script_sample(self, script_sample: String) -> (r: Self)
        ensures
            r == (CspViolationReport { script_sample: Some(script_sample), ..self }),
    {
        CspViolationReport { script_sample: Some(script_sample), ..self }
    }

    /// Whether the violated policy was enforced.
    pub fn is_enforce(&self) -> (r: bool)
        ensures
            r == (self.disposition@ == "enforce"@),
    {
        fast_string_compare(self.disposition.as_str(), "enforce")
    }

    /// Whether the violated policy was in report-only mode.
    pub fn is_report(&self) -> (r: bool)
        ensures
            r == (self.disposition@ == "report"@),
    {
        fast_string_compare(self.disposition.as_str(), "report")
    }
}

} // verus!
