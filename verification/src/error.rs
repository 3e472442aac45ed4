use vstd::prelude::*;

verus! {

/// What can go wrong while a policy is built, compiled or checked against.
/// Every variant carries the text that describes the failing value.
#[derive(Debug)]
pub enum CspError {
    InvalidDirectiveValue(String),
    InvalidDirectiveName(String),
    InvalidHashAlgorithm(String),
    InvalidNonceValue(String),
    InvalidReportUri(String),
    CryptoError(String),
    SerializationError(String),
    HeaderError(String),
    ValidationError(String),
    ReportError(String),
    VerificationError(String),
    ConfigError(String),
    IoError(String),
}

impl CspError {
    /// The text carried by the error.
    pub open spec fn detail(self) -> Seq<char> {
        match self {
            CspError::InvalidDirectiveValue(m) => m@,
            CspError::InvalidDirectiveName(m) => m@,
            CspError::InvalidHashAlgorithm(m) => m@,
            CspError::InvalidNonceValue(m) => m@,
            CspError::InvalidReportUri(m) => m@,
            CspError::CryptoError(m) => m@,
            CspError::SerializationError(m) => m@,
            CspError::HeaderError(m) => m@,
            CspError::ValidationError(m) => m@,
            CspError::ReportError(m) => m@,
            CspError::VerificationError(m) => m@,
            CspError::ConfigError(m) => m@,
            CspError::IoError(m) => m@,
        }
    }

    /// The fixed words that introduce each kind of error.
    pub open spec fn label(self) -> Seq<char> {
        match self {
            CspError::InvalidDirectiveValue(_) => "Invalid directive value: "@,
            CspError::InvalidDirectiveName(_) => "Invalid directive name: "@,
            CspError::InvalidHashAlgorithm(_) => "Invalid hash algorithm: "@,
            CspError::InvalidNonceValue(_) => "Invalid nonce value: "@,
            CspError::InvalidReportUri(_) => "Invalid report URI: "@,
            CspError::CryptoError(_) => "Crypto error: "@,
            CspError::SerializationError(_) => "Serialization error: "@,
            CspError::HeaderError(_) => "Header processing error: "@,
            CspError::ValidationError(_) => "Policy validation error: "@,
            CspError::ReportError(_) => "Report processing error: "@,
            CspError::VerificationError(_) => "Policy verification error: "@,
            CspError::ConfigError(_) => "Config error: "@,
            CspError::IoError(_) => "I/O error: "@,
        }
    }

    /// Whether the error is the caller's fault (a malformed value) rather than
    /// a failure inside the library.
    pub open spec fn is_client_error(self) -> bool {
        match self {
            CspError::InvalidDirectiveValue(_)
            | CspError::InvalidDirectiveName(_)
            | CspError::InvalidHashAlgorithm(_)
            | CspError::InvalidNonceValue(_)
            | CspError::InvalidReportUri(_)
            | CspError::ValidationError(_)
            | CspError::VerificationError(_)
            | CspError::ConfigError(_) => true,
            _ => false,
        }
    }

    /// The message shown for the error: its label followed by its detail.
    pub fn to_string(&self) -> (r: String)
        ensures
            r@ == self.label() + self.detail(),
    {
        let (label, detail): (&str, &String) = match self {
            CspError::InvalidDirectiveValue(m) => ("Invalid directive value: ", m),
            CspError::InvalidDirectiveName(m) => ("Invalid directive name: ", m),
            CspError::InvalidHashAlgorithm(m) => ("Invalid hash algorithm: ", m),
            CspError::InvalidNonceValue(m) => ("Invalid nonce value: ", m),
            CspError::InvalidReportUri(m) => ("Invalid report URI: ", m),
            CspError::CryptoError(m) => ("Crypto error: ", m),
            CspError::SerializationError(m) => ("Serialization error: ", m),
            CspError::HeaderError(m) => ("Header processing error: ", m),
            CspError::ValidationError(m) => ("Policy validation error: ", m),
            CspError::ReportError(m) => ("Report processing error: ", m),
            CspError::VerificationError(m) => ("Policy verification error: ", m),
            CspError::ConfigError(m) => ("Config error: ", m),
            CspError::IoError(m) => ("I/O error: ", m),
        };
        let mut out = String::from_str(label);
        out.append(detail.as_str());
        out
    }

    /// The HTTP status that answers a request failing with this error: 400
    /// for a client error, 500 otherwise.
    pub fn status_code(&self) -> (r: u16)
        ensures
            r == if self.is_client_error() { 400u16 } else { 500u16 },
    {
        match self {
            CspError::InvalidDirectiveValue(_)
            | CspError::InvalidDirectiveName(_)
            | CspError::InvalidHashAlgorithm(_)
            | CspError::InvalidNonceValue(_)
            | CspError::InvalidReportUri(_)
            | CspError::ValidationError(_)
            | CspError::VerificationError(_)
            | CspError::ConfigError(_) => 400,
            _ => 500,
        }
    }
}

} // verus!
