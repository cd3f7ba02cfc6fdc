//! The error kinds a caller can tell apart.

use vstd::prelude::*;
use crate::text::{decimal, decimal_string};

verus! {

/// `reqwest::Error`, carried through as it is: nothing inside it is visible
/// to the proofs.
#[verifier::external_type_specification]
#[verifier::external_body]
pub struct ExReqwestError(reqwest::Error);

/// `serde_json::Error`, carried through as it is: nothing inside it is
/// visible to the proofs.
#[verifier::external_type_specification]
#[verifier::external_body]
pub struct ExSerdeJsonError(serde_json::Error);

/// Everything that can go wrong in a call.
#[derive(Debug)]
pub enum SdkError {
    /// The exchange failed below HTTP: unreachable host, TLS, socket timeout.
    RequestError(reqwest::Error),
    /// The provider answered and refused; `message` is its body, untouched.
    ApiError { status: u16, message: String },
    /// A successful answer did not have the expected shape.
    SerdeError(serde_json::Error),
    /// A wait for a state ran past its deadline.
    Timeout,
    /// Required configuration is missing.
    ConfigError(String),
}

/// Text that `reqwest::Error` prints for itself through `Display`. Nothing is
/// claimed of the text.
#[verifier::external_body]
fn request_error_text(e: &reqwest::Error) -> (text: String) {
    format!("{}", e)
}

/// Text that `serde_json::Error` prints for itself through `Display`. Nothing
/// is claimed of the text.
#[verifier::external_body]
fn decode_error_text(e: &serde_json::Error) -> (text: String) {
    format!("{}", e)
}

impl SdkError {
    /// Text in front of what the error carries, by kind.
    pub open spec fn prefix(&self) -> Seq<char> {
        match self {
            SdkError::RequestError(_) => "Request error: "@,
            SdkError::ApiError { status, message } => "API error ("@ + decimal(*status as nat) + "): "@,
            SdkError::SerdeError(_) => "Serialization error: "@,
            SdkError::Timeout => "Request timed out"@,
            SdkError::ConfigError(_) => "Configuration error: "@,
        }
    }

    /// What follows the prefix for the kinds that carry plain text; empty for
    /// the others.
    pub open spec fn plain_detail(&self) -> Seq<char> {
        match self {
            SdkError::ApiError { status, message } => message@,
            SdkError::ConfigError(message) => message@,
            _ => Seq::empty(),
        }
    }

    /// The prefix of this kind of error followed by `detail`.
    pub fn with_detail(&self, detail: &str) -> (text: String)
        ensures
            text@ == self.prefix() + detail@,
    {
        let mut text = match self {
            SdkError::RequestError(_) => String::from_str("Request error: "),
            SdkError::ApiError { status, message } => {
                let mut head = String::from_str("API error (");
                let code = decimal_string(*status);
                head.append(code.as_str());
                head.append("): ");
                head
            },
            SdkError::SerdeError(_) => String::from_str("Serialization error: "),
            SdkError::Timeout => String::from_str("Request timed out"),
            SdkError::ConfigError(_) => String::from_str("Configuration error: "),
        };
        assert(text@ =~= self.prefix());
        text.append(detail);
        text
    }

    /// Human-readable rendering of the error.
    ///
    /// For the kinds that carry plain text it is the prefix of the kind and
    /// that text, unchanged. For the two kinds that wrap a foreign error it
    /// is the prefix and whatever that error prints for itself.
    pub fn to_string(&self) -> (text: String)
        ensures
            self.prefix().is_prefix_of(text@),
            !(self is RequestError) && !(self is SerdeError) ==> text@ == self.prefix()
                + self.plain_detail(),
    {
        let text = match self {
            SdkError::RequestError(e) => {
                let detail = request_error_text(e);
                self.with_detail(detail.as_str())
            },
            SdkError::ApiError { status, message } => self.with_detail(message.as_str()),
            SdkError::SerdeError(e) => {
                let detail = decode_error_text(e);
                self.with_detail(detail.as_str())
            },
            SdkError::Timeout => {
                let text = self.with_detail("");
                proof {
                    reveal_strlit("");
                    assert(text@ =~= self.prefix() + self.plain_detail());
                }
                text
            },
            SdkError::ConfigError(message) => self.with_detail(message.as_str()),
        };
        assert(text@.subrange(0, self.prefix().len() as int) =~= self.prefix());
        text
    }
}

impl From<reqwest::Error> for SdkError {
    fn from(err: reqwest::Error) -> (e: SdkError) {
        SdkError::RequestError(err)
    }
}

impl vstd::std_specs::convert::FromSpecImpl<reqwest::Error> for SdkError {
    open spec fn obeys_from_spec() -> bool {
        true
    }

    open spec fn from_spec(err: reqwest::Error) -> SdkError {
        SdkError::RequestError(err)
    }
}

impl From<serde_json::Error> for SdkError {
    fn from(err: serde_json::Error) -> (e: SdkError) {
        SdkError::SerdeError(err)
    }
}

impl vstd::std_specs::convert::FromSpecImpl<serde_json::Error> for SdkError {
    open spec fn obeys_from_spec() -> bool {
        true
    }

    open spec fn from_spec(err: serde_json::Error) -> SdkError {
        SdkError::SerdeError(err)
    }
}

} // verus!
