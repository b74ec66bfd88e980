//! The error of the streaming service, by the part that failed.

use vstd::prelude::*;
use vstd::std_specs::convert::FromSpecImpl;
use vstd::string::StringExecFns;

verus! {

/// What went wrong, with a message for the operator.
#[derive(Debug)]
pub enum AppError {
    /// No frame could be had, or one could not be encoded.
    CaptureError(String),
    /// A connection failed.
    NetworkError(String),
    /// A pointer event could not be passed on.
    InputError(String),
}

#[verifier::external_type_specification]
#[verifier::external_body]
pub struct ExIoError(std::io::Error);

impl AppError {
    /// The message as given, without the part's name before it.
    pub open spec fn detail(&self) -> Seq<char> {
        match self {
            AppError::CaptureError(e) => e@,
            AppError::NetworkError(e) => e@,
            AppError::InputError(e) => e@,
        }
    }

    /// The name of the part that failed, as it stands before the message.
    pub open spec fn prefix(&self) -> Seq<char> {
        match self {
            AppError::CaptureError(_) => "Capture error: "@,
            AppError::NetworkError(_) => "Network error: "@,
            AppError::InputError(_) => "Input error: "@,
        }
    }

    /// The full text: the part's name, then the message.
    pub open spec fn text(&self) -> Seq<char> {
        self.prefix() + self.detail()
    }

    /// The full text of the error, such as `Capture error: no display`.
    pub fn message(&self) -> (text: String)
        ensures
            text@ == self.text(),
    {
        match self {
            AppError::CaptureError(e) => String::from_str("Capture error: ").concat(e.as_str()),
            AppError::NetworkError(e) => String::from_str("Network error: ").concat(e.as_str()),
            AppError::InputError(e) => String::from_str("Input error: ").concat(e.as_str()),
        }
    }
}

impl From<std::io::Error> for AppError {
    /// An I/O failure is a network failure whose message is the failure's
    /// own `Display` text.
    fn from(err: std::io::Error) -> (e: AppError)
        ensures
            e matches AppError::NetworkError(m)
                && vstd::string::to_string_from_display_ensures::<std::io::Error>(&err, m),
    {
        AppError::NetworkError(err.to_string())
    }
}

impl FromSpecImpl<std::io::Error> for AppError {
    open spec fn obeys_from_spec() -> bool {
        false
    }

    open spec fn from_spec(err: std::io::Error) -> AppError {
        arbitrary()
    }
}

} // verus!
