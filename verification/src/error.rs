//! What can go wrong in a run, and what it means for the run.

use vstd::prelude::*;
use vstd::string::*;

verus! {

/// The kinds of failure.
#[derive(Debug, Clone, Copy, PartialEq, Eq, Structural)]
pub enum ErrorKind {
    /// The API key is missing.
    Configuration,
    /// The request did not reach the provider or the answer did not arrive.
    Transport,
    /// The provider answered with a status outside the success range.
    HttpStatus,
    /// The body does not have the expected shape.
    Decode,
    /// The template is missing or invalid.
    Render,
    /// The output file cannot be written.
    Write,
    /// The screenshot could not be taken.
    CaptureWarning,
}

/// A failure with the words that describe it.
#[derive(Debug, Clone)]
pub struct WeatherError {
    pub kind: ErrorKind,
    pub detail: String,
}

impl ErrorKind {
    /// Every kind ends the run, except a failed screenshot.
    pub open spec fn fatal(self) -> bool {
        self != ErrorKind::CaptureWarning
    }

    /// The name under which the kind is reported.
    pub open spec fn label_spec(self) -> Seq<char> {
        match self {
            ErrorKind::Configuration => "ConfigurationError"@,
            ErrorKind::Transport => "TransportError"@,
            ErrorKind::HttpStatus => "HttpStatusError"@,
            ErrorKind::Decode => "DecodeError"@,
            ErrorKind::Render => "RenderError"@,
            ErrorKind::Write => "WriteError"@,
            ErrorKind::CaptureWarning => "CaptureWarning"@,
        }
    }

    /// Whether a failure of this kind ends the run.
    pub fn is_fatal(self) -> (fatal: bool)
        ensures
            fatal == self.fatal(),
    {
        match self {
            ErrorKind::CaptureWarning => false,
            _ => true,
        }
    }

    /// The name under which the kind is reported.
    pub fn label(self) -> (name: &'static str)
        ensures
            name@ == self.label_spec(),
    {
        match self {
            ErrorKind::Configuration => "ConfigurationError",
            ErrorKind::Transport => "TransportError",
            ErrorKind::HttpStatus => "HttpStatusError",
            ErrorKind::Decode => "DecodeError",
            ErrorKind::Render => "RenderError",
            ErrorKind::Write => "WriteError",
            ErrorKind::CaptureWarning => "CaptureWarning",
        }
    }
}

impl WeatherError {
    /// The line that reports the failure: the kind's name, a colon, the detail.
    pub open spec fn message_spec(self) -> Seq<char> {
        self.kind.label_spec() + ": "@ + self.detail@
    }

    /// A failure of the given kind.
    pub fn new(kind: ErrorKind, detail: &str) -> (error: WeatherError)
        ensures
            error.kind == kind,
            error.detail@ == detail@,
    {
        WeatherError { kind, detail: String::from_str(detail) }
    }

    /// The line that reports the failure.
    pub fn message(&self) -> (line: String)
        ensures
            line@ == self.message_spec(),
    {
        let mut line = String::from_str(self.kind.label());
        line.append(": ");
        line.append(self.detail.as_str());
        line
    }
}

/// The exit status of a run that ended with the given failure, if any.
pub open spec fn exit_code_spec(failure: Option<ErrorKind>) -> u8 {
    match failure {
        Some(kind) => if kind.fatal() {
            1
        } else {
            0
        },
        None => 0,
    }
}

/// The exit status of a run: zero when nothing failed or only the screenshot
/// did, one otherwise.
pub fn exit_code(failure: Option<ErrorKind>) -> (code: u8)
    ensures
        code == exit_code_spec(failure),
        code == 0 <==> (failure matches Some(kind) ==> !kind.fatal()),
{
    match failure {
        Some(kind) => if kind.is_fatal() {
            1
        } else {
            0
        },
        None => 0,
    }
}

} // verus!
