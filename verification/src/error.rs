//! The errors of the setup phase and of one reconciliation.

use vstd::prelude::*;

verus! {

/// Why the program could not be set up: the command line or the configuration
/// was not usable. Each variant carries the text shown to the user.
#[derive(Debug, Clone, PartialEq, Eq)]
pub enum SetupError {
    MalformedCLI(String),
    ConfigLoadError(String),
}

impl SetupError {
    /// The text that the error carries.
    pub open spec fn message(&self) -> Seq<char> {
        match self {
            SetupError::MalformedCLI(s) => s@,
            SetupError::ConfigLoadError(s) => s@,
        }
    }

    /// The text to show for this error: the carried message, for either variant.
    pub fn to_string(&self) -> (text: String)
        ensures
            text@ == self.message(),
    {
        match self {
            SetupError::MalformedCLI(s) => s.clone(),
            SetupError::ConfigLoadError(s) => s.clone(),
        }
    }
}

/// `serde_json::Error`: why a text is no JSON, or could not be read. Opaque.
#[verifier::external_type_specification]
#[verifier::external_body]
pub struct ExJsonError(serde_json::Error);

/// `std::io::Error`: why a file could not be opened or read. Opaque.
#[verifier::external_type_specification]
#[verifier::external_body]
pub struct ExIoError(std::io::Error);

/// `to_string` on a `serde_json::Error`. The error may wrap one of the
/// operating system, so nothing is said of the text.
#[verifier::external_body]
fn json_error_to_string(error: &serde_json::Error) -> (text: String)
{
    error.to_string()
}

/// `to_string` on a `std::io::Error`. The text may come from the operating
/// system, so nothing is said of it.
#[verifier::external_body]
fn io_error_to_string(error: &std::io::Error) -> (text: String)
{
    error.to_string()
}

impl From<serde_json::Error> for SetupError {
    /// A configuration that is no JSON cannot be loaded. The error's own text
    /// is kept.
    fn from(error: serde_json::Error) -> (converted: SetupError)
        ensures
            converted is ConfigLoadError,
    {
        SetupError::ConfigLoadError(json_error_to_string(&error))
    }
}

// No spec function can give the text of an outside error, so `from` says
// itself what it promises.
impl vstd::std_specs::convert::FromSpecImpl<serde_json::Error> for SetupError {
    open spec fn obeys_from_spec() -> bool {
        false
    }

    open spec fn from_spec(error: serde_json::Error) -> SetupError {
        arbitrary()
    }
}

impl From<std::io::Error> for SetupError {
    /// A configuration that cannot be read cannot be loaded. The error's own
    /// text is kept.
    fn from(error: std::io::Error) -> (converted: SetupError)
        ensures
            converted is ConfigLoadError,
    {
        SetupError::ConfigLoadError(io_error_to_string(&error))
    }
}

impl vstd::std_specs::convert::FromSpecImpl<std::io::Error> for SetupError {
    open spec fn obeys_from_spec() -> bool {
        false
    }

    open spec fn from_spec(error: std::io::Error) -> SetupError {
        arbitrary()
    }
}

/// Why one reconciliation did not complete. None of these is fatal: the pair is
/// looked at again on the next pass.
#[derive(Debug, Clone, Copy, PartialEq, Eq, Structural)]
pub enum ReconcileError {
    /// A modification time could not be read.
    MetadataUnavailable,
    /// The content of a side could not be fingerprinted.
    DigestUnavailable,
    /// The newer content could not be written over the older side.
    CopyFailed,
    /// The content is in place, but the older side's modification time could
    /// not be set.
    TimestampUpdateFailed,
}

} // verus!
