//! The watcher's errors, and how a failure of the platform becomes one.

use vstd::prelude::*;

verus! {

/// The platform's error value, `windows_core::Error`, named here so that it can pass
/// through verified code. Nothing is claimed of what it holds: the watcher asks for its
/// description and lets it go.
#[verifier::external_type_specification]
#[verifier::external_body]
pub struct ExPlatformError(windows_core::Error);

/// Why an operation of the watcher failed. Each variant carries the description of the
/// platform failure behind it and nothing else of the platform.
#[derive(Clone, Debug, PartialEq, Eq)]
pub enum WatcherError {
    /// The platform could not produce a scanning session.
    PlatformInit(String),
    /// A step that configures or arms the session failed during a start.
    ScanConfig(String),
    /// The step that disarms the session failed.
    ScanStop(String),
}

impl WatcherError {
    /// The description that the error carries.
    pub open spec fn text(self) -> String {
        match self {
            WatcherError::PlatformInit(text) => text,
            WatcherError::ScanConfig(text) => text,
            WatcherError::ScanStop(text) => text,
        }
    }

    /// The description of the platform failure behind this error.
    pub fn description(&self) -> (text: &str)
        ensures
            text@ == self.text()@,
    {
        match self {
            WatcherError::PlatformInit(text) => text.as_str(),
            WatcherError::ScanConfig(text) => text.as_str(),
            WatcherError::ScanStop(text) => text.as_str(),
        }
    }
}

/// How the platform answered one call, as far as the watcher cares: it took effect, or
/// it failed for the reason described.
#[derive(Clone, Debug, PartialEq, Eq)]
pub enum NativeOutcome {
    Completed,
    Failed(String),
}

impl NativeOutcome {
    /// Reads the answer of a platform call. A value, whatever it is, means that the call
    /// took effect; an error is kept as its description only, in the platform's words,
    /// and there always is one: the description of a failure is never empty.
    pub fn from_native<T>(answer: Result<T, windows_core::Error>) -> (outcome: NativeOutcome)
        ensures
            answer is Ok <==> outcome == NativeOutcome::Completed,
            answer is Err <==> outcome is Failed,
            outcome matches NativeOutcome::Failed(text) ==> text@.len() > 0,
    {
        match answer {
            Ok(_) => NativeOutcome::Completed,
            Err(error) => NativeOutcome::Failed(describe(&error)),
        }
    }
}

/// Renders a platform error with the `Debug` implementation of `windows_core::Error`,
/// which writes the name of the type and then, each under its name, the error code and
/// the message that the platform has for it.
///
/// The message is the platform's own and changes with the machine, so the contract, which
/// is taken on trust, claims only what holds of every rendering: the text is not empty.
#[verifier::external_body]
fn describe(error: &windows_core::Error) -> (text: String)
    ensures
        text@.len() > 0,
{
    format!("{:?}", error)
}

} // verus!
