//! Application-wide error values. Each variant carries its message text;
//! rendering and conversion from I/O or transport errors happen at the
//! process edge, outside this library.

use vstd::prelude::*;

verus! {

/// The error taxonomy of the application.
#[derive(Debug)]
pub enum AppError {
    /// Failure of an I/O operation.
    Io(String),
    /// A configuration problem.
    Config(String),
    /// A failure reported by the completion endpoint.
    Api(String),
    /// A transport-level failure.
    Http(String),
    /// A serialization or parsing failure.
    Serialization(String),
    /// No API key was available for the selected provider.
    MissingApiKey,
    /// A failure of the interactive line editor.
    Repl(String),
    /// A failure while collecting system information.
    SystemInfo(String),
    /// A rejected input value.
    Validation(String),
    /// Anything else.
    Unknown(String),
}

/// Builds a configuration error carrying `msg`.
pub fn config_err(msg: &str) -> (e: AppError)
    ensures
        e matches AppError::Config(m) && m@ == msg@,
{
    AppError::Config(msg.to_owned())
}

/// Builds an endpoint error carrying `msg`.
pub fn api_err(msg: &str) -> (e: AppError)
    ensures
        e matches AppError::Api(m) && m@ == msg@,
{
    AppError::Api(msg.to_owned())
}

/// Builds a validation error carrying `msg`.
pub fn validation_err(msg: &str) -> (e: AppError)
    ensures
        e matches AppError::Validation(m) && m@ == msg@,
{
    AppError::Validation(msg.to_owned())
}

} // verus!
