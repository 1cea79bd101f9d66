//! Error values shared by the conversation layer and the pipeline.

use vstd::prelude::*;

verus! {

/// `std::io::Error` carried through from the host's input/output layer.
/// The value is opaque to this crate: it is stored and handed back to the
/// embedding program, never inspected.
#[verifier::external_type_specification]
#[verifier::external_body]
pub struct ExIoError(std::io::Error);

/// An error of the pipeline. Each variant says at which stage the
/// invocation failed.
pub enum Error {
    /// Authorization was refused, or authentication failed. Carries the
    /// message shown to the operator.
    AuthError(String),
    /// The requested command could not be resolved before execution.
    /// Carries the attempted command path.
    CommandNotFound(String),
    /// The executor failed with an input/output error. Carries the
    /// attempted command path, when one was known, and the underlying
    /// error.
    IoError(Option<String>, std::io::Error),
}

impl Error {
    /// Builds the authorization / authentication error from a message.
    pub fn auth(message: &str) -> (r: Error)
        ensures
            r matches Error::AuthError(m) && m@ == message@,
    {
        Error::AuthError(String::from_str(message))
    }
}

/// An error of the conversation layer, reported by a converser.
pub enum PamError {
    /// The message exchange itself failed.
    Conversation,
    /// Reading from or writing to the operator's terminal failed.
    IoError(std::io::Error),
}

} // verus!
