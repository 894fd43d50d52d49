//! Error taxonomies: one for configuration resolution, one for the signing
//! protocol. Each variant carries a human-readable detail string sourced from
//! the underlying failure.

use vstd::prelude::*;

verus! {

/// Errors that can arise while deriving a signing strategy from the git
/// configuration.
#[derive(Debug, Clone, PartialEq, Eq)]
pub enum SignBuilderError {
    /// The configured signing method or `gpg.format` value is not a known one.
    InvalidFormat(String),
    /// The signing key could not be derived from the configuration.
    GPGSigningKey(String),
    /// The fallback identity collaborator itself failed.
    Signature(String),
    /// The selected signing method is recognised but not implemented.
    MethodNotImplemented(String),
}

/// Errors that can arise while running the external signing program and
/// validating its output.
#[derive(Debug, Clone, PartialEq, Eq)]
pub enum SignError {
    /// The signing process could not be spawned.
    Spawn(String),
    /// The child process' standard input handle was unavailable.
    Stdin,
    /// Writing the commit data to the child's standard input failed.
    WriteBuffer(String),
    /// The child process' output could not be collected.
    Output(String),
    /// The process ran but failed, or produced invalid or unconfirmed output.
    Shellout(String),
}

} // verus!
