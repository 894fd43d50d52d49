//! Resolution of a commit-signing strategy from a repository's layered git
//! configuration, and validation of the external signing program's output
//! protocol.
//!
//! [`config::SignBuilder`] turns the configured signing method, format,
//! program and key chains into a concrete [`gpg::GPGSign`] strategy;
//! [`gpg::GPGSign::complete_sign`] validates what one run of the external
//! program produced and extracts the detached, armored signature text.

pub mod config;
pub mod config_source;
pub mod errors;
pub mod gpg;
pub mod strutil;
