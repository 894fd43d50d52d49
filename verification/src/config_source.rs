//! Access to the external collaborator behind configuration resolution: the
//! layered, read-only git configuration store, from which both the signing
//! keys and the committer identity fields are read.
//!
//! The store lives on disk, so nothing can be promised of the values it
//! yields; the resolution logic takes them as arguments and is verified for
//! every possible value.

use vstd::prelude::*;

verus! {

#[verifier::external_type_specification]
#[verifier::external_body]
pub struct ExRepository(git2::Repository);

#[verifier::external_type_specification]
#[verifier::external_body]
pub struct ExGitConfig(git2::Config);

/// Relies on `git2::Config::get_string`: looks a dotted key up across the
/// layered configuration. What comes back depends on the configuration files
/// on disk, so nothing is promised of the value; a missing or unreadable key
/// yields `None`.
#[verifier::external_body]
pub(crate) fn config_get_string(config: &git2::Config, name: &str) -> Option<String> {
    config.get_string(name).ok()
}

/// Relies on `git2::Repository::config`: the repository's layered
/// configuration snapshot, or the reason it could not be read. What it holds
/// depends on the files on disk, so nothing is promised of it.
#[verifier::external_body]
pub(crate) fn repo_config(repo: &git2::Repository) -> Result<git2::Config, String> {
    repo.config().map_err(|e| e.message().to_string())
}

} // verus!
