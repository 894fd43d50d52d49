//! Resolution tests against a real git repository's configuration.

use commit_sign::config::SignBuilder;
use commit_sign::errors::SignBuilderError;

fn repo_init_empty() -> (tempfile::TempDir, git2::Repository) {
    let td = tempfile::TempDir::new().unwrap();
    let repo = git2::Repository::init(td.path()).unwrap();
    {
        let mut config = repo.config().unwrap();
        config.set_str("user.name", "name").unwrap();
        config.set_str("user.email", "email").unwrap();
    }
    (td, repo)
}

#[test]
fn test_invalid_signing_format() {
    let (_temp_dir, repo) = repo_init_empty();

    {
        let mut config = repo.config().unwrap();
        config.set_str("gpg.format", "INVALID_SIGNING_FORMAT").unwrap();
    }

    let sign = SignBuilder::from_gitconfig(&repo, &repo.config().unwrap());

    assert!(sign.is_err());
}

#[test]
fn test_program_and_signing_key_defaults() {
    let (_tmp_dir, repo) = repo_init_empty();
    let sign = SignBuilder::from_gitconfig(&repo, &repo.config().unwrap()).unwrap();

    assert_eq!("gpg", sign.program());
    assert_eq!("name <email>", sign.signing_key());
}

#[test]
fn test_gpg_program_configs() {
    let (_tmp_dir, repo) = repo_init_empty();

    {
        let mut config = repo.config().unwrap();
        config.set_str("gpg.program", "GPG_PROGRAM_TEST").unwrap();
    }

    let sign = SignBuilder::from_gitconfig(&repo, &repo.config().unwrap()).unwrap();

    // we get gpg.program, because gpg.openpgp.program is not set
    assert_eq!("GPG_PROGRAM_TEST", sign.program());

    {
        let mut config = repo.config().unwrap();
        config
            .set_str("gpg.openpgp.program", "GPG_OPENPGP_PROGRAM_TEST")
            .unwrap();
    }

    let sign = SignBuilder::from_gitconfig(&repo, &repo.config().unwrap()).unwrap();

    // since gpg.openpgp.program is now set as well, it is more specific than
    // gpg.program and therefore takes precedence
    assert_eq!("GPG_OPENPGP_PROGRAM_TEST", sign.program());
}

#[test]
fn test_user_signingkey() {
    let (_tmp_dir, repo) = repo_init_empty();

    {
        let mut config = repo.config().unwrap();
        config.set_str("user.signingKey", "FFAA").unwrap();
    }

    let sign = SignBuilder::from_gitconfig(&repo, &repo.config().unwrap()).unwrap();

    assert_eq!("FFAA", sign.signing_key());
}

#[test]
fn test_missing_identity_fails_key_resolution() {
    // no user.signingKey and no committer name: the fallback fails and is
    // reported as a signing-key error
    let td = tempfile::TempDir::new().unwrap();
    let repo = git2::Repository::init(td.path()).unwrap();

    let sign = SignBuilder::from_gitconfig(&repo, &repo.config().unwrap());

    assert_eq!(
        sign.unwrap_err(),
        SignBuilderError::GPGSigningKey(
            "Failed to build signing signature: 'user.name' is not set".to_string()
        )
    );
}

#[test]
fn test_unset_email_is_tolerated() {
    // a committer name without an email still yields a fallback identity
    let td = tempfile::TempDir::new().unwrap();
    let repo = git2::Repository::init(td.path()).unwrap();
    {
        let mut config = repo.config().unwrap();
        config.set_str("user.name", "name").unwrap();
    }

    let sign = SignBuilder::from_gitconfig(&repo, &repo.config().unwrap()).unwrap();

    assert_eq!("name <>", sign.signing_key());
}

#[test]
fn test_invalid_format_error_detail() {
    let (_tmp_dir, repo) = repo_init_empty();

    {
        let mut config = repo.config().unwrap();
        config.set_str("gpg.format", "INVALID_SIGNING_FORMAT").unwrap();
    }

    let sign = SignBuilder::from_gitconfig(&repo, &repo.config().unwrap());

    assert_eq!(
        sign.unwrap_err(),
        SignBuilderError::InvalidFormat("INVALID_SIGNING_FORMAT".to_string())
    );
}

#[test]
fn test_reserved_formats_via_config() {
    let (_tmp_dir, repo) = repo_init_empty();

    {
        let mut config = repo.config().unwrap();
        config.set_str("gpg.format", "x509").unwrap();
    }
    let sign = SignBuilder::from_gitconfig(&repo, &repo.config().unwrap());
    assert_eq!(
        sign.unwrap_err(),
        SignBuilderError::MethodNotImplemented("x509".to_string())
    );

    {
        let mut config = repo.config().unwrap();
        config.set_str("gpg.format", "ssh").unwrap();
    }
    let sign = SignBuilder::from_gitconfig(&repo, &repo.config().unwrap());
    assert_eq!(
        sign.unwrap_err(),
        SignBuilderError::MethodNotImplemented("ssh".to_string())
    );
}
