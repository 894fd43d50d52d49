//! Resolution tests on plain configuration values, one per precedence rule
//! and error kind.

use commit_sign::config::{fallback_identity, resolve_strategy};
use commit_sign::errors::SignBuilderError;

#[test]
fn resolve_defaults_to_gpg_and_identity() {
    let r = resolve_strategy(None, None, None, None, None, Ok("name <email>".to_string()))
        .unwrap();
    assert_eq!("gpg", r.program());
    assert_eq!("name <email>", r.signing_key());
}

#[test]
fn resolve_openpgp_program_overrides_gpg_program() {
    let r = resolve_strategy(
        None,
        None,
        Some("B".to_string()),
        Some("A".to_string()),
        Some("K".to_string()),
        Ok(String::new()),
    )
    .unwrap();
    assert_eq!("B", r.program());
}

#[test]
fn resolve_gpg_program_alone_is_used() {
    let r = resolve_strategy(
        None,
        None,
        None,
        Some("A".to_string()),
        Some("K".to_string()),
        Ok(String::new()),
    )
    .unwrap();
    assert_eq!("A", r.program());
}

#[test]
fn resolve_user_signing_key_overrides_fallback() {
    let r = resolve_strategy(
        None,
        None,
        None,
        None,
        Some("K".to_string()),
        Ok("name <email>".to_string()),
    )
    .unwrap();
    assert_eq!("K", r.signing_key());

    // the override holds even where the fallback would have failed
    let r = resolve_strategy(
        None,
        None,
        None,
        None,
        Some("K".to_string()),
        Err("boom".to_string()),
    )
    .unwrap();
    assert_eq!("K", r.signing_key());
}

#[test]
fn resolve_explicit_shellouts_and_openpgp() {
    let r = resolve_strategy(
        Some("shellouts".to_string()),
        Some("openpgp".to_string()),
        None,
        None,
        None,
        Ok("name <email>".to_string()),
    )
    .unwrap();
    assert_eq!("gpg", r.program());
}

#[test]
fn resolve_unsupported_format_is_invalid() {
    let r = resolve_strategy(
        None,
        Some("INVALID_SIGNING_FORMAT".to_string()),
        None,
        None,
        None,
        Ok(String::new()),
    );
    assert_eq!(
        r.unwrap_err(),
        SignBuilderError::InvalidFormat("INVALID_SIGNING_FORMAT".to_string())
    );
}

#[test]
fn resolve_reserved_formats_not_implemented() {
    let r = resolve_strategy(None, Some("x509".to_string()), None, None, None, Ok(String::new()));
    assert_eq!(
        r.unwrap_err(),
        SignBuilderError::MethodNotImplemented("x509".to_string())
    );

    let r = resolve_strategy(None, Some("ssh".to_string()), None, None, None, Ok(String::new()));
    assert_eq!(
        r.unwrap_err(),
        SignBuilderError::MethodNotImplemented("ssh".to_string())
    );
}

#[test]
fn resolve_native_method_not_implemented() {
    let r = resolve_strategy(Some("rust".to_string()), None, None, None, None, Ok(String::new()));
    assert_eq!(
        r.unwrap_err(),
        SignBuilderError::MethodNotImplemented("<native>".to_string())
    );
}

#[test]
fn fallback_identity_requires_a_name() {
    assert_eq!(
        fallback_identity(Some("name".to_string()), Some("email".to_string())),
        Ok("name <email>".to_string())
    );
    assert_eq!(
        fallback_identity(None, Some("email".to_string())),
        Err("'user.name' is not set".to_string())
    );
}

#[test]
fn fallback_identity_tolerates_unset_email() {
    assert_eq!(
        fallback_identity(Some("name".to_string()), None),
        Ok("name <>".to_string())
    );
}

#[test]
fn resolve_unknown_method_is_invalid() {
    let r = resolve_strategy(
        Some("carrier pigeon".to_string()),
        None,
        None,
        None,
        None,
        Ok(String::new()),
    );
    assert_eq!(
        r.unwrap_err(),
        SignBuilderError::InvalidFormat("carrier pigeon".to_string())
    );
}

#[test]
fn resolve_failed_fallback_is_signing_key_error() {
    let r = resolve_strategy(None, None, None, None, None, Err("boom".to_string()));
    assert_eq!(
        r.unwrap_err(),
        SignBuilderError::GPGSigningKey("Failed to build signing signature: boom".to_string())
    );
}
