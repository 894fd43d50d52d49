//! Resolution of a signing strategy from the git configuration.
//!
//! The precedence rules — which keys are consulted, in which order, which
//! defaults apply, and which values are rejected — are the verified logic of
//! this module. [`resolve_strategy`] takes the values the configuration store
//! held as plain arguments and its contract pins the outcome down exactly;
//! [`SignBuilder::from_gitconfig`] reads those values from a repository and
//! hands them over.

use vstd::prelude::*;
use vstd::string::StringExecFns;

use crate::config_source::{config_get_string, repo_config};
use crate::errors::SignBuilderError;
use crate::gpg::GPGSign;
use crate::strutil::str_eq;

verus! {

/// The outcome of configuration resolution, at the specification level:
/// either a strategy (program, then signing key), or one of the resolution
/// error kinds with its detail.
pub enum Resolution {
    /// A resolved strategy: the program to run, and the signing key.
    Strategy(Seq<char>, Seq<char>),
    /// The configured method or format value is not a known one.
    InvalidFormat(Seq<char>),
    /// The signing key could not be derived from the configuration.
    GPGSigningKey(Seq<char>),
    /// The fallback identity collaborator itself failed.
    Signature(Seq<char>),
    /// The selected method is recognised but not implemented.
    MethodNotImplemented(Seq<char>),
}

/// The resolution a builder result denotes.
pub open spec fn resolution_of(r: Result<GPGSign, SignBuilderError>) -> Resolution {
    match r {
        Ok(g) => Resolution::Strategy(g.spec_program(), g.spec_signing_key()),
        Err(SignBuilderError::InvalidFormat(d)) => Resolution::InvalidFormat(d@),
        Err(SignBuilderError::GPGSigningKey(d)) => Resolution::GPGSigningKey(d@),
        Err(SignBuilderError::Signature(d)) => Resolution::Signature(d@),
        Err(SignBuilderError::MethodNotImplemented(d)) => Resolution::MethodNotImplemented(d@),
    }
}

/// The configured value, or the documented default where the key is unset.
pub open spec fn with_default(v: Option<Seq<char>>, d: Seq<char>) -> Seq<char> {
    match v {
        Some(s) => s,
        None => d,
    }
}

/// The program chain: `gpg.openpgp.program`, then `gpg.program`, then `gpg`.
/// The more specific key overrides the general one.
pub open spec fn resolved_program(
    openpgp_program: Option<Seq<char>>,
    gpg_program: Option<Seq<char>>,
) -> Seq<char> {
    match openpgp_program {
        Some(p) => p,
        None => match gpg_program {
            Some(p) => p,
            None => "gpg"@,
        },
    }
}

/// The rendering a fallback-identity failure receives before it is carried by
/// the `GPGSigningKey` error.
pub open spec fn signature_failure_text(detail: Seq<char>) -> Seq<char> {
    "Failed to build signing signature: "@ + detail
}

/// The key chain: `user.signingKey` overrides the committer identity
/// fallback; a failed fallback becomes the error detail.
pub open spec fn resolved_key(
    user_signing_key: Option<Seq<char>>,
    fallback: Result<Seq<char>, Seq<char>>,
) -> Result<Seq<char>, Seq<char>> {
    match user_signing_key {
        Some(k) => Ok(k),
        None => match fallback {
            Ok(identity) => Ok(identity),
            Err(detail) => Err(signature_failure_text(detail)),
        },
    }
}

/// What resolution yields for the given configuration values.
///
/// `methods` is `gitui.signing_methods` (default `shellouts`); `format` is
/// `gpg.format` (default `openpgp`); `fallback` is what the committer
/// identity collaborator yielded.
pub open spec fn spec_resolve(
    methods: Option<Seq<char>>,
    format: Option<Seq<char>>,
    openpgp_program: Option<Seq<char>>,
    gpg_program: Option<Seq<char>>,
    user_signing_key: Option<Seq<char>>,
    fallback: Result<Seq<char>, Seq<char>>,
) -> Resolution {
    let m = with_default(methods, "shellouts"@);
    if m == "shellouts"@ {
        let f = with_default(format, "openpgp"@);
        if f == "openpgp"@ {
            match resolved_key(user_signing_key, fallback) {
                Ok(key) => Resolution::Strategy(
                    resolved_program(openpgp_program, gpg_program),
                    key,
                ),
                Err(detail) => Resolution::GPGSigningKey(detail),
            }
        } else if f == "x509"@ || f == "ssh"@ {
            Resolution::MethodNotImplemented(f)
        } else {
            Resolution::InvalidFormat(f)
        }
    } else if m == "rust"@ {
        Resolution::MethodNotImplemented("<native>"@)
    } else {
        Resolution::InvalidFormat(m)
    }
}

/// The synthesized fallback identity: `"name <email>"` from the committer
/// identity fields. A name is required; an unset email is tolerated and left
/// empty.
pub open spec fn spec_fallback_identity(
    name: Option<Seq<char>>,
    email: Option<Seq<char>>,
) -> Result<Seq<char>, Seq<char>> {
    match name {
        Some(n) => Ok(n + " <"@ + with_default(email, Seq::empty()) + ">"@),
        None => Err("'user.name' is not set"@),
    }
}

/// Synthesize the fallback identity `"name <email>"` from the committer
/// identity fields, as the configuration store held them. A name is required;
/// an unset email is tolerated and left empty.
pub fn fallback_identity(name: Option<String>, email: Option<String>) -> (r: Result<
    String,
    String,
>)
    ensures
        res_chars(r) == spec_fallback_identity(opt_chars(name), opt_chars(email)),
{
    match name {
        Some(n) => {
            let mut identity = n;
            identity.append(" <");
            match email {
                Some(e) => {
                    identity.append(e.as_str());
                },
                None => {
                    proof {
                        assert(identity@ + Seq::<char>::empty() =~= identity@);
                    }
                },
            }
            identity.append(">");
            Ok(identity)
        },
        None => Err("'user.name' is not set".to_owned()),
    }
}

/// The characters of an optional string.
pub open spec fn opt_chars(o: Option<String>) -> Option<Seq<char>> {
    match o {
        Some(s) => Some(s@),
        None => None,
    }
}

/// The characters of a fallible string.
pub open spec fn res_chars(r: Result<String, String>) -> Result<Seq<char>, Seq<char>> {
    match r {
        Ok(s) => Ok(s@),
        Err(s) => Err(s@),
    }
}

/// Resolve a signing strategy from the values the configuration store held.
///
/// Each argument is the value of the corresponding key, or `None` where the
/// key is unset; `fallback` is what the committer identity collaborator
/// yielded. The result is exactly what [`spec_resolve`] states.
pub fn resolve_strategy(
    methods: Option<String>,
    format: Option<String>,
    openpgp_program: Option<String>,
    gpg_program: Option<String>,
    user_signing_key: Option<String>,
    fallback: Result<String, String>,
) -> (r: Result<GPGSign, SignBuilderError>)
    ensures
        resolution_of(r) == spec_resolve(
            opt_chars(methods),
            opt_chars(format),
            opt_chars(openpgp_program),
            opt_chars(gpg_program),
            opt_chars(user_signing_key),
            res_chars(fallback),
        ),
{
    let m: String = match methods {
        Some(s) => s,
        None => "shellouts".to_owned(),
    };
    if str_eq(m.as_str(), "shellouts") {
        let f: String = match format {
            Some(s) => s,
            None => "openpgp".to_owned(),
        };
        if str_eq(f.as_str(), "openpgp") {
            let program: String = match openpgp_program {
                Some(p) => p,
                None => match gpg_program {
                    Some(p) => p,
                    None => "gpg".to_owned(),
                },
            };
            let key: Result<String, String> = match user_signing_key {
                Some(k) => Ok(k),
                None => match fallback {
                    Ok(identity) => Ok(identity),
                    Err(detail) => {
                        let mut text = "Failed to build signing signature: ".to_owned();
                        text.append(detail.as_str());
                        Err(text)
                    },
                },
            };
            match key {
                Ok(k) => Ok(GPGSign::new(program.as_str(), k.as_str())),
                Err(detail) => Err(SignBuilderError::GPGSigningKey(detail)),
            }
        } else if str_eq(f.as_str(), "x509") || str_eq(f.as_str(), "ssh") {
            Err(SignBuilderError::MethodNotImplemented(f))
        } else {
            Err(SignBuilderError::InvalidFormat(f))
        }
    } else if str_eq(m.as_str(), "rust") {
        Err(SignBuilderError::MethodNotImplemented("<native>".to_owned()))
    } else {
        Err(SignBuilderError::InvalidFormat(m))
    }
}

/// A builder that derives a signing strategy ([`GPGSign`]) by examining the
/// git configuration.
pub struct SignBuilder;

impl SignBuilder {
    /// Read the signing-related keys from the given repository configuration
    /// and resolve the signing strategy to use for commit data.
    ///
    /// Whatever values the configuration store held, the result is their
    /// resolution per [`spec_resolve`]. The committer identity fields are
    /// consulted, from the repository's own configuration, only where
    /// `user.signingKey` is unset; the fallback identity they synthesize is
    /// [`spec_fallback_identity`].
    pub fn from_gitconfig(repo: &git2::Repository, config: &git2::Config) -> (r: Result<
        GPGSign,
        SignBuilderError,
    >)
        ensures
            exists|
                methods: Option<Seq<char>>,
                format: Option<Seq<char>>,
                openpgp_program: Option<Seq<char>>,
                gpg_program: Option<Seq<char>>,
                user_signing_key: Option<Seq<char>>,
                fallback: Result<Seq<char>, Seq<char>>,
            |
                resolution_of(r) == #[trigger] spec_resolve(
                    methods,
                    format,
                    openpgp_program,
                    gpg_program,
                    user_signing_key,
                    fallback,
                ),
            // a fallback-identity failure is wrapped, never surfaced directly
            r matches Err(e) ==> !(e is Signature),
    {
        let methods = config_get_string(config, "gitui.signing_methods");
        let format = config_get_string(config, "gpg.format");
        let openpgp_program = config_get_string(config, "gpg.openpgp.program");
        let gpg_program = config_get_string(config, "gpg.program");
        let user_signing_key = config_get_string(config, "user.signingKey");
        let fallback: Result<String, String> = if user_signing_key.is_none() {
            match repo_config(repo) {
                Ok(repo_cfg) => {
                    let name = config_get_string(&repo_cfg, "user.name");
                    let email = config_get_string(&repo_cfg, "user.email");
                    fallback_identity(name, email)
                },
                Err(detail) => Err(detail),
            }
        } else {
            Ok(String::new())
        };
        let ghost vm = opt_chars(methods);
        let ghost vf = opt_chars(format);
        let ghost vo = opt_chars(openpgp_program);
        let ghost vg = opt_chars(gpg_program);
        let ghost vu = opt_chars(user_signing_key);
        let ghost vb = res_chars(fallback);
        let r = resolve_strategy(
            methods,
            format,
            openpgp_program,
            gpg_program,
            user_signing_key,
            fallback,
        );
        proof {
            assert(resolution_of(r) == spec_resolve(vm, vf, vo, vg, vu, vb));
        }
        r
    }
}

/// With no relevant keys set, resolution succeeds with program `gpg` and the
/// committer identity as the signing key.
pub proof fn lemma_resolve_all_defaults(identity: Seq<char>)
    ensures
        spec_resolve(None, None, None, None, None, Ok(identity)) == Resolution::Strategy(
            "gpg"@,
            identity,
        ),
{
}

/// Program precedence: with both `gpg.program` and `gpg.openpgp.program` set,
/// the more specific `gpg.openpgp.program` wins; with only `gpg.program` set,
/// it is used. This holds whatever method and format are configured, as long
/// as they resolve to the implemented ones, and wherever the key comes from.
pub proof fn lemma_program_precedence(
    methods: Option<Seq<char>>,
    format: Option<Seq<char>>,
    general: Seq<char>,
    specific: Seq<char>,
    user_signing_key: Option<Seq<char>>,
    fallback: Result<Seq<char>, Seq<char>>,
    key: Seq<char>,
)
    requires
        with_default(methods, "shellouts"@) == "shellouts"@,
        with_default(format, "openpgp"@) == "openpgp"@,
        resolved_key(user_signing_key, fallback) == Ok::<Seq<char>, Seq<char>>(key),
    ensures
        spec_resolve(methods, format, Some(specific), Some(general), user_signing_key, fallback)
            == Resolution::Strategy(specific, key),
        spec_resolve(methods, format, None, Some(general), user_signing_key, fallback)
            == Resolution::Strategy(general, key),
{
}

/// A configured `user.signingKey` becomes the signing key, overriding the
/// committer identity fallback, whatever that fallback would have yielded.
pub proof fn lemma_user_signing_key_overrides(
    key: Seq<char>,
    openpgp_program: Option<Seq<char>>,
    gpg_program: Option<Seq<char>>,
    fallback: Result<Seq<char>, Seq<char>>,
)
    ensures
        spec_resolve(None, None, openpgp_program, gpg_program, Some(key), fallback)
            == Resolution::Strategy(resolved_program(openpgp_program, gpg_program), key),
{
}

/// An unsupported `gpg.format` value fails with `InvalidFormat`; the reserved
/// `x509` and `ssh` formats fail with `MethodNotImplemented` instead.
pub proof fn lemma_format_rejections(
    format: Seq<char>,
    openpgp_program: Option<Seq<char>>,
    gpg_program: Option<Seq<char>>,
    user_signing_key: Option<Seq<char>>,
    fallback: Result<Seq<char>, Seq<char>>,
)
    ensures
        format != "openpgp"@ && format != "x509"@ && format != "ssh"@ ==> spec_resolve(
            None,
            Some(format),
            openpgp_program,
            gpg_program,
            user_signing_key,
            fallback,
        ) == Resolution::InvalidFormat(format),
        format == "x509"@ || format == "ssh"@ ==> spec_resolve(
            None,
            Some(format),
            openpgp_program,
            gpg_program,
            user_signing_key,
            fallback,
        ) == Resolution::MethodNotImplemented(format),
{
    broadcast use vstd::string::group_string_axioms;

    assert("x509"@ != "openpgp"@) by {
        reveal_strlit("x509");
        reveal_strlit("openpgp");
        assert("x509"@.len() == 4);
        assert("openpgp"@.len() == 7);
    }
    assert("ssh"@ != "openpgp"@) by {
        reveal_strlit("ssh");
        reveal_strlit("openpgp");
        assert("ssh"@.len() == 3);
        assert("openpgp"@.len() == 7);
    }
}

} // verus!
