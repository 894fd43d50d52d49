//! The OpenPGP signing strategy and the validation of the external signing
//! program's output protocol.
//!
//! One signing call spawns the resolved program once, feeds it the commit
//! text, and collects its exit status and both output streams. Everything the
//! protocol then decides — what counts as a confirmed signature, which error
//! is reported otherwise — is the verified logic of this module: it takes the
//! collected [`ProgramOutput`] and validates it.

use vstd::prelude::*;
use vstd::string::StringExecFns;
use vstd::utf8::{decode_utf8, valid_utf8};

use crate::errors::SignError;
use crate::strutil::{contains_seq, contains_substr, decode_utf8_vec, utf8_error_text};

verus! {

/// Sign commit data.
///
/// An implementation runs the resolved external program over the serialized
/// commit buffer (valid UTF-8 text) and returns the detached, armored
/// signature text, validated per the status-stream protocol.
pub trait Sign {
    /// Sign `commit` and return the armored signature text.
    fn sign(&self, commit: &str) -> Result<String, SignError>;
}

/// What one run of the external signing program produced: whether it exited
/// successfully, and its two captured output streams.
pub struct ProgramOutput {
    /// The process exited with a success status.
    pub success: bool,
    /// The captured standard output stream.
    pub stdout: Vec<u8>,
    /// The captured standard error stream, which carries the status lines.
    pub stderr: Vec<u8>,
}

/// A resolved, immutable signing strategy: sign with `OpenPGP` by delegating
/// to an external program.
#[derive(Debug)]
pub struct GPGSign {
    program: String,
    signing_key: String,
}

/// The marker line fragment the signing program writes to its error stream
/// when a signature was actually created.
pub open spec fn sig_created_marker() -> Seq<char> {
    "\n[GNUPG:] SIG_CREATED "@
}

/// The outcome of one signing call, at the specification level: either the
/// signature text, or one of the signing error kinds with its detail.
pub enum SignOutcome {
    /// The signature text that is returned.
    Signed(Seq<char>),
    /// The process could not be spawned.
    Spawn(Seq<char>),
    /// The child's standard input handle was unavailable.
    Stdin,
    /// Writing the commit data failed.
    WriteBuffer(Seq<char>),
    /// The process output could not be collected.
    Output(Seq<char>),
    /// The process ran but failed or produced invalid or unconfirmed output.
    Shellout(Seq<char>),
}

/// The outcome a signing result denotes.
pub open spec fn sign_outcome_of(r: Result<String, SignError>) -> SignOutcome {
    match r {
        Ok(s) => SignOutcome::Signed(s@),
        Err(SignError::Spawn(d)) => SignOutcome::Spawn(d@),
        Err(SignError::Stdin) => SignOutcome::Stdin,
        Err(SignError::WriteBuffer(d)) => SignOutcome::WriteBuffer(d@),
        Err(SignError::Output(d)) => SignOutcome::Output(d@),
        Err(SignError::Shellout(d)) => SignOutcome::Shellout(d@),
    }
}

/// The error detail reported when the program exits non-zero: its error
/// stream decoded as UTF-8, or a placeholder where that is impossible.
pub open spec fn nonzero_exit_text(program: Seq<char>, stderr: Seq<u8>) -> Seq<char> {
    "failed to sign data, program '"@ + program + "' exited non-zero: "@ + (if valid_utf8(
        stderr,
    ) {
        decode_utf8(stderr)
    } else {
        "[error could not be read from stderr]"@
    })
}

/// The error detail reported when the program exits successfully but never
/// confirms on its status stream that a signature was created.
pub open spec fn missing_marker_text(program: Seq<char>) -> Seq<char> {
    "failed to sign data, program '"@ + program + "' failed, SIG_CREATED not seen in stderr"@
}

/// What one signing call returns, given the program's collected output.
///
/// A non-zero exit fails. Independently of the exit code, the error stream
/// must decode as UTF-8 and contain the confirmation marker; the output
/// stream must decode as UTF-8 and is returned unchanged as the signature.
pub open spec fn spec_validate(
    program: Seq<char>,
    success: bool,
    stdout: Seq<u8>,
    stderr: Seq<u8>,
) -> SignOutcome {
    if !success {
        SignOutcome::Shellout(nonzero_exit_text(program, stderr))
    } else if !valid_utf8(stderr) {
        SignOutcome::Shellout(utf8_error_text(stderr))
    } else if !contains_seq(decode_utf8(stderr), sig_created_marker()) {
        SignOutcome::Shellout(missing_marker_text(program))
    } else if !valid_utf8(stdout) {
        SignOutcome::Shellout(utf8_error_text(stdout))
    } else {
        SignOutcome::Signed(decode_utf8(stdout))
    }
}

impl GPGSign {
    /// The configured executable name or path of the external program.
    pub closed spec fn spec_program(&self) -> Seq<char> {
        self.program@
    }

    /// The configured signing key identifier.
    pub closed spec fn spec_signing_key(&self) -> Seq<char> {
        self.signing_key@
    }

    /// Create new `GPGSign` using given program and signing key.
    pub fn new(program: &str, signing_key: &str) -> (s: Self)
        ensures
            s.spec_program() == program@,
            s.spec_signing_key() == signing_key@,
    {
        Self { program: program.to_owned(), signing_key: signing_key.to_owned() }
    }

    /// The executable name or path of the external signing program.
    pub fn program(&self) -> (p: &String)
        ensures
            p@ == self.spec_program(),
    {
        &self.program
    }

    /// The key identifier handed to the external signing program.
    pub fn signing_key(&self) -> (k: &String)
        ensures
            k@ == self.spec_signing_key(),
    {
        &self.signing_key
    }

    /// Validate the collected output of one run of the external signing
    /// program and extract the armored signature text.
    ///
    /// The caller spawns `self.program()` with the arguments
    /// `--status-fd=2 -bsau <signing key>`, writes the commit text to the
    /// child's input stream, closes that stream, waits, and hands the
    /// collected streams here.
    pub fn complete_sign(&self, out: &ProgramOutput) -> (r: Result<String, SignError>)
        ensures
            sign_outcome_of(r) == spec_validate(
                self.spec_program(),
                out.success,
                out.stdout@,
                out.stderr@,
            ),
    {
        if !out.success {
            let stderr_text: String = match decode_utf8_vec(&out.stderr) {
                Ok(s) => s,
                Err(_) => "[error could not be read from stderr]".to_owned(),
            };
            let mut msg = "failed to sign data, program '".to_owned();
            msg.append(self.program.as_str());
            msg.append("' exited non-zero: ");
            msg.append(stderr_text.as_str());
            return Err(SignError::Shellout(msg));
        }
        let stderr_text: String = match decode_utf8_vec(&out.stderr) {
            Ok(s) => s,
            Err(t) => {
                return Err(SignError::Shellout(t));
            },
        };
        if !contains_substr(stderr_text.as_str(), "\n[GNUPG:] SIG_CREATED ") {
            let mut msg = "failed to sign data, program '".to_owned();
            msg.append(self.program.as_str());
            msg.append("' failed, SIG_CREATED not seen in stderr");
            return Err(SignError::Shellout(msg));
        }
        match decode_utf8_vec(&out.stdout) {
            Ok(signed) => Ok(signed),
            Err(t) => Err(SignError::Shellout(t)),
        }
    }
}

/// A program run that exits successfully, confirms on its status stream that
/// a signature was created, and writes valid UTF-8 to its output stream
/// yields exactly that output text, unchanged.
pub proof fn lemma_sign_passthrough(program: Seq<char>, stdout: Seq<u8>, stderr: Seq<u8>)
    requires
        valid_utf8(stderr),
        contains_seq(decode_utf8(stderr), sig_created_marker()),
        valid_utf8(stdout),
    ensures
        spec_validate(program, true, stdout, stderr) == SignOutcome::Signed(decode_utf8(stdout)),
{
}

/// A program run that exits successfully but never writes the confirmation
/// marker to its status stream fails with a `Shellout` error, never succeeds.
pub proof fn lemma_missing_marker_rejected(program: Seq<char>, stdout: Seq<u8>, stderr: Seq<u8>)
    requires
        valid_utf8(stderr) ==> !contains_seq(decode_utf8(stderr), sig_created_marker()),
    ensures
        spec_validate(program, true, stdout, stderr) == SignOutcome::Shellout(
            if valid_utf8(stderr) {
                missing_marker_text(program)
            } else {
                utf8_error_text(stderr)
            },
        ),
{
}

} // verus!
