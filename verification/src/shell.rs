//! The privileged-shell layer: the operation handed to the platform's
//! elevation mechanism, the raw result it hands back, and the decoding
//! of its diagnostic bytes. Running the operation is the embedding
//! process's job; nothing here touches the system.

use vstd::prelude::*;
use vstd::string::StringExecFns;

verus! {

/// A single shell command, ready for the platform to run; when
/// `needs_elevation` holds, the platform must show its authorization
/// prompt and run the command with administrator privileges.
pub struct ShellOperation {
    pub command: String,
    pub needs_elevation: bool,
}

/// What came back from running a shell operation: whether the command
/// exited successfully, and its captured output, verbatim. No
/// classification happens at this layer; deciding what an outcome means
/// is the provisioner's policy.
pub struct ShellResult {
    pub succeeded: bool,
    pub stdout: Vec<u8>,
    pub stderr: Vec<u8>,
}

/// The decoding of a byte sequence as text, with ill-formed sequences
/// replaced; what `decode_diagnostic` returns.
pub uninterp spec fn decoded_text(bytes: Seq<u8>) -> Seq<char>;

/// Relies on `String::from_utf8_lossy` of std: the decoding depends on
/// the bytes alone, and an empty input decodes to the empty string.
#[verifier::external_body]
pub(crate) fn decode_diagnostic(bytes: &Vec<u8>) -> (r: String)
    ensures
        r@ == decoded_text(bytes@),
        bytes@.len() == 0 ==> r@.len() == 0,
{
    String::from_utf8_lossy(bytes.as_slice()).into_owned()
}

/// The command text that asks the platform shell to run `inner` once
/// with administrator privileges.
pub open spec fn spec_elevated_command(inner: Seq<char>) -> Seq<char> {
    "do shell script \""@ + inner + "\" with administrator privileges"@
}

/// Wraps a fully-formed, shell-safe command in the platform's
/// privilege-elevation incantation. Quoting of any embedded paths is
/// the caller's responsibility: the inner command is interpreted by a
/// system shell.
pub fn elevated_operation(inner: &str) -> (r: ShellOperation)
    ensures
        r.command@ == spec_elevated_command(inner@),
        r.needs_elevation,
{
    let mut command = String::from_str("do shell script \"");
    command.append(inner);
    command.append("\" with administrator privileges");
    ShellOperation { command, needs_elevation: true }
}

} // verus!
