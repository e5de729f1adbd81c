//! The command-line launcher provisioner: decides which elevated shell
//! operation an install or uninstall needs, and classifies the raw
//! result of running it as installed, uninstalled, cancelled or failed.
//! The decisions are pure; the embedding process checks the filesystem,
//! runs the operations, and feeds the results back in.

use vstd::prelude::*;
use vstd::string::StringExecFns;
use crate::shell::{decoded_text, spec_elevated_command, elevated_operation, ShellOperation,
    ShellResult};
use crate::text::{contains_seq, str_contains};

verus! {

/// Fixed location of the application resource that the launcher symlink
/// points at.
pub fn source_resource_path() -> (r: &'static str)
    ensures
        r@ == "/Applications/T3Lang.app/Contents/Resources/t3lang"@,
{
    "/Applications/T3Lang.app/Contents/Resources/t3lang"
}

/// Fixed filesystem location of the command-line launcher; the single
/// source of truth for "is the launcher installed" is whether this path
/// exists right now — never a cached answer.
pub fn launcher_path() -> (r: &'static str)
    ensures
        r@ == "/usr/local/bin/t3lang"@,
{
    "/usr/local/bin/t3lang"
}

/// The substring of the shell's diagnostic output that marks a declined
/// authorization prompt. The platform reports cancellation only as
/// text, so this marker is the one place that encodes it.
pub fn cancel_marker() -> (r: &'static str)
    ensures
        r@ == "User canceled"@,
{
    "User canceled"
}

/// Which provisioning operation a shell result came from; install and
/// uninstall classify alike but word their outcomes differently.
#[derive(Debug, Clone, Copy, PartialEq, Eq)]
pub enum ProvisioningAction {
    Install,
    Uninstall,
}

/// The outcome of one provisioning operation, handed back to whoever
/// asked; it is never retained as state.
#[derive(Debug, PartialEq, Eq)]
pub enum ProvisioningOutcome {
    Installed(String),
    Uninstalled(String),
    Cancelled,
    Failed(String),
}

/// The three classification buckets a shell result can fall into.
pub enum OutcomeClass {
    Success,
    Cancelled,
    Failed,
}

/// The bucket a shell result belongs to: success when the command
/// succeeded; cancelled when it did not and its diagnostic text carries
/// the cancellation marker; failed otherwise.
pub open spec fn spec_outcome_class(succeeded: bool, diagnostic: Seq<char>) -> OutcomeClass {
    if succeeded {
        OutcomeClass::Success
    } else if contains_seq(diagnostic, "User canceled"@) {
        OutcomeClass::Cancelled
    } else {
        OutcomeClass::Failed
    }
}

/// The bucket an already-classified outcome lies in.
pub open spec fn outcome_class_of(outcome: ProvisioningOutcome) -> OutcomeClass {
    match outcome {
        ProvisioningOutcome::Installed(_) => OutcomeClass::Success,
        ProvisioningOutcome::Uninstalled(_) => OutcomeClass::Success,
        ProvisioningOutcome::Cancelled => OutcomeClass::Cancelled,
        ProvisioningOutcome::Failed(_) => OutcomeClass::Failed,
    }
}

/// Classification is total and unambiguous: for every shell result,
/// exactly one bucket applies, and the cancellation marker decides only
/// between the two non-success buckets — a successful result is never
/// cancelled, however its diagnostic reads.
pub proof fn lemma_classification_total(succeeded: bool, diagnostic: Seq<char>)
    ensures
        succeeded <==> spec_outcome_class(succeeded, diagnostic) is Success,
        (!succeeded && contains_seq(diagnostic, "User canceled"@)) <==> spec_outcome_class(
            succeeded,
            diagnostic,
        ) is Cancelled,
        (!succeeded && !contains_seq(diagnostic, "User canceled"@)) <==> spec_outcome_class(
            succeeded,
            diagnostic,
        ) is Failed,
{
}

/// Classifies the raw result of one provisioning shell operation.
/// Success becomes `Installed` or `Uninstalled` with the action's fixed
/// message; a non-success whose decoded diagnostic carries the
/// cancellation marker becomes `Cancelled`; any other non-success
/// becomes `Failed` with the action's prefix and the decoded diagnostic.
pub fn classify(action: ProvisioningAction, result: &ShellResult) -> (r: ProvisioningOutcome)
    ensures
        outcome_class_of(r) == spec_outcome_class(result.succeeded, decoded_text(result.stderr@)),
        result.succeeded ==> match action {
            ProvisioningAction::Install => r matches ProvisioningOutcome::Installed(m) && m@
                == "CLI installed successfully! You can now use 't3lang' from the terminal."@,
            ProvisioningAction::Uninstall => r matches ProvisioningOutcome::Uninstalled(m) && m@
                == "CLI uninstalled successfully."@,
        },
        r matches ProvisioningOutcome::Failed(m) ==> match action {
            ProvisioningAction::Install => m@ == "Installation failed: "@ + decoded_text(
                result.stderr@,
            ),
            ProvisioningAction::Uninstall => m@ == "Uninstallation failed: "@ + decoded_text(
                result.stderr@,
            ),
        },
{
    if result.succeeded {
        match action {
            ProvisioningAction::Install => ProvisioningOutcome::Installed(
                String::from_str(
                    "CLI installed successfully! You can now use 't3lang' from the terminal.",
                ),
            ),
            ProvisioningAction::Uninstall => ProvisioningOutcome::Uninstalled(
                String::from_str("CLI uninstalled successfully."),
            ),
        }
    } else {
        let diagnostic = crate::shell::decode_diagnostic(&result.stderr);
        if str_contains(diagnostic.as_str(), cancel_marker()) {
            ProvisioningOutcome::Cancelled
        } else {
            let mut message = match action {
                ProvisioningAction::Install => String::from_str("Installation failed: "),
                ProvisioningAction::Uninstall => String::from_str("Uninstallation failed: "),
            };
            message.append(diagnostic.as_str());
            ProvisioningOutcome::Failed(message)
        }
    }
}

/// What an install asks of the embedding process: either it was refused
/// before any privileged call, with the outcome to surface, or a shell
/// operation to run under elevation.
pub enum InstallStep {
    Refused(ProvisioningOutcome),
    Elevate(ShellOperation),
}

/// The inner shell command that atomically replaces whatever sits at
/// `target` with a symlink to `source`; both paths are wrapped in
/// single quotes for the shell.
pub open spec fn spec_symlink_command(source: Seq<char>, target: Seq<char>) -> Seq<char> {
    "ln -sf '"@ + source + "' '"@ + target + "'"@
}

/// Composes the symlink-replacing shell command, quoting both paths.
pub fn symlink_command(source: &str, target: &str) -> (r: String)
    ensures
        r@ == spec_symlink_command(source@, target@),
{
    let mut command = String::from_str("ln -sf '");
    command.append(source);
    command.append("' '");
    command.append(target);
    command.append("'");
    command
}

/// The inner shell command that removes `target`; `-f` makes removal of
/// an already-absent path succeed rather than fail.
pub open spec fn spec_remove_command(target: Seq<char>) -> Seq<char> {
    "rm -f "@ + target
}

/// Composes the launcher-removing shell command.
pub fn remove_command(target: &str) -> (r: String)
    ensures
        r@ == spec_remove_command(target@),
{
    let mut command = String::from_str("rm -f ");
    command.append(target);
    command
}

/// Decides an install. The caller reports whether the application
/// resource exists at its fixed location; when it does not, the install
/// is refused on the spot with a `Failed` outcome and no shell
/// operation is produced — no elevation prompt is ever shown. When it
/// does, the step is the elevated symlink replacement of the launcher
/// path.
pub fn plan_install(source_exists: bool) -> (r: InstallStep)
    ensures
        !source_exists ==> (r matches InstallStep::Refused(o) && o matches
            ProvisioningOutcome::Failed(m) && m@
            == "T3Lang is not installed in /Applications. Please move the app there first."@),
        source_exists ==> (r matches InstallStep::Elevate(op) && op.needs_elevation && op.command@
            == spec_elevated_command(
            spec_symlink_command(
                "/Applications/T3Lang.app/Contents/Resources/t3lang"@,
                "/usr/local/bin/t3lang"@,
            ),
        )),
{
    if !source_exists {
        InstallStep::Refused(
            ProvisioningOutcome::Failed(
                String::from_str(
                    "T3Lang is not installed in /Applications. Please move the app there first.",
                ),
            ),
        )
    } else {
        let inner = symlink_command(source_resource_path(), launcher_path());
        InstallStep::Elevate(elevated_operation(inner.as_str()))
    }
}

/// Decides an uninstall. There is nothing to check first: removal is
/// attempted whatever the prior state, and the composed command treats
/// an already-absent launcher as success.
pub fn plan_uninstall() -> (r: ShellOperation)
    ensures
        r.needs_elevation,
        r.command@ == spec_elevated_command(spec_remove_command("/usr/local/bin/t3lang"@)),
{
    let inner = remove_command(launcher_path());
    elevated_operation(inner.as_str())
}

/// Surfaces an outcome on the command surface: a success message as
/// `Ok`, and a cancellation (worded for the action) or failure message
/// as `Err`.
pub fn outcome_response(action: ProvisioningAction, outcome: ProvisioningOutcome) -> (r: Result<
    String,
    String,
>)
    ensures
        outcome matches ProvisioningOutcome::Installed(m) ==> (r matches Ok(s) && s == m),
        outcome matches ProvisioningOutcome::Uninstalled(m) ==> (r matches Ok(s) && s == m),
        outcome is Cancelled ==> match action {
            ProvisioningAction::Install => (r matches Err(s) && s@
                == "Installation cancelled."@),
            ProvisioningAction::Uninstall => (r matches Err(s) && s@
                == "Uninstallation cancelled."@),
        },
        outcome matches ProvisioningOutcome::Failed(m) ==> (r matches Err(s) && s == m),
{
    match outcome {
        ProvisioningOutcome::Installed(m) => Ok(m),
        ProvisioningOutcome::Uninstalled(m) => Ok(m),
        ProvisioningOutcome::Cancelled => match action {
            ProvisioningAction::Install => Err(String::from_str("Installation cancelled.")),
            ProvisioningAction::Uninstall => Err(String::from_str("Uninstallation cancelled.")),
        },
        ProvisioningOutcome::Failed(m) => Err(m),
    }
}

} // verus!
