//! The command-line launcher's own behaviour, under the
//! script-generation provisioning strategy: what the generated launcher
//! decides for a given invocation. The script runs in a shell, so the
//! shell feeds in what only it can see — whether the application is
//! present, the working directory, whether the resolved path exists —
//! and this module decides foreground, launch, or refusal, and the exit
//! status.

use vstd::prelude::*;
use vstd::string::{StrSliceExecFns, StringExecFns};

verus! {

/// What one invocation of the launcher does: foreground the installed
/// application (no argument), launch it on an absolute path, or refuse
/// with a diagnostic and a non-zero exit status.
#[derive(Debug, PartialEq, Eq)]
pub enum LaunchDecision {
    Foreground,
    Open(String),
    Refuse(String),
}

/// The absolute form of a launch argument: an argument that already
/// begins at the root stands as it is; anything else is taken relative
/// to the working directory.
pub open spec fn spec_resolved_target(argument: Seq<char>, working_directory: Seq<char>) -> Seq<
    char,
> {
    if argument.len() > 0 && argument[0] == '/' {
        argument
    } else {
        working_directory + "/"@ + argument
    }
}

/// Resolves a launch argument to its absolute form.
pub fn resolve_target(argument: &str, working_directory: &str) -> (r: String)
    ensures
        r@ == spec_resolved_target(argument@, working_directory@),
{
    if argument.unicode_len() > 0 && argument.get_char(0) == '/' {
        argument.to_owned()
    } else {
        let mut r = String::from_str(working_directory);
        r.append("/");
        r.append(argument);
        r
    }
}

/// Decides one invocation of the generated launcher. Without the
/// application in place every invocation is refused. With it, no
/// argument foregrounds the application; a path argument is resolved to
/// its absolute form and, when that path exists, the application is
/// launched on it, otherwise the invocation is refused with a
/// diagnostic naming the resolved path.
pub fn launcher_script_decision(
    app_present: bool,
    argument: Option<&str>,
    working_directory: &str,
    target_exists: bool,
) -> (r: LaunchDecision)
    ensures
        !app_present ==> (r matches LaunchDecision::Refuse(m) && m@
            == "t3lang: T3Lang.app is not installed"@),
        app_present && argument is None ==> r is Foreground,
        app_present ==> (argument matches Some(a) ==> if target_exists {
            r matches LaunchDecision::Open(p) && p@ == spec_resolved_target(
                a@,
                working_directory@,
            )
        } else {
            r matches LaunchDecision::Refuse(m) && m@ == "t3lang: "@ + spec_resolved_target(
                a@,
                working_directory@,
            ) + ": no such file or directory"@
        }),
{
    if !app_present {
        return LaunchDecision::Refuse(String::from_str("t3lang: T3Lang.app is not installed"));
    }
    match argument {
        None => LaunchDecision::Foreground,
        Some(a) => {
            let resolved = resolve_target(a, working_directory);
            if target_exists {
                LaunchDecision::Open(resolved)
            } else {
                let mut m = String::from_str("t3lang: ");
                m.append(resolved.as_str());
                m.append(": no such file or directory");
                LaunchDecision::Refuse(m)
            }
        },
    }
}

impl LaunchDecision {
    /// The exit status the launcher ends with: zero exactly when the
    /// invocation was not refused.
    pub fn exit_code(&self) -> (r: u8)
        ensures
            (r == 0) <==> !(self matches LaunchDecision::Refuse(_)),
            r == 0 || r == 1,
    {
        match self {
            LaunchDecision::Refuse(_) => 1,
            _ => 0,
        }
    }
}

} // verus!
