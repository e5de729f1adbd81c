//! The event bridge: a pure, total mapping from triggered menu
//! identifiers to named UI events, and the one-shot handoff of a launch
//! argument as an "open path" event. The embedding process delivers the
//! events; the bridge only decides which event, with which payload, and
//! that the deferred one fires at most once.

use vstd::prelude::*;
use vstd::string::StrSliceExecFns;
use crate::menu::known_menu_id;
use crate::text::{opt_view, str_eq};

verus! {

/// The named event a menu identifier maps to, if any. Identifiers the
/// menu does not register map to nothing and are silently ignored.
pub open spec fn spec_dispatch(id: Seq<char>) -> Option<Seq<char>> {
    if id == "open-file"@ {
        Some("open-file-request"@)
    } else if id == "open-folder"@ {
        Some("open-folder-request"@)
    } else if id == "settings"@ {
        Some("open-settings"@)
    } else if id == "install-cli"@ {
        Some("request-install-cli"@)
    } else if id == "uninstall-cli"@ {
        Some("request-uninstall-cli"@)
    } else {
        None
    }
}

/// Maps a triggered menu identifier to the named UI event to emit:
/// exactly one event for each registered identifier, none for anything
/// else.
pub fn dispatch(id: &str) -> (r: Option<&'static str>)
    ensures
        opt_view(r) == spec_dispatch(id@),
{
    if str_eq(id, "open-file") {
        Some("open-file-request")
    } else if str_eq(id, "open-folder") {
        Some("open-folder-request")
    } else if str_eq(id, "settings") {
        Some("open-settings")
    } else if str_eq(id, "install-cli") {
        Some("request-install-cli")
    } else if str_eq(id, "uninstall-cli") {
        Some("request-uninstall-cli")
    } else {
        None
    }
}

/// Dispatch agrees with the menu: it yields an event precisely for the
/// identifiers the menu tree registers on its actionable entries, and
/// nothing for any other identifier.
pub proof fn lemma_dispatch_matches_menu(id: Seq<char>)
    ensures
        spec_dispatch(id) is Some <==> known_menu_id(id),
{
}

/// The name of the event that carries a launch-argument path to the UI.
pub fn open_path_event() -> (r: &'static str)
    ensures
        r@ == "open-path"@,
{
    "open-path"
}

/// A flag argument: non-empty and beginning with the flag marker.
pub open spec fn is_flag_argument(a: Seq<char>) -> bool {
    a.len() > 0 && a[0] == '-'
}

/// The path to open that a process-argument vector asks for: the first
/// argument after the program name, provided there is one and it is not
/// a flag. Anything else asks for nothing.
pub open spec fn spec_launch_path(args: Seq<String>) -> Option<Seq<char>> {
    if args.len() > 1 && !is_flag_argument(args[1]@) {
        Some(args[1]@)
    } else {
        None
    }
}

/// Reads the path to open, if any, out of the process's argument
/// vector.
pub fn launch_path(args: &Vec<String>) -> (r: Option<String>)
    ensures
        opt_view(r) == spec_launch_path(args@),
{
    if args.len() > 1 {
        let arg = &args[1];
        let flagged = arg.as_str().unicode_len() > 0 && arg.as_str().get_char(0) == '-';
        if flagged {
            None
        } else {
            Some(arg.clone())
        }
    } else {
        None
    }
}

/// How one `fire` call relates a task's state before, its state after,
/// and what it asked to emit: the pending payload comes out, and
/// nothing stays pending.
pub open spec fn fire_relation(pre: DeferredOpen, post: DeferredOpen, r: Option<String>) -> bool {
    opt_view(r) == pre.pending_path() && post.pending_path() is None
}

/// The one-shot deferred "open path" emission. Built once at startup
/// from the argument vector; after the embedding process has waited out
/// its fixed delay, it fires the task once and emits the payload, if
/// the task yields one.
pub struct DeferredOpen {
    slot: Option<String>,
}

impl DeferredOpen {
    /// The payload still waiting to be emitted, if any.
    pub closed spec fn pending_path(self) -> Option<Seq<char>> {
        opt_view(self.slot)
    }

    /// Sets up the deferred emission for one process launch: pending
    /// exactly when the argument vector carries a non-flag path.
    pub fn new(args: &Vec<String>) -> (r: DeferredOpen)
        ensures
            r.pending_path() == spec_launch_path(args@),
    {
        DeferredOpen { slot: launch_path(args) }
    }

    /// Yields the payload to emit, at most once: whatever was pending
    /// comes out, and afterwards nothing is pending, so a later fire
    /// yields nothing.
    pub fn fire(&mut self) -> (r: Option<String>)
        ensures
            fire_relation(*old(self), *final(self), r),
    {
        self.slot.take()
    }
}

/// The deferred emission is one-shot and faithful: over any two
/// successive fires of a task set up from the argument vector `args`, a
/// non-flag path argument is emitted exactly once, with exactly that
/// path as payload, and anything else — no argument, or a flag — is
/// never emitted at all.
pub proof fn lemma_open_path_emitted_exactly_once(
    args: Seq<String>,
    t0: DeferredOpen,
    t1: DeferredOpen,
    t2: DeferredOpen,
    r1: Option<String>,
    r2: Option<String>,
)
    requires
        t0.pending_path() == spec_launch_path(args),
        fire_relation(t0, t1, r1),
        fire_relation(t1, t2, r2),
    ensures
        args.len() > 1 && !is_flag_argument(args[1]@) ==> (r1 matches Some(p) && p@ == args[1]@),
        !(args.len() > 1 && !is_flag_argument(args[1]@)) ==> r1 is None,
        r2 is None,
{
}

} // verus!
