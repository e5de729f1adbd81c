//! Host-shell logic for a desktop editor: provisioning of a command-line
//! launcher through an elevated shell command, classification of the
//! command's outcome, the static application menu, and the bridge that
//! turns menu identifiers and launch arguments into named UI events.
//!
//! Everything here is pure decision logic over plain values; the
//! surrounding process (filesystem checks, the elevation prompt, the
//! windowing host, timers) performs the effects and feeds the results
//! back in.

pub mod bridge;
pub mod launcher_script;
pub mod menu;
pub mod provision;
pub mod shell;
pub mod text;
