//! The static application menu: four submenus built once at startup, in
//! a fixed declarative order. Every actionable entry carries a stable
//! identifier — the dispatch key of the event bridge — and those
//! identifiers are globally unique across the tree. Separators and
//! predefined entries delegate to the host platform and carry no
//! dispatch semantics.

use vstd::prelude::*;
use vstd::string::StringExecFns;
use crate::text::opt_view;

verus! {

/// What an entry in a submenu is: a custom action with a dispatch
/// identifier, a visual separator, or an entry whose behaviour the host
/// platform predefines (about, quit, clipboard operations, ...).
#[derive(Debug, PartialEq, Eq)]
pub enum MenuItemKind {
    Action,
    Separator,
    Predefined,
}

/// One entry of a submenu. Only an `Action` entry's `id` means
/// anything: it is the key under which the event bridge dispatches the
/// entry's activation. Other kinds keep an empty `id`.
#[derive(Debug, PartialEq, Eq)]
pub struct MenuItemSpec {
    pub id: String,
    pub label: String,
    pub accelerator: Option<String>,
    pub kind: MenuItemKind,
}

/// A titled, ordered group of entries at the top level of the menu bar.
#[derive(Debug, PartialEq, Eq)]
pub struct Submenu {
    pub title: String,
    pub items: Vec<MenuItemSpec>,
}

/// The whole application menu: an ordered sequence of submenus.
#[derive(Debug, PartialEq, Eq)]
pub struct MenuTree {
    pub submenus: Vec<Submenu>,
}

/// Some actionable entry of the tree carries the identifier `id`.
pub open spec fn has_action_id(t: MenuTree, id: Seq<char>) -> bool {
    exists|i: int, j: int|
        0 <= i < t.submenus@.len() && 0 <= j < t.submenus@[i].items@.len()
            && (#[trigger] t.submenus@[i].items@[j]).kind is Action
            && t.submenus@[i].items@[j].id@ == id
}

/// Entry `j` of submenu `i` is an actionable entry carrying the
/// identifier `id`, the label `label`, and the accelerator
/// `accelerator`.
pub open spec fn entry_is_action(
    t: MenuTree,
    i: int,
    j: int,
    id: Seq<char>,
    label: Seq<char>,
    accelerator: Option<Seq<char>>,
) -> bool {
    t.submenus@[i].items@[j].kind is Action && t.submenus@[i].items@[j].id@ == id
        && t.submenus@[i].items@[j].label@ == label && opt_view(
        t.submenus@[i].items@[j].accelerator,
    ) == accelerator
}

/// Entry `j` of submenu `i` is a visual separator.
pub open spec fn entry_is_separator(t: MenuTree, i: int, j: int) -> bool {
    t.submenus@[i].items@[j].kind is Separator
}

/// Entry `j` of submenu `i` is a platform-predefined entry labelled
/// `label`.
pub open spec fn entry_is_predefined(t: MenuTree, i: int, j: int, label: Seq<char>) -> bool {
    t.submenus@[i].items@[j].kind is Predefined && t.submenus@[i].items@[j].label@ == label
}

/// No two distinct actionable entries of the tree share an identifier.
pub open spec fn unique_action_ids(t: MenuTree) -> bool {
    forall|i1: int, j1: int, i2: int, j2: int|
        0 <= i1 < t.submenus@.len() && 0 <= j1 < t.submenus@[i1].items@.len() && 0 <= i2
            < t.submenus@.len() && 0 <= j2 < t.submenus@[i2].items@.len()
            && (#[trigger] t.submenus@[i1].items@[j1]).kind is Action
            && (#[trigger] t.submenus@[i2].items@[j2]).kind is Action
            && t.submenus@[i1].items@[j1].id@ == t.submenus@[i2].items@[j2].id@ ==> i1 == i2 && j1
            == j2
}

/// The identifiers the menu registers for dispatch.
pub open spec fn known_menu_id(id: Seq<char>) -> bool {
    id == "settings"@ || id == "install-cli"@ || id == "uninstall-cli"@ || id == "open-file"@
        || id == "open-folder"@
}

/// An actionable entry without a key accelerator.
fn action(id: &str, label: &str) -> (r: MenuItemSpec)
    ensures
        r.kind is Action,
        r.id@ == id@,
        r.label@ == label@,
        r.accelerator is None,
{
    MenuItemSpec {
        id: String::from_str(id),
        label: String::from_str(label),
        accelerator: None,
        kind: MenuItemKind::Action,
    }
}

/// An actionable entry with a key accelerator.
fn action_with_accelerator(id: &str, label: &str, accelerator: &str) -> (r: MenuItemSpec)
    ensures
        r.kind is Action,
        r.id@ == id@,
        r.label@ == label@,
        opt_view(r.accelerator) == Some(accelerator@),
{
    MenuItemSpec {
        id: String::from_str(id),
        label: String::from_str(label),
        accelerator: Some(String::from_str(accelerator)),
        kind: MenuItemKind::Action,
    }
}

/// A visual separator; never dispatched.
fn separator() -> (r: MenuItemSpec)
    ensures
        r.kind is Separator,
{
    MenuItemSpec {
        id: String::new(),
        label: String::new(),
        accelerator: None,
        kind: MenuItemKind::Separator,
    }
}

/// An entry whose behaviour the host platform predefines; never
/// dispatched through the bridge.
fn predefined(label: &str) -> (r: MenuItemSpec)
    ensures
        r.kind is Predefined,
        r.label@ == label@,
{
    MenuItemSpec {
        id: String::new(),
        label: String::from_str(label),
        accelerator: None,
        kind: MenuItemKind::Predefined,
    }
}

/// Builds the application menu tree, once, in its fixed order: the
/// application submenu, then File, Edit and Window. Every entry is
/// pinned by position — kind, label, accelerator, and, on the five
/// actionable entries, the dispatch identifier; the tree registers
/// exactly the five known identifiers, each on exactly one actionable
/// entry. Construction cannot partially fail: the whole tree is a
/// value.
pub fn build_menu_tree() -> (r: MenuTree)
    ensures
        unique_action_ids(r),
        forall|id: Seq<char>| #[trigger] has_action_id(r, id) <==> known_menu_id(id),
        entry_is_predefined(r, 0, 0, "About T3Lang"@),
        entry_is_separator(r, 0, 1),
        entry_is_action(r, 0, 2, "settings"@, "Settings..."@, Some("CmdOrCtrl+,"@)),
        entry_is_separator(r, 0, 3),
        entry_is_action(r, 0, 4, "install-cli"@, "Install 't3lang' Command in PATH..."@, None),
        entry_is_action(
            r,
            0,
            5,
            "uninstall-cli"@,
            "Uninstall 't3lang' Command from PATH..."@,
            None,
        ),
        entry_is_separator(r, 0, 6),
        entry_is_predefined(r, 0, 7, "Services"@),
        entry_is_separator(r, 0, 8),
        entry_is_predefined(r, 0, 9, "Hide T3Lang"@),
        entry_is_predefined(r, 0, 10, "Hide Others"@),
        entry_is_predefined(r, 0, 11, "Show All"@),
        entry_is_separator(r, 0, 12),
        entry_is_predefined(r, 0, 13, "Quit T3Lang"@),
        entry_is_action(r, 1, 0, "open-file"@, "Open File..."@, Some("CmdOrCtrl+O"@)),
        entry_is_action(
            r,
            1,
            1,
            "open-folder"@,
            "Open Folder..."@,
            Some("CmdOrCtrl+Shift+O"@),
        ),
        entry_is_separator(r, 1, 2),
        entry_is_predefined(r, 1, 3, "Close Window"@),
        entry_is_predefined(r, 2, 0, "Undo"@),
        entry_is_predefined(r, 2, 1, "Redo"@),
        entry_is_separator(r, 2, 2),
        entry_is_predefined(r, 2, 3, "Cut"@),
        entry_is_predefined(r, 2, 4, "Copy"@),
        entry_is_predefined(r, 2, 5, "Paste"@),
        entry_is_separator(r, 2, 6),
        entry_is_predefined(r, 2, 7, "Select All"@),
        entry_is_predefined(r, 3, 0, "Minimize"@),
        entry_is_predefined(r, 3, 1, "Zoom"@),
        entry_is_separator(r, 3, 2),
        entry_is_predefined(r, 3, 3, "Enter Full Screen"@),
        r.submenus@.len() == 4,
        r.submenus@[0].items@.len() == 14,
        r.submenus@[1].items@.len() == 4,
        r.submenus@[2].items@.len() == 8,
        r.submenus@[3].items@.len() == 4,
        r.submenus@[0].title@ == "T3Lang"@,
        r.submenus@[1].title@ == "File"@,
        r.submenus@[2].title@ == "Edit"@,
        r.submenus@[3].title@ == "Window"@,
{
    let mut app_items: Vec<MenuItemSpec> = Vec::new();
    app_items.push(predefined("About T3Lang"));
    app_items.push(separator());
    app_items.push(action_with_accelerator("settings", "Settings...", "CmdOrCtrl+,"));
    app_items.push(separator());
    app_items.push(action("install-cli", "Install 't3lang' Command in PATH..."));
    app_items.push(action("uninstall-cli", "Uninstall 't3lang' Command from PATH..."));
    app_items.push(separator());
    app_items.push(predefined("Services"));
    app_items.push(separator());
    app_items.push(predefined("Hide T3Lang"));
    app_items.push(predefined("Hide Others"));
    app_items.push(predefined("Show All"));
    app_items.push(separator());
    app_items.push(predefined("Quit T3Lang"));

    let mut file_items: Vec<MenuItemSpec> = Vec::new();
    file_items.push(action_with_accelerator("open-file", "Open File...", "CmdOrCtrl+O"));
    file_items.push(action_with_accelerator("open-folder", "Open Folder...", "CmdOrCtrl+Shift+O"));
    file_items.push(separator());
    file_items.push(predefined("Close Window"));

    let mut edit_items: Vec<MenuItemSpec> = Vec::new();
    edit_items.push(predefined("Undo"));
    edit_items.push(predefined("Redo"));
    edit_items.push(separator());
    edit_items.push(predefined("Cut"));
    edit_items.push(predefined("Copy"));
    edit_items.push(predefined("Paste"));
    edit_items.push(separator());
    edit_items.push(predefined("Select All"));

    let mut window_items: Vec<MenuItemSpec> = Vec::new();
    window_items.push(predefined("Minimize"));
    window_items.push(predefined("Zoom"));
    window_items.push(separator());
    window_items.push(predefined("Enter Full Screen"));

    let mut submenus: Vec<Submenu> = Vec::new();
    submenus.push(Submenu { title: String::from_str("T3Lang"), items: app_items });
    submenus.push(Submenu { title: String::from_str("File"), items: file_items });
    submenus.push(Submenu { title: String::from_str("Edit"), items: edit_items });
    submenus.push(Submenu { title: String::from_str("Window"), items: window_items });
    let tree = MenuTree { submenus };

    proof {
        reveal_strlit("settings");
        reveal_strlit("install-cli");
        reveal_strlit("uninstall-cli");
        reveal_strlit("open-file");
        reveal_strlit("open-folder");
        assert("settings"@.len() == 8);
        assert("install-cli"@.len() == 11);
        assert("uninstall-cli"@.len() == 13);
        assert("open-file"@.len() == 9);
        assert("open-folder"@.len() == 11);
        assert("install-cli"@ != "open-folder"@) by {
            assert("install-cli"@[0] != "open-folder"@[0]);
        }
        assert(tree.submenus@[0].items@[2].id@ == "settings"@);
        assert(tree.submenus@[0].items@[4].id@ == "install-cli"@);
        assert(tree.submenus@[0].items@[5].id@ == "uninstall-cli"@);
        assert(tree.submenus@[1].items@[0].id@ == "open-file"@);
        assert(tree.submenus@[1].items@[1].id@ == "open-folder"@);
        assert(tree.submenus@[0].items@[2].kind is Action);
        assert(tree.submenus@[0].items@[4].kind is Action);
        assert(tree.submenus@[0].items@[5].kind is Action);
        assert(tree.submenus@[1].items@[0].kind is Action);
        assert(tree.submenus@[1].items@[1].kind is Action);
        assert(has_action_id(tree, "settings"@));
        assert(has_action_id(tree, "install-cli"@));
        assert(has_action_id(tree, "uninstall-cli"@));
        assert(has_action_id(tree, "open-file"@));
        assert(has_action_id(tree, "open-folder"@));
        assert forall|id: Seq<char>| #[trigger] has_action_id(tree, id) implies known_menu_id(
            id,
        ) by {
            let (i, j) = choose|i: int, j: int|
                0 <= i < tree.submenus@.len() && 0 <= j < tree.submenus@[i].items@.len()
                    && (#[trigger] tree.submenus@[i].items@[j]).kind is Action
                    && tree.submenus@[i].items@[j].id@ == id;
        }
        assert forall|i1: int, j1: int, i2: int, j2: int|
            0 <= i1 < tree.submenus@.len() && 0 <= j1 < tree.submenus@[i1].items@.len() && 0 <= i2
                < tree.submenus@.len() && 0 <= j2 < tree.submenus@[i2].items@.len()
                && (#[trigger] tree.submenus@[i1].items@[j1]).kind is Action
                && (#[trigger] tree.submenus@[i2].items@[j2]).kind is Action
                && tree.submenus@[i1].items@[j1].id@ == tree.submenus@[i2].items@[j2].id@ implies i1
            == i2 && j1 == j2 by {}
    }
    tree
}

} // verus!
