use t3shell::bridge::dispatch;
use t3shell::menu::{build_menu_tree, MenuItemKind, MenuItemSpec};

fn action_items(tree: &t3shell::menu::MenuTree) -> Vec<&MenuItemSpec> {
    tree.submenus
        .iter()
        .flat_map(|s| s.items.iter())
        .filter(|it| it.kind == MenuItemKind::Action)
        .collect()
}

#[test]
fn four_submenus_in_fixed_order() {
    let tree = build_menu_tree();
    let titles: Vec<&str> = tree.submenus.iter().map(|s| s.title.as_str()).collect();
    assert_eq!(titles, vec!["T3Lang", "File", "Edit", "Window"]);
    assert_eq!(tree.submenus[0].items.len(), 14);
    assert_eq!(tree.submenus[1].items.len(), 4);
    assert_eq!(tree.submenus[2].items.len(), 8);
    assert_eq!(tree.submenus[3].items.len(), 4);
}

#[test]
fn actionable_entries_and_their_identifiers() {
    let tree = build_menu_tree();
    let actions = action_items(&tree);
    let ids: Vec<&str> = actions.iter().map(|it| it.id.as_str()).collect();
    assert_eq!(
        ids,
        vec!["settings", "install-cli", "uninstall-cli", "open-file", "open-folder"]
    );
}

#[test]
fn action_identifiers_are_unique() {
    let tree = build_menu_tree();
    let actions = action_items(&tree);
    for (i, a) in actions.iter().enumerate() {
        for (j, b) in actions.iter().enumerate() {
            if i != j {
                assert_ne!(a.id, b.id);
            }
        }
    }
}

#[test]
fn labels_and_accelerators() {
    let tree = build_menu_tree();
    let actions = action_items(&tree);
    assert_eq!(actions[0].label, "Settings...");
    assert_eq!(actions[0].accelerator.as_deref(), Some("CmdOrCtrl+,"));
    assert_eq!(actions[1].label, "Install 't3lang' Command in PATH...");
    assert_eq!(actions[1].accelerator, None);
    assert_eq!(actions[2].label, "Uninstall 't3lang' Command from PATH...");
    assert_eq!(actions[2].accelerator, None);
    assert_eq!(actions[3].label, "Open File...");
    assert_eq!(actions[3].accelerator.as_deref(), Some("CmdOrCtrl+O"));
    assert_eq!(actions[4].label, "Open Folder...");
    assert_eq!(actions[4].accelerator.as_deref(), Some("CmdOrCtrl+Shift+O"));
}

#[test]
fn every_actionable_entry_dispatches_to_exactly_one_event() {
    let tree = build_menu_tree();
    for item in action_items(&tree) {
        assert!(dispatch(item.id.as_str()).is_some());
    }
}

#[test]
fn inert_entries_never_dispatch() {
    let tree = build_menu_tree();
    for submenu in &tree.submenus {
        for item in &submenu.items {
            if item.kind != MenuItemKind::Action {
                assert_eq!(dispatch(item.id.as_str()), None);
            }
        }
    }
}

#[test]
fn inert_entries_by_position() {
    let tree = build_menu_tree();
    let expect = [
        (0usize, vec![
            (0usize, MenuItemKind::Predefined, "About T3Lang"),
            (1, MenuItemKind::Separator, ""),
            (3, MenuItemKind::Separator, ""),
            (6, MenuItemKind::Separator, ""),
            (7, MenuItemKind::Predefined, "Services"),
            (8, MenuItemKind::Separator, ""),
            (9, MenuItemKind::Predefined, "Hide T3Lang"),
            (10, MenuItemKind::Predefined, "Hide Others"),
            (11, MenuItemKind::Predefined, "Show All"),
            (12, MenuItemKind::Separator, ""),
            (13, MenuItemKind::Predefined, "Quit T3Lang"),
        ]),
        (1, vec![
            (2, MenuItemKind::Separator, ""),
            (3, MenuItemKind::Predefined, "Close Window"),
        ]),
        (2, vec![
            (0, MenuItemKind::Predefined, "Undo"),
            (1, MenuItemKind::Predefined, "Redo"),
            (2, MenuItemKind::Separator, ""),
            (3, MenuItemKind::Predefined, "Cut"),
            (4, MenuItemKind::Predefined, "Copy"),
            (5, MenuItemKind::Predefined, "Paste"),
            (6, MenuItemKind::Separator, ""),
            (7, MenuItemKind::Predefined, "Select All"),
        ]),
        (3, vec![
            (0, MenuItemKind::Predefined, "Minimize"),
            (1, MenuItemKind::Predefined, "Zoom"),
            (2, MenuItemKind::Separator, ""),
            (3, MenuItemKind::Predefined, "Enter Full Screen"),
        ]),
    ];
    for (i, entries) in &expect {
        for (j, kind, label) in entries {
            let item = &tree.submenus[*i].items[*j];
            assert_eq!(&item.kind, kind);
            assert_eq!(item.label, *label);
        }
    }
}
