use t3shell::bridge::{dispatch, launch_path, open_path_event, DeferredOpen};

fn args(v: &[&str]) -> Vec<String> {
    v.iter().map(|s| s.to_string()).collect()
}

#[test]
fn known_identifiers_map_to_their_events() {
    assert_eq!(dispatch("open-file"), Some("open-file-request"));
    assert_eq!(dispatch("open-folder"), Some("open-folder-request"));
    assert_eq!(dispatch("settings"), Some("open-settings"));
    assert_eq!(dispatch("install-cli"), Some("request-install-cli"));
    assert_eq!(dispatch("uninstall-cli"), Some("request-uninstall-cli"));
}

#[test]
fn unknown_identifiers_are_silently_ignored() {
    assert_eq!(dispatch(""), None);
    assert_eq!(dispatch("about"), None);
    assert_eq!(dispatch("open-file "), None);
    assert_eq!(dispatch("OPEN-FILE"), None);
    assert_eq!(dispatch("open-file-request"), None);
}

#[test]
fn open_path_event_name() {
    assert_eq!(open_path_event(), "open-path");
}

#[test]
fn no_argument_asks_for_nothing() {
    assert_eq!(launch_path(&args(&["t3lang"])), None);
    assert_eq!(launch_path(&args(&[])), None);
}

#[test]
fn flag_argument_asks_for_nothing() {
    assert_eq!(launch_path(&args(&["t3lang", "-v"])), None);
    assert_eq!(launch_path(&args(&["t3lang", "--help"])), None);
    assert_eq!(launch_path(&args(&["t3lang", "-"])), None);
}

#[test]
fn path_argument_is_forwarded_verbatim() {
    assert_eq!(
        launch_path(&args(&["t3lang", "/tmp/x.txt"])),
        Some("/tmp/x.txt".to_string())
    );
    assert_eq!(
        launch_path(&args(&["t3lang", "relative/dir"])),
        Some("relative/dir".to_string())
    );
    // Only the first trailing argument counts.
    assert_eq!(
        launch_path(&args(&["t3lang", "/a", "/b"])),
        Some("/a".to_string())
    );
    // An empty argument does not begin with the flag marker.
    assert_eq!(launch_path(&args(&["t3lang", ""])), Some(String::new()));
}

#[test]
fn flag_launch_never_fires() {
    let mut task = DeferredOpen::new(&args(&["t3lang", "-v"]));
    assert_eq!(task.fire(), None);
    assert_eq!(task.fire(), None);
    assert_eq!(task.fire(), None);
}

#[test]
fn path_launch_fires_exactly_once() {
    let mut task = DeferredOpen::new(&args(&["t3lang", "/tmp/x.txt"]));
    assert_eq!(task.fire(), Some("/tmp/x.txt".to_string()));
    assert_eq!(task.fire(), None);
    assert_eq!(task.fire(), None);
}

#[test]
fn launch_scenario_document_path() {
    // Launch with `/Users/a/doc.t3`: after the embedding process's fixed
    // delay it fires the task once; the UI gets one open-path event with
    // that exact payload, and idle re-fires yield nothing.
    let mut task = DeferredOpen::new(&args(&["t3lang", "/Users/a/doc.t3"]));
    let first = task.fire();
    assert_eq!(first, Some("/Users/a/doc.t3".to_string()));
    assert_eq!(task.fire(), None);
    assert_eq!(task.fire(), None);
}
