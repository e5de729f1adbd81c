use t3shell::launcher_script::{launcher_script_decision, resolve_target, LaunchDecision};

#[test]
fn absolute_arguments_stand_as_they_are() {
    assert_eq!(resolve_target("/Users/a/doc.t3", "/work"), "/Users/a/doc.t3");
    assert_eq!(resolve_target("/", "/work"), "/");
}

#[test]
fn relative_arguments_resolve_against_the_working_directory() {
    assert_eq!(resolve_target("doc.t3", "/work"), "/work/doc.t3");
    assert_eq!(resolve_target("a/b.t3", "/work"), "/work/a/b.t3");
    assert_eq!(resolve_target("", "/work"), "/work/");
}

#[test]
fn no_argument_foregrounds_the_application() {
    let d = launcher_script_decision(true, None, "/work", false);
    assert_eq!(d, LaunchDecision::Foreground);
    assert_eq!(d.exit_code(), 0);
}

#[test]
fn existing_target_is_opened_at_its_absolute_path() {
    let d = launcher_script_decision(true, Some("doc.t3"), "/work", true);
    assert_eq!(d, LaunchDecision::Open("/work/doc.t3".to_string()));
    assert_eq!(d.exit_code(), 0);
}

#[test]
fn missing_target_is_refused_with_a_diagnostic() {
    let d = launcher_script_decision(true, Some("gone.t3"), "/work", false);
    assert_eq!(
        d,
        LaunchDecision::Refuse("t3lang: /work/gone.t3: no such file or directory".to_string())
    );
    assert_eq!(d.exit_code(), 1);
}

#[test]
fn absent_application_is_refused_whatever_the_invocation() {
    let d = launcher_script_decision(false, None, "/work", true);
    assert_eq!(
        d,
        LaunchDecision::Refuse("t3lang: T3Lang.app is not installed".to_string())
    );
    assert_eq!(d.exit_code(), 1);
    let d = launcher_script_decision(false, Some("/x"), "/work", true);
    assert_eq!(d.exit_code(), 1);
}
