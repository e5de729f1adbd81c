use t3shell::text::{str_contains, str_eq};

#[test]
fn equality_by_characters() {
    assert!(str_eq("", ""));
    assert!(str_eq("abc", "abc"));
    assert!(!str_eq("abc", "abd"));
    assert!(!str_eq("abc", "ab"));
    assert!(str_eq("naïve ✓", "naïve ✓"));
    assert!(!str_eq("naïve", "naive"));
}

#[test]
fn containment_of_the_cancellation_marker_shape() {
    assert!(str_contains(
        "execution error: User canceled. (-128)",
        "User canceled"
    ));
    assert!(str_contains("User canceled", "User canceled"));
    assert!(!str_contains("user canceled", "User canceled"));
    assert!(!str_contains("User cancele", "User canceled"));
}

#[test]
fn containment_edges() {
    assert!(str_contains("anything", ""));
    assert!(str_contains("", ""));
    assert!(!str_contains("", "a"));
    assert!(str_contains("aaab", "aab"));
    assert!(str_contains("acac", "cac"));
    assert!(str_contains("départ ✓ fin", "✓"));
    assert!(!str_contains("abc", "abcd"));
}
