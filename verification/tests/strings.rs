use robochick::text::{same_text, strip_prefix};

#[test]
fn strip_prefix_removes_a_leading_prefix_only() {
    assert_eq!(strip_prefix("sha256=abc", "sha256="), Some("abc"));
    assert_eq!(strip_prefix("sha256=", "sha256="), Some(""));
    assert_eq!(strip_prefix("sha256", "sha256="), None);
    assert_eq!(strip_prefix("xsha256=abc", "sha256="), None);
    assert_eq!(strip_prefix("", "sha256="), None);
    assert_eq!(strip_prefix("anything", ""), Some("anything"));
    assert_eq!(strip_prefix("été=chaud", "été="), Some("chaud"));
    assert_eq!(strip_prefix("ét", "éta"), None);
}

#[test]
fn same_text_compares_characters() {
    assert!(same_text("notification", "notification"));
    assert!(!same_text("notification", "Notification"));
    assert!(!same_text("notification", "notifications"));
    assert!(same_text("", ""));
}
