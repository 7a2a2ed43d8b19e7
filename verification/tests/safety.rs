use zjctl::safety::{check_self_write, normalize_pane_id};

#[test]
fn blocks_matching_qualified_pane_id() {
    let result = check_self_write("terminal_8", false, Some("8"));
    let err = result.unwrap_err();
    assert_eq!(err.exit_code, 3);
    let json: serde_json::Value = serde_json::from_str(&err.to_json()).unwrap();
    assert_eq!(json["error"], "self_write_blocked");
    assert_eq!(json["target"], "terminal_8");
    assert_eq!(json["self"], "terminal_8");
}

#[test]
fn blocks_bare_integer_matching_pane_id() {
    let result = check_self_write("8", false, Some("8"));
    assert!(result.is_err());
    assert_eq!(result.unwrap_err().exit_code, 3);
}

#[test]
fn allows_different_pane() {
    let result = check_self_write("terminal_3", false, Some("8"));
    assert!(result.is_ok());
}

#[test]
fn bypassed_with_no_guard() {
    let result = check_self_write("terminal_8", true, Some("8"));
    assert!(result.is_ok());
}

#[test]
fn skipped_when_pane_id_not_set() {
    let result = check_self_write("terminal_8", false, None);
    assert!(result.is_ok());
}

#[test]
fn normalize_canonicalises_numbers_only() {
    assert_eq!(normalize_pane_id("007"), "terminal_7");
    assert_eq!(normalize_pane_id("+8"), "terminal_8");
    assert_eq!(normalize_pane_id("plugin_3"), "plugin_3");
    assert_eq!(normalize_pane_id("editor"), "editor");
    assert_eq!(normalize_pane_id("4294967296"), "4294967296");
}

#[test]
fn normalize_twice_is_normalize_once() {
    for id in ["007", "terminal_x", "plugin_1", "title", "", "-1"] {
        let once = normalize_pane_id(id);
        assert_eq!(normalize_pane_id(&once), once);
    }
}

#[test]
fn guard_compares_normalised_target() {
    let err = check_self_write("08", false, Some("8")).unwrap_err();
    assert_eq!(err.target.as_deref(), Some("terminal_8"));
    assert_eq!(err.exit_code, 3);
}
