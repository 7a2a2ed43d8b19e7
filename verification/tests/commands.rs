use std::cell::RefCell;
use std::collections::HashMap;

use serde_json::Value;
use zjctl::cli::{PanesVerb, Resource, SessionsVerb, TabsVerb};
use zjctl::commands::panes::{self, OpenPaneOptions};
use zjctl::commands::{dispatch, sessions, tabs};
use zjctl::error::{ErrorCode, ZjctlError};
use zjctl::identity::{resolve_pane, resolve_pane_among, resolve_tab, resolve_tab_among};
use zjctl::models::{ZellijPaneInfo, ZellijTabInfo};
use zjctl::output::{Emission, OutputFormat};
use zjctl::zellij::{Client, ZellijRunner};

// === A stand-in for zellij, answering from registered fixtures ===

struct MockZellij {
    fixtures: HashMap<String, MockResponse>,
    made: RefCell<Vec<String>>,
}

struct MockResponse {
    output: String,
    exit_code: i32,
}

impl MockZellij {
    fn new() -> Self {
        Self {
            fixtures: HashMap::new(),
            made: RefCell::new(Vec::new()),
        }
    }

    fn mock_command(&mut self, key: &str, output: &str) {
        self.fixtures.insert(
            key.to_string(),
            MockResponse {
                output: output.to_string(),
                exit_code: 0,
            },
        );
    }

    fn mock_command_fail(&mut self, key: &str, output: &str, exit_code: i32) {
        self.fixtures.insert(
            key.to_string(),
            MockResponse {
                output: output.to_string(),
                exit_code,
            },
        );
    }

    /// The calls made so far, each as its arguments joined by spaces.
    fn calls(&self) -> Vec<String> {
        self.made.borrow().clone()
    }

    fn lookup(&self, args: &[&str]) -> Result<String, ZjctlError> {
        let full_key = args.join(" ");
        self.made.borrow_mut().push(full_key.clone());
        if let Some(resp) = self.fixtures.get(&full_key) {
            return if resp.exit_code == 0 {
                Ok(resp.output.clone())
            } else {
                Err(ZjctlError::zellij_error(&resp.output, &full_key))
            };
        }
        for arg in args {
            if let Some(resp) = self.fixtures.get(*arg) {
                return if resp.exit_code == 0 {
                    Ok(resp.output.clone())
                } else {
                    Err(ZjctlError::zellij_error(
                        &resp.output,
                        &format!("zellij {}", full_key),
                    ))
                };
            }
        }
        panic!(
            "MockZellij: unhandled command: {}. Available keys: {:?}",
            full_key,
            self.fixtures.keys().collect::<Vec<_>>()
        );
    }
}

fn field<'a>(obj: &'a Value, key: &str) -> Result<&'a Value, String> {
    obj.get(key).ok_or_else(|| format!("missing field `{}`", key))
}

fn u32_field(obj: &Value, key: &str) -> Result<u32, String> {
    field(obj, key)?
        .as_u64()
        .map(|n| n as u32)
        .ok_or_else(|| format!("invalid type for `{}`", key))
}

fn bool_field(obj: &Value, key: &str) -> Result<bool, String> {
    field(obj, key)?
        .as_bool()
        .ok_or_else(|| format!("invalid type for `{}`", key))
}

fn string_field(obj: &Value, key: &str) -> Result<String, String> {
    field(obj, key)?
        .as_str()
        .map(|s| s.to_string())
        .ok_or_else(|| format!("invalid type for `{}`", key))
}

fn optional_string(obj: &Value, keys: &[&str]) -> Option<String> {
    keys.iter()
        .filter_map(|k| obj.get(*k))
        .find_map(|v| v.as_str().map(|s| s.to_string()))
}

fn pane_from_value(obj: &Value) -> Result<ZellijPaneInfo, String> {
    Ok(ZellijPaneInfo {
        id: u32_field(obj, "id")?,
        is_plugin: bool_field(obj, "is_plugin")?,
        is_selectable: bool_field(obj, "is_selectable")?,
        title: string_field(obj, "title")?,
        pane_command: optional_string(obj, &["pane_command", "terminal_command"]),
        pane_cwd: optional_string(obj, &["pane_cwd"]),
        is_focused: bool_field(obj, "is_focused")?,
        is_floating: bool_field(obj, "is_floating")?,
        is_suppressed: obj
            .get("is_suppressed")
            .and_then(|v| v.as_bool())
            .unwrap_or(false),
        tab_id: u32_field(obj, "tab_id")?,
        tab_position: u32_field(obj, "tab_position")?,
        tab_name: string_field(obj, "tab_name")?,
    })
}

impl ZellijRunner for MockZellij {
    fn run_action(&self, args: &[&str]) -> Result<String, ZjctlError> {
        self.lookup(args)
    }

    fn run_toplevel(&self, args: &[&str]) -> Result<String, ZjctlError> {
        self.lookup(args)
    }

    fn decode_panes(raw: &str) -> Result<Vec<ZellijPaneInfo>, String> {
        let value: Value = serde_json::from_str(raw).map_err(|e| e.to_string())?;
        let items = value
            .as_array()
            .ok_or_else(|| "expected an array".to_string())?;
        items.iter().map(pane_from_value).collect()
    }

    fn decode_tab_info(raw: &str) -> Result<ZellijTabInfo, String> {
        let v: Value = serde_json::from_str(raw).map_err(|e| e.to_string())?;
        Ok(ZellijTabInfo {
            position: u32_field(&v, "position")?,
            name: string_field(&v, "name")?,
            active: bool_field(&v, "active")?,
            tab_id: u32_field(&v, "tab_id")?,
        })
    }
}

// === Shared fixtures ===

const MOCK_PANES_JSON: &str = r#"[
  {"id":0,"is_plugin":false,"is_focused":false,"is_floating":false,"is_suppressed":false,"title":"openclaw","is_selectable":true,"tab_id":0,"tab_position":0,"tab_name":"main","pane_command":"openclaw","pane_cwd":"/home/user"},
  {"id":7,"is_plugin":false,"is_focused":true,"is_floating":false,"is_suppressed":false,"title":"","is_selectable":true,"tab_id":0,"tab_position":0,"tab_name":"main","pane_command":"/bin/zsh","pane_cwd":"/home/user/project"},
  {"id":1,"is_plugin":true,"is_focused":false,"is_floating":false,"is_suppressed":false,"title":"zjstatus","is_selectable":false,"tab_id":0,"tab_position":0,"tab_name":"main"},
  {"id":2,"is_plugin":false,"is_focused":true,"is_floating":false,"is_suppressed":false,"title":"editor","is_selectable":true,"tab_id":1,"tab_position":1,"tab_name":"code","pane_command":"nvim","pane_cwd":"/home/user/code"}
]"#;

const MOCK_TAB_NAMES: &str = "main\ncode";

const MOCK_TAB_INFO_JSON: &str = r#"{
  "position": 0,
  "name": "main",
  "active": true,
  "tab_id": 0
}"#;

fn error_json(err: &ZjctlError) -> Value {
    serde_json::from_str(&err.to_json()).unwrap()
}

fn pane(id: u32, is_plugin: bool, title: &str, tab_id: u32, tab_position: u32) -> ZellijPaneInfo {
    ZellijPaneInfo {
        id,
        is_plugin,
        is_selectable: !is_plugin,
        title: title.to_string(),
        pane_command: None,
        pane_cwd: None,
        is_focused: false,
        is_floating: false,
        is_suppressed: false,
        tab_id,
        tab_position,
        tab_name: format!("tab{}", tab_id),
    }
}

// === Identity ===

#[test]
fn resolve_tab_passes_through_numeric_index() {
    let mock = MockZellij::new();
    let result = resolve_tab("2", &mut Client::new(&mock)).unwrap();
    assert_eq!(result, 2);
}

#[test]
fn resolve_tab_resolves_name() {
    let mut mock = MockZellij::new();
    mock.mock_command("query-tab-names", "openclaw\nclaude-remote\nopencode");
    let result = resolve_tab("opencode", &mut Client::new(&mock)).unwrap();
    assert_eq!(result, 2);
}

#[test]
fn resolve_tab_resolves_first_tab_by_name() {
    let mut mock = MockZellij::new();
    mock.mock_command("query-tab-names", "openclaw\nclaude-remote\nopencode");
    let result = resolve_tab("openclaw", &mut Client::new(&mock)).unwrap();
    assert_eq!(result, 0);
}

#[test]
fn resolve_tab_errors_on_unknown_name() {
    let mut mock = MockZellij::new();
    mock.mock_command("query-tab-names", "openclaw\nclaude-remote\nopencode");
    let result = resolve_tab("nonexistent", &mut Client::new(&mock));
    let err = result.unwrap_err();
    assert_eq!(err.exit_code, 1);
    let json = error_json(&err);
    assert_eq!(json["error"], "invalid_target");
}

#[test]
fn resolve_pane_passes_through_terminal_n() {
    let mock = MockZellij::new();
    let result = resolve_pane("terminal_8", &mut Client::new(&mock)).unwrap();
    assert_eq!(result, "terminal_8");
}

#[test]
fn resolve_pane_passes_through_plugin_n() {
    let mock = MockZellij::new();
    let result = resolve_pane("plugin_2", &mut Client::new(&mock)).unwrap();
    assert_eq!(result, "plugin_2");
}

#[test]
fn resolve_pane_converts_bare_integer() {
    let mock = MockZellij::new();
    let result = resolve_pane("8", &mut Client::new(&mock)).unwrap();
    assert_eq!(result, "terminal_8");
}

#[test]
fn resolve_pane_resolves_by_title() {
    let mut mock = MockZellij::new();
    mock.mock_command(
        "list-panes --json --all",
        r#"[
            {"id": 0, "is_plugin": false, "title": "openclaw", "tab_id": 0, "is_selectable": true, "is_focused": false, "is_floating": false, "is_suppressed": false, "tab_position": 0, "tab_name": "main"},
            {"id": 7, "is_plugin": false, "title": "my-shell", "tab_id": 0, "is_selectable": true, "is_focused": false, "is_floating": false, "is_suppressed": false, "tab_position": 0, "tab_name": "main"},
            {"id": 2, "is_plugin": true, "title": "zjstatus", "tab_id": 0, "is_selectable": false, "is_focused": false, "is_floating": false, "is_suppressed": false, "tab_position": 0, "tab_name": "main"}
        ]"#,
    );
    let result = resolve_pane("my-shell", &mut Client::new(&mock)).unwrap();
    assert_eq!(result, "terminal_7");
}

#[test]
fn resolve_pane_errors_on_unknown_name() {
    let mut mock = MockZellij::new();
    mock.mock_command(
        "list-panes --json --all",
        r#"[
            {"id": 0, "is_plugin": false, "title": "openclaw", "tab_id": 0, "is_selectable": true, "is_focused": false, "is_floating": false, "is_suppressed": false, "tab_position": 0, "tab_name": "main"}
        ]"#,
    );
    let result = resolve_pane("nonexistent", &mut Client::new(&mock));
    let err = result.unwrap_err();
    let json = error_json(&err);
    assert_eq!(json["error"], "invalid_target");
}

#[test]
fn resolve_pane_writes_bare_numbers_in_canonical_decimal() {
    let mock = MockZellij::new();
    assert_eq!(resolve_pane("007", &mut Client::new(&mock)).unwrap(), "terminal_7");
    assert_eq!(resolve_pane("08", &mut Client::new(&mock)).unwrap(), "terminal_8");
    assert_eq!(resolve_pane("+5", &mut Client::new(&mock)).unwrap(), "terminal_5");
}

#[test]
fn resolve_pane_result_resolves_to_itself() {
    let mut mock = MockZellij::new();
    mock.mock_command("list-panes --json --all", MOCK_PANES_JSON);
    let first = resolve_pane("editor", &mut Client::new(&mock)).unwrap();
    assert_eq!(first, "terminal_2");
    let empty = MockZellij::new();
    assert_eq!(resolve_pane(&first, &mut Client::new(&empty)).unwrap(), first);
}

#[test]
fn resolve_pane_among_refuses_ambiguous_title() {
    let panes = vec![pane(3, false, "shell", 0, 0), pane(4, false, "shell", 1, 1)];
    let err = resolve_pane_among("shell", &panes).unwrap_err();
    assert_eq!(err.error, ErrorCode::InvalidTarget);
    assert_eq!(err.exit_code, 1);
    assert_eq!(err.message, "Ambiguous pane name: shell (matches multiple panes)");
}

#[test]
fn resolve_pane_among_ignores_plugins() {
    let panes = vec![pane(3, true, "status", 0, 0), pane(9, false, "status", 0, 0)];
    assert_eq!(resolve_pane_among("status", &panes).unwrap(), "terminal_9");
    let only_plugin = vec![pane(3, true, "bar", 0, 0)];
    let err = resolve_pane_among("bar", &only_plugin).unwrap_err();
    assert_eq!(err.message, "Pane not found: bar");
}

#[test]
fn resolve_pane_reports_undecodable_listing() {
    let mut mock = MockZellij::new();
    mock.mock_command("list-panes --json --all", "not json");
    let err = resolve_pane("some-title", &mut Client::new(&mock)).unwrap_err();
    assert_eq!(err.error, ErrorCode::ParseError);
    assert_eq!(err.exit_code, 5);
    assert!(err.message.starts_with("Failed to parse panes JSON: "));
}

#[test]
fn resolve_tab_among_handles_crlf_and_trailing_newline() {
    assert_eq!(resolve_tab_among("b", "a\r\nb\r\n").unwrap(), 1);
    let err = resolve_tab_among("c", "a\nb\n").unwrap_err();
    assert_eq!(err.message, "Tab not found: c");
    assert_eq!(resolve_tab_among("", "a\n\nb").unwrap(), 1);
}

#[test]
fn resolve_tab_propagates_zellij_failure() {
    let mut mock = MockZellij::new();
    mock.mock_command_fail("query-tab-names", "no session", 1);
    let err = resolve_tab("main", &mut Client::new(&mock)).unwrap_err();
    assert_eq!(err.error, ErrorCode::ZellijError);
    assert_eq!(err.exit_code, 2);
}

// === Panes ===

#[test]
fn panes_list_returns_selectable_only() {
    let mut mock = MockZellij::new();
    mock.mock_command("list-panes --json --all", MOCK_PANES_JSON);

    let result = panes::list(None, &mut Client::new(&mock)).unwrap();
    assert_eq!(result.panes.len(), 3);
}

#[test]
fn panes_list_ids_are_qualified() {
    let mut mock = MockZellij::new();
    mock.mock_command("list-panes --json --all", MOCK_PANES_JSON);

    let result = panes::list(None, &mut Client::new(&mock)).unwrap();
    assert_eq!(result.panes[0].id, "terminal_0");
}

#[test]
fn panes_list_includes_command_and_cwd() {
    let mut mock = MockZellij::new();
    mock.mock_command("list-panes --json --all", MOCK_PANES_JSON);

    let result = panes::list(None, &mut Client::new(&mock)).unwrap();
    assert_eq!(result.panes[0].command.as_deref(), Some("openclaw"));
    assert_eq!(result.panes[0].cwd.as_deref(), Some("/home/user"));
}

#[test]
fn panes_list_filters_by_tab_index() {
    let mut mock = MockZellij::new();
    mock.mock_command("list-panes --json --all", MOCK_PANES_JSON);
    mock.mock_command("query-tab-names", MOCK_TAB_NAMES);

    let result = panes::list(Some("1"), &mut Client::new(&mock)).unwrap();
    assert_eq!(result.panes.len(), 1);
    assert_eq!(result.panes[0].tab_name, "code");
}

#[test]
fn panes_list_filters_by_tab_name() {
    let mut mock = MockZellij::new();
    mock.mock_command("list-panes --json --all", MOCK_PANES_JSON);
    mock.mock_command("query-tab-names", MOCK_TAB_NAMES);

    let result = panes::list(Some("code"), &mut Client::new(&mock)).unwrap();
    assert_eq!(result.panes.len(), 1);
}

#[test]
fn panes_list_reports_empty_title_as_absent_and_plugins_as_plugin_ids() {
    let mut raw = vec![pane(7, false, "", 0, 0), pane(3, true, "bar", 0, 0)];
    raw[1].is_selectable = true;
    let out = panes::panes_from(&raw, None);
    assert_eq!(out.panes.len(), 2);
    assert_eq!(out.panes[0].title, None);
    assert_eq!(out.panes[1].id, "plugin_3");
    assert_eq!(out.panes[1].title.as_deref(), Some("bar"));
}

#[test]
fn panes_read_returns_content() {
    let mut mock = MockZellij::new();
    mock.mock_command("list-panes --json --all", MOCK_PANES_JSON);
    mock.mock_command(
        "dump-screen",
        "$ git status\nOn branch main\nnothing to commit",
    );

    let result = panes::read("terminal_7", false, false, &mut Client::new(&mock)).unwrap();
    assert_eq!(result.pane_id, "terminal_7");
    assert!(result.content.contains("git status"));
}

#[test]
fn panes_read_accepts_bare_integer() {
    let mut mock = MockZellij::new();
    mock.mock_command("list-panes --json --all", MOCK_PANES_JSON);
    mock.mock_command("dump-screen", "content");

    let result = panes::read("7", false, false, &mut Client::new(&mock)).unwrap();
    assert_eq!(result.pane_id, "terminal_7");
}

#[test]
fn panes_read_passes_flags_to_dump_screen() {
    let mut mock = MockZellij::new();
    mock.mock_command("list-panes --json --all", MOCK_PANES_JSON);
    mock.mock_command("dump-screen --pane-id terminal_7 --full --ansi", "everything");
    let result = panes::read("7", true, true, &mut Client::new(&mock)).unwrap();
    assert_eq!(result.content, "everything");
}

#[test]
fn panes_write_succeeds() {
    let mut mock = MockZellij::new();
    mock.mock_command("list-panes --json --all", MOCK_PANES_JSON);
    mock.mock_command("write-chars", "");

    let result = panes::write("terminal_0", "hello", &mut Client::new(&mock), false, false, None);
    assert!(result.is_ok());
}

#[test]
fn panes_write_reports_the_write_chars_arguments() {
    let mut mock = MockZellij::new();
    mock.mock_command("write-chars --pane-id terminal_4 ls -la", "");
    let args = panes::write("4", "ls -la", &mut Client::new(&mock), false, false, None).unwrap();
    assert_eq!(args, vec!["write-chars", "--pane-id", "terminal_4", "ls -la"]);
}

#[test]
fn panes_send_keys_succeeds() {
    let mut mock = MockZellij::new();
    mock.mock_command("list-panes --json --all", MOCK_PANES_JSON);
    mock.mock_command("send-keys", "");

    let result = panes::send_keys("terminal_0", &["Enter".to_string()], &mut Client::new(&mock), false, false, None);
    assert!(result.is_ok());
}

#[test]
fn panes_focus_succeeds() {
    let mut mock = MockZellij::new();
    mock.mock_command("list-panes --json --all", MOCK_PANES_JSON);
    mock.mock_command("focus-pane-id", "");

    let result = panes::focus("terminal_0", &mut Client::new(&mock), false);
    assert!(result.is_ok());
}

#[test]
fn panes_open_returns_pane_id() {
    let mut mock = MockZellij::new();
    mock.mock_command("new-pane", "terminal_12");

    let result = panes::open_pane(
        &OpenPaneOptions {
            direction: None,
            floating: false,
            name: None,
            cwd: None,
            tab_id: None,
            command: vec![],
            dry_run: false,
        },
        &mut Client::new(&mock),
    )
    .unwrap();
    assert_eq!(result, "terminal_12");
}

#[test]
fn panes_open_trims_printed_id_and_builds_arguments() {
    let mut mock = MockZellij::new();
    mock.mock_command(
        "new-pane --direction down --floating --name n --cwd /tmp --tab-id 3 -- htop -d 5",
        "  terminal_5\n",
    );
    let result = panes::open_pane(
        &OpenPaneOptions {
            direction: Some("down".to_string()),
            floating: true,
            name: Some("n".to_string()),
            cwd: Some("/tmp".to_string()),
            tab_id: Some(3),
            command: vec!["htop".to_string(), "-d".to_string(), "5".to_string()],
            dry_run: false,
        },
        &mut Client::new(&mock),
    )
    .unwrap();
    assert_eq!(result, "terminal_5");
}

#[test]
fn panes_write_dry_run_does_not_execute() {
    let mut mock = MockZellij::new();
    mock.mock_command("list-panes --json --all", MOCK_PANES_JSON);

    let result = panes::write("terminal_0", "hello", &mut Client::new(&mock), true, false, None);
    assert!(result.is_ok());
}

#[test]
fn panes_send_keys_dry_run_does_not_execute() {
    let mut mock = MockZellij::new();
    mock.mock_command("list-panes --json --all", MOCK_PANES_JSON);

    let result = panes::send_keys("terminal_0", &["Enter".to_string()], &mut Client::new(&mock), true, false, None);
    assert!(result.is_ok());
}

#[test]
fn panes_focus_dry_run_does_not_execute() {
    let mut mock = MockZellij::new();
    mock.mock_command("list-panes --json --all", MOCK_PANES_JSON);

    let result = panes::focus("terminal_0", &mut Client::new(&mock), true);
    assert!(result.is_ok());
}

#[test]
fn panes_open_dry_run_does_not_execute() {
    let mock = MockZellij::new();

    let result = panes::open_pane(
        &OpenPaneOptions {
            direction: None,
            floating: true,
            name: Some("test".to_string()),
            cwd: None,
            tab_id: None,
            command: vec![],
            dry_run: true,
        },
        &mut Client::new(&mock),
    );
    assert!(result.is_ok());
    assert_eq!(result.unwrap(), "");
}

#[test]
fn panes_write_dry_run_still_checks_safety_guard() {
    let mut mock = MockZellij::new();
    mock.mock_command("list-panes --json --all", MOCK_PANES_JSON);

    let result = panes::write("terminal_8", "hello", &mut Client::new(&mock), true, false, Some("8"));
    assert!(result.is_err());
    assert_eq!(result.unwrap_err().exit_code, 3);
}

#[test]
fn panes_send_keys_dry_run_still_checks_safety_guard() {
    let mut mock = MockZellij::new();
    mock.mock_command("list-panes --json --all", MOCK_PANES_JSON);

    let result = panes::send_keys("terminal_8", &["Enter".to_string()], &mut Client::new(&mock), true, false, Some("8"));
    assert!(result.is_err());
    assert_eq!(result.unwrap_err().exit_code, 3);
}

#[test]
fn panes_run_dry_run_write_reports_full_command() {
    let mock = MockZellij::new();
    let em = panes::run(
        PanesVerb::Write {
            pane: "7".to_string(),
            text: "rm -rf build/".to_string(),
        },
        &mut Client::new(&mock),
        true,
        false,
        None,
    )
    .unwrap();
    match em {
        Emission::DryRun(cmd) => assert_eq!(
            cmd,
            vec!["zellij", "action", "write-chars", "--pane-id", "terminal_7", "rm -rf build/"]
        ),
        _ => panic!("expected a dry run"),
    }
}

#[test]
fn panes_run_dry_run_read_keeps_pane_as_given() {
    let mock = MockZellij::new();
    let em = panes::run(
        PanesVerb::Read {
            pane: "editor".to_string(),
            full: true,
            ansi: false,
        },
        &mut Client::new(&mock),
        true,
        false,
        None,
    )
    .unwrap();
    match em {
        Emission::DryRun(cmd) => assert_eq!(
            cmd,
            vec!["zellij", "action", "dump-screen", "--pane-id", "editor", "--full"]
        ),
        _ => panic!("expected a dry run"),
    }
}

#[test]
fn panes_run_open_reports_new_pane_id() {
    let mut mock = MockZellij::new();
    mock.mock_command("new-pane", "terminal_12\n");
    let em = panes::run(
        PanesVerb::Open {
            direction: None,
            floating: false,
            name: None,
            cwd: None,
            tab_id: None,
            command: vec![],
        },
        &mut Client::new(&mock),
        false,
        false,
        None,
    )
    .unwrap();
    match em {
        Emission::OpenedPane(id) => assert_eq!(id, "terminal_12"),
        _ => panic!("expected an opened pane"),
    }
}

// === Sessions ===

#[test]
fn sessions_list_returns_json_with_session_names() {
    let mut mock = MockZellij::new();
    mock.mock_command("list-sessions", "didactic-newt\nambrosio\nclauded");

    let result = sessions::list(&mut Client::new(&mock), &OutputFormat::Quiet).unwrap();
    assert_eq!(result.sessions.len(), 3);
    assert_eq!(result.sessions[0].name, "didactic-newt");
    assert_eq!(result.sessions[1].name, "ambrosio");
    assert_eq!(result.sessions[2].name, "clauded");
}

#[test]
fn sessions_from_skips_empty_lines() {
    let out = sessions::sessions_from("a\n\nb\r\n\n");
    let names: Vec<&str> = out.sessions.iter().map(|s| s.name.as_str()).collect();
    assert_eq!(names, vec!["a", "b"]);
    assert!(sessions::sessions_from("").sessions.is_empty());
}

// === Tabs ===

#[test]
fn tabs_list_returns_both_tabs() {
    let mut mock = MockZellij::new();
    mock.mock_command("list-panes --json --all", MOCK_PANES_JSON);
    mock.mock_command("current-tab-info --json", MOCK_TAB_INFO_JSON);

    let result = tabs::list(&mut Client::new(&mock)).unwrap();
    assert_eq!(result.tabs.len(), 2);
}

#[test]
fn tabs_list_marks_active_tab() {
    let mut mock = MockZellij::new();
    mock.mock_command("list-panes --json --all", MOCK_PANES_JSON);
    mock.mock_command("current-tab-info --json", MOCK_TAB_INFO_JSON);

    let result = tabs::list(&mut Client::new(&mock)).unwrap();
    let active: Vec<_> = result.tabs.iter().filter(|t| t.active).collect();
    assert_eq!(active.len(), 1);
    assert_eq!(active[0].name, "main");
}

#[test]
fn tabs_list_includes_tab_id() {
    let mut mock = MockZellij::new();
    mock.mock_command("list-panes --json --all", MOCK_PANES_JSON);
    mock.mock_command("current-tab-info --json", MOCK_TAB_INFO_JSON);

    let result = tabs::list(&mut Client::new(&mock)).unwrap();
    assert_eq!(result.tabs[1].tab_id, 1);
}

#[test]
fn tabs_from_orders_by_position_then_id_and_uses_first_pane() {
    let mut a = pane(1, false, "", 9, 2);
    a.tab_name = "first-name".to_string();
    let mut b = pane(2, false, "", 9, 5);
    b.tab_name = "later-name".to_string();
    let c = pane(3, false, "", 4, 2);
    let d = pane(4, false, "", 6, 0);
    let out = tabs::tabs_from(&vec![a, b, c, d], 4);
    let ids: Vec<u32> = out.tabs.iter().map(|t| t.tab_id).collect();
    assert_eq!(ids, vec![6, 4, 9]);
    assert_eq!(out.tabs[2].name, "first-name");
    assert_eq!(out.tabs[2].index, 2);
    let active: Vec<u32> = out.tabs.iter().filter(|t| t.active).map(|t| t.tab_id).collect();
    assert_eq!(active, vec![4]);
}

#[test]
fn tabs_from_marks_none_active_when_focused_tab_has_no_pane() {
    let out = tabs::tabs_from(&vec![pane(1, false, "", 0, 0)], 5);
    assert!(out.tabs.iter().all(|t| !t.active));
    assert!(tabs::tabs_from(&vec![], 0).tabs.is_empty());
}

#[test]
fn tabs_focus_accepts_numeric_index() {
    let mut mock = MockZellij::new();
    mock.mock_command("query-tab-names", MOCK_TAB_NAMES);
    mock.mock_command("go-to-tab", "");

    let result = tabs::focus("0", &mut Client::new(&mock), false);
    assert!(result.is_ok());
}

#[test]
fn tabs_focus_accepts_name() {
    let mut mock = MockZellij::new();
    mock.mock_command("query-tab-names", MOCK_TAB_NAMES);
    mock.mock_command("go-to-tab", "");

    let result = tabs::focus("code", &mut Client::new(&mock), false);
    assert!(result.is_ok());
}

#[test]
fn tabs_focus_counts_from_one() {
    let mut mock = MockZellij::new();
    mock.mock_command("query-tab-names", MOCK_TAB_NAMES);
    let args = tabs::focus("code", &mut Client::new(&mock), true).unwrap();
    assert_eq!(args, vec!["go-to-tab", "2"]);
}

#[test]
fn tabs_open_reports_largest_tab_id() {
    let mut mock = MockZellij::new();
    mock.mock_command("new-tab --name work -- bash", "");
    mock.mock_command("list-panes --json --all", MOCK_PANES_JSON);
    let opened = tabs::open(
        Some("work".to_string()),
        None,
        vec!["bash".to_string()],
        &mut Client::new(&mock),
        false,
    )
    .unwrap();
    assert_eq!(opened, Some(1));
}

#[test]
fn tabs_open_dry_run_reports_command() {
    let mock = MockZellij::new();
    let em = tabs::run(
        TabsVerb::Open {
            name: Some("t".to_string()),
            layout: Some("compact".to_string()),
            command: vec![],
        },
        &mut Client::new(&mock),
        true,
    )
    .unwrap();
    match em {
        Emission::DryRun(cmd) => assert_eq!(
            cmd,
            vec!["zellij", "action", "new-tab", "--name", "t", "--layout", "compact"]
        ),
        _ => panic!("expected a dry run"),
    }
}

#[test]
fn tabs_max_tab_id_of_no_panes_is_zero() {
    assert_eq!(tabs::max_tab_id(&vec![]), 0);
    assert_eq!(tabs::max_tab_id(&vec![pane(1, false, "", 3, 0), pane(2, false, "", 8, 1)]), 8);
}

// === Routing ===

#[test]
fn dispatch_requires_session_for_tabs_and_panes() {
    let mock = MockZellij::new();
    let err = dispatch(
        Resource::Tabs { verb: TabsVerb::List },
        &None,
        &mut Client::new(&mock),
        false,
        false,
        None,
    )
    .unwrap_err();
    assert_eq!(err.exit_code, 4);
    assert_eq!(error_json(&err)["error"], "not_in_session");
    let err = dispatch(
        Resource::Panes {
            verb: PanesVerb::List { tab: None },
        },
        &None,
        &mut Client::new(&mock),
        false,
        false,
        None,
    )
    .unwrap_err();
    assert_eq!(err.exit_code, 4);
}

#[test]
fn dispatch_lists_sessions_without_a_session() {
    let mut mock = MockZellij::new();
    mock.mock_command("list-sessions", "one\n");
    let em = dispatch(
        Resource::Sessions {
            verb: SessionsVerb::List,
        },
        &None,
        &mut Client::new(&mock),
        false,
        false,
        None,
    )
    .unwrap();
    match em {
        Emission::Sessions(out) => assert_eq!(out.sessions.len(), 1),
        _ => panic!("expected sessions"),
    }
}

// === Outcomes checked against the listing and the calls made ===

#[test]
fn panes_read_of_closed_pane_is_invalid_target() {
    let mut mock = MockZellij::new();
    mock.mock_command("list-panes --json --all", MOCK_PANES_JSON);
    let err = panes::read("terminal_99", false, false, &mut Client::new(&mock)).unwrap_err();
    assert_eq!(err.error, ErrorCode::InvalidTarget);
    assert_eq!(err.exit_code, 1);
    assert_eq!(err.message, "Pane not found: terminal_99");
}

#[test]
fn panes_read_of_closed_bare_number_names_the_canonical_id() {
    let mut mock = MockZellij::new();
    mock.mock_command("list-panes --json --all", MOCK_PANES_JSON);
    let err = panes::read("099", false, false, &mut Client::new(&mock)).unwrap_err();
    assert_eq!(err.message, "Pane not found: terminal_99");
}

#[test]
fn panes_read_finds_a_title_then_dumps_that_pane() {
    let mut mock = MockZellij::new();
    mock.mock_command("list-panes --json --all", MOCK_PANES_JSON);
    mock.mock_command("dump-screen --pane-id terminal_2", "vim buffer");
    let result = panes::read("editor", false, false, &mut Client::new(&mock)).unwrap();
    assert_eq!(result.pane_id, "terminal_2");
    assert_eq!(result.content, "vim buffer");
}

#[test]
fn panes_read_passes_on_listing_failure() {
    let mut mock = MockZellij::new();
    mock.mock_command_fail("list-panes --json --all", "no session", 1);
    let err = panes::read("terminal_7", false, false, &mut Client::new(&mock)).unwrap_err();
    assert_eq!(err.error, ErrorCode::ZellijError);
    assert_eq!(err.message, "no session");
}

#[test]
fn panes_read_reports_undecodable_listing() {
    let mut mock = MockZellij::new();
    mock.mock_command("list-panes --json --all", "[oops");
    let err = panes::read("terminal_7", false, false, &mut Client::new(&mock)).unwrap_err();
    assert_eq!(err.error, ErrorCode::ParseError);
    assert_eq!(err.exit_code, 5);
    assert!(err.message.starts_with("Failed to parse panes JSON: "));
}

#[test]
fn panes_write_refuses_own_pane_given_with_leading_zeros() {
    let mock = MockZellij::new();
    let err = panes::write("08", "x", &mut Client::new(&mock), false, false, Some("8")).unwrap_err();
    assert_eq!(err.error, ErrorCode::SelfWriteBlocked);
    assert_eq!(err.exit_code, 3);
    assert_eq!(err.target.as_deref(), Some("terminal_8"));
    assert_eq!(err.self_pane.as_deref(), Some("terminal_8"));
}

#[test]
fn panes_write_passes_on_write_failure() {
    let mut mock = MockZellij::new();
    mock.mock_command_fail("write-chars", "pane gone", 1);
    let err = panes::write("terminal_3", "hi", &mut Client::new(&mock), false, false, None).unwrap_err();
    assert_eq!(err.error, ErrorCode::ZellijError);
    assert_eq!(err.message, "pane gone");
}

#[test]
fn panes_write_to_title_uses_resolved_pane() {
    let mut mock = MockZellij::new();
    mock.mock_command("list-panes --json --all", MOCK_PANES_JSON);
    mock.mock_command("write-chars --pane-id terminal_2 :w", "");
    let args = panes::write("editor", ":w", &mut Client::new(&mock), false, false, Some("7")).unwrap();
    assert_eq!(args, vec!["write-chars", "--pane-id", "terminal_2", ":w"]);
}

#[test]
fn panes_focus_passes_on_focus_failure() {
    let mut mock = MockZellij::new();
    mock.mock_command_fail("focus-pane-id", "denied", 1);
    let err = panes::focus("plugin_1", &mut Client::new(&mock), false).unwrap_err();
    assert_eq!(err.message, "denied");
}

#[test]
fn panes_open_passes_on_new_pane_failure() {
    let mut mock = MockZellij::new();
    mock.mock_command_fail("new-pane", "cannot split", 1);
    let err = panes::open_pane(
        &OpenPaneOptions {
            direction: None,
            floating: false,
            name: None,
            cwd: None,
            tab_id: None,
            command: vec![],
            dry_run: false,
        },
        &mut Client::new(&mock),
    )
    .unwrap_err();
    assert_eq!(err.error, ErrorCode::ZellijError);
    assert_eq!(err.message, "cannot split");
}

#[test]
fn panes_run_read_emits_content() {
    let mut mock = MockZellij::new();
    mock.mock_command("list-panes --json --all", MOCK_PANES_JSON);
    mock.mock_command("dump-screen --pane-id terminal_0", "prompt");
    let em = panes::run(
        PanesVerb::Read { pane: "0".to_string(), full: false, ansi: false },
        &mut Client::new(&mock),
        false,
        false,
        None,
    )
    .unwrap();
    match em {
        Emission::Content(c) => {
            assert_eq!(c.pane_id, "terminal_0");
            assert_eq!(c.content, "prompt");
        },
        _ => panic!("expected content"),
    }
}

#[test]
fn tabs_focus_passes_on_go_to_tab_failure() {
    let mut mock = MockZellij::new();
    mock.mock_command_fail("go-to-tab", "no such tab", 1);
    let err = tabs::focus("4", &mut Client::new(&mock), false).unwrap_err();
    assert_eq!(err.message, "no such tab");
}

#[test]
fn tabs_open_reports_undecodable_relisting() {
    let mut mock = MockZellij::new();
    mock.mock_command("new-tab", "");
    mock.mock_command("list-panes --json --all", "{}");
    let err = tabs::open(None, None, vec![], &mut Client::new(&mock), false).unwrap_err();
    assert_eq!(err.error, ErrorCode::ParseError);
    assert!(err.message.starts_with("Failed to parse panes: "));
}

#[test]
fn tabs_run_list_emits_tabs() {
    let mut mock = MockZellij::new();
    mock.mock_command("list-panes --json --all", MOCK_PANES_JSON);
    mock.mock_command("current-tab-info --json", MOCK_TAB_INFO_JSON);
    match tabs::run(TabsVerb::List, &mut Client::new(&mock), false).unwrap() {
        Emission::Tabs(out) => assert_eq!(out.tabs.len(), 2),
        _ => panic!("expected tabs"),
    }
}

// === Which calls reach zellij ===

#[test]
fn dry_runs_call_nothing() {
    let mock = MockZellij::new();
    panes::write("terminal_0", "hello", &mut Client::new(&mock), true, false, None).unwrap();
    panes::send_keys("3", &["Enter".to_string()], &mut Client::new(&mock), true, false, None).unwrap();
    panes::focus("plugin_1", &mut Client::new(&mock), true).unwrap();
    tabs::focus("2", &mut Client::new(&mock), true).unwrap();
    tabs::open(None, None, vec![], &mut Client::new(&mock), true).unwrap();
    assert!(mock.calls().is_empty());
}

#[test]
fn blocked_write_calls_nothing() {
    let mock = MockZellij::new();
    let err = panes::write("terminal_8", "hello", &mut Client::new(&mock), false, false, Some("8")).unwrap_err();
    assert_eq!(err.exit_code, 3);
    assert!(mock.calls().is_empty());
}

#[test]
fn write_makes_exactly_the_write_chars_call() {
    let mut mock = MockZellij::new();
    mock.mock_command("write-chars", "");
    panes::write("terminal_0", "hello", &mut Client::new(&mock), false, false, None).unwrap();
    assert_eq!(mock.calls(), vec!["write-chars --pane-id terminal_0 hello"]);
}

#[test]
fn tab_resolution_queries_only_for_names() {
    let mut mock = MockZellij::new();
    mock.mock_command("query-tab-names", MOCK_TAB_NAMES);
    assert_eq!(resolve_tab("1", &mut Client::new(&mock)).unwrap(), 1);
    assert!(mock.calls().is_empty());
    assert_eq!(resolve_tab("code", &mut Client::new(&mock)).unwrap(), 1);
    assert_eq!(mock.calls(), vec!["query-tab-names"]);
}

#[test]
fn read_lists_then_dumps_once() {
    let mut mock = MockZellij::new();
    mock.mock_command("list-panes --json --all", MOCK_PANES_JSON);
    mock.mock_command("dump-screen", "text");
    panes::read("7", false, false, &mut Client::new(&mock)).unwrap();
    assert_eq!(mock.calls(), vec!["list-panes --json --all", "dump-screen --pane-id terminal_7"]);
}

#[test]
fn listing_failure_stops_title_resolution() {
    let mut mock = MockZellij::new();
    mock.mock_command_fail("list-panes --json --all", "down", 1);
    mock.mock_command("write-chars", "");
    assert!(panes::write("editor", "x", &mut Client::new(&mock), false, false, None).is_err());
    assert_eq!(mock.calls(), vec!["list-panes --json --all"]);
}

#[test]
fn dispatch_without_session_calls_nothing() {
    let mock = MockZellij::new();
    let err = dispatch(
        Resource::Panes { verb: PanesVerb::Focus { pane: "terminal_1".to_string() } },
        &None,
        &mut Client::new(&mock),
        false,
        false,
        None,
    )
    .unwrap_err();
    assert_eq!(err.error, ErrorCode::NotInSession);
    assert!(mock.calls().is_empty());
}
