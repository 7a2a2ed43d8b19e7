use zjctl::error::{ErrorCode, ZjctlError};

fn json(err: &ZjctlError) -> serde_json::Value {
    serde_json::from_str(&err.to_json()).unwrap()
}

#[test]
fn unknown_command_has_exit_code_1() {
    let err = ZjctlError::unknown_command("bad command");
    assert_eq!(err.exit_code, 1);
    let json = json(&err);
    assert_eq!(json["error"], "unknown_command");
    assert_eq!(json["message"], "bad command");
    assert_eq!(json["exit_code"], 1);
}

#[test]
fn missing_argument_has_exit_code_1() {
    let err = ZjctlError::missing_argument("need pane id");
    assert_eq!(err.exit_code, 1);
    let json = json(&err);
    assert_eq!(json["message"], "need pane id");
}

#[test]
fn invalid_target_has_exit_code_1() {
    let err = ZjctlError::invalid_target("Pane not found: foo");
    assert_eq!(err.exit_code, 1);
}

#[test]
fn zellij_error_has_exit_code_2_and_command_field() {
    let err = ZjctlError::zellij_error("failed", "zellij action write-chars foo");
    assert_eq!(err.exit_code, 2);
    let json = json(&err);
    assert_eq!(json["error"], "zellij_error");
    assert_eq!(json["command"], "zellij action write-chars foo");
}

#[test]
fn self_write_blocked_has_exit_code_3_with_target_and_self() {
    let err = ZjctlError::self_write_blocked("terminal_8".into(), "terminal_8".into());
    assert_eq!(err.exit_code, 3);
    let json = json(&err);
    assert_eq!(json["error"], "self_write_blocked");
    assert_eq!(json["target"], "terminal_8");
    assert_eq!(json["self"], "terminal_8");
}

#[test]
fn not_in_session_has_exit_code_4() {
    let err = ZjctlError::not_in_session();
    assert_eq!(err.exit_code, 4);
    let json = json(&err);
    assert_eq!(json["error"], "not_in_session");
}

#[test]
fn parse_error_has_exit_code_5() {
    let err = ZjctlError::parse_error("bad json");
    assert_eq!(err.exit_code, 5);
}

#[test]
fn error_json_omits_none_fields() {
    let err = ZjctlError::unknown_command("test");
    let json = json(&err);
    assert!(json.get("command").is_none());
    assert!(json.get("target").is_none());
    assert!(json.get("self").is_none());
}

#[test]
fn error_json_is_exact_text() {
    let err = ZjctlError::parse_error("x");
    assert_eq!(
        err.to_json(),
        r#"{"error":"parse_error","message":"x","exit_code":5}"#
    );
    let blocked = ZjctlError::self_write_blocked("terminal_8".into(), "terminal_8".into());
    assert_eq!(
        blocked.to_json(),
        r#"{"error":"self_write_blocked","message":"Refusing to write to own pane (terminal_8). Use --no-guard to override.","exit_code":3,"target":"terminal_8","self":"terminal_8"}"#
    );
}

#[test]
fn error_json_escapes_message() {
    let err = ZjctlError::zellij_error("bad \"quote\"\n\tand \\ and \u{1}", "zellij x");
    let text = err.to_json();
    assert!(text.contains(r#""message":"bad \"quote\"\n\tand \\ and \u0001""#));
    let json = json(&err);
    assert_eq!(json["message"], "bad \"quote\"\n\tand \\ and \u{1}");
}

#[test]
fn error_json_writes_negative_exit_code() {
    let mut err = ZjctlError::unknown_command("m");
    err.exit_code = -12;
    assert!(err.to_json().contains(r#""exit_code":-12"#));
}

#[test]
fn new_derives_exit_code_from_kind() {
    let cases = [
        (ErrorCode::UnknownCommand, 1),
        (ErrorCode::MissingArgument, 1),
        (ErrorCode::InvalidTarget, 1),
        (ErrorCode::ZellijError, 2),
        (ErrorCode::SelfWriteBlocked, 3),
        (ErrorCode::NotInSession, 4),
        (ErrorCode::ParseError, 5),
    ];
    for (code, exit) in cases {
        let err = ZjctlError::new(code, "m");
        assert_eq!(err.exit_code, exit);
        assert_eq!(err.error, code);
        assert!(err.command.is_none() && err.target.is_none() && err.self_pane.is_none());
    }
}

#[test]
fn not_in_session_message_names_the_remedies() {
    assert_eq!(
        ZjctlError::not_in_session().message,
        "Not in a zellij session. Set ZELLIJ_SESSION_NAME or use --session."
    );
}
