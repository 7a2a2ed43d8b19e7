use zjctl::text::{
    i32_to_string, join_words, parse_u32_str, split_lines, starts_with, trim_str, u32_to_string,
};
use zjctl::zellij::{format_args_for_error, RealZellij};
use zjctl::commands::{require_session, resolve_session};
use zjctl::output::{effective_format, OutputFormat};

#[test]
fn formats_args_for_error_messages() {
    let args = vec![
        "action".to_string(),
        "dump-screen".to_string(),
        "--pane-id".to_string(),
        "terminal_2".to_string(),
    ];
    assert_eq!(
        format_args_for_error(&args),
        "action dump-screen --pane-id terminal_2"
    );
}

#[test]
fn parse_u32_follows_std() {
    for s in ["0", "7", "+7", "007", "4294967295", "4294967296", "", "+", "-1", " 1", "1a", "\u{663}"] {
        assert_eq!(parse_u32_str(s), s.parse::<u32>().ok(), "input {:?}", s);
    }
}

#[test]
fn decimal_round_trips() {
    for n in [0u32, 9, 10, 99, 100, 4294967295] {
        assert_eq!(u32_to_string(n), n.to_string());
        assert_eq!(parse_u32_str(&u32_to_string(n)), Some(n));
    }
    assert_eq!(i32_to_string(i32::MIN), i32::MIN.to_string());
    assert_eq!(i32_to_string(-5), "-5");
}

#[test]
fn split_lines_follows_std() {
    for s in ["", "a", "a\n", "a\n\nb", "a\r\nb\r\n", "a\r", "\n", "\r\n\r\n", "x\ry\n"] {
        let expected: Vec<String> = s.lines().map(|l| l.to_string()).collect();
        assert_eq!(split_lines(s), expected, "input {:?}", s);
    }
}

#[test]
fn trim_follows_std() {
    for s in ["", "  a b  ", "\n\tx\r\n", "\u{3000}y\u{85}", "   ", "z"] {
        assert_eq!(trim_str(s), s.trim(), "input {:?}", s);
    }
}

#[test]
fn join_and_prefix() {
    assert_eq!(join_words(&vec![]), "");
    assert_eq!(join_words(&vec!["a".to_string(), "b c".to_string()]), "a b c");
    assert!(starts_with("terminal_3", "terminal_"));
    assert!(!starts_with("term", "terminal_"));
    assert!(starts_with("", ""));
}

#[test]
fn real_zellij_binds_session() {
    let with = RealZellij {
        session: Some("dev".to_string()),
    };
    assert_eq!(with.action_args(&["list-panes"]), vec!["-s", "dev", "action", "list-panes"]);
    assert_eq!(with.toplevel_args(&["list-sessions", "-n"]), vec!["-s", "dev", "list-sessions", "-n"]);
    let without = RealZellij { session: None };
    assert_eq!(without.action_args(&["x"]), vec!["action", "x"]);
    let err = RealZellij::failure("boom", &without.action_args(&["go-to-tab", "2"]));
    assert_eq!(err.exit_code, 2);
    assert_eq!(err.command.as_deref(), Some("zellij action go-to-tab 2"));
}

#[test]
fn session_flag_overrides_environment() {
    assert_eq!(
        resolve_session(Some("a".to_string()), Some("b".to_string())),
        Some("a".to_string())
    );
    assert_eq!(resolve_session(None, Some("b".to_string())), Some("b".to_string()));
    assert_eq!(resolve_session(None, None), None);
    assert!(require_session(&None).is_err());
    assert!(require_session(&Some("s".to_string())).is_ok());
}

#[test]
fn quiet_overrides_format() {
    assert_eq!(effective_format(true, OutputFormat::Table), OutputFormat::Quiet);
    assert_eq!(effective_format(false, OutputFormat::Table), OutputFormat::Table);
}

#[test]
fn outcome_of_a_successful_run_is_its_output() {
    let args = vec!["action".to_string(), "query-tab-names".to_string()];
    let r = RealZellij::outcome(&args, true, "main\n".to_string(), "ignored");
    assert_eq!(r.unwrap(), "main\n");
}

#[test]
fn outcome_of_a_failed_run_carries_stderr_and_command_line() {
    let args = vec!["-s".to_string(), "work".to_string(), "action".to_string(), "go-to-tab".to_string()];
    let err = RealZellij::outcome(&args, false, "partial".to_string(), "no tab 9\n").unwrap_err();
    assert_eq!(err.message, "no tab 9\n");
    assert_eq!(err.exit_code, 2);
    assert_eq!(err.command.as_deref(), Some("zellij -s work action go-to-tab"));
}

#[test]
fn launch_failure_names_the_reason() {
    let args = vec!["list-sessions".to_string()];
    let err = RealZellij::launch_failure("No such file or directory", &args);
    assert_eq!(err.message, "Failed to execute zellij: No such file or directory");
    assert_eq!(err.command.as_deref(), Some("zellij list-sessions"));
}
