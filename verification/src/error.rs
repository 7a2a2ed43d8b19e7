//! Structured errors: each kind of failure carries a fixed exit code and
//! serialises to one JSON object.
use vstd::prelude::*;

use crate::text::{concat, i32_to_string, int_decimal, to_string};

verus! {

/// The kinds of failure, serialised in snake case.
#[derive(Debug, Clone, Copy, PartialEq, Eq, Structural)]
pub enum ErrorCode {
    UnknownCommand,
    MissingArgument,
    InvalidTarget,
    ZellijError,
    SelfWriteBlocked,
    NotInSession,
    ParseError,
}

/// A failure as reported to the caller: its kind, a message, the
/// process exit code, and the optional context fields.
#[derive(Debug, Clone)]
pub struct ZjctlError {
    pub error: ErrorCode,
    pub message: String,
    pub exit_code: i32,
    pub command: Option<String>,
    pub target: Option<String>,
    pub self_pane: Option<String>,
}

/// The exit code that belongs to each kind of failure.
pub open spec fn exit_code_of(code: ErrorCode) -> i32 {
    match code {
        ErrorCode::UnknownCommand => 1,
        ErrorCode::MissingArgument => 1,
        ErrorCode::InvalidTarget => 1,
        ErrorCode::ZellijError => 2,
        ErrorCode::SelfWriteBlocked => 3,
        ErrorCode::NotInSession => 4,
        ErrorCode::ParseError => 5,
    }
}

/// The snake-case name of each kind, as it appears in JSON.
pub open spec fn code_name(code: ErrorCode) -> Seq<char> {
    match code {
        ErrorCode::UnknownCommand => "unknown_command"@,
        ErrorCode::MissingArgument => "missing_argument"@,
        ErrorCode::InvalidTarget => "invalid_target"@,
        ErrorCode::ZellijError => "zellij_error"@,
        ErrorCode::SelfWriteBlocked => "self_write_blocked"@,
        ErrorCode::NotInSession => "not_in_session"@,
        ErrorCode::ParseError => "parse_error"@,
    }
}

/// An error of kind `code` with message `msg`, the kind's exit code and
/// no context fields.
pub open spec fn is_plain(e: ZjctlError, code: ErrorCode, msg: Seq<char>) -> bool {
    &&& e.error == code
    &&& e.message@ == msg
    &&& e.exit_code == exit_code_of(code)
    &&& e.command is None
    &&& e.target is None
    &&& e.self_pane is None
}

pub open spec fn opt_view(o: Option<String>) -> Option<Seq<char>> {
    match o {
        Some(s) => Some(s@),
        None => None,
    }
}

pub open spec fn self_write_message(self_pane: Seq<char>) -> Seq<char> {
    "Refusing to write to own pane ("@ + self_pane + "). Use --no-guard to override."@
}

pub open spec fn not_in_session_message() -> Seq<char> {
    "Not in a zellij session. Set ZELLIJ_SESSION_NAME or use --session."@
}

// ---------------------------------------------------------------------
// JSON text
// ---------------------------------------------------------------------

pub open spec fn hex_digit(d: nat) -> char {
    if d < 10 {
        ((d + 48) as u8) as char
    } else {
        ((d + 87) as u8) as char
    }
}

/// How one character is written inside a JSON string.
pub open spec fn json_escape(c: char) -> Seq<char> {
    if c == '"' {
        seq!['\\', '"']
    } else if c == '\\' {
        seq!['\\', '\\']
    } else if c == '\u{8}' {
        seq!['\\', 'b']
    } else if c == '\u{c}' {
        seq!['\\', 'f']
    } else if c == '\n' {
        seq!['\\', 'n']
    } else if c == '\r' {
        seq!['\\', 'r']
    } else if c == '\t' {
        seq!['\\', 't']
    } else if (c as u32) < 0x20 {
        seq!['\\', 'u', '0', '0', hex_digit((c as u32 / 16) as nat), hex_digit((c as u32 % 16) as nat)]
    } else {
        seq![c]
    }
}

pub open spec fn json_escaped(s: Seq<char>) -> Seq<char>
    decreases s.len(),
{
    if s.len() == 0 {
        seq![]
    } else {
        json_escaped(s.drop_last()) + json_escape(s.last())
    }
}

/// A JSON string literal holding `s`.
pub open spec fn json_quoted(s: Seq<char>) -> Seq<char> {
    seq!['"'] + json_escaped(s) + seq!['"']
}

/// `,"key":"value"` when the field is present, nothing when absent.
pub open spec fn json_opt_field(key: Seq<char>, value: Option<Seq<char>>) -> Seq<char> {
    match value {
        Some(v) => ","@ + json_quoted(key) + ":"@ + json_quoted(v),
        None => seq![],
    }
}

/// The JSON object of an error: `error`, `message` and `exit_code`, then
/// `command`, `target` and `self` only when they are present.
pub open spec fn error_json(e: ZjctlError) -> Seq<char> {
    "{"@ + json_quoted("error"@) + ":"@ + json_quoted(code_name(e.error)) + ","@ + json_quoted(
        "message"@,
    ) + ":"@ + json_quoted(e.message@) + ","@ + json_quoted("exit_code"@) + ":"@ + int_decimal(
        e.exit_code as int,
    ) + json_opt_field("command"@, opt_view(e.command)) + json_opt_field(
        "target"@,
        opt_view(e.target),
    ) + json_opt_field("self"@, opt_view(e.self_pane)) + "}"@
}

/// `serde_json::to_string` on a `&str`: the string as a JSON literal.
/// The contract states serde_json's escaping (quote, backslash and the
/// control characters below U+0020; everything else verbatim) and that
/// serialising a string slice into memory does not fail.
#[verifier::external_body]
fn json_string(s: &str) -> (r: String)
    ensures
        r@ == json_quoted(s@),
{
    match serde_json::to_string(s) {
        Ok(j) => j,
        Err(_) => String::new(),
    }
}

fn code_str(code: ErrorCode) -> (r: &'static str)
    ensures
        r@ == code_name(code),
{
    match code {
        ErrorCode::UnknownCommand => "unknown_command",
        ErrorCode::MissingArgument => "missing_argument",
        ErrorCode::InvalidTarget => "invalid_target",
        ErrorCode::ZellijError => "zellij_error",
        ErrorCode::SelfWriteBlocked => "self_write_blocked",
        ErrorCode::NotInSession => "not_in_session",
        ErrorCode::ParseError => "parse_error",
    }
}

/// `,"key":"value"` for a present field.
fn push_opt_field(out: String, key: &str, value: &Option<String>) -> (r: String)
    ensures
        r@ == out@ + json_opt_field(key@, opt_view(*value)),
{
    match value {
        Some(v) => {
            let mut r = concat(out.as_str(), ",");
            r = concat(r.as_str(), json_string(key).as_str());
            r = concat(r.as_str(), ":");
            r = concat(r.as_str(), json_string(v.as_str()).as_str());
            r
        },
        None => out,
    }
}

impl ZjctlError {
    /// An error of the given kind; the exit code follows from the kind.
    pub fn new(error: ErrorCode, message: &str) -> (e: Self)
        ensures
            is_plain(e, error, message@),
    {
        let exit_code: i32 = match error {
            ErrorCode::UnknownCommand | ErrorCode::MissingArgument | ErrorCode::InvalidTarget => 1,
            ErrorCode::ZellijError => 2,
            ErrorCode::SelfWriteBlocked => 3,
            ErrorCode::NotInSession => 4,
            ErrorCode::ParseError => 5,
        };
        ZjctlError {
            error,
            message: to_string(message),
            exit_code,
            command: None,
            target: None,
            self_pane: None,
        }
    }

    pub fn unknown_command(message: &str) -> (e: Self)
        ensures
            is_plain(e, ErrorCode::UnknownCommand, message@),
    {
        Self::new(ErrorCode::UnknownCommand, message)
    }

    pub fn missing_argument(message: &str) -> (e: Self)
        ensures
            is_plain(e, ErrorCode::MissingArgument, message@),
    {
        Self::new(ErrorCode::MissingArgument, message)
    }

    pub fn invalid_target(message: &str) -> (e: Self)
        ensures
            is_plain(e, ErrorCode::InvalidTarget, message@),
    {
        Self::new(ErrorCode::InvalidTarget, message)
    }

    /// A failed zellij invocation; `command` records what was run.
    pub fn zellij_error(message: &str, command: &str) -> (e: Self)
        ensures
            e.error == ErrorCode::ZellijError,
            e.message@ == message@,
            e.exit_code == 2,
            opt_view(e.command) == Some(command@),
            e.target is None,
            e.self_pane is None,
    {
        let mut err = Self::new(ErrorCode::ZellijError, message);
        err.command = Some(to_string(command));
        err
    }

    /// Refusal to write into the pane that runs this program.
    pub fn self_write_blocked(target: String, self_pane: String) -> (e: Self)
        ensures
            e.error == ErrorCode::SelfWriteBlocked,
            e.message@ == self_write_message(self_pane@),
            e.exit_code == 3,
            e.command is None,
            opt_view(e.target) == Some(target@),
            opt_view(e.self_pane) == Some(self_pane@),
    {
        let m1 = concat("Refusing to write to own pane (", self_pane.as_str());
        let message = concat(m1.as_str(), "). Use --no-guard to override.");
        let mut err = Self::new(ErrorCode::SelfWriteBlocked, message.as_str());
        err.target = Some(target);
        err.self_pane = Some(self_pane);
        err
    }

    pub fn not_in_session() -> (e: Self)
        ensures
            is_plain(e, ErrorCode::NotInSession, not_in_session_message()),
    {
        Self::new(
            ErrorCode::NotInSession,
            "Not in a zellij session. Set ZELLIJ_SESSION_NAME or use --session.",
        )
    }

    pub fn parse_error(message: &str) -> (e: Self)
        ensures
            is_plain(e, ErrorCode::ParseError, message@),
    {
        Self::new(ErrorCode::ParseError, message)
    }

    /// The error as one JSON object; absent context fields are left out.
    pub fn to_json(&self) -> (j: String)
        ensures
            j@ == error_json(*self),
    {
        let mut r = concat("{", json_string("error").as_str());
        r = concat(r.as_str(), ":");
        r = concat(r.as_str(), json_string(code_str(self.error)).as_str());
        r = concat(r.as_str(), ",");
        r = concat(r.as_str(), json_string("message").as_str());
        r = concat(r.as_str(), ":");
        r = concat(r.as_str(), json_string(self.message.as_str()).as_str());
        r = concat(r.as_str(), ",");
        r = concat(r.as_str(), json_string("exit_code").as_str());
        r = concat(r.as_str(), ":");
        r = concat(r.as_str(), i32_to_string(self.exit_code).as_str());
        r = push_opt_field(r, "command", &self.command);
        r = push_opt_field(r, "target", &self.target);
        r = push_opt_field(r, "self", &self.self_pane);
        r = concat(r.as_str(), "}");
        r
    }
}

} // verus!
