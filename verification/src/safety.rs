//! The self-write guard: a program running inside a pane must not type
//! into that same pane unless told to.
use vstd::prelude::*;

use crate::error::{opt_view, self_write_message, ErrorCode, ZjctlError};
use crate::text::{concat, decimal, has_prefix, parse_u32, parse_u32_str, starts_with, str_eq, to_string, u32_to_string};

verus! {

/// A pane id already written as `terminal_N` or `plugin_N`.
pub open spec fn is_qualified(id: Seq<char>) -> bool {
    has_prefix(id, "terminal_"@) || has_prefix(id, "plugin_"@)
}

/// `terminal_N` for a number `N`.
pub open spec fn terminal_id(n: nat) -> Seq<char> {
    "terminal_"@ + decimal(n)
}

/// A pane id in canonical form: qualified ids stay, a number `N` becomes
/// `terminal_N`, anything else stays as written.
pub open spec fn normalized_pane_id(id: Seq<char>) -> Seq<char> {
    if is_qualified(id) {
        id
    } else {
        match parse_u32(id) {
            Some(n) => terminal_id(n as nat),
            None => id,
        }
    }
}

pub open spec fn opt_str_view(o: Option<&str>) -> Option<Seq<char>> {
    match o {
        Some(s) => Some(s@),
        None => None,
    }
}

/// The guard refuses: it is on, the program runs in pane `self_pane`,
/// and the target names that pane.
pub open spec fn self_write_refused(
    target: Seq<char>,
    no_guard: bool,
    self_pane: Option<Seq<char>>,
) -> bool {
    !no_guard && self_pane is Some && normalized_pane_id(target) == "terminal_"@ + self_pane->0
}

/// `e` is the guard's refusal to write to `target` from pane
/// `self_pane` (the number as the environment gives it): exit code 3,
/// the target in canonical form and the program's own pane named.
pub open spec fn self_write_error(e: ZjctlError, target: Seq<char>, self_pane: Seq<char>) -> bool {
    &&& e.error == ErrorCode::SelfWriteBlocked
    &&& e.exit_code == 3
    &&& opt_view(e.target) == Some(normalized_pane_id(target))
    &&& opt_view(e.self_pane) == Some("terminal_"@ + self_pane)
    &&& e.message@ == self_write_message("terminal_"@ + self_pane)
    &&& e.command is None
}

pub proof fn lemma_terminal_id_qualified(n: nat)
    ensures
        is_qualified(terminal_id(n)),
{
    assert(terminal_id(n).take("terminal_"@.len() as int) == "terminal_"@);
}

/// Normalising a pane id twice gives what normalising once gives.
pub proof fn lemma_normalize_idempotent(id: Seq<char>)
    ensures
        normalized_pane_id(normalized_pane_id(id)) == normalized_pane_id(id),
{
    if !is_qualified(id) {
        if let Some(n) = parse_u32(id) {
            lemma_terminal_id_qualified(n as nat);
        }
    }
}

/// The canonical form of a pane id.
pub fn normalize_pane_id(id: &str) -> (r: String)
    ensures
        r@ == normalized_pane_id(id@),
{
    if starts_with(id, "terminal_") || starts_with(id, "plugin_") {
        return to_string(id);
    }
    match parse_u32_str(id) {
        Some(n) => {
            let digits = u32_to_string(n);
            concat("terminal_", digits.as_str())
        },
        None => to_string(id),
    }
}

/// Refuses a write into the program's own pane.  `self_pane_id` is the
/// number of the pane the program runs in, when it runs in one; the
/// guard is off with `no_guard`.
pub fn check_self_write(target_pane_id: &str, no_guard: bool, self_pane_id: Option<&str>) -> (r:
    Result<(), ZjctlError>)
    ensures
        r is Err <==> self_write_refused(target_pane_id@, no_guard, opt_str_view(self_pane_id)),
        r matches Err(e) ==> self_write_error(e, target_pane_id@, self_pane_id->0@),
{
    if no_guard {
        return Ok(());
    }
    let self_id = match self_pane_id {
        Some(id) => id,
        None => return Ok(()),
    };
    let normalized_target = normalize_pane_id(target_pane_id);
    let normalized_self = concat("terminal_", self_id);
    if str_eq(normalized_target.as_str(), normalized_self.as_str()) {
        return Err(ZjctlError::self_write_blocked(normalized_target, normalized_self));
    }
    Ok(())
}

} // verus!
