//! The boundary to the zellij binary: the runner interface that the
//! commands talk to, and the argument lines a session-bound runner uses.
use vstd::prelude::*;

use crate::error::{opt_view, ErrorCode, ZjctlError};
use crate::models::{ZellijPaneInfo, ZellijTabInfo};
use crate::text::{join_spaced, join_words, concat, to_string};

verus! {

/// The character views of a list of strings.
pub open spec fn string_views(v: Seq<String>) -> Seq<Seq<char>> {
    v.map_values(|s: String| s@)
}

/// The character views of a list of string slices.
pub open spec fn str_views(v: Seq<&str>) -> Seq<Seq<char>> {
    v.map_values(|s: &str| s@)
}

/// Runs zellij and reads what it prints.  Implementors talk to a real
/// zellij process (or stand in for one); nothing is promised about what
/// comes back, so every command states what holds whatever it is.
pub trait ZellijRunner {
    /// Runs `zellij action <args...>` and returns its standard output.
    fn run_action(&self, args: &[&str]) -> Result<String, ZjctlError>;

    /// Runs `zellij <args...>` and returns its standard output.
    fn run_toplevel(&self, args: &[&str]) -> Result<String, ZjctlError>;

    /// Decodes the JSON array that `list-panes --json` prints; `Err`
    /// carries the decoder's explanation.
    fn decode_panes(raw: &str) -> Result<Vec<ZellijPaneInfo>, String>;

    /// Decodes the JSON object that `current-tab-info --json` prints.
    fn decode_tab_info(raw: &str) -> Result<ZellijTabInfo, String>;
}

/// One call of zellij: its arguments after `zellij` (without the session
/// option) and what it returned.
pub type Call = (Seq<Seq<char>>, Result<String, ZjctlError>);

/// The arguments after `zellij` of `zellij action <args...>`.
pub open spec fn action_argv(args: Seq<Seq<char>>) -> Seq<Seq<char>> {
    seq!["action"@] + args
}

/// `after` is `before` with calls added at its end.
pub open spec fn extends(before: Seq<Call>, after: Seq<Call>) -> bool {
    before.len() <= after.len() && after.take(before.len() as int) == before
}

/// The calls added at the end of `before` to give `after`.
pub open spec fn calls_since(before: Seq<Call>, after: Seq<Call>) -> Seq<Call> {
    after.skip(before.len() as int)
}

/// Calls made in two stretches are those of the first, then those of the
/// second.
pub proof fn lemma_calls_chain(s0: Seq<Call>, s1: Seq<Call>, s2: Seq<Call>)
    requires
        extends(s0, s1),
        extends(s1, s2),
    ensures
        extends(s0, s2),
        calls_since(s0, s2) == calls_since(s0, s1) + calls_since(s1, s2),
        calls_since(s0, s2).take(calls_since(s0, s1).len() as int) == calls_since(s0, s1),
        calls_since(s0, s2).skip(calls_since(s0, s1).len() as int) == calls_since(s1, s2),
{
    assert(s2.take(s0.len() as int) =~= s1.take(s0.len() as int));
    let c = calls_since(s0, s2);
    let c1 = calls_since(s0, s1);
    let c2 = calls_since(s1, s2);
    assert(c =~= c1 + c2) by {
        assert forall|i: int| 0 <= i < c.len() implies c[i] == (c1 + c2)[i] by {
            if i < c1.len() {
                assert(s2.take(s1.len() as int)[s0.len() + i] == s1[s0.len() + i]);
            }
        }
    }
    assert(c.take(c1.len() as int) =~= c1);
    assert(c.skip(c1.len() as int) =~= c2);
}

/// `list-panes --json --all`.
pub open spec fn list_panes_args() -> Seq<Seq<char>> {
    seq!["list-panes"@, "--json"@, "--all"@]
}

/// `c` is one call with the arguments `argv`.
pub open spec fn one_call(c: Seq<Call>, argv: Seq<Seq<char>>) -> bool {
    c.len() == 1 && c[0].0 == argv
}

/// `r` is the outcome of an action with arguments `args`, given the calls
/// `c` it made: on a dry run no call and the argument list; otherwise
/// that one action, and the argument list once it ran or its error
/// unchanged.
pub open spec fn action_done(
    args: Seq<Seq<char>>,
    dry_run: bool,
    c: Seq<Call>,
    r: Result<Vec<String>, ZjctlError>,
) -> bool {
    if dry_run {
        c.len() == 0 && (r matches Ok(cmd) && string_views(cmd@) == args)
    } else {
        &&& one_call(c, action_argv(args))
        &&& match c[0].1 {
            Ok(_) => r matches Ok(cmd) && string_views(cmd@) == args,
            Err(e) => r == Err::<Vec<String>, ZjctlError>(e),
        }
    }
}

/// `out` is what `decode_panes` may give for the text `raw`.
pub open spec fn panes_decoded<Z: ZellijRunner>(raw: Seq<char>, out: Result<Vec<ZellijPaneInfo>, String>) -> bool {
    exists|s: &str| s@ == raw && #[trigger] call_ensures(Z::decode_panes, (s,), out)
}

/// `out` is what `decode_tab_info` may give for the text `raw`.
pub open spec fn tab_info_decoded<Z: ZellijRunner>(raw: Seq<char>, out: Result<ZellijTabInfo, String>) -> bool {
    exists|s: &str| s@ == raw && #[trigger] call_ensures(Z::decode_tab_info, (s,), out)
}

/// A runner, and the record of every call made through it.  Commands
/// reach zellij only through a client, so its record is the list of the
/// zellij invocations they made, each with its answer.
pub struct Client<'a, Z> {
    runner: &'a Z,
    record: Ghost<Seq<Call>>,
}

impl<'a, Z: ZellijRunner> Client<'a, Z> {
    /// The calls made through this client so far, oldest first.
    pub closed spec fn calls(&self) -> Seq<Call> {
        self.record@
    }

    /// A client of `runner` that has made no call yet.
    pub fn new(runner: &'a Z) -> (c: Self)
        ensures
            c.calls() == Seq::<Call>::empty(),
    {
        Client { runner, record: Ghost(Seq::empty()) }
    }

    /// Runs `zellij action <args...>`.
    pub fn run_action(&mut self, args: &[&str]) -> (r: Result<String, ZjctlError>)
        ensures
            final(self).calls() == old(self).calls().push((action_argv(str_views(args@)), r)),
    {
        let r = self.runner.run_action(args);
        self.record = Ghost(self.record@.push((action_argv(str_views(args@)), r)));
        r
    }

    /// Runs `zellij <args...>`.
    pub fn run_toplevel(&mut self, args: &[&str]) -> (r: Result<String, ZjctlError>)
        ensures
            final(self).calls() == old(self).calls().push((str_views(args@), r)),
    {
        let r = self.runner.run_toplevel(args);
        self.record = Ghost(self.record@.push((str_views(args@), r)));
        r
    }
}

/// Borrowed slices of each string, in order.
pub fn as_strs<'a>(v: &'a Vec<String>) -> (r: Vec<&'a str>)
    ensures
        str_views(r@) == string_views(v@),
{
    let mut r: Vec<&'a str> = Vec::new();
    let mut i: usize = 0;
    while i < v.len()
        invariant
            i <= v.len(),
            r.len() == i,
            str_views(r@) == string_views(v@).take(i as int),
        decreases v.len() - i,
    {
        let si = v[i].as_str();
        r.push(si);
        assert(str_views(r@) =~= string_views(v@).take(i + 1)) by {
            assert(r@[i as int]@ == v@[i as int]@);
        }
        i += 1;
    }
    assert(string_views(v@).take(v.len() as int) == string_views(v@));
    r
}

/// Owned copies of each slice, in order.
pub fn to_strings(v: &[&str]) -> (r: Vec<String>)
    ensures
        string_views(r@) == str_views(v@),
{
    let mut r: Vec<String> = Vec::new();
    let mut i: usize = 0;
    while i < v.len()
        invariant
            i <= v.len(),
            r.len() == i,
            string_views(r@) == str_views(v@).take(i as int),
        decreases v.len() - i,
    {
        let si = to_string(v[i]);
        r.push(si);
        assert(string_views(r@) =~= str_views(v@).take(i + 1)) by {
            assert(r@[i as int]@ == v@[i as int]@);
        }
        i += 1;
    }
    assert(str_views(v@).take(v.len() as int) == str_views(v@));
    r
}

/// Runs `zellij action` with the given arguments.
pub fn run_action_args<Z: ZellijRunner>(zellij: &mut Client<Z>, args: &Vec<String>) -> (r: Result<String, ZjctlError>)
    ensures
        final(zellij).calls() == old(zellij).calls().push((action_argv(string_views(args@)), r)),
{
    let refs = as_strs(args);
    zellij.run_action(refs.as_slice())
}

/// Runs the action `args` unless this is a dry run; the result is the
/// argument list.
pub fn perform<Z: ZellijRunner>(zellij: &mut Client<Z>, args: Vec<String>, dry_run: bool) -> (r: Result<
    Vec<String>,
    ZjctlError,
>)
    ensures
        extends(old(zellij).calls(), final(zellij).calls()),
        action_done(string_views(args@), dry_run, calls_since(old(zellij).calls(), final(zellij).calls()), r),
{
    let ghost s0 = zellij.calls();
    if !dry_run {
        let out = run_action_args(zellij, &args);
        assert(calls_since(s0, zellij.calls()) =~= seq![(action_argv(string_views(args@)), out)]);
        assert(zellij.calls().take(s0.len() as int) =~= s0);
        if let Err(e) = out {
            return Err(e);
        }
    } else {
        assert(calls_since(s0, zellij.calls()) =~= Seq::<Call>::empty());
        assert(zellij.calls().take(s0.len() as int) =~= s0);
    }
    Ok(args)
}

/// The arguments of a zellij invocation as one line, separated by single
/// spaces, for error messages.
pub fn format_args_for_error(args: &[String]) -> (r: String)
    ensures
        r@ == join_spaced(string_views(args@)),
{
    let mut v: Vec<String> = Vec::new();
    let mut i: usize = 0;
    while i < args.len()
        invariant
            i <= args.len(),
            v@ == args@.take(i as int),
        decreases args.len() - i,
    {
        v.push(args[i].clone());
        assert(v@ == args@.take(i + 1));
        i += 1;
    }
    assert(args@.take(args.len() as int) == args@);
    join_words(&v)
}

/// A runner bound to an optional session name.
pub struct RealZellij {
    pub session: Option<String>,
}

/// `-s <session>` when a session is named, nothing otherwise.
pub open spec fn session_prefix(session: Option<Seq<char>>) -> Seq<Seq<char>> {
    match session {
        Some(s) => seq!["-s"@, s],
        None => seq![],
    }
}

/// The command line that a failed invocation reports: `zellij <args>`.
pub open spec fn command_line_spec(args: Seq<Seq<char>>) -> Seq<char> {
    "zellij "@ + join_spaced(args)
}

/// `e` reports that running zellij with `args` failed with `message`.
pub open spec fn zellij_failure(e: ZjctlError, message: Seq<char>, args: Seq<Seq<char>>) -> bool {
    &&& e.error == ErrorCode::ZellijError
    &&& e.message@ == message
    &&& e.exit_code == 2
    &&& opt_view(e.command) == Some(command_line_spec(args))
    &&& e.target is None
    &&& e.self_pane is None
}

impl RealZellij {
    pub open spec fn session_view(&self) -> Option<Seq<char>> {
        match self.session {
            Some(s) => Some(s@),
            None => None,
        }
    }

    fn session_args(&self) -> (r: Vec<String>)
        ensures
            string_views(r@) == session_prefix(self.session_view()),
    {
        let mut r: Vec<String> = Vec::new();
        match &self.session {
            Some(s) => {
                r.push(to_string("-s"));
                r.push(s.clone());
                assert(string_views(r@) == seq!["-s"@, s@]);
            },
            None => {
                assert(string_views(r@) == Seq::<Seq<char>>::empty());
            },
        }
        r
    }

    /// The full argument list for `zellij action <args>`, bound to the
    /// session when one is named.
    pub fn action_args(&self, args: &[&str]) -> (r: Vec<String>)
        ensures
            string_views(r@) == session_prefix(self.session_view()) + seq!["action"@] + str_views(
                args@,
            ),
    {
        let mut r = self.session_args();
        let ghost pre = string_views(r@);
        r.push(to_string("action"));
        assert(string_views(r@) == pre + seq!["action"@]);
        let mut rest = to_strings(args);
        r.append(&mut rest);
        assert(string_views(r@) == pre + seq!["action"@] + str_views(args@));
        r
    }

    /// The full argument list for `zellij <args>`, bound to the session
    /// when one is named.
    pub fn toplevel_args(&self, args: &[&str]) -> (r: Vec<String>)
        ensures
            string_views(r@) == session_prefix(self.session_view()) + str_views(args@),
    {
        let mut r = self.session_args();
        let ghost pre = string_views(r@);
        let mut rest = to_strings(args);
        r.append(&mut rest);
        assert(string_views(r@) == pre + str_views(args@));
        r
    }

    /// The error for an invocation of zellij with `args` that failed with
    /// `message`.
    pub fn failure(message: &str, args: &[String]) -> (e: ZjctlError)
        ensures
            zellij_failure(e, message@, string_views(args@)),
    {
        let joined = format_args_for_error(args);
        let line = concat("zellij ", joined.as_str());
        ZjctlError::zellij_error(message, line.as_str())
    }

    /// The error for an invocation of zellij with `args` that could not be
    /// started at all, for the given reason.
    pub fn launch_failure(reason: &str, args: &[String]) -> (e: ZjctlError)
        ensures
            zellij_failure(e, "Failed to execute zellij: "@ + reason@, string_views(args@)),
    {
        let message = concat("Failed to execute zellij: ", reason);
        Self::failure(message.as_str(), args)
    }

    /// What an invocation of zellij with `args` that ran to its end gives
    /// back: its standard output when it exited successfully, otherwise
    /// the failure carrying its standard error as written.
    pub fn outcome(args: &[String], success: bool, stdout: String, stderr: &str) -> (r: Result<
        String,
        ZjctlError,
    >)
        ensures
            success ==> r == Ok::<String, ZjctlError>(stdout),
            !success ==> (r matches Err(e) && zellij_failure(e, stderr@, string_views(args@))),
    {
        if success {
            Ok(stdout)
        } else {
            Err(Self::failure(stderr, args))
        }
    }
}

} // verus!
