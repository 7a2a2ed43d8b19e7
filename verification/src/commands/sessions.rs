//! `sessions list`: the names of all zellij sessions.
use vstd::prelude::*;

use crate::cli::SessionsVerb;
use crate::error::ZjctlError;
use crate::models::{Session, SessionsOutput};
use crate::output::{Emission, OutputFormat};
use crate::text::{lines, split_lines};
use crate::zellij::{calls_since, extends, one_call, str_views, Call, Client, ZellijRunner};

verus! {

pub open spec fn nonempty_line() -> spec_fn(Seq<char>) -> bool {
    |l: Seq<char>| l.len() > 0
}

/// The session names in `list-sessions -n -s` output: its non-empty
/// lines, in order.
pub open spec fn session_names(raw: Seq<char>) -> Seq<Seq<char>> {
    lines(raw).filter(nonempty_line())
}

pub open spec fn names_of(sessions: Seq<Session>) -> Seq<Seq<char>> {
    sessions.map_values(|s: Session| s.name@)
}

/// No listed session name is empty.
pub proof fn lemma_session_names_nonempty(raw: Seq<char>)
    ensures
        forall|i: int| 0 <= i < session_names(raw).len() ==> #[trigger] session_names(raw)[i].len() > 0,
{
    assert forall|i: int| 0 <= i < session_names(raw).len() implies #[trigger] session_names(raw)[i].len() > 0 by {
        lines(raw).lemma_filter_pred(nonempty_line(), i);
    }
}

/// The sessions listed in `list-sessions -n -s` output.
pub fn sessions_from(raw: &str) -> (out: SessionsOutput)
    ensures
        names_of(out.sessions@) == session_names(raw@),
{
    let ls = split_lines(raw);
    let ghost all = lines(raw@);
    let ghost pred = nonempty_line();
    let mut sessions: Vec<Session> = Vec::new();
    let mut i: usize = 0;
    while i < ls.len()
        invariant
            i <= ls.len(),
            ls@.map_values(|l: String| l@) == all,
            pred == nonempty_line(),
            names_of(sessions@) == all.take(i as int).filter(pred),
        decreases ls.len() - i,
    {
        proof {
            reveal_with_fuel(Seq::<_>::filter, 1);
            assert(all.take(i + 1).drop_last() == all.take(i as int));
            assert(all.take(i + 1).last() == ls@[i as int]@);
        }
        let ghost before = names_of(sessions@);
        if !ls[i].as_str().is_empty() {
            let name = ls[i].clone();
            sessions.push(Session { name });
            assert(names_of(sessions@) == before.push(ls@[i as int]@));
        }
        i += 1;
    }
    assert(all.take(ls.len() as int) == all);
    SessionsOutput { sessions }
}

/// `list-sessions -n -s`.
pub open spec fn list_sessions_args() -> Seq<Seq<char>> {
    seq!["list-sessions"@, "-n"@, "-s"@]
}

/// `r` is what listing sessions gives when `zellij list-sessions -n -s`
/// answered `out`: the sessions of its output, or its error unchanged.
pub open spec fn sessions_listed(out: Result<String, ZjctlError>, r: Result<SessionsOutput, ZjctlError>) -> bool {
    match out {
        Ok(raw) => r matches Ok(o) && names_of(o.sessions@) == session_names(raw@),
        Err(e) => r == Err::<SessionsOutput, ZjctlError>(e),
    }
}

/// Lists the sessions that `zellij list-sessions -n -s` reports, with
/// that one call.  The format is not consulted here; printing happens
/// elsewhere.
pub fn list<Z: ZellijRunner>(zellij: &mut Client<Z>, _format: &OutputFormat) -> (r: Result<
    SessionsOutput,
    ZjctlError,
>)
    ensures
        extends(old(zellij).calls(), final(zellij).calls()),
        one_call(calls_since(old(zellij).calls(), final(zellij).calls()), list_sessions_args()),
        sessions_listed(calls_since(old(zellij).calls(), final(zellij).calls())[0].1, r),
{
    let ghost s0 = zellij.calls();
    let args: Vec<&str> = vec!["list-sessions", "-n", "-s"];
    let out = zellij.run_toplevel(args.as_slice());
    assert(str_views(args@) =~= list_sessions_args());
    assert(calls_since(s0, zellij.calls()) =~= seq![(list_sessions_args(), out)]);
    assert(zellij.calls().take(s0.len() as int) =~= s0);
    match out {
        Ok(raw) => Ok(sessions_from(raw.as_str())),
        Err(e) => Err(e),
    }
}

/// `r` is the outcome of carrying out the `sessions` verb `verb` with the
/// calls `c`: one `list-sessions` call, the sessions it reported, or its
/// error unchanged.
pub open spec fn sessions_ran(verb: SessionsVerb, c: Seq<Call>, r: Result<Emission, ZjctlError>) -> bool {
    match verb {
        SessionsVerb::List => {
            &&& one_call(c, list_sessions_args())
            &&& match c[0].1 {
                Ok(raw) => r matches Ok(Emission::Sessions(o)) && names_of(o.sessions@) == session_names(raw@),
                Err(e) => r == Err::<Emission, ZjctlError>(e),
            }
        },
    }
}

/// Carries out a `sessions` verb: the listing, or zellij's error.
pub fn run<Z: ZellijRunner>(verb: SessionsVerb, zellij: &mut Client<Z>) -> (r: Result<Emission, ZjctlError>)
    ensures
        extends(old(zellij).calls(), final(zellij).calls()),
        sessions_ran(verb, calls_since(old(zellij).calls(), final(zellij).calls()), r),
{
    match verb {
        SessionsVerb::List => {
            let listed = list(zellij, &OutputFormat::Json);
            match listed {
                Ok(out) => Ok(Emission::Sessions(out)),
                Err(e) => Err(e),
            }
        },
    }
}

} // verus!
