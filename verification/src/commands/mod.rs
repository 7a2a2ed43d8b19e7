//! The commands, and the routing from a resource to its verbs.
pub mod panes;
pub mod sessions;
pub mod tabs;

use vstd::prelude::*;

use crate::cli::{Resource, TabsVerb};
use crate::error::{is_plain, not_in_session_message, ErrorCode, ZjctlError};
use crate::output::Emission;
use crate::safety::opt_str_view;
use crate::text::parse_u32;
use crate::zellij::{calls_since, extends, Call, Client, ZellijRunner};

verus! {

/// The session to act on: the one named on the command line, else the
/// one from the environment.
pub fn resolve_session(flag: Option<String>, env: Option<String>) -> (s: Option<String>)
    ensures
        s == (if flag is Some { flag } else { env }),
{
    match flag {
        Some(s) => Some(s),
        None => env,
    }
}

/// Tabs and panes live in a session; without one they are refused.
pub fn require_session(session: &Option<String>) -> (r: Result<(), ZjctlError>)
    ensures
        r is Err <==> session is None,
        r matches Err(e) ==> is_plain(e, ErrorCode::NotInSession, not_in_session_message()),
{
    if session.is_none() {
        return Err(ZjctlError::not_in_session());
    }
    Ok(())
}

/// Routes a resource and verb to its command.  Sessions can be listed
/// anywhere; tabs and panes need a session, and without one nothing is
/// called.
pub fn dispatch<Z: ZellijRunner>(
    resource: Resource,
    session: &Option<String>,
    zellij: &mut Client<Z>,
    dry_run: bool,
    no_guard: bool,
    self_pane: Option<&str>,
) -> (r: Result<Emission, ZjctlError>)
    requires
        resource matches Resource::Tabs { verb } ==> (verb matches TabsVerb::Focus { tab } ==> parse_u32(
            tab@,
        ) != Some(u32::MAX)),
    ensures
        extends(old(zellij).calls(), final(zellij).calls()),
        session is None && !(resource is Sessions) ==> calls_since(old(zellij).calls(), final(zellij).calls()).len()
            == 0 && (r matches Err(e) && is_plain(e, ErrorCode::NotInSession, not_in_session_message())),
        match resource {
            Resource::Sessions { verb } => sessions::sessions_ran(verb, calls_since(old(zellij).calls(), final(zellij).calls()), r),
            Resource::Tabs { verb } => session is Some ==> tabs::tabs_ran::<Z>(
                verb,
                dry_run,
                calls_since(old(zellij).calls(), final(zellij).calls()),
                r,
            ),
            Resource::Panes { verb } => session is Some ==> panes::panes_ran::<Z>(
                verb,
                dry_run,
                no_guard,
                opt_str_view(self_pane),
                calls_since(old(zellij).calls(), final(zellij).calls()),
                r,
            ),
        },
{
    let ghost s0 = zellij.calls();
    match resource {
        Resource::Sessions { verb } => sessions::run(verb, zellij),
        Resource::Tabs { verb } => {
            if let Err(e) = require_session(session) {
                assert(calls_since(s0, zellij.calls()) =~= Seq::<Call>::empty());
                assert(zellij.calls().take(s0.len() as int) =~= s0);
                return Err(e);
            }
            tabs::run(verb, zellij, dry_run)
        },
        Resource::Panes { verb } => {
            if let Err(e) = require_session(session) {
                assert(calls_since(s0, zellij.calls()) =~= Seq::<Call>::empty());
                assert(zellij.calls().take(s0.len() as int) =~= s0);
                return Err(e);
            }
            panes::run(verb, zellij, dry_run, no_guard, self_pane)
        },
    }
}

} // verus!
