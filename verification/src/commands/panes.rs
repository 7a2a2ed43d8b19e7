//! `panes` verbs: list, read, write, send keys, focus and open.
use vstd::prelude::*;

use crate::cli::PanesVerb;
use crate::error::{is_plain, opt_view, ErrorCode, ZjctlError};
use crate::identity::{direct_pane, locate_pane, pane_queried, pane_resolution_len, pane_resolved, resolve_pane, resolve_tab, tab_resolved};
use crate::models::{Pane, PaneContent, PanesOutput, ZellijPaneInfo};
use crate::output::Emission;
use crate::safety::{check_self_write, opt_str_view, self_write_error, self_write_refused, terminal_id};
use crate::text::{concat, decimal, trim, trim_str, to_string, u32_to_string};
use crate::zellij::{action_argv, action_done, calls_since, extends, lemma_calls_chain, list_panes_args, one_call, panes_decoded, perform, run_action_args, str_views, string_views, Call, Client, ZellijRunner};

verus! {

// ---------------------------------------------------------------------
// Listing
// ---------------------------------------------------------------------

/// `plugin_N` or `terminal_N` for a listed pane.
pub open spec fn qualified_pane_id(p: ZellijPaneInfo) -> Seq<char> {
    if p.is_plugin {
        "plugin_"@ + decimal(p.id as nat)
    } else {
        terminal_id(p.id as nat)
    }
}

/// Selectable panes, and with a tab position given, only those in it.
pub open spec fn listed_pred(tab_position: Option<u32>) -> spec_fn(ZellijPaneInfo) -> bool {
    |p: ZellijPaneInfo|
        p.is_selectable && match tab_position {
            Some(pos) => p.tab_position == pos,
            None => true,
        }
}

pub open spec fn listed_panes(panes: Seq<ZellijPaneInfo>, tab_position: Option<u32>) -> Seq<
    ZellijPaneInfo,
> {
    panes.filter(listed_pred(tab_position))
}

/// `out` reports pane `p`: qualified id, command and cwd as given, an
/// empty title reported as absent, and the flags and tab fields copied.
pub open spec fn reports_pane(out: Pane, p: ZellijPaneInfo) -> bool {
    &&& out.id@ == qualified_pane_id(p)
    &&& opt_view(out.command) == opt_view(p.pane_command)
    &&& opt_view(out.cwd) == opt_view(p.pane_cwd)
    &&& opt_view(out.title) == (if p.title@.len() == 0 {
        None::<Seq<char>>
    } else {
        Some(p.title@)
    })
    &&& out.focused == p.is_focused
    &&& out.floating == p.is_floating
    &&& out.tab_id == p.tab_id
    &&& out.tab_name@ == p.tab_name@
}

pub open spec fn reports_panes(out: Seq<Pane>, panes: Seq<ZellijPaneInfo>) -> bool {
    &&& out.len() == panes.len()
    &&& forall|i: int| 0 <= i < out.len() ==> reports_pane(#[trigger] out[i], panes[i])
}

/// A pane listing shows only selectable panes (of the requested tab
/// position, when one is given), each under a qualified id.
pub proof fn lemma_listing_shows_selectable_qualified(
    out: Seq<Pane>,
    panes: Seq<ZellijPaneInfo>,
    tab_position: Option<u32>,
)
    requires
        reports_panes(out, listed_panes(panes, tab_position)),
    ensures
        forall|i: int| 0 <= i < out.len() ==> crate::safety::is_qualified(#[trigger] out[i].id@),
        forall|i: int| #![trigger listed_panes(panes, tab_position)[i]]
            0 <= i < out.len() ==> listed_panes(panes, tab_position)[i].is_selectable && (
            tab_position matches Some(pos) ==> listed_panes(panes, tab_position)[i].tab_position == pos),
{
    let l = listed_panes(panes, tab_position);
    assert forall|i: int| 0 <= i < out.len() implies crate::safety::is_qualified(#[trigger] out[i].id@) by {
        assert(reports_pane(out[i], l[i]));
        if l[i].is_plugin {
            assert(("plugin_"@ + decimal(l[i].id as nat)).take("plugin_"@.len() as int) == "plugin_"@);
        } else {
            crate::safety::lemma_terminal_id_qualified(l[i].id as nat);
        }
    }
    assert forall|i: int| #![trigger l[i]] 0 <= i < out.len() implies l[i].is_selectable && (
        tab_position matches Some(pos) ==> l[i].tab_position == pos) by {
        panes.lemma_filter_pred(listed_pred(tab_position), i);
    }
}

/// A pane listing copies each pane's state from the pane zellij reported
/// for it: the `i`-th entry is focused exactly when the `i`-th listed
/// zellij pane is, floating exactly when it is, carries its command,
/// working directory, tab id and tab name, and has a title exactly when
/// the pane's title is not empty.
pub proof fn lemma_listing_copies_pane_state(
    out: Seq<Pane>,
    panes: Seq<ZellijPaneInfo>,
    tab_position: Option<u32>,
)
    requires
        reports_panes(out, listed_panes(panes, tab_position)),
    ensures
        out.len() == listed_panes(panes, tab_position).len(),
        forall|i: int| #![trigger out[i]]
            0 <= i < out.len() ==> {
                let p = listed_panes(panes, tab_position)[i];
                &&& panes.contains(p)
                &&& (out[i].focused <==> p.is_focused)
                &&& (out[i].floating <==> p.is_floating)
                &&& opt_view(out[i].command) == opt_view(p.pane_command)
                &&& opt_view(out[i].cwd) == opt_view(p.pane_cwd)
                &&& out[i].tab_id == p.tab_id
                &&& out[i].tab_name@ == p.tab_name@
                &&& (out[i].title is Some <==> p.title@.len() > 0)
                &&& (out[i].title matches Some(t) ==> t@ == p.title@)
            },
{
    let l = listed_panes(panes, tab_position);
    assert forall|i: int| #![trigger out[i]] 0 <= i < out.len() implies {
        let p = l[i];
        &&& panes.contains(p)
        &&& (out[i].focused <==> p.is_focused)
        &&& (out[i].floating <==> p.is_floating)
        &&& opt_view(out[i].command) == opt_view(p.pane_command)
        &&& opt_view(out[i].cwd) == opt_view(p.pane_cwd)
        &&& out[i].tab_id == p.tab_id
        &&& out[i].tab_name@ == p.tab_name@
        &&& (out[i].title is Some <==> p.title@.len() > 0)
        &&& (out[i].title matches Some(t) ==> t@ == p.title@)
    } by {
        assert(reports_pane(out[i], l[i]));
        assert(l.contains(l[i]));
        panes.lemma_filter_contains_rev(listed_pred(tab_position), l[i]);
    }
}

/// `out` shows pane `p` under its qualified id.
pub open spec fn shows_pane(out: Seq<Pane>, p: ZellijPaneInfo) -> bool {
    exists|i: int|
        0 <= i < out.len() && #[trigger] out[i].id@ == (if p.is_plugin {
            "plugin_"@
        } else {
            "terminal_"@
        }) + decimal(p.id as nat)
}

/// A pane listing leaves no selectable pane out: every selectable pane
/// (of the requested tab position, when one is given) is shown, under
/// `plugin_N` or `terminal_N` as it is a plugin or not.
pub proof fn lemma_listing_shows_every_selectable_pane(
    out: Seq<Pane>,
    panes: Seq<ZellijPaneInfo>,
    tab_position: Option<u32>,
)
    requires
        reports_panes(out, listed_panes(panes, tab_position)),
    ensures
        forall|j: int|
            0 <= j < panes.len() && panes[j].is_selectable && (tab_position matches Some(pos)
                ==> panes[j].tab_position == pos) ==> shows_pane(out, #[trigger] panes[j]),
{
    let l = listed_panes(panes, tab_position);
    assert forall|j: int|
        0 <= j < panes.len() && panes[j].is_selectable && (tab_position matches Some(pos)
            ==> panes[j].tab_position == pos) implies shows_pane(out, #[trigger] panes[j]) by {
        panes.lemma_filter_contains(listed_pred(tab_position), j);
        let i = choose|i: int| 0 <= i < l.len() && l[i] == panes[j];
        assert(reports_pane(out[i], l[i]));
        assert(out[i].id@ == qualified_pane_id(panes[j]));
    }
}

fn clone_opt(o: &Option<String>) -> (r: Option<String>)
    ensures
        opt_view(r) == opt_view(*o),
{
    match o {
        Some(s) => Some(s.clone()),
        None => None,
    }
}

fn report_pane(p: &ZellijPaneInfo) -> (out: Pane)
    ensures
        reports_pane(out, *p),
{
    let digits = u32_to_string(p.id);
    let id = if p.is_plugin {
        concat("plugin_", digits.as_str())
    } else {
        concat("terminal_", digits.as_str())
    };
    let title = if p.title.as_str().is_empty() {
        None
    } else {
        Some(p.title.clone())
    };
    Pane {
        id,
        command: clone_opt(&p.pane_command),
        cwd: clone_opt(&p.pane_cwd),
        title,
        focused: p.is_focused,
        floating: p.is_floating,
        tab_id: p.tab_id,
        tab_name: p.tab_name.clone(),
    }
}

/// The listing of the selectable panes, optionally only those of one tab
/// position, in the order zellij gave them.
pub fn panes_from(panes: &Vec<ZellijPaneInfo>, tab_position: Option<u32>) -> (out: PanesOutput)
    ensures
        reports_panes(out.panes@, listed_panes(panes@, tab_position)),
{
    let ghost pred = listed_pred(tab_position);
    let mut out: Vec<Pane> = Vec::new();
    let mut i: usize = 0;
    while i < panes.len()
        invariant
            i <= panes.len(),
            pred == listed_pred(tab_position),
            reports_panes(out@, panes@.take(i as int).filter(pred)),
        decreases panes.len() - i,
    {
        proof {
            reveal_with_fuel(Seq::<_>::filter, 1);
            assert(panes@.take(i + 1).drop_last() == panes@.take(i as int));
            assert(panes@.take(i + 1).last() == panes@[i as int]);
        }
        let p = &panes[i];
        let keep = p.is_selectable && match tab_position {
            Some(pos) => p.tab_position == pos,
            None => true,
        };
        if keep {
            let entry = report_pane(p);
            out.push(entry);
        }
        i += 1;
    }
    assert(panes@.take(panes.len() as int) == panes@);
    PanesOutput { panes: out }
}

/// `r` is the listing of the decoded `panes` for the tab filter, given
/// the calls `c` made after `list-panes`: all selectable panes with no
/// call, or those at the position that the filter resolves to (a number
/// as it stands, a name through `query-tab-names`); a failure of that
/// resolution is passed on unchanged.
pub open spec fn panes_listed(
    tab_filter: Option<Seq<char>>,
    panes: Seq<ZellijPaneInfo>,
    c: Seq<Call>,
    r: Result<PanesOutput, ZjctlError>,
) -> bool {
    match tab_filter {
        None => c.len() == 0 && (r matches Ok(o) && reports_panes(o.panes@, listed_panes(panes, None))),
        Some(t) => exists|tr: Result<u32, ZjctlError>|
            #[trigger] tab_resolved(t, c, tr) && match tr {
                Ok(pos) => r matches Ok(o) && reports_panes(o.panes@, listed_panes(panes, Some(pos))),
                Err(e) => r == Err::<PanesOutput, ZjctlError>(e),
            },
    }
}

/// `r` is the outcome of listing the panes with the given tab filter,
/// given the calls `c`: first `list-panes`, its failure passed on
/// unchanged with no further call; output that does not decode is a
/// parse error with no further call; otherwise the listing.
pub open spec fn panes_list_outcome<Z: ZellijRunner>(
    tab_filter: Option<Seq<char>>,
    c: Seq<Call>,
    r: Result<PanesOutput, ZjctlError>,
) -> bool {
    &&& c.len() >= 1
    &&& c[0].0 == action_argv(list_panes_args())
    &&& match c[0].1 {
        Err(e) => c.len() == 1 && r == Err::<PanesOutput, ZjctlError>(e),
        Ok(raw) => exists|dec: Result<Vec<ZellijPaneInfo>, String>|
            #[trigger] panes_decoded::<Z>(raw@, dec) && match dec {
                Ok(panes) => panes_listed(tab_filter, panes@, c.skip(1), r),
                Err(msg) => c.len() == 1 && (r matches Err(e) && is_plain(
                    e,
                    ErrorCode::ParseError,
                    "Failed to parse panes: "@ + msg@,
                )),
            },
    }
}

/// Lists the selectable panes of the session; with `tab_filter`, only
/// the panes of that tab (given by index or name).  A failure of the
/// `list-panes` query is passed on unchanged.
pub fn list<Z: ZellijRunner>(tab_filter: Option<&str>, zellij: &mut Client<Z>) -> (r: Result<
    PanesOutput,
    ZjctlError,
>)
    ensures
        extends(old(zellij).calls(), final(zellij).calls()),
        panes_list_outcome::<Z>(opt_str_view(tab_filter), calls_since(old(zellij).calls(), final(zellij).calls()), r),
{
    let ghost s0 = zellij.calls();
    let args: Vec<&str> = vec!["list-panes", "--json", "--all"];
    let out = zellij.run_action(args.as_slice());
    let ghost s1 = zellij.calls();
    assert(str_views(args@) =~= list_panes_args());
    assert(calls_since(s0, s1) =~= seq![(action_argv(list_panes_args()), out)]);
    assert(s1.take(s0.len() as int) =~= s0);
    let panes_raw = match out {
        Ok(raw) => raw,
        Err(e) => return Err(e),
    };
    let dec = Z::decode_panes(panes_raw.as_str());
    assert(panes_decoded::<Z>(panes_raw@, dec));
    let panes = match dec {
        Ok(p) => p,
        Err(e) => {
            let msg = concat("Failed to parse panes: ", e.as_str());
            return Err(ZjctlError::parse_error(msg.as_str()));
        },
    };
    let r = match tab_filter {
        Some(filter) => {
            let tr = resolve_tab(filter, zellij);
            proof {
                lemma_calls_chain(s0, s1, zellij.calls());
            }
            assert(tab_resolved(Some(filter@)->0, calls_since(s0, zellij.calls()).skip(1), tr));
            let r = match tr {
                Ok(i) => Ok(panes_from(&panes, Some(i))),
                Err(e) => Err(e),
            };
            assert(panes_listed(Some(filter@), panes@, calls_since(s0, zellij.calls()).skip(1), r));
            r
        },
        None => {
            assert(calls_since(s0, zellij.calls()).skip(1) =~= Seq::<Call>::empty());
            Ok(panes_from(&panes, None))
        },
    };
    assert(panes_listed(opt_str_view(tab_filter), panes@, calls_since(s0, zellij.calls()).skip(1), r));
    r
}

// ---------------------------------------------------------------------
// Argument lists of the zellij actions
// ---------------------------------------------------------------------

pub open spec fn flag_if(on: bool, flag: Seq<char>) -> Seq<Seq<char>> {
    if on {
        seq![flag]
    } else {
        seq![]
    }
}

pub open spec fn option_pair(flag: Seq<char>, value: Option<Seq<char>>) -> Seq<Seq<char>> {
    match value {
        Some(v) => seq![flag, v],
        None => seq![],
    }
}

/// `dump-screen --pane-id <pane> [--full] [--ansi]`.
pub open spec fn dump_screen_args(pane_id: Seq<char>, full: bool, ansi: bool) -> Seq<Seq<char>> {
    seq!["dump-screen"@, "--pane-id"@, pane_id] + flag_if(full, "--full"@) + flag_if(ansi, "--ansi"@)
}

/// `write-chars --pane-id <pane> <text>`.
pub open spec fn write_chars_args(pane_id: Seq<char>, text: Seq<char>) -> Seq<Seq<char>> {
    seq!["write-chars"@, "--pane-id"@, pane_id, text]
}

/// `send-keys --pane-id <pane> <keys...>`.
pub open spec fn send_keys_args(pane_id: Seq<char>, keys: Seq<Seq<char>>) -> Seq<Seq<char>> {
    seq!["send-keys"@, "--pane-id"@, pane_id] + keys
}

/// `focus-pane-id <pane>`.
pub open spec fn focus_pane_args(pane_id: Seq<char>) -> Seq<Seq<char>> {
    seq!["focus-pane-id"@, pane_id]
}

/// `new-pane` with each option that is set, then `-- <command...>` when a
/// command is given.
pub open spec fn new_pane_args(
    direction: Option<Seq<char>>,
    floating: bool,
    name: Option<Seq<char>>,
    cwd: Option<Seq<char>>,
    tab_id: Option<u32>,
    command: Seq<Seq<char>>,
) -> Seq<Seq<char>> {
    seq!["new-pane"@] + option_pair("--direction"@, direction) + flag_if(floating, "--floating"@)
        + option_pair("--name"@, name) + option_pair("--cwd"@, cwd) + option_pair(
        "--tab-id"@,
        match tab_id {
            Some(n) => Some(decimal(n as nat)),
            None => None,
        },
    ) + (if command.len() > 0 {
        seq!["--"@] + command
    } else {
        seq![]
    })
}

/// The full command line `zellij action <args...>`.
pub open spec fn zellij_action(args: Seq<Seq<char>>) -> Seq<Seq<char>> {
    seq!["zellij"@, "action"@] + args
}

pub fn push_str(v: &mut Vec<String>, s: &str)
    ensures
        string_views(final(v)@) == string_views(old(v)@).push(s@),
{
    let t = to_string(s);
    v.push(t);
    assert(string_views(v@) =~= string_views(old(v)@).push(s@));
}

pub fn push_option(v: &mut Vec<String>, flag: &str, value: &Option<String>)
    ensures
        string_views(final(v)@) == string_views(old(v)@) + option_pair(flag@, opt_view(*value)),
{
    match value {
        Some(s) => {
            push_str(v, flag);
            push_str(v, s.as_str());
        },
        None => {
            assert(string_views(v@) =~= string_views(v@) + Seq::<Seq<char>>::empty());
        },
    }
}

pub fn push_flag(v: &mut Vec<String>, on: bool, flag: &str)
    ensures
        string_views(final(v)@) == string_views(old(v)@) + flag_if(on, flag@),
{
    if on {
        push_str(v, flag);
    } else {
        assert(string_views(v@) =~= string_views(v@) + Seq::<Seq<char>>::empty());
    }
}

pub fn push_all(v: &mut Vec<String>, items: &Vec<String>)
    ensures
        string_views(final(v)@) == string_views(old(v)@) + string_views(items@),
{
    let ghost start = string_views(v@);
    let mut i: usize = 0;
    while i < items.len()
        invariant
            i <= items.len(),
            string_views(v@) == start + string_views(items@).take(i as int),
        decreases items.len() - i,
    {
        push_str(v, items[i].as_str());
        assert(string_views(items@).take(i + 1) == string_views(items@).take(i as int).push(
            items@[i as int]@,
        ));
        i += 1;
    }
    assert(string_views(items@).take(items.len() as int) == string_views(items@));
}

/// The arguments of `dump-screen` for a pane.
pub fn dump_screen_command(pane_id: &str, full: bool, ansi: bool) -> (r: Vec<String>)
    ensures
        string_views(r@) == dump_screen_args(pane_id@, full, ansi),
{
    let mut r: Vec<String> = Vec::new();
    push_str(&mut r, "dump-screen");
    push_str(&mut r, "--pane-id");
    push_str(&mut r, pane_id);
    push_flag(&mut r, full, "--full");
    push_flag(&mut r, ansi, "--ansi");
    r
}

/// The arguments of `new-pane` for the given options.
pub fn new_pane_command(
    direction: &Option<String>,
    floating: bool,
    name: &Option<String>,
    cwd: &Option<String>,
    tab_id: Option<u32>,
    command: &Vec<String>,
) -> (r: Vec<String>)
    ensures
        string_views(r@) == new_pane_args(
            opt_view(*direction),
            floating,
            opt_view(*name),
            opt_view(*cwd),
            tab_id,
            string_views(command@),
        ),
{
    let mut r: Vec<String> = Vec::new();
    push_str(&mut r, "new-pane");
    push_option(&mut r, "--direction", direction);
    push_flag(&mut r, floating, "--floating");
    push_option(&mut r, "--name", name);
    push_option(&mut r, "--cwd", cwd);
    let tab = match tab_id {
        Some(n) => Some(u32_to_string(n)),
        None => None,
    };
    push_option(&mut r, "--tab-id", &tab);
    if command.len() > 0 {
        let ghost before = string_views(r@);
        push_str(&mut r, "--");
        push_all(&mut r, command);
        assert(string_views(r@) == before + (seq!["--"@] + string_views(command@)));
    } else {
        assert(string_views(r@) =~= string_views(r@) + Seq::<Seq<char>>::empty());
    }
    r
}

/// `zellij action` followed by the given arguments.
pub fn with_zellij_action(args: &Vec<String>) -> (r: Vec<String>)
    ensures
        string_views(r@) == zellij_action(string_views(args@)),
{
    let mut r: Vec<String> = Vec::new();
    push_str(&mut r, "zellij");
    push_str(&mut r, "action");
    push_all(&mut r, args);
    r
}

// ---------------------------------------------------------------------
// Actions on one pane
// ---------------------------------------------------------------------

/// `r` is the outcome of dumping the screen of pane `id` with the calls
/// `c`: that one `dump-screen` call, its content as zellij printed it,
/// or its error unchanged.
pub open spec fn screen_read(
    id: Seq<char>,
    full: bool,
    ansi: bool,
    c: Seq<Call>,
    r: Result<PaneContent, ZjctlError>,
) -> bool {
    &&& one_call(c, action_argv(dump_screen_args(id, full, ansi)))
    &&& match c[0].1 {
        Ok(content) => r matches Ok(pc) && pc.pane_id@ == id && pc.content == content,
        Err(e) => r == Err::<PaneContent, ZjctlError>(e),
    }
}

/// `r` is the outcome of reading the pane `target` with the calls `c`:
/// it is first found through one `list-panes` call, and only when it is
/// found is its screen dumped.
pub open spec fn read_outcome<Z: ZellijRunner>(
    target: Seq<char>,
    full: bool,
    ansi: bool,
    c: Seq<Call>,
    r: Result<PaneContent, ZjctlError>,
) -> bool {
    &&& c.len() >= 1
    &&& exists|lr: Result<String, ZjctlError>|
        #[trigger] pane_queried::<Z>(target, c.take(1), lr) && match lr {
            Ok(id) => screen_read(id@, full, ansi, c.skip(1), r),
            Err(e) => c.len() == 1 && r == Err::<PaneContent, ZjctlError>(e),
        }
}

/// Reads the screen of a pane (with `full`, its whole scrollback; with
/// `ansi`, keeping escape codes).  The pane must be one that
/// `list-panes` reports: a closed pane is an invalid target.
pub fn read<Z: ZellijRunner>(target: &str, full: bool, ansi: bool, zellij: &mut Client<Z>) -> (r: Result<
    PaneContent,
    ZjctlError,
>)
    ensures
        extends(old(zellij).calls(), final(zellij).calls()),
        read_outcome::<Z>(target@, full, ansi, calls_since(old(zellij).calls(), final(zellij).calls()), r),
{
    let ghost s0 = zellij.calls();
    let located = locate_pane(target, zellij);
    let ghost s1 = zellij.calls();
    assert(calls_since(s0, s1).take(1) =~= calls_since(s0, s1));
    assert(pane_queried::<Z>(target@, calls_since(s0, s1).take(1), located));
    let pane_id = match located {
        Ok(id) => id,
        Err(e) => return Err(e),
    };
    let args = dump_screen_command(pane_id.as_str(), full, ansi);
    let out = run_action_args(zellij, &args);
    let ghost s2 = zellij.calls();
    assert(calls_since(s1, s2) =~= seq![(action_argv(dump_screen_args(pane_id@, full, ansi)), out)]);
    assert(s2.take(s1.len() as int) =~= s1);
    proof {
        lemma_calls_chain(s0, s1, s2);
    }
    match out {
        Ok(content) => Ok(PaneContent { pane_id, content }),
        Err(e) => Err(e),
    }
}

/// When a read dumps a screen, it asks for the scrollback exactly when
/// `full` is requested and for escape codes exactly when `ansi` is,
/// each independently of the other: the `dump-screen` call is the second
/// one, after `list-panes`, and its options after the pane id hold
/// `--full` iff `full` and `--ansi` iff `ansi`.
pub proof fn lemma_read_passes_screen_options<Z: ZellijRunner>(
    target: Seq<char>,
    full: bool,
    ansi: bool,
    c: Seq<Call>,
    r: Result<PaneContent, ZjctlError>,
)
    requires
        read_outcome::<Z>(target, full, ansi, c, r),
        c.len() == 2,
    ensures
        c[0].0 == seq!["action"@, "list-panes"@, "--json"@, "--all"@],
        c[1].0.len() >= 4,
        c[1].0.take(3) == seq!["action"@, "dump-screen"@, "--pane-id"@],
        c[1].0.skip(4).contains("--full"@) <==> full,
        c[1].0.skip(4).contains("--ansi"@) <==> ansi,
{
    let lr = choose|lr: Result<String, ZjctlError>|
        #[trigger] pane_queried::<Z>(target, c.take(1), lr) && match lr {
            Ok(id) => screen_read(id@, full, ansi, c.skip(1), r),
            Err(e) => c.len() == 1 && r == Err::<PaneContent, ZjctlError>(e),
        };
    let id = lr->Ok_0@;
    assert(c.take(1)[0] == c[0]);
    assert(c.skip(1)[0] == c[1]);
    let argv = c[1].0;
    assert(argv == action_argv(dump_screen_args(id, full, ansi)));
    let opts = flag_if(full, "--full"@) + flag_if(ansi, "--ansi"@);
    assert(argv.skip(4) =~= opts);
    assert(argv.take(3) =~= seq!["action"@, "dump-screen"@, "--pane-id"@]);
    reveal_strlit("--full");
    reveal_strlit("--ansi");
    assert("--full"@[2] != "--ansi"@[2]);
    if full && ansi {
        assert(opts =~= seq!["--full"@, "--ansi"@]);
        assert(opts[0] == "--full"@);
        assert(opts[1] == "--ansi"@);
        assert(opts.contains("--full"@));
        assert(opts.contains("--ansi"@));
    } else if full {
        assert(opts =~= seq!["--full"@]);
        assert(opts[0] == "--full"@);
        assert(opts.contains("--full"@));
        assert(!opts.contains("--ansi"@));
    } else if ansi {
        assert(opts =~= seq!["--ansi"@]);
        assert(opts[0] == "--ansi"@);
        assert(opts.contains("--ansi"@));
        assert(!opts.contains("--full"@));
    } else {
        assert(opts =~= Seq::<Seq<char>>::empty());
        assert(!opts.contains("--ansi"@));
        assert(!opts.contains("--full"@));
    }
    assert(c[0].0 =~= seq!["action"@, "list-panes"@, "--json"@, "--all"@]);
}

/// `r` is the outcome of an action on the resolved pane `id` behind the
/// self-write guard, with the calls `c`: when the guard refuses, its
/// error and no call at all (also on a dry run); otherwise the action
/// with `args` as `action_done` says.
pub open spec fn guarded_action(
    id: Seq<char>,
    args: Seq<Seq<char>>,
    dry_run: bool,
    no_guard: bool,
    self_pane: Option<Seq<char>>,
    c: Seq<Call>,
    r: Result<Vec<String>, ZjctlError>,
) -> bool {
    if self_write_refused(id, no_guard, self_pane) {
        c.len() == 0 && (r matches Err(e) && self_write_error(e, id, self_pane->0))
    } else {
        action_done(args, dry_run, c, r)
    }
}

/// `r` is the outcome of typing `text` into the pane `target` with the
/// calls `c`: the pane's resolution, then the guarded `write-chars`.
pub open spec fn write_outcome<Z: ZellijRunner>(
    target: Seq<char>,
    text: Seq<char>,
    dry_run: bool,
    no_guard: bool,
    self_pane: Option<Seq<char>>,
    c: Seq<Call>,
    r: Result<Vec<String>, ZjctlError>,
) -> bool {
    let k = pane_resolution_len(target);
    &&& c.len() >= k
    &&& exists|rr: Result<String, ZjctlError>|
        #[trigger] pane_resolved::<Z>(target, c.take(k), rr) && match rr {
            Ok(id) => guarded_action(id@, write_chars_args(id@, text), dry_run, no_guard, self_pane, c.skip(k), r),
            Err(e) => c.len() == k && r == Err::<Vec<String>, ZjctlError>(e),
        }
}

/// `r` is the outcome of sending `keys` to the pane `target` with the
/// calls `c`: the pane's resolution, then the guarded `send-keys`.
pub open spec fn send_keys_outcome<Z: ZellijRunner>(
    target: Seq<char>,
    keys: Seq<Seq<char>>,
    dry_run: bool,
    no_guard: bool,
    self_pane: Option<Seq<char>>,
    c: Seq<Call>,
    r: Result<Vec<String>, ZjctlError>,
) -> bool {
    let k = pane_resolution_len(target);
    &&& c.len() >= k
    &&& exists|rr: Result<String, ZjctlError>|
        #[trigger] pane_resolved::<Z>(target, c.take(k), rr) && match rr {
            Ok(id) => guarded_action(id@, send_keys_args(id@, keys), dry_run, no_guard, self_pane, c.skip(k), r),
            Err(e) => c.len() == k && r == Err::<Vec<String>, ZjctlError>(e),
        }
}

/// `r` is the outcome of focusing the pane `target` with the calls `c`:
/// the pane's resolution, then `focus-pane-id`.
pub open spec fn focus_outcome<Z: ZellijRunner>(
    target: Seq<char>,
    dry_run: bool,
    c: Seq<Call>,
    r: Result<Vec<String>, ZjctlError>,
) -> bool {
    let k = pane_resolution_len(target);
    &&& c.len() >= k
    &&& exists|rr: Result<String, ZjctlError>|
        #[trigger] pane_resolved::<Z>(target, c.take(k), rr) && match rr {
            Ok(id) => action_done(focus_pane_args(id@), dry_run, c.skip(k), r),
            Err(e) => c.len() == k && r == Err::<Vec<String>, ZjctlError>(e),
        }
}

/// Types `text` into a pane.  The self-write guard runs first, also on a
/// dry run; a dry run then stops without calling zellij.  The result is
/// the `write-chars` argument list that ran, or would have run.
pub fn write<Z: ZellijRunner>(
    target: &str,
    text: &str,
    zellij: &mut Client<Z>,
    dry_run: bool,
    no_guard: bool,
    self_pane: Option<&str>,
) -> (r: Result<Vec<String>, ZjctlError>)
    ensures
        extends(old(zellij).calls(), final(zellij).calls()),
        write_outcome::<Z>(
            target@,
            text@,
            dry_run,
            no_guard,
            opt_str_view(self_pane),
            calls_since(old(zellij).calls(), final(zellij).calls()),
            r,
        ),
{
    let ghost s0 = zellij.calls();
    let resolved = resolve_pane(target, zellij);
    let ghost s1 = zellij.calls();
    assert(calls_since(s0, s1).take(pane_resolution_len(target@)) =~= calls_since(s0, s1));
    let pane_id = match resolved {
        Ok(id) => id,
        Err(e) => {
            assert(pane_resolved::<Z>(target@, calls_since(s0, s1).take(pane_resolution_len(target@)), resolved));
            return Err(e);
        },
    };
    if let Err(e) = check_self_write(pane_id.as_str(), no_guard, self_pane) {
        assert(calls_since(s0, s1).skip(pane_resolution_len(target@)) =~= Seq::<Call>::empty());
        assert(pane_resolved::<Z>(target@, calls_since(s0, s1).take(pane_resolution_len(target@)), resolved));
        return Err(e);
    }
    let mut args: Vec<String> = Vec::new();
    push_str(&mut args, "write-chars");
    push_str(&mut args, "--pane-id");
    push_str(&mut args, pane_id.as_str());
    push_str(&mut args, text);
    assert(string_views(args@) == write_chars_args(pane_id@, text@));
    let r = perform(zellij, args, dry_run);
    proof {
        lemma_calls_chain(s0, s1, zellij.calls());
    }
    assert(pane_resolved::<Z>(target@, calls_since(s0, zellij.calls()).take(pane_resolution_len(target@)), resolved));
    r
}

/// A successful `send-keys` hands zellij every key given, in the order
/// given, after `send-keys --pane-id <pane>`: the argument list has three
/// more entries than there are keys and ends with exactly the keys; on a
/// real run it is the last call made, as `zellij action <arguments>`.
pub proof fn lemma_send_keys_sends_every_key<Z: ZellijRunner>(
    target: Seq<char>,
    keys: Seq<Seq<char>>,
    dry_run: bool,
    no_guard: bool,
    self_pane: Option<Seq<char>>,
    c: Seq<Call>,
    r: Result<Vec<String>, ZjctlError>,
)
    requires
        send_keys_outcome::<Z>(target, keys, dry_run, no_guard, self_pane, c, r),
        r is Ok,
    ensures
        string_views(r->Ok_0@).len() == keys.len() + 3,
        string_views(r->Ok_0@)[0] == "send-keys"@,
        string_views(r->Ok_0@)[1] == "--pane-id"@,
        direct_pane(target) matches Some(d) ==> string_views(r->Ok_0@)[2] == d,
        forall|i: int| 0 <= i < keys.len() ==> string_views(r->Ok_0@)[3 + i] == #[trigger] keys[i],
        !dry_run ==> c.len() >= 1 && c.last().0 == seq!["action"@] + string_views(r->Ok_0@),
        dry_run ==> c.len() == pane_resolution_len(target),
{
    let k = pane_resolution_len(target);
    let rr = choose|rr: Result<String, ZjctlError>|
        #[trigger] pane_resolved::<Z>(target, c.take(k), rr) && match rr {
            Ok(id) => guarded_action(id@, send_keys_args(id@, keys), dry_run, no_guard, self_pane, c.skip(k), r),
            Err(e) => c.len() == k && r == Err::<Vec<String>, ZjctlError>(e),
        };
    let id = rr->Ok_0@;
    let args = send_keys_args(id, keys);
    assert(string_views(r->Ok_0@) == args);
    assert forall|i: int| 0 <= i < keys.len() implies string_views(r->Ok_0@)[3 + i] == #[trigger] keys[i] by {
        assert(args[3 + i] == keys[i]);
    }
    if !dry_run {
        assert(c.skip(k)[0] == c[k]);
    }
}

/// A successful `write` hands zellij exactly the text given, for the
/// resolved pane: the argument list is `write-chars --pane-id <pane>
/// <text>`, the pane being the direct form when the target is one; on a
/// real run it is the last call made, on a dry run no action is called.
pub proof fn lemma_write_types_the_text<Z: ZellijRunner>(
    target: Seq<char>,
    text: Seq<char>,
    dry_run: bool,
    no_guard: bool,
    self_pane: Option<Seq<char>>,
    c: Seq<Call>,
    r: Result<Vec<String>, ZjctlError>,
)
    requires
        write_outcome::<Z>(target, text, dry_run, no_guard, self_pane, c, r),
        r is Ok,
    ensures
        string_views(r->Ok_0@).len() == 4,
        string_views(r->Ok_0@)[0] == "write-chars"@,
        string_views(r->Ok_0@)[1] == "--pane-id"@,
        string_views(r->Ok_0@)[3] == text,
        direct_pane(target) matches Some(d) ==> string_views(r->Ok_0@)[2] == d,
        !dry_run ==> c.len() >= 1 && c.last().0 == seq!["action"@] + string_views(r->Ok_0@),
        dry_run ==> c.len() == pane_resolution_len(target),
{
    let k = pane_resolution_len(target);
    let rr = choose|rr: Result<String, ZjctlError>|
        #[trigger] pane_resolved::<Z>(target, c.take(k), rr) && match rr {
            Ok(id) => guarded_action(id@, write_chars_args(id@, text), dry_run, no_guard, self_pane, c.skip(k), r),
            Err(e) => c.len() == k && r == Err::<Vec<String>, ZjctlError>(e),
        };
    if !dry_run {
        assert(c.skip(k)[0] == c[k]);
    }
}

/// The self-write guard refuses a write into the program's own pane
/// before anything is sent, also on a dry run: with the guard on and the
/// target naming pane `terminal_<own>` directly, the result is the guard
/// error (exit code 3) and zellij is not called at all.
pub proof fn lemma_guard_blocks_own_pane<Z: ZellijRunner>(
    target: Seq<char>,
    text: Seq<char>,
    dry_run: bool,
    own: Seq<char>,
    c: Seq<Call>,
    r: Result<Vec<String>, ZjctlError>,
)
    requires
        write_outcome::<Z>(target, text, dry_run, false, Some(own), c, r),
        direct_pane(target) == Some("terminal_"@ + own),
    ensures
        c.len() == 0,
        r matches Err(e) && e.error == ErrorCode::SelfWriteBlocked && e.exit_code == 3,
{
    let d = "terminal_"@ + own;
    assert(d.take("terminal_"@.len() as int) =~= "terminal_"@);
    assert(crate::safety::is_qualified(d));
    assert(self_write_refused(d, false, Some(own)));
    let rr = choose|rr: Result<String, ZjctlError>|
        #[trigger] pane_resolved::<Z>(target, c.take(0), rr) && match rr {
            Ok(id) => guarded_action(id@, write_chars_args(id@, text), dry_run, false, Some(own), c.skip(0), r),
            Err(e) => c.len() == 0 && r == Err::<Vec<String>, ZjctlError>(e),
        };
    assert(c.skip(0) =~= c);
}

/// Sends key names to a pane, behind the same guard as `write`.  The
/// result is the `send-keys` argument list that ran, or would have run.
pub fn send_keys<Z: ZellijRunner>(
    target: &str,
    keys: &[String],
    zellij: &mut Client<Z>,
    dry_run: bool,
    no_guard: bool,
    self_pane: Option<&str>,
) -> (r: Result<Vec<String>, ZjctlError>)
    ensures
        extends(old(zellij).calls(), final(zellij).calls()),
        send_keys_outcome::<Z>(
            target@,
            string_views(keys@),
            dry_run,
            no_guard,
            opt_str_view(self_pane),
            calls_since(old(zellij).calls(), final(zellij).calls()),
            r,
        ),
{
    let ghost s0 = zellij.calls();
    let resolved = resolve_pane(target, zellij);
    let ghost s1 = zellij.calls();
    assert(calls_since(s0, s1).take(pane_resolution_len(target@)) =~= calls_since(s0, s1));
    let pane_id = match resolved {
        Ok(id) => id,
        Err(e) => {
            assert(pane_resolved::<Z>(target@, calls_since(s0, s1).take(pane_resolution_len(target@)), resolved));
            return Err(e);
        },
    };
    if let Err(e) = check_self_write(pane_id.as_str(), no_guard, self_pane) {
        assert(calls_since(s0, s1).skip(pane_resolution_len(target@)) =~= Seq::<Call>::empty());
        assert(pane_resolved::<Z>(target@, calls_since(s0, s1).take(pane_resolution_len(target@)), resolved));
        return Err(e);
    }
    let mut args: Vec<String> = Vec::new();
    push_str(&mut args, "send-keys");
    push_str(&mut args, "--pane-id");
    push_str(&mut args, pane_id.as_str());
    let ghost before = string_views(args@);
    let mut i: usize = 0;
    while i < keys.len()
        invariant
            i <= keys.len(),
            string_views(args@) == before + string_views(keys@).take(i as int),
        decreases keys.len() - i,
    {
        push_str(&mut args, keys[i].as_str());
        assert(string_views(keys@).take(i + 1) == string_views(keys@).take(i as int).push(
            keys@[i as int]@,
        ));
        i += 1;
    }
    assert(string_views(keys@).take(keys.len() as int) == string_views(keys@));
    assert(string_views(args@) == send_keys_args(pane_id@, string_views(keys@)));
    let r = perform(zellij, args, dry_run);
    proof {
        lemma_calls_chain(s0, s1, zellij.calls());
    }
    assert(pane_resolved::<Z>(target@, calls_since(s0, zellij.calls()).take(pane_resolution_len(target@)), resolved));
    r
}

/// Focuses a pane.  The result is the `focus-pane-id` argument list that
/// ran, or would have run.
pub fn focus<Z: ZellijRunner>(target: &str, zellij: &mut Client<Z>, dry_run: bool) -> (r: Result<
    Vec<String>,
    ZjctlError,
>)
    ensures
        extends(old(zellij).calls(), final(zellij).calls()),
        focus_outcome::<Z>(target@, dry_run, calls_since(old(zellij).calls(), final(zellij).calls()), r),
{
    let ghost s0 = zellij.calls();
    let resolved = resolve_pane(target, zellij);
    let ghost s1 = zellij.calls();
    assert(calls_since(s0, s1).take(pane_resolution_len(target@)) =~= calls_since(s0, s1));
    let pane_id = match resolved {
        Ok(id) => id,
        Err(e) => {
            assert(pane_resolved::<Z>(target@, calls_since(s0, s1).take(pane_resolution_len(target@)), resolved));
            return Err(e);
        },
    };
    let mut args: Vec<String> = Vec::new();
    push_str(&mut args, "focus-pane-id");
    push_str(&mut args, pane_id.as_str());
    assert(string_views(args@) == focus_pane_args(pane_id@));
    let r = perform(zellij, args, dry_run);
    proof {
        lemma_calls_chain(s0, s1, zellij.calls());
    }
    assert(pane_resolved::<Z>(target@, calls_since(s0, zellij.calls()).take(pane_resolution_len(target@)), resolved));
    r
}

/// The options of `panes open`.
pub struct OpenPaneOptions {
    pub direction: Option<String>,
    pub floating: bool,
    pub name: Option<String>,
    pub cwd: Option<String>,
    pub tab_id: Option<u32>,
    pub command: Vec<String>,
    pub dry_run: bool,
}

impl OpenPaneOptions {
    pub open spec fn args(&self) -> Seq<Seq<char>> {
        new_pane_args(
            opt_view(self.direction),
            self.floating,
            opt_view(self.name),
            opt_view(self.cwd),
            self.tab_id,
            string_views(self.command@),
        )
    }
}

/// `r` is the outcome of opening a pane with `args` and the calls `c`:
/// that one `new-pane` call, the id that zellij printed, trimmed, or its
/// error unchanged.
pub open spec fn pane_opened(args: Seq<Seq<char>>, c: Seq<Call>, r: Result<String, ZjctlError>) -> bool {
    &&& one_call(c, action_argv(args))
    &&& match c[0].1 {
        Ok(printed) => r matches Ok(id) && id@ == trim(printed@),
        Err(e) => r == Err::<String, ZjctlError>(e),
    }
}

/// Opens a pane and returns the id zellij prints for it, trimmed.  A dry
/// run calls nothing and returns the empty id.
pub fn open_pane<Z: ZellijRunner>(options: &OpenPaneOptions, zellij: &mut Client<Z>) -> (r: Result<String, ZjctlError>)
    ensures
        extends(old(zellij).calls(), final(zellij).calls()),
        options.dry_run ==> calls_since(old(zellij).calls(), final(zellij).calls()).len() == 0 && (r matches Ok(
            id,
        ) && id@.len() == 0),
        !options.dry_run ==> pane_opened(options.args(), calls_since(old(zellij).calls(), final(zellij).calls()), r),
{
    let ghost s0 = zellij.calls();
    let args = new_pane_command(
        &options.direction,
        options.floating,
        &options.name,
        &options.cwd,
        options.tab_id,
        &options.command,
    );
    if options.dry_run {
        assert(calls_since(s0, zellij.calls()) =~= Seq::<Call>::empty());
        assert(zellij.calls().take(s0.len() as int) =~= s0);
        return Ok(String::new());
    }
    let out = run_action_args(zellij, &args);
    assert(calls_since(s0, zellij.calls()) =~= seq![(action_argv(options.args()), out)]);
    assert(zellij.calls().take(s0.len() as int) =~= s0);
    match out {
        Ok(output) => Ok(trim_str(output.as_str())),
        Err(e) => Err(e),
    }
}

// ---------------------------------------------------------------------
// Dispatch
// ---------------------------------------------------------------------

/// `r` is what is printed for an action whose outcome is `a`: on a dry
/// run the full zellij command line, otherwise `Done`; an error is
/// passed on unchanged.
pub open spec fn action_emitted(
    a: Result<Vec<String>, ZjctlError>,
    dry_run: bool,
    r: Result<Emission, ZjctlError>,
) -> bool {
    match a {
        Ok(cmd) => if dry_run {
            r matches Ok(Emission::DryRun(line)) && string_views(line@) == zellij_action(string_views(cmd@))
        } else {
            r == Ok::<Emission, ZjctlError>(Emission::Done)
        },
        Err(e) => r == Err::<Emission, ZjctlError>(e),
    }
}

/// `r` is the outcome of carrying out the `panes` verb `verb` with the
/// calls `c`.  On a dry run, `list`, `read` and `open` report their
/// command line and call nothing; `write`, `send-keys` and `focus`
/// resolve their pane and pass the guard first.
pub open spec fn panes_ran<Z: ZellijRunner>(
    verb: PanesVerb,
    dry_run: bool,
    no_guard: bool,
    self_pane: Option<Seq<char>>,
    c: Seq<Call>,
    r: Result<Emission, ZjctlError>,
) -> bool {
    match verb {
        PanesVerb::List { tab } => if dry_run {
            c.len() == 0 && (r matches Ok(Emission::DryRun(cmd)) && string_views(cmd@) == zellij_action(list_panes_args()))
        } else {
            exists|lr: Result<PanesOutput, ZjctlError>|
                #[trigger] panes_list_outcome::<Z>(opt_view(tab), c, lr) && match lr {
                    Ok(o) => r == Ok::<Emission, ZjctlError>(Emission::Panes(o)),
                    Err(e) => r == Err::<Emission, ZjctlError>(e),
                }
        },
        PanesVerb::Read { pane, full, ansi } => if dry_run {
            c.len() == 0 && (r matches Ok(Emission::DryRun(cmd)) && string_views(cmd@) == zellij_action(
                dump_screen_args(pane@, full, ansi),
            ))
        } else {
            exists|rr: Result<PaneContent, ZjctlError>|
                #[trigger] read_outcome::<Z>(pane@, full, ansi, c, rr) && match rr {
                    Ok(pc) => r == Ok::<Emission, ZjctlError>(Emission::Content(pc)),
                    Err(e) => r == Err::<Emission, ZjctlError>(e),
                }
        },
        PanesVerb::Write { pane, text } => exists|wr: Result<Vec<String>, ZjctlError>|
            #[trigger] write_outcome::<Z>(pane@, text@, dry_run, no_guard, self_pane, c, wr)
                && action_emitted(wr, dry_run, r),
        PanesVerb::SendKeys { pane, keys } => exists|wr: Result<Vec<String>, ZjctlError>|
            #[trigger] send_keys_outcome::<Z>(pane@, string_views(keys@), dry_run, no_guard, self_pane, c, wr)
                && action_emitted(wr, dry_run, r),
        PanesVerb::Focus { pane } => exists|wr: Result<Vec<String>, ZjctlError>|
            #[trigger] focus_outcome::<Z>(pane@, dry_run, c, wr) && action_emitted(wr, dry_run, r),
        PanesVerb::Open { direction, floating, name, cwd, tab_id, command } => {
            let args = new_pane_args(
                opt_view(direction),
                floating,
                opt_view(name),
                opt_view(cwd),
                tab_id,
                string_views(command@),
            );
            if dry_run {
                c.len() == 0 && (r matches Ok(Emission::DryRun(cmd)) && string_views(cmd@) == zellij_action(args))
            } else {
                exists|or: Result<String, ZjctlError>|
                    #[trigger] pane_opened(args, c, or) && match or {
                        Ok(id) => r == Ok::<Emission, ZjctlError>(Emission::OpenedPane(id)),
                        Err(e) => r == Err::<Emission, ZjctlError>(e),
                    }
            }
        },
    }
}

/// Carries out a `panes` verb and returns what is to be printed.  On a
/// dry run, mutations report the full zellij command line instead of
/// running it; `list` and `read` report theirs without resolving.
pub fn run<Z: ZellijRunner>(
    verb: PanesVerb,
    zellij: &mut Client<Z>,
    dry_run: bool,
    no_guard: bool,
    self_pane: Option<&str>,
) -> (r: Result<Emission, ZjctlError>)
    ensures
        !dry_run ==> (r matches Ok(em) ==> !(em is DryRun)),
        dry_run ==> (r matches Ok(em) ==> em is DryRun),
        extends(old(zellij).calls(), final(zellij).calls()),
        panes_ran::<Z>(verb, dry_run, no_guard, opt_str_view(self_pane), calls_since(old(zellij).calls(), final(zellij).calls()), r),
{
    let ghost s0 = zellij.calls();
    match verb {
        PanesVerb::List { tab } => {
            if dry_run {
                let mut args: Vec<String> = Vec::new();
                push_str(&mut args, "list-panes");
                push_str(&mut args, "--json");
                push_str(&mut args, "--all");
                assert(string_views(args@) =~= list_panes_args());
                assert(calls_since(s0, zellij.calls()) =~= Seq::<Call>::empty());
                assert(zellij.calls().take(s0.len() as int) =~= s0);
                return Ok(Emission::DryRun(with_zellij_action(&args)));
            }
            let filter = match &tab {
                Some(t) => Some(t.as_str()),
                None => None,
            };
            assert(opt_str_view(filter) == opt_view(tab));
            let lr = list(filter, zellij);
            assert(panes_list_outcome::<Z>(opt_view(tab), calls_since(s0, zellij.calls()), lr));
            match lr {
                Ok(output) => Ok(Emission::Panes(output)),
                Err(e) => Err(e),
            }
        },
        PanesVerb::Read { pane, full, ansi } => {
            if dry_run {
                let args = dump_screen_command(pane.as_str(), full, ansi);
                assert(calls_since(s0, zellij.calls()) =~= Seq::<Call>::empty());
                assert(zellij.calls().take(s0.len() as int) =~= s0);
                return Ok(Emission::DryRun(with_zellij_action(&args)));
            }
            let rr = read(pane.as_str(), full, ansi, zellij);
            assert(read_outcome::<Z>(pane@, full, ansi, calls_since(s0, zellij.calls()), rr));
            match rr {
                Ok(content) => Ok(Emission::Content(content)),
                Err(e) => Err(e),
            }
        },
        PanesVerb::Write { pane, text } => {
            let wr = write(pane.as_str(), text.as_str(), zellij, dry_run, no_guard, self_pane);
            assert(write_outcome::<Z>(
                pane@,
                text@,
                dry_run,
                no_guard,
                opt_str_view(self_pane),
                calls_since(s0, zellij.calls()),
                wr,
            ));
            emit_action(wr, dry_run)
        },
        PanesVerb::SendKeys { pane, keys } => {
            let wr = send_keys(pane.as_str(), keys.as_slice(), zellij, dry_run, no_guard, self_pane);
            assert(send_keys_outcome::<Z>(
                pane@,
                string_views(keys@),
                dry_run,
                no_guard,
                opt_str_view(self_pane),
                calls_since(s0, zellij.calls()),
                wr,
            ));
            emit_action(wr, dry_run)
        },
        PanesVerb::Focus { pane } => {
            let wr = focus(pane.as_str(), zellij, dry_run);
            assert(focus_outcome::<Z>(pane@, dry_run, calls_since(s0, zellij.calls()), wr));
            emit_action(wr, dry_run)
        },
        PanesVerb::Open { direction, floating, name, cwd, tab_id, command } => {
            let args = new_pane_command(&direction, floating, &name, &cwd, tab_id, &command);
            let options = OpenPaneOptions { direction, floating, name, cwd, tab_id, command, dry_run };
            let or = open_pane(&options, zellij);
            if dry_run {
                return match or {
                    Ok(_) => Ok(Emission::DryRun(with_zellij_action(&args))),
                    Err(e) => Err(e),
                };
            }
            assert(pane_opened(options.args(), calls_since(s0, zellij.calls()), or));
            match or {
                Ok(pane_id) => Ok(Emission::OpenedPane(pane_id)),
                Err(e) => Err(e),
            }
        },
    }
}

/// What is printed for an action's outcome: the full command line on a
/// dry run, otherwise `Done`; errors pass unchanged.
pub fn emit_action(a: Result<Vec<String>, ZjctlError>, dry_run: bool) -> (r: Result<Emission, ZjctlError>)
    ensures
        action_emitted(a, dry_run, r),
{
    match a {
        Ok(cmd) => if dry_run {
            Ok(Emission::DryRun(with_zellij_action(&cmd)))
        } else {
            Ok(Emission::Done)
        },
        Err(e) => Err(e),
    }
}

} // verus!
