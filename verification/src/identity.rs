//! Turning what a user typed into a tab index or a qualified pane id.
use vstd::prelude::*;

use crate::error::{is_plain, ErrorCode, ZjctlError};
use crate::models::ZellijPaneInfo;
use crate::commands::panes::qualified_pane_id;
use crate::safety::{is_qualified, lemma_terminal_id_qualified, terminal_id};
use crate::text::{concat, decimal, lines, parse_u32, parse_u32_str, split_lines, starts_with, str_eq, to_string, u32_to_string};
use crate::zellij::{action_argv, calls_since, extends, list_panes_args, one_call, panes_decoded, str_views, Call, Client, ZellijRunner};

verus! {

// ---------------------------------------------------------------------
// Tabs
// ---------------------------------------------------------------------

/// `k` is the position of the first line equal to `name`.
pub open spec fn is_first_line(ls: Seq<Seq<char>>, name: Seq<char>, k: int) -> bool {
    &&& 0 <= k < ls.len()
    &&& ls[k] == name
    &&& forall|j: int| 0 <= j < k ==> ls[j] != name
}

pub open spec fn tab_not_found_message(input: Seq<char>) -> Seq<char> {
    "Tab not found: "@ + input
}

/// Looks a tab name up in the output of `query-tab-names` (one name per
/// line): the 0-based position of the first line equal to `input`.
pub fn resolve_tab_among(input: &str, names_raw: &str) -> (r: Result<u32, ZjctlError>)
    ensures
        r is Ok <==> exists|k: int| is_first_line(lines(names_raw@), input@, k),
        r matches Ok(i) ==> exists|k: int| is_first_line(lines(names_raw@), input@, k) && i == k as u32,
        r matches Err(e) ==> is_plain(e, ErrorCode::InvalidTarget, tab_not_found_message(input@)),
{
    let names = split_lines(names_raw);
    let ghost ls = lines(names_raw@);
    assert(names@.map_values(|l: String| l@) == ls);
    let mut i: usize = 0;
    while i < names.len()
        invariant
            i <= names.len(),
            names@.map_values(|l: String| l@) == ls,
            ls == lines(names_raw@),
            forall|j: int| 0 <= j < i ==> ls[j] != input@,
        decreases names.len() - i,
    {
        assert(ls[i as int] == names@[i as int]@);
        if str_eq(names[i].as_str(), input) {
            assert(is_first_line(ls, input@, i as int));
            return Ok(i as u32);
        }
        i += 1;
    }
    assert forall|k: int| !is_first_line(ls, input@, k) by {}
    let msg = concat("Tab not found: ", input);
    Err(ZjctlError::invalid_target(msg.as_str()))
}

/// `query-tab-names`.
pub open spec fn query_tab_names_args() -> Seq<Seq<char>> {
    seq!["query-tab-names"@]
}

/// `r` is the outcome of looking `input` up among the lines of
/// `names_raw`, as `resolve_tab_among` gives it.
pub open spec fn tab_lookup(names_raw: Seq<char>, input: Seq<char>, r: Result<u32, ZjctlError>) -> bool {
    if exists|k: int| is_first_line(lines(names_raw), input, k) {
        r matches Ok(i) && exists|k: int| is_first_line(lines(names_raw), input, k) && i == k as u32
    } else {
        r matches Err(e) && is_plain(e, ErrorCode::InvalidTarget, tab_not_found_message(input))
    }
}

/// How many zellij calls resolving the tab `input` makes: none for a
/// number, one `query-tab-names` for a name.
pub open spec fn tab_resolution_len(input: Seq<char>) -> int {
    if parse_u32(input) is Some {
        0
    } else {
        1
    }
}

/// `r` is the outcome of resolving the tab `input` with the calls `c`: a
/// number is the index itself and calls nothing; a name makes one
/// `query-tab-names` call and is looked up in what it printed, a failure
/// of that call passed on unchanged.
pub open spec fn tab_resolved(input: Seq<char>, c: Seq<Call>, r: Result<u32, ZjctlError>) -> bool {
    match parse_u32(input) {
        Some(n) => c.len() == 0 && r == Ok::<u32, ZjctlError>(n),
        None => {
            &&& one_call(c, action_argv(query_tab_names_args()))
            &&& match c[0].1 {
                Ok(raw) => tab_lookup(raw@, input, r),
                Err(e) => r == Err::<u32, ZjctlError>(e),
            }
        },
    }
}

/// A tab given by number or by name: a number is taken as the 0-based
/// index; otherwise the name is looked up among the session's tab names,
/// and a failure of that query is passed on unchanged.
pub fn resolve_tab<Z: ZellijRunner>(input: &str, zellij: &mut Client<Z>) -> (r: Result<u32, ZjctlError>)
    ensures
        extends(old(zellij).calls(), final(zellij).calls()),
        tab_resolved(input@, calls_since(old(zellij).calls(), final(zellij).calls()), r),
{
    let ghost s0 = zellij.calls();
    if let Some(index) = parse_u32_str(input) {
        assert(calls_since(s0, zellij.calls()) =~= Seq::<Call>::empty());
        assert(zellij.calls().take(s0.len() as int) =~= s0);
        return Ok(index);
    }
    let args: Vec<&str> = vec!["query-tab-names"];
    let out = zellij.run_action(args.as_slice());
    assert(str_views(args@) =~= query_tab_names_args());
    assert(calls_since(s0, zellij.calls()) =~= seq![(action_argv(query_tab_names_args()), out)]);
    assert(zellij.calls().take(s0.len() as int) =~= s0);
    match out {
        Ok(raw) => resolve_tab_among(input, raw.as_str()),
        Err(e) => Err(e),
    }
}

// ---------------------------------------------------------------------
// Panes
// ---------------------------------------------------------------------

/// The pane that an input names without asking zellij: a qualified id
/// as written, or `terminal_N` for a number `N` (written in canonical
/// decimal, whatever leading zeros or sign the input had).
pub open spec fn direct_pane(input: Seq<char>) -> Option<Seq<char>> {
    if is_qualified(input) {
        Some(input)
    } else {
        match parse_u32(input) {
            Some(n) => Some(terminal_id(n as nat)),
            None => None,
        }
    }
}

pub open spec fn title_pred(title: Seq<char>) -> spec_fn(ZellijPaneInfo) -> bool {
    |p: ZellijPaneInfo| !p.is_plugin && p.title@ == title
}

/// The terminal panes whose title is exactly `title`, in listing order.
pub open spec fn title_matches(panes: Seq<ZellijPaneInfo>, title: Seq<char>) -> Seq<ZellijPaneInfo> {
    panes.filter(title_pred(title))
}

pub open spec fn pane_not_found_message(input: Seq<char>) -> Seq<char> {
    "Pane not found: "@ + input
}

pub open spec fn ambiguous_pane_message(input: Seq<char>) -> Seq<char> {
    "Ambiguous pane name: "@ + input + " (matches multiple panes)"@
}

/// What a resolved pane id can be for an input: the direct form, or a
/// `terminal_N` found by title.
pub open spec fn pane_resolution(input: Seq<char>, id: Seq<char>) -> bool {
    match direct_pane(input) {
        Some(d) => id == d,
        None => exists|n: u32| id == terminal_id(n as nat),
    }
}

/// Every id that pane resolution yields is qualified, so resolving it
/// again gives it back unchanged without asking zellij.
pub proof fn lemma_resolved_pane_is_fixed(input: Seq<char>, id: Seq<char>)
    requires
        pane_resolution(input, id),
    ensures
        is_qualified(id),
        direct_pane(id) == Some(id),
{
    if !is_qualified(input) {
        match parse_u32(input) {
            Some(n) => lemma_terminal_id_qualified(n as nat),
            None => {
                let n = choose|n: u32| id == terminal_id(n as nat);
                lemma_terminal_id_qualified(n as nat);
            },
        }
    }
}

/// `r` is the outcome of looking the title `input` up among `panes`:
/// exactly one terminal pane with that title gives its `terminal_N`;
/// none or several are refused as invalid targets.
pub open spec fn pane_lookup(input: Seq<char>, panes: Seq<ZellijPaneInfo>, r: Result<String, ZjctlError>) -> bool {
    let m = title_matches(panes, input);
    &&& (r is Ok <==> m.len() == 1)
    &&& (m.len() == 1 ==> (r matches Ok(id) && id@ == terminal_id(m[0].id as nat)))
    &&& (m.len() == 0 ==> (r matches Err(e) && is_plain(e, ErrorCode::InvalidTarget, pane_not_found_message(input))))
    &&& (m.len() > 1 ==> (r matches Err(e) && is_plain(e, ErrorCode::InvalidTarget, ambiguous_pane_message(input))))
}

proof fn lemma_filter_none<A>(s: Seq<A>, pred: spec_fn(A) -> bool)
    requires
        forall|j: int| 0 <= j < s.len() ==> !pred(s[j]),
    ensures
        s.filter(pred).len() == 0,
    decreases s.len(),
{
    reveal_with_fuel(Seq::<_>::filter, 1);
    if s.len() > 0 {
        assert forall|j: int| 0 <= j < s.drop_last().len() implies !pred(s.drop_last()[j]) by {
            assert(s.drop_last()[j] == s[j]);
        }
        lemma_filter_none(s.drop_last(), pred);
    }
}

proof fn lemma_filter_single<A>(s: Seq<A>, pred: spec_fn(A) -> bool, i: int)
    requires
        0 <= i < s.len(),
        pred(s[i]),
        forall|j: int| 0 <= j < s.len() && j != i ==> !pred(s[j]),
    ensures
        s.filter(pred) == seq![s[i]],
    decreases s.len(),
{
    reveal_with_fuel(Seq::<_>::filter, 1);
    let d = s.drop_last();
    if i == s.len() - 1 {
        assert forall|j: int| 0 <= j < d.len() implies !pred(d[j]) by {
            assert(d[j] == s[j]);
        }
        lemma_filter_none(d, pred);
        assert(d.filter(pred) =~= Seq::<A>::empty());
        assert(s.filter(pred) =~= seq![s[i]]);
    } else {
        assert forall|j: int| 0 <= j < d.len() && j != i implies !pred(d[j]) by {
            assert(d[j] == s[j]);
        }
        assert(d[i] == s[i]);
        lemma_filter_single(d, pred, i);
        assert(!pred(s.last()));
    }
}

/// A title names a pane only by exact equality: when exactly one
/// terminal pane has a title equal to the input, the lookup gives that
/// pane's `terminal_N`; and any pane that the lookup gives is a terminal
/// pane whose title equals the input (a title that merely begins with it
/// does not count).
pub proof fn lemma_title_match_is_exact(input: Seq<char>, panes: Seq<ZellijPaneInfo>, r: Result<String, ZjctlError>)
    requires
        pane_lookup(input, panes, r),
    ensures
        forall|i: int|
            0 <= i < panes.len() && !panes[i].is_plugin && #[trigger] panes[i].title@ == input && (forall|j: int|
                0 <= j < panes.len() && j != i ==> panes[j].is_plugin || panes[j].title@ != input) ==> (r matches Ok(
                id,
            ) && id@ == "terminal_"@ + decimal(panes[i].id as nat)),
        r matches Ok(id) ==> exists|i: int|
            0 <= i < panes.len() && !panes[i].is_plugin && panes[i].title@ == input && id@ == "terminal_"@
                + decimal(#[trigger] panes[i].id as nat),
{
    let pred = title_pred(input);
    assert forall|i: int|
        0 <= i < panes.len() && !panes[i].is_plugin && #[trigger] panes[i].title@ == input && (forall|j: int|
            0 <= j < panes.len() && j != i ==> panes[j].is_plugin || panes[j].title@ != input) implies (r matches Ok(
        id,
    ) && id@ == "terminal_"@ + decimal(panes[i].id as nat)) by {
        assert forall|j: int| 0 <= j < panes.len() && j != i implies !pred(panes[j]) by {}
        lemma_filter_single(panes, pred, i);
    }
    if r is Ok {
        let m = panes.filter(pred);
        assert(m.len() == 1);
        panes.lemma_filter_pred(pred, 0);
        panes.lemma_filter_contains_rev(pred, m[0]);
        let i = choose|i: int| 0 <= i < panes.len() && panes[i] == m[0];
        assert(panes[i].title@ == input);
    }
}

/// Finds a pane by title among listed panes: exactly one terminal pane
/// with that title resolves to its `terminal_N`; none or several are
/// refused.
pub fn resolve_pane_among(input: &str, panes: &Vec<ZellijPaneInfo>) -> (r: Result<String, ZjctlError>)
    ensures
        pane_lookup(input@, panes@, r),
{
    let ghost pred = title_pred(input@);
    let mut count: usize = 0;
    let mut first: u32 = 0;
    let mut i: usize = 0;
    while i < panes.len()
        invariant
            i <= panes.len(),
            pred == title_pred(input@),
            count == panes@.take(i as int).filter(pred).len(),
            count <= i,
            count > 0 ==> first == panes@.take(i as int).filter(pred)[0].id,
        decreases panes.len() - i,
    {
        proof {
            reveal_with_fuel(Seq::<_>::filter, 1);
            assert(panes@.take(i + 1).drop_last() == panes@.take(i as int));
            assert(panes@.take(i + 1).last() == panes@[i as int]);
            if count > 0 {
                let f0 = panes@.take(i as int).filter(pred);
                let f1 = panes@.take(i + 1).filter(pred);
                assert(f1 == f0 || f1 == f0.push(panes@[i as int]));
                assert(f1[0] == f0[0]);
            }
        }
        let p = &panes[i];
        if !p.is_plugin && str_eq(p.title.as_str(), input) {
            if count == 0 {
                first = p.id;
            }
            count += 1;
        }
        i += 1;
    }
    assert(panes@.take(panes.len() as int) == panes@);
    if count == 0 {
        let msg = concat("Pane not found: ", input);
        Err(ZjctlError::invalid_target(msg.as_str()))
    } else if count == 1 {
        let digits = u32_to_string(first);
        Ok(concat("terminal_", digits.as_str()))
    } else {
        proof {
            reveal_strlit(" (matches multiple panes)");
        }
        let m1 = concat("Ambiguous pane name: ", input);
        let msg = concat(m1.as_str(), " (matches multiple panes)");
        Err(ZjctlError::invalid_target(msg.as_str()))
    }
}

/// Some pane that `list-panes` reported has the qualified id `id`.
pub open spec fn is_listed(panes: Seq<ZellijPaneInfo>, id: Seq<char>) -> bool {
    exists|i: int| 0 <= i < panes.len() && #[trigger] qualified_pane_id(panes[i]) == id
}

/// `r` is the outcome of finding `input` among the listed `panes`: a
/// direct form must name a listed pane (else it is not found), a title
/// is looked up as `pane_lookup` says.
pub open spec fn pane_located(input: Seq<char>, panes: Seq<ZellijPaneInfo>, r: Result<String, ZjctlError>) -> bool {
    match direct_pane(input) {
        Some(d) => if is_listed(panes, d) {
            r matches Ok(id) && id@ == d
        } else {
            r matches Err(e) && is_plain(e, ErrorCode::InvalidTarget, pane_not_found_message(d))
        },
        None => pane_lookup(input, panes, r),
    }
}

/// `r` is the outcome of finding `input` among the panes that
/// `list-panes` reports, given the calls `c`: that one call, its failure
/// passed on unchanged, output that does not decode reported as a parse
/// error, otherwise `pane_located`.
pub open spec fn pane_queried<Z: ZellijRunner>(input: Seq<char>, c: Seq<Call>, r: Result<String, ZjctlError>) -> bool {
    &&& one_call(c, action_argv(list_panes_args()))
    &&& match c[0].1 {
        Err(e) => r == Err::<String, ZjctlError>(e),
        Ok(raw) => exists|dec: Result<Vec<ZellijPaneInfo>, String>|
            #[trigger] panes_decoded::<Z>(raw@, dec) && match dec {
                Ok(panes) => pane_located(input, panes@, r),
                Err(msg) => r matches Err(e) && is_plain(
                    e,
                    ErrorCode::ParseError,
                    "Failed to parse panes JSON: "@ + msg@,
                ),
            },
    }
}

/// How many zellij calls resolving the pane `input` makes: none for a
/// direct form, one `list-panes` for a title.
pub open spec fn pane_resolution_len(input: Seq<char>) -> int {
    if direct_pane(input) is Some {
        0
    } else {
        1
    }
}

/// `r` is the outcome of resolving the pane `input` with the calls `c`: a
/// direct form is taken as it stands and calls nothing, a title is found
/// through `list-panes`.
pub open spec fn pane_resolved<Z: ZellijRunner>(input: Seq<char>, c: Seq<Call>, r: Result<String, ZjctlError>) -> bool {
    match direct_pane(input) {
        Some(d) => c.len() == 0 && (r matches Ok(id) && id@ == d),
        None => pane_queried::<Z>(input, c, r),
    }
}

/// Finds `input` among the panes that `list-panes` reports.  Every form
/// is checked against the listing, so a pane that was closed is reported
/// as not found; `read` finds its pane this way.
pub fn locate_pane<Z: ZellijRunner>(input: &str, zellij: &mut Client<Z>) -> (r: Result<String, ZjctlError>)
    ensures
        extends(old(zellij).calls(), final(zellij).calls()),
        pane_queried::<Z>(input@, calls_since(old(zellij).calls(), final(zellij).calls()), r),
        r matches Ok(id) ==> pane_resolution(input@, id@),
{
    let ghost s0 = zellij.calls();
    let args: Vec<&str> = vec!["list-panes", "--json", "--all"];
    let out = zellij.run_action(args.as_slice());
    assert(str_views(args@) =~= list_panes_args());
    assert(calls_since(s0, zellij.calls()) =~= seq![(action_argv(list_panes_args()), out)]);
    assert(zellij.calls().take(s0.len() as int) =~= s0);
    let raw = match out {
        Ok(raw) => raw,
        Err(e) => return Err(e),
    };
    let dec = Z::decode_panes(raw.as_str());
    assert(panes_decoded::<Z>(raw@, dec));
    match dec {
        Err(msg) => {
            let text = concat("Failed to parse panes JSON: ", msg.as_str());
            Err(ZjctlError::parse_error(text.as_str()))
        },
        Ok(panes) => locate_among(input, &panes),
    }
}

/// Finds `input` among listed panes: a qualified id or a number must
/// name one of them; a title must match exactly one terminal pane.
pub fn locate_among(input: &str, panes: &Vec<ZellijPaneInfo>) -> (r: Result<String, ZjctlError>)
    ensures
        pane_located(input@, panes@, r),
        r matches Ok(id) ==> pane_resolution(input@, id@),
{
    let direct = if starts_with(input, "terminal_") || starts_with(input, "plugin_") {
        Some(to_string(input))
    } else {
        match parse_u32_str(input) {
            Some(n) => {
                let digits = u32_to_string(n);
                Some(concat("terminal_", digits.as_str()))
            },
            None => None,
        }
    };
    assert(direct_pane(input@) == match direct {
        Some(d) => Some(d@),
        None => None::<Seq<char>>,
    });
    match direct {
        None => {
            let r = resolve_pane_among(input, panes);
            proof {
                if r is Ok {
                    let m = title_matches(panes@, input@);
                    assert(r->Ok_0@ == terminal_id(m[0].id as nat));
                }
            }
            r
        },
        Some(d) => {
            let mut i: usize = 0;
            while i < panes.len()
                invariant
                    i <= panes.len(),
                    direct_pane(input@) == Some(d@),
                    forall|j: int| 0 <= j < i ==> qualified_pane_id(#[trigger] panes@[j]) != d@,
                decreases panes.len() - i,
            {
                let p = &panes[i];
                let digits = u32_to_string(p.id);
                let id = if p.is_plugin {
                    concat("plugin_", digits.as_str())
                } else {
                    concat("terminal_", digits.as_str())
                };
                if str_eq(id.as_str(), d.as_str()) {
                    assert(qualified_pane_id(panes@[i as int]) == d@);
                    return Ok(d);
                }
                i += 1;
            }
            let msg = concat("Pane not found: ", d.as_str());
            Err(ZjctlError::invalid_target(msg.as_str()))
        },
    }
}

/// Resolves a pane given as `terminal_N`, `plugin_N`, a number `N`, or a
/// title.  The first three forms need no zellij call and always succeed;
/// a title is looked up in `list-panes` and must match one terminal pane.
pub fn resolve_pane<Z: ZellijRunner>(input: &str, zellij: &mut Client<Z>) -> (r: Result<String, ZjctlError>)
    ensures
        extends(old(zellij).calls(), final(zellij).calls()),
        pane_resolved::<Z>(input@, calls_since(old(zellij).calls(), final(zellij).calls()), r),
        r matches Ok(id) ==> pane_resolution(input@, id@),
{
    let ghost s0 = zellij.calls();
    if starts_with(input, "terminal_") || starts_with(input, "plugin_") {
        assert(calls_since(s0, zellij.calls()) =~= Seq::<Call>::empty());
        assert(zellij.calls().take(s0.len() as int) =~= s0);
        return Ok(to_string(input));
    }
    if let Some(n) = parse_u32_str(input) {
        assert(calls_since(s0, zellij.calls()) =~= Seq::<Call>::empty());
        assert(zellij.calls().take(s0.len() as int) =~= s0);
        let digits = u32_to_string(n);
        return Ok(concat("terminal_", digits.as_str()));
    }
    locate_pane(input, zellij)
}

} // verus!
