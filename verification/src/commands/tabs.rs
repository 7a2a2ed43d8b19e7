//! `tabs` verbs: list, focus and open.
use vstd::prelude::*;

use crate::cli::TabsVerb;
use crate::error::{is_plain, opt_view, ErrorCode, ZjctlError};
use crate::identity::{resolve_tab, tab_resolution_len, tab_resolved};
use crate::models::{Tab, TabsOutput, ZellijPaneInfo, ZellijTabInfo};
use crate::output::Emission;
use crate::text::{concat, decimal, parse_u32};
use crate::zellij::{action_argv, action_done, calls_since, extends, lemma_calls_chain, list_panes_args, one_call, panes_decoded, perform, run_action_args, str_views, string_views, tab_info_decoded, Call, Client, ZellijRunner};
use crate::commands::panes::{action_emitted, emit_action, option_pair, push_all, push_option, push_str, with_zellij_action, zellij_action};

verus! {

// ---------------------------------------------------------------------
// Listing
// ---------------------------------------------------------------------

/// Tabs are reported by position, ties broken by tab id.
pub open spec fn tab_before(a: Tab, b: Tab) -> bool {
    a.index < b.index || (a.index == b.index && a.tab_id < b.tab_id)
}

/// `k` is the first pane that belongs to tab `tab_id`.
pub open spec fn first_pane_of_tab(panes: Seq<ZellijPaneInfo>, tab_id: u32, k: int) -> bool {
    &&& 0 <= k < panes.len()
    &&& panes[k].tab_id == tab_id
    &&& forall|j: int| 0 <= j < k ==> panes[j].tab_id != tab_id
}

/// `t` describes its tab as the tab's first pane does (position and
/// name), and is active exactly when it is the focused tab; only panes
/// before `upto` are considered.
pub open spec fn describes_tab(t: Tab, panes: Seq<ZellijPaneInfo>, active: u32, upto: int) -> bool {
    &&& exists|k: int|
        0 <= k < upto && #[trigger] first_pane_of_tab(panes, t.tab_id, k) && t.index
            == panes[k].tab_position && t.name@ == panes[k].tab_name@
    &&& t.active == (t.tab_id == active)
}

pub open spec fn sorted_tabs(tabs: Seq<Tab>) -> bool {
    forall|i: int, j: int| 0 <= i < j < tabs.len() ==> tab_before(tabs[i], tabs[j])
}

pub open spec fn described_upto(tabs: Seq<Tab>, panes: Seq<ZellijPaneInfo>, active: u32, n: int) -> bool {
    forall|i: int| 0 <= i < tabs.len() ==> describes_tab(#[trigger] tabs[i], panes, active, n)
}

pub open spec fn covered_upto(tabs: Seq<Tab>, panes: Seq<ZellijPaneInfo>, n: int) -> bool {
    forall|k: int|
        0 <= k < n ==> exists|i: int| 0 <= i < tabs.len() && #[trigger] tabs[i].tab_id == #[trigger] panes[k].tab_id
}

/// `tabs` is the tab listing of `panes`: one entry per tab that has a
/// pane, described by its first pane, in (position, id) order.
pub open spec fn tabs_listing(tabs: Seq<Tab>, panes: Seq<ZellijPaneInfo>, active: u32) -> bool {
    &&& sorted_tabs(tabs)
    &&& described_upto(tabs, panes, active, panes.len() as int)
    &&& covered_upto(tabs, panes, panes.len() as int)
}

/// `tabs` is the tab listing of some pane list and focused tab.
pub open spec fn is_some_tab_listing(tabs: Seq<Tab>) -> bool {
    exists|panes: Seq<ZellijPaneInfo>, active: u32| #[trigger] tabs_listing(tabs, panes, active)
}

fn has_tab(tabs: &Vec<Tab>, tab_id: u32) -> (r: bool)
    ensures
        r == exists|i: int| 0 <= i < tabs.len() && tabs@[i].tab_id == tab_id,
{
    let mut s: usize = 0;
    while s < tabs.len()
        invariant
            s <= tabs.len(),
            forall|i: int| 0 <= i < s ==> tabs@[i].tab_id != tab_id,
        decreases tabs.len() - s,
    {
        if tabs[s].tab_id == tab_id {
            return true;
        }
        s += 1;
    }
    false
}

/// Inserts `t` at its place in a sorted listing that lacks its tab id.
fn insert_tab(tabs: &mut Vec<Tab>, t: Tab)
    requires
        sorted_tabs(old(tabs)@),
        forall|i: int| 0 <= i < old(tabs)@.len() ==> old(tabs)@[i].tab_id != t.tab_id,
    ensures
        sorted_tabs(final(tabs)@),
        final(tabs)@.len() == old(tabs)@.len() + 1,
        forall|i: int| 0 <= i < final(tabs)@.len() ==> #[trigger] final(tabs)@[i] == t || old(tabs)@.contains(final(tabs)@[i]),
        final(tabs)@.contains(t),
        forall|i: int| 0 <= i < old(tabs)@.len() ==> final(tabs)@.contains(#[trigger] old(tabs)@[i]),
{
    let ghost old_tabs = tabs@;
    let ghost tv = t;
    let mut pos: usize = 0;
    while pos < tabs.len() && !(t.index < tabs[pos].index || (t.index == tabs[pos].index
        && t.tab_id < tabs[pos].tab_id))
        invariant
            pos <= tabs.len(),
            tabs@ == old_tabs,
            tv == t,
            forall|i: int| 0 <= i < pos ==> !tab_before(t, #[trigger] tabs@[i]),
        decreases tabs.len() - pos,
    {
        pos += 1;
    }
    tabs.insert(pos, t);
    assert forall|i: int| 0 <= i < tabs.len() implies #[trigger] tabs@[i] == (if i < pos {
        old_tabs[i]
    } else if i == pos {
        tv
    } else {
        old_tabs[i - 1]
    }) by {}
    assert forall|i: int, j: int| 0 <= i < j < tabs.len() implies tab_before(tabs@[i], tabs@[j]) by {
        if i < pos && j == pos {
            assert(!tab_before(tv, old_tabs[i]));
            assert(old_tabs[i].tab_id != tv.tab_id);
        } else if i == pos && j > pos {
            assert(tab_before(tv, old_tabs[pos as int]));
            if j - 1 > pos {
                assert(tab_before(old_tabs[pos as int], old_tabs[j - 1]));
            }
        } else if i < pos && j > pos {
            assert(tab_before(old_tabs[i], old_tabs[j - 1]));
        }
    }
    assert forall|i: int| 0 <= i < tabs.len() implies #[trigger] tabs@[i] == tv || old_tabs.contains(
        tabs@[i],
    ) by {
        if i < pos {
            assert(old_tabs[i] == tabs@[i]);
        } else if i > pos {
            assert(old_tabs[i - 1] == tabs@[i]);
        }
    }
    assert(tabs@[pos as int] == tv);
    assert forall|i: int| 0 <= i < old_tabs.len() implies tabs@.contains(#[trigger] old_tabs[i]) by {
        if i < pos {
            assert(tabs@[i] == old_tabs[i]);
        } else {
            assert(tabs@[i + 1] == old_tabs[i]);
        }
    }
}

proof fn lemma_step_known(tabs: Seq<Tab>, panes: Seq<ZellijPaneInfo>, active: u32, n: int)
    requires
        0 <= n < panes.len(),
        described_upto(tabs, panes, active, n),
        covered_upto(tabs, panes, n),
        exists|i: int| 0 <= i < tabs.len() && tabs[i].tab_id == panes[n].tab_id,
    ensures
        described_upto(tabs, panes, active, n + 1),
        covered_upto(tabs, panes, n + 1),
{
    assert forall|i: int| 0 <= i < tabs.len() implies describes_tab(#[trigger] tabs[i], panes, active, n + 1) by {
        assert(describes_tab(tabs[i], panes, active, n));
    }
    assert forall|k: int| 0 <= k < n + 1 implies exists|i: int|
        0 <= i < tabs.len() && #[trigger] tabs[i].tab_id == #[trigger] panes[k].tab_id by {
        if k == n {
            let i0 = choose|i: int| 0 <= i < tabs.len() && tabs[i].tab_id == panes[n].tab_id;
            assert(tabs[i0].tab_id == panes[k].tab_id);
        }
    }
}

proof fn lemma_no_earlier_pane(tabs: Seq<Tab>, panes: Seq<ZellijPaneInfo>, n: int)
    requires
        0 <= n < panes.len(),
        covered_upto(tabs, panes, n),
        forall|i: int| 0 <= i < tabs.len() ==> tabs[i].tab_id != panes[n].tab_id,
    ensures
        first_pane_of_tab(panes, panes[n].tab_id, n),
{
    assert forall|j: int| 0 <= j < n implies panes[j].tab_id != panes[n].tab_id by {
        if panes[j].tab_id == panes[n].tab_id {
            let i = choose|i: int| 0 <= i < tabs.len() && #[trigger] tabs[i].tab_id == #[trigger] panes[j].tab_id;
            assert(tabs[i].tab_id == panes[n].tab_id);
        }
    }
}

proof fn lemma_step_new(
    old_tabs: Seq<Tab>,
    tabs: Seq<Tab>,
    panes: Seq<ZellijPaneInfo>,
    active: u32,
    n: int,
    tv: Tab,
)
    requires
        0 <= n < panes.len(),
        described_upto(old_tabs, panes, active, n),
        covered_upto(old_tabs, panes, n),
        describes_tab(tv, panes, active, n + 1),
        tv.tab_id == panes[n].tab_id,
        forall|i: int| 0 <= i < tabs.len() ==> #[trigger] tabs[i] == tv || old_tabs.contains(tabs[i]),
        tabs.contains(tv),
        forall|i: int| 0 <= i < old_tabs.len() ==> tabs.contains(#[trigger] old_tabs[i]),
    ensures
        described_upto(tabs, panes, active, n + 1),
        covered_upto(tabs, panes, n + 1),
{
    assert forall|i: int| 0 <= i < tabs.len() implies describes_tab(#[trigger] tabs[i], panes, active, n + 1) by {
        if tabs[i] != tv {
            let i0 = choose|i0: int| 0 <= i0 < old_tabs.len() && old_tabs[i0] == tabs[i];
            assert(describes_tab(old_tabs[i0], panes, active, n));
        }
    }
    assert forall|k: int| 0 <= k < n + 1 implies exists|i: int|
        0 <= i < tabs.len() && #[trigger] tabs[i].tab_id == #[trigger] panes[k].tab_id by {
        if k == n {
            let i1 = choose|i1: int| 0 <= i1 < tabs.len() && tabs[i1] == tv;
            assert(tabs[i1].tab_id == panes[k].tab_id);
        } else {
            let i0 = choose|i: int| 0 <= i < old_tabs.len() && #[trigger] old_tabs[i].tab_id == #[trigger] panes[k].tab_id;
            assert(tabs.contains(old_tabs[i0]));
            let i1 = choose|i1: int| 0 <= i1 < tabs.len() && tabs[i1] == old_tabs[i0];
            assert(tabs[i1].tab_id == panes[k].tab_id);
        }
    }
}

/// The tab listing of the panes, with the tab `active_tab_id` marked
/// active.
pub fn tabs_from(panes: &Vec<ZellijPaneInfo>, active_tab_id: u32) -> (out: TabsOutput)
    ensures
        tabs_listing(out.tabs@, panes@, active_tab_id),
{
    let mut tabs: Vec<Tab> = Vec::new();
    let mut n: usize = 0;
    while n < panes.len()
        invariant
            n <= panes.len(),
            sorted_tabs(tabs@),
            described_upto(tabs@, panes@, active_tab_id, n as int),
            covered_upto(tabs@, panes@, n as int),
        decreases panes.len() - n,
    {
        let p = &panes[n];
        let ghost old_tabs = tabs@;
        if !has_tab(&tabs, p.tab_id) {
            proof {
                lemma_no_earlier_pane(tabs@, panes@, n as int);
            }
            let t = Tab {
                index: p.tab_position,
                name: p.tab_name.clone(),
                active: p.tab_id == active_tab_id,
                tab_id: p.tab_id,
            };
            let ghost tv = t;
            assert(first_pane_of_tab(panes@, tv.tab_id, n as int));
            assert(describes_tab(tv, panes@, active_tab_id, n + 1));
            insert_tab(&mut tabs, t);
            proof {
                lemma_step_new(old_tabs, tabs@, panes@, active_tab_id, n as int, tv);
            }
        } else {
            proof {
                lemma_step_known(tabs@, panes@, active_tab_id, n as int);
            }
        }
        n += 1;
    }
    TabsOutput { tabs }
}

/// In a tab listing no two entries share a tab id, and at most one entry
/// is active; when the focused tab has a pane, exactly one is.
pub proof fn lemma_tabs_listing_one_active(tabs: Seq<Tab>, panes: Seq<ZellijPaneInfo>, active: u32)
    requires
        tabs_listing(tabs, panes, active),
    ensures
        forall|i: int, j: int| 0 <= i < j < tabs.len() ==> tabs[i].tab_id != tabs[j].tab_id,
        forall|i: int, j: int|
            0 <= i < tabs.len() && 0 <= j < tabs.len() && tabs[i].active && tabs[j].active ==> i == j,
        (exists|k: int| 0 <= k < panes.len() && panes[k].tab_id == active) ==> exists|i: int|
            0 <= i < tabs.len() && tabs[i].active,
{
    assert forall|i: int, j: int| 0 <= i < j < tabs.len() implies tabs[i].tab_id != tabs[j].tab_id by {
        if tabs[i].tab_id == tabs[j].tab_id {
            assert(describes_tab(tabs[i], panes, active, panes.len() as int));
            assert(describes_tab(tabs[j], panes, active, panes.len() as int));
            let ki = choose|k: int|
                0 <= k < panes.len() && #[trigger] first_pane_of_tab(panes, tabs[i].tab_id, k)
                    && tabs[i].index == panes[k].tab_position && tabs[i].name@ == panes[k].tab_name@;
            let kj = choose|k: int|
                0 <= k < panes.len() && #[trigger] first_pane_of_tab(panes, tabs[j].tab_id, k)
                    && tabs[j].index == panes[k].tab_position && tabs[j].name@ == panes[k].tab_name@;
            if ki < kj {
                assert(panes[ki].tab_id != tabs[j].tab_id);
            } else if kj < ki {
                assert(panes[kj].tab_id != tabs[i].tab_id);
            }
            assert(tab_before(tabs[i], tabs[j]));
        }
    }
    assert forall|i: int, j: int|
        0 <= i < tabs.len() && 0 <= j < tabs.len() && tabs[i].active && tabs[j].active implies i
        == j by {
        assert(describes_tab(tabs[i], panes, active, panes.len() as int));
        assert(describes_tab(tabs[j], panes, active, panes.len() as int));
        if i < j {
            assert(tabs[i].tab_id != tabs[j].tab_id);
        } else if j < i {
            assert(tabs[j].tab_id != tabs[i].tab_id);
        }
    }
    if exists|k: int| 0 <= k < panes.len() && panes[k].tab_id == active {
        let k = choose|k: int| 0 <= k < panes.len() && panes[k].tab_id == active;
        let i = choose|i: int| 0 <= i < tabs.len() && #[trigger] tabs[i].tab_id == #[trigger] panes[k].tab_id;
        assert(describes_tab(tabs[i], panes, active, panes.len() as int));
    }
}

/// A tab listing comes in order of position, ties by tab id.
pub proof fn lemma_tab_listing_is_ordered(tabs: Seq<Tab>, panes: Seq<ZellijPaneInfo>, active: u32)
    requires
        tabs_listing(tabs, panes, active),
    ensures
        forall|i: int, j: int|
            0 <= i < j < tabs.len() ==> tabs[i].index < tabs[j].index || (tabs[i].index == tabs[j].index
                && tabs[i].tab_id < tabs[j].tab_id),
{
    assert forall|i: int, j: int| 0 <= i < j < tabs.len() implies tabs[i].index < tabs[j].index || (
    tabs[i].index == tabs[j].index && tabs[i].tab_id < tabs[j].tab_id) by {
        assert(tab_before(tabs[i], tabs[j]));
    }
}

/// Some tab of `tabs` has the id `tab_id`.
pub open spec fn lists_tab(tabs: Seq<Tab>, tab_id: u32) -> bool {
    exists|i: int| 0 <= i < tabs.len() && tabs[i].tab_id == tab_id
}

/// Pane `k` is the first pane of tab `t`'s id, and `t` has its position
/// and tab name.
pub open spec fn starts_tab(panes: Seq<ZellijPaneInfo>, k: int, t: Tab) -> bool {
    &&& 0 <= k < panes.len()
    &&& panes[k].tab_id == t.tab_id
    &&& forall|j: int| 0 <= j < k ==> panes[j].tab_id != t.tab_id
    &&& t.index == panes[k].tab_position
    &&& t.name@ == panes[k].tab_name@
}

/// Some pane is the first pane of `t`'s tab and gives `t` its position
/// and name.
pub open spec fn has_first_pane(panes: Seq<ZellijPaneInfo>, t: Tab) -> bool {
    exists|k: int| #[trigger] starts_tab(panes, k, t)
}

/// Every tab that has a pane appears in the tab listing.
pub proof fn lemma_tab_listing_covers_panes(tabs: Seq<Tab>, panes: Seq<ZellijPaneInfo>, active: u32)
    requires
        tabs_listing(tabs, panes, active),
    ensures
        forall|k: int| 0 <= k < panes.len() ==> lists_tab(tabs, #[trigger] panes[k].tab_id),
{
    assert forall|k: int| 0 <= k < panes.len() implies lists_tab(tabs, #[trigger] panes[k].tab_id) by {
        assert(covered_upto(tabs, panes, panes.len() as int));
        let i = choose|i: int| 0 <= i < tabs.len() && #[trigger] tabs[i].tab_id == #[trigger] panes[k].tab_id;
        assert(tabs[i].tab_id == panes[k].tab_id);
    }
}

/// Each tab in a listing carries the position and name of the first
/// pane that belongs to it.
pub proof fn lemma_tab_listing_uses_first_pane(tabs: Seq<Tab>, panes: Seq<ZellijPaneInfo>, active: u32)
    requires
        tabs_listing(tabs, panes, active),
    ensures
        forall|i: int| 0 <= i < tabs.len() ==> has_first_pane(panes, #[trigger] tabs[i]),
{
    assert forall|i: int| 0 <= i < tabs.len() implies has_first_pane(panes, #[trigger] tabs[i]) by {
        assert(describes_tab(tabs[i], panes, active, panes.len() as int));
        let k = choose|k: int|
            0 <= k < panes.len() && #[trigger] first_pane_of_tab(panes, tabs[i].tab_id, k) && tabs[i].index
                == panes[k].tab_position && tabs[i].name@ == panes[k].tab_name@;
        assert(starts_tab(panes, k, tabs[i]));
    }
}

/// Focusing a tab given by its 0-based number `n` asks zellij for tab
/// `n + 1`, which it counts from 1: the argument list is `go-to-tab` and
/// that number, and it is the only call, on a real run, or no call on a
/// dry run.
pub proof fn lemma_focus_counts_tabs_from_one(
    target: Seq<char>,
    n: u32,
    dry_run: bool,
    c: Seq<Call>,
    r: Result<Vec<String>, ZjctlError>,
)
    requires
        tab_focus_outcome(target, dry_run, c, r),
        parse_u32(target) == Some(n),
    ensures
        dry_run ==> c.len() == 0,
        !dry_run ==> c.len() == 1 && c[0].0 == seq!["action"@, "go-to-tab"@, decimal(n as nat + 1)],
        r matches Ok(cmd) ==> string_views(cmd@) == seq!["go-to-tab"@, decimal(n as nat + 1)],
{
    let tr = choose|tr: Result<u32, ZjctlError>|
        #[trigger] tab_resolved(target, c.take(0), tr) && match tr {
            Ok(i) => action_done(go_to_tab_args(i), dry_run, c.skip(0), r),
            Err(e) => c.len() == 0 && r == Err::<Vec<String>, ZjctlError>(e),
        };
    assert(c.skip(0) =~= c);
    if !dry_run {
        assert(c[0].0 =~= seq!["action"@, "go-to-tab"@, decimal(n as nat + 1)]);
    }
}

/// `current-tab-info --json`.
pub open spec fn tab_info_args() -> Seq<Seq<char>> {
    seq!["current-tab-info"@, "--json"@]
}

/// `r` is the outcome once the focused tab's description `raw` is in: a
/// decoding failure is a parse error, otherwise the listing of `panes`
/// with that tab active.
pub open spec fn tabs_listed_with_info<Z: ZellijRunner>(
    panes: Seq<ZellijPaneInfo>,
    raw: Seq<char>,
    r: Result<TabsOutput, ZjctlError>,
) -> bool {
    exists|dec: Result<ZellijTabInfo, String>|
        #[trigger] tab_info_decoded::<Z>(raw, dec) && match dec {
            Ok(info) => r matches Ok(o) && tabs_listing(o.tabs@, panes, info.tab_id),
            Err(msg) => r matches Err(e) && is_plain(
                e,
                ErrorCode::ParseError,
                "Failed to parse tab info: "@ + msg@,
            ),
        }
}

/// `r` is the outcome once the decoded `panes` are in, given the calls
/// `c` made after: one `current-tab-info` call, its failure passed on,
/// or the listing.
pub open spec fn tabs_listed_with_panes<Z: ZellijRunner>(
    panes: Seq<ZellijPaneInfo>,
    c: Seq<Call>,
    r: Result<TabsOutput, ZjctlError>,
) -> bool {
    &&& one_call(c, action_argv(tab_info_args()))
    &&& match c[0].1 {
        Ok(raw) => tabs_listed_with_info::<Z>(panes, raw@, r),
        Err(e) => r == Err::<TabsOutput, ZjctlError>(e),
    }
}

/// `r` is the outcome of listing the tabs with the calls `c`: first
/// `list-panes`, its failure passed on with no further call, output that
/// does not decode a parse error with no further call; otherwise
/// `current-tab-info` follows.
pub open spec fn tabs_list_outcome<Z: ZellijRunner>(c: Seq<Call>, r: Result<TabsOutput, ZjctlError>) -> bool {
    &&& c.len() >= 1
    &&& c[0].0 == action_argv(list_panes_args())
    &&& match c[0].1 {
        Err(e) => c.len() == 1 && r == Err::<TabsOutput, ZjctlError>(e),
        Ok(raw) => exists|dec: Result<Vec<ZellijPaneInfo>, String>|
            #[trigger] panes_decoded::<Z>(raw@, dec) && match dec {
                Ok(panes) => tabs_listed_with_panes::<Z>(panes@, c.skip(1), r),
                Err(msg) => c.len() == 1 && (r matches Err(e) && is_plain(
                    e,
                    ErrorCode::ParseError,
                    "Failed to parse panes: "@ + msg@,
                )),
            },
    }
}

/// In a successful tab listing, a tab is marked active exactly when its
/// tab id is the `tab_id` that `current-tab-info` reported for the
/// focused tab, whatever position that tab has; the listing made the
/// two queries `list-panes` and `current-tab-info`, both answered.
pub proof fn lemma_listing_marks_focused_tab<Z: ZellijRunner>(c: Seq<Call>, r: Result<TabsOutput, ZjctlError>)
    requires
        tabs_list_outcome::<Z>(c, r),
        r is Ok,
    ensures
        c.len() == 2,
        c[0].0 == action_argv(list_panes_args()),
        c[1].0 == action_argv(seq!["current-tab-info"@, "--json"@]),
        c[1].1 is Ok,
        exists|info: ZellijTabInfo|
            #[trigger] tab_info_decoded::<Z>(c[1].1->Ok_0@, Ok(info)) && forall|i: int|
                0 <= i < r->Ok_0.tabs@.len() ==> (r->Ok_0.tabs@[i].active <==> r->Ok_0.tabs@[i].tab_id
                    == info.tab_id),
{
    let raw = c[0].1->Ok_0;
    let dec = choose|dec: Result<Vec<ZellijPaneInfo>, String>|
        #[trigger] panes_decoded::<Z>(raw@, dec) && match dec {
            Ok(panes) => tabs_listed_with_panes::<Z>(panes@, c.skip(1), r),
            Err(msg) => c.len() == 1 && (r matches Err(e) && is_plain(
                e,
                ErrorCode::ParseError,
                "Failed to parse panes: "@ + msg@,
            )),
        };
    let panes = dec->Ok_0@;
    let rest = c.skip(1);
    assert(rest[0] == c[1]);
    let raw2 = c[1].1->Ok_0;
    let dec2 = choose|dec2: Result<ZellijTabInfo, String>|
        #[trigger] tab_info_decoded::<Z>(raw2@, dec2) && match dec2 {
            Ok(info) => r matches Ok(o) && tabs_listing(o.tabs@, panes, info.tab_id),
            Err(msg) => r matches Err(e) && is_plain(
                e,
                ErrorCode::ParseError,
                "Failed to parse tab info: "@ + msg@,
            ),
        };
    let info = dec2->Ok_0;
    let tabs = r->Ok_0.tabs@;
    assert forall|i: int| 0 <= i < tabs.len() implies (tabs[i].active <==> tabs[i].tab_id == info.tab_id) by {
        assert(describes_tab(tabs[i], panes, info.tab_id, panes.len() as int));
    }
    assert(tab_info_decoded::<Z>(c[1].1->Ok_0@, Ok(info)));
}

/// Lists the session's tabs: each tab that has a pane, described by its
/// first pane in `list-panes`, the focused tab (from `current-tab-info`)
/// marked active, ordered by position.  Failures of either query are
/// passed on unchanged; undecodable output is a parse error.
pub fn list<Z: ZellijRunner>(zellij: &mut Client<Z>) -> (r: Result<TabsOutput, ZjctlError>)
    ensures
        r matches Ok(out) ==> is_some_tab_listing(out.tabs@),
        extends(old(zellij).calls(), final(zellij).calls()),
        tabs_list_outcome::<Z>(calls_since(old(zellij).calls(), final(zellij).calls()), r),
{
    let ghost s0 = zellij.calls();
    let args: Vec<&str> = vec!["list-panes", "--json", "--all"];
    let out = zellij.run_action(args.as_slice());
    let ghost s1 = zellij.calls();
    assert(str_views(args@) =~= list_panes_args());
    assert(calls_since(s0, s1) =~= seq![(action_argv(list_panes_args()), out)]);
    assert(s1.take(s0.len() as int) =~= s0);
    let panes_raw = match out {
        Ok(raw) => raw,
        Err(e) => return Err(e),
    };
    let dec = Z::decode_panes(panes_raw.as_str());
    assert(panes_decoded::<Z>(panes_raw@, dec));
    let panes = match dec {
        Ok(p) => p,
        Err(e) => {
            let msg = concat("Failed to parse panes: ", e.as_str());
            return Err(ZjctlError::parse_error(msg.as_str()));
        },
    };
    let info_args: Vec<&str> = vec!["current-tab-info", "--json"];
    let out2 = zellij.run_action(info_args.as_slice());
    let ghost s2 = zellij.calls();
    assert(str_views(info_args@) =~= tab_info_args());
    assert(calls_since(s1, s2) =~= seq![(action_argv(tab_info_args()), out2)]);
    assert(s2.take(s1.len() as int) =~= s1);
    proof {
        lemma_calls_chain(s0, s1, s2);
    }
    let tab_info_raw = match out2 {
        Ok(raw) => raw,
        Err(e) => return Err(e),
    };
    let dec2 = Z::decode_tab_info(tab_info_raw.as_str());
    assert(tab_info_decoded::<Z>(tab_info_raw@, dec2));
    let tab_info = match dec2 {
        Ok(t) => t,
        Err(e) => {
            let msg = concat("Failed to parse tab info: ", e.as_str());
            return Err(ZjctlError::parse_error(msg.as_str()));
        },
    };
    let out = tabs_from(&panes, tab_info.tab_id);
    assert(tabs_listing(out.tabs@, panes@, tab_info.tab_id));
    assert(is_some_tab_listing(out.tabs@));
    Ok(out)
}

// ---------------------------------------------------------------------
// Focus and open
// ---------------------------------------------------------------------

/// `go-to-tab <N>`, where zellij counts tabs from 1.
pub open spec fn go_to_tab_args(index: u32) -> Seq<Seq<char>> {
    seq!["go-to-tab"@, decimal(index as nat + 1)]
}

fn u64_digits(n: u64) -> (s: String)
    ensures
        s@ == decimal(n as nat),
{
    let mut v: Vec<char> = Vec::new();
    crate::text::push_decimal(&mut v, n);
    assert(v@ == decimal(n as nat));
    crate::text::string_of(&v)
}

/// `r` is the outcome of focusing the tab `target` with the calls `c`:
/// it is resolved as `tab_resolved` says, then `go-to-tab` runs with its
/// 1-based number.
pub open spec fn tab_focus_outcome(
    target: Seq<char>,
    dry_run: bool,
    c: Seq<Call>,
    r: Result<Vec<String>, ZjctlError>,
) -> bool {
    let k = tab_resolution_len(target);
    &&& c.len() >= k
    &&& exists|tr: Result<u32, ZjctlError>|
        #[trigger] tab_resolved(target, c.take(k), tr) && match tr {
            Ok(i) => action_done(go_to_tab_args(i), dry_run, c.skip(k), r),
            Err(e) => c.len() == k && r == Err::<Vec<String>, ZjctlError>(e),
        }
}

/// Focuses a tab given by index or name.  The result is the `go-to-tab`
/// argument list that ran, or on a dry run would have run.
pub fn focus<Z: ZellijRunner>(target: &str, zellij: &mut Client<Z>, dry_run: bool) -> (r: Result<
    Vec<String>,
    ZjctlError,
>)
    requires
        parse_u32(target@) != Some(u32::MAX),
    ensures
        extends(old(zellij).calls(), final(zellij).calls()),
        tab_focus_outcome(target@, dry_run, calls_since(old(zellij).calls(), final(zellij).calls()), r),
{
    let ghost s0 = zellij.calls();
    let tr = resolve_tab(target, zellij);
    let ghost s1 = zellij.calls();
    let ghost k = tab_resolution_len(target@);
    assert(calls_since(s0, s1).take(k) =~= calls_since(s0, s1));
    let index = match tr {
        Ok(i) => i,
        Err(e) => {
            assert(tab_resolved(target@, calls_since(s0, s1).take(k), tr));
            return Err(e);
        },
    };
    let one_based = u64_digits(index as u64 + 1);
    let mut args: Vec<String> = Vec::new();
    push_str(&mut args, "go-to-tab");
    push_str(&mut args, one_based.as_str());
    assert(string_views(args@) == go_to_tab_args(index));
    let r = perform(zellij, args, dry_run);
    proof {
        lemma_calls_chain(s0, s1, zellij.calls());
    }
    assert(tab_resolved(target@, calls_since(s0, zellij.calls()).take(k), tr));
    r
}

/// `new-tab` with a name and layout when set, then `-- <command...>` when
/// a command is given.
pub open spec fn new_tab_args(
    name: Option<Seq<char>>,
    layout: Option<Seq<char>>,
    command: Seq<Seq<char>>,
) -> Seq<Seq<char>> {
    seq!["new-tab"@] + option_pair("--name"@, name) + option_pair("--layout"@, layout) + (if command.len()
        > 0 {
        seq!["--"@] + command
    } else {
        seq![]
    })
}

/// The arguments of `new-tab` for the given options.
pub fn new_tab_command(name: &Option<String>, layout: &Option<String>, command: &Vec<String>) -> (r:
    Vec<String>)
    ensures
        string_views(r@) == new_tab_args(opt_view(*name), opt_view(*layout), string_views(command@)),
{
    let mut r: Vec<String> = Vec::new();
    push_str(&mut r, "new-tab");
    push_option(&mut r, "--name", name);
    push_option(&mut r, "--layout", layout);
    if command.len() > 0 {
        let ghost before = string_views(r@);
        push_str(&mut r, "--");
        push_all(&mut r, command);
        assert(string_views(r@) == before + (seq!["--"@] + string_views(command@)));
    } else {
        assert(string_views(r@) =~= string_views(r@) + Seq::<Seq<char>>::empty());
    }
    r
}

/// The largest tab id among the panes, 0 when there are none.
pub open spec fn is_max_tab_id(panes: Seq<ZellijPaneInfo>, m: u32) -> bool {
    &&& forall|i: int| 0 <= i < panes.len() ==> panes[i].tab_id <= m
    &&& panes.len() == 0 ==> m == 0
    &&& panes.len() > 0 ==> exists|i: int| 0 <= i < panes.len() && panes[i].tab_id == m
}

pub fn max_tab_id(panes: &Vec<ZellijPaneInfo>) -> (m: u32)
    ensures
        is_max_tab_id(panes@, m),
{
    let mut m: u32 = 0;
    let mut i: usize = 0;
    while i < panes.len()
        invariant
            i <= panes.len(),
            forall|j: int| 0 <= j < i ==> panes@[j].tab_id <= m,
            i == 0 ==> m == 0,
            i > 0 ==> exists|j: int| 0 <= j < i && panes@[j].tab_id == m,
        decreases panes.len() - i,
    {
        if i == 0 || panes[i].tab_id > m {
            m = panes[i].tab_id;
        }
        i += 1;
    }
    m
}

/// `r` is the outcome of opening a tab with `args` and the calls `c`:
/// `new-tab`, its failure passed on with no further call; then
/// `list-panes` read again, its failure passed on, and the largest tab id
/// among its panes is the new tab's; output that does not decode is a
/// parse error.
pub open spec fn tab_opened<Z: ZellijRunner>(
    args: Seq<Seq<char>>,
    c: Seq<Call>,
    r: Result<Option<u32>, ZjctlError>,
) -> bool {
    &&& c.len() >= 1
    &&& c[0].0 == action_argv(args)
    &&& match c[0].1 {
        Err(e) => c.len() == 1 && r == Err::<Option<u32>, ZjctlError>(e),
        Ok(_) => {
            &&& c.len() == 2
            &&& c[1].0 == action_argv(list_panes_args())
            &&& match c[1].1 {
                Err(e) => r == Err::<Option<u32>, ZjctlError>(e),
                Ok(raw) => exists|dec: Result<Vec<ZellijPaneInfo>, String>|
                    #[trigger] panes_decoded::<Z>(raw@, dec) && match dec {
                        Ok(panes) => r matches Ok(Some(m)) && is_max_tab_id(panes@, m),
                        Err(msg) => r matches Err(e) && is_plain(
                            e,
                            ErrorCode::ParseError,
                            "Failed to parse panes: "@ + msg@,
                        ),
                    },
            }
        },
    }
}

/// Opens a tab, then reads the pane list again and reports the largest
/// tab id as the new tab's.  A dry run calls nothing and reports none.
pub fn open<Z: ZellijRunner>(
    name: Option<String>,
    layout: Option<String>,
    command: Vec<String>,
    zellij: &mut Client<Z>,
    dry_run: bool,
) -> (r: Result<Option<u32>, ZjctlError>)
    ensures
        extends(old(zellij).calls(), final(zellij).calls()),
        dry_run ==> calls_since(old(zellij).calls(), final(zellij).calls()).len() == 0 && r == Ok::<
            Option<u32>,
            ZjctlError,
        >(None),
        !dry_run ==> tab_opened::<Z>(
            new_tab_args(opt_view(name), opt_view(layout), string_views(command@)),
            calls_since(old(zellij).calls(), final(zellij).calls()),
            r,
        ),
{
    let ghost s0 = zellij.calls();
    let args = new_tab_command(&name, &layout, &command);
    if dry_run {
        assert(calls_since(s0, zellij.calls()) =~= Seq::<Call>::empty());
        assert(zellij.calls().take(s0.len() as int) =~= s0);
        return Ok(None);
    }
    let out = run_action_args(zellij, &args);
    let ghost s1 = zellij.calls();
    assert(calls_since(s0, s1) =~= seq![(action_argv(string_views(args@)), out)]);
    assert(s1.take(s0.len() as int) =~= s0);
    if let Err(e) = out {
        return Err(e);
    }
    let list_args: Vec<&str> = vec!["list-panes", "--json", "--all"];
    let listed = zellij.run_action(list_args.as_slice());
    let ghost s2 = zellij.calls();
    assert(str_views(list_args@) =~= list_panes_args());
    assert(calls_since(s0, s2) =~= seq![
        (action_argv(string_views(args@)), out),
        (action_argv(list_panes_args()), listed),
    ]);
    assert(s2.take(s0.len() as int) =~= s0);
    let panes_raw = match listed {
        Ok(raw) => raw,
        Err(e) => return Err(e),
    };
    let dec = Z::decode_panes(panes_raw.as_str());
    assert(panes_decoded::<Z>(panes_raw@, dec));
    let panes = match dec {
        Ok(p) => p,
        Err(e) => {
            let msg = concat("Failed to parse panes: ", e.as_str());
            return Err(ZjctlError::parse_error(msg.as_str()));
        },
    };
    let id = max_tab_id(&panes);
    Ok(Some(id))
}

// ---------------------------------------------------------------------
// Dispatch
// ---------------------------------------------------------------------

/// `r` is the outcome of carrying out the `tabs` verb `verb` with the
/// calls `c`.  On a dry run, `list` and `open` report their command line
/// and call nothing; `focus` resolves its tab first.
pub open spec fn tabs_ran<Z: ZellijRunner>(
    verb: TabsVerb,
    dry_run: bool,
    c: Seq<Call>,
    r: Result<Emission, ZjctlError>,
) -> bool {
    match verb {
        TabsVerb::List => if dry_run {
            c.len() == 0 && (r matches Ok(Emission::DryRun(cmd)) && string_views(cmd@) == zellij_action(list_panes_args()))
        } else {
            exists|lr: Result<TabsOutput, ZjctlError>|
                #[trigger] tabs_list_outcome::<Z>(c, lr) && match lr {
                    Ok(o) => r == Ok::<Emission, ZjctlError>(Emission::Tabs(o)),
                    Err(e) => r == Err::<Emission, ZjctlError>(e),
                }
        },
        TabsVerb::Focus { tab } => exists|fr: Result<Vec<String>, ZjctlError>|
            #[trigger] tab_focus_outcome(tab@, dry_run, c, fr) && action_emitted(fr, dry_run, r),
        TabsVerb::Open { name, layout, command } => {
            let args = new_tab_args(opt_view(name), opt_view(layout), string_views(command@));
            if dry_run {
                c.len() == 0 && (r matches Ok(Emission::DryRun(cmd)) && string_views(cmd@) == zellij_action(args))
            } else {
                exists|or: Result<Option<u32>, ZjctlError>|
                    #[trigger] tab_opened::<Z>(args, c, or) && match or {
                        Ok(Some(id)) => r == Ok::<Emission, ZjctlError>(Emission::OpenedTab(id)),
                        Ok(None) => false,
                        Err(e) => r == Err::<Emission, ZjctlError>(e),
                    }
            }
        },
    }
}

/// Carries out a `tabs` verb and returns what is to be printed; on a dry
/// run, the zellij command line instead.
pub fn run<Z: ZellijRunner>(verb: TabsVerb, zellij: &mut Client<Z>, dry_run: bool) -> (r: Result<
    Emission,
    ZjctlError,
>)
    requires
        verb matches TabsVerb::Focus { tab } ==> parse_u32(tab@) != Some(u32::MAX),
    ensures
        !dry_run ==> (r matches Ok(em) ==> !(em is DryRun)),
        dry_run ==> (r matches Ok(em) ==> em is DryRun),
        extends(old(zellij).calls(), final(zellij).calls()),
        tabs_ran::<Z>(verb, dry_run, calls_since(old(zellij).calls(), final(zellij).calls()), r),
{
    let ghost s0 = zellij.calls();
    match verb {
        TabsVerb::List => {
            if dry_run {
                let mut args: Vec<String> = Vec::new();
                push_str(&mut args, "list-panes");
                push_str(&mut args, "--json");
                push_str(&mut args, "--all");
                assert(string_views(args@) =~= list_panes_args());
                assert(calls_since(s0, zellij.calls()) =~= Seq::<Call>::empty());
                assert(zellij.calls().take(s0.len() as int) =~= s0);
                return Ok(Emission::DryRun(with_zellij_action(&args)));
            }
            let lr = list(zellij);
            assert(tabs_list_outcome::<Z>(calls_since(s0, zellij.calls()), lr));
            match lr {
                Ok(output) => Ok(Emission::Tabs(output)),
                Err(e) => Err(e),
            }
        },
        TabsVerb::Focus { tab } => {
            let fr = focus(tab.as_str(), zellij, dry_run);
            assert(tab_focus_outcome(tab@, dry_run, calls_since(s0, zellij.calls()), fr));
            emit_action(fr, dry_run)
        },
        TabsVerb::Open { name, layout, command } => {
            let args = new_tab_command(&name, &layout, &command);
            let ghost spec_args = new_tab_args(opt_view(name), opt_view(layout), string_views(command@));
            let or = open(name, layout, command, zellij, dry_run);
            if dry_run {
                return Ok(Emission::DryRun(with_zellij_action(&args)));
            }
            assert(tab_opened::<Z>(spec_args, calls_since(s0, zellij.calls()), or));
            match or {
                Ok(Some(id)) => Ok(Emission::OpenedTab(id)),
                Ok(None) => Ok(Emission::Done),
                Err(e) => Err(e),
            }
        },
    }
}

} // verus!
