//! What a toggle does, and what else is asked of a list of panes.

use crate::json::opt_text;
use crate::launch::panes::{
    find, find_focused, find_id, find_pane, flag_safe, has_id, is_explorer, is_flag_safe,
    is_focused, is_restored, is_source_control, is_stale, is_text, lemma_find, listed_panes,
    pane_views, plain_path, read_panes, same_text, strip_verbatim, token_stale, Heartbeat, Pane,
    PaneView, SC_PANE_LABEL,
};
use crate::text::{contains, contains_str, matches_at, slice_to_string, starts_with, to_chars};
use vstd::prelude::*;

verus! {

// ---- Toggles ----

/// A pane in a tab or workspace; every pane where that is not given.
pub open spec fn in_scope(scope: Seq<char>) -> spec_fn(PaneView) -> bool {
    |p: PaneView| scope.len() == 0 || p.tab_id == Some(scope) || p.workspace_id == Some(scope)
}

/// The focused pane of a scope.
pub open spec fn focused_in_scope(scope: Seq<char>) -> spec_fn(PaneView) -> bool {
    |p: PaneView| in_scope(scope)(p) && p.focused
}

/// The pane whose tab a toggle acts on: the focused one of the scope, else the
/// first one in it. Without a scope there is none but the focused one.
pub open spec fn anchor(panes: Seq<PaneView>, scope: Seq<char>) -> Option<int> {
    match find(panes, focused_in_scope(scope), 0) {
        Some(i) => Some(i),
        None => if scope.len() > 0 {
            find(panes, in_scope(scope), 0)
        } else {
            None
        },
    }
}

/// An Explorer in a tab; in an unknown tab there is none.
pub open spec fn explorer_in(tab: Option<Seq<char>>) -> spec_fn(PaneView) -> bool {
    |p: PaneView| is_explorer(p) && tab is Some && p.tab_id == tab
}

/// A Source Control pane in a tab; in an unknown tab there is none.
pub open spec fn source_control_in(tab: Option<Seq<char>>) -> spec_fn(PaneView) -> bool {
    |p: PaneView| is_source_control(p) && tab is Some && p.tab_id == tab
}

/// What to do about a sidebar that is there: replace it where its process is
/// gone, close it where it is focused, else focus it. One whose id cannot be
/// named on a command line is left alone and a fresh one opened.
pub open spec fn verdict(pane: PaneView, focused: PaneView, gone: bool) -> Seq<char> {
    match pane.pane_id {
        Some(id) => if !flag_safe(id) {
            "OPEN"@
        } else if gone {
            "REPLACE "@ + id
        } else if focused.pane_id == Some(id) {
            "CLOSE "@ + id
        } else {
            "FOCUS "@ + id
        },
        None => "OPEN"@,
    }
}

/// Whether the process of an Explorer is gone.
pub open spec fn explorer_is_gone(pane: PaneView, now: u64) -> bool {
    is_stale(pane.tokens.explorer, now) || is_restored(pane)
}

/// Whether the process of a Source Control pane is gone.
pub open spec fn source_control_is_gone(pane: PaneView, now: u64) -> bool {
    is_stale(pane.tokens.source_control, now) || (pane.label == Some(SC_PANE_LABEL@)
        && pane.tokens.source_control is Absent)
}

/// What a toggle of the Explorer does.
pub open spec fn explorer_decision(panes: Seq<PaneView>, now: u64, scope: Seq<char>) -> Seq<char> {
    match anchor(panes, scope) {
        Some(a) => match find(panes, explorer_in(panes[a].tab_id), 0) {
            Some(e) => verdict(panes[e], panes[a], explorer_is_gone(panes[e], now)),
            None => "OPEN"@,
        },
        None => "OPEN"@,
    }
}

/// What a toggle of Source Control does.
pub open spec fn source_control_decision(panes: Seq<PaneView>, now: u64) -> Seq<char> {
    match find(panes, is_focused(), 0) {
        Some(a) => match find(panes, source_control_in(panes[a].tab_id), 0) {
            Some(e) => verdict(panes[e], panes[a], source_control_is_gone(panes[e], now)),
            None => "OPEN"@,
        },
        None => "OPEN"@,
    }
}

fn find_anchor(panes: &[Pane], scope: &str) -> (res: Option<usize>)
    ensures
        match res {
            Some(i) => i < panes@.len() && anchor(pane_views(panes@), scope@) == Some(i as int),
            None => anchor(pane_views(panes@), scope@) is None,
        },
{
    let all: bool = scope.is_empty();
    let focused = |p: &Pane| -> (r: bool)
        ensures r == focused_in_scope(scope@)(p@)
    {
        (all || is_text(&p.tab_id, scope) || is_text(&p.workspace_id, scope)) && p.focused
    };
    match find_pane(panes, focused, Ghost(focused_in_scope(scope@))) {
        Some(i) => Some(i),
        None => {
            if all {
                return None;
            }
            let inside = |p: &Pane| -> (r: bool)
                ensures r == in_scope(scope@)(p@)
            {
                all || is_text(&p.tab_id, scope) || is_text(&p.workspace_id, scope)
            };
            find_pane(panes, inside, Ghost(in_scope(scope@)))
        },
    }
}

fn word_and_id(word: &str, id: &str) -> (res: String)
    ensures
        res@ == word@ + id@,
{
    let mut out: String = word.to_owned();
    out.append(id);
    out
}

fn decide(pane: &Pane, focused: &Pane, gone: bool) -> (res: String)
    ensures
        res@ == verdict(pane@, focused@, gone),
{
    match &pane.pane_id {
        Some(id) => if !is_flag_safe(id.as_str()) {
            "OPEN".to_owned()
        } else if gone {
            word_and_id("REPLACE ", id.as_str())
        } else if is_text(&focused.pane_id, id.as_str()) {
            word_and_id("CLOSE ", id.as_str())
        } else {
            word_and_id("FOCUS ", id.as_str())
        },
        None => "OPEN".to_owned(),
    }
}

/// What a toggle of the Explorer does among these panes.
pub fn decide_explorer(panes: &[Pane], now: u64, scope: &str) -> (res: String)
    ensures
        res@ == explorer_decision(pane_views(panes@), now, scope@),
{
    let ghost views: Seq<PaneView> = pane_views(panes@);
    match find_anchor(panes, scope) {
        Some(a) => {
            let tab: &Option<String> = &panes[a].tab_id;
            assert(views[a as int] == panes@[a as int]@);
            let test = |p: &Pane| -> (r: bool)
                ensures r == explorer_in(opt_text(*tab))(p@)
            {
                p.is_explorer() && tab.is_some() && same_text(&p.tab_id, tab)
            };
            match find_pane(panes, test, Ghost(explorer_in(opt_text(*tab)))) {
                Some(e) => {
                    assert(views[e as int] == panes@[e as int]@);
                    let gone: bool = token_stale(panes[e].tokens.explorer, now)
                        || panes[e].our_label_without_token();
                    decide(&panes[e], &panes[a], gone)
                },
                None => "OPEN".to_owned(),
            }
        },
        None => "OPEN".to_owned(),
    }
}

/// What a toggle of Source Control does among these panes.
pub fn decide_source_control(panes: &[Pane], now: u64) -> (res: String)
    ensures
        res@ == source_control_decision(pane_views(panes@), now),
{
    let ghost views: Seq<PaneView> = pane_views(panes@);
    match find_focused(panes) {
        Some(a) => {
            let tab: &Option<String> = &panes[a].tab_id;
            assert(views[a as int] == panes@[a as int]@);
            let test = |p: &Pane| -> (r: bool)
                ensures r == source_control_in(opt_text(*tab))(p@)
            {
                p.is_source_control() && tab.is_some() && same_text(&p.tab_id, tab)
            };
            match find_pane(panes, test, Ghost(source_control_in(opt_text(*tab)))) {
                Some(e) => {
                    assert(views[e as int] == panes@[e as int]@);
                    let unstamped: bool = matches!(
                        panes[e].tokens.source_control,
                        Heartbeat::Absent
                    );
                    let gone: bool = token_stale(panes[e].tokens.source_control, now) || (is_text(
                        &panes[e].label,
                        SC_PANE_LABEL,
                    ) && unstamped);
                    decide(&panes[e], &panes[a], gone)
                },
                None => "OPEN".to_owned(),
            }
        },
        None => "OPEN".to_owned(),
    }
}

/// What a toggle of the Explorer does: `OPEN`, `FOCUS <id>`, `CLOSE <id>`, or
/// `REPLACE <id>` for a pane whose process is gone. A message that cannot be
/// read, one without a focused pane and an id that a command line could take for
/// a flag all open a fresh one: no toggle acts on a pane in an unknown tab.
pub fn launch_decision(pane_list_json: &str, now: u64) -> (res: String)
    ensures
        res@ == match listed_panes(pane_list_json@) {
            Some(panes) => explorer_decision(panes, now, Seq::empty()),
            None => "OPEN"@,
        },
{
    proof {
        reveal_strlit("");
        assert(""@ =~= Seq::<char>::empty());
    }
    launch_decision_in(pane_list_json, now, "")
}

/// What a toggle of the Explorer does in a tab or workspace, where some pane of
/// it stands in for the focused one. Without a scope it is `launch_decision`.
pub fn launch_decision_in(pane_list_json: &str, now: u64, scope: &str) -> (res: String)
    ensures
        res@ == match listed_panes(pane_list_json@) {
            Some(panes) => explorer_decision(panes, now, scope@),
            None => "OPEN"@,
        },
{
    match read_panes(pane_list_json) {
        Some(panes) => decide_explorer(panes.as_slice(), now, scope),
        None => "OPEN".to_owned(),
    }
}

/// What a toggle of Source Control does.
pub fn launch_decision_git(pane_list_json: &str, now: u64) -> (res: String)
    ensures
        res@ == match listed_panes(pane_list_json@) {
            Some(panes) => source_control_decision(panes, now),
            None => "OPEN"@,
        },
{
    match read_panes(pane_list_json) {
        Some(panes) => decide_source_control(panes.as_slice(), now),
        None => "OPEN".to_owned(),
    }
}

/// `CLOSE` in place of `FOCUS`; every other decision as it is.
pub open spec fn closing(decision: Seq<char>) -> Seq<char> {
    if starts_with(decision, "FOCUS "@) {
        "CLOSE "@ + decision.skip("FOCUS "@.len() as int)
    } else {
        decision
    }
}

/// The strict toggle: what would focus a sidebar closes it.
pub fn focus_as_close(decision: &str) -> (res: String)
    ensures
        res@ == closing(decision@),
{
    let chars: Vec<char> = to_chars(decision);
    let word: Vec<char> = to_chars("FOCUS ");
    if matches_at(chars.as_slice(), word.as_slice(), 0) {
        let mut out: String = "CLOSE ".to_owned();
        assert(decision@.skip(word@.len() as int) =~= decision@.subrange(
            word@.len() as int,
            decision@.len() as int,
        ));
        out.append(slice_to_string(chars.as_slice(), word.len(), chars.len()).as_str());
        out
    } else {
        decision.to_owned()
    }
}

/// A strict toggle never focuses, and what it closes or opens it closes or
/// opens however often it is asked.
pub proof fn law_strict_toggle_never_focuses(decision: Seq<char>)
    ensures
        !starts_with(closing(decision), "FOCUS "@),
        closing(closing(decision)) == closing(decision),
{
    reveal_strlit("FOCUS ");
    reveal_strlit("CLOSE ");
    if starts_with(decision, "FOCUS "@) {
        let closed = closing(decision);
        assert(closed[0] == 'C');
        if starts_with(closed, "FOCUS "@) {
            assert(closed.subrange(0, 6)[0] == closed[0]);
            assert("FOCUS "@[0] == 'F');
        }
    }
}

/// Names a sidebar that stands in the tab of the pane that a toggle acts on, by
/// an id that no command line takes for a flag.
pub open spec fn names_pane(
    decision: Seq<char>,
    panes: Seq<PaneView>,
    tab: Option<Seq<char>>,
    kind: spec_fn(PaneView) -> bool,
) -> bool {
    exists|e: int|
        #![trigger panes[e]]
        0 <= e < panes.len() && kind(panes[e]) && panes[e].tab_id == tab && (panes[e].pane_id
            matches Some(id) && flag_safe(id) && (decision == "FOCUS "@ + id || decision
            == "CLOSE "@ + id || decision == "REPLACE "@ + id))
}

/// A toggle opens a fresh Explorer or acts on one in the tab that it was asked
/// about, never on a pane elsewhere or of another kind.
pub proof fn law_toggles_stay_in_their_tab(panes: Seq<PaneView>, now: u64, scope: Seq<char>)
    ensures
        ({
            let decision = explorer_decision(panes, now, scope);
            ||| decision == "OPEN"@
            ||| (anchor(panes, scope) matches Some(a) && names_pane(
                decision,
                panes,
                panes[a].tab_id,
                |p: PaneView| is_explorer(p),
            ))
        }),
{
    match anchor(panes, scope) {
        Some(a) => {
            let want = explorer_in(panes[a].tab_id);
            lemma_find(panes, want, 0);
            match find(panes, want, 0) {
                Some(e) => {
                    assert(want(panes[e]));
                },
                None => {},
            }
        },
        None => {},
    }
}

/// A toggle acts on the tab of a pane in the scope, and on the focused one where
/// the scope has it. Without a scope it acts on the focused pane's tab or on none.
pub proof fn law_toggles_follow_the_focus(panes: Seq<PaneView>, scope: Seq<char>)
    ensures
        anchor(panes, scope) matches Some(a) ==> {
            &&& 0 <= a < panes.len()
            &&& in_scope(scope)(panes[a])
            &&& panes[a].focused || forall|k: int|
                0 <= k < panes.len() && in_scope(scope)(panes[k]) ==> !(#[trigger] panes[k]).focused
        },
        anchor(panes, scope) is None ==> forall|k: int|
            0 <= k < panes.len() && in_scope(scope)(#[trigger] panes[k]) ==> scope.len() == 0
                && !panes[k].focused,
        scope.len() == 0 ==> (anchor(panes, scope) matches Some(a) ==> panes[a].focused),
{
    let focused = focused_in_scope(scope);
    lemma_find(panes, focused, 0);
    lemma_find(panes, in_scope(scope), 0);
    if find(panes, focused, 0) is None {
        assert forall|k: int| 0 <= k < panes.len() && in_scope(scope)(panes[k]) implies !(
        #[trigger] panes[k]).focused by {
            assert(!focused(panes[k]));
        }
    }
}

/// Where no pane is focused, or only one in an unknown tab, a toggle opens a
/// fresh sidebar.
pub proof fn law_unknown_tabs_are_left_alone(panes: Seq<PaneView>, now: u64)
    requires
        forall|k: int|
            0 <= k < panes.len() && (#[trigger] panes[k]).focused ==> panes[k].tab_id is None,
    ensures
        explorer_decision(panes, now, Seq::empty()) == "OPEN"@,
        source_control_decision(panes, now) == "OPEN"@,
{
    let nothing = Seq::<char>::empty();
    lemma_find(panes, focused_in_scope(nothing), 0);
    lemma_find(panes, is_focused(), 0);
    lemma_find(panes, explorer_in(None), 0);
    lemma_find(panes, source_control_in(None), 0);
}

/// A live sidebar toggles between focused and closed: one that is focused is
/// closed, one that is not is focused.
pub proof fn law_live_sidebars_toggle(pane: PaneView, focused: PaneView)
    requires
        pane.pane_id matches Some(id) && flag_safe(id),
    ensures
        pane.pane_id == focused.pane_id ==> verdict(pane, focused, false) == "CLOSE "@
            + pane.pane_id->0,
        pane.pane_id != focused.pane_id ==> verdict(pane, focused, false) == "FOCUS "@
            + pane.pane_id->0,
{
}

// ---- Single questions ----

pub open spec fn has_sidebar_token(id: Seq<char>) -> spec_fn(PaneView) -> bool {
    |p: PaneView|
        p.pane_id == Some(id) && (!(p.tokens.explorer is Absent) || !(
        p.tokens.source_control is Absent))
}

pub fn carries_token(panes: &[Pane], pane_id: &str) -> (res: bool)
    ensures
        res == (find(pane_views(panes@), has_sidebar_token(pane_id@), 0) is Some),
{
    let test = |p: &Pane| -> (r: bool)
        ensures r == has_sidebar_token(pane_id@)(p@)
    {
        is_text(&p.pane_id, pane_id) && (!matches!(p.tokens.explorer, Heartbeat::Absent)
            || !matches!(p.tokens.source_control, Heartbeat::Absent))
    };
    find_pane(panes, test, Ghost(has_sidebar_token(pane_id@))).is_some()
}

/// Whether a pane carries a token of one of the two views.
pub fn pane_has_token(pane_list_json: &str, pane_id: &str) -> (res: bool)
    ensures
        res == (listed_panes(pane_list_json@) matches Some(panes) && find(
            panes,
            has_sidebar_token(pane_id@),
            0,
        ) is Some),
{
    match read_panes(pane_list_json) {
        Some(panes) => carries_token(panes.as_slice(), pane_id),
        None => false,
    }
}

pub open spec fn starts(panes: Seq<PaneView>, id: Seq<char>) -> bool {
    find(panes, has_id(id), 0) matches Some(i) && panes[i].tokens.starting
}

pub fn is_starting(panes: &[Pane], pane_id: &str) -> (res: bool)
    ensures
        res == starts(pane_views(panes@), pane_id@),
{
    match find_id(panes, pane_id) {
        Some(i) => {
            assert(pane_views(panes@)[i as int] == panes@[i as int]@);
            panes[i].tokens.starting
        },
        None => false,
    }
}

/// Whether a pane has been opened but its sidebar does not run yet.
pub fn pane_is_starting(pane_list_json: &str, pane_id: &str) -> (res: bool)
    ensures
        res == (listed_panes(pane_list_json@) matches Some(panes) && starts(panes, pane_id@)),
{
    match read_panes(pane_list_json) {
        Some(panes) => is_starting(panes.as_slice(), pane_id),
        None => false,
    }
}

/// The id of a pane and the folder it works in, with a tab between them; empty
/// where the id cannot be named on a command line.
pub open spec fn spawn_target(pane: PaneView) -> Seq<char> {
    match pane.pane_id {
        Some(id) => if flag_safe(id) {
            id + "\t"@ + match (pane.foreground_cwd, pane.cwd) {
                (Some(cwd), _) => plain_path(cwd),
                (None, Some(cwd)) => plain_path(cwd),
                (None, None) => Seq::empty(),
            }
        } else {
            Seq::empty()
        },
        None => Seq::empty(),
    }
}

fn pane_spawn_target(pane: &Pane) -> (res: String)
    ensures
        res@ == spawn_target(pane@),
{
    match &pane.pane_id {
        Some(id) => if is_flag_safe(id.as_str()) {
            let mut out: String = id.clone();
            out.append("\t");
            match &pane.foreground_cwd {
                Some(cwd) => {
                    out.append(strip_verbatim(cwd.as_str()).as_str());
                },
                None => match &pane.cwd {
                    Some(cwd) => {
                        out.append(strip_verbatim(cwd.as_str()).as_str());
                    },
                    None => {
                        assert(out@ =~= out@ + Seq::empty());
                    },
                },
            }
            out
        } else {
            String::new()
        },
        None => String::new(),
    }
}

pub open spec fn focused_target(panes: Seq<PaneView>) -> Seq<char> {
    match find(panes, is_focused(), 0) {
        Some(i) => spawn_target(panes[i]),
        None => Seq::empty(),
    }
}

pub fn focused_among(panes: &[Pane]) -> (res: String)
    ensures
        res@ == focused_target(pane_views(panes@)),
{
    match find_focused(panes) {
        Some(i) => {
            assert(pane_views(panes@)[i as int] == panes@[i as int]@);
            pane_spawn_target(&panes[i])
        },
        None => String::new(),
    }
}

/// The id of the focused pane and the folder it works in.
pub fn focused_pane(pane_list_json: &str) -> (res: String)
    ensures
        res@ == match listed_panes(pane_list_json@) {
            Some(panes) => focused_target(panes),
            None => Seq::empty(),
        },
{
    match read_panes(pane_list_json) {
        Some(panes) => focused_among(panes.as_slice()),
        None => String::new(),
    }
}

// ---- Where a sidebar is rooted ----

/// A pane of a workspace that is in some tab.
pub open spec fn tabbed_in(workspace: Seq<char>) -> spec_fn(PaneView) -> bool {
    |p: PaneView| p.workspace_id == Some(workspace) && p.tab_id is Some
}

/// A pane of a workspace that is in another tab.
pub open spec fn tabbed_elsewhere(workspace: Seq<char>, tab: Option<Seq<char>>) -> spec_fn(
    PaneView,
) -> bool {
    |p: PaneView| p.workspace_id == Some(workspace) && p.tab_id is Some && p.tab_id != tab
}

/// The tab of a workspace whose panes are all in one.
pub open spec fn only_tab(panes: Seq<PaneView>, workspace: Seq<char>) -> Option<Seq<char>> {
    match find(panes, tabbed_in(workspace), 0) {
        Some(i) => if find(panes, tabbed_elsewhere(workspace, panes[i].tab_id), 0) is None {
            panes[i].tab_id
        } else {
            None
        },
        None => None,
    }
}

/// The tab that a scope stands for: itself, or that of a workspace with one.
pub open spec fn scope_tab(panes: Seq<PaneView>, scope: Seq<char>) -> Option<Seq<char>> {
    if contains(scope, ":"@) {
        None
    } else {
        only_tab(panes, scope)
    }
}

pub open spec fn dockable(scope: Seq<char>, tab: Option<Seq<char>>) -> spec_fn(PaneView) -> bool {
    |p: PaneView|
        scope.len() == 0 || p.tab_id == Some(scope) || (tab is Some && p.tab_id == tab)
}

pub open spec fn dockable_focused(scope: Seq<char>, tab: Option<Seq<char>>) -> spec_fn(
    PaneView,
) -> bool {
    |p: PaneView| dockable(scope, tab)(p) && p.focused
}

/// The pane that a sidebar in `scope` is rooted from: the focused one there,
/// else the first one there.
pub open spec fn root_pane(panes: Seq<PaneView>, scope: Seq<char>) -> Option<int> {
    let tab = scope_tab(panes, scope);
    match find(panes, dockable_focused(scope, tab), 0) {
        Some(i) => Some(i),
        None => find(panes, dockable(scope, tab), 0),
    }
}

pub open spec fn scoped_target(panes: Seq<PaneView>, scope: Seq<char>) -> Seq<char> {
    match root_pane(panes, scope) {
        Some(i) => spawn_target(panes[i]),
        None => Seq::empty(),
    }
}

fn find_only_tab(panes: &[Pane], workspace: &str) -> (res: Option<String>)
    ensures
        opt_text(res) == only_tab(pane_views(panes@), workspace@),
{
    let ghost views: Seq<PaneView> = pane_views(panes@);
    let tabbed = |p: &Pane| -> (r: bool)
        ensures r == tabbed_in(workspace@)(p@)
    {
        is_text(&p.workspace_id, workspace) && p.tab_id.is_some()
    };
    match find_pane(panes, tabbed, Ghost(tabbed_in(workspace@))) {
        Some(i) => {
            proof {
                assert(views[i as int] == panes@[i as int]@);
                lemma_find(views, tabbed_in(workspace@), 0);
            }
            let tab: &Option<String> = &panes[i].tab_id;
            let elsewhere = |p: &Pane| -> (r: bool)
                ensures r == tabbed_elsewhere(workspace@, opt_text(*tab))(p@)
            {
                is_text(&p.workspace_id, workspace) && p.tab_id.is_some() && !same_text(
                    &p.tab_id,
                    tab,
                )
            };
            match find_pane(panes, elsewhere, Ghost(tabbed_elsewhere(workspace@, opt_text(*tab)))) {
                Some(_) => None,
                None => match tab {
                    Some(tab) => Some(tab.clone()),
                    None => None,
                },
            }
        },
        None => None,
    }
}

/// The id of the pane that a sidebar in `scope` is rooted from, and the folder
/// it works in.
pub fn target_in(panes: &[Pane], scope: &str) -> (res: String)
    ensures
        res@ == scoped_target(pane_views(panes@), scope@),
{
    let ghost views: Seq<PaneView> = pane_views(panes@);
    let all: bool = scope.is_empty();
    let names_tab: bool = contains_str(
        to_chars(scope).as_slice(),
        to_chars(":").as_slice(),
    );
    let tab: Option<String> = if names_tab {
        None
    } else {
        find_only_tab(panes, scope)
    };
    let ghost tab_view: Option<Seq<char>> = opt_text(tab);
    let tab_ref: &Option<String> = &tab;
    let focused = |p: &Pane| -> (r: bool)
        ensures r == dockable_focused(scope@, opt_text(*tab_ref))(p@)
    {
        (all || is_text(&p.tab_id, scope) || (tab_ref.is_some() && same_text(&p.tab_id, tab_ref)))
            && p.focused
    };
    let found: Option<usize> = match find_pane(
        panes,
        focused,
        Ghost(dockable_focused(scope@, tab_view)),
    ) {
        Some(i) => Some(i),
        None => {
            let inside = |p: &Pane| -> (r: bool)
                ensures r == dockable(scope@, opt_text(*tab_ref))(p@)
            {
                all || is_text(&p.tab_id, scope) || (tab_ref.is_some() && same_text(
                    &p.tab_id,
                    tab_ref,
                ))
            };
            find_pane(panes, inside, Ghost(dockable(scope@, tab_view)))
        },
    };
    match found {
        Some(i) => {
            assert(views[i as int] == panes@[i as int]@);
            pane_spawn_target(&panes[i])
        },
        None => String::new(),
    }
}

/// The id of the pane that a sidebar in a tab or workspace is rooted from, and
/// the folder it works in. A workspace with several tabs is not enough to go by.
pub fn focused_pane_in(pane_list_json: &str, scope: &str) -> (res: String)
    ensures
        res@ == match listed_panes(pane_list_json@) {
            Some(panes) => scoped_target(panes, scope@),
            None => Seq::empty(),
        },
{
    match read_panes(pane_list_json) {
        Some(panes) => target_in(panes.as_slice(), scope),
        None => String::new(),
    }
}

/// Panes with the ids that the multiplexer gives: each is in a tab, whose id
/// holds a colon, and in the workspace of that tab, whose id holds none.
pub open spec fn are_placed(panes: Seq<PaneView>) -> bool {
    &&& forall|k: int|
        0 <= k < panes.len() ==> ((#[trigger] panes[k]).tab_id matches Some(tab) && contains(
            tab,
            ":"@,
        )) && (panes[k].workspace_id matches Some(workspace) && !contains(workspace, ":"@))
    &&& forall|j: int, k: int|
        0 <= j < panes.len() && 0 <= k < panes.len() && (#[trigger] panes[j]).tab_id == (
        #[trigger] panes[k]).tab_id ==> panes[j].workspace_id == panes[k].workspace_id
}

/// A toggle decides about the very tab that a sidebar would be rooted in. Where
/// it has no tab to decide about, because there is no scope and no focused pane,
/// it opens a fresh sidebar.
pub proof fn law_toggles_decide_about_the_docks_tab(panes: Seq<PaneView>, scope: Seq<char>)
    requires
        are_placed(panes),
    ensures
        scope.len() > 0 ==> (root_pane(panes, scope) matches Some(i) ==> (anchor(
            panes,
            scope,
        ) matches Some(a) && panes[a].tab_id == panes[i].tab_id)),
        scope.len() == 0 ==> (anchor(panes, scope) matches Some(a) ==> (root_pane(
            panes,
            scope,
        ) matches Some(i) && panes[a].tab_id == panes[i].tab_id)),
        contains(scope, ":"@) ==> (root_pane(panes, scope) is None <==> anchor(
            panes,
            scope,
        ) is None),
{
    reveal_strlit(":");
    let tab = scope_tab(panes, scope);
    lemma_find(panes, focused_in_scope(scope), 0);
    lemma_find(panes, in_scope(scope), 0);
    lemma_find(panes, dockable_focused(scope, tab), 0);
    lemma_find(panes, dockable(scope, tab), 0);
    lemma_find(panes, tabbed_in(scope), 0);
    if let Some(t) = find(panes, tabbed_in(scope), 0) {
        lemma_find(panes, tabbed_elsewhere(scope, panes[t].tab_id), 0);
    }
    assert forall|k: int|
        0 <= k < panes.len() && dockable(scope, tab)(#[trigger] panes[k]) implies in_scope(scope)(
        panes[k],
    ) by {
        if tab is Some && panes[k].tab_id == tab && scope.len() > 0 {
            let t = find(panes, tabbed_in(scope), 0)->0;
            assert(tabbed_in(scope)(panes[t]));
            assert(panes[t].tab_id == panes[k].tab_id);
        }
    }
    if contains(scope, ":"@) {
        assert forall|k: int|
            0 <= k < panes.len() && in_scope(scope)(#[trigger] panes[k]) implies dockable(
            scope,
            tab,
        )(panes[k]) by {
        }
    }
    if let Some(i) = root_pane(panes, scope) {
        assert(dockable(scope, tab)(panes[i]));
        assert(in_scope(scope)(panes[i]));
        if let Some(a) = anchor(panes, scope) {
            assert(in_scope(scope)(panes[a]));
            if scope.len() == 0 {
                assert forall|k: int| 0 <= k < panes.len() implies focused_in_scope(scope)(
                    #[trigger] panes[k],
                ) == dockable_focused(scope, tab)(panes[k]) by {
                }
                assert forall|k: int| 0 <= k < panes.len() implies in_scope(scope)(
                    #[trigger] panes[k],
                ) == dockable(scope, tab)(panes[k]) by {
                }
                lemma_find_same(panes, focused_in_scope(scope), dockable_focused(scope, tab), 0);
                lemma_find_same(panes, in_scope(scope), dockable(scope, tab), 0);
            } else if !contains(scope, ":"@) {
                let t = find(panes, tabbed_in(scope), 0)->0;
                assert(!tabbed_elsewhere(scope, panes[t].tab_id)(panes[a]));
            }
        }
    }
}

proof fn lemma_find_same(
    panes: Seq<PaneView>,
    a: spec_fn(PaneView) -> bool,
    b: spec_fn(PaneView) -> bool,
    i: int,
)
    requires
        0 <= i,
        forall|k: int| 0 <= k < panes.len() ==> a(#[trigger] panes[k]) == b(panes[k]),
    ensures
        find(panes, a, i) == find(panes, b, i),
    decreases panes.len() - i,
{
    if i < panes.len() {
        lemma_find_same(panes, a, b, i + 1);
    }
}

} // verus!
