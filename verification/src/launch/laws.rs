//! What holds of every answer about panes, layouts and events, said of the
//! panes themselves.

use crate::json::{member, parsed, Json};
use crate::launch::decision::{
    anchor, explorer_decision, explorer_in, focused_in_scope, focused_target, closing,
    has_sidebar_token, only_tab, root_pane, scope_tab, scoped_target, source_control_decision,
    source_control_in, spawn_target, starts, tabbed_elsewhere, tabbed_in,
};
use crate::launch::events::{
    event_data, id_in, kind_of, kind_under, raw_kind, scope_in_context, scope_of, undotted,
};
use crate::launch::follow::{
    first_focused, first_with_id, followed, fresh_follower, sibling, FollowerView, SiblingView,
};
use crate::launch::layout::{
    can_dock, dock_target, edge_pane, layout_in, layout_pane_in, layout_panes_in, layout_split_in,
    layout_splits_in, layout_width, neighbour, open_share, pane_at, planned_opening, ratio_field,
    rect_field, rect_in, repair, shared_width, shown_layout, LayoutPaneView, LayoutSplitView,
    LayoutView, Rect,
};
use crate::launch::panes::{
    find, flag_safe, has_id, in_tab, is_explorer, is_focused, is_plugin_pane, is_source_control, is_stale,
    lemma_find, listed_panes, pane_in, pane_views, panes_in, plain_path, Heartbeat, Pane, PaneView,
};
use crate::launch::queries::{
    entry_with_id, first_in_tab, first_outside_tab, focused_id, focused_tab_of, has_tab,
    lists_as_focused, not_in_tab, tab_holding, tabs_among, workspace_holding,
};
use crate::launch::replies::{
    created_tab, label_from, nested_text, result_of, safe_id, workspace_in,
};
use crate::launch::resize::{divider, inner_split, moves_edge, new_width, resize, step_for};
use crate::ranking::text_before;
use crate::records::{
    fields_of, flag_field, given, list_field, message_value, optional, required, text_field, Fields,
    Given,
};
use crate::text::{contains, starts_with, string_views};
use vstd::prelude::*;

verus! {

proof fn lemma_first(panes: Seq<PaneView>, want: spec_fn(PaneView) -> bool, k: int)
    requires
        0 <= k < panes.len(),
        want(panes[k]),
        forall|j: int| 0 <= j < k ==> !want(#[trigger] panes[j]),
    ensures
        find(panes, want, 0) == Some(k),
{
    lemma_find(panes, want, 0);
}

proof fn lemma_none(panes: Seq<PaneView>, want: spec_fn(PaneView) -> bool)
    requires
        forall|j: int| 0 <= j < panes.len() ==> !want(#[trigger] panes[j]),
    ensures
        find(panes, want, 0) is None,
{
    lemma_find(panes, want, 0);
}

// ---- Where a sidebar is rooted ----

/// A pane is answered with its id, a tab character and the folder that its
/// foreground process works in, whatever folder the pane itself reports. Only
/// where no foreground folder is reported is it the pane's own, and where there
/// is neither it is empty. A pane whose id cannot be named is answered with
/// nothing.
pub proof fn law_the_foreground_folder_comes_first(pane: PaneView)
    ensures
        pane.pane_id matches Some(id) ==> (flag_safe(id) ==> {
            &&& pane.foreground_cwd matches Some(folder) ==> spawn_target(pane) == id + "\t"@
                + plain_path(folder)
            &&& pane.foreground_cwd is None ==> (pane.cwd matches Some(folder) ==> spawn_target(
                pane,
            ) == id + "\t"@ + plain_path(folder))
            &&& pane.foreground_cwd is None && pane.cwd is None ==> spawn_target(pane) == id
                + "\t"@
        }),
        (pane.pane_id matches Some(id) ==> !flag_safe(id)) ==> spawn_target(pane).len() == 0,
        forall|cwd: Option<Seq<char>>|
            pane.foreground_cwd is Some ==> #[trigger] spawn_target(PaneView { cwd, ..pane })
                == spawn_target(pane),
{
    if let Some(id) = pane.pane_id {
        assert(id + "\t"@ + Seq::empty() =~= id + "\t"@);
    }
}

/// A path loses the four characters that mark it as verbatim, and no other path
/// changes.
pub proof fn law_plain_paths_lose_the_mark_alone(path: Seq<char>)
    ensures
        plain_path(seq!['\\', '\\', '?', '\\'] + path) == path,
        !(path.len() >= 4 && path[0] == '\\' && path[1] == '\\' && path[2] == '?' && path[3]
            == '\\') ==> plain_path(path) == path,
{
    reveal_strlit("\\\\?\\");
    let mark = "\\\\?\\"@;
    assert(mark =~= seq!['\\', '\\', '?', '\\']);
    assert((mark + path).subrange(0, 4) =~= mark);
    assert((mark + path).skip(4) =~= path);
    if starts_with(path, mark) {
        assert(path.subrange(0, 4)[0] == mark[0]);
        assert(path.subrange(0, 4)[1] == mark[1]);
        assert(path.subrange(0, 4)[2] == mark[2]);
        assert(path.subrange(0, 4)[3] == mark[3]);
    }
}

/// Without a scope the answer is about the first pane that is focused, and empty
/// where none is: its id and its foreground folder, its tab, its id alone.
pub proof fn law_the_first_focused_pane_is_answered(panes: Seq<PaneView>, k: int)
    requires
        0 <= k < panes.len(),
        panes[k].focused,
        forall|j: int| 0 <= j < k ==> !(#[trigger] panes[j]).focused,
    ensures
        panes[k].pane_id matches Some(id) ==> {
            &&& flag_safe(id) && panes[k].foreground_cwd is Some ==> focused_target(panes) == id
                + "\t"@ + plain_path(panes[k].foreground_cwd->0)
            &&& flag_safe(id) && panes[k].foreground_cwd is None && panes[k].cwd is Some
                ==> focused_target(panes) == id + "\t"@ + plain_path(panes[k].cwd->0)
            &&& !flag_safe(id) ==> focused_target(panes).len() == 0
            &&& focused_id(panes) == id
        },
        panes[k].tab_id matches Some(tab) ==> focused_tab_of(panes) == if flag_safe(tab) {
            tab
        } else {
            Seq::empty()
        },
        anchor(panes, Seq::empty()) == Some(k),
{
    lemma_first(panes, is_focused(), k);
    lemma_first(panes, focused_in_scope(Seq::empty()), k);
}

/// Where no pane is focused there is nothing to answer.
pub proof fn law_without_focus_nothing_is_answered(panes: Seq<PaneView>)
    requires
        forall|j: int| 0 <= j < panes.len() ==> !(#[trigger] panes[j]).focused,
    ensures
        focused_target(panes).len() == 0,
        focused_tab_of(panes).len() == 0,
        focused_id(panes).len() == 0,
{
    lemma_none(panes, is_focused());
}

/// In a tab the answer is about the first focused pane of that tab, and about
/// its first pane where none of them is focused.
pub proof fn law_tabs_are_rooted_in_their_focused_pane(panes: Seq<PaneView>, tab: Seq<char>, k: int)
    requires
        contains(tab, ":"@),
        tab.len() > 0,
        0 <= k < panes.len(),
        panes[k].tab_id == Some(tab),
        ({
            ||| panes[k].focused && forall|j: int|
                0 <= j < k ==> !((#[trigger] panes[j]).tab_id == Some(tab) && panes[j].focused)
            ||| (forall|j: int| 0 <= j < k ==> (#[trigger] panes[j]).tab_id != Some(tab))
                && forall|j: int|
                0 <= j < panes.len() ==> !((#[trigger] panes[j]).tab_id == Some(tab)
                    && panes[j].focused)
        }),
    ensures
        panes[k].pane_id matches Some(id) ==> (flag_safe(id) && panes[k].foreground_cwd is Some
            ==> scoped_target(panes, tab) == id + "\t"@ + plain_path(panes[k].foreground_cwd->0)),
        root_pane(panes, tab) == Some(k),
{
    use_dockable(panes, tab);
    let there = crate::launch::decision::dockable(tab, None);
    let focused = crate::launch::decision::dockable_focused(tab, None);
    assert(scope_tab(panes, tab) is None);
    if panes[k].focused && forall|j: int|
        0 <= j < k ==> !((#[trigger] panes[j]).tab_id == Some(tab) && panes[j].focused) {
        lemma_first(panes, focused, k);
    } else {
        lemma_none(panes, focused);
        lemma_first(panes, there, k);
    }
}

proof fn use_dockable(panes: Seq<PaneView>, tab: Seq<char>)
    requires
        tab.len() > 0,
    ensures
        forall|p: PaneView| #[trigger]
            crate::launch::decision::dockable(tab, None)(p) <==> p.tab_id == Some(tab),
        forall|p: PaneView| #[trigger]
            crate::launch::decision::dockable_focused(tab, None)(p) <==> p.tab_id == Some(tab)
                && p.focused,
{
}

// ---- What a toggle does ----

/// Whether a pane shows the Explorer: it reports the Explorer's heartbeat, or
/// bears one of its labels.
pub open spec fn shows_explorer(pane: PaneView) -> bool {
    pane.tokens.explorer !is Absent || pane.label == Some("Explorer"@) || pane.label == Some(
        "Sidebar"@,
    )
}

/// A toggle looks at the first Explorer in the tab of the first focused pane.
/// One that has been silent for more than 20 seconds, or has a label and no
/// heartbeat, is replaced; one that is focused is closed; any other is focused.
pub proof fn law_a_toggle_replaces_closes_or_focuses(
    panes: Seq<PaneView>,
    now: u64,
    a: int,
    e: int,
    tab: Seq<char>,
    id: Seq<char>,
)
    requires
        0 <= a < panes.len(),
        panes[a].focused,
        panes[a].tab_id == Some(tab),
        forall|j: int| 0 <= j < a ==> !(#[trigger] panes[j]).focused,
        0 <= e < panes.len(),
        panes[e].tab_id == Some(tab),
        shows_explorer(panes[e]),
        forall|j: int|
            0 <= j < e ==> !((#[trigger] panes[j]).tab_id == Some(tab) && shows_explorer(panes[j])),
        panes[e].pane_id == Some(id),
        flag_safe(id),
    ensures
        ({
            let decision = explorer_decision(panes, now, Seq::empty());
            match panes[e].tokens.explorer {
                Heartbeat::Absent => decision == "REPLACE "@ + id,
                Heartbeat::Unreadable => decision == "REPLACE "@ + id,
                Heartbeat::At(time) => if now > time + 20 {
                    decision == "REPLACE "@ + id
                } else if panes[a].pane_id == Some(id) {
                    decision == "CLOSE "@ + id
                } else {
                    decision == "FOCUS "@ + id
                },
            }
        }),
{
    lemma_first(panes, focused_in_scope(Seq::empty()), a);
    let want = explorer_in(Some(tab));
    assert forall|j: int| 0 <= j < e implies !want(#[trigger] panes[j]) by {
        assert(is_explorer(panes[j]) <==> shows_explorer(panes[j]));
    }
    lemma_first(panes, want, e);
}

/// The same of Source Control.
pub proof fn law_a_git_toggle_replaces_closes_or_focuses(
    panes: Seq<PaneView>,
    now: u64,
    a: int,
    e: int,
    tab: Seq<char>,
    id: Seq<char>,
)
    requires
        0 <= a < panes.len(),
        panes[a].focused,
        panes[a].tab_id == Some(tab),
        forall|j: int| 0 <= j < a ==> !(#[trigger] panes[j]).focused,
        0 <= e < panes.len(),
        panes[e].tab_id == Some(tab),
        panes[e].tokens.source_control !is Absent || panes[e].label == Some("Source Control"@),
        forall|j: int|
            0 <= j < e ==> !((#[trigger] panes[j]).tab_id == Some(tab) && (
            panes[j].tokens.source_control !is Absent || panes[j].label == Some(
                "Source Control"@,
            ))),
        panes[e].pane_id == Some(id),
        flag_safe(id),
    ensures
        ({
            let decision = source_control_decision(panes, now);
            match panes[e].tokens.source_control {
                Heartbeat::Absent => decision == "REPLACE "@ + id,
                Heartbeat::Unreadable => decision == "REPLACE "@ + id,
                Heartbeat::At(time) => if now > time + 20 {
                    decision == "REPLACE "@ + id
                } else if panes[a].pane_id == Some(id) {
                    decision == "CLOSE "@ + id
                } else {
                    decision == "FOCUS "@ + id
                },
            }
        }),
{
    lemma_first(panes, is_focused(), a);
    let want = source_control_in(Some(tab));
    assert forall|j: int| 0 <= j < e implies !want(#[trigger] panes[j]) by {
        assert(is_source_control(panes[j]) <==> panes[j].tokens.source_control !is Absent
            || panes[j].label == Some("Source Control"@));
    }
    lemma_first(panes, want, e);
}

/// A toggle opens a sidebar where the tab has none.
pub proof fn law_a_toggle_opens_where_there_is_none(panes: Seq<PaneView>, now: u64, a: int)
    requires
        0 <= a < panes.len(),
        panes[a].focused,
        forall|j: int| 0 <= j < a ==> !(#[trigger] panes[j]).focused,
    ensures
        (forall|j: int|
            0 <= j < panes.len() && shows_explorer(#[trigger] panes[j]) ==> panes[j].tab_id
                != panes[a].tab_id) ==> explorer_decision(panes, now, Seq::empty()) == "OPEN"@,
        (forall|j: int|
            0 <= j < panes.len() && is_source_control(#[trigger] panes[j]) ==> panes[j].tab_id
                != panes[a].tab_id) ==> source_control_decision(panes, now) == "OPEN"@,
{
    lemma_first(panes, focused_in_scope(Seq::empty()), a);
    lemma_first(panes, is_focused(), a);
    let tab = panes[a].tab_id;
    if forall|j: int|
        0 <= j < panes.len() && shows_explorer(#[trigger] panes[j]) ==> panes[j].tab_id != tab {
        let want = explorer_in(tab);
        assert forall|j: int| 0 <= j < panes.len() implies !want(#[trigger] panes[j]) by {
            assert(is_explorer(panes[j]) <==> shows_explorer(panes[j]));
        }
        lemma_none(panes, want);
    }
    if forall|j: int|
        0 <= j < panes.len() && is_source_control(#[trigger] panes[j]) ==> panes[j].tab_id != tab {
        lemma_none(panes, source_control_in(tab));
    }
}

/// The panes of the plugin are those that report one of its heartbeats, or bear
/// one of its labels, or show a preview or an editor by their label.
pub proof fn law_plugin_panes_say_so(pane: PaneView)
    ensures
        pane.tokens.explorer !is Absent ==> is_plugin_pane(pane),
        pane.tokens.source_control !is Absent ==> is_plugin_pane(pane),
        pane.tokens.preview ==> is_plugin_pane(pane),
        pane.label == Some("Explorer"@) || pane.label == Some("Sidebar"@) || pane.label == Some(
            "Source Control"@,
        ) || pane.label == Some("Preview"@) ==> is_plugin_pane(pane),
        pane.tokens.explorer is Absent && pane.tokens.source_control is Absent
            && !pane.tokens.preview && pane.label is None ==> !is_plugin_pane(pane),
{
}

/// A pane that has been opened and has not started yet is told by its own token;
/// a pane with another id does not count.
pub proof fn law_starting_panes_are_told_by_their_own_token(
    panes: Seq<PaneView>,
    id: Seq<char>,
    k: int,
)
    requires
        0 <= k < panes.len(),
        panes[k].pane_id == Some(id),
        forall|j: int| 0 <= j < k ==> (#[trigger] panes[j]).pane_id != Some(id),
    ensures
        starts(panes, id) == panes[k].tokens.starting,
        (forall|j: int| k < j < panes.len() ==> (#[trigger] panes[j]).pane_id != Some(id)) ==> (
        find(panes, has_sidebar_token(id), 0) is Some <==> panes[k].tokens.explorer !is Absent
            || panes[k].tokens.source_control !is Absent),
        tab_holding(panes, id) == (match panes[k].tab_id {
            Some(tab) => tab,
            None => Seq::empty(),
        }),
        workspace_holding(panes, id) == (match panes[k].workspace_id {
            Some(workspace) => workspace,
            None => Seq::empty(),
        }),
{
    lemma_first(panes, has_id(id), k);
    lemma_find(panes, has_sidebar_token(id), 0);
    if panes[k].tokens.explorer !is Absent || panes[k].tokens.source_control !is Absent {
        assert(has_sidebar_token(id)(panes[k]));
    }
}

/// A pane in a tab is the first one reported there, and a pane outside of it is
/// the first one reported elsewhere.
pub proof fn law_panes_are_looked_up_by_their_tab(panes: Seq<PaneView>, tab: Seq<char>, k: int)
    requires
        0 <= k < panes.len(),
    ensures
        panes[k].tab_id == Some(tab) && (forall|j: int|
            0 <= j < k ==> (#[trigger] panes[j]).tab_id != Some(tab)) ==> (panes[k].pane_id
            matches Some(id) ==> first_in_tab(panes, tab) == id),
        panes[k].tab_id != Some(tab) && (forall|j: int|
            0 <= j < k ==> (#[trigger] panes[j]).tab_id == Some(tab)) ==> (panes[k].pane_id
            matches Some(id) ==> first_outside_tab(panes, tab) == id),
{
    lemma_find(panes, in_tab(tab), 0);
    lemma_find(panes, not_in_tab(tab), 0);
    assert(in_tab(tab)(panes[k]) <==> panes[k].tab_id == Some(tab));
    assert(not_in_tab(tab)(panes[k]) <==> panes[k].tab_id != Some(tab));
}

// ---- What a pane reports ----

/// Each part of a pane is read from the field of its name, and from no other.
pub proof fn law_panes_are_read_by_name(value: Seq<char>, fields: Fields)
    requires
        fields_of(value, 8) == Some(fields),
        pane_in(value) is Some,
    ensures
        ({
            let pane = pane_in(value)->0;
            &&& text_field(fields, 0, "pane_id"@) == Some(pane.pane_id)
            &&& text_field(fields, 1, "label"@) == Some(pane.label)
            &&& text_field(fields, 2, "cwd"@) == Some(pane.cwd)
            &&& text_field(fields, 3, "foreground_cwd"@) == Some(pane.foreground_cwd)
            &&& flag_field(fields, 4, "focused"@) == Some(pane.focused)
            &&& text_field(fields, 5, "tab_id"@) == Some(pane.tab_id)
            &&& text_field(fields, 6, "workspace_id"@) == Some(pane.workspace_id)
        }),
{
}

/// A new tab is answered with its id and then with that of its first pane.
pub proof fn law_new_tabs_are_named_before_their_pane(
    answer: Option<Seq<char>>,
    fields: Fields,
    tab: Seq<char>,
    pane: Seq<char>,
)
    requires
        result_of(answer, 2) == Some(fields),
        nested_text(fields, 0, "tab"@, "tab_id"@) == Some(Some(tab)),
        nested_text(fields, 1, "root_pane"@, "pane_id"@) == Some(Some(pane)),
    ensures
        flag_safe(tab) && flag_safe(pane) ==> created_tab(answer) == Some((tab, pane)),
        !(flag_safe(tab) && flag_safe(pane)) ==> created_tab(answer) is None,
{
}

/// The label of a workspace is that of the first one with its id.
pub proof fn law_workspaces_are_told_by_id(
    list: Seq<Seq<char>>,
    id: Seq<char>,
    i: int,
    k: int,
    label: Seq<char>,
)
    requires
        0 <= i <= k < list.len(),
        workspace_in(list[k]) == Some((Some(id), Some(label))),
        forall|j: int|
            i <= j < k ==> (workspace_in(#[trigger] list[j]) matches Some(found) ==> found.0
                != Some(id)),
    ensures
        label_from(list, id, i) == label,
    decreases k - i,
{
    if i < k {
        assert(workspace_in(list[i]) matches Some(found) ==> found.0 != Some(id));
        law_workspaces_are_told_by_id(list, id, i + 1, k, label);
    }
}

// ---- Docking ----

/// A sidebar on the left docks at a pane with the least left edge, the topmost of
/// these; one on the right at a pane with the greatest right edge, the topmost of
/// these. On the left it changes places with that pane, on the right it does not.
pub proof fn law_docks_are_outermost(
    layout: LayoutView,
    dock_right: bool,
    target: u16,
    i: int,
    k: int,
)
    requires
        edge_pane(layout.panes, dock_right, layout.panes.len() as int) == Some(i),
        0 <= k < layout.panes.len(),
        can_dock(layout.panes[k]),
    ensures
        0 <= i < layout.panes.len(),
        layout.panes[i].pane_id matches Some(id) && layout.panes[i].rect matches Some(here)
            && layout.panes[k].rect matches Some(there) && {
            &&& !dock_right ==> here.x <= there.x && (here.x == there.x ==> here.y <= there.y)
            &&& dock_right ==> here.x + here.width >= there.x + there.width && (here.x + here.width
                == there.x + there.width ==> here.y <= there.y)
            &&& dock_target(layout, dock_right) == Some((id, here.width))
            &&& planned_opening(layout, dock_right, target) matches Some(plan) && plan.0 == id
                && plan.2 == !dock_right && plan.1 == open_share(target as int, here.width as int)
        },
{
    crate::launch::layout::law_sidebars_dock_at_the_edge(layout, dock_right);
}

/// A sidebar that is not of full height is repaired with the pane right below it,
/// under its left edge, and the one right beside it on the side of the work: on
/// its right where it is docked on the left, and on its left where it is docked
/// on the right.
pub proof fn law_repairs_name_the_neighbours(
    layout: LayoutView,
    id: Seq<char>,
    dock_right: bool,
    m: int,
)
    requires
        pane_at(layout.panes, id, 0) == Some(m),
        repair(layout, id, dock_right) is Some,
    ensures
        ({
            let (below, beside, tab) = repair(layout, id, dock_right)->0;
            &&& layout.tab_id == Some(tab)
            &&& layout.panes[m].rect matches Some(me) && layout.area matches Some(area) && me.height
                < area.height && (exists|b: int|
                #![trigger layout.panes[b]]
                0 <= b < layout.panes.len() && layout.panes[b].pane_id == Some(below) && below != id
                    && (layout.panes[b].rect matches Some(r) && r.y == me.y + me.height && r.x
                    <= me.x < r.x + r.width)) && (exists|s: int|
                #![trigger layout.panes[s]]
                0 <= s < layout.panes.len() && layout.panes[s].pane_id == Some(beside) && beside
                    != id && (layout.panes[s].rect matches Some(r) && r.y == me.y && (if dock_right {
                    r.x + r.width == me.x
                } else {
                    r.x == me.x + me.width
                })))
        }),
{
    let me = layout.panes[m].rect->0;
    lemma_neighbour(layout.panes, id, me, true, dock_right, 0);
    lemma_neighbour(layout.panes, id, me, false, dock_right, 0);
    let b = neighbour(layout.panes, id, me, true, dock_right, 0)->0;
    let s = neighbour(layout.panes, id, me, false, dock_right, 0)->0;
    assert(layout.panes[b].pane_id is Some && layout.panes[s].pane_id is Some);
}

proof fn lemma_neighbour(
    panes: Seq<LayoutPaneView>,
    my_id: Seq<char>,
    me: Rect,
    below: bool,
    dock_right: bool,
    i: int,
)
    requires
        0 <= i,
    ensures
        neighbour(panes, my_id, me, below, dock_right, i) matches Some(k) ==> i <= k < panes.len()
            && panes[k].pane_id != Some(my_id) && panes[k].pane_id is Some && (panes[k].rect
            matches Some(r) && (if below {
            r.y == me.y + me.height && r.x <= me.x < r.x + r.width
        } else {
            r.y == me.y && (if dock_right {
                r.x + r.width == me.x
            } else {
                r.x == me.x + me.width
            })
        })),
    decreases panes.len() - i,
{
    if i < panes.len() {
        lemma_neighbour(panes, my_id, me, below, dock_right, i + 1);
    }
}

proof fn lemma_inner_split(
    layout: LayoutView,
    dividers: Seq<Option<i64>>,
    pane: Rect,
    dock_right: bool,
    n: int,
)
    requires
        0 <= n <= layout.splits.len(),
    ensures
        inner_split(layout.splits, dividers, pane, dock_right, n) matches Some(s) ==> 0 <= s < n
            && layout.splits[s].direction == Some("right"@) && (layout.splits[s].rect matches Some(
            rect,
        ) && rect.width > 0 && (divider(dividers, s) matches Some(offset) && -2 <= rect.x + offset
            - (if dock_right {
            pane.x as int
        } else {
            pane.x + pane.width
        }) <= 2)),
    decreases n,
{
    if n > 0 {
        lemma_inner_split(layout, dividers, pane, dock_right, n - 1);
    }
}

/// A sidebar is resized at the split whose divider lies within two columns of the
/// edge it shares with the work: its right edge where it is docked on the left,
/// its left edge where it is docked on the right. It widens towards the work: to
/// the right on the left side, to the left on the right side. A change of less
/// than half a percent of the split is left alone.
pub proof fn law_sidebars_are_resized_at_their_inner_edge(
    layout: LayoutView,
    dividers: Seq<Option<i64>>,
    id: Seq<char>,
    now: u16,
    target: u16,
    dock_right: bool,
    p: int,
    pane: Rect,
)
    requires
        pane_at(layout.panes, id, 0) == Some(p),
        layout.panes[p].rect == Some(pane),
        pane.width >= now,
        resize(layout, dividers, id, now, target, dock_right, false) is Some,
    ensures
        ({
            let (direction, size, split) = resize(
                layout,
                dividers,
                id,
                now,
                target,
                dock_right,
                false,
            )->0;
            &&& 200 * size >= split
            &&& size == (if target >= now {
                target - now
            } else {
                now - target
            })
            &&& target > now ==> direction == (if dock_right {
                "left"@
            } else {
                "right"@
            })
            &&& target < now ==> direction == (if dock_right {
                "right"@
            } else {
                "left"@
            })
            &&& exists|s: int|
                #![trigger layout.splits[s]]
                0 <= s < layout.splits.len() && (layout.splits[s].rect matches Some(rect)
                    && rect.width == split && (divider(dividers, s) matches Some(offset) && -2
                    <= rect.x + offset - (if dock_right {
                    pane.x as int
                } else {
                    pane.x + pane.width
                }) <= 2))
        }),
{
    lemma_inner_split(layout, dividers, pane, dock_right, layout.splits.len() as int);
    let s = inner_split(
        layout.splits,
        dividers,
        pane,
        dock_right,
        layout.splits.len() as int,
    )->0;
    assert(layout.splits[s].rect is Some);
}

/// A rectangle is read by the names of its sides.
pub proof fn law_rectangles_are_read_by_name(value: Seq<char>, fields: Fields)
    requires
        fields_of(value, 4) == Some(fields),
        rect_in(value) is Some,
    ensures
        ({
            let rect = rect_in(value)->0;
            &&& crate::launch::layout::number_field(fields, 0, "x"@) matches Some(x) && rect.x
                == x as i64
            &&& crate::launch::layout::number_field(fields, 1, "y"@) matches Some(y) && rect.y
                == y as i64
            &&& crate::launch::layout::number_field(fields, 2, "width"@) matches Some(width)
                && rect.width == width as i64
            &&& given(fields, 3, "height"@) is Not ==> rect.height == 0
            &&& given(fields, 3, "height"@) matches Given::Once(text) ==> (
            crate::launch::layout::whole_number(text) matches Some(height) && rect.height
                == height as i64)
        }),
{
}

// ---- Events ----

/// An event is about the tab that it names; about the tab of the pane that it
/// names where it names no tab; and about the workspace that it names where it
/// names neither, as far as the id can be named on a command line.
pub proof fn law_events_are_about_the_nearest_thing_they_name(
    data: Json,
    panes: Seq<PaneView>,
    k: int,
)
    requires
        member(data, "data"@) is None,
        0 <= k < panes.len(),
    ensures
        member(data, "tab_id"@) matches Some(Json::Text(tab)) ==> (flag_safe(tab) ==> scope_of(
            data,
            Some(panes),
        ) == tab),
        panes[k].tab_id matches Some(tab) ==> (panes[k].pane_id matches Some(id) ==> (member(
            data,
            "tab_id"@,
        ) is None && member(data, "tab"@) is None && member(data, "pane_id"@) == Some(
            Json::Text(id),
        ) && (forall|j: int| 0 <= j < k ==> (#[trigger] panes[j]).pane_id != Some(id)) && flag_safe(
            tab,
        ) ==> scope_of(data, Some(panes)) == tab)),
        member(data, "workspace_id"@) matches Some(Json::Text(workspace)) ==> (member(
            data,
            "tab_id"@,
        ) is None && member(data, "tab"@) is None && member(data, "pane_id"@) is None && member(
            data,
            "pane"@,
        ) is None && flag_safe(workspace) ==> scope_of(data, Some(panes)) == workspace),
{
    if let Some(id) = panes[k].pane_id {
        if forall|j: int| 0 <= j < k ==> (#[trigger] panes[j]).pane_id != Some(id) {
            lemma_first(panes, has_id(id), k);
        }
    }
}

/// A tab that the plugin was started in narrows the scope of an event down where
/// the event names that tab, its workspace or nothing, and changes nothing
/// elsewhere.
pub proof fn law_a_tab_narrows_its_own_workspace(scope: Seq<char>, tab: Seq<char>)
    requires
        flag_safe(tab),
        contains(tab, ":"@),
    ensures
        scope.len() == 0 ==> scope_in_context(scope, tab) == tab,
        !contains(scope, ":"@) && starts_with(tab, scope + ":"@) ==> scope_in_context(scope, tab)
            == tab,
        contains(scope, ":"@) ==> scope_in_context(scope, tab) == scope,
        scope.len() > 0 && !starts_with(tab, scope + ":"@) ==> scope_in_context(scope, tab)
            == scope,
{
    reveal_strlit(":");
    if contains(scope, ":"@) {
        let at = choose|at: int| #[trigger] crate::text::occurs_at(scope, ":"@, at);
        assert(at + 1 <= scope.len());
    }
}

/// An event is of the kind that it calls itself, with underscores for dots; its
/// own type comes before that of its data, and that before its event.
pub proof fn law_kinds_are_read_in_order(event: Json, kind: Seq<char>)
    ensures
        member(event, "type"@) == Some(Json::Text(kind)) ==> (kind_of(event) == undotted(kind)
            || kind_of(event).len() == 0),
        member(event, "type"@) is None && member(event, "data"@) == Some(Json::Text(kind)) ==> (
        kind_of(event) == undotted(kind) || kind_of(event).len() == 0),
        member(event, "type"@) is None && member(event, "data"@) is None && member(event, "event"@)
            == Some(Json::Text(kind)) ==> (kind_of(event) == undotted(kind) || kind_of(event).len()
            == 0),
        undotted(kind).len() == kind.len(),
        forall|i: int| 0 <= i < kind.len() ==> #[trigger] undotted(kind)[i] == if kind[i] == '.' {
            '_'
        } else {
            kind[i]
        },
{
}

// ---- Following ----

/// A sibling is another pane of the tab that belongs to the user, with a
/// foreground folder; its own folder is no folder to follow.
pub proof fn law_siblings_are_the_users_panes(
    pane: PaneView,
    tab: Option<Seq<char>>,
    my_id: Seq<char>,
)
    ensures
        sibling(pane, tab, my_id) matches Some(one) ==> {
            &&& pane.tab_id == tab
            &&& pane.pane_id == Some(one.pane_id)
            &&& one.pane_id != my_id
            &&& !is_plugin_pane(pane)
            &&& pane.foreground_cwd matches Some(folder) && one.cwd == plain_path(folder)
            &&& one.focused == pane.focused
        },
        pane.foreground_cwd is None ==> sibling(pane, tab, my_id) is None,
        pane.tab_id == tab && !is_plugin_pane(pane) && (pane.pane_id matches Some(id) && id != my_id
            && flag_safe(id)) && (pane.foreground_cwd matches Some(folder) && plain_path(
            folder,
        ).len() > 0) ==> sibling(pane, tab, my_id) is Some,
{
}

proof fn lemma_first_focused(list: Seq<SiblingView>, i: int, k: int)
    requires
        0 <= i <= k < list.len(),
        list[k].focused,
        forall|j: int| i <= j < k ==> !(#[trigger] list[j]).focused,
    ensures
        first_focused(list, i) == Some(k),
    decreases k - i,
{
    if i < k {
        lemma_first_focused(list, i + 1, k);
    }
}

proof fn lemma_no_focus(list: Seq<SiblingView>, i: int)
    requires
        0 <= i,
        forall|j: int| i <= j < list.len() ==> !(#[trigger] list[j]).focused,
    ensures
        first_focused(list, i) is None,
    decreases list.len() - i,
{
    if i < list.len() {
        lemma_no_focus(list, i + 1);
    }
}

proof fn lemma_first_with_id(list: Seq<SiblingView>, id: Seq<char>, i: int, k: int)
    requires
        0 <= i <= k < list.len(),
        list[k].pane_id == id,
        forall|j: int| i <= j < k ==> (#[trigger] list[j]).pane_id != id,
    ensures
        first_with_id(list, Some(id), i) == Some(k),
    decreases k - i,
{
    if i < k {
        lemma_first_with_id(list, id, i + 1, k);
    }
}

/// A follower that is not held goes where the focused sibling works, and stays
/// with the one that it followed before where none is focused. It names the
/// folder where it is another one than before, and nothing otherwise.
pub proof fn law_followers_go_with_the_focus(
    follower: FollowerView,
    list: Seq<SiblingView>,
    k: int,
)
    requires
        !follower.manual_override,
        0 <= k < list.len(),
        ({
            ||| list[k].focused && forall|j: int| 0 <= j < k ==> !(#[trigger] list[j]).focused
            ||| follower.selected == Some(list[k].pane_id) && (forall|j: int|
                0 <= j < list.len() ==> !(#[trigger] list[j]).focused) && forall|j: int|
                0 <= j < k ==> (#[trigger] list[j]).pane_id != list[k].pane_id
        }),
    ensures
        ({
            let (after, target) = followed(follower, list);
            &&& after.selected == Some(list[k].pane_id)
            &&& after.initialized
            &&& !after.manual_override
            &&& target is None <==> follower.selected == Some(list[k].pane_id)
                && follower.seen.dom().contains(list[k].pane_id)
                && follower.seen[list[k].pane_id] == list[k].cwd
            &&& target matches Some(folder) ==> folder == list[k].cwd
        }),
{
    if list[k].focused && forall|j: int| 0 <= j < k ==> !(#[trigger] list[j]).focused {
        lemma_first_focused(list, 0, k);
    } else {
        lemma_no_focus(list, 0);
        lemma_first_with_id(list, list[k].pane_id, 0, k);
    }
}

// ---- Lists ----

proof fn lemma_panes(list: Seq<Seq<char>>, n: int, k: int)
    requires
        0 <= k < n <= list.len(),
        panes_in(list, n) is Some,
    ensures
        panes_in(list, n)->0.len() == n,
        pane_in(list[k]) == Some((panes_in(list, n)->0)[k]),
    decreases n,
{
    if k < n - 1 {
        lemma_panes(list, n - 1, k);
    } else if n > 1 {
        lemma_panes(list, n - 1, 0);
    }
}

/// The panes of a list are read one by one, in its order. One that cannot be read
/// spoils the list.
pub proof fn law_lists_of_panes_keep_their_order(list: Seq<Seq<char>>, k: int)
    requires
        0 <= k < list.len(),
        panes_in(list, list.len() as int) is Some,
    ensures
        panes_in(list, list.len() as int)->0.len() == list.len(),
        pane_in(list[k]) == Some((panes_in(list, list.len() as int)->0)[k]),
{
    lemma_panes(list, list.len() as int, k);
}

proof fn lemma_layout_panes(list: Seq<Seq<char>>, n: int, k: int)
    requires
        0 <= k < n <= list.len(),
        layout_panes_in(list, n) is Some,
    ensures
        layout_panes_in(list, n)->0.len() == n,
        layout_pane_in(list[k]) == Some((layout_panes_in(list, n)->0)[k]),
    decreases n,
{
    if k < n - 1 {
        lemma_layout_panes(list, n - 1, k);
    } else if n > 1 {
        lemma_layout_panes(list, n - 1, 0);
    }
}

proof fn lemma_layout_splits(list: Seq<Seq<char>>, n: int, k: int)
    requires
        0 <= k < n <= list.len(),
        layout_splits_in(list, n) is Some,
    ensures
        layout_splits_in(list, n)->0.len() == n,
        layout_split_in(list[k]) == Some((layout_splits_in(list, n)->0)[k]),
    decreases n,
{
    if k < n - 1 {
        lemma_layout_splits(list, n - 1, k);
    } else if n > 1 {
        lemma_layout_splits(list, n - 1, 0);
    }
}

/// The panes and the splits of a layout are read in their order, each from the
/// fields of their names.
pub proof fn law_layouts_are_read_by_name(
    list: Seq<Seq<char>>,
    k: int,
    pane: Fields,
    split: Fields,
)
    requires
        0 <= k < list.len(),
    ensures
        layout_panes_in(list, list.len() as int) matches Some(panes) ==> panes.len() == list.len()
            && (fields_of(list[k], 2) == Some(pane) ==> text_field(pane, 0, "pane_id"@) == Some(
            panes[k].pane_id,
        ) && rect_field(pane, 1, "rect"@) == Some(panes[k].rect)),
        layout_splits_in(list, list.len() as int) matches Some(splits) ==> splits.len()
            == list.len() && (fields_of(list[k], 3) == Some(split) ==> text_field(
            split,
            0,
            "direction"@,
        ) == Some(splits[k].direction) && ratio_field(split) == Some(splits[k].ratio)
            && rect_field(split, 2, "rect"@) == Some(splits[k].rect)),
{
    if layout_panes_in(list, list.len() as int) is Some {
        lemma_layout_panes(list, list.len() as int, k);
    }
    if layout_splits_in(list, list.len() as int) is Some {
        lemma_layout_splits(list, list.len() as int, k);
    }
}

/// The parts of a layout are read from the fields of their names.
pub proof fn law_the_parts_of_a_layout_have_names(value: Seq<char>, fields: Fields)
    requires
        fields_of(value, 4) == Some(fields),
        layout_in(value) is Some,
    ensures
        ({
            let layout = layout_in(value)->0;
            &&& list_field(fields, 0, "panes"@) matches Some(list) && layout_panes_in(
                list,
                list.len() as int,
            ) == Some(layout.panes)
            &&& list_field(fields, 1, "splits"@) matches Some(list) && layout_splits_in(
                list,
                list.len() as int,
            ) == Some(layout.splits)
            &&& rect_field(fields, 2, "area"@) == Some(layout.area)
            &&& text_field(fields, 3, "tab_id"@) == Some(layout.tab_id)
        }),
{
}

/// The width of a tab is that of its whole area.
pub proof fn law_a_tab_is_as_wide_as_its_area(text: &str, area: Rect, width: Option<i64>)
    requires
        call_ensures(layout_width, (text,), width),
        shown_layout(text@) matches Some(layout) && layout.area == Some(area),
    ensures
        width == Some(area.width),
{
}

/// A split is shared by its own width and its own share.
pub proof fn law_splits_have_their_own_share(split: LayoutSplitView, rect: Rect, ratio: Seq<char>)
    ensures
        split.rect == Some(rect) && split.ratio == Some(ratio) ==> shared_width(split) == Some(
            (rect.width, ratio),
        ),
        split.rect is None || split.ratio is None ==> shared_width(split) is None,
{
}

proof fn lemma_entry(list: Seq<Json>, id: Seq<char>, from: int, k: int)
    requires
        0 <= from <= k < list.len(),
        member(list[k], "pane_id"@) == Some(Json::Text(id)),
        forall|j: int|
            from <= j < k ==> member(#[trigger] list[j], "pane_id"@) != Some(Json::Text(id)),
    ensures
        entry_with_id(list, id, from) == Some(k),
    decreases k - from,
{
    if from < k {
        lemma_entry(list, id, from + 1, k);
    }
}

proof fn lemma_no_entry(list: Seq<Json>, id: Seq<char>, from: int)
    requires
        0 <= from <= list.len(),
        forall|j: int|
            from <= j < list.len() ==> member(#[trigger] list[j], "pane_id"@) != Some(
                Json::Text(id),
            ),
    ensures
        entry_with_id(list, id, from) is None,
    decreases list.len() - from,
{
    if from < list.len() {
        lemma_no_entry(list, id, from + 1);
    }
}

/// A pane has the focus where the first entry with its id says so; one that is
/// not listed has not.
pub proof fn law_the_focus_is_told_by_the_panes_entry(
    value: Json,
    result: Json,
    list: Seq<Json>,
    id: Seq<char>,
    k: int,
)
    requires
        member(value, "result"@) == Some(result),
        member(result, "panes"@) == Some(Json::List(list)),
    ensures
        0 <= k < list.len() && member(list[k], "pane_id"@) == Some(Json::Text(id)) && (forall|
            j: int,
        |
            0 <= j < k ==> member(#[trigger] list[j], "pane_id"@) != Some(Json::Text(id))) ==> (
        lists_as_focused(value, id) <==> member(list[k], "focused"@) == Some(Json::Bool(true))),
        (forall|j: int|
            0 <= j < list.len() ==> member(#[trigger] list[j], "pane_id"@) != Some(Json::Text(id)))
            ==> !lists_as_focused(value, id),
{
    if 0 <= k < list.len() && member(list[k], "pane_id"@) == Some(Json::Text(id)) && (forall|
        j: int,
    |
        0 <= j < k ==> member(#[trigger] list[j], "pane_id"@) != Some(Json::Text(id))) {
        lemma_entry(list, id, 0, k);
    }
    if forall|j: int|
        0 <= j < list.len() ==> member(#[trigger] list[j], "pane_id"@) != Some(Json::Text(id)) {
        lemma_no_entry(list, id, 0);
    }
}

/// The tabs of the panes are told in order, each once, and none is left out.
pub proof fn law_tabs_are_told_once_and_in_order(panes: &[Pane], tabs: Vec<String>, i: int, k: int)
    requires
        call_ensures(tabs_among, (panes,), tabs),
    ensures
        0 <= i < k < tabs@.len() ==> text_before(tabs@[i]@, tabs@[k]@),
        0 <= i < panes@.len() ==> (panes@[i]@.tab_id matches Some(tab) ==> string_views(
            tabs@,
        ).contains(tab)),
        0 <= i < tabs@.len() ==> exists|p: int|
            0 <= p < panes@.len() && (#[trigger] panes@[p])@.tab_id == Some(tabs@[i]@),
{
    let views = string_views(tabs@);
    let shown = pane_views(panes@);
    if 0 <= i < k < tabs@.len() {
        assert(views[i] == tabs@[i]@ && views[k] == tabs@[k]@);
    }
    if 0 <= i < panes@.len() {
        assert(shown[i] == panes@[i]@);
        if let Some(tab) = panes@[i]@.tab_id {
            assert(has_tab(shown, tab, panes@.len() as int));
        }
    }
    if 0 <= i < tabs@.len() {
        assert(views[i] == tabs@[i]@);
        assert(views.contains(tabs@[i]@));
        let p = choose|p: int|
            0 <= p < panes@.len() && (#[trigger] shown[p]).tab_id == Some(tabs@[i]@);
        assert(panes@[p]@ == shown[p]);
    }
}

// ---- Toggles ----

/// Without a pane to stand beside, a toggle opens a sidebar.
pub proof fn law_toggles_open_where_nothing_is_focused(panes: Seq<PaneView>, now: u64)
    requires
        forall|j: int| 0 <= j < panes.len() ==> !(#[trigger] panes[j]).focused,
    ensures
        source_control_decision(panes, now) == "OPEN"@,
        anchor(panes, Seq::empty()) is None ==> explorer_decision(panes, now, Seq::empty())
            == "OPEN"@,
{
    assert forall|j: int| 0 <= j < panes.len() implies !is_focused()(#[trigger] panes[j]) by {
        assert(!panes[j].focused);
    }
    lemma_none(panes, is_focused());
}

/// A strict toggle closes what would be focused, and leaves everything else.
pub proof fn law_strict_toggles_close(id: Seq<char>, decision: Seq<char>)
    ensures
        closing("FOCUS "@ + id) == "CLOSE "@ + id,
        !starts_with(decision, "FOCUS "@) ==> closing(decision) == decision,
{
    assert(("FOCUS "@ + id).skip("FOCUS "@.len() as int) =~= id);
    assert(("FOCUS "@ + id).take("FOCUS "@.len() as int) =~= "FOCUS "@);
    assert(starts_with("FOCUS "@ + id, "FOCUS "@));
}

/// A workspace stands for its tab where all its panes are in one, and for none
/// where they are in several.
pub proof fn law_workspaces_with_one_tab_stand_for_it(
    panes: Seq<PaneView>,
    workspace: Seq<char>,
    tab: Seq<char>,
    k: int,
    other: int,
)
    requires
        0 <= k < panes.len(),
        panes[k].workspace_id == Some(workspace),
        panes[k].tab_id == Some(tab),
    ensures
        (forall|j: int|
            0 <= j < panes.len() && (#[trigger] panes[j]).workspace_id == Some(workspace)
                ==> panes[j].tab_id is None || panes[j].tab_id == Some(tab)) ==> only_tab(
            panes,
            workspace,
        ) == Some(tab),
        0 <= other < panes.len() && panes[other].workspace_id == Some(workspace)
            && panes[other].tab_id is Some && panes[other].tab_id != Some(tab) ==> only_tab(
            panes,
            workspace,
        ) is None,
{
    let want = tabbed_in(workspace);
    lemma_find(panes, want, 0);
    assert(want(panes[k]));
    let first = find(panes, want, 0)->0;
    assert(find(panes, want, 0) is Some);
    assert(want(panes[first]));
    let elsewhere = tabbed_elsewhere(workspace, panes[first].tab_id);
    lemma_find(panes, elsewhere, 0);
    if 0 <= other < panes.len() && panes[other].workspace_id == Some(workspace)
        && panes[other].tab_id is Some && panes[other].tab_id != Some(tab) {
        if panes[first].tab_id == Some(tab) {
            assert(elsewhere(panes[other]));
        } else {
            assert(elsewhere(panes[k]));
        }
        assert(find(panes, elsewhere, 0) is Some);
    }
}

/// An id of an event is found under its own key, else under the same key in the
/// object that the event names.
pub proof fn law_ids_of_events_have_names(
    data: Json,
    inner: Json,
    key: Seq<char>,
    object: Seq<char>,
    id: Seq<char>,
)
    ensures
        member(data, key) == Some(Json::Text(id)) ==> id_in(data, key, object) == Some(id),
        member(data, key) is None && member(data, object) == Some(inner) && member(inner, key)
            == Some(Json::Text(id)) ==> id_in(data, key, object) == Some(id),
        member(data, key) is None && member(data, object) is None ==> id_in(data, key, object)
            is None,
{
}

/// The data of an event stand under `data`; an event without them is its own
/// data.
pub proof fn law_events_hold_their_data(event: Json, data: Json)
    ensures
        member(event, "data"@) == Some(data) ==> event_data(event) == data,
        member(event, "data"@) is None ==> event_data(event) == event,
{
}

/// An event without a pane and without a tab is about the workspace that it
/// names.
pub proof fn law_events_of_workspaces_are_about_them(event: Json, id: Seq<char>)
    requires
        member(event, "data"@) is None,
        member(event, "tab_id"@) is None,
        member(event, "tab"@) is None,
        member(event, "pane_id"@) is None,
        member(event, "pane"@) is None,
        flag_safe(id),
    ensures
        member(event, "workspace_id"@) == Some(Json::Text(id)) ==> scope_of(event, None) == id,
{
}

/// The kind of an event has lower case letters and underscores alone, and at
/// most 64 of them; another kind is not told.
pub proof fn law_kinds_are_plain_names(event: Json, i: int)
    ensures
        kind_of(event).len() <= 64,
        0 <= i < kind_of(event).len() ==> 'a' <= kind_of(event)[i] <= 'z' || kind_of(event)[i]
            == '_',
        (forall|k: int|
            0 <= k < raw_kind(event).len() ==> 'a' <= #[trigger] raw_kind(event)[k] <= 'z')
            && raw_kind(event).len() <= 64 ==> kind_of(event) == raw_kind(event),
{
    let raw = raw_kind(event);
    if (forall|k: int| 0 <= k < raw.len() ==> 'a' <= #[trigger] raw[k] <= 'z') && raw.len() <= 64 {
        assert(undotted(raw) =~= raw);
        if raw.len() == 0 {
            assert(raw =~= Seq::empty());
        }
    }
}

/// The kind of an event is told under its own key, or as the type of what stands
/// there.
pub proof fn law_kinds_have_names(event: Json, inner: Json, key: Seq<char>, kind: Seq<char>)
    ensures
        member(event, key) == Some(Json::Text(kind)) ==> kind_under(event, key) == Some(kind),
        member(event, key) == Some(inner) && !(inner is Text) && member(inner, "type"@) == Some(
            Json::Text(kind),
        ) ==> kind_under(event, key) == Some(kind),
        member(event, key) is None ==> kind_under(event, key) is None,
{
}

/// A split moves the inner edge of a sidebar where it cuts from left to right
/// and its divider stands within two columns of that edge.
pub proof fn law_dividers_move_the_edge_they_stand_at(
    split: LayoutSplitView,
    offset: i64,
    pane: Rect,
    rect: Rect,
    dock_right: bool,
)
    requires
        split.rect == Some(rect),
        split.ratio is Some,
        rect.x <= pane.x,
        rect.width > 0,
    ensures
        split.direction == Some("right"@) ==> (moves_edge(
            split,
            Some(offset),
            pane,
            dock_right,
        ) <==> ({
            let edge = if dock_right {
                pane.x as int
            } else {
                pane.x + pane.width
            };
            edge - 2 <= rect.x + offset <= edge + 2
        })),
        split.direction != Some("right"@) ==> !moves_edge(split, Some(offset), pane, dock_right),
        !moves_edge(split, None, pane, dock_right),
{
}

/// An id is kept where it can be named on a command line, and dropped otherwise.
pub proof fn law_unsafe_ids_are_dropped(id: Seq<char>)
    ensures
        flag_safe(id) ==> safe_id(Some(Some(id))) == Some(id),
        !flag_safe(id) ==> safe_id(Some(Some(id))) is None,
        safe_id(Some(None)) is None,
        safe_id(None) is None,
{
}

/// The panes stand under `panes` in the result of a list, and a layout under
/// `layout`.
pub proof fn law_answers_have_names(
    text: Seq<char>,
    result: Fields,
    list: Seq<Seq<char>>,
    layout: Seq<char>,
)
    requires
        result_of(message_value(text), 1) == Some(result),
    ensures
        list_field(result, 0, "panes"@) == Some(list) ==> listed_panes(text) == panes_in(
            list,
            list.len() as int,
        ),
        required(result, 0, "layout"@) == Some(layout) ==> shown_layout(text) == layout_in(layout),
        required(result, 0, "layout"@) is None ==> shown_layout(text) is None,
{
}

/// The ratio of a split is a number under `ratio`.
pub proof fn law_ratios_are_numbers(fields: Fields, text: Seq<char>)
    ensures
        optional(fields, 1, "ratio"@) == Some(Some(text)) ==> (ratio_field(fields) == Some(
            Some(text),
        ) <==> parsed(text) matches Some(Json::Number(_))),
        optional(fields, 1, "ratio"@) == Some(None::<Seq<char>>) ==> ratio_field(fields) == Some(
            None::<Seq<char>>,
        ),
{
}

/// A follower starts without a pane to follow, and no folder was chosen by hand.
pub proof fn law_followers_start_with_nothing()
    ensures
        fresh_follower().selected is None,
        !fresh_follower().initialized,
        !fresh_follower().manual_override,
        fresh_follower().seen.dom() == Set::<Seq<char>>::empty(),
{
}

// ---- Widths ----

/// A sidebar that keeps its share has at least 15 percent of its split and at
/// most half of it, and the width that was asked for where that lies between.
/// One that does not gets what was asked for, and what its pane has around it.
pub proof fn law_shares_are_kept_within_bounds(
    pane: Rect,
    now: u16,
    target: u16,
    split: int,
)
    requires
        split > 0,
        pane.width >= now,
    ensures
        ({
            let width = new_width(pane, now, target, split, true);
            let wanted = target + (pane.width - now);
            &&& 20 * width >= 3 * split
            &&& 2 * width <= split || 20 * (width - 1) < 3 * split
            &&& 20 * wanted >= 3 * split && 2 * wanted <= split ==> width == wanted
            &&& new_width(pane, now, target, split, false) == wanted
        }),
{
}

/// A change of less than half a percent of the split is left alone; another one
/// is made, whole, in the direction in which the sidebar grows or shrinks.
pub proof fn law_small_changes_are_left_alone(change: int, split: int, dock_right: bool)
    requires
        split > 0,
    ensures
        -split < 200 * change < split <==> step_for(change, split, dock_right) is None,
        step_for(change, split, dock_right) matches Some((direction, size, of)) ==> of == split && (
        size == change || size == -change) && size > 0 && (change > 0 && !dock_right || change < 0
            && dock_right ==> direction == "right"@) && (change > 0 && dock_right || change < 0
            && !dock_right ==> direction == "left"@),
{
}

proof fn lemma_narrowest_split(
    splits: Seq<LayoutSplitView>,
    dividers: Seq<Option<i64>>,
    pane: Rect,
    dock_right: bool,
    n: int,
    k: int,
)
    requires
        0 <= k < n <= splits.len(),
        moves_edge(splits[k], divider(dividers, k), pane, dock_right),
    ensures
        inner_split(splits, dividers, pane, dock_right, n) matches Some(s) && 0 <= s < n
            && moves_edge(splits[s], divider(dividers, s), pane, dock_right) && (
        splits[s].rect->0.width < splits[k].rect->0.width || (splits[s].rect->0.width
            == splits[k].rect->0.width && s <= k)),
    decreases n,
{
    if k < n - 1 {
        lemma_narrowest_split(splits, dividers, pane, dock_right, n - 1, k);
    } else if inner_split(splits, dividers, pane, dock_right, n - 1) is Some {
        lemma_split_moves(splits, dividers, pane, dock_right, n - 1);
    }
}

proof fn lemma_split_moves(
    splits: Seq<LayoutSplitView>,
    dividers: Seq<Option<i64>>,
    pane: Rect,
    dock_right: bool,
    n: int,
)
    requires
        0 <= n <= splits.len(),
    ensures
        inner_split(splits, dividers, pane, dock_right, n) matches Some(s) ==> 0 <= s < n
            && moves_edge(splits[s], divider(dividers, s), pane, dock_right),
    decreases n,
{
    if n > 0 {
        lemma_split_moves(splits, dividers, pane, dock_right, n - 1);
    }
}

/// Of the splits that move the edge of a sidebar the narrowest one does, the
/// first of them where several are as narrow.
pub proof fn law_the_narrowest_split_moves_the_edge(
    splits: Seq<LayoutSplitView>,
    dividers: Seq<Option<i64>>,
    pane: Rect,
    dock_right: bool,
    k: int,
)
    requires
        0 <= k < splits.len(),
        moves_edge(splits[k], divider(dividers, k), pane, dock_right),
    ensures
        inner_split(splits, dividers, pane, dock_right, splits.len() as int) matches Some(s) && 0
            <= s < splits.len() && moves_edge(splits[s], divider(dividers, s), pane, dock_right)
            && (splits[s].rect->0.width < splits[k].rect->0.width || (splits[s].rect->0.width
            == splits[k].rect->0.width && s <= k)),
{
    lemma_narrowest_split(splits, dividers, pane, dock_right, splits.len() as int, k);
}

/// A heartbeat is stale when it is more than 20 seconds old, or cannot be read;
/// where there is none nothing is stale.
pub proof fn law_heartbeats_grow_stale(time: u64, now: u64)
    requires
        time <= now,
    ensures
        is_stale(Heartbeat::At(time), now) <==> now - time > 20,
        !is_stale(Heartbeat::Absent, now),
        is_stale(Heartbeat::Unreadable, now),
{
}

/// No pane has the focus in an answer without panes.
pub proof fn law_answers_without_panes_name_no_focus(value: Json, result: Json, id: Seq<char>)
    ensures
        member(value, "result"@) is None ==> !lists_as_focused(value, id),
        member(value, "result"@) == Some(result) && member(result, "panes"@) is None
            ==> !lists_as_focused(value, id),
{
}

} // verus!
