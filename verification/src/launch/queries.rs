//! Tabs, workspaces and ids in a list of panes.

use crate::json::{get_member, json_of, member, message, opt_text, read_message, values, Json};
use crate::launch::panes::{
    find, find_focused, find_id, find_pane, flag_safe, has_id, in_tab, is_flag_safe, is_focused,
    is_plugin_pane, is_text, listed_panes, pane_views, read_panes, Pane, PaneView,
};
use crate::ranking::{insert_text, texts_in_order};
use crate::text::{str_eq, string_views};
use vstd::prelude::*;

verus! {

/// The text, empty where there is none.
pub open spec fn or_empty(text: Option<Seq<char>>) -> Seq<char> {
    match text {
        Some(text) => text,
        None => Seq::empty(),
    }
}

fn text_or_empty(text: &Option<String>) -> (res: String)
    ensures
        res@ == or_empty(opt_text(*text)),
{
    match text {
        Some(text) => text.clone(),
        None => String::new(),
    }
}

/// The tab of the focused pane, where its id can be named on a command line.
pub open spec fn focused_tab_of(panes: Seq<PaneView>) -> Seq<char> {
    match find(panes, is_focused(), 0) {
        Some(i) => if flag_safe(or_empty(panes[i].tab_id)) {
            or_empty(panes[i].tab_id)
        } else {
            Seq::empty()
        },
        None => Seq::empty(),
    }
}

pub fn focused_tab_among(panes: &[Pane]) -> (res: String)
    ensures
        res@ == focused_tab_of(pane_views(panes@)),
{
    match find_focused(panes) {
        Some(i) => {
            assert(pane_views(panes@)[i as int] == panes@[i as int]@);
            let tab: String = text_or_empty(&panes[i].tab_id);
            if is_flag_safe(tab.as_str()) {
                tab
            } else {
                String::new()
            }
        },
        None => String::new(),
    }
}

/// The tab of the focused pane.
pub fn focused_tab(pane_list_json: &str) -> (res: String)
    ensures
        res@ == match listed_panes(pane_list_json@) {
            Some(panes) => focused_tab_of(panes),
            None => Seq::empty(),
        },
{
    match read_panes(pane_list_json) {
        Some(panes) => focused_tab_among(panes.as_slice()),
        None => String::new(),
    }
}

pub open spec fn tab_holding(panes: Seq<PaneView>, id: Seq<char>) -> Seq<char> {
    match find(panes, has_id(id), 0) {
        Some(i) => or_empty(panes[i].tab_id),
        None => Seq::empty(),
    }
}

pub fn tab_among(panes: &[Pane], pane_id: &str) -> (res: String)
    ensures
        res@ == tab_holding(pane_views(panes@), pane_id@),
{
    match find_id(panes, pane_id) {
        Some(i) => {
            assert(pane_views(panes@)[i as int] == panes@[i as int]@);
            text_or_empty(&panes[i].tab_id)
        },
        None => String::new(),
    }
}

/// The tab that holds a pane; empty where there is none.
pub fn tab_of(pane_list_json: &str, pane_id: &str) -> (res: String)
    ensures
        res@ == match listed_panes(pane_list_json@) {
            Some(panes) => tab_holding(panes, pane_id@),
            None => Seq::empty(),
        },
{
    match read_panes(pane_list_json) {
        Some(panes) => tab_among(panes.as_slice(), pane_id),
        None => String::new(),
    }
}

pub open spec fn workspace_holding(panes: Seq<PaneView>, id: Seq<char>) -> Seq<char> {
    match find(panes, has_id(id), 0) {
        Some(i) => or_empty(panes[i].workspace_id),
        None => Seq::empty(),
    }
}

pub fn workspace_among(panes: &[Pane], pane_id: &str) -> (res: String)
    ensures
        res@ == workspace_holding(pane_views(panes@), pane_id@),
{
    match find_id(panes, pane_id) {
        Some(i) => {
            assert(pane_views(panes@)[i as int] == panes@[i as int]@);
            text_or_empty(&panes[i].workspace_id)
        },
        None => String::new(),
    }
}

/// The workspace of a pane; empty where there is none.
pub fn workspace_of(pane_list_json: &str, pane_id: &str) -> (res: String)
    ensures
        res@ == match listed_panes(pane_list_json@) {
            Some(panes) => workspace_holding(panes, pane_id@),
            None => Seq::empty(),
        },
{
    match read_panes(pane_list_json) {
        Some(panes) => workspace_among(panes.as_slice(), pane_id),
        None => String::new(),
    }
}

pub open spec fn first_in_tab(panes: Seq<PaneView>, tab: Seq<char>) -> Seq<char> {
    match find(panes, in_tab(tab), 0) {
        Some(i) => or_empty(panes[i].pane_id),
        None => Seq::empty(),
    }
}

pub fn pane_among(panes: &[Pane], tab_id: &str) -> (res: String)
    ensures
        res@ == first_in_tab(pane_views(panes@), tab_id@),
{
    let test = |p: &Pane| -> (r: bool)
        ensures r == in_tab(tab_id@)(p@)
    {
        is_text(&p.tab_id, tab_id)
    };
    match find_pane(panes, test, Ghost(in_tab(tab_id@))) {
        Some(i) => {
            assert(pane_views(panes@)[i as int] == panes@[i as int]@);
            text_or_empty(&panes[i].pane_id)
        },
        None => String::new(),
    }
}

/// A pane in a tab; empty where there is none.
pub fn pane_in_tab(pane_list_json: &str, tab_id: &str) -> (res: String)
    ensures
        res@ == match listed_panes(pane_list_json@) {
            Some(panes) => first_in_tab(panes, tab_id@),
            None => Seq::empty(),
        },
{
    match read_panes(pane_list_json) {
        Some(panes) => pane_among(panes.as_slice(), tab_id),
        None => String::new(),
    }
}

pub open spec fn not_in_tab(tab: Seq<char>) -> spec_fn(PaneView) -> bool {
    |p: PaneView| p.tab_id != Some(tab)
}

pub open spec fn first_outside_tab(panes: Seq<PaneView>, tab: Seq<char>) -> Seq<char> {
    match find(panes, not_in_tab(tab), 0) {
        Some(i) => or_empty(panes[i].pane_id),
        None => Seq::empty(),
    }
}

pub fn pane_elsewhere(panes: &[Pane], tab_id: &str) -> (res: String)
    ensures
        res@ == first_outside_tab(pane_views(panes@), tab_id@),
{
    let test = |p: &Pane| -> (r: bool)
        ensures r == not_in_tab(tab_id@)(p@)
    {
        !is_text(&p.tab_id, tab_id)
    };
    match find_pane(panes, test, Ghost(not_in_tab(tab_id@))) {
        Some(i) => {
            assert(pane_views(panes@)[i as int] == panes@[i as int]@);
            text_or_empty(&panes[i].pane_id)
        },
        None => String::new(),
    }
}

/// A pane outside a tab, by way of which a change of focus can be forced; empty
/// where there is none.
pub fn pane_outside_tab(pane_list_json: &str, tab_id: &str) -> (res: String)
    ensures
        res@ == match listed_panes(pane_list_json@) {
            Some(panes) => first_outside_tab(panes, tab_id@),
            None => Seq::empty(),
        },
{
    match read_panes(pane_list_json) {
        Some(panes) => pane_elsewhere(panes.as_slice(), tab_id),
        None => String::new(),
    }
}

pub open spec fn focused_id(panes: Seq<PaneView>) -> Seq<char> {
    match find(panes, is_focused(), 0) {
        Some(i) => or_empty(panes[i].pane_id),
        None => Seq::empty(),
    }
}

pub fn focused_id_among(panes: &[Pane]) -> (res: String)
    ensures
        res@ == focused_id(pane_views(panes@)),
{
    match find_focused(panes) {
        Some(i) => {
            assert(pane_views(panes@)[i as int] == panes@[i as int]@);
            text_or_empty(&panes[i].pane_id)
        },
        None => String::new(),
    }
}

/// The pane that the server records as focused; empty where there is none.
pub fn server_focused_pane_id(pane_list_json: &str) -> (res: String)
    ensures
        res@ == match listed_panes(pane_list_json@) {
            Some(panes) => focused_id(panes),
            None => Seq::empty(),
        },
{
    match read_panes(pane_list_json) {
        Some(panes) => focused_id_among(panes.as_slice()),
        None => String::new(),
    }
}

// ---- The user's own panes ----

pub open spec fn is_work_pane(pane: PaneView, tab: Seq<char>) -> bool {
    pane.tab_id == Some(tab) && !is_plugin_pane(pane) && pane.pane_id is Some
}

/// The user's own panes of a tab among the first `n`.
pub open spec fn work_panes(panes: Seq<PaneView>, tab: Seq<char>, n: int) -> Seq<Seq<char>>
    decreases n,
{
    if n <= 0 {
        Seq::empty()
    } else {
        let before = work_panes(panes, tab, n - 1);
        let pane = panes[n - 1];
        if is_work_pane(pane, tab) {
            before.push(pane.pane_id->0)
        } else {
            before
        }
    }
}

pub fn work_panes_among(panes: &[Pane], tab_id: &str) -> (res: Vec<String>)
    ensures
        string_views(res@) == work_panes(pane_views(panes@), tab_id@, panes@.len() as int),
{
    let ghost views: Seq<PaneView> = pane_views(panes@);
    let mut out: Vec<String> = Vec::new();
    let mut i: usize = 0;
    assert(string_views(out@) =~= work_panes(views, tab_id@, 0));
    while i < panes.len()
        invariant
            i <= panes@.len(),
            views == pane_views(panes@),
            string_views(out@) == work_panes(views, tab_id@, i as int),
        decreases panes@.len() - i,
    {
        let pane: &Pane = &panes[i];
        assert(views[i as int] == pane@);
        let ghost before: Seq<String> = out@;
        if is_text(&pane.tab_id, tab_id) && !pane.is_plugin_pane() {
            match &pane.pane_id {
                Some(id) => {
                    out.push(id.clone());
                    assert(string_views(out@) =~= string_views(before).push(id@));
                },
                None => {},
            }
        }
        i += 1;
    }
    out
}

/// The user's own panes of a tab: neither a sidebar nor a viewer.
pub fn work_panes_in_tab(pane_list_json: &str, tab_id: &str) -> (res: Vec<String>)
    ensures
        string_views(res@) == match listed_panes(pane_list_json@) {
            Some(panes) => work_panes(panes, tab_id@, panes.len() as int),
            None => Seq::empty(),
        },
{
    match read_panes(pane_list_json) {
        Some(panes) => work_panes_among(panes.as_slice(), tab_id),
        None => {
            let none: Vec<String> = Vec::new();
            assert(string_views(none@) =~= Seq::empty());
            none
        },
    }
}

/// What the user works in is never a sidebar or a viewer, and all of it that is
/// in the tab is found.
pub proof fn law_work_panes_are_the_users_own(panes: Seq<PaneView>, tab: Seq<char>, n: int)
    requires
        0 <= n <= panes.len(),
    ensures
        forall|id: Seq<char>|
            #[trigger] work_panes(panes, tab, n).contains(id) <==> exists|i: int|
                #![trigger panes[i]]
                0 <= i < n && is_work_pane(panes[i], tab) && panes[i].pane_id == Some(id),
    decreases n,
{
    if n > 0 {
        law_work_panes_are_the_users_own(panes, tab, n - 1);
        let before = work_panes(panes, tab, n - 1);
        let all = work_panes(panes, tab, n);
        assert forall|id: Seq<char>| #[trigger] all.contains(id) <==> exists|i: int|
            #![trigger panes[i]]
            0 <= i < n && is_work_pane(panes[i], tab) && panes[i].pane_id == Some(id) by {
            if before.contains(id) {
                let k = choose|k: int| 0 <= k < before.len() && before[k] == id;
                assert(all[k] == id);
            }
            if is_work_pane(panes[n - 1], tab) {
                assert(all[all.len() - 1] == panes[n - 1].pane_id->0);
            }
            if all.contains(id) && !before.contains(id) {
                let k = choose|k: int| 0 <= k < all.len() && all[k] == id;
                if k < before.len() {
                    assert(before[k] == id);
                }
                assert(panes[n - 1].pane_id == Some(id));
            }
        }
    }
}

// ---- Tabs ----

/// Whether one of the first `n` panes is in a tab.
pub open spec fn has_tab(panes: Seq<PaneView>, tab: Seq<char>, n: int) -> bool {
    exists|i: int| 0 <= i < n && (#[trigger] panes[i]).tab_id == Some(tab)
}

/// The tabs of the panes, in order and each once.
pub fn tabs_among(panes: &[Pane]) -> (res: Vec<String>)
    ensures
        texts_in_order(string_views(res@)),
        forall|tab: Seq<char>|
            #[trigger] string_views(res@).contains(tab) <==> has_tab(
                pane_views(panes@),
                tab,
                panes@.len() as int,
            ),
{
    let ghost views: Seq<PaneView> = pane_views(panes@);
    let mut out: Vec<String> = Vec::new();
    let mut i: usize = 0;
    while i < panes.len()
        invariant
            i <= panes@.len(),
            views == pane_views(panes@),
            texts_in_order(string_views(out@)),
            forall|tab: Seq<char>|
                #[trigger] string_views(out@).contains(tab) <==> has_tab(views, tab, i as int),
        decreases panes@.len() - i,
    {
        let pane: &Pane = &panes[i];
        assert(views[i as int] == pane@);
        let ghost before: Seq<Seq<char>> = string_views(out@);
        match &pane.tab_id {
            Some(tab) => {
                insert_text(&mut out, tab.clone());
            },
            None => {},
        }
        assert forall|tab: Seq<char>| #[trigger]
            string_views(out@).contains(tab) <==> has_tab(views, tab, i + 1) by {
            assert(before.contains(tab) <==> has_tab(views, tab, i as int));
            if has_tab(views, tab, i + 1) && views[i as int].tab_id != Some(tab) {
                assert(has_tab(views, tab, i as int));
            }
        }
        i += 1;
    }
    out
}

/// The tabs that there are, in order and each once.
pub fn live_tabs(pane_list_json: &str) -> (res: Vec<String>)
    ensures
        texts_in_order(string_views(res@)),
        forall|tab: Seq<char>|
            #[trigger] string_views(res@).contains(tab) <==> (listed_panes(pane_list_json@)
                matches Some(panes) && has_tab(panes, tab, panes.len() as int)),
{
    match read_panes(pane_list_json) {
        Some(panes) => tabs_among(panes.as_slice()),
        None => Vec::new(),
    }
}

// ---- The focus ----

/// The first value from the `i`th on that is an object with a pane's id.
pub open spec fn entry_with_id(list: Seq<Json>, id: Seq<char>, i: int) -> Option<int>
    decreases list.len() - i,
{
    if 0 <= i < list.len() {
        if member(list[i], "pane_id"@) == Some(Json::Text(id)) {
            Some(i)
        } else {
            entry_with_id(list, id, i + 1)
        }
    } else {
        None
    }
}

/// Whether a message lists a pane as focused, whatever else it holds.
pub open spec fn lists_as_focused(value: Json, id: Seq<char>) -> bool {
    match member(value, "result"@) {
        Some(result) => match member(result, "panes"@) {
            Some(Json::List(list)) => match entry_with_id(list, id, 0) {
                Some(i) => member(list[i], "focused"@) == Some(Json::Bool(true)),
                None => false,
            },
            _ => false,
        },
        None => false,
    }
}

fn is_focused_in(value: &serde_json::Value, pane_id: &str) -> (res: bool)
    ensures
        res == lists_as_focused(json_of(*value), pane_id@),
{
    let panes: &serde_json::Value = match get_member(value, "result") {
        Some(result) => match get_member(result, "panes") {
            Some(panes) => panes,
            None => {
                return false;
            },
        },
        None => {
            return false;
        },
    };
    let list: &Vec<serde_json::Value> = match panes.as_array() {
        Some(list) => list,
        None => {
            return false;
        },
    };
    let ghost all: Seq<Json> = values(list@);
    let mut i: usize = 0;
    while i < list.len()
        invariant
            i <= list@.len(),
            all == values(list@),
            entry_with_id(all, pane_id@, i as int) == entry_with_id(all, pane_id@, 0),
            lists_as_focused(json_of(*value), pane_id@) == (match entry_with_id(all, pane_id@, 0) {
                Some(k) => member(all[k], "focused"@) == Some(Json::Bool(true)),
                None => false,
            }),
        decreases list@.len() - i,
    {
        assert(all[i as int] == json_of(list@[i as int]));
        let found: bool = match get_member(&list[i], "pane_id") {
            Some(id) => match id.as_str() {
                Some(id) => str_eq(id, pane_id),
                None => false,
            },
            None => false,
        };
        assert(found == (member(all[i as int], "pane_id"@) == Some(Json::Text(pane_id@))));
        if found {
            return match get_member(&list[i], "focused") {
                Some(focused) => match focused.as_bool() {
                    Some(focused) => focused,
                    None => false,
                },
                None => false,
            };
        }
        i += 1;
    }
    false
}

/// Whether a pane is the focused one.
pub fn pane_focused_in(pane_list_json: &str, pane_id: &str) -> (res: bool)
    ensures
        res == (message(pane_list_json@) matches Some(value) && lists_as_focused(value, pane_id@)),
{
    match read_message(pane_list_json) {
        Some(value) => is_focused_in(&value, pane_id),
        None => false,
    }
}

} // verus!
