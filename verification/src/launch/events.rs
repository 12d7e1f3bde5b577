//! Which tab an event is about, and what kind of event it is.

use crate::json::{get_member, json_of, member, message, opt_text, read_message, Json};
use crate::launch::panes::{
    find, find_id, flag_safe, has_id, is_flag_safe, listed_panes, pane_views, read_panes, Pane,
    PaneView,
};
use crate::text::{contains, contains_str, matches_at, starts_with, str_eq, to_chars};
use vstd::prelude::*;

verus! {

/// The text of a value.
pub open spec fn text_of(value: Option<Json>) -> Option<Seq<char>> {
    match value {
        Some(Json::Text(text)) => Some(text),
        _ => None,
    }
}

/// An id in the data of an event: under its own key, or under the same key in
/// the object that it names.
pub open spec fn id_in(data: Json, key: Seq<char>, object: Seq<char>) -> Option<Seq<char>> {
    match text_of(member(data, key)) {
        Some(id) => Some(id),
        None => match member(data, object) {
            Some(inner) => text_of(member(inner, key)),
            None => None,
        },
    }
}

/// The data of an event, which may be the event itself.
pub open spec fn event_data(event: Json) -> Json {
    match member(event, "data"@) {
        Some(data) => data,
        None => event,
    }
}

/// The tab of a pane.
pub open spec fn tab_of_pane(panes: Option<Seq<PaneView>>, id: Option<Seq<char>>) -> Option<
    Seq<char>,
> {
    match (panes, id) {
        (Some(panes), Some(id)) => match find(panes, has_id(id), 0) {
            Some(i) => panes[i].tab_id,
            None => None,
        },
        _ => None,
    }
}

/// The tab that an event is about, else the tab of its pane, else its
/// workspace; empty where the id cannot be named on a command line.
pub open spec fn scope_of(event: Json, panes: Option<Seq<PaneView>>) -> Seq<char> {
    let data = event_data(event);
    let tab = id_in(data, "tab_id"@, "tab"@);
    let pane_tab = tab_of_pane(panes, id_in(data, "pane_id"@, "pane"@));
    let found = match (tab, pane_tab) {
        (Some(tab), _) => Some(tab),
        (None, Some(tab)) => Some(tab),
        (None, None) => id_in(data, "workspace_id"@, "workspace"@),
    };
    match found {
        Some(id) => if flag_safe(id) {
            id
        } else {
            Seq::empty()
        },
        None => Seq::empty(),
    }
}

fn find_id_in(data: &serde_json::Value, key: &str, object: &str) -> (res: Option<String>)
    ensures
        opt_text(res) == id_in(json_of(*data), key@, object@),
{
    match get_member(data, key) {
        Some(value) => match value.as_str() {
            Some(id) => {
                return Some(id.to_owned());
            },
            None => {},
        },
        None => {},
    }
    match get_member(data, object) {
        Some(inner) => match get_member(inner, key) {
            Some(value) => match value.as_str() {
                Some(id) => Some(id.to_owned()),
                None => None,
            },
            None => None,
        },
        None => None,
    }
}

fn find_tab_of_pane(panes: &Option<Vec<Pane>>, id: &Option<String>) -> (res: Option<String>)
    ensures
        opt_text(res) == tab_of_pane(
            match *panes {
                Some(panes) => Some(pane_views(panes@)),
                None => None,
            },
            opt_text(*id),
        ),
{
    match (panes, id) {
        (Some(panes), Some(id)) => match find_id(panes.as_slice(), id.as_str()) {
            Some(i) => {
                assert(pane_views(panes@)[i as int] == panes@[i as int]@);
                match &panes[i].tab_id {
                    Some(tab) => Some(tab.clone()),
                    None => None,
                }
            },
            None => None,
        },
        _ => None,
    }
}

/// The tab or workspace that an event is about.
pub fn scope_in(event: &serde_json::Value, panes: &Option<Vec<Pane>>) -> (res: String)
    ensures
        res@ == scope_of(
            json_of(*event),
            match *panes {
                Some(panes) => Some(pane_views(panes@)),
                None => None,
            },
        ),
{
    let data: &serde_json::Value = match get_member(event, "data") {
        Some(data) => data,
        None => event,
    };
    let tab: Option<String> = find_id_in(data, "tab_id", "tab");
    let pane: Option<String> = find_id_in(data, "pane_id", "pane");
    let pane_tab: Option<String> = find_tab_of_pane(panes, &pane);
    let found: Option<String> = match tab {
        Some(tab) => Some(tab),
        None => match pane_tab {
            Some(tab) => Some(tab),
            None => find_id_in(data, "workspace_id", "workspace"),
        },
    };
    match found {
        Some(id) => if is_flag_safe(id.as_str()) {
            id
        } else {
            String::new()
        },
        None => String::new(),
    }
}

/// The tab, else the workspace, that an event names; empty where it names
/// neither.
pub fn event_scope(event_json: &str) -> (res: String)
    ensures
        res@ == match message(event_json@) {
            Some(event) => scope_of(event, None),
            None => Seq::empty(),
        },
{
    match read_message(event_json) {
        Some(event) => scope_in(&event, &None),
        None => String::new(),
    }
}

/// The tab or workspace that an event is about, where an event may name only a
/// pane of a list.
pub fn event_scope_in(event_json: &str, pane_list_json: &str) -> (res: String)
    ensures
        res@ == match message(event_json@) {
            Some(event) => scope_of(event, listed_panes(pane_list_json@)),
            None => Seq::empty(),
        },
{
    match read_message(event_json) {
        Some(event) => {
            let panes: Option<Vec<Pane>> = read_panes(pane_list_json);
            scope_in(&event, &panes)
        },
        None => String::new(),
    }
}

/// Whether a tab that is known otherwise can be the one that `scope` means: it
/// is that tab, or one of that workspace, or nothing is known of the scope.
pub open spec fn context_fits(scope: Seq<char>, tab: Seq<char>) -> bool {
    &&& flag_safe(tab)
    &&& contains(tab, ":"@)
    &&& scope.len() == 0 || scope == tab || (!contains(scope, ":"@) && starts_with(
        tab,
        scope + ":"@,
    ))
}

/// The scope of an event, or the tab that is known otherwise where that fits.
pub open spec fn scope_in_context(scope: Seq<char>, tab: Seq<char>) -> Seq<char> {
    if context_fits(scope, tab) {
        tab
    } else {
        scope
    }
}

fn has_colon(s: &[char]) -> (res: bool)
    ensures
        res == contains(s@, ":"@),
{
    contains_str(s, to_chars(":").as_slice())
}

/// The tab that is known otherwise where it fits the scope, else the scope.
pub fn narrowed(scope: String, context_tab: &str) -> (res: String)
    ensures
        res@ == scope_in_context(scope@, context_tab@),
{
    let tab: Vec<char> = to_chars(context_tab);
    if !is_flag_safe(context_tab) || !has_colon(tab.as_slice()) {
        return scope;
    }
    if scope.as_str().is_empty() || str_eq(scope.as_str(), context_tab) {
        return context_tab.to_owned();
    }
    let chars: Vec<char> = to_chars(scope.as_str());
    if has_colon(chars.as_slice()) {
        return scope;
    }
    let mut prefix: String = scope.clone();
    prefix.append(":");
    if matches_at(tab.as_slice(), to_chars(prefix.as_str()).as_slice(), 0) {
        context_tab.to_owned()
    } else {
        scope
    }
}

/// The scope of an event, or the tab that is known otherwise where that fits.
pub fn event_scope_with_tab_context(
    event_json: &str,
    pane_list_json: &str,
    context_tab: &str,
) -> (res: String)
    ensures
        res@ == scope_in_context(
            match message(event_json@) {
                Some(event) => scope_of(event, listed_panes(pane_list_json@)),
                None => Seq::empty(),
            },
            context_tab@,
        ),
{
    narrowed(event_scope_in(event_json, pane_list_json), context_tab)
}

/// A scope is empty or can be named on a command line, whatever the event says.
pub proof fn law_scopes_are_flag_safe(event: Json, panes: Option<Seq<PaneView>>, tab: Seq<char>)
    ensures
        ({
            let scope = scope_of(event, panes);
            scope.len() == 0 || flag_safe(scope)
        }),
        ({
            let scope = scope_in_context(scope_of(event, panes), tab);
            scope.len() == 0 || flag_safe(scope)
        }),
{
}

// ---- The kind of an event ----

/// The kind under one key of an event: its text, or the type of the object
/// there.
pub open spec fn kind_under(event: Json, key: Seq<char>) -> Option<Seq<char>> {
    match member(event, key) {
        Some(Json::Text(text)) => Some(text),
        Some(inner) => text_of(member(inner, "type"@)),
        None => None,
    }
}

/// What an event calls itself.
pub open spec fn raw_kind(event: Json) -> Seq<char> {
    match (
        kind_under(event, "type"@),
        kind_under(event, "data"@),
        kind_under(event, "event"@),
    ) {
        (Some(kind), _, _) => kind,
        (None, Some(kind), _) => kind,
        (None, None, Some(kind)) => kind,
        (None, None, None) => Seq::empty(),
    }
}

/// `kind` with an underscore for every dot.
pub open spec fn undotted(kind: Seq<char>) -> Seq<char> {
    kind.map(|i: int, c: char| if c == '.' { '_' } else { c })
}

/// A name of lower case letters and underscores that is not too long.
pub open spec fn is_plain_kind(kind: Seq<char>) -> bool {
    &&& 0 < kind.len() <= 64
    &&& forall|i: int|
        0 <= i < kind.len() ==> 'a' <= #[trigger] kind[i] <= 'z' || kind[i] == '_'
}

/// The kind of an event, empty where it is no plain name.
pub open spec fn kind_of(event: Json) -> Seq<char> {
    let kind = undotted(raw_kind(event));
    if is_plain_kind(kind) {
        kind
    } else {
        Seq::empty()
    }
}

fn find_kind_under(event: &serde_json::Value, key: &str) -> (res: Option<String>)
    ensures
        opt_text(res) == kind_under(json_of(*event), key@),
{
    match get_member(event, key) {
        Some(value) => match value.as_str() {
            Some(text) => Some(text.to_owned()),
            None => match get_member(value, "type") {
                Some(inner) => match inner.as_str() {
                    Some(text) => Some(text.to_owned()),
                    None => None,
                },
                None => None,
            },
        },
        None => None,
    }
}

fn find_raw_kind(event: &serde_json::Value) -> (res: String)
    ensures
        res@ == raw_kind(json_of(*event)),
{
    match find_kind_under(event, "type") {
        Some(kind) => kind,
        None => match find_kind_under(event, "data") {
            Some(kind) => kind,
            None => match find_kind_under(event, "event") {
                Some(kind) => kind,
                None => String::new(),
            },
        },
    }
}

/// The kind that an event is read as, from what it calls itself.
pub fn plain_kind(raw: &str) -> (res: String)
    ensures
        res@ == if is_plain_kind(undotted(raw@)) {
            undotted(raw@)
        } else {
            Seq::empty()
        },
{
    let chars: Vec<char> = to_chars(raw);
    if chars.len() == 0 || chars.len() > 64 {
        return String::new();
    }
    let mut out: String = String::new();
    let mut i: usize = 0;
    assert(out@ =~= undotted(raw@).take(0));
    while i < chars.len()
        invariant
            i <= chars@.len(),
            chars@ == raw@,
            out@ == undotted(raw@).take(i as int),
            forall|k: int|
                0 <= k < i ==> 'a' <= #[trigger] undotted(raw@)[k] <= 'z' || undotted(raw@)[k]
                    == '_',
        decreases chars@.len() - i,
    {
        let c: char = if chars[i] == '.' {
            '_'
        } else {
            chars[i]
        };
        assert(c == undotted(raw@)[i as int]);
        if !(('a' <= c && c <= 'z') || c == '_') {
            return String::new();
        }
        out.push(c);
        i += 1;
        assert(out@ =~= undotted(raw@).take(i as int));
    }
    assert(out@ =~= undotted(raw@));
    out
}

/// The kind of an event.
pub fn event_kind(event_json: &str) -> (res: String)
    ensures
        res@ == match message(event_json@) {
            Some(event) => kind_of(event),
            None => Seq::empty(),
        },
{
    match read_message(event_json) {
        Some(event) => plain_kind(find_raw_kind(&event).as_str()),
        None => String::new(),
    }
}

/// Whatever an event calls itself, its kind is empty or a plain name.
pub proof fn law_kinds_are_plain(event: Json)
    ensures
        kind_of(event).len() == 0 || is_plain_kind(kind_of(event)),
{
}

} // verus!
