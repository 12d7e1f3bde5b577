//! Answers of the multiplexer to single requests.

use crate::json::opt_text;
use crate::launch::panes::{flag_safe, is_flag_safe};
use crate::launch::queries::or_empty;
use crate::records::{
    fields_of, get_list, get_optional, get_required, get_text, list_field, message_value, optional,
    read_record, read_value, required, text_field, texts, Fields, Record,
};
use crate::text::str_eq;
use vstd::prelude::*;

verus! {

/// The fields of the result of an answer, of which it has `n`.
pub open spec fn result_of(answer: Option<Seq<char>>, n: int) -> Option<Fields> {
    match answer {
        Some(value) => match fields_of(value, 1) {
            Some(outer) => match required(outer, 0, "result"@) {
                Some(result) => fields_of(result, n),
                None => None,
            },
            None => None,
        },
        None => None,
    }
}

pub fn get_result(answer: Option<String>, n: usize) -> (res: Option<Record>)
    ensures
        match res {
            Some(found) => result_of(opt_text(answer), n as int) == Some(found@),
            None => result_of(opt_text(answer), n as int) is None,
        },
{
    match answer {
        Some(value) => match read_record(value.as_str(), 1) {
            Some(outer) => match get_required(&outer, 0, "result") {
                Some(result) => read_record(result.as_str(), n),
                None => None,
            },
            None => None,
        },
        None => None,
    }
}

/// A field that is an object of one text, may be null and among named ones left
/// out: the text. `None` where it spoils the answer.
pub open spec fn nested_text(
    fields: Fields,
    i: int,
    name: Seq<char>,
    key: Seq<char>,
) -> Option<Option<Seq<char>>> {
    match optional(fields, i, name) {
        Some(Some(value)) => match fields_of(value, 1) {
            Some(inner) => text_field(inner, 0, key),
            None => None,
        },
        Some(None) => Some(None),
        None => None,
    }
}

fn get_nested_text(record: &Record, i: usize, name: &str, key: &str) -> (res: Option<
    Option<String>,
>)
    ensures
        match res {
            Some(text) => nested_text(record@, i as int, name@, key@) == Some(opt_text(text)),
            None => nested_text(record@, i as int, name@, key@) is None,
        },
{
    match get_optional(record, i, name) {
        Some(Some(value)) => match read_record(value.as_str(), 1) {
            Some(inner) => get_text(&inner, 0, key),
            None => None,
        },
        Some(None) => Some(None),
        None => None,
    }
}

/// An id that can be named on a command line.
pub open spec fn safe_id(id: Option<Option<Seq<char>>>) -> Option<Seq<char>> {
    match id {
        Some(Some(id)) => if flag_safe(id) {
            Some(id)
        } else {
            None
        },
        _ => None,
    }
}

fn keep_safe(id: Option<Option<String>>) -> (res: Option<String>)
    ensures
        opt_text(res) == safe_id(
            match id {
                Some(id) => Some(opt_text(id)),
                None => None,
            },
        ),
{
    match id {
        Some(Some(id)) => if is_flag_safe(id.as_str()) {
            Some(id)
        } else {
            None
        },
        _ => None,
    }
}

// ---- A pane that was split off ----

pub open spec fn split_off(answer: Option<Seq<char>>) -> Option<Seq<char>> {
    match result_of(answer, 1) {
        Some(result) => safe_id(nested_text(result, 0, "pane"@, "pane_id"@)),
        None => None,
    }
}

/// The pane that the answer to a `pane.split` request names.
pub fn split_pane_id(response_json: &str) -> (res: Option<String>)
    ensures
        opt_text(res) == split_off(message_value(response_json@)),
{
    match get_result(read_value(response_json), 1) {
        Some(result) => keep_safe(get_nested_text(&result, 0, "pane", "pane_id")),
        None => None,
    }
}

// ---- A tab that was created ----

/// The tab and its one pane. A field of the wrong shape spoils the answer even
/// where it is not needed.
pub open spec fn created_tab(answer: Option<Seq<char>>) -> Option<(Seq<char>, Seq<char>)> {
    match result_of(answer, 2) {
        Some(result) => {
            let tab = nested_text(result, 0, "tab"@, "tab_id"@);
            let pane = nested_text(result, 1, "root_pane"@, "pane_id"@);
            match (safe_id(tab), safe_id(pane)) {
                (Some(tab), Some(pane)) => Some((tab, pane)),
                _ => None,
            }
        },
        None => None,
    }
}

/// The tab that the answer to a `tab.create` request names, and its one pane.
pub fn created_tab_root_pane(response_json: &str) -> (res: Option<(String, String)>)
    ensures
        match res {
            Some((tab, pane)) => created_tab(message_value(response_json@)) == Some((tab@, pane@)),
            None => created_tab(message_value(response_json@)) is None,
        },
{
    match get_result(read_value(response_json), 2) {
        Some(result) => {
            let tab: Option<String> = keep_safe(get_nested_text(&result, 0, "tab", "tab_id"));
            let pane: Option<String> = keep_safe(
                get_nested_text(&result, 1, "root_pane", "pane_id"),
            );
            match (tab, pane) {
                (Some(tab), Some(pane)) => Some((tab, pane)),
                _ => None,
            }
        },
        None => None,
    }
}

// ---- A plugin pane that was opened ----

pub open spec fn opened_plugin_pane(answer: Option<Seq<char>>) -> Option<Seq<char>> {
    match result_of(answer, 1) {
        Some(result) => match required(result, 0, "plugin_pane"@) {
            Some(plugin) => match fields_of(plugin, 1) {
                Some(plugin) => match required(plugin, 0, "pane"@) {
                    Some(pane) => match fields_of(pane, 1) {
                        Some(pane) => safe_id(text_field(pane, 0, "pane_id"@)),
                        None => None,
                    },
                    None => None,
                },
                None => None,
            },
            None => None,
        },
        None => None,
    }
}

/// The record of one field that a field of another one holds.
fn get_inner(record: &Record, name: &str) -> (res: Option<Record>)
    ensures
        match res {
            Some(inner) => required(record@, 0, name@) matches Some(value) && fields_of(value, 1)
                == Some(inner@),
            None => required(record@, 0, name@) matches Some(value) ==> fields_of(value, 1) is None,
        },
{
    match get_required(record, 0, name) {
        Some(value) => read_record(value.as_str(), 1),
        None => None,
    }
}

/// The pane that the answer to a `plugin.pane.open` request names.
pub fn plugin_pane_id(response_json: &str) -> (res: Option<String>)
    ensures
        opt_text(res) == opened_plugin_pane(message_value(response_json@)),
{
    match get_result(read_value(response_json), 1) {
        Some(result) => match get_inner(&result, "plugin_pane") {
            Some(plugin) => match get_inner(&plugin, "pane") {
                Some(pane) => keep_safe(get_text(&pane, 0, "pane_id")),
                None => None,
            },
            None => None,
        },
        None => None,
    }
}

/// The ids of an answer can be named on a command line.
pub proof fn law_answered_ids_are_flag_safe(answer: Option<Seq<char>>)
    ensures
        split_off(answer) matches Some(id) ==> flag_safe(id),
        opened_plugin_pane(answer) matches Some(id) ==> flag_safe(id),
        created_tab(answer) matches Some(ids) ==> flag_safe(ids.0) && flag_safe(ids.1),
{
}

// ---- Workspaces ----

/// A workspace of a `workspace list` message: its id and its label.
pub open spec fn workspace_in(value: Seq<char>) -> Option<
    (Option<Seq<char>>, Option<Seq<char>>),
> {
    match fields_of(value, 2) {
        Some(workspace) => match (
            text_field(workspace, 0, "workspace_id"@),
            text_field(workspace, 1, "label"@),
        ) {
            (Some(id), Some(label)) => Some((id, label)),
            _ => None,
        },
        None => None,
    }
}

/// Whether each of the values from the `i`th on describes a workspace.
pub open spec fn are_workspaces(list: Seq<Seq<char>>, i: int) -> bool {
    forall|k: int| i <= k < list.len() ==> workspace_in(#[trigger] list[k]) is Some
}

/// The label of the first workspace from the `i`th on with an id.
pub open spec fn label_from(list: Seq<Seq<char>>, id: Seq<char>, i: int) -> Seq<char>
    decreases list.len() - i,
{
    if 0 <= i < list.len() {
        match workspace_in(list[i]) {
            Some((Some(found), label)) => if found == id {
                or_empty(label)
            } else {
                label_from(list, id, i + 1)
            },
            _ => label_from(list, id, i + 1),
        }
    } else {
        Seq::empty()
    }
}

/// The label of a workspace; empty where it is unknown or has none.
pub open spec fn label_of(answer: Option<Seq<char>>, id: Seq<char>) -> Seq<char> {
    match result_of(answer, 1) {
        Some(result) => match list_field(result, 0, "workspaces"@) {
            Some(list) => if id.len() > 0 && are_workspaces(list, 0) {
                label_from(list, id, 0)
            } else {
                Seq::empty()
            },
            None => Seq::empty(),
        },
        None => Seq::empty(),
    }
}

fn read_workspace(value: &str) -> (res: Option<(Option<String>, Option<String>)>)
    ensures
        match res {
            Some((id, label)) => workspace_in(value@) == Some((opt_text(id), opt_text(label))),
            None => workspace_in(value@) is None,
        },
{
    let workspace: Record = match read_record(value, 2) {
        Some(workspace) => workspace,
        None => {
            return None;
        },
    };
    match (get_text(&workspace, 0, "workspace_id"), get_text(&workspace, 1, "label")) {
        (Some(id), Some(label)) => Some((id, label)),
        _ => None,
    }
}

fn find_label(list: &Vec<String>, id: &str) -> (res: String)
    ensures
        res@ == if are_workspaces(texts(list@), 0) {
            label_from(texts(list@), id@, 0)
        } else {
            Seq::empty()
        },
{
    let ghost all: Seq<Seq<char>> = texts(list@);
    let mut found: Option<String> = None;
    let mut i: usize = 0;
    while i < list.len()
        invariant
            i <= list@.len(),
            all == texts(list@),
            forall|k: int| 0 <= k < i ==> workspace_in(#[trigger] all[k]) is Some,
            match found {
                Some(label) => label_from(all, id@, 0) == label@,
                None => label_from(all, id@, 0) == label_from(all, id@, i as int),
            },
        decreases list@.len() - i,
    {
        assert(all[i as int] == list@[i as int]@);
        match read_workspace(list[i].as_str()) {
            Some((Some(one), label)) => {
                if found.is_none() && str_eq(one.as_str(), id) {
                    found = match label {
                        Some(label) => Some(label),
                        None => Some(String::new()),
                    };
                }
            },
            Some((None, _)) => {},
            None => {
                assert(!are_workspaces(all, 0));
                return String::new();
            },
        }
        i += 1;
    }
    assert(are_workspaces(all, 0));
    match found {
        Some(label) => label,
        None => String::new(),
    }
}

/// The label of a workspace, from a `workspace list` message.
pub fn workspace_label(workspace_list_json: &str, workspace_id: &str) -> (res: String)
    ensures
        res@ == label_of(message_value(workspace_list_json@), workspace_id@),
{
    if workspace_id.is_empty() {
        return String::new();
    }
    let result: Record = match get_result(read_value(workspace_list_json), 1) {
        Some(result) => result,
        None => {
            return String::new();
        },
    };
    match get_list(&result, 0, "workspaces") {
        Some(list) => find_label(&list, workspace_id),
        None => String::new(),
    }
}

} // verus!
