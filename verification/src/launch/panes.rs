//! The panes of a `pane list` message.

use crate::json::{get_member, integer, json_of, member, opt_text, parse, Json};
use crate::launch::replies::{get_result, result_of};
use crate::records::{
    fields_of, flag_field, get_field, get_flag, get_list, get_text, given, list_field,
    message_value, read_record, read_value, text_field, texts, unwrap_value, value_within, wrap,
    Field, Fields, Given, Record,
};
use crate::text::{
    ends_with, matches_at, parse_u64, parsed_number, slice_to_string, starts_with, str_eq, to_chars,
};
use vstd::prelude::*;

verus! {

/// The label that the launcher gives the Explorer's pane and later looks for.
pub const PANE_LABEL: &'static str = "Explorer";

/// Marks a pane as the Explorer whatever its label is.
pub const METADATA_SOURCE: &'static str = "herdr-sidebar-explorer";

/// Present only while a sidebar is starting.
pub const STARTING_TOKEN: &'static str = "herdr-sidebar-starting";

/// The label of the pane that holds both views.
pub const SIDEBAR_LABEL: &'static str = "Sidebar";

pub const SC_PANE_LABEL: &'static str = "Source Control";

/// Marks a pane as Source Control whatever its label is.
pub const SC_METADATA_SOURCE: &'static str = "herdr-sidebar-git";

/// Marks a pane as a viewer whatever its label is.
pub const PREVIEW_METADATA_SOURCE: &'static str = "herdr-sidebar-preview";

/// A live sidebar stamps its token with the time every few seconds. A token
/// older than this belongs to a pane whose process is gone.
pub const HEARTBEAT_STALE_SECS: u64 = 20;

/// What a pane carries of a token that is stamped with the time.
#[derive(Clone, Copy, PartialEq, Eq, Structural, Debug)]
pub enum Heartbeat {
    Absent,
    /// Seconds since the epoch.
    At(u64),
    /// Present, but not with a time.
    Unreadable,
}

/// The sidebar's own tokens on a pane.
#[derive(Clone, Copy, PartialEq, Eq, Structural, Debug)]
pub struct Tokens {
    pub explorer: Heartbeat,
    pub source_control: Heartbeat,
    pub preview: bool,
    pub starting: bool,
}

#[derive(Debug)]
pub struct Pane {
    pub pane_id: Option<String>,
    pub label: Option<String>,
    pub cwd: Option<String>,
    /// Where the process in the foreground works. Unlike `cwd` it follows a
    /// shell that changes its folder.
    pub foreground_cwd: Option<String>,
    pub focused: bool,
    pub tab_id: Option<String>,
    pub workspace_id: Option<String>,
    pub tokens: Tokens,
}

/// What a `Pane` holds.
#[verifier::ext_equal]
pub struct PaneView {
    pub pane_id: Option<Seq<char>>,
    pub label: Option<Seq<char>>,
    pub cwd: Option<Seq<char>>,
    pub foreground_cwd: Option<Seq<char>>,
    pub focused: bool,
    pub tab_id: Option<Seq<char>>,
    pub workspace_id: Option<Seq<char>>,
    pub tokens: Tokens,
}

impl View for Pane {
    type V = PaneView;

    open spec fn view(&self) -> PaneView {
        PaneView {
            pane_id: opt_text(self.pane_id),
            label: opt_text(self.label),
            cwd: opt_text(self.cwd),
            foreground_cwd: opt_text(self.foreground_cwd),
            focused: self.focused,
            tab_id: opt_text(self.tab_id),
            workspace_id: opt_text(self.workspace_id),
            tokens: self.tokens,
        }
    }
}

pub open spec fn pane_views(panes: Seq<Pane>) -> Seq<PaneView> {
    panes.map(|i: int, p: Pane| p@)
}

// ---- Reading the message ----

/// The time that a token holds: a number, or a number in a text.
pub open spec fn stamp(value: Json) -> Option<u64> {
    match integer(value, 0, u64::MAX as int) {
        Some(n) => Some(n as u64),
        None => match value {
            Json::Text(text) => match parsed_number(text, u64::MAX as nat) {
                Some(n) => Some(n as u64),
                None => None,
            },
            _ => None,
        },
    }
}

pub open spec fn heartbeat(tokens: Json, key: Seq<char>) -> Heartbeat {
    match member(tokens, key) {
        None => Heartbeat::Absent,
        Some(value) => match stamp(value) {
            Some(time) => Heartbeat::At(time),
            None => Heartbeat::Unreadable,
        },
    }
}

pub open spec fn tokens_in(tokens: Json) -> Tokens {
    Tokens {
        explorer: heartbeat(tokens, METADATA_SOURCE@),
        source_control: heartbeat(tokens, SC_METADATA_SOURCE@),
        preview: member(tokens, PREVIEW_METADATA_SOURCE@) is Some,
        starting: member(tokens, STARTING_TOKEN@) is Some,
    }
}

pub open spec fn no_tokens() -> Tokens {
    Tokens {
        explorer: Heartbeat::Absent,
        source_control: Heartbeat::Absent,
        preview: false,
        starting: false,
    }
}

/// The lists and objects of a message that the tokens of a pane lie in.
pub const TOKENS_DEPTH: usize = 4;

/// The tokens of a pane; `None` where the field is no object or given twice.
pub open spec fn tokens_field(pane: Fields) -> Option<Tokens> {
    match given(pane, 7, "tokens"@) {
        Given::Not => Some(no_tokens()),
        Given::Once(text) => match value_within(text, TOKENS_DEPTH as nat) {
            Some(tokens) => if tokens is Object {
                Some(tokens_in(tokens))
            } else {
                None
            },
            None => None,
        },
        Given::Again => None,
    }
}

/// The pane that a value describes; `None` where it describes none.
pub open spec fn pane_in(value: Seq<char>) -> Option<PaneView> {
    match fields_of(value, 8) {
        None => None,
        Some(pane) => match (
            text_field(pane, 0, "pane_id"@),
            text_field(pane, 1, "label"@),
            text_field(pane, 2, "cwd"@),
            text_field(pane, 3, "foreground_cwd"@),
            flag_field(pane, 4, "focused"@),
            text_field(pane, 5, "tab_id"@),
            text_field(pane, 6, "workspace_id"@),
            tokens_field(pane),
        ) {
            (
                Some(pane_id),
                Some(label),
                Some(cwd),
                Some(foreground_cwd),
                Some(focused),
                Some(tab_id),
                Some(workspace_id),
                Some(tokens),
            ) => Some(
                PaneView {
                    pane_id,
                    label,
                    cwd,
                    foreground_cwd,
                    focused,
                    tab_id,
                    workspace_id,
                    tokens,
                },
            ),
            _ => None,
        },
    }
}

/// The panes that the first `n` values describe; `None` where one describes
/// none.
pub open spec fn panes_in(list: Seq<Seq<char>>, n: int) -> Option<Seq<PaneView>>
    decreases n,
{
    if n <= 0 {
        Some(Seq::empty())
    } else {
        match (panes_in(list, n - 1), pane_in(list[n - 1])) {
            (Some(panes), Some(pane)) => Some(panes.push(pane)),
            _ => None,
        }
    }
}

/// The panes of a `pane list` message; `None` where the text is no such
/// message.
pub open spec fn listed_panes(text: Seq<char>) -> Option<Seq<PaneView>> {
    match result_of(message_value(text), 1) {
        Some(result) => match list_field(result, 0, "panes"@) {
            Some(list) => panes_in(list, list.len() as int),
            None => None,
        },
        None => None,
    }
}

fn read_stamp(value: &serde_json::Value) -> (res: Option<u64>)
    ensures
        res == stamp(json_of(*value)),
{
    match value.as_u64() {
        Some(time) => Some(time),
        None => match value.as_str() {
            Some(text) => parse_u64(to_chars(text).as_slice()),
            None => None,
        },
    }
}

fn read_heartbeat(tokens: &serde_json::Value, key: &str) -> (res: Heartbeat)
    ensures
        res == heartbeat(json_of(*tokens), key@),
{
    match get_member(tokens, key) {
        None => Heartbeat::Absent,
        Some(value) => match read_stamp(value) {
            Some(time) => Heartbeat::At(time),
            None => Heartbeat::Unreadable,
        },
    }
}

fn read_tokens(pane: &Record) -> (res: Option<Tokens>)
    ensures
        res == tokens_field(pane@),
{
    let text: String = match get_field(pane, 7, "tokens") {
        Field::Not => {
            return Some(
                Tokens {
                    explorer: Heartbeat::Absent,
                    source_control: Heartbeat::Absent,
                    preview: false,
                    starting: false,
                },
            );
        },
        Field::Once(text) => text,
        Field::Again => {
            return None;
        },
    };
    match parse(wrap(text.as_str(), TOKENS_DEPTH).as_str()) {
        Some(outer) => match unwrap_value(&outer, TOKENS_DEPTH) {
            Some(tokens) => if tokens.is_object() {
                Some(
                    Tokens {
                        explorer: read_heartbeat(tokens, METADATA_SOURCE),
                        source_control: read_heartbeat(tokens, SC_METADATA_SOURCE),
                        preview: get_member(tokens, PREVIEW_METADATA_SOURCE).is_some(),
                        starting: get_member(tokens, STARTING_TOKEN).is_some(),
                    },
                )
            } else {
                None
            },
            None => None,
        },
        None => None,
    }
}

fn read_pane(value: &str) -> (res: Option<Pane>)
    ensures
        match res {
            Some(pane) => pane_in(value@) == Some(pane@),
            None => pane_in(value@) is None,
        },
{
    let pane: Record = match read_record(value, 8) {
        Some(pane) => pane,
        None => {
            return None;
        },
    };
    match (
        get_text(&pane, 0, "pane_id"),
        get_text(&pane, 1, "label"),
        get_text(&pane, 2, "cwd"),
        get_text(&pane, 3, "foreground_cwd"),
        get_flag(&pane, 4, "focused"),
        get_text(&pane, 5, "tab_id"),
        get_text(&pane, 6, "workspace_id"),
        read_tokens(&pane),
    ) {
        (
            Some(pane_id),
            Some(label),
            Some(cwd),
            Some(foreground_cwd),
            Some(focused),
            Some(tab_id),
            Some(workspace_id),
            Some(tokens),
        ) => Some(
            Pane { pane_id, label, cwd, foreground_cwd, focused, tab_id, workspace_id, tokens },
        ),
        _ => None,
    }
}

proof fn lemma_one_bad_pane_spoils_the_list(list: Seq<Seq<char>>, i: int, n: int)
    requires
        0 <= i < n,
        pane_in(list[i]) is None,
    ensures
        panes_in(list, n) is None,
    decreases n,
{
    if i < n - 1 {
        lemma_one_bad_pane_spoils_the_list(list, i, n - 1);
    }
}

/// The panes of a `pane list` message.
pub fn read_panes(pane_list_json: &str) -> (res: Option<Vec<Pane>>)
    ensures
        match res {
            Some(panes) => listed_panes(pane_list_json@) == Some(pane_views(panes@)),
            None => listed_panes(pane_list_json@) is None,
        },
{
    let result: Record = match get_result(read_value(pane_list_json), 1) {
        Some(result) => result,
        None => {
            return None;
        },
    };
    let list: Vec<String> = match get_list(&result, 0, "panes") {
        Some(list) => list,
        None => {
            return None;
        },
    };
    let mut out: Vec<Pane> = Vec::new();
    assert(pane_views(out@) =~= Seq::empty());
    let ghost all: Seq<Seq<char>> = texts(list@);
    let mut i: usize = 0;
    while i < list.len()
        invariant
            i <= list@.len(),
            all == texts(list@),
            listed_panes(pane_list_json@) == panes_in(all, all.len() as int),
            panes_in(all, i as int) == Some(pane_views(out@)),
        decreases list@.len() - i,
    {
        assert(all[i as int] == list@[i as int]@);
        let ghost before: Seq<Pane> = out@;
        match read_pane(list[i].as_str()) {
            Some(pane) => {
                out.push(pane);
                assert(pane_views(out@) =~= pane_views(before).push(pane@));
            },
            None => {
                proof {
                    lemma_one_bad_pane_spoils_the_list(all, i as int, all.len() as int);
                }
                return None;
            },
        }
        i += 1;
    }
    Some(out)
}

// ---- Kinds of panes ----

pub open spec fn is_explorer(pane: PaneView) -> bool {
    ||| !(pane.tokens.explorer is Absent)
    ||| pane.label == Some(PANE_LABEL@)
    ||| pane.label == Some(SIDEBAR_LABEL@)
}

pub open spec fn is_source_control(pane: PaneView) -> bool {
    !(pane.tokens.source_control is Absent) || pane.label == Some(SC_PANE_LABEL@)
}

pub open spec fn previews(label: Seq<char>) -> bool {
    ||| label == "Preview"@
    ||| starts_with(label, "Preview · "@)
    ||| starts_with(label, "Editor · "@)
    ||| ends_with(label, " · preview"@)
    ||| ends_with(label, " · editor"@)
}

/// A pane that belongs to the sidebar, as opposed to the user's own work.
pub open spec fn is_plugin_pane(pane: PaneView) -> bool {
    ||| is_explorer(pane)
    ||| is_source_control(pane)
    ||| pane.tokens.preview
    ||| (pane.label is Some && previews(pane.label->0))
}

/// Whether the process behind a heartbeat is gone.
pub open spec fn is_stale(heartbeat: Heartbeat, now: u64) -> bool {
    match heartbeat {
        Heartbeat::Absent => false,
        Heartbeat::At(time) => now - time > HEARTBEAT_STALE_SECS,
        Heartbeat::Unreadable => true,
    }
}

/// A pane that has our label but no heartbeat at all: a restored pane whose
/// process is a fresh shell.
pub open spec fn is_restored(pane: PaneView) -> bool {
    &&& pane.label == Some(PANE_LABEL@) || pane.label == Some(SIDEBAR_LABEL@)
    &&& pane.tokens.explorer is Absent
}

pub fn token_stale(heartbeat: Heartbeat, now: u64) -> (res: bool)
    ensures
        res == is_stale(heartbeat, now),
{
    match heartbeat {
        Heartbeat::Absent => false,
        Heartbeat::At(time) => now.saturating_sub(time) > HEARTBEAT_STALE_SECS,
        Heartbeat::Unreadable => true,
    }
}

/// Whether an optional text is `wanted`.
pub fn is_text(text: &Option<String>, wanted: &str) -> (res: bool)
    ensures
        res == (opt_text(*text) == Some(wanted@)),
{
    match text {
        Some(text) => str_eq(text.as_str(), wanted),
        None => false,
    }
}

pub fn same_text(a: &Option<String>, b: &Option<String>) -> (res: bool)
    ensures
        res == (opt_text(*a) == opt_text(*b)),
{
    match (a, b) {
        (Some(a), Some(b)) => str_eq(a.as_str(), b.as_str()),
        (None, None) => true,
        _ => false,
    }
}

fn label_starts(label: &[char], prefix: &str) -> (res: bool)
    ensures
        res == starts_with(label@, prefix@),
{
    matches_at(label, to_chars(prefix).as_slice(), 0)
}

fn label_ends(label: &[char], suffix: &str) -> (res: bool)
    ensures
        res == ends_with(label@, suffix@),
{
    let wanted: Vec<char> = to_chars(suffix);
    if wanted.len() > label.len() {
        return false;
    }
    matches_at(label, wanted.as_slice(), label.len() - wanted.len())
}

/// Whether a label is that of a viewer or an editor.
pub fn is_preview_label(label: &str) -> (res: bool)
    ensures
        res == previews(label@),
{
    if str_eq(label, "Preview") {
        return true;
    }
    let chars: Vec<char> = to_chars(label);
    let s: &[char] = chars.as_slice();
    label_starts(s, "Preview · ") || label_starts(s, "Editor · ") || label_ends(s, " · preview")
        || label_ends(s, " · editor")
}

impl Pane {
    pub fn is_explorer(&self) -> (res: bool)
        ensures
            res == is_explorer(self@),
    {
        !matches!(self.tokens.explorer, Heartbeat::Absent) || is_text(&self.label, PANE_LABEL)
            || is_text(&self.label, SIDEBAR_LABEL)
    }

    pub fn is_source_control(&self) -> (res: bool)
        ensures
            res == is_source_control(self@),
    {
        !matches!(self.tokens.source_control, Heartbeat::Absent) || is_text(
            &self.label,
            SC_PANE_LABEL,
        )
    }

    pub fn is_plugin_pane(&self) -> (res: bool)
        ensures
            res == is_plugin_pane(self@),
    {
        if self.is_explorer() || self.is_source_control() || self.tokens.preview {
            return true;
        }
        match &self.label {
            Some(label) => is_preview_label(label.as_str()),
            None => false,
        }
    }

    pub fn our_label_without_token(&self) -> (res: bool)
        ensures
            res == is_restored(self@),
    {
        (is_text(&self.label, PANE_LABEL) || is_text(&self.label, SIDEBAR_LABEL)) && matches!(
            self.tokens.explorer,
            Heartbeat::Absent
        )
    }
}

// ---- Ids and paths ----

pub open spec fn is_id_char(c: char) -> bool {
    ||| 'a' <= c <= 'z'
    ||| 'A' <= c <= 'Z'
    ||| '0' <= c <= '9'
    ||| c == ':'
    ||| c == '.'
    ||| c == '_'
    ||| c == '-'
}

/// An id that no command line takes for a flag.
pub open spec fn flag_safe(id: Seq<char>) -> bool {
    &&& id.len() > 0
    &&& id[0] != '-'
    &&& forall|i: int| 0 <= i < id.len() ==> is_id_char(#[trigger] id[i])
}

pub fn is_flag_safe(id: &str) -> (res: bool)
    ensures
        res == flag_safe(id@),
{
    let chars: Vec<char> = to_chars(id);
    if chars.len() == 0 || chars[0] == '-' {
        return false;
    }
    let mut i: usize = 0;
    while i < chars.len()
        invariant
            i <= chars@.len(),
            chars@ == id@,
            forall|k: int| 0 <= k < i ==> is_id_char(#[trigger] id@[k]),
        decreases chars@.len() - i,
    {
        let c: char = chars[i];
        let safe: bool = ('a' <= c && c <= 'z') || ('A' <= c && c <= 'Z') || ('0' <= c && c <= '9')
            || c == ':' || c == '.' || c == '_' || c == '-';
        if !safe {
            assert(!is_id_char(id@[i as int]));
            return false;
        }
        i += 1;
    }
    true
}

/// A path without the prefix that marks it as verbatim on Windows.
pub open spec fn plain_path(path: Seq<char>) -> Seq<char> {
    if starts_with(path, "\\\\?\\"@) {
        path.skip("\\\\?\\"@.len() as int)
    } else {
        path
    }
}

pub fn strip_verbatim(path: &str) -> (res: String)
    ensures
        res@ == plain_path(path@),
{
    let chars: Vec<char> = to_chars(path);
    let prefix: Vec<char> = to_chars("\\\\?\\");
    if matches_at(chars.as_slice(), prefix.as_slice(), 0) {
        assert(path@.skip(prefix@.len() as int) =~= path@.subrange(
            prefix@.len() as int,
            path@.len() as int,
        ));
        slice_to_string(chars.as_slice(), prefix.len(), chars.len())
    } else {
        path.to_owned()
    }
}

// ---- Finding panes ----

/// The first pane from the `i`th on that is wanted.
pub open spec fn find(
    panes: Seq<PaneView>,
    want: spec_fn(PaneView) -> bool,
    i: int,
) -> Option<int>
    decreases panes.len() - i,
{
    if 0 <= i < panes.len() {
        if want(panes[i]) {
            Some(i)
        } else {
            find(panes, want, i + 1)
        }
    } else {
        None
    }
}

pub proof fn lemma_find(panes: Seq<PaneView>, want: spec_fn(PaneView) -> bool, i: int)
    requires
        0 <= i,
    ensures
        match find(panes, want, i) {
            Some(at) => i <= at < panes.len() && want(panes[at]) && forall|k: int|
                i <= k < at ==> !want(#[trigger] panes[k]),
            None => forall|k: int| i <= k < panes.len() ==> !want(#[trigger] panes[k]),
        },
    decreases panes.len() - i,
{
    if i < panes.len() && !want(panes[i]) {
        lemma_find(panes, want, i + 1);
    }
}

pub open spec fn is_focused() -> spec_fn(PaneView) -> bool {
    |p: PaneView| p.focused
}

pub open spec fn has_id(id: Seq<char>) -> spec_fn(PaneView) -> bool {
    |p: PaneView| p.pane_id == Some(id)
}

pub open spec fn in_tab(tab: Seq<char>) -> spec_fn(PaneView) -> bool {
    |p: PaneView| p.tab_id == Some(tab)
}

/// Find the first pane that passes a test.
pub(crate) fn find_pane<F: Fn(&Pane) -> bool>(
    panes: &[Pane],
    test: F,
    Ghost(want): Ghost<spec_fn(PaneView) -> bool>,
) -> (res: Option<usize>)
    requires
        forall|p: &Pane| #[trigger] call_requires(test, (p,)),
        forall|p: &Pane, r: bool| #[trigger] call_ensures(test, (p,), r) ==> r == want(p@),
    ensures
        match res {
            Some(i) => i < panes@.len() && find(pane_views(panes@), want, 0) == Some(i as int),
            None => find(pane_views(panes@), want, 0) is None,
        },
{
    let ghost views: Seq<PaneView> = pane_views(panes@);
    let mut i: usize = 0;
    while i < panes.len()
        invariant
            i <= panes@.len(),
            views == pane_views(panes@),
            forall|p: &Pane| #[trigger] call_requires(test, (p,)),
            forall|p: &Pane, r: bool| #[trigger] call_ensures(test, (p,), r) ==> r == want(p@),
            find(views, want, i as int) == find(views, want, 0),
        decreases panes@.len() - i,
    {
        assert(views[i as int] == panes@[i as int]@);
        if test(&panes[i]) {
            return Some(i);
        }
        i += 1;
    }
    None
}

pub fn find_focused(panes: &[Pane]) -> (res: Option<usize>)
    ensures
        match res {
            Some(i) => i < panes@.len() && find(pane_views(panes@), is_focused(), 0) == Some(
                i as int,
            ),
            None => find(pane_views(panes@), is_focused(), 0) is None,
        },
{
    let test = |p: &Pane| -> (r: bool)
        ensures r == p@.focused
    {
        p.focused
    };
    find_pane(panes, test, Ghost(is_focused()))
}

pub fn find_id(panes: &[Pane], id: &str) -> (res: Option<usize>)
    ensures
        match res {
            Some(i) => i < panes@.len() && find(pane_views(panes@), has_id(id@), 0) == Some(
                i as int,
            ),
            None => find(pane_views(panes@), has_id(id@), 0) is None,
        },
{
    let test = |p: &Pane| -> (r: bool)
        ensures r == (p@.pane_id == Some(id@))
    {
        is_text(&p.pane_id, id)
    };
    find_pane(panes, test, Ghost(has_id(id@)))
}

} // verus!
