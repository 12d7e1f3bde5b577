//! Where a sidebar docks in a layout, how tall it stands and how wide.

use crate::json::{integer, opt_text, parse, parsed, Json};
use crate::launch::panes::{flag_safe, is_flag_safe, is_text};
use crate::launch::replies::{get_result, result_of};
use crate::records::{
    fields_of, get_field, get_list, get_optional, get_required, get_text, given, list_field,
    message_value, optional, read_record, read_value, required, text_field, texts, Field, Fields,
    Given, Record,
};
use vstd::prelude::*;

verus! {

#[derive(Clone, Copy, PartialEq, Eq, Structural, Debug)]
pub struct Rect {
    pub x: i64,
    pub y: i64,
    pub width: i64,
    pub height: i64,
}

#[derive(Debug)]
pub struct LayoutPane {
    pub pane_id: Option<String>,
    pub rect: Option<Rect>,
}

#[derive(Debug)]
pub struct LayoutSplit {
    pub direction: Option<String>,
    /// The share of its first part, as it is spelled.
    pub ratio: Option<String>,
    pub rect: Option<Rect>,
}

#[derive(Debug)]
pub struct Layout {
    pub panes: Vec<LayoutPane>,
    pub splits: Vec<LayoutSplit>,
    pub area: Option<Rect>,
    pub tab_id: Option<String>,
}

#[verifier::ext_equal]
pub struct LayoutPaneView {
    pub pane_id: Option<Seq<char>>,
    pub rect: Option<Rect>,
}

#[verifier::ext_equal]
pub struct LayoutSplitView {
    pub direction: Option<Seq<char>>,
    pub ratio: Option<Seq<char>>,
    pub rect: Option<Rect>,
}

/// What a `Layout` holds.
#[verifier::ext_equal]
pub struct LayoutView {
    pub panes: Seq<LayoutPaneView>,
    pub splits: Seq<LayoutSplitView>,
    pub area: Option<Rect>,
    pub tab_id: Option<Seq<char>>,
}

impl View for LayoutPane {
    type V = LayoutPaneView;

    open spec fn view(&self) -> LayoutPaneView {
        LayoutPaneView { pane_id: opt_text(self.pane_id), rect: self.rect }
    }
}

impl View for LayoutSplit {
    type V = LayoutSplitView;

    open spec fn view(&self) -> LayoutSplitView {
        LayoutSplitView {
            direction: opt_text(self.direction),
            ratio: opt_text(self.ratio),
            rect: self.rect,
        }
    }
}

impl View for Layout {
    type V = LayoutView;

    open spec fn view(&self) -> LayoutView {
        LayoutView {
            panes: self.panes@.map(|i: int, p: LayoutPane| p@),
            splits: self.splits@.map(|i: int, s: LayoutSplit| s@),
            area: self.area,
            tab_id: opt_text(self.tab_id),
        }
    }
}

// ---- Reading the message ----

/// A whole number; `None` where a text spells none.
pub open spec fn whole_number(text: Seq<char>) -> Option<int> {
    match parsed(text) {
        Some(value) => integer(value, i64::MIN as int, i64::MAX as int),
        None => None,
    }
}

/// A whole number that has to be given. `None` where the field spoils the message.
pub open spec fn number_field(fields: Fields, i: int, name: Seq<char>) -> Option<int> {
    match required(fields, i, name) {
        Some(text) => whole_number(text),
        None => None,
    }
}

/// A rectangle; its height may be left out. `None` where the value is none.
pub open spec fn rect_in(value: Seq<char>) -> Option<Rect> {
    match fields_of(value, 4) {
        None => None,
        Some(rect) => {
            let height = match given(rect, 3, "height"@) {
                Given::Once(text) => whole_number(text),
                Given::Not => Some(0),
                Given::Again => None,
            };
            match (
                number_field(rect, 0, "x"@),
                number_field(rect, 1, "y"@),
                number_field(rect, 2, "width"@),
                height,
            ) {
                (Some(x), Some(y), Some(width), Some(height)) => Some(
                    Rect {
                        x: x as i64,
                        y: y as i64,
                        width: width as i64,
                        height: height as i64,
                    },
                ),
                _ => None,
            }
        },
    }
}

/// A rectangle that may be null, and among named fields left out. `None` where
/// the field spoils the message.
pub open spec fn rect_field(fields: Fields, i: int, name: Seq<char>) -> Option<Option<Rect>> {
    match optional(fields, i, name) {
        Some(Some(value)) => match rect_in(value) {
            Some(rect) => Some(Some(rect)),
            None => None,
        },
        Some(None) => Some(None),
        None => None,
    }
}

/// The text of a number that may be null, and among named fields left out. `None`
/// where the field spoils the message.
pub open spec fn ratio_field(fields: Fields) -> Option<Option<Seq<char>>> {
    match optional(fields, 1, "ratio"@) {
        Some(Some(text)) => if parsed(text) matches Some(Json::Number(_)) {
            Some(Some(text))
        } else {
            None
        },
        Some(None) => Some(None),
        None => None,
    }
}

pub open spec fn layout_pane_in(value: Seq<char>) -> Option<LayoutPaneView> {
    match fields_of(value, 2) {
        None => None,
        Some(pane) => match (text_field(pane, 0, "pane_id"@), rect_field(pane, 1, "rect"@)) {
            (Some(pane_id), Some(rect)) => Some(LayoutPaneView { pane_id, rect }),
            _ => None,
        },
    }
}

pub open spec fn layout_split_in(value: Seq<char>) -> Option<LayoutSplitView> {
    match fields_of(value, 3) {
        None => None,
        Some(split) => match (
            text_field(split, 0, "direction"@),
            ratio_field(split),
            rect_field(split, 2, "rect"@),
        ) {
            (Some(direction), Some(ratio), Some(rect)) => Some(
                LayoutSplitView { direction, ratio, rect },
            ),
            _ => None,
        },
    }
}

/// The panes that the first `n` values describe; `None` where one describes
/// none.
pub open spec fn layout_panes_in(list: Seq<Seq<char>>, n: int) -> Option<Seq<LayoutPaneView>>
    decreases n,
{
    if n <= 0 {
        Some(Seq::empty())
    } else {
        match (layout_panes_in(list, n - 1), layout_pane_in(list[n - 1])) {
            (Some(panes), Some(pane)) => Some(panes.push(pane)),
            _ => None,
        }
    }
}

/// The splits that the first `n` values describe; `None` where one describes
/// none.
pub open spec fn layout_splits_in(list: Seq<Seq<char>>, n: int) -> Option<Seq<LayoutSplitView>>
    decreases n,
{
    if n <= 0 {
        Some(Seq::empty())
    } else {
        match (layout_splits_in(list, n - 1), layout_split_in(list[n - 1])) {
            (Some(splits), Some(split)) => Some(splits.push(split)),
            _ => None,
        }
    }
}

pub open spec fn panes_field(layout: Fields) -> Option<Seq<LayoutPaneView>> {
    match list_field(layout, 0, "panes"@) {
        Some(list) => layout_panes_in(list, list.len() as int),
        None => None,
    }
}

pub open spec fn splits_field(layout: Fields) -> Option<Seq<LayoutSplitView>> {
    match list_field(layout, 1, "splits"@) {
        Some(list) => layout_splits_in(list, list.len() as int),
        None => None,
    }
}

pub open spec fn layout_in(value: Seq<char>) -> Option<LayoutView> {
    match fields_of(value, 4) {
        None => None,
        Some(layout) => match (
            panes_field(layout),
            splits_field(layout),
            rect_field(layout, 2, "area"@),
            text_field(layout, 3, "tab_id"@),
        ) {
            (Some(panes), Some(splits), Some(area), Some(tab_id)) => Some(
                LayoutView { panes, splits, area, tab_id },
            ),
            _ => None,
        },
    }
}

/// The layout of a `pane layout` message; `None` where the text is no such
/// message.
pub open spec fn shown_layout(text: Seq<char>) -> Option<LayoutView> {
    match result_of(message_value(text), 1) {
        Some(result) => match required(result, 0, "layout"@) {
            Some(layout) => layout_in(layout),
            None => None,
        },
        None => None,
    }
}

fn read_number(text: &str) -> (res: Option<i64>)
    ensures
        match res {
            Some(n) => whole_number(text@) == Some(n as int),
            None => whole_number(text@) is None,
        },
{
    match parse(text) {
        Some(value) => value.as_i64(),
        None => None,
    }
}

fn get_number(record: &Record, i: usize, name: &str) -> (res: Option<i64>)
    ensures
        match res {
            Some(n) => number_field(record@, i as int, name@) == Some(n as int),
            None => number_field(record@, i as int, name@) is None,
        },
{
    match get_required(record, i, name) {
        Some(text) => read_number(text.as_str()),
        None => None,
    }
}

fn read_rect(value: &str) -> (res: Option<Rect>)
    ensures
        res == rect_in(value@),
{
    let rect: Record = match read_record(value, 4) {
        Some(rect) => rect,
        None => {
            return None;
        },
    };
    let height: Option<i64> = match get_field(&rect, 3, "height") {
        Field::Once(text) => read_number(text.as_str()),
        Field::Not => Some(0),
        Field::Again => None,
    };
    match (
        get_number(&rect, 0, "x"),
        get_number(&rect, 1, "y"),
        get_number(&rect, 2, "width"),
        height,
    ) {
        (Some(x), Some(y), Some(width), Some(height)) => Some(Rect { x, y, width, height }),
        _ => None,
    }
}

fn get_rect(record: &Record, i: usize, name: &str) -> (res: Option<Option<Rect>>)
    ensures
        res == rect_field(record@, i as int, name@),
{
    match get_optional(record, i, name) {
        Some(Some(value)) => match read_rect(value.as_str()) {
            Some(rect) => Some(Some(rect)),
            None => None,
        },
        Some(None) => Some(None),
        None => None,
    }
}

fn get_ratio(record: &Record) -> (res: Option<Option<String>>)
    ensures
        match res {
            Some(text) => ratio_field(record@) == Some(opt_text(text)),
            None => ratio_field(record@) is None,
        },
{
    match get_optional(record, 1, "ratio") {
        Some(Some(text)) => match parse(text.as_str()) {
            Some(value) => if value.is_number() {
                Some(Some(text))
            } else {
                None
            },
            None => None,
        },
        Some(None) => Some(None),
        None => None,
    }
}

fn read_layout_pane(value: &str) -> (res: Option<LayoutPane>)
    ensures
        match res {
            Some(pane) => layout_pane_in(value@) == Some(pane@),
            None => layout_pane_in(value@) is None,
        },
{
    let pane: Record = match read_record(value, 2) {
        Some(pane) => pane,
        None => {
            return None;
        },
    };
    match (get_text(&pane, 0, "pane_id"), get_rect(&pane, 1, "rect")) {
        (Some(pane_id), Some(rect)) => Some(LayoutPane { pane_id, rect }),
        _ => None,
    }
}

fn read_layout_split(value: &str) -> (res: Option<LayoutSplit>)
    ensures
        match res {
            Some(split) => layout_split_in(value@) == Some(split@),
            None => layout_split_in(value@) is None,
        },
{
    let split: Record = match read_record(value, 3) {
        Some(split) => split,
        None => {
            return None;
        },
    };
    match (get_text(&split, 0, "direction"), get_ratio(&split), get_rect(&split, 2, "rect")) {
        (Some(direction), Some(ratio), Some(rect)) => Some(
            LayoutSplit { direction, ratio, rect },
        ),
        _ => None,
    }
}

proof fn lemma_one_bad_pane_spoils_the_list(list: Seq<Seq<char>>, i: int, n: int)
    requires
        0 <= i < n,
        layout_pane_in(list[i]) is None,
    ensures
        layout_panes_in(list, n) is None,
    decreases n,
{
    if i < n - 1 {
        lemma_one_bad_pane_spoils_the_list(list, i, n - 1);
    }
}

proof fn lemma_one_bad_split_spoils_the_list(list: Seq<Seq<char>>, i: int, n: int)
    requires
        0 <= i < n,
        layout_split_in(list[i]) is None,
    ensures
        layout_splits_in(list, n) is None,
    decreases n,
{
    if i < n - 1 {
        lemma_one_bad_split_spoils_the_list(list, i, n - 1);
    }
}

fn read_layout_panes(layout: &Record) -> (res: Option<Vec<LayoutPane>>)
    ensures
        match res {
            Some(panes) => panes_field(layout@) == Some(
                panes@.map(|i: int, p: LayoutPane| p@),
            ),
            None => panes_field(layout@) is None,
        },
{
    let mut out: Vec<LayoutPane> = Vec::new();
    assert(out@.map(|i: int, p: LayoutPane| p@) =~= Seq::empty());
    let list: Vec<String> = match get_list(layout, 0, "panes") {
        Some(list) => list,
        None => {
            return None;
        },
    };
    let ghost all: Seq<Seq<char>> = texts(list@);
    let mut i: usize = 0;
    while i < list.len()
        invariant
            i <= list@.len(),
            all == texts(list@),
            panes_field(layout@) == layout_panes_in(all, all.len() as int),
            layout_panes_in(all, i as int) == Some(out@.map(|i: int, p: LayoutPane| p@)),
        decreases list@.len() - i,
    {
        assert(all[i as int] == list@[i as int]@);
        let ghost before: Seq<LayoutPane> = out@;
        match read_layout_pane(list[i].as_str()) {
            Some(pane) => {
                out.push(pane);
                assert(out@.map(|i: int, p: LayoutPane| p@) =~= before.map(
                    |i: int, p: LayoutPane| p@,
                ).push(pane@));
            },
            None => {
                proof {
                    lemma_one_bad_pane_spoils_the_list(all, i as int, all.len() as int);
                }
                return None;
            },
        }
        i += 1;
    }
    Some(out)
}

fn read_layout_splits(layout: &Record) -> (res: Option<Vec<LayoutSplit>>)
    ensures
        match res {
            Some(splits) => splits_field(layout@) == Some(
                splits@.map(|i: int, s: LayoutSplit| s@),
            ),
            None => splits_field(layout@) is None,
        },
{
    let mut out: Vec<LayoutSplit> = Vec::new();
    assert(out@.map(|i: int, s: LayoutSplit| s@) =~= Seq::empty());
    let list: Vec<String> = match get_list(layout, 1, "splits") {
        Some(list) => list,
        None => {
            return None;
        },
    };
    let ghost all: Seq<Seq<char>> = texts(list@);
    let mut i: usize = 0;
    while i < list.len()
        invariant
            i <= list@.len(),
            all == texts(list@),
            splits_field(layout@) == layout_splits_in(all, all.len() as int),
            layout_splits_in(all, i as int) == Some(out@.map(|i: int, s: LayoutSplit| s@)),
        decreases list@.len() - i,
    {
        assert(all[i as int] == list@[i as int]@);
        let ghost before: Seq<LayoutSplit> = out@;
        match read_layout_split(list[i].as_str()) {
            Some(split) => {
                out.push(split);
                assert(out@.map(|i: int, s: LayoutSplit| s@) =~= before.map(
                    |i: int, s: LayoutSplit| s@,
                ).push(split@));
            },
            None => {
                proof {
                    lemma_one_bad_split_spoils_the_list(all, i as int, all.len() as int);
                }
                return None;
            },
        }
        i += 1;
    }
    Some(out)
}

/// The layout of a `pane layout` message.
pub fn read_layout(layout_json: &str) -> (res: Option<Layout>)
    ensures
        match res {
            Some(layout) => shown_layout(layout_json@) == Some(layout@),
            None => shown_layout(layout_json@) is None,
        },
{
    let result: Record = match get_result(read_value(layout_json), 1) {
        Some(result) => result,
        None => {
            return None;
        },
    };
    let value: String = match get_required(&result, 0, "layout") {
        Some(value) => value,
        None => {
            return None;
        },
    };
    let layout: Record = match read_record(value.as_str(), 4) {
        Some(layout) => layout,
        None => {
            return None;
        },
    };
    match (
        read_layout_panes(&layout),
        read_layout_splits(&layout),
        get_rect(&layout, 2, "area"),
        get_text(&layout, 3, "tab_id"),
    ) {
        (Some(panes), Some(splits), Some(area), Some(tab_id)) => Some(
            Layout { panes, splits, area, tab_id },
        ),
        _ => None,
    }
}

/// The width of the whole tab.
pub fn layout_width(layout_json: &str) -> (res: Option<i64>)
    ensures
        res == (match shown_layout(layout_json@) {
            Some(layout) => match layout.area {
                Some(area) => Some(area.width),
                None => None,
            },
            None => None,
        }),
{
    match read_layout(layout_json) {
        Some(layout) => match layout.area {
            Some(area) => Some(area.width),
            None => None,
        },
        None => None,
    }
}

/// The width of a split and the share of its first part, where both are given.
pub open spec fn shared_width(split: LayoutSplitView) -> Option<(i64, Seq<char>)> {
    match (split.rect, split.ratio) {
        (Some(rect), Some(ratio)) => Some((rect.width, ratio)),
        _ => None,
    }
}

/// What an optional number with a text holds.
pub open spec fn opt_pair(pair: Option<(i64, String)>) -> Option<(i64, Seq<char>)> {
    match pair {
        Some((n, text)) => Some((n, text@)),
        None => None,
    }
}

/// The width of each split of a layout, and the share of its first part as it is
/// spelled; nothing where the text is no layout.
pub fn split_shares(layout_json: &str) -> (res: Vec<Option<(i64, String)>>)
    ensures
        match shown_layout(layout_json@) {
            Some(layout) => {
                &&& res@.len() == layout.splits.len()
                &&& forall|i: int|
                    0 <= i < res@.len() ==> opt_pair(#[trigger] res@[i]) == shared_width(
                        layout.splits[i],
                    )
            },
            None => res@.len() == 0,
        },
{
    let mut out: Vec<Option<(i64, String)>> = Vec::new();
    let layout: Layout = match read_layout(layout_json) {
        Some(layout) => layout,
        None => {
            return out;
        },
    };
    let ghost views: Seq<LayoutSplitView> = layout@.splits;
    let mut i: usize = 0;
    while i < layout.splits.len()
        invariant
            i <= layout.splits@.len(),
            views == layout@.splits,
            out@.len() == i,
            forall|k: int|
                0 <= k < i ==> opt_pair(#[trigger] out@[k]) == shared_width(views[k]),
        decreases layout.splits@.len() - i,
    {
        assert(views[i as int] == layout.splits@[i as int]@);
        let split: &LayoutSplit = &layout.splits[i];
        out.push(
            match (split.rect, &split.ratio) {
                (Some(rect), Some(ratio)) => Some((rect.width, ratio.clone())),
                _ => None,
            },
        );
        i += 1;
    }
    out
}

// ---- Docking ----

/// A pane that a sidebar can be split from.
pub open spec fn can_dock(pane: LayoutPaneView) -> bool {
    &&& pane.pane_id matches Some(id)
    &&& flag_safe(id)
    &&& pane.rect matches Some(rect)
    &&& rect.width > 0
}

/// Whether `a` lies nearer the edge than `b`, or as near and higher up.
pub open spec fn nearer_edge(a: Rect, b: Rect, dock_right: bool) -> bool {
    if dock_right {
        a.x + a.width > b.x + b.width || (a.x + a.width == b.x + b.width && a.y < b.y)
    } else {
        a.x < b.x || (a.x == b.x && a.y < b.y)
    }
}

/// The pane at the edge among the first `n`, the topmost of them.
pub open spec fn edge_pane(panes: Seq<LayoutPaneView>, dock_right: bool, n: int) -> Option<int>
    decreases n,
{
    if n <= 0 {
        None
    } else {
        let before = edge_pane(panes, dock_right, n - 1);
        if !can_dock(panes[n - 1]) {
            before
        } else {
            match before {
                None => Some(n - 1),
                Some(b) => if nearer_edge(panes[n - 1].rect->0, panes[b].rect->0, dock_right) {
                    Some(n - 1)
                } else {
                    before
                },
            }
        }
    }
}

/// The pane that a sidebar is split from, and its width.
pub open spec fn dock_target(layout: LayoutView, dock_right: bool) -> Option<(Seq<char>, i64)> {
    match edge_pane(layout.panes, dock_right, layout.panes.len() as int) {
        Some(i) => Some((layout.panes[i].pane_id->0, layout.panes[i].rect->0.width)),
        None => None,
    }
}

fn is_nearer(a: Rect, b: Rect, dock_right: bool) -> (res: bool)
    ensures
        res == nearer_edge(a, b, dock_right),
{
    if dock_right {
        let x: i128 = a.x as i128 + a.width as i128;
        let y: i128 = b.x as i128 + b.width as i128;
        x > y || (x == y && a.y < b.y)
    } else {
        a.x < b.x || (a.x == b.x && a.y < b.y)
    }
}

proof fn lemma_edge_pane(panes: Seq<LayoutPaneView>, dock_right: bool, n: int)
    requires
        0 <= n <= panes.len(),
    ensures
        edge_pane(panes, dock_right, n) matches Some(i) ==> 0 <= i < n && can_dock(panes[i])
            && forall|k: int|
            0 <= k < n && can_dock(#[trigger] panes[k]) ==> !nearer_edge(
                panes[k].rect->0,
                panes[i].rect->0,
                dock_right,
            ),
        edge_pane(panes, dock_right, n) is None ==> forall|k: int|
            0 <= k < n ==> !can_dock(#[trigger] panes[k]),
    decreases n,
{
    if n > 0 {
        lemma_edge_pane(panes, dock_right, n - 1);
    }
}

/// A sidebar docks at the edge: no pane that it could be split from lies nearer
/// to it. It docks wherever there is such a pane.
pub proof fn law_sidebars_dock_at_the_edge(layout: LayoutView, dock_right: bool)
    ensures
        match edge_pane(layout.panes, dock_right, layout.panes.len() as int) {
            Some(i) => 0 <= i < layout.panes.len() && can_dock(layout.panes[i]) && forall|k: int|
                0 <= k < layout.panes.len() && can_dock(#[trigger] layout.panes[k])
                    ==> !nearer_edge(layout.panes[k].rect->0, layout.panes[i].rect->0, dock_right),
            None => forall|k: int|
                0 <= k < layout.panes.len() ==> !can_dock(#[trigger] layout.panes[k]),
        },
{
    lemma_edge_pane(layout.panes, dock_right, layout.panes.len() as int);
}

/// The pane of a layout that a sidebar is split from, and its width.
pub fn find_dock(layout: &Layout, dock_right: bool) -> (res: Option<(String, i64)>)
    ensures
        match res {
            Some((id, width)) => dock_target(layout@, dock_right) == Some((id@, width)) && width
                > 0,
            None => dock_target(layout@, dock_right) is None,
        },
{
    let ghost views: Seq<LayoutPaneView> = layout@.panes;
    let mut best: Option<usize> = None;
    let mut i: usize = 0;
    while i < layout.panes.len()
        invariant
            i <= layout.panes@.len(),
            views == layout@.panes,
            match best {
                Some(b) => b < i && can_dock(views[b as int]) && edge_pane(
                    views,
                    dock_right,
                    i as int,
                ) == Some(b as int),
                None => edge_pane(views, dock_right, i as int) is None,
            },
        decreases layout.panes@.len() - i,
    {
        let pane: &LayoutPane = &layout.panes[i];
        assert(views[i as int] == pane@);
        match (&pane.pane_id, pane.rect) {
            (Some(id), Some(rect)) => {
                if is_flag_safe(id.as_str()) && rect.width > 0 {
                    let better: bool = match best {
                        None => true,
                        Some(b) => {
                            assert(views[b as int] == layout.panes@[b as int]@);
                            match layout.panes[b].rect {
                                Some(other) => is_nearer(rect, other, dock_right),
                                None => true,
                            }
                        },
                    };
                    if better {
                        best = Some(i);
                    }
                }
            },
            _ => {},
        }
        i += 1;
    }
    proof {
        lemma_edge_pane(views, dock_right, views.len() as int);
    }
    match best {
        Some(b) => {
            assert(views[b as int] == layout.panes@[b as int]@);
            match (&layout.panes[b].pane_id, layout.panes[b].rect) {
                (Some(id), Some(rect)) => Some((id.clone(), rect.width)),
                _ => None,
            }
        },
        None => None,
    }
}

/// How a sidebar is opened: the pane that it is split from, which part of that
/// pane it takes, and whether the two change places afterwards.
#[derive(Debug)]
pub struct OpenPlan {
    pub pane_id: String,
    /// The sidebar takes this many of every `of` columns.
    pub columns: i64,
    pub of: i64,
    pub swap: bool,
}

/// The part of a pane that a sidebar takes: the columns it wants, but no less
/// than 15 percent and no more than half.
pub open spec fn open_share(target: int, width: int) -> (int, int) {
    if 20 * target < 3 * width {
        (3, 20)
    } else if 2 * target > width {
        (1, 2)
    } else {
        (target, width)
    }
}

/// The split of a layout that opens a sidebar of `target_cols` columns. A new
/// pane opens on the right, so one that docks on the left changes places with
/// the pane it was split from.
pub open spec fn planned_opening(
    layout: LayoutView,
    dock_right: bool,
    target_cols: u16,
) -> Option<(Seq<char>, (int, int), bool)> {
    match dock_target(layout, dock_right) {
        Some((id, width)) => Some((id, open_share(target_cols as int, width as int), !dock_right)),
        None => None,
    }
}

/// How to open a sidebar in the tab of a `pane layout` message; `None` where
/// there is no pane to split.
pub fn open_plan(layout_json: &str, dock_right: bool, target_cols: u16) -> (res: Option<OpenPlan>)
    ensures
        match res {
            Some(plan) => shown_layout(layout_json@) matches Some(layout) && planned_opening(
                layout,
                dock_right,
                target_cols,
            ) == Some((plan.pane_id@, (plan.columns as int, plan.of as int), plan.swap)) && 0
                < plan.columns <= plan.of,
            None => shown_layout(layout_json@) matches Some(layout) ==> planned_opening(
                layout,
                dock_right,
                target_cols,
            ) is None,
        },
{
    let layout: Layout = match read_layout(layout_json) {
        Some(layout) => layout,
        None => {
            return None;
        },
    };
    match find_dock(&layout, dock_right) {
        Some((pane_id, width)) => {
            let (columns, of): (i64, i64) = if 20 * (target_cols as i128) < 3 * (width as i128) {
                (3, 20)
            } else if 2 * (target_cols as i128) > (width as i128) {
                (1, 2)
            } else {
                (target_cols as i64, width)
            };
            Some(OpenPlan { pane_id, columns, of, swap: !dock_right })
        },
        None => None,
    }
}

/// The share that the split leaves to the pane that was there, before the two
/// change places: the sidebar's own where they will, all but that where they do
/// not. As a number of columns, and of how many.
pub fn split_share(plan: &OpenPlan) -> (res: (i64, i64))
    requires
        0 <= plan.columns <= plan.of,
    ensures
        res == (if plan.swap {
            (plan.columns, plan.of)
        } else {
            ((plan.of - plan.columns) as i64, plan.of)
        }),
{
    if plan.swap {
        (plan.columns, plan.of)
    } else {
        (plan.of - plan.columns, plan.of)
    }
}

/// A sidebar opens with between 15 percent and half of the pane that it is split
/// from, and with the columns it wants where they lie in between.
pub proof fn law_sidebars_open_within_their_share(target: int, width: int)
    requires
        width > 0,
        target >= 0,
    ensures
        ({
            let (columns, of) = open_share(target, width);
            &&& of > 0
            &&& 3 * of <= 20 * columns
            &&& 2 * columns <= of
            &&& 3 * width <= 20 * target && 2 * target <= width ==> (columns, of) == (target, width)
        }),
{
}

// ---- Full height ----

/// A step towards a sidebar of full height: the pane below it goes under the
/// pane beside it.
#[derive(Debug)]
pub struct RepairStep {
    pub below: String,
    pub beside: String,
    pub tab: String,
}

/// Directly under `me`, with the column of its left edge.
pub open spec fn is_below(rect: Rect, me: Rect) -> bool {
    rect.y == me.y + me.height && rect.x <= me.x && me.x < rect.x + rect.width
}

/// Directly beside `me` on the inner side, at the same height.
pub open spec fn is_beside(rect: Rect, me: Rect, dock_right: bool) -> bool {
    rect.y == me.y && if dock_right {
        rect.x + rect.width == me.x
    } else {
        rect.x == me.x + me.width
    }
}

/// The first pane from the `i`th on with an id.
pub open spec fn pane_at(panes: Seq<LayoutPaneView>, id: Seq<char>, i: int) -> Option<int>
    decreases panes.len() - i,
{
    if 0 <= i < panes.len() {
        if panes[i].pane_id == Some(id) {
            Some(i)
        } else {
            pane_at(panes, id, i + 1)
        }
    } else {
        None
    }
}

/// Another pane, with an id that can be named on a command line and a place.
pub open spec fn can_move(pane: LayoutPaneView, my_id: Seq<char>) -> bool {
    &&& pane.pane_id != Some(my_id)
    &&& pane.pane_id matches Some(id)
    &&& flag_safe(id)
    &&& pane.rect is Some
}

/// The first pane from the `i`th on that can be moved and lies below `me`, or
/// beside it.
pub open spec fn neighbour(
    panes: Seq<LayoutPaneView>,
    my_id: Seq<char>,
    me: Rect,
    below: bool,
    dock_right: bool,
    i: int,
) -> Option<int>
    decreases panes.len() - i,
{
    if 0 <= i < panes.len() {
        if can_move(panes[i], my_id) && (if below {
            is_below(panes[i].rect->0, me)
        } else {
            is_beside(panes[i].rect->0, me, dock_right)
        }) {
            Some(i)
        } else {
            neighbour(panes, my_id, me, below, dock_right, i + 1)
        }
    } else {
        None
    }
}

/// The step that a sidebar which is not of full height takes: the pane below
/// it, the pane beside it and the tab.
pub open spec fn repair(layout: LayoutView, id: Seq<char>, dock_right: bool) -> Option<
    (Seq<char>, Seq<char>, Seq<char>),
> {
    match (layout.area, layout.tab_id, pane_at(layout.panes, id, 0)) {
        (Some(area), Some(tab), Some(m)) => match layout.panes[m].rect {
            Some(me) => if !flag_safe(tab) || me.height >= area.height {
                None
            } else {
                match (
                    neighbour(layout.panes, id, me, true, dock_right, 0),
                    neighbour(layout.panes, id, me, false, dock_right, 0),
                ) {
                    (Some(b), Some(s)) => Some(
                        (layout.panes[b].pane_id->0, layout.panes[s].pane_id->0, tab),
                    ),
                    _ => None,
                }
            },
            None => None,
        },
        _ => None,
    }
}

fn find_at(panes: &Vec<LayoutPane>, id: &str) -> (res: Option<usize>)
    ensures
        match res {
            Some(i) => i < panes@.len() && pane_at(
                panes@.map(|i: int, p: LayoutPane| p@),
                id@,
                0,
            ) == Some(i as int),
            None => pane_at(panes@.map(|i: int, p: LayoutPane| p@), id@, 0) is None,
        },
{
    let ghost views: Seq<LayoutPaneView> = panes@.map(|i: int, p: LayoutPane| p@);
    let mut i: usize = 0;
    while i < panes.len()
        invariant
            i <= panes@.len(),
            views == panes@.map(|i: int, p: LayoutPane| p@),
            pane_at(views, id@, i as int) == pane_at(views, id@, 0),
        decreases panes@.len() - i,
    {
        assert(views[i as int] == panes@[i as int]@);
        if is_text(&panes[i].pane_id, id) {
            return Some(i);
        }
        i += 1;
    }
    None
}

fn lies_below(rect: Rect, me: Rect) -> (res: bool)
    ensures
        res == is_below(rect, me),
{
    rect.y as i128 == me.y as i128 + me.height as i128 && rect.x <= me.x && (me.x as i128)
        < rect.x as i128 + rect.width as i128
}

fn lies_beside(rect: Rect, me: Rect, dock_right: bool) -> (res: bool)
    ensures
        res == is_beside(rect, me, dock_right),
{
    if rect.y != me.y {
        false
    } else if dock_right {
        rect.x as i128 + rect.width as i128 == me.x as i128
    } else {
        rect.x as i128 == me.x as i128 + me.width as i128
    }
}

fn find_neighbour(
    panes: &Vec<LayoutPane>,
    my_id: &str,
    me: Rect,
    below: bool,
    dock_right: bool,
) -> (res: Option<String>)
    ensures
        ({
            let views = panes@.map(|i: int, p: LayoutPane| p@);
            match neighbour(views, my_id@, me, below, dock_right, 0) {
                Some(i) => 0 <= i < views.len() && opt_text(res) == views[i].pane_id
                    && res is Some,
                None => res is None,
            }
        }),
{
    let ghost views: Seq<LayoutPaneView> = panes@.map(|i: int, p: LayoutPane| p@);
    let mut i: usize = 0;
    while i < panes.len()
        invariant
            i <= panes@.len(),
            views == panes@.map(|i: int, p: LayoutPane| p@),
            neighbour(views, my_id@, me, below, dock_right, i as int) == neighbour(
                views,
                my_id@,
                me,
                below,
                dock_right,
                0,
            ),
        decreases panes@.len() - i,
    {
        let pane: &LayoutPane = &panes[i];
        assert(views[i as int] == pane@);
        if !is_text(&pane.pane_id, my_id) {
            match (&pane.pane_id, pane.rect) {
                (Some(id), Some(rect)) => {
                    let lies_there: bool = if below {
                        lies_below(rect, me)
                    } else {
                        lies_beside(rect, me, dock_right)
                    };
                    if is_flag_safe(id.as_str()) && lies_there {
                        return Some(id.clone());
                    }
                },
                _ => {},
            }
        }
        i += 1;
    }
    None
}

/// The next step towards a sidebar of full height in a layout.
pub fn repair_in(layout: &Layout, pane_id: &str, dock_right: bool) -> (res: Option<RepairStep>)
    ensures
        match res {
            Some(step) => repair(layout@, pane_id@, dock_right) == Some(
                (step.below@, step.beside@, step.tab@),
            ),
            None => repair(layout@, pane_id@, dock_right) is None,
        },
{
    let ghost views: Seq<LayoutPaneView> = layout@.panes;
    let tab: String = match &layout.tab_id {
        Some(tab) => tab.clone(),
        None => {
            return None;
        },
    };
    let area: Rect = match layout.area {
        Some(area) => area,
        None => {
            return None;
        },
    };
    let m: usize = match find_at(&layout.panes, pane_id) {
        Some(m) => m,
        None => {
            return None;
        },
    };
    assert(views[m as int] == layout.panes@[m as int]@);
    let me: Rect = match layout.panes[m].rect {
        Some(me) => me,
        None => {
            return None;
        },
    };
    if !is_flag_safe(tab.as_str()) || me.height >= area.height {
        return None;
    }
    let below: Option<String> = find_neighbour(&layout.panes, pane_id, me, true, dock_right);
    let beside: Option<String> = find_neighbour(&layout.panes, pane_id, me, false, dock_right);
    match (below, beside) {
        (Some(below), Some(beside)) => Some(RepairStep { below, beside, tab }),
        _ => None,
    }
}

/// The next step towards a sidebar of full height. `None` where it has it, or
/// where the layout does not fit.
pub fn repair_step(layout_json: &str, pane_id: &str, dock_right: bool) -> (res: Option<RepairStep>)
    ensures
        match res {
            Some(step) => shown_layout(layout_json@) matches Some(layout) && repair(
                layout,
                pane_id@,
                dock_right,
            ) == Some((step.below@, step.beside@, step.tab@)),
            None => shown_layout(layout_json@) matches Some(layout) ==> repair(
                layout,
                pane_id@,
                dock_right,
            ) is None,
        },
{
    match read_layout(layout_json) {
        Some(layout) => repair_in(&layout, pane_id, dock_right),
        None => None,
    }
}

/// A sidebar of full height is left alone.
pub proof fn law_full_height_needs_no_repair(
    layout: LayoutView,
    id: Seq<char>,
    dock_right: bool,
    m: int,
)
    requires
        pane_at(layout.panes, id, 0) == Some(m),
        layout.panes[m].rect matches Some(me) && layout.area matches Some(area) && me.height
            >= area.height,
    ensures
        repair(layout, id, dock_right) is None,
{
}

} // verus!
