//! How a sidebar gets its width. Splits are moved by a share of their width;
//! what is counted here is the columns that make up that share.

use crate::launch::layout::{
    pane_at, read_layout, shown_layout, Layout, LayoutPane, LayoutPaneView, LayoutSplit,
    LayoutSplitView, LayoutView, Rect,
};
use crate::launch::panes::is_text;
use vstd::prelude::*;

verus! {

/// One resize of a pane: which way the edge towards the inside of the tab moves,
/// and by `columns` out of `of`, the width of the split.
#[derive(Debug)]
pub struct ResizeStep {
    pub direction: &'static str,
    pub columns: i128,
    pub of: i128,
}

/// How far the divider of the `k`th split lies from its left edge.
pub open spec fn divider(dividers: Seq<Option<i64>>, k: int) -> Option<i64> {
    if 0 <= k < dividers.len() {
        dividers[k]
    } else {
        None
    }
}

/// The column of the sidebar's edge towards the inside of the tab.
pub open spec fn inner_edge(pane: Rect, dock_right: bool) -> int {
    if dock_right {
        pane.x as int
    } else {
        pane.x + pane.width
    }
}

/// A split side by side whose divider is that edge, give or take two columns.
pub open spec fn moves_edge(
    split: LayoutSplitView,
    divider: Option<i64>,
    pane: Rect,
    dock_right: bool,
) -> bool {
    &&& split.direction == Some("right"@)
    &&& split.ratio is Some
    &&& divider matches Some(offset)
    &&& split.rect matches Some(rect)
    &&& rect.x <= pane.x
    &&& rect.width > 0
    &&& -2 <= rect.x + offset - inner_edge(pane, dock_right) <= 2
}

/// The narrowest split among the first `n` that moves the edge, the first of
/// them.
pub open spec fn inner_split(
    splits: Seq<LayoutSplitView>,
    dividers: Seq<Option<i64>>,
    pane: Rect,
    dock_right: bool,
    n: int,
) -> Option<int>
    decreases n,
{
    if n <= 0 {
        None
    } else {
        let before = inner_split(splits, dividers, pane, dock_right, n - 1);
        if !moves_edge(splits[n - 1], divider(dividers, n - 1), pane, dock_right) {
            before
        } else {
            match before {
                None => Some(n - 1),
                Some(b) => if splits[n - 1].rect->0.width < splits[b].rect->0.width {
                    Some(n - 1)
                } else {
                    before
                },
            }
        }
    }
}

/// The width that the pane is to have: `target` columns of terminal, and around
/// it what the pane has around it now.
pub open spec fn wanted_width(pane: Rect, now: u16, target: u16) -> int {
    target + if pane.width > now {
        pane.width - now
    } else {
        0
    }
}

/// The least width of a sidebar in a split that keeps its share: 15 percent.
pub open spec fn least_width(split: int) -> int {
    (3 * split + 19) / 20
}

/// The greatest width of a sidebar in a split that keeps its share: half.
pub open spec fn greatest_width(split: int) -> int {
    if split / 2 < least_width(split) {
        least_width(split)
    } else {
        split / 2
    }
}

/// The width that the pane gets.
pub open spec fn new_width(pane: Rect, now: u16, target: u16, split: int, keep_share: bool) -> int {
    let wanted = wanted_width(pane, now, target);
    if !keep_share {
        wanted
    } else if wanted < least_width(split) {
        least_width(split)
    } else if wanted > greatest_width(split) {
        greatest_width(split)
    } else {
        wanted
    }
}

/// The resize that a change of width takes; none where the change is less than
/// half a percent of the split. A sidebar grows towards the inside.
pub open spec fn step_for(change: int, split: int, dock_right: bool) -> Option<
    (Seq<char>, int, int),
> {
    let size = if change < 0 {
        -change
    } else {
        change
    };
    if 200 * size < split {
        None
    } else if (change > 0) != dock_right {
        Some(("right"@, size, split))
    } else {
        Some(("left"@, size, split))
    }
}

/// The resize of a pane to `target` columns of terminal.
pub open spec fn resize(
    layout: LayoutView,
    dividers: Seq<Option<i64>>,
    id: Seq<char>,
    now: u16,
    target: u16,
    dock_right: bool,
    keep_share: bool,
) -> Option<(Seq<char>, int, int)> {
    match pane_at(layout.panes, id, 0) {
        Some(p) => match layout.panes[p].rect {
            Some(pane) => match inner_split(
                layout.splits,
                dividers,
                pane,
                dock_right,
                layout.splits.len() as int,
            ) {
                Some(s) => {
                    let split = layout.splits[s].rect->0.width as int;
                    step_for(
                        new_width(pane, now, target, split, keep_share) - pane.width,
                        split,
                        dock_right,
                    )
                },
                None => None,
            },
            None => None,
        },
        None => None,
    }
}

fn find_rect(panes: &Vec<LayoutPane>, id: &str) -> (res: Option<Rect>)
    ensures
        res == (match pane_at(panes@.map(|i: int, p: LayoutPane| p@), id@, 0) {
            Some(i) => panes@.map(|i: int, p: LayoutPane| p@)[i].rect,
            None => None,
        }),
{
    let ghost views: Seq<LayoutPaneView> = panes@.map(|i: int, p: LayoutPane| p@);
    let mut i: usize = 0;
    while i < panes.len()
        invariant
            i <= panes@.len(),
            views == panes@.map(|i: int, p: LayoutPane| p@),
            pane_at(views, id@, i as int) == pane_at(views, id@, 0),
        decreases panes@.len() - i,
    {
        assert(views[i as int] == panes@[i as int]@);
        if is_text(&panes[i].pane_id, id) {
            return panes[i].rect;
        }
        i += 1;
    }
    None
}

fn can_move_edge(split: &LayoutSplit, offset: Option<i64>, pane: Rect, dock_right: bool) -> (res:
    bool)
    ensures
        res == moves_edge(split@, offset, pane, dock_right),
{
    if !is_text(&split.direction, "right") || split.ratio.is_none() {
        return false;
    }
    match (offset, split.rect) {
        (Some(offset), Some(rect)) => {
            let edge: i128 = if dock_right {
                pane.x as i128
            } else {
                pane.x as i128 + pane.width as i128
            };
            let gap: i128 = rect.x as i128 + offset as i128 - edge;
            rect.x <= pane.x && rect.width > 0 && -2 <= gap && gap <= 2
        },
        _ => false,
    }
}

fn find_split(
    splits: &Vec<LayoutSplit>,
    dividers: &[Option<i64>],
    pane: Rect,
    dock_right: bool,
) -> (res: Option<i64>)
    ensures
        ({
            let views = splits@.map(|i: int, s: LayoutSplit| s@);
            match inner_split(views, dividers@, pane, dock_right, views.len() as int) {
                Some(s) => 0 <= s < views.len() && res is Some && views[s].rect is Some && res->0
                    == views[s].rect->0.width && res->0 > 0,
                None => res is None,
            }
        }),
{
    let ghost views: Seq<LayoutSplitView> = splits@.map(|i: int, s: LayoutSplit| s@);
    let mut best: Option<i64> = None;
    let mut i: usize = 0;
    let ghost mut at: int = 0;
    while i < splits.len()
        invariant
            i <= splits@.len(),
            views == splits@.map(|i: int, s: LayoutSplit| s@),
            match best {
                Some(width) => 0 <= at < i && inner_split(
                    views,
                    dividers@,
                    pane,
                    dock_right,
                    i as int,
                ) == Some(at) && views[at].rect is Some && views[at].rect->0.width == width && width
                    > 0,
                None => inner_split(views, dividers@, pane, dock_right, i as int) is None,
            },
        decreases splits@.len() - i,
    {
        let split: &LayoutSplit = &splits[i];
        assert(views[i as int] == split@);
        let offset: Option<i64> = if i < dividers.len() {
            dividers[i]
        } else {
            None
        };
        assert(offset == divider(dividers@, i as int));
        if can_move_edge(split, offset, pane, dock_right) {
            match split.rect {
                Some(rect) => {
                    let better: bool = match best {
                        Some(width) => rect.width < width,
                        None => true,
                    };
                    if better {
                        best = Some(rect.width);
                        proof {
                            at = i as int;
                        }
                    }
                },
                None => {},
            }
        }
        i += 1;
    }
    best
}

/// The width that a pane gets in a split.
fn width_for(pane: Rect, now: u16, target: u16, split: i64, keep_share: bool) -> (res: i128)
    requires
        split > 0,
    ensures
        res == new_width(pane, now, target, split as int, keep_share),
        -0x2_0000_0000_0000_0000 <= res <= 0x2_0000_0000_0000_0000,
{
    let around: i128 = pane.width as i128 - now as i128;
    let wanted: i128 = target as i128 + if around > 0 {
        around
    } else {
        0
    };
    if !keep_share {
        return wanted;
    }
    let least: i128 = (3 * split as i128 + 19) / 20;
    let half: i128 = split as i128 / 2;
    let greatest: i128 = if half < least {
        least
    } else {
        half
    };
    if wanted < least {
        least
    } else if wanted > greatest {
        greatest
    } else {
        wanted
    }
}

/// The resize of a pane in a layout. `dividers` holds for each split of the
/// layout how far its divider lies from its left edge, where it has one.
pub fn resize_in(
    layout: &Layout,
    dividers: &[Option<i64>],
    pane_id: &str,
    term_cols_now: u16,
    term_cols_target: u16,
    dock_right: bool,
    keep_share: bool,
) -> (res: Option<ResizeStep>)
    ensures
        match res {
            Some(step) => resize(
                layout@,
                dividers@,
                pane_id@,
                term_cols_now,
                term_cols_target,
                dock_right,
                keep_share,
            ) == Some((step.direction@, step.columns as int, step.of as int)),
            None => resize(
                layout@,
                dividers@,
                pane_id@,
                term_cols_now,
                term_cols_target,
                dock_right,
                keep_share,
            ) is None,
        },
{
    let pane: Rect = match find_rect(&layout.panes, pane_id) {
        Some(pane) => pane,
        None => {
            return None;
        },
    };
    let split: i64 = match find_split(&layout.splits, dividers, pane, dock_right) {
        Some(split) => split,
        None => {
            return None;
        },
    };
    let width: i128 = width_for(pane, term_cols_now, term_cols_target, split, keep_share);
    let change: i128 = width - pane.width as i128;
    let size: i128 = if change < 0 {
        -change
    } else {
        change
    };
    if 200 * size < split as i128 {
        return None;
    }
    if (change > 0) != dock_right {
        Some(ResizeStep { direction: "right", columns: size, of: split as i128 })
    } else {
        Some(ResizeStep { direction: "left", columns: size, of: split as i128 })
    }
}

/// The resize that brings a pane to `term_cols_target` columns of terminal.
pub fn resize_plan(
    layout_json: &str,
    dividers: &[Option<i64>],
    pane_id: &str,
    term_cols_now: u16,
    term_cols_target: u16,
    dock_right: bool,
) -> (res: Option<ResizeStep>)
    ensures
        match res {
            Some(step) => shown_layout(layout_json@) matches Some(layout) && resize(
                layout,
                dividers@,
                pane_id@,
                term_cols_now,
                term_cols_target,
                dock_right,
                false,
            ) == Some((step.direction@, step.columns as int, step.of as int)),
            None => shown_layout(layout_json@) matches Some(layout) ==> resize(
                layout,
                dividers@,
                pane_id@,
                term_cols_now,
                term_cols_target,
                dock_right,
                false,
            ) is None,
        },
{
    match read_layout(layout_json) {
        Some(layout) => resize_in(
            &layout,
            dividers,
            pane_id,
            term_cols_now,
            term_cols_target,
            dock_right,
            false,
        ),
        None => None,
    }
}

/// The resize that brings a pane back to the columns that the user prefers, as
/// far as its share of the split allows.
pub fn preferred_resize_plan(
    layout_json: &str,
    dividers: &[Option<i64>],
    pane_id: &str,
    term_cols_now: u16,
    preferred_cols: u16,
    dock_right: bool,
) -> (res: Option<ResizeStep>)
    ensures
        match res {
            Some(step) => shown_layout(layout_json@) matches Some(layout) && resize(
                layout,
                dividers@,
                pane_id@,
                term_cols_now,
                preferred_cols,
                dock_right,
                true,
            ) == Some((step.direction@, step.columns as int, step.of as int)),
            None => shown_layout(layout_json@) matches Some(layout) ==> resize(
                layout,
                dividers@,
                pane_id@,
                term_cols_now,
                preferred_cols,
                dock_right,
                true,
            ) is None,
        },
{
    match read_layout(layout_json) {
        Some(layout) => resize_in(
            &layout,
            dividers,
            pane_id,
            term_cols_now,
            preferred_cols,
            dock_right,
            true,
        ),
        None => None,
    }
}

// ---- What a resize does ----

/// A preferred width keeps between 15 percent and half of the split, and is
/// exact in between.
pub proof fn law_preferred_widths_keep_their_share(pane: Rect, now: u16, target: u16, split: int)
    requires
        split > 0,
    ensures
        ({
            let width = new_width(pane, now, target, split, true);
            &&& 100 * width >= 15 * split
            &&& 2 * width <= split || width == least_width(split)
            &&& (least_width(split) <= wanted_width(pane, now, target) <= greatest_width(split)
                ==> width == wanted_width(pane, now, target))
        }),
{
}

/// A pane that has the width it is to have is not resized, and no resize is
/// larger than it has to be: it covers the change exactly.
pub proof fn law_a_resize_covers_the_change(change: int, split: int, dock_right: bool)
    requires
        split > 0,
    ensures
        change == 0 ==> step_for(change, split, dock_right) is None,
        step_for(change, split, dock_right) matches Some(step) ==> {
            &&& step.2 == split
            &&& change == (if (step.0 == "right"@) != dock_right {
                step.1
            } else {
                -step.1
            })
        },
{
    reveal_strlit("right");
    reveal_strlit("left");
    assert("right"@.len() != "left"@.len());
}

/// Docked on the other side, a sidebar's edge moves the other way by as much.
pub proof fn law_docks_mirror_each_other(change: int, split: int)
    ensures
        match (step_for(change, split, false), step_for(change, split, true)) {
            (Some(a), Some(b)) => a.1 == b.1 && a.2 == b.2 && (a.0 == "right"@ && b.0 == "left"@
                || a.0 == "left"@ && b.0 == "right"@),
            (None, None) => true,
            _ => false,
        },
{
}

} // verus!
