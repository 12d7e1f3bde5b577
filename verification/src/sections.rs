//! Cutting a pane into sections.

use crate::columns::{columns, text_width};
use crate::geometry::{capped, plus, Area};
use vstd::prelude::*;

verus! {

/// All cells of `part` are cells of `area`.
pub open spec fn lies_in(part: Area, area: Area) -> bool {
    &&& area.x <= part.x && part.x + part.width <= area.x + area.width
    &&& area.y <= part.y && part.y + part.height <= area.y + area.height
}

/// Rows in all.
pub open spec fn total(heights: Seq<u16>) -> int
    decreases heights.len(),
{
    if heights.len() == 0 {
        0
    } else {
        total(heights.drop_last()) + heights.last()
    }
}

/// The `i`th section of `area`: those `above` from its top on, one `below` at its
/// bottom, and what is left between them.
pub open spec fn section(area: Area, above: Seq<u16>, below: u16, i: int) -> Area {
    if i < above.len() {
        Area { y: (area.y + total(above.take(i))) as u16, height: above[i], ..area }
    } else if i == above.len() {
        Area {
            y: (area.y + total(above)) as u16,
            height: (area.height - total(above) - below) as u16,
            ..area
        }
    } else {
        Area { y: (area.y + area.height - below) as u16, height: below, ..area }
    }
}

/// There is room for the sections with a height of their own.
pub open spec fn has_room(area: Area, above: Seq<u16>, below: u16) -> bool {
    total(above) + below <= area.height && area.y + area.height <= u16::MAX
}

/// `ratatui::layout::Layout::vertical` of a `Constraint::Length` for each of
/// `above`, a `Constraint::Min(0)` and a `Constraint::Length` of `below`, and
/// `Layout::split` by it. Every part lies in the area and is as wide as it. Where
/// there is room each length is kept, and the section without one has the rest:
/// lengths are the stronger constraint, and what has only a least size grows
/// before anything else does. Where there is no room it is left open which
/// sections lose rows: the solver walks hash maps that each process seeds anew.
#[verifier::external_body]
pub(crate) fn split_rows(area: Area, above: &Vec<u16>, below: u16) -> (res: Vec<Area>)
    ensures
        res@.len() == above@.len() + 2,
        forall|i: int|
            0 <= i < res@.len() ==> lies_in(#[trigger] res@[i], area) && res@[i].x == area.x
                && res@[i].width == area.width,
        has_room(area, above@, below) ==> forall|i: int|
            0 <= i < res@.len() ==> #[trigger] res@[i] == section(area, above@, below, i),
{
    let mut parts = ratatui::layout::Constraint::from_lengths(above.iter().copied());
    parts.push(ratatui::layout::Constraint::Min(0));
    parts.push(ratatui::layout::Constraint::Length(below));
    let whole =
        ratatui::layout::Rect { x: area.x, y: area.y, width: area.width, height: area.height };
    let cut = ratatui::layout::Layout::vertical(parts).split(whole);
    cut.iter().map(|r| Area { x: r.x, y: r.y, width: r.width, height: r.height }).collect()
}

/// `ratatui::layout::Layout::horizontal` of a `Constraint::Min(0)` and a
/// `Constraint::Length` of `last`, and `Layout::split` by it. Both parts lie in the
/// area and are as high as it. The last one has its length as far as there are
/// columns, and the first one has the others; of an area that reaches beyond the
/// last column there can be, only that it is kept to is said.
#[verifier::external_body]
pub(crate) fn split_columns(area: Area, last: u16) -> (res: (Area, Area))
    ensures
        lies_in(res.0, area) && lies_in(res.1, area),
        area.x + area.width <= u16::MAX ==> res == columns_of(area, last),
{
    let parts =
        [ratatui::layout::Constraint::Min(0), ratatui::layout::Constraint::Length(last)];
    let whole =
        ratatui::layout::Rect { x: area.x, y: area.y, width: area.width, height: area.height };
    let [a, b] = ratatui::layout::Layout::horizontal(parts).areas(whole);
    (
        Area { x: a.x, y: a.y, width: a.width, height: a.height },
        Area { x: b.x, y: b.y, width: b.width, height: b.height },
    )
}

/// The columns of `area` but for the last ones, and the last ones.
pub open spec fn columns_of(area: Area, last: u16) -> (Area, Area) {
    let taken = if last < area.width {
        last
    } else {
        area.width
    };
    let left = (area.width - taken) as u16;
    (Area { width: left, ..area }, Area { x: (area.x + left) as u16, width: taken, ..area })
}

/// The last line of a footer.
pub open spec fn last_line(footer: Area) -> Area {
    Area {
        y: if footer.height == 0 {
            footer.y
        } else {
            capped(footer.y + (footer.height - 1))
        },
        height: 1,
        ..footer
    }
}

/// The last line of a footer: what it says, and the collapse button in its last
/// three columns.
pub fn footer_line(footer: Area) -> (res: (Area, Area))
    ensures
        lies_in(res.0, last_line(footer)) && lies_in(res.1, last_line(footer)),
        footer.x + footer.width <= u16::MAX ==> res == columns_of(last_line(footer), 3),
{
    let y: u16 = if footer.height == 0 {
        footer.y
    } else {
        plus(footer.y, footer.height - 1)
    };
    split_columns(Area { y, height: 1, ..footer }, 3)
}

/// The columns of the suggest button: its glyph and a blank.
pub open spec fn suggest_columns(glyph: Seq<char>) -> u16 {
    capped(columns(glyph) + 1)
}

/// The line inside a message box: its text, and the suggest button behind it.
pub fn message_line(inner: Area, glyph: &str) -> (res: (Area, Area))
    ensures
        lies_in(res.0, inner) && lies_in(res.1, inner),
        inner.x + inner.width <= u16::MAX ==> res == columns_of(inner, suggest_columns(glyph@)),
{
    reveal(capped);
    let width: usize = text_width(glyph);
    let button: u16 = if width < u16::MAX as usize {
        width as u16 + 1
    } else {
        u16::MAX
    };
    split_columns(inner, button)
}

} // verus!
