//! Cells and rectangles of the terminal grid.

use vstd::prelude::*;

verus! {

/// A rectangle of terminal cells.
#[derive(Clone, Copy, PartialEq, Eq, Structural, Debug)]
pub struct Area {
    pub x: u16,
    pub y: u16,
    pub width: u16,
    pub height: u16,
}

impl Area {
    /// The rectangle without cells, which nothing hits.
    pub open spec fn empty_spec() -> Area {
        Area { x: 0, y: 0, width: 0, height: 0 }
    }

    pub fn empty() -> (res: Area)
        ensures
            res == Area::empty_spec(),
    {
        Area { x: 0, y: 0, width: 0, height: 0 }
    }

    pub fn new(x: u16, y: u16, width: u16, height: u16) -> (res: Area)
        ensures
            res == (Area { x, y, width, height }),
    {
        Area { x, y, width, height }
    }
}

/// `n`, at most the last column or row that there can be.
#[verifier::opaque]
pub open spec fn capped(n: int) -> u16 {
    if n > u16::MAX {
        u16::MAX
    } else if n < 0 {
        0
    } else {
        n as u16
    }
}

/// The sum of two columns or rows, as far as there are any.
pub fn plus(a: u16, b: u16) -> (res: u16)
    ensures
        res == capped(a + b),
{
    reveal(capped);
    a.saturating_add(b)
}

/// The rectangle with a corner and a size, as far as there are cells.
#[verifier::opaque]
pub open spec fn area_at(x: u16, y: u16, width: u16, height: u16) -> Area {
    Area {
        x,
        y,
        width: (capped(x + width) - x) as u16,
        height: (capped(y + height) - y) as u16,
    }
}

pub fn place(x: u16, y: u16, width: u16, height: u16) -> (res: Area)
    ensures
        res == area_at(x, y, width, height),
{
    reveal(area_at);
    reveal(capped);
    Area { x, y, width: x.saturating_add(width) - x, height: y.saturating_add(height) - y }
}

/// The cell at column `x` and row `y` lies in `area`.
pub open spec fn in_area(area: Area, x: u16, y: u16) -> bool {
    area.x <= x < area.x + area.width && area.y <= y < area.y + area.height
}

pub fn hits(area: Area, x: u16, y: u16) -> (res: bool)
    ensures
        res == in_area(area, x, y),
{
    x >= area.x && y >= area.y && x - area.x < area.width && y - area.y < area.height
}

/// `x` lies in the half-open range `zone`.
pub open spec fn in_zone(x: u16, zone: (u16, u16)) -> bool {
    zone.0 <= x < zone.1
}

pub fn within(x: u16, zone: (u16, u16)) -> (res: bool)
    ensures
        res == in_zone(x, zone),
{
    zone.0 <= x && x < zone.1
}

/// An activity button covers its icon's columns on the icon's row and on the
/// spacer rows above and below it.
pub open spec fn on_activity_button(bounds: (u16, u16), row: u16, x: u16, y: u16) -> bool {
    in_zone(x, bounds) && row <= y + 1 && y <= row + 1
}

pub fn hits_activity_button(bounds: (u16, u16), row: u16, x: u16, y: u16) -> (res: bool)
    ensures
        res == on_activity_button(bounds, row, x, y),
{
    let distance: u16 = if y >= row {
        y - row
    } else {
        row - y
    };
    within(x, bounds) && distance <= 1
}

/// The collapse button covers the last four columns of the bottom row.
pub open spec fn on_collapse_button(x: u16, y: u16, width: u16, height: u16) -> bool {
    height > 0 && y == height - 1 && x + 4 >= width
}

pub fn hits_collapse_button(x: u16, y: u16, width: u16, height: u16) -> (res: bool)
    ensures
        res == on_collapse_button(x, y, width, height),
{
    height > 0 && y == height - 1 && x >= width.saturating_sub(4)
}

/// No cell lies in a rectangle without columns or without rows.
pub proof fn law_hidden_zones_take_no_clicks(area: Area, x: u16, y: u16)
    requires
        area.width == 0 || area.height == 0,
    ensures
        !in_area(area, x, y),
{
}

} // verus!
