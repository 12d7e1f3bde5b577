//! The activity bar, which both views share.

use crate::columns::{columns, left_over, text_width};
use crate::geometry::{area_at, capped, on_activity_button, place, plus, Area};
use crate::settings::IconTheme;
use vstd::prelude::*;

verus! {

/// The texts of the activity bar's buttons.
pub struct ActivityTexts {
    pub explorer: String,
    pub search: String,
    pub source_control: String,
    pub gear: String,
}

/// Where the buttons of the activity bar stand.
#[derive(Clone, Copy, Debug)]
pub struct ActivityBar {
    /// The row of the icons; the bar also takes the ones above and below.
    pub row: u16,
    pub explorer: (u16, u16),
    pub search: (u16, u16),
    pub source_control: (u16, u16),
    pub gear: Area,
    /// The columns between the buttons and the gear.
    pub pad: usize,
}

/// A button: its icon between spaces, with room for the second cell of a wide
/// icon.
pub open spec fn button_text(icon: Seq<char>, theme: IconTheme) -> Seq<char> {
    " "@ + icon + (if theme == IconTheme::Material {
        "  "@
    } else {
        " "@
    })
}

pub fn activity_text(icon: &str, theme: IconTheme) -> (res: String)
    ensures
        res@ == button_text(icon@, theme),
{
    let mut out: String = " ".to_owned();
    out.append(icon);
    match theme {
        IconTheme::Material => out.append("  "),
        IconTheme::Emoji => out.append(" "),
    }
    out
}

/// The columns of a text from `x` on.
pub open spec fn span_at(x: u16, text: Seq<char>) -> (u16, u16) {
    (x, capped(x + capped(columns(text) as int)))
}

fn columns_of(text: &str) -> (res: u16)
    ensures
        res == capped(columns(text@) as int),
{
    reveal(capped);
    let n: usize = text_width(text);
    if n > 0xffff {
        0xffff
    } else {
        n as u16
    }
}

/// One column to the left of each button, the gear at the right edge.
pub open spec fn bar_spec(texts: ActivityTexts, area: Area) -> ActivityBar {
    let explorer = span_at(capped(area.x + 1), texts.explorer@);
    let search = span_at(capped(explorer.1 + 1), texts.search@);
    let source_control = span_at(capped(search.1 + 1), texts.source_control@);
    let gear = capped(columns(texts.gear@) as int);
    let gear_x = capped(area.x + left_over(area.width as int, gear as int));
    ActivityBar {
        row: capped(area.y + 1),
        explorer,
        search,
        source_control,
        gear: area_at(gear_x, area.y, gear, 3),
        pad: left_over(
            area.width as int,
            3 + capped(columns(texts.explorer@) as int) + capped(columns(texts.search@) as int)
                + capped(columns(texts.source_control@) as int) + gear,
        ) as usize,
    }
}

/// Lay out the activity bar in the three rows of `area`.
pub fn activity_bar(texts: &ActivityTexts, area: Area) -> (res: ActivityBar)
    ensures
        res == bar_spec(*texts, area),
{
    let explorer_width: u16 = columns_of(texts.explorer.as_str());
    let search_width: u16 = columns_of(texts.search.as_str());
    let source_width: u16 = columns_of(texts.source_control.as_str());
    let gear: u16 = columns_of(texts.gear.as_str());
    let explorer_x: u16 = plus(area.x, 1);
    let explorer_end: u16 = plus(explorer_x, explorer_width);
    let search_x: u16 = plus(explorer_end, 1);
    let search_end: u16 = plus(search_x, search_width);
    let source_x: u16 = plus(search_end, 1);
    let source_end: u16 = plus(source_x, source_width);
    let gear_x: u16 = plus(area.x, area.width.saturating_sub(gear));
    let used: usize = 3 + explorer_width as usize + search_width as usize + source_width as usize
        + gear as usize;
    ActivityBar {
        row: plus(area.y, 1),
        explorer: (explorer_x, explorer_end),
        search: (search_x, search_end),
        source_control: (source_x, source_end),
        gear: place(gear_x, area.y, gear, 3),
        pad: (area.width as usize).saturating_sub(used),
    }
}

/// A click reaches at most one of the three view buttons.
pub proof fn law_view_buttons_are_apart(texts: ActivityTexts, area: Area, x: u16, y: u16)
    ensures
        ({
            let bar = bar_spec(texts, area);
            let on_explorer = on_activity_button(bar.explorer, bar.row, x, y);
            let on_search = on_activity_button(bar.search, bar.row, x, y);
            let on_source = on_activity_button(bar.source_control, bar.row, x, y);
            &&& !(on_explorer && on_search)
            &&& !(on_search && on_source)
            &&& !(on_explorer && on_source)
        }),
{
    reveal(capped);
}

} // verus!
