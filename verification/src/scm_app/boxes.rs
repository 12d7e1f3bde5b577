//! What stands above the list and below it: the header, the message box and the
//! buttons of a lone repository, and the hint at the bottom.

use crate::columns::{columns, columns_left, left_over, text_width, truncate_to, truncated};
use crate::geometry::{area_at, capped, place, plus, Area};
use crate::scm_app::app::{App, Focus};
use crate::scm_app::message::{
    at_least_one, law_cursor_stands_on_a_row, law_window_shows_the_cursor, message_placeholder,
    message_window, placeholder_of, window_of, wrap_message, wrapped,
};
use crate::scm_app::render::{button_label, primary_label};
use crate::text::string_views;
use vstd::prelude::*;

verus! {

/// What a message box shows, and where the cursor stands in it: its column and
/// its line.
pub struct MessageBox {
    pub lines: Vec<String>,
    /// The line is no message but says what to write here.
    pub is_placeholder: bool,
    pub cursor: Option<(usize, usize)>,
}

/// The header: its left end, the space behind it, the branch at the right end,
/// and the cells of that.
pub struct HeaderLine {
    pub left: String,
    pub pad: usize,
    pub branch: String,
    pub branch_zone: Area,
}

/// The text of a panel that has found no repository.
pub open spec fn missing_text(error: Seq<char>) -> Seq<char> {
    "Not a git repository.\n\n"@ + error
        + "\n\nOpen this pane inside a repo,\nor press q to quit."@
}

pub fn no_repository(error: &str) -> (res: String)
    ensures
        res@ == missing_text(error@),
{
    let mut text: String = "Not a git repository.\n\n".to_owned();
    text.append(error);
    text.append("\n\nOpen this pane inside a repo,\nor press q to quit.");
    text
}

/// The cells of the main button: a row with a margin on each side, where there
/// is room between a row above and one below it.
pub open spec fn button_cells(area: Area) -> Area {
    if area.height >= 3 {
        area_at(
            capped(area.x + 1),
            capped(area.y + 1),
            left_over(area.width as int, 2) as u16,
            1,
        )
    } else {
        area
    }
}

pub fn button_area(area: Area) -> (res: Area)
    ensures
        res == button_cells(area),
{
    if area.height >= 3 {
        place(plus(area.x, 1), plus(area.y, 1), area.width.saturating_sub(2), 1)
    } else {
        area
    }
}

/// The cells of the Sync Changes button, with a margin on each side.
pub open spec fn sync_cells(area: Area) -> Area {
    area_at(capped(area.x + 1), area.y, left_over(area.width as int, 2) as u16, area.height)
}

pub fn sync_area(area: Area) -> (res: Area)
    ensures
        res == sync_cells(area),
{
    place(plus(area.x, 1), area.y, area.width.saturating_sub(2), area.height)
}

impl App {
    // ---- The message box ----

    pub open spec fn draft(&self) -> (Seq<char>, nat, Seq<char>) {
        if self.panel.active < self.panel.repos@.len() {
            let repo = self.panel.repos@[self.panel.active as int];
            (repo.message@, repo.cursor as nat, repo.status.branch@)
        } else {
            (Seq::empty(), 0, Seq::empty())
        }
    }

    /// The box of a lone repository: an empty one that is not focused says what
    /// to write, else the wrapped message shows, as far as there is room around
    /// the cursor.
    pub open spec fn message_box_rel(&self, width: u16, shown: MessageBox) -> bool {
        let (message, cursor, branch) = self.draft();
        let focused = self.focus == Focus::Message;
        if message.len() == 0 && !focused {
            &&& shown.is_placeholder
            &&& string_views(shown.lines@) == seq![placeholder_of(branch, width as usize)]
            &&& shown.cursor is None
        } else {
            let field = at_least_one(width as nat);
            let rows = wrapped(message, cursor, field);
            let (top, visible) = window_of(rows.len(), cursor / field, focused);
            &&& !shown.is_placeholder
            &&& string_views(shown.lines@) == rows.subrange(top as int, (top + visible) as int)
            &&& match shown.cursor {
                Some((column, line)) => focused && column == cursor % field && line == cursor
                    / field - top,
                None => !focused,
            }
        }
    }

    pub fn message_box(&self, width: u16) -> (res: MessageBox)
        requires
            self.wf(),
        ensures
            self.message_box_rel(width, res),
    {
        let focused: bool = self.focus == Focus::Message;
        let active: usize = self.panel.active;
        let none: Vec<char> = Vec::new();
        let (message, cursor, branch): (&Vec<char>, usize, &str) = if active
            < self.panel.repos.len() {
            (
                &self.panel.repos[active].message,
                self.panel.repos[active].cursor,
                self.panel.repos[active].status.branch.as_str(),
            )
        } else {
            (&none, 0, "")
        };
        proof {
            reveal_strlit("");
            assert(none@ =~= Seq::<char>::empty());
            assert(""@ =~= Seq::<char>::empty());
            if active < self.panel.repos@.len() {
                assert(self.panel.repos@[active as int].wf());
            }
        }
        assert((message@, cursor as nat, branch@) == self.draft());
        if message.len() == 0 && !focused {
            let mut lines: Vec<String> = Vec::new();
            lines.push(message_placeholder(branch, width as usize));
            assert(string_views(lines@) =~= seq![placeholder_of(branch@, width as usize)]);
            return MessageBox { lines, is_placeholder: true, cursor: None };
        }
        let field: usize = if width == 0 {
            1
        } else {
            width as usize
        };
        let (rows, row, column): (Vec<String>, usize, usize) = wrap_message(
            message.as_slice(),
            cursor,
            field,
        );
        let ghost views: Seq<Seq<char>> = wrapped(message@, cursor as nat, field as nat);
        proof {
            law_cursor_stands_on_a_row(message@, cursor as nat, field as nat);
            assert(string_views(rows@).len() == rows@.len());
            law_window_shows_the_cursor(views.len(), row as nat);
        }
        let (top, visible): (usize, usize) = message_window(rows.len(), row, focused);
        let mut lines: Vec<String> = Vec::new();
        let mut i: usize = top;
        assert(string_views(lines@) =~= views.subrange(top as int, top as int));
        while i < top + visible
            invariant
                top <= i <= top + visible,
                top + visible <= rows@.len(),
                rows@.len() <= usize::MAX,
                views == string_views(rows@),
                string_views(lines@) == views.subrange(top as int, i as int),
            decreases top + visible - i,
        {
            let ghost before: Seq<String> = lines@;
            lines.push(rows[i].clone());
            i += 1;
            assert(string_views(lines@) =~= string_views(before).push(rows@[i - 1]@));
            assert(views.subrange(top as int, i as int) =~= views.subrange(
                top as int,
                i - 1,
            ).push(views[i - 1]));
        }
        let place: Option<(usize, usize)> = if focused {
            Some((column, row - top))
        } else {
            None
        };
        MessageBox { lines, is_placeholder: false, cursor: place }
    }

    // ---- The buttons ----

    /// What the main button does.
    pub open spec fn button_text(&self) -> Seq<char> {
        if self.panel.active < self.panel.repos@.len() {
            button_label(
                self.panel.repos@[self.panel.active as int].status,
                self.syncing == Some(self.panel.active),
            )
        } else {
            "✓ Commit"@
        }
    }

    pub fn main_button(&self) -> (res: String)
        requires
            self.wf(),
        ensures
            res@ == self.button_text(),
    {
        let active: usize = self.panel.active;
        if active >= self.panel.repos.len() {
            return "✓ Commit".to_owned();
        }
        let busy: bool = match self.syncing {
            Some(s) => s == active,
            None => false,
        };
        primary_label(&self.panel.repos[active].status, busy)
    }

    // ---- The header ----

    /// The header in `area`, beside buttons of `actions` columns and a settings
    /// button of `gear` columns. The branch yields to the buttons.
    pub open spec fn header_rel(&self, area: Area, gear: u16, actions: u16, line: HeaderLine) -> bool {
        let left = " ▾ "@ + self.title_spec();
        let used = columns(left) + actions + gear;
        let branch = truncated(
            self.header_right_spec(),
            left_over(area.width as int, used + 1) as usize,
        );
        let free = left_over(area.width as int, used + columns(branch));
        let pad = if free == 0 {
            1
        } else {
            free
        };
        &&& line.left@ == left
        &&& line.branch@ == branch
        &&& line.pad == pad
        &&& line.branch_zone == area_at(
            capped(area.x + columns(left) + pad),
            area.y,
            capped(columns(branch) as int),
            1,
        )
    }

    pub fn header_line(&self, area: Area, gear: u16, actions: u16) -> (res: HeaderLine)
        requires
            self.wf(),
        ensures
            self.header_rel(area, gear, actions, res),
    {
        let mut left: String = " ▾ ".to_owned();
        left.append(self.title().as_str());
        let right: String = self.header_right();
        let left_width: usize = text_width(left.as_str());
        let room: usize = columns_left(
            area.width as usize,
            left_width,
            actions as usize,
            gear as usize,
            1,
        );
        let branch: String = truncate_to(right.as_str(), room);
        let branch_width: usize = text_width(branch.as_str());
        let free: usize = columns_left(
            area.width as usize,
            left_width,
            actions as usize,
            gear as usize,
            branch_width,
        );
        let pad: usize = if free == 0 {
            1
        } else {
            free
        };
        let x: u16 = cap(area.x as u128 + left_width as u128 + pad as u128);
        let branch_zone: Area = place(x, area.y, cap(branch_width as u128), 1);
        HeaderLine { left, pad, branch, branch_zone }
    }

    // ---- The hint at the bottom ----

    /// The hint for the button under the mouse takes the place of the keys that
    /// the footer explains, but not of a question or a message.
    pub fn hint_replaces_keys(&self) -> (res: bool)
        requires
            self.wf(),
        ensures
            res == (self.hint_spec() is Some && self.overlay is None && self.flash is None),
    {
        self.hovered_action_hint().is_some() && self.overlay.is_none() && self.flash.is_none()
    }

    /// What the bottom line hints at.
    pub open spec fn bottom_hint_spec(&self) -> Seq<char> {
        match self.hint_spec() {
            Some(hint) => hint,
            None => "m / ctrl+rclick for menus"@,
        }
    }

    pub fn bottom_hint(&self) -> (res: &'static str)
        requires
            self.wf(),
        ensures
            res@ == self.bottom_hint_spec(),
    {
        match self.hovered_action_hint() {
            Some(hint) => hint,
            None => "m / ctrl+rclick for menus",
        }
    }
}

fn cap(n: u128) -> (res: u16)
    ensures
        res == capped(n as int),
{
    reveal(capped);
    if n > u16::MAX as u128 {
        u16::MAX
    } else {
        n as u16
    }
}

/// A focused box always shows its cursor, below as many lines as it shows
/// before it.
pub proof fn law_the_cursor_is_in_its_box(app: App, width: u16, shown: MessageBox)
    requires
        app.wf(),
        app.message_box_rel(width, shown),
        app.focus == Focus::Message,
    ensures
        shown.cursor matches Some((column, line)) && line < shown.lines@.len() && column
            <= string_views(shown.lines@)[line as int].len() && column < at_least_one(width as nat),
{
    let (message, cursor, branch) = app.draft();
    let field = at_least_one(width as nat);
    let rows = wrapped(message, cursor, field);
    if app.panel.active < app.panel.repos@.len() {
        assert(app.panel.repos@[app.panel.active as int].wf());
    }
    law_cursor_stands_on_a_row(message, cursor, field);
    law_window_shows_the_cursor(rows.len(), cursor / field);
    assert(string_views(shown.lines@).len() == shown.lines@.len());
}

/// The frame leaves the message box exactly the lines that it shows, besides its
/// two borders.
pub proof fn law_the_box_fits_its_lines(app: App, width: u16, sparkle: nat, shown: MessageBox)
    requires
        app.wf(),
        !app.multi(),
        app.message_box_rel(left_over(width as int, 3int + sparkle) as u16, shown),
    ensures
        app.heights_spec(width, sparkle).message == 2 + shown.lines@.len(),
{
    let (message, cursor, branch) = app.draft();
    let text = left_over(width as int, 3int + sparkle) as u16;
    let field = at_least_one(text as nat);
    let rows = wrapped(message, cursor, field);
    assert(field == App::single_field(width, sparkle));
    if app.panel.active < app.panel.repos@.len() {
        assert(app.panel.repos@[app.panel.active as int].wf());
    }
    law_cursor_stands_on_a_row(message, cursor, field);
    law_window_shows_the_cursor(rows.len(), cursor / field);
    assert(string_views(shown.lines@).len() == shown.lines@.len());
    assert(wrapped(Seq::empty(), 0, field).len() == 1);
}

} // verus!
