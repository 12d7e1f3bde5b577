//! Popups over the list: where they stand, and what keys and the mouse do in a
//! menu or in the settings.

use vstd::prelude::*;

use crate::geometry::{hits, in_area, Area};
use crate::input::{Key, KeyCode, Mouse, MouseKind};
use crate::menu_nav::{step_over, stepped};

verus! {

// ---- Placement ----

pub open spec fn smaller(a: int, b: int) -> int {
    if a <= b {
        a
    } else {
        b
    }
}

/// Where a context menu stands: below its anchor, moved as far as the pane's
/// edges ask, with a border round its entries.
pub open spec fn menu_area(
    x: u16,
    y: u16,
    label_width: nat,
    entries: nat,
    width: u16,
    height: u16,
) -> Area {
    let w = smaller((label_width + 4) as int, width as int);
    let h = smaller((entries + 2) as int, height as int);
    Area {
        x: smaller(x as int, width - w) as u16,
        y: smaller(y + 1, height - h) as u16,
        width: w as u16,
        height: h as u16,
    }
}

pub fn place_menu(
    x: u16,
    y: u16,
    label_width: usize,
    entries: usize,
    width: u16,
    height: u16,
) -> (res: Area)
    ensures
        res == menu_area(x, y, label_width as nat, entries as nat, width, height),
{
    let w: u16 = if label_width >= width as usize || label_width + 4 >= width as usize {
        width
    } else {
        label_width as u16 + 4
    };
    let h: u16 = if entries >= height as usize || entries + 2 >= height as usize {
        height
    } else {
        entries as u16 + 2
    };
    let right: u16 = width - w;
    let bottom: u16 = height - h;
    Area {
        x: if x <= right {
            x
        } else {
            right
        },
        y: if y < bottom {
            y + 1
        } else {
            bottom
        },
        width: w,
        height: h,
    }
}

/// A context menu lies inside the pane, wherever it was asked for.
pub proof fn law_menus_lie_inside_the_pane(
    x: u16,
    y: u16,
    label_width: nat,
    entries: nat,
    width: u16,
    height: u16,
)
    ensures
        ({
            let a = menu_area(x, y, label_width, entries, width, height);
            a.x + a.width <= width && a.y + a.height <= height
        }),
{
}

/// Where the settings stand: centred, a third of the free lines above them.
pub open spec fn settings_area(desired: nat, rows: nat, hints: nat, width: u16, height: u16) -> Area {
    let w = smaller(desired as int, width as int);
    let h = smaller((rows + 5 + hints) as int, height as int);
    Area {
        x: ((width - w) / 2) as u16,
        y: ((height - h) / 3) as u16,
        width: w as u16,
        height: h as u16,
    }
}

pub fn place_settings(desired: usize, rows: usize, hints: usize, width: u16, height: u16) -> (res:
    Area)
    requires
        rows <= 0xffff,
        hints <= 0xffff,
    ensures
        res == settings_area(desired as nat, rows as nat, hints as nat, width, height),
{
    let w: u16 = if desired >= width as usize {
        width
    } else {
        desired as u16
    };
    let lines: usize = rows + 5 + hints;
    let h: u16 = if lines >= height as usize {
        height
    } else {
        lines as u16
    };
    Area { x: (width - w) / 2, y: (height - h) / 3, width: w, height: h }
}

/// The scroll offset that keeps the line `selected` of `content` lines in a
/// window of `height` lines: none while it fits, else just enough.
pub open spec fn visible_scroll(selected: int, height: int, content: int) -> int {
    if selected < height || content <= height {
        0
    } else {
        smaller(selected + 1 - height, content - height)
    }
}

pub fn keep_visible_scroll(selected: usize, height: usize, content: usize) -> (res: usize)
    ensures
        res == visible_scroll(selected as int, height as int, content as int),
{
    if selected < height || content <= height {
        return 0;
    }
    let wanted: usize = selected - height;
    let most: usize = content - height;
    if wanted < most {
        wanted + 1
    } else {
        most
    }
}

/// The selected line is in the window.
pub proof fn law_scrolled_popups_show_the_selection(selected: int, height: int, content: int)
    requires
        0 <= selected < content,
        height > 0,
    ensures
        ({
            let top = visible_scroll(selected, height, content);
            0 <= top <= selected < top + height
        }),
{
}

// ---- The settings ----

/// The row of the settings under a cell: inside the border, counted from the
/// scroll offset, as far as there are rows.
pub open spec fn settings_row_spec(
    rect: Area,
    scroll: usize,
    count: usize,
    column: u16,
    row: u16,
) -> Option<usize> {
    let index = row - rect.y - 1 + scroll;
    if rect.x < column && column + 1 < rect.x + rect.width && rect.y < row && row + 1 < rect.y
        + rect.height && index < count {
        Some(index as usize)
    } else {
        None
    }
}

pub fn settings_row_at(rect: Area, scroll: usize, count: usize, column: u16, row: u16) -> (res:
    Option<usize>)
    ensures
        res == settings_row_spec(rect, scroll, count, column, row),
{
    let inside: bool = rect.x < column && (column as u32) + 1 < rect.x as u32 + rect.width as u32
        && rect.y < row && (row as u32) + 1 < rect.y as u32 + rect.height as u32;
    if !inside {
        return None;
    }
    let line: usize = (row - rect.y - 1) as usize;
    if line < count && scroll < count - line {
        Some(line + scroll)
    } else {
        None
    }
}

/// What a mouse event does in the settings.
#[derive(Clone, Copy, PartialEq, Eq, Structural, Debug)]
pub enum SettingsMouse {
    Nothing,
    /// Select a row.
    Point(usize),
    /// Select a row and change its setting.
    Toggle(usize),
    Close,
}

pub open spec fn settings_mouse_spec(
    rect: Area,
    scroll: usize,
    count: usize,
    mouse: Mouse,
) -> SettingsMouse {
    let row = settings_row_spec(rect, scroll, count, mouse.column, mouse.row);
    match mouse.kind {
        MouseKind::Moved => match row {
            Some(i) => SettingsMouse::Point(i),
            None => SettingsMouse::Nothing,
        },
        MouseKind::LeftDown => match row {
            Some(i) => SettingsMouse::Toggle(i),
            None => if in_area(rect, mouse.column, mouse.row) {
                SettingsMouse::Nothing
            } else {
                SettingsMouse::Close
            },
        },
        _ => SettingsMouse::Nothing,
    }
}

/// A click outside the settings closes them; one on their border does nothing.
pub fn settings_mouse(rect: Area, scroll: usize, count: usize, mouse: Mouse) -> (res: SettingsMouse)
    ensures
        res == settings_mouse_spec(rect, scroll, count, mouse),
{
    let row: Option<usize> = settings_row_at(rect, scroll, count, mouse.column, mouse.row);
    match mouse.kind {
        MouseKind::Moved => match row {
            Some(i) => SettingsMouse::Point(i),
            None => SettingsMouse::Nothing,
        },
        MouseKind::LeftDown => match row {
            Some(i) => SettingsMouse::Toggle(i),
            None => if hits(rect, mouse.column, mouse.row) {
                SettingsMouse::Nothing
            } else {
                SettingsMouse::Close
            },
        },
        _ => SettingsMouse::Nothing,
    }
}

// ---- Menus ----

/// The area inside a border one cell wide; nothing where the border fills it.
pub open spec fn inner_area(rect: Area) -> Area {
    if rect.width < 2 || rect.height < 2 {
        Area::empty_spec()
    } else {
        Area {
            x: if rect.x < u16::MAX {
                (rect.x + 1) as u16
            } else {
                u16::MAX
            },
            y: if rect.y < u16::MAX {
                (rect.y + 1) as u16
            } else {
                u16::MAX
            },
            width: (rect.width - 2) as u16,
            height: (rect.height - 2) as u16,
        }
    }
}

pub fn inside_border(rect: Area) -> (res: Area)
    ensures
        res == inner_area(rect),
{
    if rect.width < 2 || rect.height < 2 {
        Area::empty()
    } else {
        Area {
            x: rect.x.saturating_add(1),
            y: rect.y.saturating_add(1),
            width: rect.width - 2,
            height: rect.height - 2,
        }
    }
}

/// The action under a cell of a menu; separators are none.
pub open spec fn menu_item_spec(rect: Area, actions: Seq<bool>, column: u16, row: u16) -> Option<
    usize,
> {
    let inner = inner_area(rect);
    let index = row - inner.y;
    if in_area(inner, column, row) && index < actions.len() && actions[index] {
        Some(index as usize)
    } else {
        None
    }
}

pub fn menu_item_at(rect: Area, actions: &Vec<bool>, column: u16, row: u16) -> (res: Option<usize>)
    ensures
        res == menu_item_spec(rect, actions@, column, row),
{
    let inner: Area = inside_border(rect);
    if !hits(inner, column, row) {
        return None;
    }
    let index: usize = (row - inner.y) as usize;
    if index < actions.len() && actions[index] {
        Some(index)
    } else {
        None
    }
}

/// What a mouse event does in a menu.
#[derive(Clone, Copy, PartialEq, Eq, Structural, Debug)]
pub enum MenuMouse {
    Nothing,
    Point(usize),
    Activate(usize),
    Close,
    /// Close this menu and open one at this cell.
    Reopen(u16, u16),
}

pub open spec fn menu_mouse_spec(rect: Area, actions: Seq<bool>, mouse: Mouse) -> MenuMouse {
    let item = menu_item_spec(rect, actions, mouse.column, mouse.row);
    match mouse.kind {
        MouseKind::Moved => match item {
            Some(i) => MenuMouse::Point(i),
            None => MenuMouse::Nothing,
        },
        MouseKind::LeftDown => match item {
            Some(i) => MenuMouse::Activate(i),
            None => MenuMouse::Close,
        },
        MouseKind::RightDown => MenuMouse::Reopen(mouse.column, mouse.row),
        _ => MenuMouse::Nothing,
    }
}

pub fn menu_mouse(rect: Area, actions: &Vec<bool>, mouse: Mouse) -> (res: MenuMouse)
    ensures
        res == menu_mouse_spec(rect, actions@, mouse),
{
    let item: Option<usize> = menu_item_at(rect, actions, mouse.column, mouse.row);
    match mouse.kind {
        MouseKind::Moved => match item {
            Some(i) => MenuMouse::Point(i),
            None => MenuMouse::Nothing,
        },
        MouseKind::LeftDown => match item {
            Some(i) => MenuMouse::Activate(i),
            None => MenuMouse::Close,
        },
        MouseKind::RightDown => MenuMouse::Reopen(mouse.column, mouse.row),
        _ => MenuMouse::Nothing,
    }
}

/// What a key does in a menu.
#[derive(Clone, Copy, PartialEq, Eq, Structural, Debug)]
pub enum MenuKey {
    Nothing,
    Close,
    Select(usize),
    Activate,
}

pub open spec fn menu_key_spec(actions: Seq<bool>, selected: usize, key: Key) -> MenuKey {
    match key.code {
        KeyCode::Esc => MenuKey::Close,
        KeyCode::Up => MenuKey::Select(stepped(actions, selected as int, -1) as usize),
        KeyCode::Char('k') => MenuKey::Select(stepped(actions, selected as int, -1) as usize),
        KeyCode::Down => MenuKey::Select(stepped(actions, selected as int, 1) as usize),
        KeyCode::Char('j') => MenuKey::Select(stepped(actions, selected as int, 1) as usize),
        KeyCode::Enter => MenuKey::Activate,
        _ => MenuKey::Nothing,
    }
}

pub fn menu_key(actions: &Vec<bool>, selected: usize, key: Key) -> (res: MenuKey)
    ensures
        res == menu_key_spec(actions@, selected, key),
{
    match key.code {
        KeyCode::Esc => MenuKey::Close,
        KeyCode::Up => MenuKey::Select(step_over(actions, selected, -1)),
        KeyCode::Char('k') => MenuKey::Select(step_over(actions, selected, -1)),
        KeyCode::Down => MenuKey::Select(step_over(actions, selected, 1)),
        KeyCode::Char('j') => MenuKey::Select(step_over(actions, selected, 1)),
        KeyCode::Enter => MenuKey::Activate,
        _ => MenuKey::Nothing,
    }
}

/// A selection that stands on an action stays on actions, whatever is pressed
/// or pointed at.
pub proof fn law_menu_selection_stays_on_actions(
    rect: Area,
    actions: Seq<bool>,
    selected: usize,
    key: Key,
    mouse: Mouse,
)
    requires
        selected < actions.len() <= usize::MAX,
        actions[selected as int],
    ensures
        menu_key_spec(actions, selected, key) matches MenuKey::Select(i) ==> i < actions.len()
            && actions[i as int],
        menu_mouse_spec(rect, actions, mouse) matches MenuMouse::Point(i) ==> i < actions.len()
            && actions[i as int],
        menu_mouse_spec(rect, actions, mouse) matches MenuMouse::Activate(i) ==> i < actions.len()
            && actions[i as int],
{
    crate::menu_nav::law_steps_land_on_actions(actions, selected as int, 1);
    crate::menu_nav::law_steps_land_on_actions(actions, selected as int, -1);
}

} // verus!
