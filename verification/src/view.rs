//! The views of the sidebar, and how one of them ends.

use vstd::prelude::*;

verus! {

#[derive(Clone, Copy, PartialEq, Eq, Structural, Debug)]
pub enum ViewKind {
    Explorer,
    SourceControl,
}

/// Why a view's event loop ends.
#[derive(Clone, Copy, PartialEq, Eq, Structural, Debug)]
pub enum Exit {
    Quit,
    /// Go on with the view that is now the active one.
    Switch,
    /// Go on with the explorer, its quick open shown.
    QuickOpen,
    /// Go on with the explorer's search.
    Search { focus_query: bool },
}

/// The buttons that the title bar shows while the mouse is over the pane.
#[derive(Clone, Copy, PartialEq, Eq, Structural, Debug)]
pub enum TitleAction {
    NewFile,
    NewFolder,
    Refresh,
    CollapseAll,
}

/// The digit that a key stands for as a view switch from anywhere: `Ctrl` with
/// the digit, or one of the function keys that are sent in its place.
pub open spec fn view_digit(code: crate::input::KeyCode, command: bool) -> Option<char> {
    match code {
        crate::input::KeyCode::F(9) => Some('1'),
        crate::input::KeyCode::F(10) => Some('2'),
        crate::input::KeyCode::F(11) => Some('3'),
        crate::input::KeyCode::Char(c) => if command && (c == '1' || c == '2' || c == '3') {
            Some(c)
        } else {
            None
        },
        _ => None,
    }
}

pub fn view_key(code: crate::input::KeyCode, command: bool) -> (res: Option<char>)
    ensures
        res == view_digit(code, command),
{
    match code {
        crate::input::KeyCode::F(9) => Some('1'),
        crate::input::KeyCode::F(10) => Some('2'),
        crate::input::KeyCode::F(11) => Some('3'),
        crate::input::KeyCode::Char(c) => if command && (c == '1' || c == '2' || c == '3') {
            Some(c)
        } else {
            None
        },
        _ => None,
    }
}

/// How long two clicks on the same row still count as a double click, in
/// milliseconds.
pub const DOUBLE_CLICK_MS: u64 = 450;

/// The second click on a row within the time of a double click.
pub open spec fn is_double(last: Option<(usize, u64)>, index: usize, now: u64) -> bool {
    match last {
        Some((i, at)) => i == index && now - at < DOUBLE_CLICK_MS,
        None => false,
    }
}

pub fn double_click(last: Option<(usize, u64)>, index: usize, now: u64) -> (res: bool)
    ensures
        res == is_double(last, index, now),
{
    match last {
        Some((i, at)) => i == index && (now < at || now - at < DOUBLE_CLICK_MS),
        None => false,
    }
}

/// How often a pane tells that it is alive, and looks at the panes beside it, in
/// milliseconds.
pub const HEARTBEAT_MS: u64 = 5000;

/// Whether something that is done every `every` milliseconds and was done at
/// `last` is due.
pub fn is_due(last: u64, every: u64, now: u64) -> (res: bool)
    ensures
        res == (now - last >= every),
{
    now >= last && now - last >= every
}

/// What a switch between one pane for both views and a pane for each asks for.
#[derive(Clone, Copy, PartialEq, Eq, Structural, Debug)]
pub enum UnifyAction {
    /// It is that way already, or there is no other view.
    Nothing,
    /// Both views into this pane: tell so, and ask the other view's pane to close.
    Unite,
    /// A pane for each: tell so, widen this pane, which is then split, and open the
    /// other view beside it.
    Separate { width: u16 },
}

/// The width that leaves two panes of `width` columns and a divider between them,
/// as far as there are columns.
pub open spec fn doubled(width: u16) -> u16 {
    if 2 * width + 1 > u16::MAX {
        u16::MAX
    } else {
        (2 * width + 1) as u16
    }
}

/// The sidebar is to be unified, or to be no longer.
pub fn set_unified(on: bool, unified: bool, other_view: bool, width: u16) -> (res: UnifyAction)
    ensures
        res == (if on == unified || !other_view {
            UnifyAction::Nothing
        } else if on {
            UnifyAction::Unite
        } else {
            UnifyAction::Separate { width: doubled(width) }
        }),
{
    if on == unified || !other_view {
        UnifyAction::Nothing
    } else if on {
        UnifyAction::Unite
    } else if width > 32767 {
        UnifyAction::Separate { width: u16::MAX }
    } else {
        UnifyAction::Separate { width: 2 * width + 1 }
    }
}

/// What follows once the other view's pane was asked to close.
#[derive(Clone, Copy, PartialEq, Eq, Structural, Debug)]
pub enum UniteStep {
    /// It will: wait until it is gone, and take over this width then.
    AwaitClose { width: u16 },
    /// There is no such pane.
    Settled,
    /// It could not be asked: take the unification back, and say why.
    TakeBack,
}

/// `closing` tells whether there are panes that will close, and is none where they
/// could not be asked.
pub fn unite_step(closing: Option<bool>, width: u16) -> (res: UniteStep)
    ensures
        res == (match closing {
            Some(true) => UniteStep::AwaitClose { width },
            Some(false) => UniteStep::Settled,
            None => UniteStep::TakeBack,
        }),
{
    match closing {
        Some(true) => UniteStep::AwaitClose { width },
        Some(false) => UniteStep::Settled,
        None => UniteStep::TakeBack,
    }
}

/// While the sidebar is being unified: whether the other view's pane is gone.
#[derive(Clone, Copy, PartialEq, Eq, Structural, Debug)]
pub enum UnifyStep {
    /// It is gone: take over its columns.
    Done,
    /// It stayed open for too long: take the unification back.
    GiveUp,
    Wait,
}

/// How long the other pane may take to close, in milliseconds.
pub const UNIFY_TIMEOUT_MS: u64 = 2000;

pub fn unify_step(other_gone: bool, waited: u64) -> (res: UnifyStep)
    ensures
        res == (if other_gone {
            UnifyStep::Done
        } else if waited >= UNIFY_TIMEOUT_MS {
            UnifyStep::GiveUp
        } else {
            UnifyStep::Wait
        }),
{
    if other_gone {
        UnifyStep::Done
    } else if waited >= UNIFY_TIMEOUT_MS {
        UnifyStep::GiveUp
    } else {
        UnifyStep::Wait
    }
}

/// Whether a resize of the pane came with one of the whole tab, which alone
/// brings the pane back to its preferred width; a dragged divider is respected.
/// The second part of the result is the width of the tab from now on.
pub fn surroundings_changed(before: Option<i64>, now: Option<i64>) -> (res: (bool, Option<i64>))
    ensures
        res.0 == (before matches Some(b) && now matches Some(n) && b != n),
        res.1 == (if now is Some {
            now
        } else {
            before
        }),
{
    let changed: bool = match (before, now) {
        (Some(b), Some(n)) => b != n,
        _ => false,
    };
    (changed, match now {
        Some(n) => Some(n),
        None => before,
    })
}

} // verus!
