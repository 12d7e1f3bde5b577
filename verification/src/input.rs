//! Key presses and mouse events, as far as the sidebar tells them apart.

use vstd::prelude::*;

verus! {

#[derive(Clone, Copy, PartialEq, Eq, Structural, Debug)]
pub enum KeyCode {
    Char(char),
    Enter,
    Esc,
    Tab,
    BackTab,
    Backspace,
    Delete,
    Left,
    Right,
    Up,
    Down,
    Home,
    End,
    PageUp,
    PageDown,
    F(u8),
    /// A key that has no meaning in the sidebar.
    Other,
}

#[derive(Clone, Copy, PartialEq, Eq, Structural, Debug)]
pub struct Key {
    pub code: KeyCode,
    pub control: bool,
    pub alt: bool,
    pub shift: bool,
    /// Any modifier besides these three.
    pub meta: bool,
    /// A press, as opposed to a repeat or a release.
    pub press: bool,
}

impl Key {
    /// `Ctrl` without `Alt`: a command. With `Alt` it is `AltGr`, which types.
    pub open spec fn command(self) -> bool {
        self.control && !self.alt
    }

    /// No modifier is held.
    pub open spec fn bare(self) -> bool {
        !self.control && !self.alt && !self.shift && !self.meta
    }

    pub fn is_bare(self) -> (res: bool)
        ensures
            res == self.bare(),
    {
        !self.control && !self.alt && !self.shift && !self.meta
    }

    pub fn is_command(self) -> (res: bool)
        ensures
            res == self.command(),
    {
        self.control && !self.alt
    }
}

#[derive(Clone, Copy, PartialEq, Eq, Structural, Debug)]
pub enum MouseKind {
    Moved,
    ScrollUp,
    ScrollDown,
    LeftDown,
    RightDown,
    /// A mouse event that has no meaning in the sidebar.
    Other,
}

#[derive(Clone, Copy, PartialEq, Eq, Structural, Debug)]
pub struct Mouse {
    pub kind: MouseKind,
    pub column: u16,
    pub row: u16,
}

} // verus!
