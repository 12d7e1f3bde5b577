//! What each key press does in the Source Control panel. The panel changes its
//! own state and lists, in order, what is to be done outside of it.

use vstd::prelude::*;

use crate::geometry::Area;
use crate::git::FileEntry;
use crate::input::{Key, KeyCode};
use crate::scm_app::drawer::Drawer;
use crate::scm_app::menu::MenuEntry;
use crate::scm_app::panel::Panel;
use crate::scm_app::rows::BodyGeom;
use crate::scm_app::snapshot::DocKey;
use crate::view::{view_digit, view_key, TitleAction, ViewKind};

verus! {

#[derive(Clone, Copy, PartialEq, Eq, Structural, Debug)]
pub enum Focus {
    Message,
    Commit,
    List,
}

/// What a context menu is about.
pub enum MenuTarget {
    File { repo: usize, entry: FileEntry, staged: bool },
    Drawer { kind: Drawer, index: usize },
}

/// A modal layered over the list; while open it owns keyboard and mouse input.
pub enum Overlay {
    BranchPicker,
    Menu {
        x: u16,
        y: u16,
        target: MenuTarget,
        entries: Vec<MenuEntry>,
        selected: usize,
        rect: Area,
    },
    ConfirmDiscard { repo: usize, entry: FileEntry },
    ConfirmDiscardAll { repo: usize },
    /// A y/N prompt guarding a destructive git command.
    ConfirmGit { repo: usize, prompt: String, args: Vec<String> },
    Settings { selected: usize, rect: Area, scroll: usize },
}

/// Clickable regions from the last draw.
#[derive(Clone, Copy, Debug)]
pub struct ClickZones {
    pub activity_row: u16,
    pub explorer: (u16, u16),
    pub search: (u16, u16),
    pub source_control: (u16, u16),
    /// The settings button.
    pub gear: Area,
    pub message: Area,
    pub sparkle: Area,
    pub button: Area,
    /// The Sync Changes row (without cells when hidden).
    pub sync: Area,
    /// Branch text in the header.
    pub header_branch: Area,
    pub footer_branch: Area,
    pub footer_sync: Area,
}

/// What the panel asks to be done outside of it.
pub enum Effect {
    /// Save the view state, then close the pane; snoozed, it stays closed.
    Close { snooze: bool },
    ClosePreview,
    /// Save the view state.
    Persist,
    /// Read the status of every repository and the expanded drawers anew.
    Refresh,
    /// Fetch the lines of the expanded drawers anew.
    ReloadDrawers,
    /// Use the other icon theme.
    ToggleIcons,
    /// Make this the active view, for every pane of the sidebar.
    ShareView { view: ViewKind, search: bool },
    StageAll(usize),
    UnstageAll(usize),
    Stage { repo: usize, entry: FileEntry },
    Unstage { repo: usize, entry: FileEntry },
    Discard { repo: usize, entry: FileEntry },
    DiscardAll(usize),
    Commit { repo: usize, message: String },
    /// Ask for a commit message for this repository.
    Suggest(usize),
    /// Pull and push this repository.
    Sync(usize),
    RunGit { repo: usize, args: Vec<String> },
    /// Show a file's diff; with `pin`, keep the preview that shows it already.
    OpenDiff { repo: usize, entry: FileEntry, staged: bool, pin: bool },
    /// Show a commit, branch, stash or tag.
    OpenRef { spec: String, file: Option<String>, pin: bool },
    CopyPath { repo: usize, entry: FileEntry, absolute: bool },
    Copy(String),
    RevealFile { repo: usize, entry: FileEntry },
    RevealFolder(String),
    OpenExternal { repo: usize, entry: FileEntry },
    /// List the branches of this repository to choose from.
    PickBranch(usize),
    ToggleSetting(usize),
    AdjustWidth(bool),
    AdjustAbovePercent(bool),
    /// Hand the event on to the branch picker.
    ToPicker,
}

pub struct App {
    pub panel: Panel,
    pub focus: Focus,
    /// One-shot footer notice: its text, and whether it is an error. Cleared
    /// on the next key press.
    pub flash: Option<(String, bool)>,
    pub overlay: Option<Overlay>,
    pub hovered: Option<usize>,
    pub mouse_pos: Option<(u16, u16)>,
    pub body: BodyGeom,
    pub zones: ClickZones,
    pub title_zones: Vec<(Area, TitleAction)>,
    /// Last left click: the row, and when, in milliseconds.
    pub last_click: Option<(usize, u64)>,
    /// The document that the most recent preview shows.
    pub last_preview: Option<DocKey>,
    /// Rows that a page key moves by.
    pub page: u16,
    /// Lines of the pane.
    pub height: u16,
    /// The sidebar is unified, and the other view is there.
    pub merged: bool,
    /// The panel runs in a pane that can show previews.
    pub in_pane: bool,
    /// The repository that is being synchronised.
    pub syncing: Option<usize>,
    /// A commit message is being generated.
    pub suggesting: bool,
}

/// What the flash says.
pub open spec fn flash_is(flash: Option<(String, bool)>, text: Seq<char>, error: bool) -> bool {
    flash matches Some(f) && f.0@ == text && f.1 == error
}

// ---- Which part of the panel a key is for ----

#[derive(Clone, Copy, PartialEq, Eq, Structural, Debug)]
pub enum KeyCommand {
    /// Not a press.
    Ignore,
    /// Close the pane without snoozing it.
    Close,
    QuickOpen,
    /// Switch to a view from anywhere.
    Switch(ViewKind),
    /// Switch to the search from anywhere.
    Search,
    /// The open overlay takes the key.
    ToOverlay,
    /// Search, ready to type.
    Find,
    ToMessage,
    ToButton,
    ToList,
}

pub open spec fn key_command_spec(key: Key, merged: bool, overlay: bool, focus: Focus) -> KeyCommand {
    if !key.press {
        KeyCommand::Ignore
    } else if key.code == KeyCode::Char('q') && key.command() {
        KeyCommand::Close
    } else if ((key.code == KeyCode::Char('p') && key.command()) || key.code == KeyCode::F(12))
        && merged {
        KeyCommand::QuickOpen
    } else if view_digit(key.code, key.command()) is Some {
        let digit = view_digit(key.code, key.command())->0;
        if digit == '1' {
            KeyCommand::Switch(ViewKind::Explorer)
        } else if digit == '2' {
            KeyCommand::Search
        } else {
            KeyCommand::Switch(ViewKind::SourceControl)
        }
    } else if overlay {
        KeyCommand::ToOverlay
    } else if (key.code == KeyCode::Char('f') || key.code == KeyCode::Char('F')) && key.command() {
        KeyCommand::Find
    } else {
        match focus {
            Focus::Message => KeyCommand::ToMessage,
            Focus::Commit => KeyCommand::ToButton,
            Focus::List => KeyCommand::ToList,
        }
    }
}

pub fn key_command(key: Key, merged: bool, overlay: bool, focus: Focus) -> (res: KeyCommand)
    ensures
        res == key_command_spec(key, merged, overlay, focus),
{
    if !key.press {
        return KeyCommand::Ignore;
    }
    if key.code == KeyCode::Char('q') && key.is_command() {
        return KeyCommand::Close;
    }
    if ((key.code == KeyCode::Char('p') && key.is_command()) || key.code == KeyCode::F(12))
        && merged {
        return KeyCommand::QuickOpen;
    }
    if let Some(digit) = view_key(key.code, key.is_command()) {
        return if digit == '1' {
            KeyCommand::Switch(ViewKind::Explorer)
        } else if digit == '2' {
            KeyCommand::Search
        } else {
            KeyCommand::Switch(ViewKind::SourceControl)
        };
    }
    if overlay {
        return KeyCommand::ToOverlay;
    }
    if (key.code == KeyCode::Char('f') || key.code == KeyCode::Char('F')) && key.is_command() {
        return KeyCommand::Find;
    }
    match focus {
        Focus::Message => KeyCommand::ToMessage,
        Focus::Commit => KeyCommand::ToButton,
        Focus::List => KeyCommand::ToList,
    }
}

/// A digit that is typed into the commit message never switches the view.
pub proof fn law_typed_digits_stay_in_the_message(key: Key, merged: bool, digit: char)
    requires
        key.press,
        key.code == KeyCode::Char(digit),
        !key.command(),
    ensures
        key_command_spec(key, merged, false, Focus::Message) == KeyCommand::ToMessage,
{
}

// ---- Keys of the list ----

#[derive(Clone, Copy, PartialEq, Eq, Structural, Debug)]
pub enum ListCommand {
    Nothing,
    Quit,
    ClosePreview,
    FocusMessage,
    FocusCommit,
    Up,
    Down,
    PageUp,
    PageDown,
    First,
    Last,
    Activate,
    StageAll,
    UnstageAll,
    Refresh,
    ToggleIcons,
    Suggest,
    Settings,
    Sync,
    OpenDiff,
    Menu,
    Hide,
    Explorer,
    Search,
}

pub open spec fn list_command_spec(code: KeyCode) -> ListCommand {
    match code {
        KeyCode::Esc => ListCommand::ClosePreview,
        KeyCode::Tab => ListCommand::FocusMessage,
        KeyCode::BackTab => ListCommand::FocusCommit,
        KeyCode::Up => ListCommand::Up,
        KeyCode::Down => ListCommand::Down,
        KeyCode::PageUp => ListCommand::PageUp,
        KeyCode::PageDown => ListCommand::PageDown,
        KeyCode::Home => ListCommand::First,
        KeyCode::End => ListCommand::Last,
        KeyCode::Enter => ListCommand::Activate,
        KeyCode::Char(c) => match c {
            'q' => ListCommand::Quit,
            'c' => ListCommand::FocusMessage,
            'k' => ListCommand::Up,
            'j' => ListCommand::Down,
            'g' => ListCommand::First,
            'G' => ListCommand::Last,
            ' ' => ListCommand::Activate,
            'a' => ListCommand::StageAll,
            'u' => ListCommand::UnstageAll,
            'r' => ListCommand::Refresh,
            'i' => ListCommand::ToggleIcons,
            'A' => ListCommand::Suggest,
            's' => ListCommand::Settings,
            'S' => ListCommand::Sync,
            'o' => ListCommand::OpenDiff,
            'm' => ListCommand::Menu,
            'b' => ListCommand::Hide,
            '1' => ListCommand::Explorer,
            '2' => ListCommand::Search,
            _ => ListCommand::Nothing,
        },
        _ => ListCommand::Nothing,
    }
}

pub fn list_command(code: KeyCode) -> (res: ListCommand)
    ensures
        res == list_command_spec(code),
{
    match code {
        KeyCode::Esc => ListCommand::ClosePreview,
        KeyCode::Tab => ListCommand::FocusMessage,
        KeyCode::BackTab => ListCommand::FocusCommit,
        KeyCode::Up => ListCommand::Up,
        KeyCode::Down => ListCommand::Down,
        KeyCode::PageUp => ListCommand::PageUp,
        KeyCode::PageDown => ListCommand::PageDown,
        KeyCode::Home => ListCommand::First,
        KeyCode::End => ListCommand::Last,
        KeyCode::Enter => ListCommand::Activate,
        KeyCode::Char(c) => match c {
            'q' => ListCommand::Quit,
            'c' => ListCommand::FocusMessage,
            'k' => ListCommand::Up,
            'j' => ListCommand::Down,
            'g' => ListCommand::First,
            'G' => ListCommand::Last,
            ' ' => ListCommand::Activate,
            'a' => ListCommand::StageAll,
            'u' => ListCommand::UnstageAll,
            'r' => ListCommand::Refresh,
            'i' => ListCommand::ToggleIcons,
            'A' => ListCommand::Suggest,
            's' => ListCommand::Settings,
            'S' => ListCommand::Sync,
            'o' => ListCommand::OpenDiff,
            'm' => ListCommand::Menu,
            'b' => ListCommand::Hide,
            '1' => ListCommand::Explorer,
            '2' => ListCommand::Search,
            _ => ListCommand::Nothing,
        },
        _ => ListCommand::Nothing,
    }
}

} // verus!
