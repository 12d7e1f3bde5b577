//! The Explorer: its state, what it asks to be done outside of it, and which
//! key means what.

use crate::actions::menu::MenuEntry;
use crate::explorer_app::panel::{SearchFocus, SearchPanel, SearchZones};
use crate::explorer_app::quick_open::{QuickIndex, QuickOpen};
use crate::explorer_app::search::SearchOptions;
use crate::explorer_app::tree::{Row, TreeList};
use crate::geometry::Area;
use crate::input::{Key, KeyCode};
use crate::view::{TitleAction, ViewKind};
use vstd::prelude::*;

verus! {

/// A file or folder that a menu is about.
pub struct Target {
    pub path: String,
    pub name: String,
    /// The folder that it lies in.
    pub folder: String,
    pub is_dir: bool,
}

/// What a `Target` holds.
#[verifier::ext_equal]
pub struct TargetView {
    pub path: Seq<char>,
    pub name: Seq<char>,
    pub folder: Seq<char>,
    pub is_dir: bool,
}

impl View for Target {
    type V = TargetView;

    open spec fn view(&self) -> TargetView {
        TargetView {
            path: self.path@,
            name: self.name@,
            folder: self.folder@,
            is_dir: self.is_dir,
        }
    }
}

pub open spec fn opt_target(target: Option<Target>) -> Option<TargetView> {
    match target {
        Some(target) => Some(target@),
        None => None,
    }
}

/// The target that a row is.
pub open spec fn row_target(row: Row) -> TargetView {
    TargetView { path: row.path@, name: row.name@, folder: row.folder@, is_dir: row.is_dir }
}

pub fn target_of(row: &Row) -> (res: Target)
    ensures
        res@ == row_target(*row),
{
    Target {
        path: row.path.clone(),
        name: row.name.clone(),
        folder: row.folder.clone(),
        is_dir: row.is_dir,
    }
}

/// What a prompt's input is for.
pub enum PromptKind {
    /// Create a file in this folder.
    NewFile(String),
    /// Create a folder in this folder.
    NewFolder(String),
    /// Give the file or folder at this path another name.
    Rename(String),
    /// Show another folder.
    ChangeFolder,
    /// Set the editor command.
    CustomEditor,
}

/// What lies over the tree; while open it owns keyboard and mouse input.
pub enum Overlay {
    BranchPicker,
    Menu {
        x: u16,
        y: u16,
        /// `None` stands for the root.
        target: Option<Target>,
        entries: Vec<MenuEntry>,
        selected: usize,
        rect: Area,
    },
    Prompt { title: &'static str, input: String, kind: PromptKind },
    ConfirmDelete { path: String, name: String, is_dir: bool },
    Settings { selected: usize, rect: Area, scroll: usize },
    QuickOpen(QuickOpen),
    Search(SearchPanel),
}

/// Clickable regions from the last draw.
#[derive(Clone, Copy, Debug)]
pub struct ClickZones {
    pub activity_row: u16,
    pub explorer: (u16, u16),
    pub search: (u16, u16),
    pub source_control: (u16, u16),
    /// The settings button.
    pub gear: Area,
    pub footer_branch: Area,
    pub footer_sync: Area,
}

/// What the Explorer asks to be done outside of it.
pub enum Effect {
    /// Close the pane; snoozed, it stays closed.
    Close { snooze: bool },
    ClosePreview,
    /// Publish which folders are expanded and which row is selected.
    Persist,
    Expand(String),
    Collapse(String),
    /// Expand a collapsed folder, collapse an expanded one.
    Toggle(String),
    CollapseAll,
    /// Read the folders anew.
    Reread,
    /// Look for repositories anew and read their status.
    Rediscover,
    /// Read the status of the repositories.
    ReadStatus,
    /// List the visible rows anew and hand them to `rebuilt`.
    ListRows,
    /// Select the row with this path, where there is one.
    SelectPath(String),
    /// Use the other icon theme.
    ToggleIcons,
    /// Make this the active view, for every pane of the sidebar.
    ShareView { view: ViewKind, search: bool },
    /// Say whether the search is shown, for every pane of the sidebar.
    ShareSearch(bool),
    /// Show a file, at this line where there is one.
    Preview { path: String, line: Option<usize> },
    /// Keep the preview that shows this file.
    Pin(String),
    OpenEditor(String),
    /// Find out whether the target lies in a repository, and hand that to
    /// `show_menu`.
    AskMenu { x: u16, y: u16, target: Option<Target> },
    Copy(String),
    OpenExternal { path: String, name: String },
    Stage { path: String, name: String },
    Reveal { path: String, directory: bool },
    CreateFile { folder: String, name: String },
    CreateFolder { folder: String, name: String },
    Rename { path: String, name: String },
    Delete { path: String, is_dir: bool },
    /// Open the system's folder picker.
    PickFolder,
    /// Show this folder.
    ChangeFolder(String),
    SaveEditor(String),
    /// List the files below the root for quick open.
    ListFiles,
    Search { query: String, files_in: String, files_out: String, options: SearchOptions },
    /// List the branches to choose from.
    PickBranch,
    /// Pull and push.
    Sync,
    /// Hand the event on to the branch picker.
    ToPicker,
    ToggleSetting(usize),
    AdjustWidth(bool),
    AdjustAbovePercent(bool),
}

/// What an `Effect` holds.
#[verifier::ext_equal]
pub enum EffectView {
    Close { snooze: bool },
    ClosePreview,
    Persist,
    Expand(Seq<char>),
    Collapse(Seq<char>),
    Toggle(Seq<char>),
    CollapseAll,
    Reread,
    Rediscover,
    ReadStatus,
    ListRows,
    SelectPath(Seq<char>),
    ToggleIcons,
    ShareView { view: ViewKind, search: bool },
    ShareSearch(bool),
    Preview { path: Seq<char>, line: Option<usize> },
    Pin(Seq<char>),
    OpenEditor(Seq<char>),
    AskMenu { x: u16, y: u16, target: Option<TargetView> },
    Copy(Seq<char>),
    OpenExternal { path: Seq<char>, name: Seq<char> },
    Stage { path: Seq<char>, name: Seq<char> },
    Reveal { path: Seq<char>, directory: bool },
    CreateFile { folder: Seq<char>, name: Seq<char> },
    CreateFolder { folder: Seq<char>, name: Seq<char> },
    Rename { path: Seq<char>, name: Seq<char> },
    Delete { path: Seq<char>, is_dir: bool },
    PickFolder,
    ChangeFolder(Seq<char>),
    SaveEditor(Seq<char>),
    ListFiles,
    Search {
        query: Seq<char>,
        files_in: Seq<char>,
        files_out: Seq<char>,
        options: SearchOptions,
    },
    PickBranch,
    Sync,
    ToPicker,
    ToggleSetting(usize),
    AdjustWidth(bool),
    AdjustAbovePercent(bool),
}

impl View for Effect {
    type V = EffectView;

    open spec fn view(&self) -> EffectView {
        match *self {
            Effect::Close { snooze } => EffectView::Close { snooze },
            Effect::ClosePreview => EffectView::ClosePreview,
            Effect::Persist => EffectView::Persist,
            Effect::Expand(path) => EffectView::Expand(path@),
            Effect::Collapse(path) => EffectView::Collapse(path@),
            Effect::Toggle(path) => EffectView::Toggle(path@),
            Effect::CollapseAll => EffectView::CollapseAll,
            Effect::Reread => EffectView::Reread,
            Effect::Rediscover => EffectView::Rediscover,
            Effect::ReadStatus => EffectView::ReadStatus,
            Effect::ListRows => EffectView::ListRows,
            Effect::SelectPath(path) => EffectView::SelectPath(path@),
            Effect::ToggleIcons => EffectView::ToggleIcons,
            Effect::ShareView { view, search } => EffectView::ShareView { view, search },
            Effect::ShareSearch(on) => EffectView::ShareSearch(on),
            Effect::Preview { path, line } => EffectView::Preview { path: path@, line },
            Effect::Pin(path) => EffectView::Pin(path@),
            Effect::OpenEditor(path) => EffectView::OpenEditor(path@),
            Effect::AskMenu { x, y, target } => EffectView::AskMenu {
                x,
                y,
                target: opt_target(target),
            },
            Effect::Copy(text) => EffectView::Copy(text@),
            Effect::OpenExternal { path, name } => EffectView::OpenExternal {
                path: path@,
                name: name@,
            },
            Effect::Stage { path, name } => EffectView::Stage { path: path@, name: name@ },
            Effect::Reveal { path, directory } => EffectView::Reveal { path: path@, directory },
            Effect::CreateFile { folder, name } => EffectView::CreateFile {
                folder: folder@,
                name: name@,
            },
            Effect::CreateFolder { folder, name } => EffectView::CreateFolder {
                folder: folder@,
                name: name@,
            },
            Effect::Rename { path, name } => EffectView::Rename { path: path@, name: name@ },
            Effect::Delete { path, is_dir } => EffectView::Delete { path: path@, is_dir },
            Effect::PickFolder => EffectView::PickFolder,
            Effect::ChangeFolder(path) => EffectView::ChangeFolder(path@),
            Effect::SaveEditor(command) => EffectView::SaveEditor(command@),
            Effect::ListFiles => EffectView::ListFiles,
            Effect::Search { query, files_in, files_out, options } => EffectView::Search {
                query: query@,
                files_in: files_in@,
                files_out: files_out@,
                options,
            },
            Effect::PickBranch => EffectView::PickBranch,
            Effect::Sync => EffectView::Sync,
            Effect::ToPicker => EffectView::ToPicker,
            Effect::ToggleSetting(index) => EffectView::ToggleSetting(index),
            Effect::AdjustWidth(wider) => EffectView::AdjustWidth(wider),
            Effect::AdjustAbovePercent(taller) => EffectView::AdjustAbovePercent(taller),
        }
    }
}

/// What is asked for, in order.
#[verifier::opaque]
pub open spec fn asked(out: Seq<Effect>) -> Seq<EffectView> {
    out.map(|i: int, e: Effect| e@)
}

/// One thing is asked for.
pub open spec fn just(effect: EffectView) -> Seq<EffectView> {
    Seq::empty().push(effect)
}

/// One thing after the other is asked for.
pub open spec fn pair(first: EffectView, second: EffectView) -> Seq<EffectView> {
    Seq::empty().push(first).push(second)
}

pub open spec fn triple(first: EffectView, second: EffectView, third: EffectView) -> Seq<
    EffectView,
> {
    Seq::empty().push(first).push(second).push(third)
}

/// Nothing is asked for.
pub fn nothing() -> (res: Vec<Effect>)
    ensures
        asked(res@) == Seq::<EffectView>::empty(),
{
    reveal(asked);
    let out: Vec<Effect> = Vec::new();
    assert(asked(out@) =~= Seq::<EffectView>::empty());
    out
}

pub fn one(effect: Effect) -> (res: Vec<Effect>)
    ensures
        asked(res@) == just(effect@),
{
    reveal(asked);
    let out: Vec<Effect> = vec![effect];
    assert(asked(out@) =~= just(effect@));
    out
}

pub fn two(first: Effect, second: Effect) -> (res: Vec<Effect>)
    ensures
        asked(res@) == pair(first@, second@),
{
    reveal(asked);
    let out: Vec<Effect> = vec![first, second];
    assert(asked(out@) =~= pair(first@, second@));
    out
}

pub fn three(first: Effect, second: Effect, third: Effect) -> (res: Vec<Effect>)
    ensures
        asked(res@) == triple(first@, second@, third@),
{
    reveal(asked);
    let out: Vec<Effect> = vec![first, second, third];
    assert(asked(out@) =~= triple(first@, second@, third@));
    out
}

/// One after the other.
pub fn join_effects(first: Vec<Effect>, second: Vec<Effect>) -> (res: Vec<Effect>)
    ensures
        asked(res@) == asked(first@) + asked(second@),
{
    reveal(asked);
    let mut out: Vec<Effect> = first;
    let mut rest: Vec<Effect> = second;
    out.append(&mut rest);
    assert(asked(out@) =~= asked(first@) + asked(second@));
    out
}

/// The folder that is shown.
pub struct Folder {
    pub root: String,
    pub root_name: String,
    pub show_hidden: bool,
}

/// What the Explorer can do where it runs.
#[derive(Clone, Copy, Debug)]
pub struct Mode {
    /// The sidebar is unified, and the other view is there.
    pub merged: bool,
    /// The Explorer runs in a pane that can show previews.
    pub in_pane: bool,
    /// The system has a folder picker.
    pub native_picker: bool,
    /// A click on a file opens it in the configured editor.
    pub editor_on_click: bool,
    /// A backslash separates the names of a path, as on Windows.
    pub backslash: bool,
}

/// What the footer tells of the repository.
#[derive(Clone, Copy, Debug)]
pub struct RepoState {
    pub present: bool,
    /// Whether its branch has an upstream; `None` where its status is unknown.
    pub upstream: Option<bool>,
    /// It is being pulled and pushed.
    pub syncing: bool,
}

/// What was drawn last, and where.
pub struct Screen {
    /// Rows that a page key moves by.
    pub page: u16,
    pub width: u16,
    pub height: u16,
    pub zones: ClickZones,
    pub title_zones: Vec<(Area, TitleAction)>,
    pub search_zones: SearchZones,
    /// Where results were drawn, and which.
    pub result_rows: Vec<(Area, usize)>,
    pub mouse_pos: Option<(u16, u16)>,
}

pub struct App {
    pub list: TreeList,
    pub folder: Folder,
    pub overlay: Option<Overlay>,
    /// The search that is parked under a modal.
    pub suspended: Option<SearchPanel>,
    /// The footer's line, until the next key.
    pub notice: Option<String>,
    pub mode: Mode,
    pub repo: RepoState,
    pub screen: Screen,
    /// The folder picker is open.
    pub picking: bool,
    /// Last left click: the row, and when, in milliseconds.
    pub last_click: Option<(usize, u64)>,
    /// The file that the most recent preview shows.
    pub last_preview: Option<String>,
    /// The files that were listed for quick open.
    pub index: Option<QuickIndex>,
    /// They are being listed.
    pub indexing: bool,
    /// A search is running.
    pub searching: bool,
    /// The first line of the results on the screen.
    pub search_scroll: usize,
    /// Bring the selected result onto the screen at the next draw.
    pub search_snap: bool,
}

impl App {
    pub open spec fn wf(&self) -> bool {
        &&& match self.overlay {
            Some(Overlay::Search(panel)) => panel.wf(),
            Some(Overlay::QuickOpen(quick)) => quick.wf(),
            _ => true,
        }
        &&& self.suspended matches Some(panel) ==> panel.wf()
    }

    /// The search is what is shown.
    pub open spec fn in_search(&self) -> bool {
        self.overlay matches Some(Overlay::Search(_))
    }

    pub fn is_searching(&self) -> (res: bool)
        ensures
            res == self.in_search(),
    {
        matches!(self.overlay, Some(Overlay::Search(_)))
    }

    /// The search is shown, and none of its inputs has the focus.
    pub open spec fn in_results(&self) -> bool {
        self.overlay matches Some(Overlay::Search(panel)) && panel.focus == SearchFocus::Results
    }

    pub fn search_text_unfocused(&self) -> (res: bool)
        ensures
            res == self.in_results(),
    {
        match &self.overlay {
            Some(Overlay::Search(panel)) => panel.focus == SearchFocus::Results,
            _ => false,
        }
    }
}

/// What the footer's line says.
pub open spec fn says(notice: Option<String>, text: Seq<char>) -> bool {
    notice matches Some(n) && n@ == text
}

// ---- Which part a key is for ----

#[derive(Clone, Copy, PartialEq, Eq, Structural, Debug)]
pub enum KeyCommand {
    /// Not a press.
    Ignore,
    /// Close the pane without snoozing it.
    Close,
    QuickOpen,
    /// Search, ready to type.
    Find,
    /// Switch to a view; `forced`, from whatever is open.
    View { digit: char, forced: bool },
    /// What lies over the tree takes the key.
    ToOverlay,
    ToList,
}

/// The digit of a view that a key stands for.
pub open spec fn digit_of(code: KeyCode) -> Option<char> {
    match code {
        KeyCode::F(9) => Some('1'),
        KeyCode::F(10) => Some('2'),
        KeyCode::F(11) => Some('3'),
        KeyCode::Char(c) => if c == '1' || c == '2' || c == '3' {
            Some(c)
        } else {
            None
        },
        _ => None,
    }
}

/// A function key that stands for a digit switches views as `Ctrl` with the
/// digit does.
pub open spec fn is_forced(key: Key) -> bool {
    key.code is F || key.command()
}

/// `overlay` tells whether something lies over the tree, and `results` whether
/// it is the search, with the focus on its results.
pub open spec fn key_command_spec(key: Key, overlay: bool, results: bool) -> KeyCommand {
    if !key.press {
        KeyCommand::Ignore
    } else if key.code == KeyCode::Char('q') && key.command() {
        KeyCommand::Close
    } else if (key.code == KeyCode::Char('p') && key.command()) || key.code == KeyCode::F(12) {
        KeyCommand::QuickOpen
    } else if (key.code == KeyCode::Char('f') || key.code == KeyCode::Char('F'))
        && key.command() {
        KeyCommand::Find
    } else if digit_of(key.code) is Some && (is_forced(key) || (key.bare() && results)) {
        KeyCommand::View { digit: digit_of(key.code)->0, forced: is_forced(key) }
    } else if overlay {
        KeyCommand::ToOverlay
    } else {
        KeyCommand::ToList
    }
}

pub fn key_command(key: Key, overlay: bool, results: bool) -> (res: KeyCommand)
    ensures
        res == key_command_spec(key, overlay, results),
{
    if !key.press {
        return KeyCommand::Ignore;
    }
    if key.code == KeyCode::Char('q') && key.is_command() {
        return KeyCommand::Close;
    }
    if (key.code == KeyCode::Char('p') && key.is_command()) || key.code == KeyCode::F(12) {
        return KeyCommand::QuickOpen;
    }
    if (key.code == KeyCode::Char('f') || key.code == KeyCode::Char('F')) && key.is_command() {
        return KeyCommand::Find;
    }
    let injected: Option<char> = match key.code {
        KeyCode::F(9) => Some('1'),
        KeyCode::F(10) => Some('2'),
        KeyCode::F(11) => Some('3'),
        _ => None,
    };
    let digit: Option<char> = match key.code {
        KeyCode::Char(c) => if c == '1' || c == '2' || c == '3' {
            Some(c)
        } else {
            None
        },
        _ => injected,
    };
    if let Some(digit) = digit {
        let forced: bool = injected.is_some() || key.is_command();
        if forced || (key.is_bare() && results) {
            return KeyCommand::View { digit, forced };
        }
    }
    if overlay {
        KeyCommand::ToOverlay
    } else {
        KeyCommand::ToList
    }
}

/// A digit that is typed while an input of the search has the focus is text;
/// only `Ctrl` makes it a switch. While the results have the focus it switches.
pub proof fn law_digits_are_text_in_a_focused_input(key: Key, digit: char)
    requires
        key.press,
        key.code == KeyCode::Char(digit),
        digit == '1' || digit == '2' || digit == '3',
    ensures
        !key.command() ==> key_command_spec(key, true, false) == KeyCommand::ToOverlay,
        key.bare() ==> key_command_spec(key, true, true) == (KeyCommand::View {
            digit,
            forced: false,
        }),
        key.command() ==> forall|overlay: bool, results: bool|
            key_command_spec(key, overlay, results) == (KeyCommand::View { digit, forced: true }),
{
}

// ---- Keys of the tree ----

#[derive(Clone, Copy, PartialEq, Eq, Structural, Debug)]
pub enum ListCommand {
    Nothing,
    Quit,
    ClosePreview,
    Up,
    Down,
    PageUp,
    PageDown,
    First,
    Last,
    /// Expand a folder, or go into it.
    Enter,
    /// Collapse a folder, or go to the one it lies in.
    Leave,
    Toggle,
    Refresh,
    ToggleHidden,
    ToggleIcons,
    Hide,
    ChangeFolder,
    Menu,
    Settings,
    Explorer,
    Search,
    SourceControl,
}

pub open spec fn list_command_spec(code: KeyCode) -> ListCommand {
    match code {
        KeyCode::Esc => ListCommand::ClosePreview,
        KeyCode::Up => ListCommand::Up,
        KeyCode::Down => ListCommand::Down,
        KeyCode::PageUp => ListCommand::PageUp,
        KeyCode::PageDown => ListCommand::PageDown,
        KeyCode::Home => ListCommand::First,
        KeyCode::End => ListCommand::Last,
        KeyCode::Right => ListCommand::Enter,
        KeyCode::Left => ListCommand::Leave,
        KeyCode::Enter => ListCommand::Toggle,
        KeyCode::Char(c) => match c {
            'q' => ListCommand::Quit,
            'k' => ListCommand::Up,
            'j' => ListCommand::Down,
            'g' => ListCommand::First,
            'G' => ListCommand::Last,
            'l' => ListCommand::Enter,
            'h' => ListCommand::Leave,
            ' ' => ListCommand::Toggle,
            'r' => ListCommand::Refresh,
            '.' => ListCommand::ToggleHidden,
            'i' => ListCommand::ToggleIcons,
            'b' => ListCommand::Hide,
            'c' => ListCommand::ChangeFolder,
            'm' => ListCommand::Menu,
            's' => ListCommand::Settings,
            '1' => ListCommand::Explorer,
            '2' => ListCommand::Search,
            '3' => ListCommand::SourceControl,
            _ => ListCommand::Nothing,
        },
        _ => ListCommand::Nothing,
    }
}

pub fn list_command(code: KeyCode) -> (res: ListCommand)
    ensures
        res == list_command_spec(code),
{
    match code {
        KeyCode::Esc => ListCommand::ClosePreview,
        KeyCode::Up => ListCommand::Up,
        KeyCode::Down => ListCommand::Down,
        KeyCode::PageUp => ListCommand::PageUp,
        KeyCode::PageDown => ListCommand::PageDown,
        KeyCode::Home => ListCommand::First,
        KeyCode::End => ListCommand::Last,
        KeyCode::Right => ListCommand::Enter,
        KeyCode::Left => ListCommand::Leave,
        KeyCode::Enter => ListCommand::Toggle,
        KeyCode::Char(c) => match c {
            'q' => ListCommand::Quit,
            'k' => ListCommand::Up,
            'j' => ListCommand::Down,
            'g' => ListCommand::First,
            'G' => ListCommand::Last,
            'l' => ListCommand::Enter,
            'h' => ListCommand::Leave,
            ' ' => ListCommand::Toggle,
            'r' => ListCommand::Refresh,
            '.' => ListCommand::ToggleHidden,
            'i' => ListCommand::ToggleIcons,
            'b' => ListCommand::Hide,
            'c' => ListCommand::ChangeFolder,
            'm' => ListCommand::Menu,
            's' => ListCommand::Settings,
            '1' => ListCommand::Explorer,
            '2' => ListCommand::Search,
            '3' => ListCommand::SourceControl,
            _ => ListCommand::Nothing,
        },
        _ => ListCommand::Nothing,
    }
}

} // verus!
