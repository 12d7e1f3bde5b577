//! The settings modal: its rows, and what each key changes.

use vstd::prelude::*;

use crate::columns::{truncate_to, truncated};
use crate::input::{Key, KeyCode};
use crate::text::{decimal, push_decimal};

verus! {

/// One row of the settings modal.
#[derive(Clone, Copy, PartialEq, Eq, Structural, Debug)]
pub enum Setting {
    UnifiedSidebar,
    DockRight,
    SidebarWidth,
    AbovePercent,
    IconTheme,
    ColorTheme,
    PreviewPlacement,
    CustomEditorCommand,
    CustomEditorClick,
    HiddenFiles,
    Hotkeys,
    AutoOpen,
    StrictToggle,
    FocusOnOpen,
    FollowCwd,
    GitDecorations,
    GitFooter,
    Folder,
}

#[derive(Clone, Copy, PartialEq, Eq, Structural, Debug)]
pub enum IconTheme {
    Material,
    Emoji,
}

impl IconTheme {
    pub open spec fn toggled_spec(self) -> IconTheme {
        match self {
            IconTheme::Material => IconTheme::Emoji,
            IconTheme::Emoji => IconTheme::Material,
        }
    }

    pub fn toggled(self) -> (res: IconTheme)
        ensures
            res == self.toggled_spec(),
    {
        match self {
            IconTheme::Material => IconTheme::Emoji,
            IconTheme::Emoji => IconTheme::Material,
        }
    }
}

/// The settings that are on or off.
#[derive(Clone, Copy, PartialEq, Eq, Structural, Debug)]
pub struct Flags {
    pub merged: bool,
    pub dock_right: bool,
    pub custom_editor_on_click: bool,
    pub show_hidden: bool,
    pub show_hotkeys: bool,
    pub auto_open: bool,
    pub strict_toggle: bool,
    pub focus_on_open: bool,
    pub follow_cwd: bool,
    pub git_deco: bool,
    pub show_git_footer: bool,
}

/// What the modal shows: the flags, and the values of the other settings.
pub struct Prefs {
    pub flags: Flags,
    /// The other view can be reached from this pane.
    pub other_view: bool,
    pub sidebar_width: u16,
    pub above_percent: u16,
    /// Previews open above the pane, so that their height is a setting.
    pub stacks_above: bool,
    pub theme: IconTheme,
    pub color_theme: String,
    pub preview_placement: String,
    /// The configured editor command.
    pub editor: Option<String>,
    pub follow_value: String,
    pub folder: String,
}

/// A row: the setting, its label, its current value, and whether it can be
/// changed. Rows that cannot are dimmed and do not toggle.
pub struct SettingRow {
    pub setting: Setting,
    pub label: &'static str,
    pub value: String,
    pub enabled: bool,
}

/// What a `SettingRow` holds.
pub struct RowView {
    pub setting: Setting,
    pub label: Seq<char>,
    pub value: Seq<char>,
    pub enabled: bool,
}

impl View for SettingRow {
    type V = RowView;

    open spec fn view(&self) -> RowView {
        RowView {
            setting: self.setting,
            label: self.label@,
            value: self.value@,
            enabled: self.enabled,
        }
    }
}

pub open spec fn row_views(rows: Seq<SettingRow>) -> Seq<RowView> {
    rows.map(|i: int, r: SettingRow| r@)
}

/// The columns of an editor command that its row shows at most.
pub const EDITOR_COLUMNS: usize = 24;

/// What the row of a setting is called.
pub open spec fn label_of(setting: Setting) -> Seq<char> {
    match setting {
        Setting::UnifiedSidebar => "Unified sidebar"@,
        Setting::DockRight => "Dock on the right"@,
        Setting::SidebarWidth => "Sidebar width"@,
        Setting::AbovePercent => "Above preview height"@,
        Setting::IconTheme => "Icon theme"@,
        Setting::ColorTheme => "Color theme"@,
        Setting::PreviewPlacement => "Preview opens in"@,
        Setting::CustomEditorCommand => "Custom editor..."@,
        Setting::CustomEditorClick => "Use editor on click"@,
        Setting::HiddenFiles => "Hidden files"@,
        Setting::Hotkeys => "Footer hotkeys"@,
        Setting::AutoOpen => "Auto-open sidebar"@,
        Setting::StrictToggle => "Strict toggle"@,
        Setting::FocusOnOpen => "Focus on open"@,
        Setting::FollowCwd => "Follow pane folder"@,
        Setting::GitDecorations => "Git decorations"@,
        Setting::GitFooter => "Git footer"@,
        Setting::Folder => "Change folder…"@,
    }
}

pub open spec fn on_off(on: bool) -> Seq<char> {
    if on {
        "on"@
    } else {
        "off"@
    }
}

pub open spec fn shown_hidden(shown: bool) -> Seq<char> {
    if shown {
        "shown"@
    } else {
        "hidden"@
    }
}

impl Prefs {
    /// The sidebar is unified, and the other view is there to unify with.
    pub open spec fn unified(&self) -> bool {
        self.flags.merged && self.other_view
    }

    pub fn is_unified(&self) -> (res: bool)
        ensures
            res == self.unified(),
    {
        self.flags.merged && self.other_view
    }

    /// A click on a file opens it in the configured editor.
    pub fn uses_editor_on_click(&self) -> (res: bool)
        ensures
            res == (self.flags.custom_editor_on_click && self.editor is Some),
    {
        self.flags.custom_editor_on_click && self.editor.is_some()
    }

    /// Something shows what git reports, so repositories are looked for.
    pub fn watches_repositories(&self) -> (res: bool)
        ensures
            res == (self.flags.git_deco || self.flags.show_git_footer),
    {
        self.flags.git_deco || self.flags.show_git_footer
    }

    /// The row of a setting.
    pub open spec fn row(&self, setting: Setting) -> RowView {
        match setting {
            Setting::UnifiedSidebar => RowView {
                setting,
                label: label_of(setting),
                value: on_off(self.unified()),
                enabled: self.other_view,
            },
            Setting::DockRight => RowView {
                setting,
                label: label_of(setting),
                value: on_off(self.flags.dock_right),
                enabled: true,
            },
            Setting::SidebarWidth => RowView {
                setting,
                label: label_of(setting),
                value: decimal(self.sidebar_width as nat) + " cols"@,
                enabled: true,
            },
            Setting::AbovePercent => RowView {
                setting,
                label: label_of(setting),
                value: decimal(self.above_percent as nat) + "%"@,
                enabled: self.stacks_above,
            },
            Setting::IconTheme => RowView {
                setting,
                label: label_of(setting),
                value: match self.theme {
                    IconTheme::Material => "material"@,
                    IconTheme::Emoji => "emoji"@,
                },
                enabled: true,
            },
            Setting::ColorTheme => RowView {
                setting,
                label: label_of(setting),
                value: self.color_theme@,
                enabled: true,
            },
            Setting::PreviewPlacement => RowView {
                setting,
                label: label_of(setting),
                value: self.preview_placement@,
                enabled: true,
            },
            Setting::CustomEditorCommand => RowView {
                setting,
                label: label_of(setting),
                value: match self.editor {
                    Some(command) => truncated(command@, EDITOR_COLUMNS),
                    None => "not set"@,
                },
                enabled: true,
            },
            Setting::CustomEditorClick => RowView {
                setting,
                label: label_of(setting),
                value: on_off(self.flags.custom_editor_on_click),
                enabled: self.editor is Some,
            },
            Setting::HiddenFiles => RowView {
                setting,
                label: label_of(setting),
                value: shown_hidden(self.flags.show_hidden),
                enabled: true,
            },
            Setting::Hotkeys => RowView {
                setting,
                label: label_of(setting),
                value: shown_hidden(self.flags.show_hotkeys),
                enabled: true,
            },
            Setting::AutoOpen => RowView {
                setting,
                label: label_of(setting),
                value: on_off(self.flags.auto_open),
                enabled: true,
            },
            Setting::StrictToggle => RowView {
                setting,
                label: label_of(setting),
                value: on_off(self.flags.strict_toggle),
                enabled: true,
            },
            Setting::FocusOnOpen => RowView {
                setting,
                label: label_of(setting),
                value: on_off(self.flags.focus_on_open),
                enabled: true,
            },
            Setting::FollowCwd => RowView {
                setting,
                label: label_of(setting),
                value: self.follow_value@,
                enabled: true,
            },
            Setting::GitDecorations => RowView {
                setting,
                label: label_of(setting),
                value: on_off(self.flags.git_deco),
                enabled: true,
            },
            Setting::GitFooter => RowView {
                setting,
                label: label_of(setting),
                value: shown_hidden(self.flags.show_git_footer),
                enabled: true,
            },
            Setting::Folder => RowView {
                setting,
                label: label_of(setting),
                value: self.folder@,
                enabled: true,
            },
        }
    }

    fn on_off_text(on: bool) -> (res: String)
        ensures
            res@ == on_off(on),
    {
        if on {
            "on".to_owned()
        } else {
            "off".to_owned()
        }
    }

    fn shown_text(shown: bool) -> (res: String)
        ensures
            res@ == shown_hidden(shown),
    {
        if shown {
            "shown".to_owned()
        } else {
            "hidden".to_owned()
        }
    }

    fn label(setting: Setting) -> (res: &'static str)
        ensures
            res@ == label_of(setting),
    {
        match setting {
            Setting::UnifiedSidebar => "Unified sidebar",
            Setting::DockRight => "Dock on the right",
            Setting::SidebarWidth => "Sidebar width",
            Setting::AbovePercent => "Above preview height",
            Setting::IconTheme => "Icon theme",
            Setting::ColorTheme => "Color theme",
            Setting::PreviewPlacement => "Preview opens in",
            Setting::CustomEditorCommand => "Custom editor...",
            Setting::CustomEditorClick => "Use editor on click",
            Setting::HiddenFiles => "Hidden files",
            Setting::Hotkeys => "Footer hotkeys",
            Setting::AutoOpen => "Auto-open sidebar",
            Setting::StrictToggle => "Strict toggle",
            Setting::FocusOnOpen => "Focus on open",
            Setting::FollowCwd => "Follow pane folder",
            Setting::GitDecorations => "Git decorations",
            Setting::GitFooter => "Git footer",
            Setting::Folder => "Change folder…",
        }
    }

    fn value(&self, setting: Setting) -> (res: String)
        ensures
            res@ == self.row(setting).value,
    {
        match setting {
            Setting::UnifiedSidebar => Prefs::on_off_text(self.is_unified()),
            Setting::DockRight => Prefs::on_off_text(self.flags.dock_right),
            Setting::SidebarWidth => {
                let mut out: String = String::new();
                push_decimal(&mut out, self.sidebar_width as usize);
                out.append(" cols");
                assert(out@ =~= decimal(self.sidebar_width as nat) + " cols"@);
                out
            },
            Setting::AbovePercent => {
                let mut out: String = String::new();
                push_decimal(&mut out, self.above_percent as usize);
                out.append("%");
                assert(out@ =~= decimal(self.above_percent as nat) + "%"@);
                out
            },
            Setting::IconTheme => match self.theme {
                IconTheme::Material => "material".to_owned(),
                IconTheme::Emoji => "emoji".to_owned(),
            },
            Setting::ColorTheme => self.color_theme.clone(),
            Setting::PreviewPlacement => self.preview_placement.clone(),
            Setting::CustomEditorCommand => match &self.editor {
                Some(command) => truncate_to(command.as_str(), EDITOR_COLUMNS),
                None => "not set".to_owned(),
            },
            Setting::CustomEditorClick => Prefs::on_off_text(self.flags.custom_editor_on_click),
            Setting::HiddenFiles => Prefs::shown_text(self.flags.show_hidden),
            Setting::Hotkeys => Prefs::shown_text(self.flags.show_hotkeys),
            Setting::AutoOpen => Prefs::on_off_text(self.flags.auto_open),
            Setting::StrictToggle => Prefs::on_off_text(self.flags.strict_toggle),
            Setting::FocusOnOpen => Prefs::on_off_text(self.flags.focus_on_open),
            Setting::FollowCwd => self.follow_value.clone(),
            Setting::GitDecorations => Prefs::on_off_text(self.flags.git_deco),
            Setting::GitFooter => Prefs::shown_text(self.flags.show_git_footer),
            Setting::Folder => self.folder.clone(),
        }
    }

    fn setting_row(&self, setting: Setting) -> (res: SettingRow)
        ensures
            res@ == self.row(setting),
    {
        let enabled: bool = match setting {
            Setting::UnifiedSidebar => self.other_view,
            Setting::AbovePercent => self.stacks_above,
            Setting::CustomEditorClick => self.editor.is_some(),
            _ => true,
        };
        SettingRow {
            setting,
            label: Prefs::label(setting),
            value: self.value(setting),
            enabled,
        }
    }

    /// The rows of `list`, in order.
    pub open spec fn rows_spec(&self, list: Seq<Setting>) -> Seq<RowView> {
        list.map(|i: int, s: Setting| self.row(s))
    }

    fn rows(&self, list: &Vec<Setting>) -> (res: Vec<SettingRow>)
        ensures
            row_views(res@) == self.rows_spec(list@),
    {
        let mut out: Vec<SettingRow> = Vec::new();
        let mut i: usize = 0;
        while i < list.len()
            invariant
                i <= list@.len(),
                out@.len() == i,
                forall|k: int| 0 <= k < i ==> (#[trigger] out@[k])@ == self.row(list@[k]),
            decreases list@.len() - i,
        {
            out.push(self.setting_row(list[i]));
            i += 1;
        }
        assert(row_views(out@) =~= self.rows_spec(list@));
        out
    }

    /// The rows of the explorer's settings.
    pub fn explorer_rows(&self) -> (res: Vec<SettingRow>)
        ensures
            row_views(res@) == self.rows_spec(explorer_settings()),
    {
        let list: Vec<Setting> = vec![
            Setting::UnifiedSidebar,
            Setting::DockRight,
            Setting::SidebarWidth,
            Setting::AbovePercent,
            Setting::IconTheme,
            Setting::ColorTheme,
            Setting::PreviewPlacement,
            Setting::CustomEditorCommand,
            Setting::CustomEditorClick,
            Setting::HiddenFiles,
            Setting::Hotkeys,
            Setting::AutoOpen,
            Setting::StrictToggle,
            Setting::FocusOnOpen,
            Setting::FollowCwd,
            Setting::GitDecorations,
            Setting::GitFooter,
            Setting::Folder,
        ];
        assert(list@ =~= explorer_settings());
        self.rows(&list)
    }

    /// The rows of the Source Control panel's settings.
    pub fn scm_rows(&self) -> (res: Vec<SettingRow>)
        ensures
            row_views(res@) == self.rows_spec(scm_settings()),
    {
        let list: Vec<Setting> = vec![
            Setting::UnifiedSidebar,
            Setting::DockRight,
            Setting::SidebarWidth,
            Setting::AbovePercent,
            Setting::IconTheme,
            Setting::ColorTheme,
            Setting::PreviewPlacement,
            Setting::Hotkeys,
            Setting::AutoOpen,
            Setting::StrictToggle,
            Setting::FocusOnOpen,
            Setting::FollowCwd,
            Setting::GitDecorations,
            Setting::GitFooter,
            Setting::Folder,
        ];
        assert(list@ =~= scm_settings());
        self.rows(&list)
    }
}

/// The settings that the explorer offers, in order.
pub open spec fn explorer_settings() -> Seq<Setting> {
    seq![
        Setting::UnifiedSidebar,
        Setting::DockRight,
        Setting::SidebarWidth,
        Setting::AbovePercent,
        Setting::IconTheme,
        Setting::ColorTheme,
        Setting::PreviewPlacement,
        Setting::CustomEditorCommand,
        Setting::CustomEditorClick,
        Setting::HiddenFiles,
        Setting::Hotkeys,
        Setting::AutoOpen,
        Setting::StrictToggle,
        Setting::FocusOnOpen,
        Setting::FollowCwd,
        Setting::GitDecorations,
        Setting::GitFooter,
        Setting::Folder,
    ]
}

/// The settings that the Source Control panel offers, in order: the
/// explorer's without those that are about files.
pub open spec fn scm_settings() -> Seq<Setting> {
    seq![
        Setting::UnifiedSidebar,
        Setting::DockRight,
        Setting::SidebarWidth,
        Setting::AbovePercent,
        Setting::IconTheme,
        Setting::ColorTheme,
        Setting::PreviewPlacement,
        Setting::Hotkeys,
        Setting::AutoOpen,
        Setting::StrictToggle,
        Setting::FocusOnOpen,
        Setting::FollowCwd,
        Setting::GitDecorations,
        Setting::GitFooter,
        Setting::Folder,
    ]
}

// ---- Changing settings ----

/// What changing a setting asks for beyond the flags.
#[derive(Clone, Copy, PartialEq, Eq, Structural, Debug)]
pub enum SettingStep {
    /// The row cannot be changed now, or is not there.
    Nothing,
    /// Close the modal and unify the sidebar, or take it apart.
    SetUnified(bool),
    Wider,
    Taller,
    /// Use the other icon theme.
    Icons(IconTheme),
    NextColorTheme,
    NextPlacement,
    /// Ask for the editor command.
    AskEditor,
    /// Flip this flag in the shared settings.
    Flip(Setting),
    /// Close the modal and choose a folder.
    ChooseFolder,
}

pub open spec fn setting_step(setting: Setting, unified: bool, theme: IconTheme) -> SettingStep {
    match setting {
        Setting::UnifiedSidebar => SettingStep::SetUnified(!unified),
        Setting::SidebarWidth => SettingStep::Wider,
        Setting::AbovePercent => SettingStep::Taller,
        Setting::IconTheme => SettingStep::Icons(theme.toggled_spec()),
        Setting::ColorTheme => SettingStep::NextColorTheme,
        Setting::PreviewPlacement => SettingStep::NextPlacement,
        Setting::CustomEditorCommand => SettingStep::AskEditor,
        Setting::Folder => SettingStep::ChooseFolder,
        _ => SettingStep::Flip(setting),
    }
}

/// What Enter, Space or a click on the row `index` does. A dimmed row does
/// nothing.
pub fn toggle_setting(rows: &Vec<SettingRow>, index: usize, unified: bool, theme: IconTheme) -> (res:
    SettingStep)
    ensures
        res == (if index < rows@.len() && rows@[index as int].enabled {
            setting_step(rows@[index as int].setting, unified, theme)
        } else {
            SettingStep::Nothing
        }),
{
    if index >= rows.len() || !rows[index].enabled {
        return SettingStep::Nothing;
    }
    let setting: Setting = rows[index].setting;
    match setting {
        Setting::UnifiedSidebar => SettingStep::SetUnified(!unified),
        Setting::SidebarWidth => SettingStep::Wider,
        Setting::AbovePercent => SettingStep::Taller,
        Setting::IconTheme => SettingStep::Icons(theme.toggled()),
        Setting::ColorTheme => SettingStep::NextColorTheme,
        Setting::PreviewPlacement => SettingStep::NextPlacement,
        Setting::CustomEditorCommand => SettingStep::AskEditor,
        Setting::Folder => SettingStep::ChooseFolder,
        _ => SettingStep::Flip(setting),
    }
}

/// The flags with the one of `setting` flipped; settings that are no flag
/// leave them as they are.
pub open spec fn flipped(flags: Flags, setting: Setting) -> Flags {
    match setting {
        Setting::DockRight => Flags { dock_right: !flags.dock_right, ..flags },
        Setting::CustomEditorClick => Flags {
            custom_editor_on_click: !flags.custom_editor_on_click,
            ..flags
        },
        Setting::HiddenFiles => Flags { show_hidden: !flags.show_hidden, ..flags },
        Setting::Hotkeys => Flags { show_hotkeys: !flags.show_hotkeys, ..flags },
        Setting::AutoOpen => Flags { auto_open: !flags.auto_open, ..flags },
        Setting::StrictToggle => Flags { strict_toggle: !flags.strict_toggle, ..flags },
        Setting::FocusOnOpen => Flags { focus_on_open: !flags.focus_on_open, ..flags },
        Setting::FollowCwd => Flags { follow_cwd: !flags.follow_cwd, ..flags },
        Setting::GitDecorations => Flags { git_deco: !flags.git_deco, ..flags },
        Setting::GitFooter => Flags { show_git_footer: !flags.show_git_footer, ..flags },
        _ => flags,
    }
}

pub fn flip(flags: Flags, setting: Setting) -> (res: Flags)
    ensures
        res == flipped(flags, setting),
{
    let mut out: Flags = flags;
    match setting {
        Setting::DockRight => out.dock_right = !flags.dock_right,
        Setting::CustomEditorClick => out.custom_editor_on_click = !flags.custom_editor_on_click,
        Setting::HiddenFiles => out.show_hidden = !flags.show_hidden,
        Setting::Hotkeys => out.show_hotkeys = !flags.show_hotkeys,
        Setting::AutoOpen => out.auto_open = !flags.auto_open,
        Setting::StrictToggle => out.strict_toggle = !flags.strict_toggle,
        Setting::FocusOnOpen => out.focus_on_open = !flags.focus_on_open,
        Setting::FollowCwd => out.follow_cwd = !flags.follow_cwd,
        Setting::GitDecorations => out.git_deco = !flags.git_deco,
        Setting::GitFooter => out.show_git_footer = !flags.show_git_footer,
        _ => {},
    }
    out
}

/// Toggling a setting twice leaves everything as it was.
pub proof fn law_flipping_twice_restores_the_flags(flags: Flags, setting: Setting)
    ensures
        flipped(flipped(flags, setting), setting) == flags,
{
}

// ---- Settings of other panes ----

/// What adopting the shared settings asks for.
#[derive(Clone, Copy, PartialEq, Eq, Structural, Debug)]
pub struct SharedSteps {
    /// Use the other color theme.
    pub recolor: bool,
    /// Bring the pane to its other width.
    pub resize: bool,
    /// Look for repositories anew.
    pub rediscover: bool,
    /// Take the decorations away.
    pub undecorate: bool,
}

/// The flags with those that another pane may have changed. The other view has
/// no use for the editor's.
pub open spec fn shared_flags(own: Flags, shared: Flags, editor: bool) -> Flags {
    Flags {
        dock_right: shared.dock_right,
        strict_toggle: shared.strict_toggle,
        focus_on_open: shared.focus_on_open,
        git_deco: shared.git_deco,
        show_git_footer: shared.show_git_footer,
        custom_editor_on_click: if editor {
            shared.custom_editor_on_click
        } else {
            own.custom_editor_on_click
        },
        ..own
    }
}

fn adopt_flags(own: Flags, shared: Flags, editor: bool) -> (res: Flags)
    ensures
        res == shared_flags(own, shared, editor),
{
    let mut flags: Flags = own;
    flags.dock_right = shared.dock_right;
    flags.strict_toggle = shared.strict_toggle;
    flags.focus_on_open = shared.focus_on_open;
    flags.git_deco = shared.git_deco;
    flags.show_git_footer = shared.show_git_footer;
    if editor {
        flags.custom_editor_on_click = shared.custom_editor_on_click;
    }
    flags
}

impl Prefs {
    /// What another pane's settings ask for here.
    pub open spec fn steps_to(&self, shared: Prefs) -> SharedSteps {
        let repos = self.flags.git_deco != shared.flags.git_deco || self.flags.show_git_footer
            != shared.flags.show_git_footer;
        SharedSteps {
            recolor: self.color_theme@ != shared.color_theme@,
            resize: self.sidebar_width != shared.sidebar_width,
            rediscover: repos,
            undecorate: repos && !shared.flags.git_deco,
        }
    }

    /// Adopt what another pane has changed in the shared settings; how this pane
    /// is unified, and the rest, stays its own.
    pub fn adopt_shared(&mut self, shared: &Prefs, editor: bool) -> (res: SharedSteps)
        ensures
            res == old(self).steps_to(*shared),
            final(self).color_theme@ == shared.color_theme@,
            *final(self) == (Prefs {
                flags: shared_flags(old(self).flags, shared.flags, editor),
                sidebar_width: shared.sidebar_width,
                color_theme: final(self).color_theme,
                ..*old(self)
            }),
    {
        let repos: bool = self.flags.git_deco != shared.flags.git_deco
            || self.flags.show_git_footer != shared.flags.show_git_footer;
        let recolor: bool = !crate::text::str_eq(
            self.color_theme.as_str(),
            shared.color_theme.as_str(),
        );
        let resize: bool = self.sidebar_width != shared.sidebar_width;
        self.flags = adopt_flags(self.flags, shared.flags, editor);
        self.color_theme = shared.color_theme.clone();
        self.sidebar_width = shared.sidebar_width;
        SharedSteps {
            recolor,
            resize,
            rediscover: repos,
            undecorate: repos && !shared.flags.git_deco,
        }
    }
}

/// Once adopted, the shared settings ask for nothing more.
pub proof fn law_adopting_settings_settles(own: Prefs, shared: Prefs, after: Prefs, editor: bool)
    requires
        after.flags == shared_flags(own.flags, shared.flags, editor),
        after.sidebar_width == shared.sidebar_width,
        after.color_theme@ == shared.color_theme@,
    ensures
        after.steps_to(shared) == (SharedSteps {
            recolor: false,
            resize: false,
            rediscover: false,
            undecorate: false,
        }),
{
}

// ---- Keys ----

/// What a key does in the settings.
#[derive(Clone, Copy, PartialEq, Eq, Structural, Debug)]
pub enum SettingsKey {
    Nothing,
    Close,
    Select(usize),
    AdjustWidth(bool),
    AdjustAbovePercent(bool),
    Toggle(usize),
}

/// The arrow keys adjust the width, and the preview height while it is live.
pub open spec fn arrow_step(rows: Seq<SettingRow>, selected: usize, up: bool) -> SettingsKey {
    if selected < rows.len() && rows[selected as int].setting == Setting::SidebarWidth {
        SettingsKey::AdjustWidth(up)
    } else if selected < rows.len() && rows[selected as int].setting == Setting::AbovePercent
        && rows[selected as int].enabled {
        SettingsKey::AdjustAbovePercent(up)
    } else {
        SettingsKey::Nothing
    }
}

pub open spec fn settings_key_spec(rows: Seq<SettingRow>, selected: usize, key: Key) -> SettingsKey {
    let up = SettingsKey::Select(
        if selected > 0 {
            (selected - 1) as usize
        } else {
            0
        },
    );
    let down = SettingsKey::Select(
        if selected + 1 < rows.len() {
            (selected + 1) as usize
        } else if rows.len() > 0 {
            (rows.len() - 1) as usize
        } else {
            0
        },
    );
    match key.code {
        KeyCode::Esc => SettingsKey::Close,
        KeyCode::Up => up,
        KeyCode::Down => down,
        KeyCode::Left => arrow_step(rows, selected, false),
        KeyCode::Right => arrow_step(rows, selected, true),
        KeyCode::Enter => SettingsKey::Toggle(selected),
        KeyCode::Char(c) => if c == 'q' || c == 's' {
            SettingsKey::Close
        } else if c == 'k' {
            up
        } else if c == 'j' {
            down
        } else if c == 'h' {
            arrow_step(rows, selected, false)
        } else if c == 'l' {
            arrow_step(rows, selected, true)
        } else if c == ' ' {
            SettingsKey::Toggle(selected)
        } else {
            SettingsKey::Nothing
        },
        _ => SettingsKey::Nothing,
    }
}

fn arrow(rows: &Vec<SettingRow>, selected: usize, up: bool) -> (res: SettingsKey)
    ensures
        res == arrow_step(rows@, selected, up),
{
    if selected >= rows.len() {
        return SettingsKey::Nothing;
    }
    if rows[selected].setting == Setting::SidebarWidth {
        SettingsKey::AdjustWidth(up)
    } else if rows[selected].setting == Setting::AbovePercent && rows[selected].enabled {
        SettingsKey::AdjustAbovePercent(up)
    } else {
        SettingsKey::Nothing
    }
}

pub fn settings_key(rows: &Vec<SettingRow>, selected: usize, key: Key) -> (res: SettingsKey)
    ensures
        res == settings_key_spec(rows@, selected, key),
{
    let count: usize = rows.len();
    let up: SettingsKey = SettingsKey::Select(selected.saturating_sub(1));
    let down: SettingsKey = SettingsKey::Select(
        if count > 0 && selected < count - 1 {
            selected + 1
        } else if count > 0 {
            count - 1
        } else {
            0
        },
    );
    match key.code {
        KeyCode::Esc => SettingsKey::Close,
        KeyCode::Up => up,
        KeyCode::Down => down,
        KeyCode::Left => arrow(rows, selected, false),
        KeyCode::Right => arrow(rows, selected, true),
        KeyCode::Enter => SettingsKey::Toggle(selected),
        KeyCode::Char(c) => if c == 'q' || c == 's' {
            SettingsKey::Close
        } else if c == 'k' {
            up
        } else if c == 'j' {
            down
        } else if c == 'h' {
            arrow(rows, selected, false)
        } else if c == 'l' {
            arrow(rows, selected, true)
        } else if c == ' ' {
            SettingsKey::Toggle(selected)
        } else {
            SettingsKey::Nothing
        },
        _ => SettingsKey::Nothing,
    }
}

/// A dimmed row does not move, neither on Enter nor on an arrow key.
pub proof fn law_dimmed_rows_do_not_move(rows: Seq<SettingRow>, selected: usize, up: bool)
    requires
        selected < rows.len(),
        rows[selected as int].setting == Setting::AbovePercent,
        !rows[selected as int].enabled,
    ensures
        arrow_step(rows, selected, up) == SettingsKey::Nothing,
{
}

/// The columns that the widest row asks for, at least thirty.
pub open spec fn wanted_width(rows: Seq<SettingRow>, n: int) -> nat
    decreases n,
{
    if n <= 0 {
        30
    } else {
        let before = wanted_width(rows, n - 1);
        let own = rows[n - 1].label@.len() + rows[n - 1].value@.len() + 5;
        if own > before {
            own
        } else {
            before
        }
    }
}

pub fn desired_width(rows: &Vec<SettingRow>) -> (res: usize)
    requires
        forall|i: int|
            0 <= i < rows@.len() ==> (#[trigger] rows@[i]).label@.len() + rows@[i].value@.len() + 5
                <= usize::MAX,
    ensures
        res == wanted_width(rows@, rows@.len() as int),
{
    let mut best: usize = 30;
    let mut i: usize = 0;
    while i < rows.len()
        invariant
            i <= rows@.len(),
            best == wanted_width(rows@, i as int),
            forall|k: int|
                0 <= k < rows@.len() ==> (#[trigger] rows@[k]).label@.len() + rows@[k].value@.len()
                    + 5 <= usize::MAX,
        decreases rows@.len() - i,
    {
        assert(rows@[i as int].label@.len() + rows@[i as int].value@.len() + 5 <= usize::MAX);
        let own: usize = rows[i].label.unicode_len() + rows[i].value.as_str().unicode_len() + 5;
        if own > best {
            best = own;
        }
        i += 1;
    }
    best
}

/// The text of a row in a popup whose inside is `width` columns wide: the
/// label at the left, the value at the right, at least one space between.
pub open spec fn row_text_spec(label: Seq<char>, value: Seq<char>, width: nat) -> Seq<char> {
    let used = label.len() + value.len() + 2;
    let pad = if width > used {
        (width - used) as nat
    } else {
        1
    };
    " "@ + label + Seq::new(pad, |i: int| ' ') + value + " "@
}

pub fn row_text(row: &SettingRow, width: usize) -> (res: String)
    requires
        row.label@.len() + row.value@.len() + 2 <= usize::MAX,
    ensures
        res@ == row_text_spec(row.label@, row.value@, width as nat),
{
    let used: usize = row.label.unicode_len() + row.value.as_str().unicode_len() + 2;
    let pad: usize = if width > used {
        width - used
    } else {
        1
    };
    let mut out: String = " ".to_owned();
    out.append(row.label);
    let ghost head: Seq<char> = out@;
    let mut i: usize = 0;
    assert(head + Seq::new(0, |k: int| ' ') =~= head);
    while i < pad
        invariant
            i <= pad,
            out@ == head + Seq::new(i as nat, |k: int| ' '),
        decreases pad - i,
    {
        out.push(' ');
        i += 1;
        assert(out@ =~= head + Seq::new(i as nat, |k: int| ' '));
    }
    out.append(row.value.as_str());
    out.append(" ");
    assert(out@ =~= row_text_spec(row.label@, row.value@, width as nat));
    out
}

} // verus!
