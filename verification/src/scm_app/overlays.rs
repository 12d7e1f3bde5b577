//! Keys and mouse events while a menu, a prompt or the settings are open, and
//! the entry point for every key press.

use vstd::prelude::*;

use crate::git::FileEntry;
use crate::input::{Key, KeyCode, Mouse};
use crate::popup::{
    menu_key, menu_key_spec, menu_mouse, menu_mouse_spec, settings_mouse, settings_mouse_spec,
    MenuKey, MenuMouse, SettingsMouse,
};
use crate::scm_app::app::{
    flash_is, key_command, key_command_spec, list_command_spec, App, Effect, KeyCommand, MenuTarget,
    Overlay,
};
use crate::scm_app::drawer::Drawer;
use crate::scm_app::menu::{
    action_flags, drawer_command, drawer_menu_action, DrawerCommand, DrawerCommandView, MenuAction,
    MenuEntry,
};
use crate::settings::{settings_key, settings_key_spec, SettingRow, SettingStep, SettingsKey};
use crate::text::string_views;
use crate::view::{Exit, ViewKind};

verus! {

pub fn flags_of(entries: &Vec<MenuEntry>) -> (res: Vec<bool>)
    ensures
        res@ == action_flags(entries@),
{
    let mut flags: Vec<bool> = Vec::new();
    let mut i: usize = 0;
    while i < entries.len()
        invariant
            i <= entries@.len(),
            flags@.len() == i,
            forall|k: int| 0 <= k < i ==> flags@[k] == (entries@[k] is Action),
        decreases entries@.len() - i,
    {
        flags.push(matches!(entries[i], MenuEntry::Action(..)));
        i += 1;
    }
    assert(flags@ =~= action_flags(entries@));
    flags
}

/// `y` or `Y`: the only answers that confirm.
pub open spec fn confirms(key: Key) -> bool {
    key.code == KeyCode::Char('y') || key.code == KeyCode::Char('Y')
}

pub fn is_confirmed(key: Key) -> (res: bool)
    ensures
        res == confirms(key),
{
    key.code == KeyCode::Char('y') || key.code == KeyCode::Char('Y')
}

impl App {
    // ---- Menu entries ----

    /// What an action of a file's menu does.
    pub open spec fn file_action_rel(
        &self,
        action: MenuAction,
        repo: usize,
        entry: FileEntry,
        staged: bool,
        post: &App,
        out: Seq<Effect>,
    ) -> bool {
        match action {
            MenuAction::StageOrUnstage => if repo >= self.panel.repos@.len() {
                &&& *post == (App { flash: post.flash, ..*self })
                &&& flash_is(post.flash, "repository is gone"@, true)
                &&& out == seq![Effect::Refresh]
            } else {
                &&& *post == *self
                &&& out == (if staged {
                    seq![Effect::Unstage { repo, entry }, Effect::Refresh]
                } else {
                    seq![Effect::Stage { repo, entry }, Effect::Refresh]
                })
            },
            MenuAction::OpenDiff => self.diff_rel(repo, entry, staged, false, post, out),
            MenuAction::Discard => {
                &&& *post == (App { overlay: post.overlay, ..*self })
                &&& post.overlay == Some(Overlay::ConfirmDiscard { repo, entry })
                &&& out.len() == 0
            },
            MenuAction::CopyPath => *post == *self && out == seq![
                Effect::CopyPath { repo, entry, absolute: true },
            ],
            MenuAction::CopyRelativePath => *post == *self && out == seq![
                Effect::CopyPath { repo, entry, absolute: false },
            ],
            MenuAction::Reveal => *post == *self && out == seq![
                Effect::RevealFile { repo, entry },
            ],
            MenuAction::OpenExternal => *post == *self && out == seq![
                Effect::OpenExternal { repo, entry },
            ],
            _ => *post == *self && out.len() == 0,
        }
    }

    pub fn file_menu_action(
        &mut self,
        action: MenuAction,
        repo: usize,
        entry: FileEntry,
        staged: bool,
    ) -> (res: Vec<Effect>)
        requires
            old(self).wf(),
        ensures
            final(self).wf(),
            old(self).file_action_rel(action, repo, entry, staged, final(self), res@),
    {
        let out: Vec<Effect> = match action {
            MenuAction::StageOrUnstage => if repo >= self.panel.repos.len() {
                self.flash = Some(("repository is gone".to_owned(), true));
                let out: Vec<Effect> = vec![Effect::Refresh];
                assert(out@ =~= seq![Effect::Refresh]);
                out
            } else if staged {
                let out: Vec<Effect> = vec![Effect::Unstage { repo, entry }, Effect::Refresh];
                assert(out@ =~= seq![Effect::Unstage { repo, entry }, Effect::Refresh]);
                out
            } else {
                let out: Vec<Effect> = vec![Effect::Stage { repo, entry }, Effect::Refresh];
                assert(out@ =~= seq![Effect::Stage { repo, entry }, Effect::Refresh]);
                out
            },
            MenuAction::OpenDiff => self.open_diff(repo, entry, staged, false),
            MenuAction::Discard => {
                self.overlay = Some(Overlay::ConfirmDiscard { repo, entry });
                Vec::new()
            },
            MenuAction::CopyPath => {
                let out: Vec<Effect> = vec![Effect::CopyPath { repo, entry, absolute: true }];
                assert(out@ =~= seq![Effect::CopyPath { repo, entry, absolute: true }]);
                out
            },
            MenuAction::CopyRelativePath => {
                let out: Vec<Effect> = vec![Effect::CopyPath { repo, entry, absolute: false }];
                assert(out@ =~= seq![Effect::CopyPath { repo, entry, absolute: false }]);
                out
            },
            MenuAction::Reveal => {
                let out: Vec<Effect> = vec![Effect::RevealFile { repo, entry }];
                assert(out@ =~= seq![Effect::RevealFile { repo, entry }]);
                out
            },
            MenuAction::OpenExternal => {
                let out: Vec<Effect> = vec![Effect::OpenExternal { repo, entry }];
                assert(out@ =~= seq![Effect::OpenExternal { repo, entry }]);
                out
            },
            _ => Vec::new(),
        };
        out
    }

    /// What an action of a drawer line's menu does; it acts on the active
    /// repository.
    pub open spec fn drawer_action_rel(
        &self,
        action: MenuAction,
        kind: Drawer,
        index: usize,
        post: &App,
        out: Seq<Effect>,
    ) -> bool {
        let refs = self.panel.drawers@[kind.index_spec()].refs@;
        if index >= refs.len() {
            *post == *self && out.len() == 0
        } else {
            match drawer_command(action, refs[index as int]@) {
                DrawerCommandView::Ignore => *post == *self && out.len() == 0,
                DrawerCommandView::Show => self.ref_rel(kind, index, false, post, out),
                DrawerCommandView::Reveal(path) => *post == *self && out.len() == 1
                    && (out[0] matches Effect::RevealFolder(p) && p@ == path),
                DrawerCommandView::Copy(text) => *post == *self && out.len() == 1
                    && (out[0] matches Effect::Copy(t) && t@ == text),
                DrawerCommandView::Run(args) => *post == *self && out.len() == 1
                    && (out[0] matches Effect::RunGit { repo, args: a } && repo
                    == self.panel.active && string_views(a@) == args),
                DrawerCommandView::Confirm { prompt, args } => {
                    &&& *post == (App { overlay: post.overlay, ..*self })
                    &&& post.overlay matches Some(Overlay::ConfirmGit { repo, prompt: p, args: a })
                        && repo == self.panel.active && p@ == prompt && string_views(a@) == args
                    &&& out.len() == 0
                },
            }
        }
    }

    pub fn drawer_action(&mut self, action: MenuAction, kind: Drawer, index: usize) -> (res: Vec<
        Effect,
    >)
        requires
            old(self).wf(),
        ensures
            final(self).wf(),
            old(self).drawer_action_rel(action, kind, index, final(self), res@),
    {
        let k: usize = kind.index();
        if index >= self.panel.drawers[k].refs.len() {
            return Vec::new();
        }
        let repo: usize = self.panel.active;
        let command: DrawerCommand = drawer_menu_action(action, &self.panel.drawers[k].refs[index]);
        match command {
            DrawerCommand::Ignore => Vec::new(),
            DrawerCommand::Show => self.open_drawer_ref(kind, index, false),
            DrawerCommand::Reveal(path) => vec![Effect::RevealFolder(path)],
            DrawerCommand::Copy(text) => vec![Effect::Copy(text)],
            DrawerCommand::Run(args) => vec![Effect::RunGit { repo, args }],
            DrawerCommand::Confirm { prompt, args } => {
                self.overlay = Some(Overlay::ConfirmGit { repo, prompt, args });
                Vec::new()
            },
        }
    }

    /// The chosen entry of an open menu: the menu closes, and its action runs.
    pub open spec fn activate_menu_rel(&self, post: &App, out: Seq<Effect>) -> bool {
        let closed = App { overlay: None, ..*self };
        match self.overlay {
            Some(Overlay::Menu { x, y, target, entries, selected, rect }) => if selected
                < entries@.len() {
                match entries@[selected as int] {
                    MenuEntry::Action(action, label) => match target {
                        MenuTarget::File { repo, entry, staged } => closed.file_action_rel(
                            action,
                            repo,
                            entry,
                            staged,
                            post,
                            out,
                        ),
                        MenuTarget::Drawer { kind, index } => closed.drawer_action_rel(
                            action,
                            kind,
                            index,
                            post,
                            out,
                        ),
                    },
                    MenuEntry::Separator => *post == closed && out.len() == 0,
                }
            } else {
                *post == closed && out.len() == 0
            },
            _ => *post == closed && out.len() == 0,
        }
    }

    pub fn activate_menu_entry(&mut self) -> (res: Vec<Effect>)
        requires
            old(self).wf(),
        ensures
            final(self).wf(),
            old(self).activate_menu_rel(final(self), res@),
    {
        let taken: Option<Overlay> = self.overlay.take();
        match taken {
            Some(Overlay::Menu { target, entries, selected, .. }) => {
                if selected >= entries.len() {
                    return Vec::new();
                }
                match entries[selected] {
                    MenuEntry::Action(action, _) => match target {
                        MenuTarget::File { repo, entry, staged } => self.file_menu_action(
                            action,
                            repo,
                            entry,
                            staged,
                        ),
                        MenuTarget::Drawer { kind, index } => self.drawer_action(
                            action,
                            kind,
                            index,
                        ),
                    },
                    MenuEntry::Separator => Vec::new(),
                }
            },
            _ => Vec::new(),
        }
    }

    // ---- Keys ----

    /// The menu with another entry selected.
    pub open spec fn menu_at(&self, i: usize) -> Option<Overlay> {
        match self.overlay {
            Some(Overlay::Menu { x, y, target, entries, selected, rect }) => Some(
                Overlay::Menu { x, y, target, entries, selected: i, rect },
            ),
            Some(Overlay::Settings { selected, rect, scroll }) => Some(
                Overlay::Settings { selected: i, rect, scroll },
            ),
            other => other,
        }
    }

    /// What a key does while an overlay is open. Prompts run their command on
    /// `y` alone and are dropped on any other key.
    pub open spec fn overlay_key_rel(
        &self,
        rows: Seq<SettingRow>,
        key: Key,
        post: &App,
        out: Seq<Effect>,
    ) -> bool {
        let closed = App { overlay: None, ..*self };
        match self.overlay {
            None => *post == *self && out.len() == 0,
            Some(Overlay::BranchPicker) => *post == *self && out == seq![Effect::ToPicker],
            Some(Overlay::Menu { x, y, target, entries, selected, rect }) => match menu_key_spec(
                action_flags(entries@),
                selected,
                key,
            ) {
                MenuKey::Nothing => *post == *self && out.len() == 0,
                MenuKey::Close => *post == closed && out.len() == 0,
                MenuKey::Select(i) => *post == (App { overlay: self.menu_at(i), ..*self })
                    && out.len() == 0,
                MenuKey::Activate => self.activate_menu_rel(post, out),
            },
            Some(Overlay::Settings { selected, rect, scroll }) => match settings_key_spec(
                rows,
                selected,
                key,
            ) {
                SettingsKey::Nothing => *post == *self && out.len() == 0,
                SettingsKey::Close => *post == closed && out.len() == 0,
                SettingsKey::Select(i) => *post == (App { overlay: self.menu_at(i), ..*self })
                    && out.len() == 0,
                SettingsKey::AdjustWidth(wider) => *post == *self && out == seq![
                    Effect::AdjustWidth(wider),
                ],
                SettingsKey::AdjustAbovePercent(taller) => *post == *self && out == seq![
                    Effect::AdjustAbovePercent(taller),
                ],
                SettingsKey::Toggle(i) => *post == *self && out == seq![Effect::ToggleSetting(i)],
            },
            Some(Overlay::ConfirmDiscard { repo, entry }) => *post == closed && out == (if confirms(
                key,
            ) {
                seq![Effect::Discard { repo, entry }, Effect::Refresh]
            } else {
                Seq::empty()
            }),
            Some(Overlay::ConfirmDiscardAll { repo }) => *post == closed && out == (if confirms(
                key,
            ) {
                seq![Effect::DiscardAll(repo)]
            } else {
                Seq::empty()
            }),
            Some(Overlay::ConfirmGit { repo, prompt, args }) => *post == closed && out == (
            if confirms(key) {
                seq![Effect::RunGit { repo, args }]
            } else {
                Seq::empty()
            }),
        }
    }

    pub fn overlay_key(&mut self, rows: &Vec<SettingRow>, key: Key) -> (res: Vec<Effect>)
        requires
            old(self).wf(),
        ensures
            final(self).wf(),
            old(self).overlay_key_rel(rows@, key, final(self), res@),
    {
        let taken: Option<Overlay> = self.overlay.take();
        match taken {
            None => Vec::new(),
            Some(Overlay::BranchPicker) => {
                self.overlay = Some(Overlay::BranchPicker);
                let out: Vec<Effect> = vec![Effect::ToPicker];
                assert(out@ =~= seq![Effect::ToPicker]);
                out
            },
            Some(Overlay::Menu { x, y, target, entries, selected, rect }) => {
                let flags: Vec<bool> = flags_of(&entries);
                let step: MenuKey = menu_key(&flags, selected, key);
                match step {
                    MenuKey::Nothing => {
                        self.overlay = Some(
                            Overlay::Menu { x, y, target, entries, selected, rect },
                        );
                        Vec::new()
                    },
                    MenuKey::Close => Vec::new(),
                    MenuKey::Select(i) => {
                        self.overlay = Some(
                            Overlay::Menu { x, y, target, entries, selected: i, rect },
                        );
                        Vec::new()
                    },
                    MenuKey::Activate => {
                        self.overlay = Some(
                            Overlay::Menu { x, y, target, entries, selected, rect },
                        );
                        assert(*self == *old(self));
                        self.activate_menu_entry()
                    },
                }
            },
            Some(Overlay::Settings { selected, rect, scroll }) => {
                let step: SettingsKey = settings_key(rows, selected, key);
                if step == SettingsKey::Close {
                    return Vec::new();
                }
                let at: usize = match step {
                    SettingsKey::Select(i) => i,
                    _ => selected,
                };
                self.overlay = Some(Overlay::Settings { selected: at, rect, scroll });
                match step {
                    SettingsKey::AdjustWidth(wider) => {
                        let out: Vec<Effect> = vec![Effect::AdjustWidth(wider)];
                        assert(out@ =~= seq![Effect::AdjustWidth(wider)]);
                        out
                    },
                    SettingsKey::AdjustAbovePercent(taller) => {
                        let out: Vec<Effect> = vec![Effect::AdjustAbovePercent(taller)];
                        assert(out@ =~= seq![Effect::AdjustAbovePercent(taller)]);
                        out
                    },
                    SettingsKey::Toggle(i) => {
                        let out: Vec<Effect> = vec![Effect::ToggleSetting(i)];
                        assert(out@ =~= seq![Effect::ToggleSetting(i)]);
                        out
                    },
                    _ => Vec::new(),
                }
            },
            Some(Overlay::ConfirmDiscard { repo, entry }) => {
                if is_confirmed(key) {
                    let out: Vec<Effect> = vec![Effect::Discard { repo, entry }, Effect::Refresh];
                    assert(out@ =~= seq![Effect::Discard { repo, entry }, Effect::Refresh]);
                    out
                } else {
                    let out: Vec<Effect> = Vec::new();
                    assert(out@ =~= Seq::empty());
                    out
                }
            },
            Some(Overlay::ConfirmDiscardAll { repo }) => {
                if is_confirmed(key) {
                    let out: Vec<Effect> = vec![Effect::DiscardAll(repo)];
                    assert(out@ =~= seq![Effect::DiscardAll(repo)]);
                    out
                } else {
                    let out: Vec<Effect> = Vec::new();
                    assert(out@ =~= Seq::empty());
                    out
                }
            },
            Some(Overlay::ConfirmGit { repo, prompt, args }) => {
                if is_confirmed(key) {
                    let out: Vec<Effect> = vec![Effect::RunGit { repo, args }];
                    assert(out@ =~= seq![Effect::RunGit { repo, args }]);
                    out
                } else {
                    let out: Vec<Effect> = Vec::new();
                    assert(out@ =~= Seq::empty());
                    out
                }
            },
        }
    }

    /// What a mouse event does while an overlay is open. Prompts take no
    /// clicks.
    pub open spec fn overlay_mouse_rel(
        &self,
        rows: nat,
        mouse: Mouse,
        post: &App,
        out: Seq<Effect>,
    ) -> bool {
        let closed = App { overlay: None, ..*self };
        match self.overlay {
            Some(Overlay::BranchPicker) => *post == *self && out == seq![Effect::ToPicker],
            Some(Overlay::Settings { selected, rect, scroll }) => match settings_mouse_spec(
                rect,
                scroll,
                rows as usize,
                mouse,
            ) {
                SettingsMouse::Nothing => *post == *self && out.len() == 0,
                SettingsMouse::Point(i) => *post == (App { overlay: self.menu_at(i), ..*self })
                    && out.len() == 0,
                SettingsMouse::Toggle(i) => *post == (App { overlay: self.menu_at(i), ..*self })
                    && out == seq![Effect::ToggleSetting(i)],
                SettingsMouse::Close => *post == closed && out.len() == 0,
            },
            Some(Overlay::Menu { x, y, target, entries, selected, rect }) => match menu_mouse_spec(
                rect,
                action_flags(entries@),
                mouse,
            ) {
                MenuMouse::Nothing => *post == *self && out.len() == 0,
                MenuMouse::Point(i) => *post == (App { overlay: self.menu_at(i), ..*self })
                    && out.len() == 0,
                MenuMouse::Activate(i) => (App {
                    overlay: self.menu_at(i),
                    ..*self
                }).activate_menu_rel(post, out),
                MenuMouse::Close => *post == closed && out.len() == 0,
                MenuMouse::Reopen(mx, my) => closed.context_rel(mx, my, post, out),
            },
            _ => *post == *self && out.len() == 0,
        }
    }

    pub fn overlay_mouse(&mut self, rows: usize, mouse: Mouse) -> (res: Vec<Effect>)
        requires
            old(self).wf(),
        ensures
            final(self).wf(),
            old(self).overlay_mouse_rel(rows as nat, mouse, final(self), res@),
    {
        let taken: Option<Overlay> = self.overlay.take();
        match taken {
            Some(Overlay::Settings { selected, rect, scroll }) => {
                let step: SettingsMouse = settings_mouse(rect, scroll, rows, mouse);
                match step {
                    SettingsMouse::Nothing => {
                        self.overlay = Some(Overlay::Settings { selected, rect, scroll });
                        Vec::new()
                    },
                    SettingsMouse::Point(i) => {
                        self.overlay = Some(Overlay::Settings { selected: i, rect, scroll });
                        Vec::new()
                    },
                    SettingsMouse::Toggle(i) => {
                        self.overlay = Some(Overlay::Settings { selected: i, rect, scroll });
                        let out: Vec<Effect> = vec![Effect::ToggleSetting(i)];
                        assert(out@ =~= seq![Effect::ToggleSetting(i)]);
                        out
                    },
                    SettingsMouse::Close => Vec::new(),
                }
            },
            Some(Overlay::Menu { x, y, target, entries, selected, rect }) => {
                let flags: Vec<bool> = flags_of(&entries);
                let step: MenuMouse = menu_mouse(rect, &flags, mouse);
                match step {
                    MenuMouse::Nothing => {
                        self.overlay = Some(
                            Overlay::Menu { x, y, target, entries, selected, rect },
                        );
                        Vec::new()
                    },
                    MenuMouse::Point(i) => {
                        self.overlay = Some(
                            Overlay::Menu { x, y, target, entries, selected: i, rect },
                        );
                        Vec::new()
                    },
                    MenuMouse::Activate(i) => {
                        self.overlay = Some(
                            Overlay::Menu { x, y, target, entries, selected: i, rect },
                        );
                        self.activate_menu_entry()
                    },
                    MenuMouse::Close => Vec::new(),
                    MenuMouse::Reopen(mx, my) => self.open_context_menu(mx, my),
                }
            },
            Some(Overlay::BranchPicker) => {
                self.overlay = Some(Overlay::BranchPicker);
                let out: Vec<Effect> = vec![Effect::ToPicker];
                assert(out@ =~= seq![Effect::ToPicker]);
                out
            },
            other => {
                self.overlay = other;
                Vec::new()
            },
        }
    }

    /// Settings that change the panes or ask for a folder close the modal.
    pub fn setting_chosen(&mut self, step: SettingStep)
        ensures
            *final(self) == (App {
                overlay: if step is SetUnified || step is ChooseFolder {
                    None
                } else {
                    old(self).overlay
                },
                ..*old(self)
            }),
    {
        match step {
            SettingStep::SetUnified(_) => {
                self.overlay = None;
            },
            SettingStep::ChooseFolder => {
                self.overlay = None;
            },
            _ => {},
        }
    }

    // ---- Every key ----

    /// What a key press does in the panel.
    pub open spec fn key_rel(
        &self,
        rows: Seq<SettingRow>,
        key: Key,
        post: &App,
        out: Seq<Effect>,
        exit: Option<Exit>,
    ) -> bool {
        let calm = App { flash: None, ..*self };
        let bare = App { flash: None, overlay: None, ..*self };
        match key_command_spec(key, self.merged, self.overlay is Some, self.focus) {
            KeyCommand::Ignore => *post == *self && out.len() == 0 && exit is None,
            KeyCommand::Close => *post == *self && out == seq![Effect::Close { snooze: false }]
                && exit is None,
            KeyCommand::QuickOpen => *post == calm && out == seq![
                Effect::ShareView { view: ViewKind::Explorer, search: false },
            ] && exit == Some(Exit::QuickOpen),
            KeyCommand::Switch(view) => *post == bare && (out, exit) == self.switch_out(view),
            KeyCommand::Search => *post == bare && (out, exit) == self.search_out(false),
            KeyCommand::ToOverlay => calm.overlay_key_rel(rows, key, post, out) && exit is None,
            KeyCommand::Find => *post == calm && (out, exit) == self.search_out(true),
            KeyCommand::ToMessage => calm.message_key_rel(key, post, out) && exit is None,
            KeyCommand::ToButton => calm.button_key_rel(key, post, out) && exit is None,
            KeyCommand::ToList => calm.list_rel(list_command_spec(key.code), post, out, exit),
        }
    }

    /// Handle one key press; an exit ends the event loop. `rows` are the rows
    /// of the settings as they are now.
    pub fn on_key(&mut self, rows: &Vec<SettingRow>, key: Key) -> (res: (Vec<Effect>, Option<Exit>))
        requires
            old(self).wf(),
        ensures
            final(self).wf(),
            old(self).key_rel(rows@, key, final(self), res.0@, res.1),
    {
        let command: KeyCommand = key_command(
            key,
            self.merged,
            self.overlay.is_some(),
            self.focus,
        );
        match command {
            KeyCommand::Ignore => (Vec::new(), None),
            KeyCommand::Close => {
                let out: Vec<Effect> = vec![Effect::Close { snooze: false }];
                assert(out@ =~= seq![Effect::Close { snooze: false }]);
                (out, None)
            },
            KeyCommand::QuickOpen => {
                self.flash = None;
                let out: Vec<Effect> = vec![
                    Effect::ShareView { view: ViewKind::Explorer, search: false },
                ];
                assert(out@ =~= seq![
                    Effect::ShareView { view: ViewKind::Explorer, search: false },
                ]);
                (out, Some(Exit::QuickOpen))
            },
            KeyCommand::Switch(view) => {
                self.flash = None;
                self.overlay = None;
                self.switch_to(view)
            },
            KeyCommand::Search => {
                self.flash = None;
                self.overlay = None;
                self.open_search(false)
            },
            KeyCommand::ToOverlay => {
                self.flash = None;
                (self.overlay_key(rows, key), None)
            },
            KeyCommand::Find => {
                self.flash = None;
                self.open_search(true)
            },
            KeyCommand::ToMessage => {
                self.flash = None;
                (self.on_message_key(key), None)
            },
            KeyCommand::ToButton => {
                self.flash = None;
                (self.on_button_key(key), None)
            },
            KeyCommand::ToList => {
                self.flash = None;
                self.on_list_key(key)
            },
        }
    }
}

/// A prompt that guards a loss runs nothing unless it is answered with `y`.
pub proof fn law_prompts_run_on_yes_alone(
    app: App,
    rows: Seq<SettingRow>,
    key: Key,
    post: App,
    out: Seq<Effect>,
)
    requires
        app.overlay matches Some(o) && (o is ConfirmDiscard || o is ConfirmDiscardAll
            || o is ConfirmGit),
        !confirms(key),
        app.overlay_key_rel(rows, key, &post, out),
    ensures
        out.len() == 0,
        post.overlay is None,
        post.panel == app.panel,
{
}

/// `Esc` never ends the panel: it closes what is open, or the preview.
pub proof fn law_escape_never_leaves_the_panel(
    app: App,
    rows: Seq<SettingRow>,
    key: Key,
    post: App,
    out: Seq<Effect>,
    exit: Option<Exit>,
)
    requires
        key.code == KeyCode::Esc,
        app.key_rel(rows, key, &post, out, exit),
    ensures
        exit is None,
        forall|i: int| 0 <= i < out.len() ==> !((#[trigger] out[i]) is Close),
{
}

} // verus!
