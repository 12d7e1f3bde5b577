//! What each key press does in the Explorer.

use crate::actions::menu::MenuEntry;
use crate::explorer_app::app::{
    asked, just, key_command, key_command_spec, list_command, list_command_spec, nothing, one,
    App, Effect, EffectView, KeyCommand, ListCommand, Overlay,
};
use crate::explorer_app::panel::{SearchCommand, SearchFocus, SearchPanel};
use crate::explorer_app::quick_open::{QuickCommand, QuickOpen};
use crate::input::{Key, KeyCode};
use crate::menu_nav::{step_over, stepped};
use crate::popup::{menu_key, menu_key_spec, MenuKey};
use crate::scm_app::overlays::{confirms, is_confirmed};
use crate::settings::{settings_key, settings_key_spec, SettingRow, SettingsKey};
use crate::text::{shorten, shortened};
use crate::view::{Exit, ViewKind};
use vstd::prelude::*;

verus! {

/// Which entries of a menu can be chosen.
pub open spec fn action_flags(entries: Seq<MenuEntry>) -> Seq<bool> {
    entries.map(|i: int, e: MenuEntry| e is Action)
}

pub fn flags_of(entries: &Vec<MenuEntry>) -> (res: Vec<bool>)
    ensures
        res@ == action_flags(entries@),
{
    let mut flags: Vec<bool> = Vec::new();
    let mut i: usize = 0;
    while i < entries.len()
        invariant
            i <= entries@.len(),
            flags@.len() == i,
            forall|k: int| 0 <= k < i ==> flags@[k] == (entries@[k] is Action),
        decreases entries@.len() - i,
    {
        flags.push(matches!(entries[i], MenuEntry::Action(..)));
        i += 1;
    }
    assert(flags@ =~= action_flags(entries@));
    flags
}

/// The next entry in `direction` that can be chosen; the same one at the ends.
pub fn step_menu(entries: &Vec<MenuEntry>, from: usize, direction: isize) -> (res: usize)
    requires
        direction != 0,
    ensures
        res == stepped(action_flags(entries@), from as int, direction as int),
{
    let flags: Vec<bool> = flags_of(entries);
    step_over(&flags, from, direction)
}

/// What a prompt holds after a key: every character is text in it.
pub open spec fn prompted(text: Seq<char>, code: KeyCode) -> Seq<char> {
    match code {
        KeyCode::Backspace => shortened(text),
        KeyCode::Char(c) => text.push(c),
        _ => text,
    }
}

fn type_in_prompt(text: String, code: KeyCode) -> (res: String)
    ensures
        res@ == prompted(text@, code),
{
    let mut out: String = text;
    match code {
        KeyCode::Backspace => {
            out = shorten(out.as_str());
        },
        KeyCode::Char(c) => {
            out.push(c);
        },
        _ => {},
    }
    out
}

impl App {
    // ---- Closing ----

    /// What lies over the tree is closed; a search that was parked is shown
    /// again. That the search is closed is told to the other panes.
    pub open spec fn close_rel(&self, post: &App, out: Seq<EffectView>) -> bool {
        &&& *post == self.resumed()
        &&& out == (if self.in_search() && self.mode.merged {
            just(EffectView::ShareSearch(false))
        } else {
            Seq::empty()
        })
    }

    pub fn close_overlay(&mut self) -> (res: Vec<Effect>)
        requires
            old(self).wf(),
        ensures
            final(self).wf(),
            old(self).close_rel(final(self), asked(res@)),
    {
        let share: bool = self.is_searching() && self.mode.merged;
        self.resume();
        if share {
            one(Effect::ShareSearch(false))
        } else {
            nothing()
        }
    }

    // ---- The search ----

    /// What the search panel asks for is done.
    pub open spec fn command_rel(
        &self,
        command: SearchCommand,
        post: &App,
        out: Seq<EffectView>,
    ) -> bool {
        match command {
            SearchCommand::Nothing => *post == *self && out.len() == 0,
            SearchCommand::Close => self.close_rel(post, out),
            SearchCommand::Start => self.start_rel(post, out),
            SearchCommand::Open { path, line } => self.preview_rel(path@, Some(line), post, out),
            SearchCommand::Scroll(delta) => {
                &&& *post == (App {
                    search_snap: false,
                    search_scroll: scrolled_to(self.search_scroll, delta as int),
                    ..*self
                })
                &&& out.len() == 0
            },
        }
    }

    pub(crate) fn run_command(&mut self, command: SearchCommand) -> (res: Vec<Effect>)
        requires
            old(self).wf(),
        ensures
            final(self).wf(),
            old(self).command_rel(command, final(self), asked(res@)),
    {
        match command {
            SearchCommand::Nothing => nothing(),
            SearchCommand::Close => self.close_overlay(),
            SearchCommand::Start => self.start_content_search(),
            SearchCommand::Open { path, line } => self.open_preview_at(path, Some(line)),
            SearchCommand::Scroll(delta) => {
                self.search_snap = false;
                self.search_scroll = scroll_to(self.search_scroll, delta);
                nothing()
            },
        }
    }

    /// What a key does in the search: the panel takes it, and what the panel
    /// asks for is done.
    pub open spec fn search_key_rel(
        &self,
        panel: SearchPanel,
        key: Key,
        now: u64,
        post: &App,
        out: Seq<EffectView>,
    ) -> bool {
        exists|after: SearchPanel, command: SearchCommand|
            #[trigger] panel.key_rel(key, now, &after, command) && (App {
                overlay: Some(Overlay::Search(after)),
                ..*self
            }).command_rel(command, post, out)
    }

    fn search_key(&mut self, panel: SearchPanel, key: Key, now: u64) -> (res: Vec<Effect>)
        requires
            old(self).wf(),
            panel.wf(),
        ensures
            final(self).wf(),
            old(self).search_key_rel(panel, key, now, final(self), asked(res@)),
    {
        let mut after: SearchPanel = panel;
        let command: SearchCommand = after.on_key(key, now);
        self.overlay = Some(Overlay::Search(after));
        let ghost shown: App = *self;
        let out: Vec<Effect> = self.run_command(command);
        assert(panel.key_rel(key, now, &after, command));
        assert(shown == (App { overlay: Some(Overlay::Search(after)), ..*old(self) }));
        out
    }

    // ---- Quick open ----

    /// What a key does in quick open: a file that is chosen is shown, and quick
    /// open is closed.
    pub open spec fn quick_key_rel(
        &self,
        quick: QuickOpen,
        key: Key,
        post: &App,
        out: Seq<EffectView>,
    ) -> bool {
        exists|after: QuickOpen, command: QuickCommand|
            #[trigger] quick.key_rel(key, &after, command) && match command {
                QuickCommand::Nothing => {
                    &&& *post == (App { overlay: Some(Overlay::QuickOpen(after)), ..*self })
                    &&& out.len() == 0
                },
                QuickCommand::Close => *post == self.resumed() && out.len() == 0,
                QuickCommand::Open(path) => (App { overlay: None, ..*self }).preview_rel(
                    path@,
                    None,
                    post,
                    out,
                ),
            }
    }

    fn quick_key(&mut self, quick: QuickOpen, key: Key) -> (res: Vec<Effect>)
        requires
            old(self).wf(),
            quick.wf(),
        ensures
            final(self).wf(),
            old(self).quick_key_rel(quick, key, final(self), asked(res@)),
    {
        let mut after: QuickOpen = quick;
        let command: QuickCommand = after.on_key(key);
        assert(quick.key_rel(key, &after, command));
        match command {
            QuickCommand::Nothing => {
                self.overlay = Some(Overlay::QuickOpen(after));
                nothing()
            },
            QuickCommand::Close => {
                self.resume();
                nothing()
            },
            QuickCommand::Open(path) => {
                self.overlay = None;
                self.open_preview_at(path, None)
            },
        }
    }

    // ---- Menus, settings and prompts ----

    /// The same overlay with another line selected.
    pub open spec fn overlay_at(&self, i: usize) -> Option<Overlay> {
        match self.overlay {
            Some(Overlay::Menu { x, y, target, entries, selected, rect }) => Some(
                Overlay::Menu { x, y, target, entries, selected: i, rect },
            ),
            Some(Overlay::Settings { selected, rect, scroll }) => Some(
                Overlay::Settings { selected: i, rect, scroll },
            ),
            other => other,
        }
    }

    pub(crate) fn select_line(&mut self, i: usize)
        requires
            old(self).wf(),
        ensures
            final(self).wf(),
            *final(self) == (App { overlay: old(self).overlay_at(i), ..*old(self) }),
    {
        let taken: Option<Overlay> = self.overlay.take();
        self.overlay = match taken {
            Some(Overlay::Menu { x, y, target, entries, selected, rect }) => Some(
                Overlay::Menu { x, y, target, entries, selected: i, rect },
            ),
            Some(Overlay::Settings { selected, rect, scroll }) => Some(
                Overlay::Settings { selected: i, rect, scroll },
            ),
            other => other,
        };
    }

    /// What a key does in an open menu.
    pub open spec fn menu_key_rel(&self, step: MenuKey, post: &App, out: Seq<EffectView>) -> bool {
        match step {
            MenuKey::Nothing => *post == *self && out.len() == 0,
            MenuKey::Close => self.close_rel(post, out),
            MenuKey::Select(i) => *post == (App { overlay: self.overlay_at(i), ..*self })
                && out.len() == 0,
            MenuKey::Activate => self.activate_rel(post, out),
        }
    }

    fn run_menu_key(&mut self, step: MenuKey) -> (res: Vec<Effect>)
        requires
            old(self).wf(),
        ensures
            final(self).wf(),
            old(self).menu_key_rel(step, final(self), asked(res@)),
    {
        match step {
            MenuKey::Nothing => nothing(),
            MenuKey::Close => self.close_overlay(),
            MenuKey::Select(i) => {
                self.select_line(i);
                nothing()
            },
            MenuKey::Activate => self.activate_menu_entry(),
        }
    }

    /// What a key does in the settings.
    pub open spec fn settings_key_rel(
        &self,
        step: SettingsKey,
        post: &App,
        out: Seq<EffectView>,
    ) -> bool {
        match step {
            SettingsKey::Nothing => *post == *self && out.len() == 0,
            SettingsKey::Close => self.close_rel(post, out),
            SettingsKey::Select(i) => *post == (App { overlay: self.overlay_at(i), ..*self })
                && out.len() == 0,
            SettingsKey::AdjustWidth(wider) => *post == *self && out == just(
                EffectView::AdjustWidth(wider),
            ),
            SettingsKey::AdjustAbovePercent(taller) => *post == *self && out == just(
                EffectView::AdjustAbovePercent(taller),
            ),
            SettingsKey::Toggle(i) => *post == *self && out == just(EffectView::ToggleSetting(i)),
        }
    }

    fn run_settings_key(&mut self, step: SettingsKey) -> (res: Vec<Effect>)
        requires
            old(self).wf(),
        ensures
            final(self).wf(),
            old(self).settings_key_rel(step, final(self), asked(res@)),
    {
        match step {
            SettingsKey::Nothing => nothing(),
            SettingsKey::Close => self.close_overlay(),
            SettingsKey::Select(i) => {
                self.select_line(i);
                nothing()
            },
            SettingsKey::AdjustWidth(wider) => one(Effect::AdjustWidth(wider)),
            SettingsKey::AdjustAbovePercent(taller) => one(Effect::AdjustAbovePercent(taller)),
            SettingsKey::Toggle(i) => one(Effect::ToggleSetting(i)),
        }
    }

    /// What a key does in a prompt.
    pub open spec fn prompt_key_rel(&self, code: KeyCode, post: &App, out: Seq<EffectView>) -> bool {
        match code {
            KeyCode::Esc => self.close_rel(post, out),
            KeyCode::Enter => self.confirm_rel(post, out),
            _ => {
                &&& *post == (App { overlay: post.overlay, ..*self })
                &&& match self.overlay {
                    Some(Overlay::Prompt { title, input, kind }) => post.overlay matches Some(
                        Overlay::Prompt { title: t, input: i, kind: k },
                    ) && t == title && k == kind && i@ == prompted(input@, code),
                    other => post.overlay == other,
                }
                &&& out.len() == 0
            },
        }
    }

    fn run_prompt_key(&mut self, code: KeyCode) -> (res: Vec<Effect>)
        requires
            old(self).wf(),
        ensures
            final(self).wf(),
            old(self).prompt_key_rel(code, final(self), asked(res@)),
    {
        match code {
            KeyCode::Esc => self.close_overlay(),
            KeyCode::Enter => self.confirm_prompt(),
            _ => {
                let taken: Option<Overlay> = self.overlay.take();
                self.overlay = match taken {
                    Some(Overlay::Prompt { title, input, kind }) => Some(
                        Overlay::Prompt { title, input: type_in_prompt(input, code), kind },
                    ),
                    other => other,
                };
                nothing()
            },
        }
    }

    /// What a key does while something lies over the tree. Only `y` deletes; any
    /// other key drops the question.
    pub open spec fn overlay_key_rel(
        &self,
        rows: Seq<SettingRow>,
        key: Key,
        now: u64,
        post: &App,
        out: Seq<EffectView>,
    ) -> bool {
        match self.overlay {
            None => *post == *self && out.len() == 0,
            Some(Overlay::BranchPicker) => *post == *self && out == just(EffectView::ToPicker),
            Some(Overlay::Menu { x, y, target, entries, selected, rect }) => self.menu_key_rel(
                menu_key_spec(action_flags(entries@), selected, key),
                post,
                out,
            ),
            Some(Overlay::Settings { selected, rect, scroll }) => self.settings_key_rel(
                settings_key_spec(rows, selected, key),
                post,
                out,
            ),
            Some(Overlay::Prompt { title, input, kind }) => self.prompt_key_rel(
                key.code,
                post,
                out,
            ),
            Some(Overlay::ConfirmDelete { path, name, is_dir }) => if confirms(key) {
                &&& *post == (App { overlay: None, ..*self })
                &&& out == just(EffectView::Delete { path: path@, is_dir })
            } else {
                self.close_rel(post, out)
            },
            Some(Overlay::QuickOpen(quick)) => (App { overlay: None, ..*self }).quick_key_rel(
                quick,
                key,
                post,
                out,
            ),
            Some(Overlay::Search(panel)) => (App { overlay: None, ..*self }).search_key_rel(
                panel,
                key,
                now,
                post,
                out,
            ),
        }
    }

    pub fn overlay_key(&mut self, rows: &Vec<SettingRow>, key: Key, now: u64) -> (res: Vec<Effect>)
        requires
            old(self).wf(),
        ensures
            final(self).wf(),
            old(self).overlay_key_rel(rows@, key, now, final(self), asked(res@)),
    {
        let (menu, settings): (Option<MenuKey>, Option<SettingsKey>) = match &self.overlay {
            Some(Overlay::Menu { entries, selected, .. }) => {
                let flags: Vec<bool> = flags_of(entries);
                (Some(menu_key(&flags, *selected, key)), None)
            },
            Some(Overlay::Settings { selected, .. }) => (
                None,
                Some(settings_key(rows, *selected, key)),
            ),
            _ => (None, None),
        };
        if let Some(step) = menu {
            return self.run_menu_key(step);
        }
        if let Some(step) = settings {
            return self.run_settings_key(step);
        }
        if matches!(self.overlay, Some(Overlay::Prompt { .. })) {
            return self.run_prompt_key(key.code);
        }
        if matches!(self.overlay, Some(Overlay::ConfirmDelete { .. })) && !is_confirmed(key) {
            return self.close_overlay();
        }
        let taken: Option<Overlay> = self.overlay.take();
        match taken {
            Some(Overlay::ConfirmDelete { path, name, is_dir }) => {
                return one(Effect::Delete { path, is_dir });
            },
            Some(Overlay::QuickOpen(quick)) => {
                return self.quick_key(quick, key);
            },
            Some(Overlay::Search(panel)) => {
                return self.search_key(panel, key, now);
            },
            Some(Overlay::BranchPicker) => {
                self.overlay = Some(Overlay::BranchPicker);
                return one(Effect::ToPicker);
            },
            other => {
                self.overlay = other;
                return nothing();
            },
        }
    }

    // ---- The tree ----

    /// The pane is handed to the other view; this is the Explorer.
    pub open spec fn switch_spec(&self, view: ViewKind) -> (Seq<EffectView>, Option<Exit>) {
        if self.mode.merged && view != ViewKind::Explorer {
            (just(EffectView::ShareView { view, search: false }), Some(Exit::Switch))
        } else {
            (Seq::empty(), None)
        }
    }

    pub fn switch_to(&self, view: ViewKind) -> (res: (Vec<Effect>, Option<Exit>))
        ensures
            (asked(res.0@), res.1) == self.switch_spec(view),
    {
        if self.mode.merged && view != ViewKind::Explorer {
            (one(Effect::ShareView { view, search: false }), Some(Exit::Switch))
        } else {
            (nothing(), None)
        }
    }

    /// What a key does in the tree.
    pub open spec fn list_rel(
        &self,
        command: ListCommand,
        post: &App,
        out: Seq<EffectView>,
    ) -> bool {
        match command {
            ListCommand::Up => self.move_rel(-1, post, out),
            ListCommand::Down => self.move_rel(1, post, out),
            ListCommand::PageUp => self.move_rel(-(self.screen.page as int), post, out),
            ListCommand::PageDown => self.move_rel(self.screen.page as int, post, out),
            ListCommand::First => self.select_rel(0, post, out),
            ListCommand::Last => self.select_rel(
                if self.list.rows@.len() == 0 {
                    0
                } else {
                    self.list.rows@.len() - 1
                },
                post,
                out,
            ),
            ListCommand::Enter => self.enter_rel(post, out),
            ListCommand::Leave => self.leave_rel(post, out),
            ListCommand::Toggle => self.toggle_rel(post, out),
            ListCommand::Refresh => self.refresh_rel(post, out),
            ListCommand::ToggleHidden => self.hidden_rel(post, out),
            ListCommand::ChangeFolder => self.folder_dialog_rel(post, out),
            ListCommand::Settings => *post == self.settings_opened() && out.len() == 0,
            ListCommand::Search => self.open_search_rel(false, post, out),
            ListCommand::ClosePreview => *post == *self && out == just(EffectView::ClosePreview),
            ListCommand::ToggleIcons => *post == *self && out == just(EffectView::ToggleIcons),
            ListCommand::Hide => *post == *self && out == just(
                EffectView::Close { snooze: true },
            ),
            ListCommand::Menu => *post == *self && out == just(self.selection_menu()),
            ListCommand::SourceControl => *post == *self && out == self.switch_spec(
                ViewKind::SourceControl,
            ).0,
            _ => *post == *self && out.len() == 0,
        }
    }

    /// How the Explorer ends by a key in the tree, if it does.
    pub open spec fn list_exit(&self, command: ListCommand) -> Option<Exit> {
        match command {
            ListCommand::Quit => Some(Exit::Quit),
            ListCommand::SourceControl => self.switch_spec(ViewKind::SourceControl).1,
            _ => None,
        }
    }

    fn run_list_command(&mut self, command: ListCommand) -> (res: Vec<Effect>)
        requires
            old(self).wf(),
        ensures
            final(self).wf(),
            old(self).list_rel(command, final(self), asked(res@)),
    {
        let page: isize = self.screen.page as isize;
        match command {
            ListCommand::Up => self.move_by(-1),
            ListCommand::Down => self.move_by(1),
            ListCommand::PageUp => self.move_by(-page),
            ListCommand::PageDown => self.move_by(page),
            ListCommand::First => self.select(0),
            ListCommand::Last => {
                let count: usize = self.list.rows.len();
                self.select(count.saturating_sub(1))
            },
            ListCommand::Enter => self.expand_or_enter(),
            ListCommand::Leave => self.collapse_or_parent(),
            ListCommand::Toggle => self.toggle(),
            ListCommand::Refresh => self.refresh_tree(),
            ListCommand::ToggleHidden => self.toggle_hidden(),
            ListCommand::ChangeFolder => self.change_folder_dialog(),
            ListCommand::Settings => {
                self.open_settings();
                nothing()
            },
            ListCommand::Search => self.open_content_search(false),
            ListCommand::ClosePreview => one(Effect::ClosePreview),
            ListCommand::ToggleIcons => one(Effect::ToggleIcons),
            ListCommand::Hide => one(Effect::Close { snooze: true }),
            ListCommand::Menu => self.open_menu_for_selection(),
            ListCommand::SourceControl => self.switch_to(ViewKind::SourceControl).0,
            _ => nothing(),
        }
    }

    // ---- Every key ----

    /// The Explorer as a forced switch of views finds it: nothing lies over the
    /// tree.
    pub open spec fn uncovered(&self, forced: bool) -> App {
        if forced {
            App { overlay: None, suspended: None, ..*self }
        } else {
            *self
        }
    }

    /// A switch of views from the keyboard.
    pub open spec fn view_rel(
        &self,
        digit: char,
        forced: bool,
        post: &App,
        out: Seq<EffectView>,
    ) -> bool {
        let from = self.uncovered(forced);
        if digit == '1' {
            &&& *post == (App { overlay: None, ..from })
            &&& out == (if self.mode.merged {
                just(EffectView::ShareSearch(false))
            } else {
                Seq::empty()
            })
        } else if digit == '2' {
            from.open_search_rel(false, post, out)
        } else {
            *post == from && out == self.switch_spec(ViewKind::SourceControl).0
        }
    }

    fn switch_view(&mut self, digit: char, forced: bool) -> (res: Vec<Effect>)
        requires
            old(self).wf(),
        ensures
            final(self).wf(),
            old(self).view_rel(digit, forced, final(self), asked(res@)),
    {
        if forced {
            self.overlay = None;
            self.suspended = None;
        }
        if digit == '1' {
            self.overlay = None;
            if self.mode.merged {
                one(Effect::ShareSearch(false))
            } else {
                nothing()
            }
        } else if digit == '2' {
            self.open_content_search(false)
        } else {
            self.switch_to(ViewKind::SourceControl).0
        }
    }

    /// `Ctrl+F`: the query of a search that is shown gets the focus; from the
    /// tree the search is shown, ready to type.
    pub open spec fn find_rel(&self, post: &App, out: Seq<EffectView>) -> bool {
        match self.overlay {
            Some(Overlay::Search(panel)) => {
                &&& *post == (App {
                    overlay: Some(
                        Overlay::Search(SearchPanel { focus: SearchFocus::Query, ..panel }),
                    ),
                    ..*self
                })
                &&& out.len() == 0
            },
            None => self.open_search_rel(true, post, out),
            _ => *post == *self && out.len() == 0,
        }
    }

    fn find(&mut self) -> (res: Vec<Effect>)
        requires
            old(self).wf(),
        ensures
            final(self).wf(),
            old(self).find_rel(final(self), asked(res@)),
    {
        if self.overlay.is_none() {
            return self.open_content_search(true);
        }
        let taken: Option<Overlay> = self.overlay.take();
        match taken {
            Some(Overlay::Search(panel)) => {
                let mut after: SearchPanel = panel;
                after.focus = SearchFocus::Query;
                self.overlay = Some(Overlay::Search(after));
            },
            other => {
                self.overlay = other;
            },
        }
        nothing()
    }

    /// The Explorer as a key finds it: what was said is gone, and a key that
    /// moves through the results brings the selected one onto the screen.
    pub open spec fn before_key(&self, code: KeyCode) -> App {
        App {
            notice: None,
            search_snap: self.search_snap || (self.in_search() && (code == KeyCode::Up || code
                == KeyCode::Down || code == KeyCode::PageUp || code == KeyCode::PageDown)),
            ..*self
        }
    }

    /// What a key press does.
    pub open spec fn key_rel(
        &self,
        rows: Seq<SettingRow>,
        key: Key,
        now: u64,
        post: &App,
        out: Seq<EffectView>,
    ) -> bool {
        match key_command_spec(key, self.overlay is Some, self.in_results()) {
            KeyCommand::Ignore => *post == *self && out.len() == 0,
            KeyCommand::Close => *post == *self && out == just(
                EffectView::Close { snooze: false },
            ),
            KeyCommand::QuickOpen => (App { suspended: None, ..*self }).quick_open_rel(post, out),
            KeyCommand::Find => self.find_rel(post, out),
            KeyCommand::View { digit, forced } => self.view_rel(digit, forced, post, out),
            KeyCommand::ToOverlay => self.before_key(key.code).overlay_key_rel(
                rows,
                key,
                now,
                post,
                out,
            ),
            KeyCommand::ToList => (App { notice: None, ..*self }).list_rel(
                list_command_spec(key.code),
                post,
                out,
            ),
        }
    }

    /// How the Explorer ends by a key press, if it does.
    pub open spec fn key_exit(&self, key: Key) -> Option<Exit> {
        match key_command_spec(key, self.overlay is Some, self.in_results()) {
            KeyCommand::View { digit, forced } => if digit == '3' {
                self.switch_spec(ViewKind::SourceControl).1
            } else {
                None
            },
            KeyCommand::ToList => self.list_exit(list_command_spec(key.code)),
            _ => None,
        }
    }

    /// Handle a key press; `rows` are the settings as they are now. What is to
    /// be done outside comes back, and how the Explorer ends, if it does.
    pub fn on_key(&mut self, rows: &Vec<SettingRow>, key: Key, now: u64) -> (res: (
        Vec<Effect>,
        Option<Exit>,
    ))
        requires
            old(self).wf(),
        ensures
            final(self).wf(),
            old(self).key_rel(rows@, key, now, final(self), asked(res.0@)),
            res.1 == old(self).key_exit(key),
    {
        let results: bool = self.search_text_unfocused();
        let command: KeyCommand = key_command(key, self.overlay.is_some(), results);
        match command {
            KeyCommand::Ignore => (nothing(), None),
            KeyCommand::Close => (one(Effect::Close { snooze: false }), None),
            KeyCommand::QuickOpen => {
                self.suspended = None;
                (self.open_quick_open(), None)
            },
            KeyCommand::Find => (self.find(), None),
            KeyCommand::View { digit, forced } => {
                let exit: Option<Exit> = if digit == '3' && self.mode.merged {
                    Some(Exit::Switch)
                } else {
                    None
                };
                (self.switch_view(digit, forced), exit)
            },
            KeyCommand::ToOverlay => {
                self.notice = None;
                if self.is_searching() && (key.code == KeyCode::Up || key.code == KeyCode::Down
                    || key.code == KeyCode::PageUp || key.code == KeyCode::PageDown) {
                    self.search_snap = true;
                }
                (self.overlay_key(rows, key, now), None)
            },
            KeyCommand::ToList => {
                self.notice = None;
                let step: ListCommand = list_command(key.code);
                let exit: Option<Exit> = if step == ListCommand::Quit {
                    Some(Exit::Quit)
                } else if step == ListCommand::SourceControl && self.mode.merged {
                    Some(Exit::Switch)
                } else {
                    None
                };
                (self.run_list_command(step), exit)
            },
        }
    }
}

/// Where a list scrolls to by `delta` lines.
pub open spec fn scrolled_to(from: usize, delta: int) -> usize {
    if from + delta < 0 {
        0
    } else if from + delta > usize::MAX {
        usize::MAX
    } else {
        (from + delta) as usize
    }
}

fn scroll_to(from: usize, delta: isize) -> (res: usize)
    ensures
        res == scrolled_to(from, delta as int),
{
    let to: i128 = from as i128 + delta as i128;
    if to < 0 {
        0
    } else if to > usize::MAX as i128 {
        usize::MAX
    } else {
        to as usize
    }
}

// ---- What the keys promise ----

/// A deletion takes `y` while it is asked for, and deletes what the question
/// was about.
pub proof fn law_only_a_confirmed_file_is_deleted(
    app: App,
    rows: Seq<SettingRow>,
    key: Key,
    now: u64,
    post: App,
    out: Seq<EffectView>,
    i: int,
)
    requires
        app.overlay_key_rel(rows, key, now, &post, out),
        0 <= i < out.len(),
        out[i] is Delete,
    ensures
        confirms(key),
        app.overlay matches Some(Overlay::ConfirmDelete { path, name, is_dir }) && out[i] == (
        EffectView::Delete { path: path@, is_dir }),
{
}

/// A modal that is opened over the search and closed by a key gives the search
/// back: the settings, a question and a prompt, answered or not, and a menu that
/// is left.
pub proof fn law_closing_a_modal_resumes_the_search(
    app: App,
    rows: Seq<SettingRow>,
    key: Key,
    now: u64,
    panel: SearchPanel,
    post: App,
    out: Seq<EffectView>,
)
    requires
        app.suspended == Some(panel),
        app.overlay_key_rel(rows, key, now, &post, out),
        match app.overlay {
            Some(Overlay::Settings { .. }) => !(post.overlay matches Some(Overlay::Settings { .. })),
            Some(Overlay::Prompt { .. }) => !(post.overlay matches Some(Overlay::Prompt { .. })),
            Some(Overlay::ConfirmDelete { .. }) => !confirms(key),
            Some(Overlay::Menu { entries, selected, .. }) => menu_key_spec(
                action_flags(entries@),
                selected,
                key,
            ) is Close,
            _ => false,
        },
    ensures
        post.overlay == Some(Overlay::Search(panel)),
        post.suspended is None,
{
}

/// A forced switch works from whatever is open, and leaves nothing parked.
pub proof fn law_forced_switches_always_switch(
    app: App,
    rows: Seq<SettingRow>,
    key: Key,
    now: u64,
    post: App,
    out: Seq<EffectView>,
)
    requires
        key.press,
        key.code == KeyCode::Char('1') || key.code == KeyCode::F(9),
        key.code == KeyCode::F(9) || key.command(),
        app.key_rel(rows, key, now, &post, out),
    ensures
        post.overlay is None,
        post.suspended is None,
        post.list == app.list,
{
}

/// No key but those of the tree ends the Explorer or leaves it for the other
/// view while something lies over it, except a switch of views.
pub proof fn law_overlays_do_not_quit(app: App, key: Key)
    requires
        app.overlay is Some,
    ensures
        app.key_exit(key) != Some(Exit::Quit),
        app.key_exit(key) is Some ==> app.mode.merged,
{
}

/// `Esc` never ends the Explorer; from the tree it closes the preview.
pub proof fn law_escape_never_quits(
    app: App,
    rows: Seq<SettingRow>,
    key: Key,
    now: u64,
    post: App,
    out: Seq<EffectView>,
)
    requires
        key.code == KeyCode::Esc,
        app.key_rel(rows, key, now, &post, out),
    ensures
        app.key_exit(key) is None,
        key.press && app.overlay is None ==> out == just(EffectView::ClosePreview) && post == (App {
            notice: None,
            ..app
        }),
{
}

} // verus!
