//! The file menu and its prompts: what an entry asks for, and what is said of
//! how it went.

use crate::actions::menu::{
    entry_views, is_name, menu_entries, offered, valid_name, validate_name, MenuAction, MenuEntry,
};
use crate::explorer_app::app::{
    asked, join_effects, nothing, one, row_target, says, target_of, App, Effect, EffectView,
    Overlay, PromptKind, Target, just,
};
use crate::explorer_app::paths::{below, relative_path};
use crate::explorer_app::tree::{create_target_dir, row_under, target_dir};
use crate::geometry::Area;
use crate::settings::{Setting, SettingStep};
use crate::text::{slice_to_string, text_pair, to_chars, trim, trim_string};
use vstd::prelude::*;

verus! {

// ---- Texts ----

/// A path with the home folder in place of a leading tilde.
pub open spec fn at_home(raw: Seq<char>, home: Seq<char>) -> Seq<char> {
    if raw.len() > 0 && raw[0] == '~' {
        home + raw.skip(1)
    } else {
        raw
    }
}

pub fn expand_home(raw: &str, home: &str) -> (res: String)
    ensures
        res@ == at_home(raw@, home@),
{
    let chars: Vec<char> = to_chars(raw);
    if chars.len() > 0 && chars[0] == '~' {
        let rest: String = slice_to_string(chars.as_slice(), 1, chars.len());
        assert(rest@ =~= raw@.skip(1));
        text_pair(home, rest.as_str())
    } else {
        raw.to_owned()
    }
}

impl App {
    // ---- Opening the menu ----

    /// The menu of a target, its first entry selected.
    pub open spec fn menu_rel(
        &self,
        x: u16,
        y: u16,
        target: Option<Target>,
        in_repo: bool,
        post: &App,
    ) -> bool {
        let is_dir = match target {
            Some(target) => Some(target.is_dir),
            None => None,
        };
        &&& *post == (App { overlay: post.overlay, ..*self })
        &&& post.overlay matches Some(Overlay::Menu {
            x: mx,
            y: my,
            target: of,
            entries,
            selected,
            rect,
        }) && mx == x && my == y && of == target && entry_views(entries@) == offered(
            is_dir,
            in_repo,
        ) && selected == 0 && rect == Area::empty_spec()
    }

    /// Show the menu; `in_repo` tells whether the target lies in a repository.
    pub fn show_menu(&mut self, x: u16, y: u16, target: Option<Target>, in_repo: bool)
        requires
            old(self).wf(),
        ensures
            final(self).wf(),
            old(self).menu_rel(x, y, target, in_repo, final(self)),
    {
        let is_dir: Option<bool> = match &target {
            Some(target) => Some(target.is_dir),
            None => None,
        };
        let entries: Vec<MenuEntry> = menu_entries(is_dir, in_repo);
        self.overlay = Some(
            Overlay::Menu { x, y, target, entries, selected: 0, rect: Area::empty() },
        );
    }

    /// A click with the right button: the row under it is selected, and the menu
    /// is about it; on empty space it is about the root.
    pub open spec fn context_rel(
        &self,
        x: u16,
        y: u16,
        post: &App,
        out: Seq<EffectView>,
    ) -> bool {
        match row_under(self.list.body, self.list.rows@.len(), y) {
            Some(i) => {
                &&& *post == (App { list: self.list.selecting(i as int), ..*self })
                &&& out == self.published() + just(
                    EffectView::AskMenu {
                        x,
                        y,
                        target: Some(row_target(self.list.rows@[i as int])),
                    })
            },
            None => *post == *self && out == just(EffectView::AskMenu { x, y, target: None }),
        }
    }

    pub fn open_context_menu(&mut self, x: u16, y: u16) -> (res: Vec<Effect>)
        requires
            old(self).wf(),
        ensures
            final(self).wf(),
            old(self).context_rel(x, y, final(self), asked(res@)),
    {
        match self.list.row_at(y) {
            Some(i) => {
                let target: Target = target_of(&self.list.rows[i]);
                let selected: Vec<Effect> = self.select(i);
                join_effects(selected, one(Effect::AskMenu { x, y, target: Some(target) }))
            },
            None => one(Effect::AskMenu { x, y, target: None }),
        }
    }

    /// The menu of the selection, opened from the keyboard at its row; without a
    /// selection it is that of the root.
    pub open spec fn selection_menu(&self) -> EffectView {
        EffectView::AskMenu {
            x: self.list.anchor(self.screen.width).0 as u16,
            y: self.list.anchor(self.screen.width).1 as u16,
            target: match self.list.selected_row_spec() {
                Some(row) => Some(row_target(row)),
                None => None,
            },
        }
    }

    pub fn open_menu_for_selection(&self) -> (res: Vec<Effect>)
        ensures
            asked(res@) == just(self.selection_menu()),
    {
        let target: Option<Target> = match self.list.selected_row() {
            Some(row) => Some(target_of(row)),
            None => None,
        };
        let (x, y): (u16, u16) = self.list.selection_anchor(self.screen.width);
        one(Effect::AskMenu { x, y, target })
    }

    // ---- Prompts ----

    /// A prompt for the name of something new in a folder.
    pub open spec fn asks_name(overlay: Option<Overlay>, directory: bool, dir: Seq<char>) -> bool {
        overlay matches Some(Overlay::Prompt { title, input, kind }) && input@.len() == 0 && if directory {
            title@ == "New folder"@ && (kind matches PromptKind::NewFolder(d) && d@ == dir)
        } else {
            title@ == "New file"@ && (kind matches PromptKind::NewFile(d) && d@ == dir)
        }
    }

    fn ask_name(&mut self, directory: bool, dir: String)
        requires
            old(self).wf(),
        ensures
            final(self).wf(),
            *final(self) == (App { overlay: final(self).overlay, ..*old(self) }),
            App::asks_name(final(self).overlay, directory, dir@),
    {
        self.overlay = Some(
            if directory {
                Overlay::Prompt {
                    title: "New folder",
                    input: String::new(),
                    kind: PromptKind::NewFolder(dir),
                }
            } else {
                Overlay::Prompt {
                    title: "New file",
                    input: String::new(),
                    kind: PromptKind::NewFile(dir),
                }
            },
        );
    }

    /// The prompt of the title bar's buttons: something new goes beside the
    /// selected file, into the selected folder, or into the root.
    pub open spec fn create_rel(&self, directory: bool, post: &App) -> bool {
        &&& *post == (App { overlay: post.overlay, ..*self })
        &&& App::asks_name(
            post.overlay,
            directory,
            target_dir(self.list.selected_row_spec(), self.folder.root@),
        )
    }

    pub fn open_create_prompt(&mut self, directory: bool)
        requires
            old(self).wf(),
        ensures
            final(self).wf(),
            old(self).create_rel(directory, final(self)),
    {
        let dir: String = create_target_dir(self.list.selected_row(), self.folder.root.as_str());
        self.ask_name(directory, dir);
    }

    /// The prompt for another folder, filled with the one that is shown.
    pub open spec fn folder_prompt_rel(&self, post: &App) -> bool {
        &&& *post == (App { overlay: post.overlay, ..*self })
        &&& post.overlay matches Some(Overlay::Prompt { title, input, kind }) && title@
            == "Folder"@ && input@ == self.folder.root@ && kind is ChangeFolder
    }

    pub fn change_folder_prompt(&mut self)
        requires
            old(self).wf(),
        ensures
            final(self).wf(),
            old(self).folder_prompt_rel(final(self)),
    {
        self.overlay = Some(
            Overlay::Prompt {
                title: "Folder",
                input: self.folder.root.clone(),
                kind: PromptKind::ChangeFolder,
            },
        );
    }

    /// The system's folder picker, one at a time; the prompt where there is
    /// none.
    pub open spec fn folder_dialog_rel(&self, post: &App, out: Seq<EffectView>) -> bool {
        if !self.mode.native_picker {
            self.folder_prompt_rel(post) && out.len() == 0
        } else if self.picking {
            *post == *self && out.len() == 0
        } else {
            &&& *post == (App { picking: true, notice: post.notice, ..*self })
            &&& says(post.notice, "folder picker open… (check your other windows)"@)
            &&& out == just(EffectView::PickFolder)
        }
    }

    pub fn change_folder_dialog(&mut self) -> (res: Vec<Effect>)
        requires
            old(self).wf(),
        ensures
            final(self).wf(),
            old(self).folder_dialog_rel(final(self), asked(res@)),
    {
        if !self.mode.native_picker {
            self.change_folder_prompt();
            return nothing();
        }
        if self.picking {
            return nothing();
        }
        self.picking = true;
        self.notice = Some("folder picker open… (check your other windows)".to_owned());
        one(Effect::PickFolder)
    }

    /// Another folder is asked for; white space around its path does not count.
    pub open spec fn change_rel(&self, raw: Seq<char>, post: &App, out: Seq<EffectView>) -> bool {
        if trim(raw).len() == 0 {
            &&& *post == (App { notice: post.notice, ..*self })
            &&& says(post.notice, "empty path"@)
            &&& out.len() == 0
        } else {
            *post == *self && out == just(EffectView::ChangeFolder(trim(raw)))
        }
    }

    pub fn change_folder(&mut self, raw: &str) -> (res: Vec<Effect>)
        requires
            old(self).wf(),
        ensures
            final(self).wf(),
            old(self).change_rel(raw@, final(self), asked(res@)),
    {
        let path: String = trim_string(raw);
        if path.as_str().is_empty() {
            self.notice = Some("empty path".to_owned());
            return nothing();
        }
        one(Effect::ChangeFolder(path))
    }

    /// The folder picker has ended: with a folder, with none, or in failure.
    pub open spec fn picked_rel(
        &self,
        outcome: Result<Option<String>, ()>,
        post: &App,
        out: Seq<EffectView>,
    ) -> bool {
        let closed = App { picking: false, ..*self };
        if !self.picking {
            *post == *self && out.len() == 0
        } else {
            match outcome {
                Ok(Some(path)) => closed.change_rel(path@, post, out),
                Ok(None) => *post == (App { notice: None, ..closed }) && out.len() == 0,
                Err(()) => *post == closed && out.len() == 0,
            }
        }
    }

    pub fn poll_picker(&mut self, outcome: Result<Option<String>, ()>) -> (res: Vec<Effect>)
        requires
            old(self).wf(),
        ensures
            final(self).wf(),
            old(self).picked_rel(outcome, final(self), asked(res@)),
    {
        if !self.picking {
            return nothing();
        }
        self.picking = false;
        match outcome {
            Ok(Some(path)) => self.change_folder(path.as_str()),
            Ok(None) => {
                self.notice = None;
                nothing()
            },
            Err(()) => nothing(),
        }
    }

    /// What is typed into a prompt is used; a search that was parked under it is
    /// shown again.
    pub open spec fn confirm_rel(&self, post: &App, out: Seq<EffectView>) -> bool {
        let closed = self.resumed();
        match self.overlay {
            Some(Overlay::Prompt { title, input, kind }) => match kind {
                PromptKind::ChangeFolder => closed.change_rel(input@, post, out),
                PromptKind::CustomEditor => *post == closed && out == just(
                    EffectView::SaveEditor(input@)),
                PromptKind::NewFile(folder) => match valid_name(input@) {
                    Some(name) => *post == closed && out == just(
                        EffectView::CreateFile { folder: folder@, name }),
                    None => closed.bad_name_rel(post, out),
                },
                PromptKind::NewFolder(folder) => match valid_name(input@) {
                    Some(name) => *post == closed && out == just(
                        EffectView::CreateFolder { folder: folder@, name }),
                    None => closed.bad_name_rel(post, out),
                },
                PromptKind::Rename(path) => match valid_name(input@) {
                    Some(name) => *post == closed && out == just(
                        EffectView::Rename { path: path@, name }),
                    None => closed.bad_name_rel(post, out),
                },
            },
            _ => *post == closed && out.len() == 0,
        }
    }

    pub open spec fn bad_name_rel(&self, post: &App, out: Seq<EffectView>) -> bool {
        &&& *post == (App { notice: post.notice, ..*self })
        &&& says(post.notice, "invalid name"@)
        &&& out.len() == 0
    }

    pub fn confirm_prompt(&mut self) -> (res: Vec<Effect>)
        requires
            old(self).wf(),
        ensures
            final(self).wf(),
            old(self).confirm_rel(final(self), asked(res@)),
    {
        let taken: Option<Overlay> = self.overlay.take();
        self.resume();
        match taken {
            Some(Overlay::Prompt { input, kind, .. }) => {
                match kind {
                    PromptKind::ChangeFolder => {
                        return self.change_folder(input.as_str());
                    },
                    PromptKind::CustomEditor => {
                        return one(Effect::SaveEditor(input));
                    },
                    _ => {},
                }
                let name: String = match validate_name(input.as_str()) {
                    Some(name) => name,
                    None => {
                        return self.refuse_name();
                    },
                };
                match kind {
                    PromptKind::NewFile(folder) => {
                        return one(Effect::CreateFile { folder, name });
                    },
                    PromptKind::NewFolder(folder) => {
                        return one(Effect::CreateFolder { folder, name });
                    },
                    PromptKind::Rename(path) => {
                        return one(Effect::Rename { path, name });
                    },
                    _ => {
                        return nothing();
                    },
                }
            },
            _ => {
                return nothing();
            },
        }
    }

    fn refuse_name(&mut self) -> (res: Vec<Effect>)
        requires
            old(self).wf(),
        ensures
            final(self).wf(),
            old(self).bad_name_rel(final(self), asked(res@)),
    {
        self.notice = Some("invalid name".to_owned());
        nothing()
    }

    // ---- The entries ----

    /// The folder that something new from the menu goes into.
    pub open spec fn menu_dir(&self, target: Option<Target>) -> Seq<char> {
        match target {
            Some(target) => if target.is_dir {
                target.path@
            } else {
                target.folder@
            },
            None => self.folder.root@,
        }
    }

    /// What an entry of the menu does, once the menu is closed. What needs a
    /// target does nothing without one.
    pub open spec fn action_rel(
        &self,
        action: MenuAction,
        target: Option<Target>,
        post: &App,
        out: Seq<EffectView>,
    ) -> bool {
        match action {
            MenuAction::NewFile => {
                &&& *post == (App { overlay: post.overlay, ..*self })
                &&& App::asks_name(post.overlay, false, self.menu_dir(target))
                &&& out.len() == 0
            },
            MenuAction::NewFolder => {
                &&& *post == (App { overlay: post.overlay, ..*self })
                &&& App::asks_name(post.overlay, true, self.menu_dir(target))
                &&& out.len() == 0
            },
            MenuAction::CopyPath => *post == *self && match target {
                Some(target) => out == just(EffectView::Copy(target.path@)),
                None => out.len() == 0,
            },
            MenuAction::CopyRelativePath => *post == *self && match target {
                Some(target) => out == just(EffectView::Copy(below(
                        self.folder.root@,
                        target.path@,
                        self.mode.backslash,
                    ))),
                None => out.len() == 0,
            },
            MenuAction::Rename => match target {
                Some(target) => {
                    &&& *post == (App { overlay: post.overlay, ..*self })
                    &&& post.overlay matches Some(Overlay::Prompt { title, input, kind })
                        && title@ == "Rename"@ && input@ == target.name@ && (
                    kind matches PromptKind::Rename(path) && path@ == target.path@)
                    &&& out.len() == 0
                },
                None => *post == *self && out.len() == 0,
            },
            MenuAction::Delete => match target {
                Some(target) => {
                    &&& *post == (App { overlay: post.overlay, ..*self })
                    &&& post.overlay matches Some(Overlay::ConfirmDelete { path, name, is_dir })
                        && path@ == target.path@ && name@ == target.name@ && is_dir
                        == target.is_dir
                    &&& out.len() == 0
                },
                None => *post == *self && out.len() == 0,
            },
            MenuAction::OpenExternal => *post == *self && match target {
                Some(target) => out == just(
                    EffectView::OpenExternal { path: target.path@, name: target.name@ }),
                None => out.len() == 0,
            },
            MenuAction::Stage => *post == *self && match target {
                Some(target) => out == just(
                    EffectView::Stage { path: target.path@, name: target.name@ }),
                None => out.len() == 0,
            },
            MenuAction::Reveal => *post == *self && out == just(
                match target {
                    Some(target) => EffectView::Reveal {
                        path: target.path@,
                        directory: target.is_dir,
                    },
                    None => EffectView::Reveal { path: self.folder.root@, directory: true },
                }),
            MenuAction::ChangeFolder => self.folder_dialog_rel(post, out),
            MenuAction::ChangeFolderTyped => self.folder_prompt_rel(post) && out.len() == 0,
        }
    }

    fn run_action(&mut self, action: MenuAction, target: Option<Target>) -> (res: Vec<Effect>)
        requires
            old(self).wf(),
        ensures
            final(self).wf(),
            old(self).action_rel(action, target, final(self), asked(res@)),
    {
        match action {
            MenuAction::ChangeFolder => {
                return self.change_folder_dialog();
            },
            MenuAction::ChangeFolderTyped => {
                self.change_folder_prompt();
                return nothing();
            },
            _ => {},
        }
        match target {
            Some(of) => self.run_on(action, of),
            None => match action {
                MenuAction::NewFile => {
                    let dir: String = self.folder.root.clone();
                    self.ask_name(false, dir);
                    nothing()
                },
                MenuAction::NewFolder => {
                    let dir: String = self.folder.root.clone();
                    self.ask_name(true, dir);
                    nothing()
                },
                MenuAction::Reveal => one(
                    Effect::Reveal { path: self.folder.root.clone(), directory: true },
                ),
                _ => nothing(),
            },
        }
    }

    fn run_on(&mut self, action: MenuAction, target: Target) -> (res: Vec<Effect>)
        requires
            old(self).wf(),
            !(action is ChangeFolder) && !(action is ChangeFolderTyped),
        ensures
            final(self).wf(),
            old(self).action_rel(action, Some(target), final(self), asked(res@)),
    {
        match action {
            MenuAction::NewFile => {
                let dir: String = if target.is_dir {
                    target.path
                } else {
                    target.folder
                };
                self.ask_name(false, dir);
                return nothing();
            },
            MenuAction::NewFolder => {
                let dir: String = if target.is_dir {
                    target.path
                } else {
                    target.folder
                };
                self.ask_name(true, dir);
                return nothing();
            },
            MenuAction::CopyPath => {
                return one(Effect::Copy(target.path));
            },
            MenuAction::CopyRelativePath => {
                let text: String = relative_path(
                    self.folder.root.as_str(),
                    target.path.as_str(),
                    self.mode.backslash,
                );
                return one(Effect::Copy(text));
            },
            MenuAction::Rename => {
                self.overlay = Some(
                    Overlay::Prompt {
                        title: "Rename",
                        input: target.name,
                        kind: PromptKind::Rename(target.path),
                    },
                );
                return nothing();
            },
            MenuAction::Delete => {
                self.overlay = Some(
                    Overlay::ConfirmDelete {
                        path: target.path,
                        name: target.name,
                        is_dir: target.is_dir,
                    },
                );
                return nothing();
            },
            MenuAction::OpenExternal => {
                return one(Effect::OpenExternal { path: target.path, name: target.name });
            },
            MenuAction::Stage => {
                return one(Effect::Stage { path: target.path, name: target.name });
            },
            MenuAction::Reveal => {
                return one(Effect::Reveal { path: target.path, directory: target.is_dir });
            },
            _ => {
                return nothing();
            },
        }
    }

    /// The chosen entry of an open menu: the menu closes, and the entry is run.
    pub open spec fn activate_rel(&self, post: &App, out: Seq<EffectView>) -> bool {
        let closed = App { overlay: None, ..*self };
        match self.overlay {
            Some(Overlay::Menu { x, y, target, entries, selected, rect }) => if selected
                < entries@.len() {
                match entries@[selected as int] {
                    MenuEntry::Action(action, label) => closed.action_rel(
                        action,
                        target,
                        post,
                        out,
                    ),
                    MenuEntry::Separator => *post == closed && out.len() == 0,
                }
            } else {
                *post == closed && out.len() == 0
            },
            _ => *post == closed && out.len() == 0,
        }
    }

    pub fn activate_menu_entry(&mut self) -> (res: Vec<Effect>)
        requires
            old(self).wf(),
        ensures
            final(self).wf(),
            old(self).activate_rel(final(self), asked(res@)),
    {
        let taken: Option<Overlay> = self.overlay.take();
        match taken {
            Some(Overlay::Menu { target, entries, selected, .. }) => {
                if selected >= entries.len() {
                    return nothing();
                }
                match entries[selected] {
                    MenuEntry::Action(action, _) => self.run_action(action, target),
                    MenuEntry::Separator => nothing(),
                }
            },
            _ => nothing(),
        }
    }

    // ---- Settings ----

    /// The settings; a search that was shown is parked under them.
    pub open spec fn settings_opened(&self) -> App {
        App {
            overlay: Some(
                Overlay::Settings { selected: 0, rect: Area::empty_spec(), scroll: 0 },
            ),
            suspended: self.parked(),
            ..*self
        }
    }

    pub fn open_settings(&mut self)
        requires
            old(self).wf(),
        ensures
            final(self).wf(),
            *final(self) == old(self).settings_opened(),
    {
        self.cover(Overlay::Settings { selected: 0, rect: Area::empty(), scroll: 0 });
    }

    /// What changing a setting does here, beyond the shared settings. One that
    /// closes them gives back a search that was parked under them; a prompt
    /// leaves it parked.
    pub open spec fn setting_rel(
        &self,
        step: SettingStep,
        editor: Option<String>,
        post: &App,
        out: Seq<EffectView>,
    ) -> bool {
        match step {
            SettingStep::SetUnified(_) => *post == self.resumed() && out.len() == 0,
            SettingStep::AskEditor => {
                &&& *post == (App { overlay: post.overlay, ..*self })
                &&& post.overlay matches Some(Overlay::Prompt { title, input, kind }) && title@
                    == "Custom editor"@ && kind is CustomEditor && match editor {
                    Some(command) => input@ == command@,
                    None => input@.len() == 0,
                }
                &&& out.len() == 0
            },
            SettingStep::Flip(setting) => if setting == Setting::HiddenFiles {
                self.hidden_rel(post, out)
            } else if setting == Setting::GitDecorations || setting == Setting::GitFooter {
                *post == *self && out == just(EffectView::Rediscover)
            } else {
                *post == *self && out.len() == 0
            },
            SettingStep::ChooseFolder => if self.mode.native_picker {
                self.resumed().folder_dialog_rel(post, out)
            } else {
                self.folder_dialog_rel(post, out)
            },
            _ => *post == *self && out.len() == 0,
        }
    }

    /// A setting has been changed; `editor` is the editor command that is set.
    pub fn setting_changed(&mut self, step: SettingStep, editor: Option<String>) -> (res: Vec<
        Effect,
    >)
        requires
            old(self).wf(),
        ensures
            final(self).wf(),
            old(self).setting_rel(step, editor, final(self), asked(res@)),
    {
        match step {
            SettingStep::SetUnified(_) => {
                self.resume();
                nothing()
            },
            SettingStep::AskEditor => {
                let input: String = match editor {
                    Some(command) => command,
                    None => String::new(),
                };
                self.overlay = Some(
                    Overlay::Prompt {
                        title: "Custom editor",
                        input,
                        kind: PromptKind::CustomEditor,
                    },
                );
                nothing()
            },
            SettingStep::Flip(setting) => if setting == Setting::HiddenFiles {
                self.toggle_hidden()
            } else if setting == Setting::GitDecorations || setting == Setting::GitFooter {
                one(Effect::Rediscover)
            } else {
                nothing()
            },
            SettingStep::ChooseFolder => {
                if self.mode.native_picker {
                    self.resume();
                }
                self.change_folder_dialog()
            },
            _ => nothing(),
        }
    }
}

/// Nothing is deleted from the menu itself: it asks first.
pub proof fn law_the_menu_deletes_nothing(
    app: App,
    action: MenuAction,
    target: Option<Target>,
    post: App,
    out: Seq<EffectView>,
)
    requires
        app.action_rel(action, target, &post, out),
    ensures
        forall|i: int| 0 <= i < out.len() ==> !(#[trigger] out[i] is Delete),
{
}

/// What is created or renamed gets a name, never a path.
pub proof fn law_only_names_are_used(app: App, post: App, out: Seq<EffectView>, i: int)
    requires
        app.confirm_rel(&post, out),
        0 <= i < out.len(),
    ensures
        out[i] matches EffectView::CreateFile { folder, name } ==> is_name(name),
        out[i] matches EffectView::CreateFolder { folder, name } ==> is_name(name),
        out[i] matches EffectView::Rename { path, name } ==> is_name(name),
{
}

} // verus!
