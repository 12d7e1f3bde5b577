//! The handlers behind the key tables, and the operations that keys and clicks
//! share.

use vstd::prelude::*;

use crate::geometry::Area;
use crate::git::FileEntry;
use crate::input::{Key, KeyCode};
use crate::scm_app::app::{
    flash_is, list_command, list_command_spec, App, Effect, Focus, ListCommand, MenuTarget, Overlay,
};
use crate::scm_app::drawer::{show_spec, show_target, Drawer};
use crate::scm_app::header::{primary_is_sync, sync_is_primary};
use crate::scm_app::menu::{
    drawer_menu, drawer_menu_entries, entry_views, file_menu, file_menu_entries, MenuEntry,
};
use crate::scm_app::message::edited;
use crate::scm_app::panel::{opt_view, Panel};
use crate::scm_app::rows::{
    row_exists, row_hit_spec, row_hit_with_heights, row_y, row_y_spec, visible_heights,
    with_heights, Row,
};
use crate::text::{is_blank, slice_to_string, to_chars, trim, trim_bounds};
use crate::view::{Exit, ViewKind};

verus! {

/// What follows a selection outside of the panel.
pub open spec fn selection_effects(reload: bool) -> Seq<Effect> {
    if reload {
        seq![Effect::ReloadDrawers, Effect::Persist]
    } else {
        seq![Effect::Persist]
    }
}

fn after_selection(reload: bool) -> (res: Vec<Effect>)
    ensures
        res@ == selection_effects(reload),
{
    let mut out: Vec<Effect> = Vec::new();
    if reload {
        out.push(Effect::ReloadDrawers);
    }
    out.push(Effect::Persist);
    assert(out@ =~= selection_effects(reload));
    out
}

fn clone_path(path: &Option<String>) -> (res: Option<String>)
    ensures
        res == *path,
{
    match path {
        Some(path) => Some(path.clone()),
        None => None,
    }
}

impl App {
    pub open spec fn wf(&self) -> bool {
        self.panel.wf()
    }

    // ---- Committing and synchronising ----

    /// Committing repository `index`: an empty message asks for one, nothing
    /// staged says so, else the trimmed message is committed.
    pub open spec fn commit_rel(&self, index: usize, post: &App, out: Seq<Effect>) -> bool {
        if index >= self.panel.repos@.len() {
            *post == *self && out.len() == 0
        } else {
            let repo = self.panel.repos@[index as int];
            if trim(repo.message@).len() == 0 {
                &&& *post == (App {
                    panel: Panel { active: index, ..self.panel },
                    focus: Focus::Message,
                    flash: post.flash,
                    ..*self
                })
                &&& flash_is(post.flash, "Commit message is empty."@, true)
                &&& out.len() == 0
            } else if repo.status.staged@.len() == 0 {
                &&& *post == (App { flash: post.flash, ..*self })
                &&& flash_is(post.flash, "No staged changes to commit."@, true)
                &&& out.len() == 0
            } else {
                &&& *post == *self
                &&& out.len() == 1
                &&& out[0] matches Effect::Commit { repo: r, message } && r == index && message@
                    == trim(repo.message@)
            }
        }
    }

    pub fn commit_repo(&mut self, index: usize) -> (res: Vec<Effect>)
        requires
            old(self).wf(),
        ensures
            final(self).wf(),
            old(self).commit_rel(index, final(self), res@),
    {
        if index >= self.panel.repos.len() {
            return Vec::new();
        }
        let (from, to): (usize, usize) = trim_bounds(self.panel.repos[index].message.as_slice());
        if from == to {
            self.panel.active = index;
            self.flash = Some(("Commit message is empty.".to_owned(), true));
            self.focus = Focus::Message;
            return Vec::new();
        }
        if self.panel.repos[index].status.staged.len() == 0 {
            self.flash = Some(("No staged changes to commit.".to_owned(), true));
            return Vec::new();
        }
        let message: String = slice_to_string(
            self.panel.repos[index].message.as_slice(),
            from,
            to,
        );
        vec![Effect::Commit { repo: index, message }]
    }

    /// What git said to a commit of repository `index`, and what becomes of it.
    pub open spec fn committed_rel(
        &self,
        index: usize,
        outcome: Result<String, String>,
        post: &App,
        out: Seq<Effect>,
    ) -> bool {
        &&& out == seq![Effect::Refresh, Effect::Persist]
        &&& match outcome {
            Ok(summary) => {
                &&& flash_is(post.flash, summary@, false)
                &&& *post == (App {
                    flash: post.flash,
                    focus: Focus::List,
                    panel: post.panel,
                    ..*self
                })
                &&& self.panel.message_rel(index as int, Seq::empty(), 0, &post.panel)
            },
            Err(e) => {
                &&& flash_is(post.flash, e@, true)
                &&& *post == (App { flash: post.flash, ..*self })
            },
        }
    }

    /// What git said to a commit: its summary clears the message, an error
    /// keeps it. Either way the panel refreshes and saves its state.
    pub fn committed(&mut self, index: usize, outcome: Result<String, String>) -> (res: Vec<Effect>)
        requires
            old(self).wf(),
            index < old(self).panel.repos@.len(),
        ensures
            final(self).wf(),
            old(self).committed_rel(index, outcome, final(self), res@),
    {
        match outcome {
            Ok(summary) => {
                self.flash = Some((summary, false));
                self.panel.set_message(index, Vec::new());
                self.focus = Focus::List;
            },
            Err(e) => {
                self.flash = Some((e, true));
            },
        }
        let out: Vec<Effect> = vec![Effect::Refresh, Effect::Persist];
        assert(out@ =~= seq![Effect::Refresh, Effect::Persist]);
        out
    }

    /// What becomes of a generated message, or of none.
    pub open spec fn suggested_rel(&self, message: Option<String>, post: &App) -> bool {
        match message {
            Some(text) => {
                &&& *post == (App {
                    flash: post.flash,
                    focus: Focus::Message,
                    panel: post.panel,
                    suggesting: false,
                    ..*self
                })
                &&& flash_is(post.flash, "✧ suggestion ready — edit or ⏎ to commit"@, false)
                &&& if self.panel.active < self.panel.repos@.len() {
                    self.panel.message_rel(
                        self.panel.active as int,
                        text@,
                        text@.len(),
                        &post.panel,
                    )
                } else {
                    post.panel == self.panel
                }
            },
            None => {
                &&& *post == (App { flash: post.flash, suggesting: false, ..*self })
                &&& flash_is(post.flash, "✧ generation failed"@, true)
            },
        }
    }

    /// A generated message has arrived, or its generation has failed.
    pub fn suggestion_arrived(&mut self, message: Option<String>)
        requires
            old(self).wf(),
        ensures
            final(self).wf(),
            !final(self).suggesting,
            old(self).suggested_rel(message, final(self)),
    {
        self.suggesting = false;
        match message {
            Some(text) => {
                let active: usize = self.panel.active;
                if active < self.panel.repos.len() {
                    self.panel.set_message(active, to_chars(text.as_str()));
                }
                self.focus = Focus::Message;
                self.flash = Some(("✧ suggestion ready — edit or ⏎ to commit".to_owned(), false));
            },
            None => {
                self.flash = Some(("✧ generation failed".to_owned(), true));
            },
        }
    }

    /// How the end of a synchronisation is told.
    pub open spec fn sync_ended_rel(&self, outcome: Result<(), Option<String>>, post: &App) -> bool {
        &&& *post == (App { flash: post.flash, syncing: None, ..*self })
        &&& match outcome {
            Ok(_) => post.flash == self.flash,
            Err(Some(e)) => flash_is(post.flash, e@, true),
            Err(None) => flash_is(post.flash, "sync failed"@, true),
        }
    }

    /// A synchronisation has ended: `Ok` silently, an error with its text.
    pub fn sync_ended(&mut self, outcome: Result<(), Option<String>>)
        ensures
            final(self).syncing is None,
            old(self).sync_ended_rel(outcome, final(self)),
    {
        self.syncing = None;
        match outcome {
            Ok(_) => {},
            Err(Some(e)) => {
                self.flash = Some((e, true));
            },
            Err(None) => {
                self.flash = Some(("sync failed".to_owned(), true));
            },
        }
    }

    /// Synchronising repository `index`: one at a time, and only with an
    /// upstream branch.
    pub open spec fn sync_rel(&self, index: usize, post: &App, out: Seq<Effect>) -> bool {
        if self.syncing is Some || index >= self.panel.repos@.len() {
            *post == *self && out.len() == 0
        } else if !self.panel.repos@[index as int].status.has_upstream {
            &&& *post == (App { flash: post.flash, ..*self })
            &&& flash_is(post.flash, "no upstream to sync with"@, true)
            &&& out.len() == 0
        } else {
            *post == (App { syncing: Some(index), ..*self }) && out == seq![Effect::Sync(index)]
        }
    }

    pub fn sync_repo(&mut self, index: usize) -> (res: Vec<Effect>)
        requires
            old(self).wf(),
        ensures
            final(self).wf(),
            old(self).sync_rel(index, final(self), res@),
    {
        if self.syncing.is_some() || index >= self.panel.repos.len() {
            return Vec::new();
        }
        if !self.panel.repos[index].status.has_upstream {
            self.flash = Some(("no upstream to sync with".to_owned(), true));
            return Vec::new();
        }
        self.syncing = Some(index);
        let out: Vec<Effect> = vec![Effect::Sync(index)];
        assert(out@ =~= seq![Effect::Sync(index)]);
        out
    }

    /// The active repository's main button syncs.
    pub open spec fn syncs_first(&self) -> bool {
        self.panel.active < self.panel.repos@.len() && primary_is_sync(
            self.panel.repos@[self.panel.active as int].status,
        )
    }

    pub open spec fn primary_rel(&self, post: &App, out: Seq<Effect>) -> bool {
        if self.syncs_first() {
            self.sync_rel(self.panel.active, post, out)
        } else {
            self.commit_rel(self.panel.active, post, out)
        }
    }

    pub fn run_primary_action(&mut self) -> (res: Vec<Effect>)
        requires
            old(self).wf(),
        ensures
            final(self).wf(),
            old(self).primary_rel(final(self), res@),
    {
        let active: usize = self.panel.active;
        if active < self.panel.repos.len() && sync_is_primary(&self.panel.repos[active].status) {
            self.sync_repo(active)
        } else {
            self.commit_repo(active)
        }
    }

    /// A message is generated for one repository at a time.
    pub open spec fn suggest_effects(&self) -> Seq<Effect> {
        if self.suggesting || self.panel.active >= self.panel.repos@.len() {
            Seq::empty()
        } else {
            seq![Effect::Suggest(self.panel.active)]
        }
    }

    pub fn suggest_message(&self) -> (res: Vec<Effect>)
        requires
            self.wf(),
        ensures
            res@ == self.suggest_effects(),
    {
        let mut out: Vec<Effect> = Vec::new();
        if !self.suggesting && self.panel.active < self.panel.repos.len() {
            out.push(Effect::Suggest(self.panel.active));
        }
        assert(out@ =~= self.suggest_effects());
        out
    }

    /// There is something for a commit message to describe.
    pub open spec fn describable(diff: Seq<char>, files: nat) -> bool {
        trim(diff).len() > 0 || files > 0
    }

    /// What becomes of the changes that a message is to be generated for.
    pub open spec fn described_rel(
        &self,
        outcome: Result<(String, Vec<String>), String>,
        post: &App,
        goes_on: bool,
    ) -> bool {
        &&& *post == (App { flash: post.flash, suggesting: post.suggesting, ..*self })
        &&& match outcome {
            Ok(found) => if App::describable(found.0@, found.1@.len()) {
                goes_on && flash_is(post.flash, "✧ generating commit message…"@, false)
                    && post.suggesting
            } else {
                !goes_on && flash_is(post.flash, "no changes to describe"@, true)
                    && post.suggesting == self.suggesting
            },
            Err(e) => !goes_on && flash_is(post.flash, e@, true) && post.suggesting
                == self.suggesting,
        }
    }

    /// What git gave for a commit message, a diff and the files of which there
    /// is none: nothing to describe, a generation to wait for, or git's error.
    /// Returns whether to generate.
    pub fn diff_fetched(&mut self, outcome: &Result<(String, Vec<String>), String>) -> (res: bool)
        ensures
            old(self).described_rel(*outcome, final(self), res),
    {
        match outcome {
            Ok((diff, files)) => if is_blank(diff.as_str()) && files.len() == 0 {
                self.flash = Some(("no changes to describe".to_owned(), true));
                false
            } else {
                self.suggesting = true;
                self.flash = Some(("✧ generating commit message…".to_owned(), false));
                true
            },
            Err(e) => {
                self.flash = Some((e.clone(), true));
                false
            },
        }
    }

    // ---- Previews ----

    pub open spec fn diff_rel(
        &self,
        repo: usize,
        entry: FileEntry,
        staged: bool,
        pin: bool,
        post: &App,
        out: Seq<Effect>,
    ) -> bool {
        if !self.in_pane {
            &&& *post == (App { flash: post.flash, ..*self })
            &&& flash_is(post.flash, "diff preview needs a herdr pane"@, true)
            &&& out.len() == 0
        } else if repo >= self.panel.repos@.len() {
            *post == *self && out.len() == 0
        } else {
            *post == *self && out == seq![Effect::OpenDiff { repo, entry, staged, pin }]
        }
    }

    /// Show a file's diff in the preview beside the sidebar.
    pub fn open_diff(&mut self, repo: usize, entry: FileEntry, staged: bool, pin: bool) -> (res: Vec<
        Effect,
    >)
        requires
            old(self).wf(),
        ensures
            final(self).wf(),
            old(self).diff_rel(repo, entry, staged, pin, final(self), res@),
    {
        if !self.in_pane {
            self.flash = Some(("diff preview needs a herdr pane".to_owned(), true));
            return Vec::new();
        }
        if repo >= self.panel.repos.len() {
            return Vec::new();
        }
        let out: Vec<Effect> = vec![Effect::OpenDiff { repo, entry, staged, pin }];
        assert(out@ =~= seq![Effect::OpenDiff { repo, entry, staged, pin }]);
        out
    }

    pub open spec fn ref_rel(
        &self,
        kind: Drawer,
        index: usize,
        pin: bool,
        post: &App,
        out: Seq<Effect>,
    ) -> bool {
        let target = show_target(self.panel.drawers@[kind.index_spec()].refs@[index as int]@);
        if !self.in_pane {
            &&& *post == (App { flash: post.flash, ..*self })
            &&& flash_is(post.flash, "preview needs a herdr pane"@, true)
            &&& out.len() == 0
        } else if self.panel.active >= self.panel.repos@.len() || index
            >= self.panel.drawers@[kind.index_spec()].refs@.len() || target is None {
            *post == *self && out.len() == 0
        } else {
            &&& *post == *self
            &&& out.len() == 1
            &&& out[0] matches Effect::OpenRef { spec, file, pin: p } && Some(spec@) == target && p
                == pin && opt_view(file) == (if kind == Drawer::FileHistory {
                self.panel.history()
            } else {
                None
            })
        }
    }

    /// Click or Enter on a drawer line: show the commit, stash, tag or branch
    /// tip in the preview.
    pub fn open_drawer_ref(&mut self, kind: Drawer, index: usize, pin: bool) -> (res: Vec<Effect>)
        requires
            old(self).wf(),
        ensures
            final(self).wf(),
            old(self).ref_rel(kind, index, pin, final(self), res@),
    {
        if !self.in_pane {
            self.flash = Some(("preview needs a herdr pane".to_owned(), true));
            return Vec::new();
        }
        if self.panel.active >= self.panel.repos.len() {
            return Vec::new();
        }
        let k: usize = kind.index();
        if index >= self.panel.drawers[k].refs.len() {
            return Vec::new();
        }
        match show_spec(&self.panel.drawers[k].refs[index]) {
            None => Vec::new(),
            Some(spec) => {
                let file: Option<String> = if kind == Drawer::FileHistory {
                    clone_path(&self.panel.history_target)
                } else {
                    None
                };
                vec![Effect::OpenRef { spec, file, pin }]
            },
        }
    }

    // ---- Activating a row ----

    /// Enter or Space on the selected row: fold or unfold a section or drawer,
    /// show a reference, or move a file between the staged and unstaged lists.
    pub open spec fn activate_rel(&self, post: &App, out: Seq<Effect>) -> bool {
        match self.panel.selected_row() {
            None => *post == *self && out.len() == 0,
            Some(row) => match row {
                Row::Message(_) => *post == *self && out == seq![Effect::Persist],
                Row::Commit(_) => *post == *self && out == seq![Effect::Persist],
                Row::DrawerLine(kind, i) => {
                    &&& out.len() > 0
                    &&& out.last() == Effect::Persist
                    &&& self.ref_rel(kind, i, false, post, out.drop_last())
                },
                Row::Staged(r, i) => {
                    &&& *post == *self
                    &&& out == seq![
                        Effect::Unstage {
                            repo: r,
                            entry: self.panel.repos@[r as int].status.staged@[i as int],
                        },
                        Effect::Refresh,
                        Effect::Persist,
                    ]
                },
                Row::Unstaged(r, i) => {
                    &&& *post == *self
                    &&& out == seq![
                        Effect::Stage {
                            repo: r,
                            entry: self.panel.repos@[r as int].status.unstaged@[i as int],
                        },
                        Effect::Refresh,
                        Effect::Persist,
                    ]
                },
                _ => exists|reload: bool|
                    {
                        &&& *post == (App { panel: post.panel, ..*self })
                        &&& #[trigger] self.panel.toggle_rel(row, &post.panel, reload)
                        &&& out == selection_effects(reload)
                    },
            },
        }
    }

    pub fn activate(&mut self) -> (res: Vec<Effect>)
        requires
            old(self).wf(),
        ensures
            final(self).wf(),
            old(self).activate_rel(final(self), res@),
    {
        let row: Row = match self.panel.selected {
            None => {
                return Vec::new();
            },
            Some(i) => self.panel.rows[i],
        };
        assert(row_exists(row, self.panel.repos@, self.panel.drawers@));
        match row {
            Row::Message(_) | Row::Commit(_) => after_selection(false),
            Row::DrawerLine(kind, i) => {
                let mut out: Vec<Effect> = self.open_drawer_ref(kind, i, false);
                let ghost before: Seq<Effect> = out@;
                out.push(Effect::Persist);
                assert(out@.drop_last() =~= before);
                out
            },
            Row::Staged(r, i) => {
                let entry: FileEntry = self.panel.repos[r].status.staged[i].clone();
                let out: Vec<Effect> = vec![
                    Effect::Unstage { repo: r, entry },
                    Effect::Refresh,
                    Effect::Persist,
                ];
                assert(out@ =~= seq![
                    Effect::Unstage { repo: r, entry },
                    Effect::Refresh,
                    Effect::Persist,
                ]);
                out
            },
            Row::Unstaged(r, i) => {
                let entry: FileEntry = self.panel.repos[r].status.unstaged[i].clone();
                let out: Vec<Effect> = vec![
                    Effect::Stage { repo: r, entry },
                    Effect::Refresh,
                    Effect::Persist,
                ];
                assert(out@ =~= seq![
                    Effect::Stage { repo: r, entry },
                    Effect::Refresh,
                    Effect::Persist,
                ]);
                out
            },
            _ => {
                let reload: bool = self.panel.toggle(row);
                let out: Vec<Effect> = after_selection(reload);
                assert(old(self).panel.toggle_rel(row, &self.panel, reload));
                out
            },
        }
    }

    // ---- Context menus ----

    /// The visible row at a line of the pane, with the line within it.
    pub open spec fn hit_at(&self, line: u16) -> Option<(usize, u16)> {
        row_hit_spec(
            self.body,
            line,
            with_heights(
                self.panel.rows@,
                self.panel.repos@,
                self.panel.width,
                self.body.offset as int,
            ),
        )
    }

    pub fn row_hit(&self, line: u16) -> (res: Option<(usize, u16)>)
        requires
            self.wf(),
        ensures
            res == self.hit_at(line),
            res matches Some(hit) ==> hit.0 < self.panel.rows@.len(),
    {
        let list: Vec<(usize, u16)> = visible_heights(
            &self.panel.rows,
            &self.panel.repos,
            self.panel.width,
            self.body.offset,
        );
        let count: usize = self.panel.rows.len();
        proof {
            crate::scm_app::rows::law_hits_lie_inside_their_row(self.body, line, list@);
        }
        row_hit_with_heights(self.body, line, list.as_slice())
    }

    /// The menu that a row has: a file's or a drawer line's; headers have none.
    pub open spec fn menu_rel(&self, x: u16, y: u16, row: Row, post: Option<Overlay>) -> bool {
        match row {
            Row::Staged(r, i) => {
                let entry = self.panel.repos@[r as int].status.staged@[i as int];
                post matches Some(Overlay::Menu {
                    x: mx,
                    y: my,
                    target: MenuTarget::File { repo, entry: e, staged },
                    entries,
                    selected,
                    rect,
                }) && mx == x && my == y && repo == r && e == entry && staged && entry_views(
                    entries@,
                ) == file_menu(entry.letter, true) && selected == 0 && rect == Area::empty_spec()
            },
            Row::Unstaged(r, i) => {
                let entry = self.panel.repos@[r as int].status.unstaged@[i as int];
                post matches Some(Overlay::Menu {
                    x: mx,
                    y: my,
                    target: MenuTarget::File { repo, entry: e, staged },
                    entries,
                    selected,
                    rect,
                }) && mx == x && my == y && repo == r && e == entry && !staged && entry_views(
                    entries@,
                ) == file_menu(entry.letter, false) && selected == 0 && rect
                    == Area::empty_spec()
            },
            Row::DrawerLine(kind, i) => {
                let dref = self.panel.drawers@[kind.index_spec()].refs@[i as int];
                if drawer_menu(dref@).len() == 0 {
                    post == self.overlay
                } else {
                    post matches Some(Overlay::Menu {
                        x: mx,
                        y: my,
                        target: MenuTarget::Drawer { kind: k, index },
                        entries,
                        selected,
                        rect,
                    }) && mx == x && my == y && k == kind && index == i && entry_views(entries@)
                        == drawer_menu(dref@) && selected == 0 && rect == Area::empty_spec()
                }
            },
            _ => post == self.overlay,
        }
    }

    pub open spec fn context_rel(&self, x: u16, y: u16, post: &App, out: Seq<Effect>) -> bool {
        match self.hit_at(y) {
            None => *post == *self && out.len() == 0,
            Some(hit) => exists|reload: bool|
                {
                    &&& *post == (App { panel: post.panel, overlay: post.overlay, ..*self })
                    &&& #[trigger] self.panel.select_rel(hit.0, &post.panel, reload)
                    &&& out == selection_effects(reload)
                    &&& self.menu_rel(x, y, self.panel.rows@[hit.0 as int], post.overlay)
                },
        }
    }

    /// The context menu for the row that is drawn at line `y`.
    pub fn open_context_menu(&mut self, x: u16, y: u16) -> (res: Vec<Effect>)
        requires
            old(self).wf(),
        ensures
            final(self).wf(),
            old(self).context_rel(x, y, final(self), res@),
    {
        let index: usize = match self.row_hit(y) {
            Some((index, _)) => index,
            None => {
                return Vec::new();
            },
        };
        let row: Row = self.panel.rows[index];
        assert(row_exists(row, self.panel.repos@, self.panel.drawers@));
        let reload: bool = self.panel.select(index);
        assert(old(self).panel.select_rel(index, &self.panel, reload));
        match row {
            Row::Staged(r, i) => {
                let entry: FileEntry = self.panel.repos[r].status.staged[i].clone();
                let entries: Vec<MenuEntry> = file_menu_entries(entry.letter, true);
                self.overlay = Some(
                    Overlay::Menu {
                        x,
                        y,
                        target: MenuTarget::File { repo: r, entry, staged: true },
                        entries,
                        selected: 0,
                        rect: Area::empty(),
                    },
                );
            },
            Row::Unstaged(r, i) => {
                let entry: FileEntry = self.panel.repos[r].status.unstaged[i].clone();
                let entries: Vec<MenuEntry> = file_menu_entries(entry.letter, false);
                self.overlay = Some(
                    Overlay::Menu {
                        x,
                        y,
                        target: MenuTarget::File { repo: r, entry, staged: false },
                        entries,
                        selected: 0,
                        rect: Area::empty(),
                    },
                );
            },
            Row::DrawerLine(kind, i) => {
                let k: usize = kind.index();
                assert(self.panel.drawers@[k as int].wf());
                let entries: Vec<MenuEntry> = drawer_menu_entries(&self.panel.drawers[k].refs[i]);
                assert(entry_views(entries@).len() == entries@.len());
                if entries.len() > 0 {
                    self.overlay = Some(
                        Overlay::Menu {
                            x,
                            y,
                            target: MenuTarget::Drawer { kind, index: i },
                            entries,
                            selected: 0,
                            rect: Area::empty(),
                        },
                    );
                }
            },
            _ => {},
        }
        after_selection(reload)
    }

    pub open spec fn selection_line(&self) -> Option<u16> {
        match self.panel.selected {
            Some(i) => row_y_spec(
                self.panel.rows@,
                self.panel.repos@,
                self.panel.width,
                self.body,
                i as int,
            ),
            None => None,
        }
    }

    /// `m`: the context menu from the keyboard, on the selected row.
    pub fn open_menu_for_selection(&mut self) -> (res: Vec<Effect>)
        requires
            old(self).wf(),
        ensures
            final(self).wf(),
            match old(self).selection_line() {
                Some(y) => old(self).context_rel(2, y, final(self), res@),
                None => *final(self) == *old(self) && res@.len() == 0,
            },
    {
        let index: usize = match self.panel.selected {
            Some(index) => index,
            None => {
                return Vec::new();
            },
        };
        match row_y(
            &self.panel.rows,
            &self.panel.repos,
            self.panel.width,
            self.body,
            index,
        ) {
            Some(y) => self.open_context_menu(2, y),
            None => Vec::new(),
        }
    }

    // ---- Keys ----

    /// A key in the commit message box: Enter commits, Tab and the vertical
    /// keys leave it, and everything else edits the text.
    pub open spec fn message_key_rel(&self, key: Key, post: &App, out: Seq<Effect>) -> bool {
        if key.code == KeyCode::Enter {
            self.commit_rel(self.panel.active, post, out)
        } else {
            let focus = match key.code {
                KeyCode::Esc => Focus::List,
                KeyCode::Tab => Focus::Commit,
                KeyCode::BackTab => Focus::List,
                KeyCode::Down => Focus::Commit,
                _ => self.focus,
            };
            let r = self.panel.active as int;
            &&& out.len() == 0
            &&& *post == (App { focus, panel: post.panel, ..*self })
            &&& if r < self.panel.repos@.len() {
                let repo = self.panel.repos@[r];
                let (message, cursor) = edited(repo.message@, repo.cursor as nat, key);
                self.panel.message_rel(r, message, cursor, &post.panel)
            } else {
                post.panel == self.panel
            }
        }
    }

    pub fn on_message_key(&mut self, key: Key) -> (res: Vec<Effect>)
        requires
            old(self).wf(),
        ensures
            final(self).wf(),
            old(self).message_key_rel(key, final(self), res@),
    {
        let active: usize = self.panel.active;
        match key.code {
            KeyCode::Enter => {
                return self.commit_repo(active);
            },
            KeyCode::Esc => {
                self.focus = Focus::List;
            },
            KeyCode::Tab => {
                self.focus = Focus::Commit;
            },
            KeyCode::BackTab => {
                self.focus = Focus::List;
            },
            KeyCode::Down => {
                self.focus = Focus::Commit;
            },
            _ => {},
        }
        if active < self.panel.repos.len() {
            self.panel.edit(active, key);
        }
        Vec::new()
    }

    /// A key on the main button.
    pub open spec fn button_key_rel(&self, key: Key, post: &App, out: Seq<Effect>) -> bool {
        match key.code {
            KeyCode::Enter => self.primary_rel(post, out),
            KeyCode::Char(' ') => self.primary_rel(post, out),
            KeyCode::Esc => *post == (App { focus: Focus::List, ..*self }) && out.len() == 0,
            KeyCode::Tab => *post == (App { focus: Focus::List, ..*self }) && out.len() == 0,
            KeyCode::Down => *post == (App { focus: Focus::List, ..*self }) && out.len() == 0,
            KeyCode::BackTab => *post == (App { focus: Focus::Message, ..*self }) && out.len()
                == 0,
            KeyCode::Up => *post == (App { focus: Focus::Message, ..*self }) && out.len() == 0,
            _ => *post == *self && out.len() == 0,
        }
    }

    pub fn on_button_key(&mut self, key: Key) -> (res: Vec<Effect>)
        requires
            old(self).wf(),
        ensures
            final(self).wf(),
            old(self).button_key_rel(key, final(self), res@),
    {
        match key.code {
            KeyCode::Enter => {
                return self.run_primary_action();
            },
            KeyCode::Char(' ') => {
                return self.run_primary_action();
            },
            KeyCode::Esc => {
                self.focus = Focus::List;
            },
            KeyCode::Tab => {
                self.focus = Focus::List;
            },
            KeyCode::Down => {
                self.focus = Focus::List;
            },
            KeyCode::BackTab => {
                self.focus = Focus::Message;
            },
            KeyCode::Up => {
                self.focus = Focus::Message;
            },
            _ => {},
        }
        Vec::new()
    }

    /// Handing the pane to another view: only in a unified sidebar, and only
    /// to a view that is not this one.
    pub open spec fn switch_out(&self, view: ViewKind) -> (Seq<Effect>, Option<Exit>) {
        if !self.merged || view == ViewKind::SourceControl {
            (Seq::empty(), None)
        } else {
            (seq![Effect::ShareView { view, search: false }], Some(Exit::Switch))
        }
    }

    pub fn switch_to(&self, view: ViewKind) -> (res: (Vec<Effect>, Option<Exit>))
        ensures
            (res.0@, res.1) == self.switch_out(view),
    {
        if !self.merged || view == ViewKind::SourceControl {
            let out: Vec<Effect> = Vec::new();
            assert(out@ =~= Seq::empty());
            return (out, None);
        }
        let out: Vec<Effect> = vec![Effect::ShareView { view, search: false }];
        assert(out@ =~= seq![Effect::ShareView { view, search: false }]);
        (out, Some(Exit::Switch))
    }

    pub open spec fn search_out(&self, focus_query: bool) -> (Seq<Effect>, Option<Exit>) {
        if !self.merged {
            (Seq::empty(), None)
        } else {
            (
                seq![Effect::ShareView { view: ViewKind::Explorer, search: true }],
                Some(Exit::Search { focus_query }),
            )
        }
    }

    pub fn open_search(&self, focus_query: bool) -> (res: (Vec<Effect>, Option<Exit>))
        ensures
            (res.0@, res.1) == self.search_out(focus_query),
    {
        if !self.merged {
            let out: Vec<Effect> = Vec::new();
            assert(out@ =~= Seq::empty());
            return (out, None);
        }
        let out: Vec<Effect> = vec![Effect::ShareView { view: ViewKind::Explorer, search: true }];
        assert(out@ =~= seq![Effect::ShareView { view: ViewKind::Explorer, search: true }]);
        (out, Some(Exit::Search { focus_query }))
    }

    pub open spec fn moved_rel(&self, delta: int, post: &App, out: Seq<Effect>) -> bool {
        exists|reload: bool|
            {
                &&& *post == (App { panel: post.panel, ..*self })
                &&& #[trigger] self.panel.move_rel(delta, &post.panel, reload)
                &&& out == selection_effects(reload)
            }
    }

    pub open spec fn selected_rel(&self, index: usize, post: &App, out: Seq<Effect>) -> bool {
        exists|reload: bool|
            {
                &&& *post == (App { panel: post.panel, ..*self })
                &&& #[trigger] self.panel.select_rel(index, &post.panel, reload)
                &&& out == selection_effects(reload)
            }
    }

    /// The diff of the selected file.
    pub open spec fn selected_diff_rel(&self, post: &App, out: Seq<Effect>) -> bool {
        match self.panel.selected_row() {
            Some(Row::Staged(r, i)) => self.diff_rel(
                r,
                self.panel.repos@[r as int].status.staged@[i as int],
                true,
                false,
                post,
                out,
            ),
            Some(Row::Unstaged(r, i)) => self.diff_rel(
                r,
                self.panel.repos@[r as int].status.unstaged@[i as int],
                false,
                false,
                post,
                out,
            ),
            _ => *post == *self && out.len() == 0,
        }
    }

    /// `o`: open the diff for the currently selected file row.
    pub fn open_selected_diff(&mut self) -> (res: Vec<Effect>)
        requires
            old(self).wf(),
        ensures
            final(self).wf(),
            old(self).selected_diff_rel(final(self), res@),
    {
        let row: Row = match self.panel.selected {
            Some(i) => self.panel.rows[i],
            None => {
                return Vec::new();
            },
        };
        assert(row_exists(row, self.panel.repos@, self.panel.drawers@));
        match row {
            Row::Staged(r, i) => {
                let entry: FileEntry = self.panel.repos[r].status.staged[i].clone();
                self.open_diff(r, entry, true, false)
            },
            Row::Unstaged(r, i) => {
                let entry: FileEntry = self.panel.repos[r].status.unstaged[i].clone();
                self.open_diff(r, entry, false, false)
            },
            _ => Vec::new(),
        }
    }

    /// What the list does on a command.
    pub open spec fn list_rel(
        &self,
        command: ListCommand,
        post: &App,
        out: Seq<Effect>,
        exit: Option<Exit>,
    ) -> bool {
        let active = self.panel.active;
        let has_repo = active < self.panel.repos@.len();
        match command {
            ListCommand::Nothing => *post == *self && out.len() == 0 && exit is None,
            ListCommand::Quit => *post == *self && out.len() == 0 && exit == Some(Exit::Quit),
            ListCommand::ClosePreview => *post == *self && out == seq![Effect::ClosePreview]
                && exit is None,
            ListCommand::FocusMessage => *post == (App { focus: Focus::Message, ..*self })
                && out.len() == 0 && exit is None,
            ListCommand::FocusCommit => *post == (App { focus: Focus::Commit, ..*self })
                && out.len() == 0 && exit is None,
            ListCommand::Up => self.moved_rel(-1, post, out) && exit is None,
            ListCommand::Down => self.moved_rel(1, post, out) && exit is None,
            ListCommand::PageUp => self.moved_rel(-self.page, post, out) && exit is None,
            ListCommand::PageDown => self.moved_rel(self.page as int, post, out) && exit is None,
            ListCommand::First => self.selected_rel(0, post, out) && exit is None,
            ListCommand::Last => self.selected_rel(
                (self.panel.rows@.len() - 1) as usize,
                post,
                out,
            ) && exit is None,
            ListCommand::Activate => self.activate_rel(post, out) && exit is None,
            ListCommand::StageAll => *post == *self && exit is None && out == (if has_repo {
                seq![Effect::StageAll(active), Effect::Refresh]
            } else {
                Seq::empty()
            }),
            ListCommand::UnstageAll => *post == *self && exit is None && out == (if has_repo {
                seq![Effect::UnstageAll(active), Effect::Refresh]
            } else {
                Seq::empty()
            }),
            ListCommand::Refresh => *post == *self && out == seq![Effect::Refresh] && exit is None,
            ListCommand::ToggleIcons => *post == *self && out == seq![Effect::ToggleIcons]
                && exit is None,
            ListCommand::Suggest => *post == *self && out == self.suggest_effects()
                && exit is None,
            ListCommand::Settings => {
                &&& *post == (App { overlay: post.overlay, ..*self })
                &&& post.overlay == Some(
                    Overlay::Settings { selected: 0, rect: Area::empty_spec(), scroll: 0 },
                )
                &&& out.len() == 0
                &&& exit is None
            },
            ListCommand::Sync => self.sync_rel(active, post, out) && exit is None,
            ListCommand::OpenDiff => self.selected_diff_rel(post, out) && exit is None,
            ListCommand::Menu => exit is None && match self.selection_line() {
                Some(y) => self.context_rel(2, y, post, out),
                None => *post == *self && out.len() == 0,
            },
            ListCommand::Hide => *post == *self && out == seq![Effect::Close { snooze: true }]
                && exit is None,
            ListCommand::Explorer => *post == *self && (out, exit) == self.switch_out(
                ViewKind::Explorer,
            ),
            ListCommand::Search => *post == *self && (out, exit) == self.search_out(false),
        }
    }

    fn moved(&mut self, delta: isize) -> (res: Vec<Effect>)
        requires
            old(self).wf(),
            delta > isize::MIN,
        ensures
            final(self).wf(),
            old(self).moved_rel(delta as int, final(self), res@),
    {
        let reload: bool = self.panel.move_by(delta);
        let out: Vec<Effect> = after_selection(reload);
        assert(old(self).panel.move_rel(delta as int, &self.panel, reload));
        out
    }

    fn selected(&mut self, index: usize) -> (res: Vec<Effect>)
        requires
            old(self).wf(),
        ensures
            final(self).wf(),
            old(self).selected_rel(index, final(self), res@),
    {
        let reload: bool = self.panel.select(index);
        let out: Vec<Effect> = after_selection(reload);
        assert(old(self).panel.select_rel(index, &self.panel, reload));
        out
    }

    /// The settings button, or its key.
    pub fn open_settings(&mut self)
        ensures
            *final(self) == (App { overlay: final(self).overlay, ..*old(self) }),
            final(self).overlay == Some(
                Overlay::Settings { selected: 0, rect: Area::empty_spec(), scroll: 0 },
            ),
    {
        self.overlay = Some(Overlay::Settings { selected: 0, rect: Area::empty(), scroll: 0 });
    }

    fn run_list_command(&mut self, command: ListCommand) -> (res: (Vec<Effect>, Option<Exit>))
        requires
            old(self).wf(),
        ensures
            final(self).wf(),
            old(self).list_rel(command, final(self), res.0@, res.1),
    {
        let active: usize = self.panel.active;
        let page: isize = self.page as isize;
        let out: Vec<Effect> = match command {
            ListCommand::Nothing => Vec::new(),
            ListCommand::Quit => {
                return (Vec::new(), Some(Exit::Quit));
            },
            ListCommand::ClosePreview => vec![Effect::ClosePreview],
            ListCommand::FocusMessage => {
                self.focus = Focus::Message;
                Vec::new()
            },
            ListCommand::FocusCommit => {
                self.focus = Focus::Commit;
                Vec::new()
            },
            ListCommand::Up => self.moved(-1),
            ListCommand::Down => self.moved(1),
            ListCommand::PageUp => self.moved(-page),
            ListCommand::PageDown => self.moved(page),
            ListCommand::First => self.selected(0),
            ListCommand::Last => {
                let last: usize = self.panel.rows.len() - 1;
                self.selected(last)
            },
            ListCommand::Activate => self.activate(),
            ListCommand::StageAll => if active < self.panel.repos.len() {
                vec![Effect::StageAll(active), Effect::Refresh]
            } else {
                Vec::new()
            },
            ListCommand::UnstageAll => if active < self.panel.repos.len() {
                vec![Effect::UnstageAll(active), Effect::Refresh]
            } else {
                Vec::new()
            },
            ListCommand::Refresh => vec![Effect::Refresh],
            ListCommand::ToggleIcons => vec![Effect::ToggleIcons],
            ListCommand::Suggest => self.suggest_message(),
            ListCommand::Settings => {
                self.open_settings();
                Vec::new()
            },
            ListCommand::Sync => self.sync_repo(active),
            ListCommand::OpenDiff => self.open_selected_diff(),
            ListCommand::Menu => self.open_menu_for_selection(),
            ListCommand::Hide => vec![Effect::Close { snooze: true }],
            ListCommand::Explorer => {
                return self.switch_to(ViewKind::Explorer);
            },
            ListCommand::Search => {
                return self.open_search(false);
            },
        };
        proof {
            match command {
                ListCommand::ClosePreview => {
                    assert(out@ =~= seq![Effect::ClosePreview]);
                },
                ListCommand::StageAll => {
                    assert(active < self.panel.repos@.len() ==> out@ =~= seq![
                        Effect::StageAll(active),
                        Effect::Refresh,
                    ]);
                    assert(active >= self.panel.repos@.len() ==> out@ =~= Seq::empty());
                },
                ListCommand::UnstageAll => {
                    assert(active < self.panel.repos@.len() ==> out@ =~= seq![
                        Effect::UnstageAll(active),
                        Effect::Refresh,
                    ]);
                    assert(active >= self.panel.repos@.len() ==> out@ =~= Seq::empty());
                },
                ListCommand::Refresh => {
                    assert(out@ =~= seq![Effect::Refresh]);
                },
                ListCommand::ToggleIcons => {
                    assert(out@ =~= seq![Effect::ToggleIcons]);
                },
                ListCommand::Hide => {
                    assert(out@ =~= seq![Effect::Close { snooze: true }]);
                },
                _ => {},
            }
        }
        (out, None)
    }

    /// A key in the list.
    pub fn on_list_key(&mut self, key: Key) -> (res: (Vec<Effect>, Option<Exit>))
        requires
            old(self).wf(),
        ensures
            final(self).wf(),
            old(self).list_rel(list_command_spec(key.code), final(self), res.0@, res.1),
    {
        let command: ListCommand = list_command(key.code);
        self.run_list_command(command)
    }
}

} // verus!
