//! What the mouse does in the Source Control panel.

use vstd::prelude::*;

use crate::columns::columns;
use crate::geometry::{
    hits, hits_activity_button, hits_collapse_button, in_area, in_zone, on_activity_button,
    on_collapse_button, within, Area,
};
use crate::git::FileEntry;
use crate::input::{Mouse, MouseKind};
use crate::scm_app::app::{flash_is, App, ClickZones, Effect, Focus, Overlay};
use crate::scm_app::drawer::Drawer;
use crate::scm_app::header::{
    action_zones, badge_spec, branch_text_spec, branch_zone, changes_action_at,
    changes_header_action_at, changes_start, file_hover_action_at, hover_action_at, primary_is_sync,
    repo_header_action_zones, repo_header_branch_zone, sync_is_primary, ChangesHeaderAction,
    FileHoverAction, REPO_HEADER_ACTIONS,
};
use crate::scm_app::keys::selection_effects;
use crate::scm_app::panel::Panel;
use crate::scm_app::rows::{row_exists, Row};
use crate::scm_app::snapshot::same_doc;
use crate::text::string_views;
use crate::view::{double_click, is_double, Exit, TitleAction, ViewKind};

verus! {

/// What a click is for.
#[derive(Clone, Copy, PartialEq, Eq, Structural, Debug)]
pub enum ClickTarget {
    Nothing,
    Hide,
    View(ViewKind),
    Search,
    Settings,
    Title(TitleAction),
    Suggest,
    Message,
    Primary,
    Sync,
    Branch,
    /// A row of the list, and the line within it.
    Row(usize, u16),
}

/// The first title button under a cell, from `k` on.
pub open spec fn title_at(zones: Seq<(Area, TitleAction)>, k: int, x: u16, y: u16) -> Option<
    TitleAction,
>
    decreases zones.len() - k,
{
    if 0 <= k < zones.len() {
        if in_area(zones[k].0, x, y) {
            Some(zones[k].1)
        } else {
            title_at(zones, k + 1, x, y)
        }
    } else {
        None
    }
}

pub fn title_hit(zones: &Vec<(Area, TitleAction)>, x: u16, y: u16) -> (res: Option<TitleAction>)
    ensures
        res == title_at(zones@, 0, x, y),
{
    let mut k: usize = 0;
    while k < zones.len()
        invariant
            k <= zones@.len(),
            title_at(zones@, k as int, x, y) == title_at(zones@, 0, x, y),
        decreases zones@.len() - k,
    {
        if hits(zones[k].0, x, y) {
            return Some(zones[k].1);
        }
        k += 1;
    }
    None
}

/// What a click on a row does.
#[derive(Clone, Copy, PartialEq, Eq, Structural, Debug)]
pub enum RowClick {
    Nothing,
    /// Show the diff of a file; with `pin`, keep the preview that shows it.
    OpenDiff { repo: usize, index: usize, staged: bool, pin: bool },
    Unstage { repo: usize, index: usize },
    Stage { repo: usize, index: usize },
    /// Ask before the changes of a file are thrown away.
    Discard { repo: usize, index: usize },
    /// Generate a message for this repository.
    SuggestFor(usize),
    /// Type into this repository's message box.
    TypeInto(usize),
    /// This repository's inline button.
    Sync(usize),
    Commit(usize),
    /// The icons of a repository's row.
    HeaderSync(usize),
    HeaderCommit(usize),
    HeaderBranch(usize),
    /// Fold or unfold what the row heads.
    Fold,
    UnstageAll(usize),
    Header(usize, ChangesHeaderAction),
    OpenRef { kind: Drawer, index: usize, pin: bool },
}

impl App {
    /// The preview shows the document of this row already.
    pub open spec fn previews(&self, row: Row) -> bool {
        self.last_preview matches Some(key) && self.panel.doc_of(row) == Some(key@)
    }

    pub fn shows_row(&self, index: usize) -> (res: bool)
        requires
            self.wf(),
            index < self.panel.rows@.len(),
        ensures
            res == self.previews(self.panel.rows@[index as int]),
    {
        match (&self.last_preview, self.panel.doc_key_for_row(index)) {
            (Some(shown), Some(own)) => same_doc(shown, &own),
            _ => false,
        }
    }

    /// What a click at a cell is for: the buttons first, in the order in which
    /// they lie over each other, then the rows.
    pub open spec fn click_target_spec(&self, x: u16, y: u16) -> ClickTarget {
        let z = self.zones;
        if on_collapse_button(x, y, self.panel.width, self.height) {
            ClickTarget::Hide
        } else if self.merged && on_activity_button(z.explorer, z.activity_row, x, y) {
            ClickTarget::View(ViewKind::Explorer)
        } else if self.merged && on_activity_button(z.search, z.activity_row, x, y) {
            ClickTarget::Search
        } else if self.merged && on_activity_button(z.source_control, z.activity_row, x, y) {
            ClickTarget::View(ViewKind::SourceControl)
        } else if in_area(z.gear, x, y) {
            ClickTarget::Settings
        } else if title_at(self.title_zones@, 0, x, y) is Some {
            ClickTarget::Title(title_at(self.title_zones@, 0, x, y)->0)
        } else if in_area(z.sparkle, x, y) {
            ClickTarget::Suggest
        } else if in_area(z.message, x, y) {
            ClickTarget::Message
        } else if in_area(z.button, x, y) {
            ClickTarget::Primary
        } else if in_area(z.sync, x, y) {
            ClickTarget::Sync
        } else if in_area(z.header_branch, x, y) || in_area(z.footer_branch, x, y) {
            ClickTarget::Branch
        } else if in_area(z.footer_sync, x, y) {
            ClickTarget::Sync
        } else {
            match self.hit_at(y) {
                Some(hit) => ClickTarget::Row(hit.0, hit.1),
                None => ClickTarget::Nothing,
            }
        }
    }

    pub fn click_target(&self, x: u16, y: u16) -> (res: ClickTarget)
        requires
            self.wf(),
        ensures
            res == self.click_target_spec(x, y),
            res matches ClickTarget::Row(index, _) ==> index < self.panel.rows@.len(),
    {
        let z: ClickZones = self.zones;
        if hits_collapse_button(x, y, self.panel.width, self.height) {
            return ClickTarget::Hide;
        }
        if self.merged {
            if hits_activity_button(z.explorer, z.activity_row, x, y) {
                return ClickTarget::View(ViewKind::Explorer);
            }
            if hits_activity_button(z.search, z.activity_row, x, y) {
                return ClickTarget::Search;
            }
            if hits_activity_button(z.source_control, z.activity_row, x, y) {
                return ClickTarget::View(ViewKind::SourceControl);
            }
        }
        if hits(z.gear, x, y) {
            return ClickTarget::Settings;
        }
        if let Some(action) = title_hit(&self.title_zones, x, y) {
            return ClickTarget::Title(action);
        }
        if hits(z.sparkle, x, y) {
            return ClickTarget::Suggest;
        }
        if hits(z.message, x, y) {
            return ClickTarget::Message;
        }
        if hits(z.button, x, y) {
            return ClickTarget::Primary;
        }
        if hits(z.sync, x, y) {
            return ClickTarget::Sync;
        }
        if hits(z.header_branch, x, y) || hits(z.footer_branch, x, y) {
            return ClickTarget::Branch;
        }
        if hits(z.footer_sync, x, y) {
            return ClickTarget::Sync;
        }
        match self.row_hit(y) {
            Some((index, line)) => ClickTarget::Row(index, line),
            None => ClickTarget::Nothing,
        }
    }

    /// The hover action of a file under column `x`; only a hovered row has any.
    pub open spec fn file_action(&self, index: usize, x: u16, staged: bool) -> Option<
        FileHoverAction,
    > {
        if self.hovered == Some(index) {
            hover_action_at(x, self.panel.width, staged)
        } else {
            None
        }
    }

    /// What a click on the row `index` does, at column `x` and at line `line`
    /// of the row. `icon` stands before the branch of a repository's row.
    pub open spec fn row_click_spec(
        &self,
        index: usize,
        line: u16,
        x: u16,
        double: bool,
        icon: Seq<char>,
    ) -> RowClick {
        let row = self.panel.rows@[index as int];
        let width = self.panel.width;
        let pin = double && self.previews(row);
        match row {
            Row::Staged(repo, i) => match self.file_action(index, x, true) {
                Some(FileHoverAction::Open) => RowClick::OpenDiff {
                    repo,
                    index: i,
                    staged: true,
                    pin: false,
                },
                Some(FileHoverAction::Unstage) => RowClick::Unstage { repo, index: i },
                _ => RowClick::OpenDiff { repo, index: i, staged: true, pin },
            },
            Row::Unstaged(repo, i) => match self.file_action(index, x, false) {
                Some(FileHoverAction::Open) => RowClick::OpenDiff {
                    repo,
                    index: i,
                    staged: false,
                    pin: false,
                },
                Some(FileHoverAction::Discard) => RowClick::Discard { repo, index: i },
                Some(FileHoverAction::Stage) => RowClick::Stage { repo, index: i },
                _ => RowClick::OpenDiff { repo, index: i, staged: false, pin },
            },
            Row::Message(r) => if line == 1 && x + 4 >= width {
                RowClick::SuggestFor(r)
            } else {
                RowClick::TypeInto(r)
            },
            Row::Commit(r) => if line <= 2 && x > 0 && x + 1 < width {
                if primary_is_sync(self.panel.repos@[r as int].status) {
                    RowClick::Sync(r)
                } else {
                    RowClick::Commit(r)
                }
            } else {
                RowClick::Nothing
            },
            Row::RepoHeader(r) => {
                let icons = columns(REPO_HEADER_ACTIONS@);
                let (sync, commit) = action_zones(width, icons as u16);
                if in_zone(x, commit) {
                    RowClick::HeaderCommit(r)
                } else if in_zone(x, sync) {
                    RowClick::HeaderSync(r)
                } else if in_zone(
                    x,
                    branch_zone(
                        width,
                        icons as nat,
                        columns(branch_text_spec(icon, self.panel.repos@[r as int])) as nat,
                    ),
                ) {
                    RowClick::HeaderBranch(r)
                } else {
                    RowClick::Fold
                }
            },
            Row::StagedHeader(r) => if x + 6 >= width {
                RowClick::UnstageAll(r)
            } else {
                RowClick::Fold
            },
            Row::ChangesHeader(r) => {
                let action = changes_action_at(
                    x,
                    changes_start(
                        width,
                        columns(" ▾ Changes"@) as u16,
                        columns(
                            badge_spec(self.panel.repos@[r as int].status.unstaged@.len()),
                        ) as u16,
                    ),
                );
                if self.hovered == Some(index) && action is Some {
                    RowClick::Header(r, action->0)
                } else {
                    RowClick::Fold
                }
            },
            Row::DrawerHeader(_) => RowClick::Fold,
            Row::DrawerLine(kind, i) => RowClick::OpenRef { kind, index: i, pin },
        }
    }

    pub fn row_click(&self, index: usize, line: u16, x: u16, double: bool, icon: &str) -> (res:
        RowClick)
        requires
            self.wf(),
            index < self.panel.rows@.len(),
        ensures
            res == self.row_click_spec(index, line, x, double, icon@),
    {
        let row: Row = self.panel.rows[index];
        assert(row_exists(row, self.panel.repos@, self.panel.drawers@));
        let width: u16 = self.panel.width;
        let hovered: bool = match self.hovered {
            Some(h) => h == index,
            None => false,
        };
        let pin: bool = double && self.shows_row(index);
        match row {
            Row::Staged(repo, i) => {
                let action: Option<FileHoverAction> = if hovered {
                    file_hover_action_at(x, width, true)
                } else {
                    None
                };
                match action {
                    Some(FileHoverAction::Open) => RowClick::OpenDiff {
                        repo,
                        index: i,
                        staged: true,
                        pin: false,
                    },
                    Some(FileHoverAction::Unstage) => RowClick::Unstage { repo, index: i },
                    _ => RowClick::OpenDiff { repo, index: i, staged: true, pin },
                }
            },
            Row::Unstaged(repo, i) => {
                let action: Option<FileHoverAction> = if hovered {
                    file_hover_action_at(x, width, false)
                } else {
                    None
                };
                match action {
                    Some(FileHoverAction::Open) => RowClick::OpenDiff {
                        repo,
                        index: i,
                        staged: false,
                        pin: false,
                    },
                    Some(FileHoverAction::Discard) => RowClick::Discard { repo, index: i },
                    Some(FileHoverAction::Stage) => RowClick::Stage { repo, index: i },
                    _ => RowClick::OpenDiff { repo, index: i, staged: false, pin },
                }
            },
            Row::Message(r) => if line == 1 && x >= width.saturating_sub(4) {
                RowClick::SuggestFor(r)
            } else {
                RowClick::TypeInto(r)
            },
            Row::Commit(r) => if line <= 2 && x > 0 && x < width.saturating_sub(1) {
                if sync_is_primary(&self.panel.repos[r].status) {
                    RowClick::Sync(r)
                } else {
                    RowClick::Commit(r)
                }
            } else {
                RowClick::Nothing
            },
            Row::RepoHeader(r) => {
                let (sync, commit): ((u16, u16), (u16, u16)) = repo_header_action_zones(width);
                if within(x, commit) {
                    RowClick::HeaderCommit(r)
                } else if within(x, sync) {
                    RowClick::HeaderSync(r)
                } else if within(x, repo_header_branch_zone(&self.panel.repos[r], icon, width)) {
                    RowClick::HeaderBranch(r)
                } else {
                    RowClick::Fold
                }
            },
            Row::StagedHeader(r) => if x >= width.saturating_sub(6) {
                RowClick::UnstageAll(r)
            } else {
                RowClick::Fold
            },
            Row::ChangesHeader(r) => {
                let count: usize = self.panel.repos[r].status.unstaged.len();
                match changes_header_action_at(x, width, count) {
                    Some(action) => if hovered {
                        RowClick::Header(r, action)
                    } else {
                        RowClick::Fold
                    },
                    None => RowClick::Fold,
                }
            },
            Row::DrawerHeader(_) => RowClick::Fold,
            Row::DrawerLine(kind, i) => RowClick::OpenRef { kind, index: i, pin },
        }
    }

    // ---- Carrying a click out ----

    /// Choosing a branch of `repo`, which becomes the active one.
    pub open spec fn branch_rel(&self, repo: usize, post: &App, out: Seq<Effect>) -> bool {
        if repo >= self.panel.repos@.len() {
            *post == *self && out.len() == 0
        } else {
            &&& *post == (App { panel: Panel { active: repo, ..self.panel }, ..*self })
            &&& out == seq![Effect::PickBranch(repo)]
        }
    }

    pub fn open_branch_picker_for(&mut self, repo: usize) -> (res: Vec<Effect>)
        requires
            old(self).wf(),
        ensures
            final(self).wf(),
            old(self).branch_rel(repo, final(self), res@),
    {
        if repo >= self.panel.repos.len() {
            return Vec::new();
        }
        self.panel.active = repo;
        let out: Vec<Effect> = vec![Effect::PickBranch(repo)];
        assert(out@ =~= seq![Effect::PickBranch(repo)]);
        out
    }

    /// The branches were listed, or could not be.
    pub fn branches_listed(&mut self, outcome: Result<(), String>)
        ensures
            match outcome {
                Ok(_) => *final(self) == (App {
                    overlay: Some(Overlay::BranchPicker),
                    ..*old(self)
                }),
                Err(e) => *final(self) == (App { flash: final(self).flash, ..*old(self) })
                    && flash_is(final(self).flash, e@, true),
            },
    {
        match outcome {
            Ok(_) => {
                self.overlay = Some(Overlay::BranchPicker);
            },
            Err(e) => {
                self.flash = Some((e, true));
            },
        }
    }

    /// A header action of the Changes section: discarding asks first, stashing
    /// takes untracked files along.
    pub open spec fn header_action_rel(
        &self,
        repo: usize,
        action: ChangesHeaderAction,
        post: &App,
        out: Seq<Effect>,
    ) -> bool {
        match action {
            ChangesHeaderAction::Discard => *post == (App {
                overlay: Some(Overlay::ConfirmDiscardAll { repo }),
                ..*self
            }) && out.len() == 0,
            ChangesHeaderAction::Stash => *post == *self && out.len() == 1 && (
            out[0] matches Effect::RunGit { repo: r, args } && r == repo && string_views(args@)
                == seq!["stash"@, "push"@, "--include-untracked"@]),
            ChangesHeaderAction::Stage => *post == *self && out == seq![
                Effect::StageAll(repo),
                Effect::Refresh,
            ],
        }
    }

    pub fn run_changes_header_action(&mut self, repo: usize, action: ChangesHeaderAction) -> (res:
        Vec<Effect>)
        requires
            old(self).wf(),
        ensures
            final(self).wf(),
            old(self).header_action_rel(repo, action, final(self), res@),
    {
        match action {
            ChangesHeaderAction::Discard => {
                self.overlay = Some(Overlay::ConfirmDiscardAll { repo });
                Vec::new()
            },
            ChangesHeaderAction::Stash => {
                let args: Vec<String> = vec![
                    "stash".to_owned(),
                    "push".to_owned(),
                    "--include-untracked".to_owned(),
                ];
                assert(string_views(args@) =~= seq![
                    "stash"@,
                    "push"@,
                    "--include-untracked"@,
                ]);
                vec![Effect::RunGit { repo, args }]
            },
            ChangesHeaderAction::Stage => {
                let out: Vec<Effect> = vec![Effect::StageAll(repo), Effect::Refresh];
                assert(out@ =~= seq![Effect::StageAll(repo), Effect::Refresh]);
                out
            },
        }
    }

    /// What a click does once its row is selected.
    pub open spec fn chosen_rel(&self, click: RowClick, post: &App, out: Seq<Effect>) -> bool {
        match click {
            RowClick::OpenDiff { repo, index, staged, pin } => self.diff_rel(
                repo,
                if staged {
                    self.panel.repos@[repo as int].status.staged@[index as int]
                } else {
                    self.panel.repos@[repo as int].status.unstaged@[index as int]
                },
                staged,
                pin,
                post,
                out,
            ),
            RowClick::Unstage { repo, index } => *post == *self && out == seq![
                Effect::Unstage {
                    repo,
                    entry: self.panel.repos@[repo as int].status.staged@[index as int],
                },
                Effect::Refresh,
            ],
            RowClick::Stage { repo, index } => *post == *self && out == seq![
                Effect::Stage {
                    repo,
                    entry: self.panel.repos@[repo as int].status.unstaged@[index as int],
                },
                Effect::Refresh,
            ],
            RowClick::Discard { repo, index } => *post == (App {
                overlay: Some(
                    Overlay::ConfirmDiscard {
                        repo,
                        entry: self.panel.repos@[repo as int].status.unstaged@[index as int],
                    },
                ),
                ..*self
            }) && out.len() == 0,
            RowClick::HeaderSync(r) => self.sync_rel(r, post, out),
            RowClick::HeaderCommit(r) => self.commit_rel(r, post, out),
            RowClick::HeaderBranch(r) => self.branch_rel(r, post, out),
            RowClick::Fold => self.activate_rel(post, out),
            RowClick::UnstageAll(r) => *post == *self && out == seq![
                Effect::UnstageAll(r),
                Effect::Refresh,
            ],
            RowClick::Header(r, action) => self.header_action_rel(r, action, post, out),
            RowClick::OpenRef { kind, index, pin } => self.ref_rel(kind, index, pin, post, out),
            _ => *post == *self && out.len() == 0,
        }
    }

    /// What the click points at is there.
    pub open spec fn click_exists(&self, click: RowClick) -> bool {
        match click {
            RowClick::OpenDiff { repo, index, staged, pin } => repo < self.panel.repos@.len()
                && index < (if staged {
                self.panel.repos@[repo as int].status.staged@.len()
            } else {
                self.panel.repos@[repo as int].status.unstaged@.len()
            }),
            RowClick::Unstage { repo, index } => repo < self.panel.repos@.len() && index
                < self.panel.repos@[repo as int].status.staged@.len(),
            RowClick::Stage { repo, index } => repo < self.panel.repos@.len() && index
                < self.panel.repos@[repo as int].status.unstaged@.len(),
            RowClick::Discard { repo, index } => repo < self.panel.repos@.len() && index
                < self.panel.repos@[repo as int].status.unstaged@.len(),
            _ => true,
        }
    }

    fn run_chosen(&mut self, click: RowClick) -> (res: Vec<Effect>)
        requires
            old(self).wf(),
            old(self).click_exists(click),
        ensures
            final(self).wf(),
            old(self).chosen_rel(click, final(self), res@),
    {
        match click {
            RowClick::OpenDiff { repo, index, staged, pin } => {
                let entry: FileEntry = if staged {
                    self.panel.repos[repo].status.staged[index].clone()
                } else {
                    self.panel.repos[repo].status.unstaged[index].clone()
                };
                self.open_diff(repo, entry, staged, pin)
            },
            RowClick::Unstage { repo, index } => {
                let entry: FileEntry = self.panel.repos[repo].status.staged[index].clone();
                let out: Vec<Effect> = vec![Effect::Unstage { repo, entry }, Effect::Refresh];
                assert(out@ =~= seq![Effect::Unstage { repo, entry }, Effect::Refresh]);
                out
            },
            RowClick::Stage { repo, index } => {
                let entry: FileEntry = self.panel.repos[repo].status.unstaged[index].clone();
                let out: Vec<Effect> = vec![Effect::Stage { repo, entry }, Effect::Refresh];
                assert(out@ =~= seq![Effect::Stage { repo, entry }, Effect::Refresh]);
                out
            },
            RowClick::Discard { repo, index } => {
                let entry: FileEntry = self.panel.repos[repo].status.unstaged[index].clone();
                self.overlay = Some(Overlay::ConfirmDiscard { repo, entry });
                Vec::new()
            },
            RowClick::HeaderSync(r) => self.sync_repo(r),
            RowClick::HeaderCommit(r) => self.commit_repo(r),
            RowClick::HeaderBranch(r) => self.open_branch_picker_for(r),
            RowClick::Fold => self.activate(),
            RowClick::UnstageAll(r) => {
                let out: Vec<Effect> = vec![Effect::UnstageAll(r), Effect::Refresh];
                assert(out@ =~= seq![Effect::UnstageAll(r), Effect::Refresh]);
                out
            },
            RowClick::Header(r, action) => self.run_changes_header_action(r, action),
            RowClick::OpenRef { kind, index, pin } => self.open_drawer_ref(kind, index, pin),
            _ => Vec::new(),
        }
    }

    /// What a click on the row `index` does. The inline widgets act without
    /// being selected; every other row is selected first.
    pub open spec fn row_rel(
        &self,
        index: usize,
        click: RowClick,
        post: &App,
        out: Seq<Effect>,
    ) -> bool {
        match click {
            RowClick::Nothing => *post == *self && out.len() == 0,
            RowClick::Sync(r) => self.sync_rel(r, post, out),
            RowClick::Commit(r) => self.commit_rel(r, post, out),
            RowClick::SuggestFor(r) => self.widget_rel(r, true, post, out),
            RowClick::TypeInto(r) => self.widget_rel(r, false, post, out),
            _ => exists|mid: App, chosen: Seq<Effect>, reload: bool|
                {
                    &&& mid == (App { focus: Focus::List, panel: mid.panel, ..*self })
                    &&& #[trigger] self.panel.select_rel(index, &mid.panel, reload)
                    &&& #[trigger] mid.chosen_rel(click, post, chosen)
                    &&& out == selection_effects(reload) + chosen
                },
        }
    }

    /// A click into the message box of repository `r`: it becomes the active
    /// one as far as the selection lets it, and either gets the focus or has a
    /// message generated for it.
    pub open spec fn widget_rel(&self, r: usize, suggest: bool, post: &App, out: Seq<Effect>) -> bool {
        let here = App { panel: Panel { active: r, ..self.panel }, ..*self };
        let f = here.panel.follow_now();
        let focus = if suggest {
            self.focus
        } else {
            Focus::Message
        };
        &&& *post == (App { focus, panel: post.panel, ..*self })
        &&& post.panel == (Panel {
            active: f.active,
            history_target: post.panel.history_target,
            ..self.panel
        })
        &&& post.panel.history() == f.history
        &&& out == (if suggest {
            here.suggest_effects()
        } else {
            Seq::empty()
        }) + (if f.reload {
            seq![Effect::ReloadDrawers]
        } else {
            Seq::empty()
        })
    }

    fn click_widget(&mut self, r: usize, suggest: bool) -> (res: Vec<Effect>)
        requires
            old(self).wf(),
        ensures
            final(self).wf(),
            old(self).widget_rel(r, suggest, final(self), res@),
    {
        self.panel.active = r;
        let ghost here: App = *self;
        let mut out: Vec<Effect> = Vec::new();
        if suggest {
            out = self.suggest_message();
        } else {
            self.focus = Focus::Message;
        }
        let ghost first: Seq<Effect> = out@;
        let reload: bool = self.panel.follow_selection();
        if reload {
            out.push(Effect::ReloadDrawers);
        }
        assert(out@ =~= first + (if reload {
            seq![Effect::ReloadDrawers]
        } else {
            Seq::empty()
        }));
        assert(first =~= if suggest {
            here.suggest_effects()
        } else {
            Seq::empty()
        });
        out
    }

    fn run_row_click(&mut self, index: usize, click: RowClick) -> (res: Vec<Effect>)
        requires
            old(self).wf(),
            old(self).click_exists(click),
        ensures
            final(self).wf(),
            old(self).row_rel(index, click, final(self), res@),
    {
        match click {
            RowClick::Nothing => Vec::new(),
            RowClick::Sync(r) => self.sync_repo(r),
            RowClick::Commit(r) => self.commit_repo(r),
            RowClick::SuggestFor(r) => self.click_widget(r, true),
            RowClick::TypeInto(r) => self.click_widget(r, false),
            _ => {
                self.focus = Focus::List;
                let reload: bool = self.panel.select(index);
                let ghost mid: App = *self;
                let mut out: Vec<Effect> = Vec::new();
                if reload {
                    out.push(Effect::ReloadDrawers);
                }
                out.push(Effect::Persist);
                assert(out@ =~= selection_effects(reload));
                let mut chosen: Vec<Effect> = self.run_chosen(click);
                let ghost rest: Seq<Effect> = chosen@;
                assert(old(self).panel.select_rel(index, &mid.panel, reload));
                assert(mid.chosen_rel(click, self, rest));
                out.append(&mut chosen);
                out
            },
        }
    }

    /// What a left click at a cell does, `now` milliseconds on the clock.
    pub open spec fn click_rel(
        &self,
        x: u16,
        y: u16,
        now: u64,
        icon: Seq<char>,
        post: &App,
        out: Seq<Effect>,
        exit: Option<Exit>,
    ) -> bool {
        let calm = App { flash: None, ..*self };
        match self.click_target_spec(x, y) {
            ClickTarget::Nothing => *post == calm && out.len() == 0 && exit is None,
            ClickTarget::Hide => *post == calm && out == seq![Effect::Close { snooze: true }]
                && exit is None,
            ClickTarget::View(view) => *post == calm && (out, exit) == self.switch_out(view),
            ClickTarget::Search => *post == calm && (out, exit) == self.search_out(false),
            ClickTarget::Settings => *post == (App {
                overlay: Some(
                    Overlay::Settings { selected: 0, rect: Area::empty_spec(), scroll: 0 },
                ),
                ..calm
            }) && out.len() == 0 && exit is None,
            ClickTarget::Title(action) => exit is None && match action {
                TitleAction::Refresh => *post == calm && out == seq![Effect::Refresh],
                TitleAction::CollapseAll => exists|reload: bool|
                    {
                        &&& *post == (App { panel: post.panel, ..calm })
                        &&& #[trigger] self.panel.collapse_rel(&post.panel, reload)
                        &&& out == selection_effects(reload)
                    },
                _ => *post == calm && out.len() == 0,
            },
            ClickTarget::Suggest => *post == calm && out == self.suggest_effects()
                && exit is None,
            ClickTarget::Message => *post == (App { focus: Focus::Message, ..calm })
                && out.len() == 0 && exit is None,
            ClickTarget::Primary => (App { focus: Focus::Commit, ..calm }).primary_rel(post, out)
                && exit is None,
            ClickTarget::Sync => calm.sync_rel(self.panel.active, post, out) && exit is None,
            ClickTarget::Branch => calm.branch_rel(self.panel.active, post, out) && exit is None,
            ClickTarget::Row(index, line) => {
                let double = is_double(self.last_click, index, now);
                &&& (App { last_click: Some((index, now)), ..calm }).row_rel(
                    index,
                    self.row_click_spec(index, line, x, double, icon),
                    post,
                    out,
                )
                &&& exit is None
            },
        }
    }

    proof fn lemma_clicks_exist(&self, index: usize, line: u16, x: u16, double: bool, icon: Seq<char>)
        requires
            self.wf(),
            index < self.panel.rows@.len(),
        ensures
            self.click_exists(self.row_click_spec(index, line, x, double, icon)),
    {
        assert(row_exists(self.panel.rows@[index as int], self.panel.repos@, self.panel.drawers@));
    }

    /// A left click. `icon` stands before the branch of a repository's row.
    pub fn left_click(&mut self, x: u16, y: u16, now: u64, icon: &str) -> (res: (
        Vec<Effect>,
        Option<Exit>,
    ))
        requires
            old(self).wf(),
        ensures
            final(self).wf(),
            old(self).click_rel(x, y, now, icon@, final(self), res.0@, res.1),
    {
        let target: ClickTarget = self.click_target(x, y);
        let active: usize = self.panel.active;
        if let ClickTarget::Row(index, line) = target {
            let double: bool = double_click(self.last_click, index, now);
            let click: RowClick = self.row_click(index, line, x, double, icon);
            proof {
                self.lemma_clicks_exist(index, line, x, double, icon@);
            }
            self.flash = None;
            self.last_click = Some((index, now));
            return (self.run_row_click(index, click), None);
        }
        self.flash = None;
        match target {
            ClickTarget::Hide => {
                let out: Vec<Effect> = vec![Effect::Close { snooze: true }];
                assert(out@ =~= seq![Effect::Close { snooze: true }]);
                (out, None)
            },
            ClickTarget::View(view) => self.switch_to(view),
            ClickTarget::Search => self.open_search(false),
            ClickTarget::Settings => {
                self.open_settings();
                (Vec::new(), None)
            },
            ClickTarget::Title(action) => match action {
                TitleAction::Refresh => {
                    let out: Vec<Effect> = vec![Effect::Refresh];
                    assert(out@ =~= seq![Effect::Refresh]);
                    (out, None)
                },
                TitleAction::CollapseAll => {
                    let reload: bool = self.panel.collapse_all();
                    let mut out: Vec<Effect> = Vec::new();
                    if reload {
                        out.push(Effect::ReloadDrawers);
                    }
                    out.push(Effect::Persist);
                    assert(out@ =~= selection_effects(reload));
                    assert(old(self).panel.collapse_rel(&self.panel, reload));
                    (out, None)
                },
                _ => (Vec::new(), None),
            },
            ClickTarget::Suggest => (self.suggest_message(), None),
            ClickTarget::Message => {
                self.focus = Focus::Message;
                (Vec::new(), None)
            },
            ClickTarget::Primary => {
                self.focus = Focus::Commit;
                (self.run_primary_action(), None)
            },
            ClickTarget::Sync => (self.sync_repo(active), None),
            ClickTarget::Branch => (self.open_branch_picker_for(active), None),
            _ => (Vec::new(), None),
        }
    }

    /// What a mouse event does. Moving only moves the hover, the wheel only the
    /// view.
    pub open spec fn mouse_rel(
        &self,
        rows: nat,
        mouse: Mouse,
        now: u64,
        icon: Seq<char>,
        post: &App,
        out: Seq<Effect>,
        exit: Option<Exit>,
    ) -> bool {
        let here = App { mouse_pos: Some((mouse.column, mouse.row)), ..*self };
        if self.overlay is Some {
            here.overlay_mouse_rel(rows, mouse, post, out) && exit is None
        } else {
            match mouse.kind {
                MouseKind::Moved => *post == (App {
                    hovered: match self.hit_at(mouse.row) {
                        Some(hit) => Some(hit.0),
                        None => None,
                    },
                    ..here
                }) && out.len() == 0 && exit is None,
                MouseKind::ScrollUp => here.wheel_rel(-3, post, out) && exit is None,
                MouseKind::ScrollDown => here.wheel_rel(3, post, out) && exit is None,
                MouseKind::LeftDown => here.click_rel(
                    mouse.column,
                    mouse.row,
                    now,
                    icon,
                    post,
                    out,
                    exit,
                ),
                MouseKind::RightDown => (App { flash: None, ..here }).context_rel(
                    mouse.column,
                    mouse.row,
                    post,
                    out,
                ) && exit is None,
                MouseKind::Other => *post == here && out.len() == 0 && exit is None,
            }
        }
    }

    /// The view moves by `delta` rows and the state is saved.
    pub open spec fn wheel_rel(&self, delta: int, post: &App, out: Seq<Effect>) -> bool {
        &&& *post == (App {
            panel: Panel {
                scroll: crate::scm_app::rows::clamp(
                    self.panel.scroll + delta,
                    0,
                    self.panel.rows@.len() - 1,
                ) as usize,
                ..self.panel
            },
            ..*self
        })
        &&& out == seq![Effect::Persist]
    }

    fn wheel(&mut self, delta: isize) -> (res: Vec<Effect>)
        requires
            old(self).wf(),
            delta > isize::MIN,
        ensures
            final(self).wf(),
            old(self).wheel_rel(delta as int, final(self), res@),
    {
        self.panel.scroll_view(delta);
        let out: Vec<Effect> = vec![Effect::Persist];
        assert(out@ =~= seq![Effect::Persist]);
        out
    }

    /// Handle one mouse event; an exit ends the event loop. `rows` is how many
    /// rows the settings have.
    pub fn on_mouse(&mut self, rows: usize, mouse: Mouse, now: u64, icon: &str) -> (res: (
        Vec<Effect>,
        Option<Exit>,
    ))
        requires
            old(self).wf(),
        ensures
            final(self).wf(),
            old(self).mouse_rel(
                rows as nat,
                mouse,
                now,
                icon@,
                final(self),
                res.0@,
                res.1,
            ),
    {
        self.mouse_pos = Some((mouse.column, mouse.row));
        if self.overlay.is_some() {
            return (self.overlay_mouse(rows, mouse), None);
        }
        match mouse.kind {
            MouseKind::Moved => {
                self.hovered = match self.row_hit(mouse.row) {
                    Some((index, _)) => Some(index),
                    None => None,
                };
                (Vec::new(), None)
            },
            MouseKind::ScrollUp => (self.wheel(-3), None),
            MouseKind::ScrollDown => (self.wheel(3), None),
            MouseKind::LeftDown => self.left_click(mouse.column, mouse.row, now, icon),
            MouseKind::RightDown => {
                self.flash = None;
                (self.open_context_menu(mouse.column, mouse.row), None)
            },
            MouseKind::Other => (Vec::new(), None),
        }
    }
}

/// The wheel leaves the selection, and all that follows it, where it is.
pub proof fn law_the_wheel_moves_the_view_only(app: App, delta: int, post: App, out: Seq<Effect>)
    requires
        app.wheel_rel(delta, &post, out),
    ensures
        post.panel.selected == app.panel.selected,
        post.panel.active == app.panel.active,
        post.panel.rows == app.panel.rows,
        post.panel.repos == app.panel.repos,
{
}

} // verus!
