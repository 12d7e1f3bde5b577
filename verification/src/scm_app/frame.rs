//! The frame round the list: how high its parts are, what they say, and which
//! lines each row is drawn as.

use vstd::prelude::*;

use crate::columns::{columns, text_width};
use crate::geometry::{in_zone, within, Area};
use crate::scm_app::app::{App, Focus, Overlay};
use crate::scm_app::drawer::Drawer;
use crate::scm_app::header::{
    any_draft, append_header_counts, badge_spec, branch_text_spec, branch_zone, changes_action_at,
    changes_header_action_at, changes_start, commit_draft_present, file_hover_action_at,
    header_counts, hover_action_at, repo_header_branch_zone, sync_is_primary, sync_label_for_status,
    sync_label_spec, ChangesHeaderAction, FileHoverAction, REPO_HEADER_ACTIONS,
};
use crate::scm_app::message::{
    at_least_one, inline_field, inline_field_width, message_rows, message_window, shown_rows,
    window_of, wrap_message, wrapped,
};
use crate::scm_app::panel::Panel;
use crate::scm_app::render::{
    changes_header_item, changes_line, commit_button_item, commit_button_lines, drawer_line,
    drawer_text_line, file_history_header, file_history_line, file_item, file_line, file_name,
    message_box_item, message_box_lines, repo_header_item, repo_header_line, section_item,
    section_line,
};
use crate::scm_app::rows::{row_exists, row_y, row_y_spec, BodyGeom, Repo, Row};
use crate::spans::{lines_view, no_lines, put_line, Span, SpanView};
use crate::text::{slice_to_string, string_views, to_chars};

verus! {

/// The glyphs of a row, which depend on the icon theme.
pub struct RowIcons {
    /// Of a repository.
    pub repo: String,
    /// Before a branch.
    pub branch: String,
    /// The suggest button.
    pub sparkle: String,
    /// Of the row's file.
    pub file: String,
    /// Between the components of a path.
    pub separator: char,
}

/// How the background of a row is lit.
#[derive(Clone, Copy, PartialEq, Eq, Structural, Debug)]
pub enum RowTone {
    Plain,
    /// Selected; whether the list has the focus.
    Selected(bool),
    Hovered,
}

/// How a footer message looks.
#[derive(Clone, Copy, PartialEq, Eq, Structural, Debug)]
pub enum FooterTone {
    Warning,
    Good,
}

/// How many lines the parts of the frame take.
#[derive(Clone, Copy, PartialEq, Eq, Structural, Debug)]
pub struct FrameHeights {
    pub activity: u16,
    pub message: u16,
    pub button: u16,
    pub sync: u16,
}

fn one_line(line: Vec<Span>) -> (res: Vec<Vec<Span>>)
    ensures
        lines_view(res@) == seq![crate::spans::line_view(line@)],
{
    let ghost v: Seq<SpanView> = crate::spans::line_view(line@);
    let mut lines: Vec<Vec<Span>> = no_lines();
    put_line(&mut lines, line);
    assert(lines_view(lines@) =~= seq![v]);
    lines
}

impl App {
    // ---- Rows ----

    pub open spec fn hovers(&self, i: usize) -> bool {
        self.hovered == Some(i)
    }

    /// The column of the mouse, while it is over the row.
    pub open spec fn mouse_on(&self, i: usize) -> Option<u16> {
        if self.hovers(i) {
            match self.mouse_pos {
                Some(pos) => Some(pos.0),
                None => None,
            }
        } else {
            None
        }
    }

    fn mouse_column(&self, i: usize) -> (res: Option<u16>)
        ensures
            res == self.mouse_on(i),
    {
        match self.hovered {
            Some(h) => if h == i {
                match self.mouse_pos {
                    Some((x, _)) => Some(x),
                    None => None,
                }
            } else {
                None
            },
            None => None,
        }
    }

    pub open spec fn changes_action(&self, r: int, x: Option<u16>) -> Option<ChangesHeaderAction> {
        match x {
            Some(x) => changes_action_at(
                x,
                changes_start(
                    self.panel.width,
                    columns(" ▾ Changes"@) as u16,
                    columns(badge_spec(self.panel.repos@[r].status.unstaged@.len())) as u16,
                ),
            ),
            None => None,
        }
    }

    pub open spec fn hover_action(&self, staged: bool, x: Option<u16>) -> Option<FileHoverAction> {
        match x {
            Some(x) => hover_action_at(x, self.panel.width, staged),
            None => None,
        }
    }

    /// The lines that the row `i` is drawn as.
    pub open spec fn row_lines_spec(&self, i: usize, icons: RowIcons) -> Seq<Seq<SpanView>> {
        let width = self.panel.width as usize;
        let x = self.mouse_on(i);
        match self.panel.rows@[i as int] {
            Row::RepoHeader(r) => {
                let repo = self.panel.repos@[r as int];
                let zone = branch_zone(
                    self.panel.width,
                    columns(REPO_HEADER_ACTIONS@) as nat,
                    columns(branch_text_spec(icons.branch@, repo)) as nat,
                );
                seq![
                    repo_header_line(
                        repo,
                        r == self.panel.active,
                        icons.repo@,
                        icons.branch@,
                        width,
                        x matches Some(x) && in_zone(x, zone),
                    ),
                ]
            },
            Row::Message(r) => message_box_lines(
                self.panel.repos@[r as int],
                r == self.panel.active && self.focus == Focus::Message,
                icons.sparkle@,
                width,
            ),
            Row::Commit(r) => commit_button_lines(
                self.panel.repos@[r as int].status,
                self.syncing == Some(r),
                r == self.panel.active,
                r == self.panel.active && self.focus == Focus::Commit,
                width,
            ),
            Row::StagedHeader(r) => seq![
                section_line(
                    "Staged Changes"@,
                    self.panel.repos@[r as int].staged_collapsed,
                    Some(self.panel.repos@[r as int].status.staged.len()),
                    width,
                    if self.hovers(i) {
                        Some("−"@)
                    } else {
                        None
                    },
                ),
            ],
            Row::ChangesHeader(r) => seq![
                changes_line(
                    self.panel.repos@[r as int].changes_collapsed,
                    self.panel.repos@[r as int].status.unstaged.len(),
                    width,
                    self.hovers(i),
                    self.changes_action(r as int, x),
                ),
            ],
            Row::DrawerHeader(kind) => {
                let collapsed = !self.panel.drawers@[kind.index_spec()].expanded;
                if kind == Drawer::FileHistory && self.panel.history() is Some {
                    seq![file_history_line(collapsed, file_name(self.panel.history()->0))]
                } else {
                    seq![section_line(kind.title_spec(), collapsed, None, width, None)]
                }
            },
            Row::DrawerLine(kind, k) => seq![
                drawer_text_line(kind, self.panel.drawers@[kind.index_spec()].lines@[k as int]@),
            ],
            Row::Staged(r, k) => seq![
                file_line(
                    self.panel.repos@[r as int].status.staged@[k as int],
                    width,
                    icons.file@,
                    icons.separator,
                    true,
                    self.hovers(i),
                    self.hover_action(true, x),
                ),
            ],
            Row::Unstaged(r, k) => seq![
                file_line(
                    self.panel.repos@[r as int].status.unstaged@[k as int],
                    width,
                    icons.file@,
                    icons.separator,
                    false,
                    self.hovers(i),
                    self.hover_action(false, x),
                ),
            ],
        }
    }

    fn name_of(path: &str) -> (res: String)
        ensures
            res@ == file_name(path@),
    {
        let chars: Vec<char> = to_chars(path);
        let mut to: usize = chars.len();
        while to > 0 && chars[to - 1] != '/'
            invariant
                to <= chars@.len(),
                crate::scm_app::render::last_slash(chars@, to as int)
                    == crate::scm_app::render::last_slash(chars@, chars@.len() as int),
            decreases to,
        {
            to -= 1;
        }
        assert(chars@.skip(to as int) =~= chars@.subrange(to as int, chars@.len() as int));
        slice_to_string(chars.as_slice(), to, chars.len())
    }

    /// The lines of the row `i`, as the list shows it now.
    pub fn row_lines(&self, i: usize, icons: &RowIcons) -> (res: Vec<Vec<Span>>)
        requires
            self.wf(),
            i < self.panel.rows@.len(),
        ensures
            lines_view(res@) == self.row_lines_spec(i, *icons),
    {
        let row: Row = self.panel.rows[i];
        assert(row_exists(row, self.panel.repos@, self.panel.drawers@));
        let pane: u16 = self.panel.width;
        let width: usize = pane as usize;
        let active: usize = self.panel.active;
        let x: Option<u16> = self.mouse_column(i);
        let hovered: bool = match self.hovered {
            Some(h) => h == i,
            None => false,
        };
        match row {
            Row::RepoHeader(r) => {
                let repo: &Repo = &self.panel.repos[r];
                let lit: bool = match x {
                    Some(x) => within(
                        x,
                        repo_header_branch_zone(repo, icons.branch.as_str(), pane),
                    ),
                    None => false,
                };
                one_line(
                    repo_header_item(
                        repo,
                        r == active,
                        icons.repo.as_str(),
                        icons.branch.as_str(),
                        width,
                        lit,
                    ),
                )
            },
            Row::Message(r) => {
                assert(self.panel.repos@[r as int].wf());
                message_box_item(
                    &self.panel.repos[r],
                    r == active && self.focus == Focus::Message,
                    icons.sparkle.as_str(),
                    width,
                )
            },
            Row::Commit(r) => {
                let busy: bool = match self.syncing {
                    Some(s) => s == r,
                    None => false,
                };
                commit_button_item(
                    &self.panel.repos[r].status,
                    busy,
                    r == active,
                    r == active && self.focus == Focus::Commit,
                    width,
                )
            },
            Row::StagedHeader(r) => one_line(
                section_item(
                    "Staged Changes",
                    self.panel.repos[r].staged_collapsed,
                    Some(self.panel.repos[r].status.staged.len()),
                    width,
                    if hovered {
                        Some("−")
                    } else {
                        None
                    },
                ),
            ),
            Row::ChangesHeader(r) => {
                let count: usize = self.panel.repos[r].status.unstaged.len();
                let action: Option<ChangesHeaderAction> = match x {
                    Some(x) => changes_header_action_at(x, pane, count),
                    None => None,
                };
                one_line(
                    changes_header_item(
                        self.panel.repos[r].changes_collapsed,
                        count,
                        width,
                        hovered,
                        action,
                    ),
                )
            },
            Row::DrawerHeader(kind) => {
                let k: usize = kind.index();
                let collapsed: bool = !self.panel.drawers[k].expanded;
                match &self.panel.history_target {
                    Some(path) => if kind == Drawer::FileHistory {
                        let name: String = App::name_of(path.as_str());
                        one_line(file_history_header(collapsed, name.as_str()))
                    } else {
                        one_line(section_item(kind.title(), collapsed, None, width, None))
                    },
                    None => one_line(section_item(kind.title(), collapsed, None, width, None)),
                }
            },
            Row::DrawerLine(kind, n) => {
                let k: usize = kind.index();
                one_line(drawer_line(kind, self.panel.drawers[k].lines[n].as_str()))
            },
            Row::Staged(r, n) => {
                let action: Option<FileHoverAction> = match x {
                    Some(x) => file_hover_action_at(x, pane, true),
                    None => None,
                };
                one_line(
                    file_item(
                        &self.panel.repos[r].status.staged[n],
                        width,
                        icons.file.as_str(),
                        icons.separator,
                        true,
                        hovered,
                        action,
                    ),
                )
            },
            Row::Unstaged(r, n) => {
                let action: Option<FileHoverAction> = match x {
                    Some(x) => file_hover_action_at(x, pane, false),
                    None => None,
                };
                one_line(
                    file_item(
                        &self.panel.repos[r].status.unstaged[n],
                        width,
                        icons.file.as_str(),
                        icons.separator,
                        false,
                        hovered,
                        action,
                    ),
                )
            },
        }
    }

    /// The selection is lit over the hover, and dimmer while another part of
    /// the panel has the focus.
    pub fn row_tone(&self, i: usize) -> (res: RowTone)
        ensures
            res == (if self.panel.selected == Some(i) {
                RowTone::Selected(self.focus == Focus::List)
            } else if self.hovers(i) {
                RowTone::Hovered
            } else {
                RowTone::Plain
            }),
    {
        if let Some(s) = self.panel.selected {
            if s == i {
                return RowTone::Selected(self.focus == Focus::List);
            }
        }
        if let Some(h) = self.hovered {
            if h == i {
                return RowTone::Hovered;
            }
        }
        RowTone::Plain
    }

    /// The lines that a list of this height shows; at least one.
    pub open spec fn shown_lines(height: u16) -> nat {
        if height == 0 {
            1
        } else {
            height as nat
        }
    }

    /// The first row of the list once it is laid out: the selected one is brought
    /// into view where that was asked for.
    pub open spec fn laid_scroll(&self, area: Area) -> int {
        let p = self.panel;
        match p.selected {
            Some(sel) => if p.snap {
                crate::scm_app::rows::snapped(
                    p.rows@,
                    p.repos@,
                    p.width,
                    p.scroll as int,
                    sel as int,
                    App::shown_lines(area.height),
                )
            } else {
                p.scroll as int
            },
            None => p.scroll as int,
        }
    }

    /// The panel with its list laid out in `area`.
    pub open spec fn list_laid(&self, area: Area) -> App {
        let scroll = self.laid_scroll(area) as usize;
        let placed = App {
            panel: Panel { scroll, snap: false, ..self.panel },
            body: BodyGeom { top: area.y, height: area.height, offset: scroll },
            ..*self
        };
        App {
            hovered: match self.mouse_pos {
                Some(pos) => match placed.hit_at(pos.1) {
                    Some(hit) => Some(hit.0),
                    None => None,
                },
                None => None,
            },
            ..placed
        }
    }

    /// Lay the list out in `area`: settle the scroll offset, remember where the
    /// rows are, and find the row under the mouse in that very geometry.
    /// Returns how many rows are drawn.
    pub fn prepare_list(&mut self, area: Area) -> (res: usize)
        requires
            old(self).wf(),
        ensures
            final(self).wf(),
            *final(self) == old(self).list_laid(area),
            final(self).panel.scroll == old(self).laid_scroll(area),
            final(self).panel.scroll + res == crate::scm_app::rows::drawn_end(
                old(self).panel.rows@,
                old(self).panel.repos@,
                old(self).panel.width,
                final(self).panel.scroll as int,
                App::shown_lines(area.height) as int,
            ),
    {
        let visible: usize = self.panel.prepare_list(area.height);
        self.body = BodyGeom { top: area.y, height: area.height, offset: self.panel.scroll };
        self.hovered = match self.mouse_pos {
            Some((_, line)) => match self.row_hit(line) {
                Some((index, _)) => Some(index),
                None => None,
            },
            None => None,
        };
        visible
    }

    // ---- Heights ----

    pub open spec fn multi(&self) -> bool {
        self.panel.repos@.len() > 1
    }

    /// Columns of the single box's input: the pane without the borders and the
    /// suggest button with its margin.
    pub open spec fn single_field(width: u16, sparkle: nat) -> nat {
        if width > 3 + sparkle {
            (width - 3 - sparkle) as nat
        } else {
            1
        }
    }

    pub open spec fn label_of_sync(&self) -> Option<Seq<char>> {
        if self.panel.active < self.panel.repos@.len() {
            sync_label_spec(
                self.panel.repos@[self.panel.active as int].status,
                self.syncing == Some(self.panel.active),
            )
        } else {
            None
        }
    }

    /// The Sync Changes label, or `None` while there is nothing to sync.
    pub fn sync_label(&self) -> (res: Option<String>)
        requires
            self.wf(),
        ensures
            match res {
                Some(label) => self.label_of_sync() == Some(label@),
                None => self.label_of_sync() is None,
            },
    {
        let active: usize = self.panel.active;
        if active >= self.panel.repos.len() {
            return None;
        }
        let busy: bool = match self.syncing {
            Some(s) => s == active,
            None => false,
        };
        sync_label_for_status(&self.panel.repos[active].status, busy)
    }

    /// With several repositories the boxes and buttons stand in the list. A
    /// separate Sync row shows only when there is something to sync and the
    /// main button does not do it.
    pub open spec fn heights_spec(&self, width: u16, sparkle: nat) -> FrameHeights {
        let active = self.panel.active as int;
        let rows = if active < self.panel.repos@.len() {
            shown_rows(
                self.panel.repos@[active].message@,
                self.panel.repos@[active].cursor as nat,
                App::single_field(width, sparkle),
            )
        } else {
            1
        };
        FrameHeights {
            activity: if self.merged {
                3
            } else {
                0
            },
            message: if self.multi() {
                0
            } else {
                (2 + rows) as u16
            },
            button: if self.multi() {
                0
            } else {
                3
            },
            sync: if !self.multi() && self.label_of_sync() is Some && !self.syncs_first() {
                1
            } else {
                0
            },
        }
    }

    pub fn heights(&self, width: u16, sparkle: &str) -> (res: FrameHeights)
        requires
            self.wf(),
        ensures
            res == self.heights_spec(width, columns(sparkle@) as nat),
    {
        let multi: bool = self.panel.repos.len() > 1;
        let active: usize = self.panel.active;
        let free: usize = (width as usize).saturating_sub(3).saturating_sub(text_width(sparkle));
        let field: usize = if free == 0 {
            1
        } else {
            free
        };
        let rows: usize = if active < self.panel.repos.len() {
            message_rows(
                self.panel.repos[active].message.as_slice(),
                self.panel.repos[active].cursor,
                field,
            )
        } else {
            1
        };
        let primary: bool = active < self.panel.repos.len() && sync_is_primary(
            &self.panel.repos[active].status,
        );
        let labelled: bool = self.sync_label().is_some();
        FrameHeights {
            activity: if self.merged {
                3
            } else {
                0
            },
            message: if multi {
                0
            } else {
                2 + rows as u16
            },
            button: if multi {
                0
            } else {
                3
            },
            sync: if !multi && labelled && !primary {
                1
            } else {
                0
            },
        }
    }

    /// Lines of the footer: its text, two for a hint where there is no text
    /// above the git line, and the git line; at least one.
    pub open spec fn footer_rows(lines: u16, git_footer: bool) -> u16 {
        if lines == 0 {
            if git_footer {
                3
            } else {
                1
            }
        } else if git_footer {
            (lines + 1) as u16
        } else {
            lines
        }
    }

    pub fn footer_height(lines: u16, git_footer: bool) -> (res: u16)
        requires
            lines < u16::MAX - 3,
        ensures
            res == App::footer_rows(lines, git_footer),
    {
        let hint: u16 = if git_footer && lines == 0 {
            2
        } else {
            0
        };
        let own: u16 = if git_footer {
            1
        } else {
            0
        };
        let total: u16 = lines + hint + own;
        if total == 0 {
            1
        } else {
            total
        }
    }

    // ---- Words ----

    /// What the footer says about the action under the mouse.
    pub open spec fn hint_spec(&self) -> Option<Seq<char>> {
        match (self.hovered, self.mouse_pos) {
            (Some(i), Some(pos)) => if i < self.panel.rows@.len() {
                match self.panel.rows@[i as int] {
                    Row::ChangesHeader(r) => match self.changes_action(r as int, Some(pos.0)) {
                        Some(action) => Some(action.hint()),
                        None => None,
                    },
                    Row::Staged(_, _) => match self.hover_action(true, Some(pos.0)) {
                        Some(action) => Some(action.hint()),
                        None => None,
                    },
                    Row::Unstaged(_, _) => match self.hover_action(false, Some(pos.0)) {
                        Some(action) => Some(action.hint()),
                        None => None,
                    },
                    _ => None,
                }
            } else {
                None
            },
            _ => None,
        }
    }

    pub fn hovered_action_hint(&self) -> (res: Option<&'static str>)
        requires
            self.wf(),
        ensures
            match res {
                Some(hint) => self.hint_spec() == Some(hint@),
                None => self.hint_spec() is None,
            },
    {
        match (self.hovered, self.mouse_pos) {
            (Some(i), Some((x, _))) => {
                if i >= self.panel.rows.len() {
                    return None;
                }
                let row: Row = self.panel.rows[i];
                assert(row_exists(row, self.panel.repos@, self.panel.drawers@));
                match row {
                    Row::ChangesHeader(r) => {
                        let count: usize = self.panel.repos[r].status.unstaged.len();
                        match changes_header_action_at(x, self.panel.width, count) {
                            Some(action) => Some(action.footer_hint()),
                            None => None,
                        }
                    },
                    Row::Staged(_, _) => match file_hover_action_at(x, self.panel.width, true) {
                        Some(action) => Some(action.footer_hint()),
                        None => None,
                    },
                    Row::Unstaged(_, _) => match file_hover_action_at(
                        x,
                        self.panel.width,
                        false,
                    ) {
                        Some(action) => Some(action.footer_hint()),
                        None => None,
                    },
                    _ => None,
                }
            },
            _ => None,
        }
    }

    /// The footer's message: an open prompt first, else the flash.
    pub open spec fn footer_spec(&self) -> Option<(Seq<char>, FooterTone)> {
        match self.overlay {
            Some(Overlay::ConfirmDiscard { repo, entry }) => Some(
                ("Discard changes to '"@ + entry.path@ + "'? (y/N)"@, FooterTone::Warning),
            ),
            Some(Overlay::ConfirmDiscardAll { repo }) => Some(
                ("Discard all unstaged changes? (y/N)"@, FooterTone::Warning),
            ),
            Some(Overlay::ConfirmGit { repo, prompt, args }) => Some(
                (prompt@, FooterTone::Warning),
            ),
            _ => match self.flash {
                Some(f) => if f.1 {
                    Some((f.0@, FooterTone::Warning))
                } else {
                    Some(("✓ "@ + f.0@, FooterTone::Good))
                },
                None => None,
            },
        }
    }

    pub fn footer_message(&self) -> (res: Option<(String, FooterTone)>)
        ensures
            match res {
                Some(m) => self.footer_spec() == Some((m.0@, m.1)),
                None => self.footer_spec() is None,
            },
    {
        match &self.overlay {
            Some(Overlay::ConfirmDiscard { entry, .. }) => {
                let mut out: String = "Discard changes to '".to_owned();
                out.append(entry.path.as_str());
                out.append("'? (y/N)");
                return Some((out, FooterTone::Warning));
            },
            Some(Overlay::ConfirmDiscardAll { .. }) => {
                return Some(
                    ("Discard all unstaged changes? (y/N)".to_owned(), FooterTone::Warning),
                );
            },
            Some(Overlay::ConfirmGit { prompt, .. }) => {
                return Some((prompt.clone(), FooterTone::Warning));
            },
            _ => {},
        }
        match &self.flash {
            Some((text, error)) => if *error {
                Some((text.clone(), FooterTone::Warning))
            } else {
                let mut out: String = "✓ ".to_owned();
                out.append(text.as_str());
                Some((out, FooterTone::Good))
            },
            None => None,
        }
    }

    /// The title of the panel: the name of a lone repository.
    pub open spec fn title_spec(&self) -> Seq<char> {
        if self.panel.repos@.len() == 1 && self.panel.active == 0 {
            self.panel.repos@[0].git.name@
        } else {
            "Source Control"@
        }
    }

    pub fn title(&self) -> (res: String)
        ensures
            res@ == self.title_spec(),
    {
        if self.panel.repos.len() == 1 && self.panel.active == 0 {
            self.panel.repos[0].git.name.clone()
        } else {
            "Source Control".to_owned()
        }
    }

    /// The right end of the header: of several repositories the active one and
    /// its branch, of a lone one its branch and its counts.
    pub open spec fn header_right_spec(&self) -> Seq<char> {
        let active = self.panel.active as int;
        if active >= self.panel.repos@.len() {
            Seq::empty()
        } else {
            let repo = self.panel.repos@[active];
            if self.multi() {
                repo.git.name@ + " · "@ + repo.status.branch@ + " "@
            } else {
                repo.status.branch@ + header_counts(repo.status) + " "@
            }
        }
    }

    pub fn header_right(&self) -> (res: String)
        ensures
            res@ == self.header_right_spec(),
    {
        let active: usize = self.panel.active;
        if active >= self.panel.repos.len() {
            let none: String = String::new();
            assert(none@ =~= Seq::empty());
            return none;
        }
        let repo: &Repo = &self.panel.repos[active];
        if self.panel.repos.len() > 1 {
            let mut out: String = repo.git.name.clone();
            out.append(" · ");
            out.append(repo.status.branch.as_str());
            out.append(" ");
            out
        } else {
            let mut out: String = repo.status.branch.clone();
            append_header_counts(&mut out, &repo.status);
            out.append(" ");
            out
        }
    }

    // ---- The cursor ----

    /// The place of the active repository's message box among the rows.
    pub open spec fn box_from(&self, from: int) -> Option<usize>
        decreases self.panel.rows@.len() - from,
    {
        if 0 <= from < self.panel.rows@.len() {
            if self.panel.rows@[from] == Row::Message(self.panel.active) {
                Some(from as usize)
            } else {
                self.box_from(from + 1)
            }
        } else {
            None
        }
    }

    fn find_box(&self) -> (res: Option<usize>)
        ensures
            res == self.box_from(0),
    {
        let mut i: usize = 0;
        while i < self.panel.rows.len()
            invariant
                i <= self.panel.rows@.len(),
                self.box_from(i as int) == self.box_from(0),
            decreases self.panel.rows@.len() - i,
        {
            if let Row::Message(r) = self.panel.rows[i] {
                if r == self.panel.active {
                    return Some(i);
                }
            }
            i += 1;
        }
        None
    }

    /// Where the terminal's cursor stands in the focused inline box, relative
    /// to the column `left` and as an absolute line; `None` where it is not
    /// focused, not shown, or below the list's last line but one.
    pub open spec fn cursor_spec(&self, bottom: int) -> Option<(nat, int)> {
        let field = inline_field(self.panel.width) as nat;
        let active = self.panel.active as int;
        if !self.multi() || self.focus != Focus::Message || active >= self.panel.repos@.len() {
            None
        } else {
            match self.box_from(0) {
                None => None,
                Some(i) => match row_y_spec(
                    self.panel.rows@,
                    self.panel.repos@,
                    self.panel.width,
                    self.body,
                    i as int,
                ) {
                    None => None,
                    Some(y) => {
                        let repo = self.panel.repos@[active];
                        let rows = wrapped(repo.message@, repo.cursor as nat, field);
                        let row = repo.cursor as nat / at_least_one(field);
                        let line = y + 1 + row - window_of(rows.len(), row, true).0;
                        if y + 1 < bottom && line + 1 < bottom {
                            Some((1 + repo.cursor as nat % at_least_one(field), line))
                        } else {
                            None
                        }
                    },
                },
            }
        }
    }

    /// The column, counted from the list's left edge, and the line of the
    /// cursor in the focused inline box; `bottom` is the line below the list.
    pub fn inline_cursor(&self, bottom: u16) -> (res: Option<(u16, u16)>)
        requires
            self.wf(),
        ensures
            match res {
                Some(at) => self.cursor_spec(bottom as int) == Some((at.0 as nat, at.1 as int)),
                None => self.cursor_spec(bottom as int) is None,
            },
    {
        let active: usize = self.panel.active;
        if self.panel.repos.len() <= 1 || self.focus != Focus::Message || active
            >= self.panel.repos.len() {
            return None;
        }
        let index: usize = match self.find_box() {
            Some(index) => index,
            None => {
                return None;
            },
        };
        let y: u16 = match row_y(
            &self.panel.rows,
            &self.panel.repos,
            self.panel.width,
            self.body,
            index,
        ) {
            Some(y) => y,
            None => {
                return None;
            },
        };
        let field: usize = inline_field_width(self.panel.width) as usize;
        let repo: &Repo = &self.panel.repos[active];
        assert(self.panel.repos@[active as int].wf());
        let (rows, row, column): (Vec<String>, usize, usize) = wrap_message(
            repo.message.as_slice(),
            repo.cursor,
            field,
        );
        proof {
            crate::scm_app::message::law_cursor_stands_on_a_row(
                repo.message@,
                repo.cursor as nat,
                field as nat,
            );
            assert(string_views(rows@).len() == rows@.len());
            crate::scm_app::message::law_window_shows_the_cursor(rows@.len(), row as nat);
        }
        let count: usize = rows.len();
        let (top, visible): (usize, usize) = message_window(count, row, true);
        let below: u32 = (row - top) as u32;
        let line: u32 = y as u32 + 1 + below;
        if (y as u32) + 1 < bottom as u32 && line + 1 < bottom as u32 {
            Some((column as u16 + 1, line as u16))
        } else {
            None
        }
    }

    // ---- Following the neighbours ----

    pub open spec fn has_draft(&self) -> bool {
        exists|r: int|
            0 <= r < self.panel.repos@.len() && (#[trigger] self.panel.repos@[r]).message@.len()
                > 0
    }

    /// Whether the panel may follow a neighbour to another folder now: not
    /// under an open overlay, not while something runs, and not away from a
    /// commit message that was begun.
    pub fn may_follow(&self, follow_cwd: bool, picking: bool) -> (res: bool)
        ensures
            res == (follow_cwd && self.overlay is None && !picking && !self.suggesting
                && self.syncing is None && !self.has_draft()),
    {
        if !follow_cwd || self.overlay.is_some() || picking || self.suggesting
            || self.syncing.is_some() {
            return false;
        }
        let mut messages: Vec<&[char]> = Vec::new();
        let mut r: usize = 0;
        while r < self.panel.repos.len()
            invariant
                r <= self.panel.repos@.len(),
                messages@.len() == r,
                forall|k: int|
                    0 <= k < r ==> (#[trigger] messages@[k])@ == self.panel.repos@[k].message@,
            decreases self.panel.repos@.len() - r,
        {
            messages.push(self.panel.repos[r].message.as_slice());
            r += 1;
        }
        proof {
            if self.has_draft() {
                let k = choose|k: int|
                    0 <= k < self.panel.repos@.len() && (
                    #[trigger] self.panel.repos@[k]).message@.len() > 0;
                assert(messages@[k]@.len() > 0);
            }
            if any_draft(messages@) {
                let k = choose|k: int|
                    0 <= k < messages@.len() && (#[trigger] messages@[k])@.len() > 0;
                assert(self.panel.repos@[k].message@.len() > 0);
            }
        }
        !commit_draft_present(messages.as_slice())
    }
}

/// The keys that the footer explains.
pub fn hints(merged: bool) -> (res: Vec<(&'static str, &'static str)>)
    ensures
        res@.len() == if merged {
            15nat
        } else {
            12
        },
        forall|i: int|
            0 <= i < res@.len() ==> (#[trigger] res@[i]).0@ == hint_spec(i).0 && res@[i].1@
                == hint_spec(i).1,
{
    let mut hints: Vec<(&'static str, &'static str)> = vec![
        ("⏎", "stage"),
        ("a", "all"),
        ("u", "none"),
        ("c", "msg"),
        ("A", "suggest"),
        ("o", "diff"),
        ("m", "menu"),
        ("b", "hide"),
        ("S", "sync"),
        ("s", "settings"),
        ("r", "refresh"),
        ("q", "quit"),
    ];
    if merged {
        hints.push(("1", "files"));
        hints.push(("2", "search"));
        hints.push(("3", "git"));
    }
    hints
}

/// The `i`th key that the footer explains, and what it does. The last three are
/// there in a unified sidebar only.
pub open spec fn hint_spec(i: int) -> (Seq<char>, Seq<char>) {
    if i == 0 {
        ("⏎"@, "stage"@)
    } else if i == 1 {
        ("a"@, "all"@)
    } else if i == 2 {
        ("u"@, "none"@)
    } else if i == 3 {
        ("c"@, "msg"@)
    } else if i == 4 {
        ("A"@, "suggest"@)
    } else if i == 5 {
        ("o"@, "diff"@)
    } else if i == 6 {
        ("m"@, "menu"@)
    } else if i == 7 {
        ("b"@, "hide"@)
    } else if i == 8 {
        ("S"@, "sync"@)
    } else if i == 9 {
        ("s"@, "settings"@)
    } else if i == 10 {
        ("r"@, "refresh"@)
    } else if i == 11 {
        ("q"@, "quit"@)
    } else if i == 12 {
        ("1"@, "files"@)
    } else if i == 13 {
        ("2"@, "search"@)
    } else {
        ("3"@, "git"@)
    }
}

} // verus!
