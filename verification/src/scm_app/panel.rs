//! The list of the Source Control panel as a whole: the repositories, the
//! drawers, the rows built from both, and the selection among them.

use vstd::prelude::*;

use crate::input::Key;
use crate::scm_app::drawer::{
    all_drawers, fetched_lines, fetched_view, Drawer, DrawerPanel, DRAWERS,
};
use crate::scm_app::message::{edit_message, edited};
use crate::scm_app::rows::{
    build_rows, clamp, drawer_rows, drawn_end, law_rows_point_at_what_exists, move_target, moved,
    nearest_selectable, nearest_stop, panel_rows, repo_rows, repos_rows, row_exists, rows_of,
    snap_scroll, snapped, visible_end, Repo, Row,
};
use crate::text::str_eq;

verus! {

pub struct Panel {
    /// Every repository visible from the folder: the containing one plus the
    /// ones below it.
    pub repos: Vec<Repo>,
    /// The repo the commit box, the drawers and sync act on.
    pub active: usize,
    pub drawers: Vec<DrawerPanel>,
    /// The file the file history drawer follows: the last selected file row.
    pub history_target: Option<String>,
    pub rows: Vec<Row>,
    /// Explicit selection; `None` until the user picks a row.
    pub selected: Option<usize>,
    /// View scroll offset in rows, independent of the selection.
    pub scroll: usize,
    /// Bring the selection into view on the next draw (keyboard only).
    pub snap: bool,
    /// Columns of the pane.
    pub width: u16,
}

/// What an optional string holds.
pub open spec fn opt_view(s: Option<String>) -> Option<Seq<char>> {
    match s {
        Some(s) => Some(s@),
        None => None,
    }
}

pub open spec fn min(a: int, b: int) -> int {
    if a <= b {
        a
    } else {
        b
    }
}

/// The path of the file that a row shows.
pub open spec fn file_path(repos: Seq<Repo>, row: Row) -> Option<Seq<char>> {
    match row {
        Row::Staged(r, i) => Some(repos[r as int].status.staged@[i as int].path@),
        Row::Unstaged(r, i) => Some(repos[r as int].status.unstaged@[i as int].path@),
        _ => None,
    }
}

/// What follows a selection: the active repository becomes that of the row, a
/// new repository has no followed file, and a file row is followed.
pub struct Followed {
    pub active: usize,
    pub history: Option<Seq<char>>,
    /// The expanded drawers show something else now.
    pub reload: bool,
}

pub open spec fn followed(
    repos: Seq<Repo>,
    row: Option<Row>,
    active: usize,
    history: Option<Seq<char>>,
    history_open: bool,
) -> Followed {
    match row {
        None => Followed { active, history, reload: false },
        Some(row) => {
            let switch = match row.repo_spec() {
                Some(r) => r != active && r < repos.len(),
                None => false,
            };
            let now = if switch {
                row.repo_spec()->0
            } else {
                active
            };
            let before = if switch {
                None
            } else {
                history
            };
            let path = file_path(repos, row);
            if row.repo_spec() == Some(now) && path is Some && path != before {
                Followed { active: now, history: path, reload: switch || history_open }
            } else {
                Followed { active: now, history: before, reload: switch }
            }
        },
    }
}

impl Panel {
    pub open spec fn history(&self) -> Option<Seq<char>> {
        opt_view(self.history_target)
    }

    pub open spec fn history_open(&self) -> bool {
        self.drawers@[Drawer::FileHistory.index_spec()].expanded
    }

    pub open spec fn selected_row(&self) -> Option<Row> {
        match self.selected {
            Some(i) => if i < self.rows@.len() {
                Some(self.rows@[i as int])
            } else {
                None
            },
            None => None,
        }
    }

    /// The parts are sound, whether or not the rows are up to date.
    pub open spec fn sound(&self) -> bool {
        &&& self.drawers@.len() == DRAWERS
        &&& forall|k: int| 0 <= k < DRAWERS ==> (#[trigger] self.drawers@[k]).wf()
        &&& forall|r: int| 0 <= r < self.repos@.len() ==> (#[trigger] self.repos@[r]).wf()
    }

    /// The rows are those of the repositories and drawers, and the selection
    /// and the scroll offset are among them.
    pub open spec fn wf(&self) -> bool {
        &&& self.sound()
        &&& self.rows@ == rows_of(self.repos@, self.drawers@)
        &&& self.rows@.len() > 0
        &&& self.selected matches Some(i) ==> i < self.rows@.len()
        &&& self.scroll < self.rows@.len()
        &&& forall|i: int|
            0 <= i < self.rows@.len() ==> row_exists(
                #[trigger] self.rows@[i],
                self.repos@,
                self.drawers@,
            )
    }

    /// Nothing but the selection, the scroll offset and what follows them has
    /// changed.
    pub open spec fn same_contents(&self, other: &Panel) -> bool {
        &&& self.repos == other.repos
        &&& self.drawers == other.drawers
        &&& self.width == other.width
    }

    /// The active repository and the followed file are what `f` says.
    pub open spec fn follows(&self, f: Followed) -> bool {
        self.active == f.active && self.history() == f.history
    }

    /// What follows the selection as it is now.
    pub open spec fn follow_now(&self) -> Followed {
        followed(
            self.repos@,
            self.selected_row(),
            self.active,
            self.history(),
            self.history_open(),
        )
    }

    /// The row `index`, or the last one, is selected and will be brought into view.
    pub open spec fn select_rel(&self, index: usize, post: &Panel, reload: bool) -> bool {
        &&& post.wf()
        &&& post.same_contents(self)
        &&& post.rows == self.rows
        &&& post.scroll == self.scroll
        &&& post.snap
        &&& post.selected matches Some(j) && j == min(
                index as int,
                self.rows@.len() - 1,
            )
        &&& ({
                let f = followed(
                    self.repos@,
                    Some(self.rows@[min(index as int, self.rows@.len() - 1)]),
                    self.active,
                    self.history(),
                    self.history_open(),
                );
                post.follows(f) && reload == f.reload
            })
    }

    /// The selection has moved by `delta` rows over the keyboard stops.
    pub open spec fn move_rel(&self, delta: int, post: &Panel, reload: bool) -> bool {
        &&& post.wf()
        &&& post.same_contents(self)
        &&& post.rows == self.rows
        &&& post.scroll == self.scroll
        &&& post.snap
        &&& post.selected matches Some(j) && j == moved(
                self.rows@,
                self.selected,
                delta as int,
            )
        &&& ({
                let f = followed(
                    self.repos@,
                    post.selected_row(),
                    self.active,
                    self.history(),
                    self.history_open(),
                );
                post.follows(f) && reload == f.reload
            })
    }

    /// What `row` heads is folded where it was unfolded, and the other way round.
    pub open spec fn toggle_rel(&self, row: Row, post: &Panel, reload: bool) -> bool {
        &&& post.wf()
        &&& post.width == self.width
        &&& post.snap == self.snap
        &&& post.repos@ == toggled_repos(self.repos@, row)
        &&& post.drawers@ == toggled_drawers(self.drawers@, row)
        &&& post.scroll == min(self.scroll as int, post.rows@.len() - 1)
        &&& (match self.selected {
                None => post.selected is None,
                Some(i) => post.selected matches Some(j) && j == nearest_stop(
                    post.rows@,
                    min(i as int, post.rows@.len() - 1),
                ),
            })
        &&& ({
                let f = followed(
                    post.repos@,
                    post.selected_row(),
                    self.active,
                    self.history(),
                    post.history_open(),
                );
                post.follows(f) && reload == (f.reload || row is DrawerHeader)
            })
    }

    /// Every section and drawer is folded.
    pub open spec fn collapse_rel(&self, post: &Panel, reload: bool) -> bool {
        &&& post.wf()
        &&& post.width == self.width
        &&& post.snap == self.snap
        &&& post.scroll == 0
        &&& post.repos@.len() == self.repos@.len()
        &&& forall|r: int|
                0 <= r < self.repos@.len() ==> (#[trigger] post.repos@[r])
                    == folded_repo(self.repos@[r], self.repos@.len() > 1)
        &&& post.drawers@.len() == self.drawers@.len()
        &&& forall|k: int|
                0 <= k < DRAWERS ==> (#[trigger] post.drawers@[k]) == folded_drawer(
                    self.drawers@[k],
                )
        &&& (match self.selected {
                None => post.selected is None,
                Some(i) => post.selected matches Some(j) && j == nearest_stop(
                    post.rows@,
                    min(i as int, post.rows@.len() - 1),
                ),
            })
        &&& ({
                let f = followed(
                    post.repos@,
                    post.selected_row(),
                    self.active,
                    self.history(),
                    post.history_open(),
                );
                post.follows(f) && reload == f.reload
            })
    }

    fn build(&mut self)
        requires
            old(self).sound(),
        ensures
            final(self).same_contents(old(self)),
            final(self).rows@ == rows_of(old(self).repos@, old(self).drawers@),
            final(self).rows@.len() > 0,
            forall|i: int|
                0 <= i < final(self).rows@.len() ==> row_exists(
                    #[trigger] final(self).rows@[i],
                    final(self).repos@,
                    final(self).drawers@,
                ),
            final(self).selected == old(self).selected,
            final(self).scroll == old(self).scroll,
            final(self).snap == old(self).snap,
            final(self).active == old(self).active,
            final(self).history_target == old(self).history_target,
    {
        let ghost repos: Seq<Repo> = self.repos@;
        let ghost drawers: Seq<DrawerPanel> = self.drawers@;
        let count: usize = self.repos.len();
        self.rows = build_rows(&self.repos, &self.drawers);
        proof {
            assert forall|r: int| 0 <= r < repos.len() implies (
            #[trigger] repos[r]).status.staged@.len() <= usize::MAX
                && repos[r].status.unstaged@.len() <= usize::MAX by {
                vstd::std_specs::vec::axiom_spec_len(&repos[r].status.staged);
                vstd::std_specs::vec::axiom_spec_len(&repos[r].status.unstaged);
            }
            assert forall|k: int| 0 <= k < drawers.len() implies (
            #[trigger] drawers[k]).lines@.len() <= usize::MAX by {
                vstd::std_specs::vec::axiom_spec_len(&drawers[k].lines);
            }
            law_rows_point_at_what_exists(repos, drawers);
        }
    }

    /// Rebuild the rows after a drawer was filled; the selection stays at its
    /// place as far as the list still reaches.
    pub fn relist(&mut self)
        requires
            old(self).sound(),
        ensures
            final(self).wf(),
            final(self).same_contents(old(self)),
            final(self).active == old(self).active,
            final(self).history_target == old(self).history_target,
            final(self).snap == old(self).snap,
            final(self).scroll == min(old(self).scroll as int, final(self).rows@.len() - 1),
            match old(self).selected {
                None => final(self).selected is None,
                Some(i) => final(self).selected matches Some(j) && j == min(
                    i as int,
                    final(self).rows@.len() - 1,
                ),
            },
    {
        self.build();
        let last: usize = self.rows.len() - 1;
        if self.scroll > last {
            self.scroll = last;
        }
        if let Some(i) = self.selected {
            if i > last {
                self.selected = Some(last);
            }
        }
    }

    /// Keep the active repo and the file history drawer following the
    /// selection: drawers, commit box, and sync all act on the selected row's
    /// repository. Returns whether the expanded drawers must be fetched anew.
    pub fn follow_selection(&mut self) -> (res: bool)
        requires
            old(self).wf(),
        ensures
            final(self).wf(),
            final(self).same_contents(old(self)),
            final(self).rows == old(self).rows,
            final(self).selected == old(self).selected,
            final(self).scroll == old(self).scroll,
            final(self).snap == old(self).snap,
            final(self).follows(old(self).follow_now()),
            res == old(self).follow_now().reload,
    {
        let row: Row = match self.selected {
            Some(i) => self.rows[i],
            None => {
                return false;
            },
        };
        assert(row_exists(row, self.repos@, self.drawers@));
        let mut switch: bool = false;
        if let Some(r) = row.repo() {
            if r != self.active && r < self.repos.len() {
                self.active = r;
                self.history_target = None;
                switch = true;
            }
        }
        let path: String = match row {
            Row::Staged(r, i) => {
                if r != self.active {
                    return switch;
                }
                self.repos[r].status.staged[i].path.clone()
            },
            Row::Unstaged(r, i) => {
                if r != self.active {
                    return switch;
                }
                self.repos[r].status.unstaged[i].path.clone()
            },
            _ => {
                return switch;
            },
        };
        let same: bool = match &self.history_target {
            Some(target) => str_eq(target.as_str(), path.as_str()),
            None => false,
        };
        if same {
            return switch;
        }
        self.history_target = Some(path);
        switch || self.drawers[2].expanded
    }

    /// Rebuild the rows and keep the selection on a keyboard stop; returns
    /// whether the expanded drawers must be fetched anew.
    pub fn rebuild(&mut self) -> (res: bool)
        requires
            old(self).sound(),
        ensures
            final(self).wf(),
            final(self).same_contents(old(self)),
            final(self).snap == old(self).snap,
            final(self).scroll == min(old(self).scroll as int, final(self).rows@.len() - 1),
            match old(self).selected {
                None => final(self).selected is None,
                Some(i) => final(self).selected matches Some(j) && j == nearest_stop(
                    final(self).rows@,
                    min(i as int, final(self).rows@.len() - 1),
                ),
            },
            ({
                let f = followed(
                    old(self).repos@,
                    final(self).selected_row(),
                    old(self).active,
                    old(self).history(),
                    old(self).history_open(),
                );
                final(self).follows(f) && res == f.reload
            }),
    {
        self.relist();
        if let Some(i) = self.selected {
            self.selected = Some(nearest_selectable(&self.rows, i));
        }
        self.follow_selection()
    }

    /// Select a row and bring it into view.
    pub fn select(&mut self, index: usize) -> (res: bool)
        requires
            old(self).wf(),
        ensures
            old(self).select_rel(index, final(self), res),
    {
        let last: usize = self.rows.len() - 1;
        self.selected = Some(if index > last {
            last
        } else {
            index
        });
        self.snap = true;
        self.follow_selection()
    }

    /// Move the selection by `delta` rows over the keyboard stops.
    pub fn move_by(&mut self, delta: isize) -> (res: bool)
        requires
            old(self).wf(),
            delta > isize::MIN,
        ensures
            old(self).move_rel(delta as int, final(self), res),
    {
        let next: usize = move_target(&self.rows, self.selected, delta);
        self.select(next)
    }

    /// Wheel: move the view only; the selection stays where it is.
    pub fn scroll_view(&mut self, delta: isize)
        requires
            old(self).wf(),
            delta > isize::MIN,
        ensures
            final(self).wf(),
            final(self).same_contents(old(self)),
            final(self).rows == old(self).rows,
            final(self).selected == old(self).selected,
            final(self).snap == old(self).snap,
            final(self).active == old(self).active,
            final(self).history_target == old(self).history_target,
            final(self).scroll == clamp(
                old(self).scroll + delta,
                0,
                old(self).rows@.len() - 1,
            ),
    {
        let last: usize = self.rows.len() - 1;
        if delta >= 0 {
            let step: usize = delta as usize;
            self.scroll = if step > last - self.scroll {
                last
            } else {
                self.scroll + step
            };
        } else {
            let step: usize = (-delta) as usize;
            self.scroll = self.scroll.saturating_sub(step);
        }
    }

    /// Clamp the scroll offset, bring the selection into view after a keyboard
    /// step, and count the rows that are drawn in `height` lines.
    pub fn prepare_list(&mut self, height: u16) -> (res: usize)
        requires
            old(self).wf(),
        ensures
            final(self).wf(),
            final(self).same_contents(old(self)),
            final(self).rows == old(self).rows,
            final(self).selected == old(self).selected,
            final(self).active == old(self).active,
            final(self).history_target == old(self).history_target,
            !final(self).snap,
            ({
                let lines = if height == 0 {
                    1nat
                } else {
                    height as nat
                };
                &&& final(self).scroll == (match old(self).selected {
                    Some(sel) => if old(self).snap {
                        snapped(
                            old(self).rows@,
                            old(self).repos@,
                            old(self).width,
                            old(self).scroll as int,
                            sel as int,
                            lines,
                        )
                    } else {
                        old(self).scroll as int
                    },
                    None => old(self).scroll as int,
                })
                &&& final(self).scroll + res == drawn_end(
                    old(self).rows@,
                    old(self).repos@,
                    old(self).width,
                    final(self).scroll as int,
                    lines as int,
                )
            }),
    {
        let lines: usize = if height == 0 {
            1
        } else {
            height as usize
        };
        if self.snap {
            if let Some(sel) = self.selected {
                self.scroll = snap_scroll(
                    &self.rows,
                    &self.repos,
                    self.width,
                    self.scroll,
                    sel,
                    lines,
                );
            }
            self.snap = false;
        }
        let end: usize = visible_end(&self.rows, &self.repos, self.width, self.scroll, lines);
        end - self.scroll
    }

    /// Enter or Space on a header: fold or unfold what it heads. Returns
    /// whether the expanded drawers must be fetched anew.
    pub fn toggle(&mut self, row: Row) -> (res: bool)
        requires
            old(self).wf(),
            row_exists(row, old(self).repos@, old(self).drawers@),
        ensures
            old(self).toggle_rel(row, final(self), res),
    {
        let mut fetch: bool = false;
        match row {
            Row::RepoHeader(r) => {
                self.repos[r].collapsed = !self.repos[r].collapsed;
            },
            Row::StagedHeader(r) => {
                self.repos[r].staged_collapsed = !self.repos[r].staged_collapsed;
            },
            Row::ChangesHeader(r) => {
                self.repos[r].changes_collapsed = !self.repos[r].changes_collapsed;
            },
            Row::DrawerHeader(kind) => {
                let k: usize = kind.index();
                self.drawers[k].expanded = !self.drawers[k].expanded;
                fetch = true;
            },
            _ => {},
        }
        assert(self.repos@ =~= toggled_repos(old(self).repos@, row));
        assert(self.drawers@ =~= toggled_drawers(old(self).drawers@, row));
        let reload: bool = self.rebuild();
        reload || fetch
    }

    /// The title bar's Collapse All: fold every section and drawer. The
    /// headers all stay visible to unfold again; a lone repository has no
    /// header of its own, so it is not folded itself.
    pub fn collapse_all(&mut self) -> (res: bool)
        requires
            old(self).wf(),
        ensures
            old(self).collapse_rel(final(self), res),
    {
        let multi: bool = self.repos.len() > 1;
        let ghost start: Panel = *self;
        let mut r: usize = 0;
        while r < self.repos.len()
            invariant
                r <= self.repos@.len(),
                start == *old(self),
                start.sound(),
                multi == (start.repos@.len() > 1),
                self.repos@.len() == start.repos@.len(),
                self.drawers == start.drawers,
                self.active == start.active,
                self.history_target == start.history_target,
                self.selected == start.selected,
                self.scroll == start.scroll,
                self.snap == start.snap,
                self.width == start.width,
                forall|k: int|
                    0 <= k < r ==> (#[trigger] self.repos@[k]) == folded_repo(
                        start.repos@[k],
                        multi,
                    ),
                forall|k: int|
                    r <= k < self.repos@.len() ==> (#[trigger] self.repos@[k]) == start.repos@[k],
            decreases self.repos@.len() - r,
        {
            if multi {
                self.repos[r].collapsed = true;
            }
            self.repos[r].staged_collapsed = true;
            self.repos[r].changes_collapsed = true;
            assert(self.repos@[r as int] == folded_repo(start.repos@[r as int], multi));
            r += 1;
        }
        let ghost mid: Panel = *self;
        let mut k: usize = 0;
        while k < self.drawers.len()
            invariant
                k <= self.drawers@.len(),
                self.drawers@.len() == start.drawers@.len(),
                start.sound(),
                self.repos == mid.repos,
                self.active == start.active,
                self.history_target == start.history_target,
                self.selected == start.selected,
                self.scroll == start.scroll,
                self.snap == start.snap,
                self.width == start.width,
                forall|i: int|
                    0 <= i < k ==> (#[trigger] self.drawers@[i]) == folded_drawer(
                        start.drawers@[i],
                    ),
                forall|i: int|
                    k <= i < self.drawers@.len() ==> (#[trigger] self.drawers@[i])
                        == start.drawers@[i],
            decreases self.drawers@.len() - k,
        {
            self.drawers[k].expanded = false;
            assert(self.drawers@[k as int] == folded_drawer(start.drawers@[k as int]));
            k += 1;
        }
        self.scroll = 0;
        assert(self.sound()) by {
            assert forall|i: int| 0 <= i < DRAWERS implies (#[trigger] self.drawers@[i]).wf() by {
                assert(start.drawers@[i].wf());
            }
            assert forall|i: int| 0 <= i < self.repos@.len() implies (
            #[trigger] self.repos@[i]).wf() by {
                assert(start.repos@[i].wf());
            }
        }
        self.rebuild()
    }

    /// Take in what git printed for a drawer.
    pub fn load_drawer(&mut self, kind: Drawer, fetched: Result<Vec<String>, String>)
        requires
            old(self).sound(),
        ensures
            final(self).sound(),
            final(self).repos == old(self).repos,
            final(self).active == old(self).active,
            final(self).history_target == old(self).history_target,
            final(self).rows == old(self).rows,
            final(self).selected == old(self).selected,
            final(self).scroll == old(self).scroll,
            final(self).snap == old(self).snap,
            final(self).width == old(self).width,
            forall|k: int|
                0 <= k < DRAWERS && k != kind.index_spec() ==> (#[trigger] final(self).drawers@[k])
                    == old(self).drawers@[k],
            final(self).drawers@[kind.index_spec()].expanded
                == old(self).drawers@[kind.index_spec()].expanded,
            final(self).drawers@[kind.index_spec()].shows(
                kind,
                fetched_lines(fetched_view(fetched)),
            ),
    {
        let k: usize = kind.index();
        self.drawers[k].load(kind, fetched);
    }
}

/// Two lists of repositories differ in nothing that the rows show.
pub open spec fn same_rows(a: Seq<Repo>, b: Seq<Repo>) -> bool {
    &&& a.len() == b.len()
    &&& forall|r: int|
        0 <= r < a.len() ==> (#[trigger] a[r]).status == b[r].status && a[r].collapsed
            == b[r].collapsed && a[r].staged_collapsed == b[r].staged_collapsed
            && a[r].changes_collapsed == b[r].changes_collapsed
}

proof fn lemma_same_rows(a: Seq<Repo>, b: Seq<Repo>, n: int)
    requires
        same_rows(a, b),
        0 <= n <= a.len(),
    ensures
        repos_rows(a, n) == repos_rows(b, n),
    decreases n,
{
    if n > 0 {
        lemma_same_rows(a, b, n - 1);
        assert(a[n - 1].status == b[n - 1].status);
    }
}

/// The repository `r` with another message and cursor, all else as it was.
pub open spec fn with_message(repos: Seq<Repo>, r: int, message: Seq<char>, cursor: nat, post: Seq<Repo>) -> bool {
    &&& same_rows(repos, post)
    &&& post[r].message@ == message
    &&& post[r].cursor == cursor
    &&& post[r].git == repos[r].git
    &&& forall|k: int| 0 <= k < repos.len() && k != r ==> (#[trigger] post[k]) == repos[k]
}

impl Panel {
    /// Nothing but the message of repository `r` has changed.
    pub open spec fn message_rel(&self, r: int, message: Seq<char>, cursor: nat, post: &Panel) -> bool {
        &&& with_message(self.repos@, r, message, cursor, post.repos@)
        &&& *post == (Panel { repos: post.repos, ..*self })
    }

    proof fn lemma_message_keeps_wf(&self, post: &Panel, r: int, message: Seq<char>, cursor: nat)
        requires
            self.wf(),
            0 <= r < self.repos@.len(),
            self.message_rel(r, message, cursor, post),
            cursor <= message.len(),
        ensures
            post.wf(),
    {
        lemma_same_rows(self.repos@, post.repos@, self.repos@.len() as int);
        assert(post.sound()) by {
            assert forall|k: int| 0 <= k < post.repos@.len() implies (
            #[trigger] post.repos@[k]).wf() by {
                assert(self.repos@[k].wf());
            }
        }
        assert forall|i: int| 0 <= i < post.rows@.len() implies row_exists(
            #[trigger] post.rows@[i],
            post.repos@,
            post.drawers@,
        ) by {
            assert(row_exists(self.rows@[i], self.repos@, self.drawers@));
            match post.rows@[i] {
                Row::Staged(k, _) => {
                    assert(self.repos@[k as int].status == post.repos@[k as int].status);
                },
                Row::Unstaged(k, _) => {
                    assert(self.repos@[k as int].status == post.repos@[k as int].status);
                },
                _ => {},
            }
        }
    }

    /// Apply a key press to the message of repository `r`.
    pub fn edit(&mut self, r: usize, key: Key)
        requires
            old(self).wf(),
            r < old(self).repos@.len(),
        ensures
            final(self).wf(),
            ({
                let repo = old(self).repos@[r as int];
                let (message, cursor) = edited(repo.message@, repo.cursor as nat, key);
                old(self).message_rel(r as int, message, cursor, final(self))
            }),
    {
        let mut cursor: usize = self.repos[r].cursor;
        assert(self.repos@[r as int].wf());
        edit_message(&mut self.repos[r].message, &mut cursor, key);
        self.repos[r].cursor = cursor;
        proof {
            let repo = old(self).repos@[r as int];
            let (message, at) = edited(repo.message@, repo.cursor as nat, key);
            old(self).lemma_message_keeps_wf(self, r as int, message, at);
        }
    }

    /// Put a message into the box of repository `r`, the cursor behind it.
    pub fn set_message(&mut self, r: usize, message: Vec<char>)
        requires
            old(self).wf(),
            r < old(self).repos@.len(),
        ensures
            final(self).wf(),
            old(self).message_rel(r as int, message@, message@.len(), final(self)),
    {
        let ghost text: Seq<char> = message@;
        self.repos[r].cursor = message.len();
        self.repos[r].message = message;
        proof {
            old(self).lemma_message_keeps_wf(self, r as int, text, text.len());
        }
    }
}

pub open spec fn toggled_repos(repos: Seq<Repo>, row: Row) -> Seq<Repo> {
    match row {
        Row::RepoHeader(r) => repos.update(
            r as int,
            (Repo { collapsed: !repos[r as int].collapsed, ..repos[r as int] }),
        ),
        Row::StagedHeader(r) => repos.update(
            r as int,
            (Repo { staged_collapsed: !repos[r as int].staged_collapsed, ..repos[r as int] }),
        ),
        Row::ChangesHeader(r) => repos.update(
            r as int,
            (Repo { changes_collapsed: !repos[r as int].changes_collapsed, ..repos[r as int] }),
        ),
        _ => repos,
    }
}

pub open spec fn toggled_drawers(drawers: Seq<DrawerPanel>, row: Row) -> Seq<DrawerPanel> {
    match row {
        Row::DrawerHeader(kind) => {
            let k = kind.index_spec();
            drawers.update(k, (DrawerPanel { expanded: !drawers[k].expanded, ..drawers[k] }))
        },
        _ => drawers,
    }
}

pub open spec fn folded_repo(repo: Repo, multi: bool) -> Repo {
    Repo {
        collapsed: multi || repo.collapsed,
        staged_collapsed: true,
        changes_collapsed: true,
        ..repo
    }
}

pub open spec fn folded_drawer(panel: DrawerPanel) -> DrawerPanel {
    DrawerPanel { expanded: false, ..panel }
}

/// Folding a header and unfolding it again gives the same rows.
pub proof fn law_toggling_twice_restores_the_rows(
    repos: Seq<Repo>,
    drawers: Seq<DrawerPanel>,
    row: Row,
)
    requires
        row_exists(row, repos, drawers),
        drawers.len() == DRAWERS,
    ensures
        toggled_repos(toggled_repos(repos, row), row) == repos,
        toggled_drawers(toggled_drawers(drawers, row), row) == drawers,
        rows_of(
            toggled_repos(toggled_repos(repos, row), row),
            toggled_drawers(toggled_drawers(drawers, row), row),
        ) == rows_of(repos, drawers),
{
    assert(toggled_repos(toggled_repos(repos, row), row) =~= repos);
    assert(toggled_drawers(toggled_drawers(drawers, row), row) =~= drawers);
}

/// A row that heads something that can be unfolded.
pub open spec fn is_header(row: Row) -> bool {
    row is RepoHeader || row is StagedHeader || row is ChangesHeader || row is DrawerHeader
}

proof fn lemma_folded_repos(repos: Seq<Repo>, n: int)
    requires
        0 <= n <= repos.len(),
        forall|r: int|
            0 <= r < repos.len() ==> (#[trigger] repos[r]).staged_collapsed
                && repos[r].changes_collapsed && (repos.len() > 1 ==> repos[r].collapsed),
    ensures
        forall|i: int|
            0 <= i < repos_rows(repos, n).len() ==> is_header(
                #[trigger] repos_rows(repos, n)[i],
            ),
    decreases n,
{
    if n > 0 {
        lemma_folded_repos(repos, n - 1);
        assert(repos[n - 1].staged_collapsed);
        let before = repos_rows(repos, n - 1);
        let own = repo_rows((n - 1) as usize, repos[n - 1], repos.len() > 1);
        assert forall|i: int| 0 <= i < own.len() implies is_header(#[trigger] own[i]) by {
        }
        assert forall|i: int| 0 <= i < repos_rows(repos, n).len() implies is_header(
            #[trigger] repos_rows(repos, n)[i],
        ) by {
            if i < before.len() {
                assert((before + own)[i] == before[i]);
            } else {
                assert((before + own)[i] == own[i - before.len()]);
            }
        }
    }
}

proof fn lemma_folded_drawers(drawers: Seq<DrawerPanel>, n: int)
    requires
        0 <= n <= drawers.len(),
        forall|k: int| 0 <= k < drawers.len() ==> !(#[trigger] drawers[k]).expanded,
    ensures
        forall|i: int|
            0 <= i < drawer_rows(drawers, n).len() ==> is_header(
                #[trigger] drawer_rows(drawers, n)[i],
            ),
    decreases n,
{
    if n > 0 {
        lemma_folded_drawers(drawers, n - 1);
        assert(!drawers[n - 1].expanded);
        let before = drawer_rows(drawers, n - 1);
        let own = panel_rows(all_drawers()[n - 1], drawers[n - 1]);
        assert forall|i: int| 0 <= i < drawer_rows(drawers, n).len() implies is_header(
            #[trigger] drawer_rows(drawers, n)[i],
        ) by {
            if i < before.len() {
                assert((before + own)[i] == before[i]);
            } else {
                assert((before + own)[i] == own[i - before.len()]);
            }
        }
    }
}

/// Collapsing all leaves the headers, each to unfold again, and nothing else.
pub proof fn law_collapsing_leaves_the_headers(panel: Panel, post: Panel, reload: bool, i: int)
    requires
        panel.wf(),
        panel.collapse_rel(&post, reload),
        0 <= i < post.rows@.len(),
    ensures
        is_header(post.rows@[i]),
{
    assert forall|r: int| 0 <= r < post.repos@.len() implies (
    #[trigger] post.repos@[r]).staged_collapsed && post.repos@[r].changes_collapsed && (
    post.repos@.len() > 1 ==> post.repos@[r].collapsed) by {
        assert(post.repos@[r] == folded_repo(panel.repos@[r], panel.repos@.len() > 1));
    }
    assert forall|k: int| 0 <= k < post.drawers@.len() implies !(
    #[trigger] post.drawers@[k]).expanded by {
        assert(post.drawers@[k] == folded_drawer(panel.drawers@[k]));
    }
    let above = repos_rows(post.repos@, post.repos@.len() as int);
    let below = drawer_rows(post.drawers@, DRAWERS as int);
    lemma_folded_repos(post.repos@, post.repos@.len() as int);
    lemma_folded_drawers(post.drawers@, DRAWERS as int);
    if i < above.len() {
        assert((above + below)[i] == above[i]);
    } else {
        assert((above + below)[i] == below[i - above.len()]);
    }
}

} // verus!
