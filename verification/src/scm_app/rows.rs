//! The rows of the list: which there are, which of them the keyboard stops at,
//! and where they are drawn.

use vstd::prelude::*;

use crate::git::{Git, Status};
use crate::scm_app::drawer::{all_drawers, Drawer, DrawerPanel, DRAWERS};
use crate::scm_app::message::{inline_field, inline_field_width, message_rows, shown_rows};

verus! {

/// One discovered repository and its view state, including its own commit
/// message: several repositories have one input each.
pub struct Repo {
    pub git: Git,
    pub status: Status,
    pub collapsed: bool,
    pub staged_collapsed: bool,
    pub changes_collapsed: bool,
    pub message: Vec<char>,
    pub cursor: usize,
}

impl Repo {
    /// The cursor stands in the message or right behind it.
    pub open spec fn wf(&self) -> bool {
        self.cursor <= self.message@.len()
    }

    pub fn new(git: Git) -> (res: Self)
        ensures
            res.wf(),
            res.git == git,
            res.status.clean(),
            !res.collapsed && !res.staged_collapsed && !res.changes_collapsed,
            res.message@.len() == 0,
            res.cursor == 0,
    {
        Repo {
            git,
            status: Status::default(),
            collapsed: false,
            staged_collapsed: false,
            changes_collapsed: false,
            message: Vec::new(),
            cursor: 0,
        }
    }

    /// The branch, starred where the working tree is dirty.
    pub open spec fn branch_decor_spec(&self) -> Seq<char> {
        if self.status.clean() {
            self.status.branch@
        } else {
            self.status.branch@ + "*"@
        }
    }

    /// The repo row's branch decoration: `name*` when the tree is dirty.
    pub fn branch_decor(&self) -> (res: String)
        ensures
            res@ == self.branch_decor_spec(),
    {
        let mut out: String = self.status.branch.clone();
        if !self.status.is_clean() {
            out.append("*");
        }
        out
    }
}

/// List rows; the first index on the repo-scoped variants is the repo.
#[derive(Clone, Copy, PartialEq, Eq, Structural, Debug)]
pub enum Row {
    /// Only there when more than one repository is visible.
    RepoHeader(usize),
    /// The repo's inline message box, several lines high; only there when more
    /// than one repository is visible.
    Message(usize),
    /// The repo's inline Commit button; only there when more than one
    /// repository is visible.
    Commit(usize),
    StagedHeader(usize),
    ChangesHeader(usize),
    Staged(usize, usize),
    Unstaged(usize, usize),
    DrawerHeader(Drawer),
    DrawerLine(Drawer, usize),
}

impl Row {
    pub open spec fn repo_spec(self) -> Option<usize> {
        match self {
            Row::RepoHeader(r) => Some(r),
            Row::Message(r) => Some(r),
            Row::Commit(r) => Some(r),
            Row::StagedHeader(r) => Some(r),
            Row::ChangesHeader(r) => Some(r),
            Row::Staged(r, _) => Some(r),
            Row::Unstaged(r, _) => Some(r),
            Row::DrawerHeader(_) => None,
            Row::DrawerLine(_, _) => None,
        }
    }

    /// The repository a row belongs to (drawers follow the active repo).
    pub fn repo(self) -> (res: Option<usize>)
        ensures
            res == self.repo_spec(),
    {
        match self {
            Row::RepoHeader(r) => Some(r),
            Row::Message(r) => Some(r),
            Row::Commit(r) => Some(r),
            Row::StagedHeader(r) => Some(r),
            Row::ChangesHeader(r) => Some(r),
            Row::Staged(r, _) => Some(r),
            Row::Unstaged(r, _) => Some(r),
            Row::DrawerHeader(_) => None,
            Row::DrawerLine(_, _) => None,
        }
    }

    pub open spec fn is_stop(self) -> bool {
        !(self is Message) && !(self is Commit)
    }

    /// Keyboard navigation skips widget rows: they are clicked, like inputs.
    pub fn selectable(self) -> (res: bool)
        ensures
            res == self.is_stop(),
    {
        match self {
            Row::Message(_) => false,
            Row::Commit(_) => false,
            _ => true,
        }
    }
}

// ---- Which rows there are ----

/// The rows of repository `r`.
pub open spec fn repo_rows(r: usize, repo: Repo, multi: bool) -> Seq<Row> {
    if multi && repo.collapsed {
        seq![Row::RepoHeader(r)]
    } else {
        (if multi {
            seq![Row::RepoHeader(r), Row::Message(r), Row::Commit(r)]
        } else {
            Seq::empty()
        }) + staged_rows(r, repo) + changes_rows(r, repo)
    }
}

/// The Staged section exists only while something is staged.
pub open spec fn staged_rows(r: usize, repo: Repo) -> Seq<Row> {
    if repo.status.staged@.len() == 0 {
        Seq::empty()
    } else if repo.staged_collapsed {
        seq![Row::StagedHeader(r)]
    } else {
        seq![Row::StagedHeader(r)] + Seq::new(
            repo.status.staged@.len(),
            |i: int| Row::Staged(r, i as usize),
        )
    }
}

pub open spec fn changes_rows(r: usize, repo: Repo) -> Seq<Row> {
    if repo.changes_collapsed {
        seq![Row::ChangesHeader(r)]
    } else {
        seq![Row::ChangesHeader(r)] + Seq::new(
            repo.status.unstaged@.len(),
            |i: int| Row::Unstaged(r, i as usize),
        )
    }
}

/// The rows of the first `n` repositories.
pub open spec fn repos_rows(repos: Seq<Repo>, n: int) -> Seq<Row>
    decreases n,
{
    if n <= 0 {
        Seq::empty()
    } else {
        repos_rows(repos, n - 1) + repo_rows((n - 1) as usize, repos[n - 1], repos.len() > 1)
    }
}

pub open spec fn panel_rows(kind: Drawer, panel: DrawerPanel) -> Seq<Row> {
    if panel.expanded {
        seq![Row::DrawerHeader(kind)] + Seq::new(
            panel.lines@.len(),
            |i: int| Row::DrawerLine(kind, i as usize),
        )
    } else {
        seq![Row::DrawerHeader(kind)]
    }
}

/// The rows of the first `n` drawers.
pub open spec fn drawer_rows(drawers: Seq<DrawerPanel>, n: int) -> Seq<Row>
    decreases n,
{
    if n <= 0 {
        Seq::empty()
    } else {
        drawer_rows(drawers, n - 1) + panel_rows(all_drawers()[n - 1], drawers[n - 1])
    }
}

/// The rows of the list: the repositories, then the drawers.
pub open spec fn rows_of(repos: Seq<Repo>, drawers: Seq<DrawerPanel>) -> Seq<Row> {
    repos_rows(repos, repos.len() as int) + drawer_rows(drawers, DRAWERS as int)
}

fn push_staged_rows(rows: &mut Vec<Row>, r: usize, repo: &Repo)
    ensures
        final(rows)@ == old(rows)@ + staged_rows(r, *repo),
{
    let ghost start: Seq<Row> = rows@;
    if repo.status.staged.len() == 0 {
        assert(rows@ =~= start + staged_rows(r, *repo));
        return;
    }
    rows.push(Row::StagedHeader(r));
    if !repo.staged_collapsed {
        let ghost before: Seq<Row> = rows@;
        let mut i: usize = 0;
        assert(before + Seq::new(0, |k: int| Row::Staged(r, k as usize)) =~= before);
        while i < repo.status.staged.len()
            invariant
                i <= repo.status.staged@.len(),
                rows@ == before + Seq::new(i as nat, |k: int| Row::Staged(r, k as usize)),
            decreases repo.status.staged@.len() - i,
        {
            rows.push(Row::Staged(r, i));
            i += 1;
            assert(rows@ =~= before + Seq::new(i as nat, |k: int| Row::Staged(r, k as usize)));
        }
    }
    assert(rows@ =~= start + staged_rows(r, *repo));
}

fn push_changes_rows(rows: &mut Vec<Row>, r: usize, repo: &Repo)
    ensures
        final(rows)@ == old(rows)@ + changes_rows(r, *repo),
{
    let ghost start: Seq<Row> = rows@;
    rows.push(Row::ChangesHeader(r));
    if !repo.changes_collapsed {
        let ghost before: Seq<Row> = rows@;
        let mut i: usize = 0;
        assert(before + Seq::new(0, |k: int| Row::Unstaged(r, k as usize)) =~= before);
        while i < repo.status.unstaged.len()
            invariant
                i <= repo.status.unstaged@.len(),
                rows@ == before + Seq::new(i as nat, |k: int| Row::Unstaged(r, k as usize)),
            decreases repo.status.unstaged@.len() - i,
        {
            rows.push(Row::Unstaged(r, i));
            i += 1;
            assert(rows@ =~= before + Seq::new(i as nat, |k: int| Row::Unstaged(r, k as usize)));
        }
    }
    assert(rows@ =~= start + changes_rows(r, *repo));
}

fn push_repo_rows(rows: &mut Vec<Row>, r: usize, repo: &Repo, multi: bool)
    ensures
        final(rows)@ == old(rows)@ + repo_rows(r, *repo, multi),
{
    let ghost start: Seq<Row> = rows@;
    if multi {
        rows.push(Row::RepoHeader(r));
        if repo.collapsed {
            assert(rows@ =~= start + repo_rows(r, *repo, multi));
            return;
        }
        rows.push(Row::Message(r));
        rows.push(Row::Commit(r));
    }
    let ghost own: Seq<Row> = if multi {
        seq![Row::RepoHeader(r), Row::Message(r), Row::Commit(r)]
    } else {
        Seq::empty()
    };
    assert(rows@ =~= start + own);
    push_staged_rows(rows, r, repo);
    push_changes_rows(rows, r, repo);
    assert(start + own + staged_rows(r, *repo) + changes_rows(r, *repo) =~= start + (own
        + staged_rows(r, *repo) + changes_rows(r, *repo)));
}

fn push_panel_rows(rows: &mut Vec<Row>, kind: Drawer, panel: &DrawerPanel)
    ensures
        final(rows)@ == old(rows)@ + panel_rows(kind, *panel),
{
    rows.push(Row::DrawerHeader(kind));
    if panel.expanded {
        let ghost before: Seq<Row> = rows@;
        let mut i: usize = 0;
        while i < panel.lines.len()
            invariant
                i <= panel.lines@.len(),
                rows@ == before + Seq::new(i as nat, |k: int| Row::DrawerLine(kind, k as usize)),
            decreases panel.lines@.len() - i,
        {
            rows.push(Row::DrawerLine(kind, i));
            i += 1;
            assert(rows@ =~= before + Seq::new(
                i as nat,
                |k: int| Row::DrawerLine(kind, k as usize),
            ));
        }
    }
    assert(rows@ =~= old(rows)@ + panel_rows(kind, *panel));
}

/// The rows for the repositories and drawers as they are now.
pub fn build_rows(repos: &Vec<Repo>, drawers: &Vec<DrawerPanel>) -> (res: Vec<Row>)
    requires
        drawers@.len() == DRAWERS,
    ensures
        res@ == rows_of(repos@, drawers@),
{
    let mut rows: Vec<Row> = Vec::new();
    let multi: bool = repos.len() > 1;
    let mut r: usize = 0;
    while r < repos.len()
        invariant
            r <= repos@.len(),
            multi == (repos@.len() > 1),
            rows@ == repos_rows(repos@, r as int),
        decreases repos@.len() - r,
    {
        push_repo_rows(&mut rows, r, &repos[r], multi);
        r += 1;
    }
    let ghost upper: Seq<Row> = rows@;
    let all: [Drawer; 8] = Drawer::all();
    let mut k: usize = 0;
    assert(rows@ =~= upper + drawer_rows(drawers@, 0));
    while k < DRAWERS
        invariant
            k <= DRAWERS,
            all@ == all_drawers(),
            drawers@.len() == DRAWERS,
            rows@ == upper + drawer_rows(drawers@, k as int),
        decreases DRAWERS - k,
    {
        push_panel_rows(&mut rows, all[k], &drawers[k]);
        k += 1;
        assert(rows@ =~= upper + drawer_rows(drawers@, k as int));
    }
    rows
}

/// What a row points at is there.
pub open spec fn row_exists(row: Row, repos: Seq<Repo>, drawers: Seq<DrawerPanel>) -> bool {
    match row {
        Row::RepoHeader(r) => r < repos.len(),
        Row::Message(r) => r < repos.len(),
        Row::Commit(r) => r < repos.len(),
        Row::StagedHeader(r) => r < repos.len(),
        Row::ChangesHeader(r) => r < repos.len(),
        Row::Staged(r, i) => r < repos.len() && i < repos[r as int].status.staged@.len(),
        Row::Unstaged(r, i) => r < repos.len() && i < repos[r as int].status.unstaged@.len(),
        Row::DrawerHeader(kind) => true,
        Row::DrawerLine(kind, i) => drawers[kind.index_spec()].expanded && i
            < drawers[kind.index_spec()].lines@.len(),
    }
}

proof fn lemma_repo_rows_exist(repos: Seq<Repo>, drawers: Seq<DrawerPanel>, n: int)
    requires
        0 <= n <= repos.len(),
        repos.len() <= usize::MAX,
        forall|r: int|
            0 <= r < repos.len() ==> (#[trigger] repos[r]).status.staged@.len() <= usize::MAX
                && repos[r].status.unstaged@.len() <= usize::MAX,
    ensures
        forall|i: int|
            0 <= i < repos_rows(repos, n).len() ==> row_exists(
                #[trigger] repos_rows(repos, n)[i],
                repos,
                drawers,
            ),
    decreases n,
{
    if n > 0 {
        lemma_repo_rows_exist(repos, drawers, n - 1);
        let r = (n - 1) as usize;
        let repo = repos[n - 1];
        assert(repo.status.staged@.len() <= usize::MAX);
        let head = repos_rows(repos, n - 1);
        let own = repo_rows(r, repo, repos.len() > 1);
        assert forall|k: int| 0 <= k < own.len() implies row_exists(
            #[trigger] own[k],
            repos,
            drawers,
        ) by {}
        assert forall|i: int| 0 <= i < repos_rows(repos, n).len() implies row_exists(
            #[trigger] repos_rows(repos, n)[i],
            repos,
            drawers,
        ) by {
            if i >= head.len() {
                assert(repos_rows(repos, n)[i] == own[i - head.len()]);
            } else {
                assert(repos_rows(repos, n)[i] == head[i]);
            }
        }
    }
}

proof fn lemma_drawer_rows_exist(repos: Seq<Repo>, drawers: Seq<DrawerPanel>, n: int)
    requires
        0 <= n <= DRAWERS,
        drawers.len() == DRAWERS,
        forall|k: int|
            0 <= k < drawers.len() ==> (#[trigger] drawers[k]).lines@.len() <= usize::MAX,
    ensures
        forall|i: int|
            0 <= i < drawer_rows(drawers, n).len() ==> row_exists(
                #[trigger] drawer_rows(drawers, n)[i],
                repos,
                drawers,
            ),
        n > 0 ==> drawer_rows(drawers, n).len() > 0,
    decreases n,
{
    if n > 0 {
        lemma_drawer_rows_exist(repos, drawers, n - 1);
        let kind = all_drawers()[n - 1];
        assert(kind.index_spec() == n - 1);
        assert(drawers[n - 1].lines@.len() <= usize::MAX);
        let head = drawer_rows(drawers, n - 1);
        let own = panel_rows(kind, drawers[n - 1]);
        assert forall|k: int| 0 <= k < own.len() implies row_exists(
            #[trigger] own[k],
            repos,
            drawers,
        ) by {}
        assert forall|i: int| 0 <= i < drawer_rows(drawers, n).len() implies row_exists(
            #[trigger] drawer_rows(drawers, n)[i],
            repos,
            drawers,
        ) by {
            if i >= head.len() {
                assert(drawer_rows(drawers, n)[i] == own[i - head.len()]);
            } else {
                assert(drawer_rows(drawers, n)[i] == head[i]);
            }
        }
    }
}

/// Every row of the list points at a repository, file or drawer line that is
/// there, and the list is never empty: the drawers always have their headers.
pub proof fn law_rows_point_at_what_exists(repos: Seq<Repo>, drawers: Seq<DrawerPanel>)
    requires
        drawers.len() == DRAWERS,
        repos.len() <= usize::MAX,
        forall|r: int|
            0 <= r < repos.len() ==> (#[trigger] repos[r]).status.staged@.len() <= usize::MAX
                && repos[r].status.unstaged@.len() <= usize::MAX,
        forall|k: int|
            0 <= k < drawers.len() ==> (#[trigger] drawers[k]).lines@.len() <= usize::MAX,
    ensures
        rows_of(repos, drawers).len() > 0,
        forall|i: int|
            0 <= i < rows_of(repos, drawers).len() ==> row_exists(
                #[trigger] rows_of(repos, drawers)[i],
                repos,
                drawers,
            ),
{
    lemma_repo_rows_exist(repos, drawers, repos.len() as int);
    lemma_drawer_rows_exist(repos, drawers, DRAWERS as int);
    let upper = repos_rows(repos, repos.len() as int);
    let lower = drawer_rows(drawers, DRAWERS as int);
    assert forall|i: int| 0 <= i < rows_of(repos, drawers).len() implies row_exists(
        #[trigger] rows_of(repos, drawers)[i],
        repos,
        drawers,
    ) by {
        if i >= upper.len() {
            assert(rows_of(repos, drawers)[i] == lower[i - upper.len()]);
        } else {
            assert(rows_of(repos, drawers)[i] == upper[i]);
        }
    }
}

// ---- Keyboard stops ----

/// The first keyboard stop at or after `from`, or the length.
pub open spec fn next_stop(rows: Seq<Row>, from: int) -> int
    decreases rows.len() - from,
{
    if 0 <= from < rows.len() && !rows[from].is_stop() {
        next_stop(rows, from + 1)
    } else {
        from
    }
}

/// The last keyboard stop at or before `from`, or -1.
pub open spec fn prev_stop(rows: Seq<Row>, from: int) -> int
    decreases from + 1,
{
    if 0 <= from < rows.len() && !rows[from].is_stop() {
        prev_stop(rows, from - 1)
    } else {
        from
    }
}

/// The keyboard stop closest to the row `from`; of two that are equally close
/// the one behind it, and the first row where there is no stop at all.
pub open spec fn nearest_stop(rows: Seq<Row>, from: int) -> int {
    let after = next_stop(rows, from);
    let before = prev_stop(rows, from - 1);
    if after < rows.len() && (before < 0 || after - from <= from - before) {
        after
    } else if before >= 0 {
        before
    } else {
        0
    }
}

pub proof fn lemma_stops(rows: Seq<Row>, from: int)
    requires
        0 <= from <= rows.len(),
    ensures
        from <= next_stop(rows, from) <= rows.len(),
        next_stop(rows, from) < rows.len() ==> rows[next_stop(rows, from)].is_stop(),
    decreases rows.len() - from,
{
    if from < rows.len() && !rows[from].is_stop() {
        lemma_stops(rows, from + 1);
    }
}

pub proof fn lemma_prev_stops(rows: Seq<Row>, from: int)
    requires
        -1 <= from < rows.len(),
    ensures
        -1 <= prev_stop(rows, from) <= from,
        prev_stop(rows, from) >= 0 ==> rows[prev_stop(rows, from)].is_stop(),
    decreases from + 1,
{
    if from >= 0 && !rows[from].is_stop() {
        lemma_prev_stops(rows, from - 1);
    }
}

fn find_next_stop(rows: &Vec<Row>, from: usize) -> (res: usize)
    requires
        from <= rows@.len(),
    ensures
        res == next_stop(rows@, from as int),
        from <= res <= rows@.len(),
{
    let mut i: usize = from;
    while i < rows.len() && !rows[i].selectable()
        invariant
            from <= i <= rows@.len(),
            next_stop(rows@, i as int) == next_stop(rows@, from as int),
        decreases rows@.len() - i,
    {
        i += 1;
    }
    i
}

/// The last stop at or before `from - 1`, as one more than its index; zero
/// where there is none.
fn find_prev_stop(rows: &Vec<Row>, from: usize) -> (res: usize)
    requires
        from <= rows@.len(),
    ensures
        res - 1 == prev_stop(rows@, from - 1),
        res <= from,
{
    let mut i: usize = from;
    while i > 0 && !rows[i - 1].selectable()
        invariant
            i <= from <= rows@.len(),
            prev_stop(rows@, i - 1) == prev_stop(rows@, from - 1),
        decreases i,
    {
        i -= 1;
    }
    i
}

/// No other keyboard stop is closer to the row `from`.
pub open spec fn is_closest(rows: Seq<Row>, from: int, at: int) -> bool {
    forall|j: int|
        0 <= j < rows.len() && (#[trigger] rows[j]).is_stop() ==> rows[at].is_stop() && distance(
            at,
            from,
        ) <= distance(j, from)
}

pub open spec fn distance(a: int, b: int) -> int {
    if a < b {
        b - a
    } else {
        a - b
    }
}

/// The stop that is found for a row is the closest one to it.
pub proof fn law_the_nearest_stop_is_the_closest(rows: Seq<Row>, from: int)
    requires
        0 <= from <= rows.len(),
    ensures
        rows.len() > 0 ==> 0 <= nearest_stop(rows, from) < rows.len(),
        rows.len() == 0 ==> nearest_stop(rows, from) == 0,
        is_closest(rows, from, nearest_stop(rows, from)),
{
    lemma_stops(rows, from);
    lemma_prev_stops(rows, from - 1);
    assert forall|j: int| 0 <= j < rows.len() && (#[trigger] rows[j]).is_stop() implies rows[nearest_stop(
        rows,
        from,
    )].is_stop() && distance(nearest_stop(rows, from), from) <= distance(j, from) by {
        lemma_stop_is_found(rows, from, j);
    }
}

/// The closest keyboard-selectable row to `from` (widget rows, which are
/// inline message boxes and commit buttons, are skipped). `from` may stand behind
/// the last row; the first row is the answer where there is none to select, and
/// for a list without rows.
pub fn nearest_selectable(rows: &Vec<Row>, from: usize) -> (res: usize)
    requires
        from <= rows@.len(),
    ensures
        res == nearest_stop(rows@, from as int),
        rows@.len() > 0 ==> res < rows@.len(),
        rows@.len() == 0 ==> res == 0,
        is_closest(rows@, from as int, res as int),
{
    proof {
        law_the_nearest_stop_is_the_closest(rows@, from as int);
    }
    let after: usize = find_next_stop(rows, from);
    let before: usize = find_prev_stop(rows, from);
    if after < rows.len() && (before == 0 || after - from <= from - (before - 1)) {
        after
    } else if before > 0 {
        before - 1
    } else {
        0
    }
}

pub open spec fn clamp(n: int, low: int, high: int) -> int {
    if n < low {
        low
    } else if n > high {
        high
    } else {
        n
    }
}

/// Where the selection goes for a step of `delta` rows: the row that far away,
/// or the first keyboard stop beyond it in the same direction, or the stop
/// nearest to it at the ends of the list.
pub open spec fn moved(rows: Seq<Row>, selected: Option<usize>, delta: int) -> int {
    match selected {
        None => nearest_stop(rows, 0),
        Some(sel) => {
            let target = clamp(sel + delta, 0, rows.len() - 1);
            if delta >= 0 && next_stop(rows, target) < rows.len() {
                next_stop(rows, target)
            } else if delta < 0 && prev_stop(rows, target) >= 0 {
                prev_stop(rows, target)
            } else {
                nearest_stop(rows, target)
            }
        },
    }
}

pub fn move_target(rows: &Vec<Row>, selected: Option<usize>, delta: isize) -> (res: usize)
    requires
        rows@.len() > 0,
        selected matches Some(sel) ==> sel < rows@.len(),
        delta > isize::MIN,
    ensures
        res == moved(rows@, selected, delta as int),
        res < rows@.len(),
{
    match selected {
        None => nearest_selectable(rows, 0),
        Some(sel) => {
            let last: usize = rows.len() - 1;
            if delta >= 0 {
                let step: usize = delta as usize;
                let target: usize = if step > last - sel {
                    last
                } else {
                    sel + step
                };
                let after: usize = find_next_stop(rows, target);
                if after < rows.len() {
                    after
                } else {
                    nearest_selectable(rows, target)
                }
            } else {
                let step: usize = (-delta) as usize;
                let target: usize = if step > sel {
                    0
                } else {
                    sel - step
                };
                let before: usize = find_prev_stop(rows, target + 1);
                if before > 0 {
                    before - 1
                } else {
                    nearest_selectable(rows, target)
                }
            }
        },
    }
}

/// Wherever there is a keyboard stop at all, a keyboard step lands on one.
pub proof fn law_keyboard_lands_on_stops(rows: Seq<Row>, selected: Option<usize>, delta: int)
    requires
        selected matches Some(sel) ==> sel < rows.len(),
        exists|i: int| 0 <= i < rows.len() && (#[trigger] rows[i]).is_stop(),
    ensures
        0 <= moved(rows, selected, delta) < rows.len(),
        rows[moved(rows, selected, delta)].is_stop(),
{
    let target = match selected {
        None => 0,
        Some(sel) => clamp(sel + delta, 0, rows.len() - 1),
    };
    let stop = choose|i: int| 0 <= i < rows.len() && (#[trigger] rows[i]).is_stop();
    lemma_stops(rows, target);
    lemma_prev_stops(rows, target);
    lemma_prev_stops(rows, target - 1);
    lemma_stop_is_found(rows, target, stop);
}

proof fn lemma_stop_is_found(rows: Seq<Row>, from: int, stop: int)
    requires
        0 <= from <= rows.len(),
        0 <= stop < rows.len(),
        rows[stop].is_stop(),
    ensures
        stop >= from ==> next_stop(rows, from) <= stop,
        stop <= from - 1 ==> prev_stop(rows, from - 1) >= stop,
{
    if stop >= from {
        lemma_next_stop_bound(rows, from, stop);
    } else {
        lemma_prev_stop_bound(rows, from - 1, stop);
    }
}

proof fn lemma_next_stop_bound(rows: Seq<Row>, from: int, stop: int)
    requires
        0 <= from <= stop < rows.len(),
        rows[stop].is_stop(),
    ensures
        next_stop(rows, from) <= stop,
    decreases stop - from,
{
    if from < stop && !rows[from].is_stop() {
        lemma_next_stop_bound(rows, from + 1, stop);
    }
}

proof fn lemma_prev_stop_bound(rows: Seq<Row>, from: int, stop: int)
    requires
        0 <= stop <= from < rows.len(),
        rows[stop].is_stop(),
    ensures
        prev_stop(rows, from) >= stop,
    decreases from - stop,
{
    if stop < from && !rows[from].is_stop() {
        lemma_prev_stop_bound(rows, from - 1, stop);
    }
}

// ---- Where rows are drawn ----

/// Where the list body was drawn last frame, for mouse hit-testing.
#[derive(Clone, Copy, PartialEq, Eq, Structural, Debug)]
pub struct BodyGeom {
    pub top: u16,
    pub height: u16,
    pub offset: usize,
}

impl Default for BodyGeom {
    fn default() -> (res: Self)
        ensures
            res == (BodyGeom { top: 0, height: 0, offset: 0 }),
    {
        BodyGeom { top: 0, height: 0, offset: 0 }
    }
}

/// The row of `list`, from its `k`-th entry on, that covers the line `target`
/// when the first of them is drawn at line `y`, with the line within it.
pub open spec fn hit_from(list: Seq<(usize, u16)>, k: int, y: int, target: int) -> Option<
    (usize, u16),
>
    decreases list.len() - k,
{
    if 0 <= k < list.len() {
        if target < y + list[k].1 {
            Some((list[k].0, (target - y) as u16))
        } else {
            hit_from(list, k + 1, y + list[k].1, target)
        }
    } else {
        None
    }
}

/// The row that is drawn at the line `mouse_row` of the pane.
pub open spec fn row_hit_spec(body: BodyGeom, mouse_row: u16, list: Seq<(usize, u16)>) -> Option<
    (usize, u16),
> {
    if body.top <= mouse_row < body.top + body.height {
        hit_from(list, 0, body.top as int, mouse_row as int)
    } else {
        None
    }
}

/// The row at a pane-local mouse row plus the line within it, where `rows`
/// holds the visible rows with their heights.
pub fn row_hit_with_heights(body: BodyGeom, mouse_row: u16, rows: &[(usize, u16)]) -> (res: Option<
    (usize, u16),
>)
    ensures
        res == row_hit_spec(body, mouse_row, rows@),
{
    if mouse_row < body.top || mouse_row - body.top >= body.height {
        return None;
    }
    let mut left: u16 = mouse_row - body.top;
    let mut k: usize = 0;
    while k < rows.len()
        invariant
            k <= rows@.len(),
            left <= mouse_row,
            body.top <= mouse_row < body.top + body.height,
            hit_from(rows@, k as int, mouse_row - left, mouse_row as int) == hit_from(
                rows@,
                0,
                body.top as int,
                mouse_row as int,
            ),
        decreases rows@.len() - k,
    {
        let (index, height): (usize, u16) = rows[k];
        if left < height {
            return Some((index, left));
        }
        left -= height;
        k += 1;
    }
    None
}

/// A hit lies inside the row it names: the row is in the list, and the line is
/// one of that row's lines.
pub proof fn law_hits_lie_inside_their_row(body: BodyGeom, mouse_row: u16, list: Seq<(usize, u16)>)
    ensures
        row_hit_spec(body, mouse_row, list) matches Some(hit) ==> exists|k: int|
            0 <= k < list.len() && (#[trigger] list[k]).0 == hit.0 && hit.1 < list[k].1,
{
    if body.top <= mouse_row < body.top + body.height {
        lemma_hit_inside(list, 0, body.top as int, mouse_row as int);
    }
}

proof fn lemma_hit_inside(list: Seq<(usize, u16)>, k: int, y: int, target: int)
    requires
        0 <= k <= list.len(),
        0 <= y <= target < 0x10000,
    ensures
        hit_from(list, k, y, target) matches Some(hit) ==> exists|j: int|
            0 <= j < list.len() && (#[trigger] list[j]).0 == hit.0 && hit.1 < list[j].1,
    decreases list.len() - k,
{
    if k < list.len() {
        if target < y + list[k].1 {
            let hit = hit_from(list, k, y, target)->0;
            assert(list[k].0 == hit.0 && hit.1 < list[k].1);
        } else {
            lemma_hit_inside(list, k + 1, y + list[k].1, target);
        }
    }
}

/// Screen lines a row takes: the inline message boxes grow with their wrapped
/// message, and the Commit button has a breathing row above and below it.
pub open spec fn height_of(repos: Seq<Repo>, pane_width: u16, row: Row) -> nat {
    match row {
        Row::Message(r) => if r < repos.len() {
            2 + shown_rows(
                repos[r as int].message@,
                repos[r as int].cursor as nat,
                inline_field(pane_width) as nat,
            )
        } else {
            3
        },
        Row::Commit(_) => 3,
        _ => 1,
    }
}

pub fn row_height(repos: &Vec<Repo>, pane_width: u16, row: Row) -> (res: u16)
    ensures
        res == height_of(repos@, pane_width, row),
        1 <= res <= 6,
{
    match row {
        Row::Message(r) => if r < repos.len() {
            let field: usize = inline_field_width(pane_width) as usize;
            let lines: usize = message_rows(repos[r].message.as_slice(), repos[r].cursor, field);
            2 + lines as u16
        } else {
            3
        },
        Row::Commit(_) => 3,
        _ => 1,
    }
}

/// The rows from `from` on, each with its height.
pub open spec fn with_heights(
    rows: Seq<Row>,
    repos: Seq<Repo>,
    pane_width: u16,
    from: int,
) -> Seq<(usize, u16)> {
    Seq::new(
        (if from <= rows.len() {
            rows.len() - from
        } else {
            0
        }) as nat,
        |k: int|
            ((from + k) as usize, height_of(repos, pane_width, rows[from + k]) as u16),
    )
}

pub fn visible_heights(
    rows: &Vec<Row>,
    repos: &Vec<Repo>,
    pane_width: u16,
    from: usize,
) -> (res: Vec<(usize, u16)>)
    ensures
        res@ == with_heights(rows@, repos@, pane_width, from as int),
{
    let mut out: Vec<(usize, u16)> = Vec::new();
    let mut i: usize = from;
    while i < rows.len()
        invariant
            from <= i,
            from <= rows@.len() ==> i <= rows@.len(),
            from > rows@.len() ==> i == from,
            out@.len() == i - from,
            forall|k: int|
                0 <= k < out@.len() ==> out@[k] == (
                    (from + k) as usize,
                    height_of(repos@, pane_width, rows@[from + k]) as u16,
                ),
        decreases rows@.len() - i,
    {
        out.push((i, row_height(repos, pane_width, rows[i])));
        i += 1;
    }
    assert(out@ =~= with_heights(rows@, repos@, pane_width, from as int));
    out
}

/// The lines that the rows from `from` up to but not including `to` take.
pub open spec fn lines_between(
    rows: Seq<Row>,
    repos: Seq<Repo>,
    pane_width: u16,
    from: int,
    to: int,
) -> nat
    decreases to - from,
{
    if 0 <= from < to && from < rows.len() {
        height_of(repos, pane_width, rows[from]) + lines_between(
            rows,
            repos,
            pane_width,
            from + 1,
            to,
        )
    } else {
        0
    }
}

fn fits_in(
    rows: &Vec<Row>,
    repos: &Vec<Repo>,
    pane_width: u16,
    from: usize,
    to: usize,
    height: usize,
) -> (res: bool)
    requires
        to <= rows@.len(),
        height <= 0x10000,
    ensures
        res == (lines_between(rows@, repos@, pane_width, from as int, to as int) <= height),
{
    let mut i: usize = from;
    let mut left: usize = height;
    while i < to
        invariant
            from <= i,
            i <= to || from > to,
            to <= rows@.len(),
            left <= height,
            lines_between(rows@, repos@, pane_width, from as int, to as int) == height - left
                + lines_between(rows@, repos@, pane_width, i as int, to as int),
        decreases to - i,
    {
        let h: usize = row_height(repos, pane_width, rows[i]) as usize;
        if h > left {
            return false;
        }
        left -= h;
        i += 1;
    }
    true
}

/// The first row to draw so that the selected one is seen: the selection where
/// it lies above, else the first from `scroll` on whose lines down to the
/// selection fit in the height.
pub open spec fn snapped(
    rows: Seq<Row>,
    repos: Seq<Repo>,
    pane_width: u16,
    scroll: int,
    sel: int,
    height: nat,
) -> int
    decreases sel - scroll,
{
    if sel <= scroll {
        sel
    } else if lines_between(rows, repos, pane_width, scroll, sel + 1) <= height {
        scroll
    } else {
        snapped(rows, repos, pane_width, scroll + 1, sel, height)
    }
}

pub fn snap_scroll(
    rows: &Vec<Row>,
    repos: &Vec<Repo>,
    pane_width: u16,
    scroll: usize,
    sel: usize,
    height: usize,
) -> (res: usize)
    requires
        sel < rows@.len(),
        height <= 0x10000,
    ensures
        res == snapped(rows@, repos@, pane_width, scroll as int, sel as int, height as nat),
        res <= sel,
{
    if sel <= scroll {
        return sel;
    }
    let count: usize = rows.len();
    let mut at: usize = scroll;
    while at < sel && !fits_in(rows, repos, pane_width, at, sel + 1, height)
        invariant
            scroll <= at <= sel,
            sel < count,
            count == rows@.len(),
            height <= 0x10000,
            snapped(rows@, repos@, pane_width, at as int, sel as int, height as nat) == snapped(
                rows@,
                repos@,
                pane_width,
                scroll as int,
                sel as int,
                height as nat,
            ),
        decreases sel - at,
    {
        at += 1;
    }
    at
}

/// The first row below those that are drawn from `at` on, when `left` lines
/// are left: a row that is cut off at the bottom still counts.
pub open spec fn drawn_end(
    rows: Seq<Row>,
    repos: Seq<Repo>,
    pane_width: u16,
    at: int,
    left: int,
) -> int
    decreases rows.len() - at,
{
    if 0 <= at < rows.len() && left > 0 {
        drawn_end(
            rows,
            repos,
            pane_width,
            at + 1,
            left - height_of(repos, pane_width, rows[at]),
        )
    } else {
        at
    }
}

pub fn visible_end(
    rows: &Vec<Row>,
    repos: &Vec<Repo>,
    pane_width: u16,
    scroll: usize,
    height: usize,
) -> (res: usize)
    requires
        scroll <= rows@.len(),
        height <= 0x10000,
    ensures
        res == drawn_end(rows@, repos@, pane_width, scroll as int, height as int),
        scroll <= res <= rows@.len(),
{
    let mut at: usize = scroll;
    let mut used: usize = 0;
    while at < rows.len() && used < height
        invariant
            scroll <= at <= rows@.len(),
            height <= 0x10000,
            used <= height + 6,
            drawn_end(rows@, repos@, pane_width, at as int, height - used) == drawn_end(
                rows@,
                repos@,
                pane_width,
                scroll as int,
                height as int,
            ),
        decreases rows@.len() - at,
    {
        used += row_height(repos, pane_width, rows[at]) as usize;
        at += 1;
    }
    at
}

/// After a keyboard step the selected row is among the rows that are drawn.
pub proof fn law_snapping_shows_the_selection(
    rows: Seq<Row>,
    repos: Seq<Repo>,
    pane_width: u16,
    scroll: int,
    sel: int,
    height: nat,
)
    requires
        0 <= scroll,
        0 <= sel < rows.len(),
        height > 0,
    ensures
        ({
            let top = snapped(rows, repos, pane_width, scroll, sel, height);
            top <= sel < drawn_end(rows, repos, pane_width, top, height as int)
        }),
    decreases sel - scroll,
{
    if sel <= scroll {
        lemma_drawn_reaches(rows, repos, pane_width, sel, sel, height as int);
    } else if lines_between(rows, repos, pane_width, scroll, sel + 1) <= height {
        lemma_drawn_reaches(rows, repos, pane_width, scroll, sel, height as int);
    } else {
        law_snapping_shows_the_selection(rows, repos, pane_width, scroll + 1, sel, height);
    }
}

proof fn lemma_height_positive(repos: Seq<Repo>, pane_width: u16, row: Row)
    ensures
        height_of(repos, pane_width, row) >= 1,
{
}

proof fn lemma_drawn_reaches(
    rows: Seq<Row>,
    repos: Seq<Repo>,
    pane_width: u16,
    at: int,
    sel: int,
    left: int,
)
    requires
        0 <= at <= sel < rows.len(),
        left > 0,
        at == sel || lines_between(rows, repos, pane_width, at, sel + 1) <= left,
    ensures
        sel < drawn_end(rows, repos, pane_width, at, left),
    decreases sel - at,
{
    let h = height_of(repos, pane_width, rows[at]);
    if at == sel {
        lemma_drawn_grows(rows, repos, pane_width, at + 1, left - h);
    } else {
        lemma_height_positive(repos, pane_width, rows[at + 1]);
        assert(lines_between(rows, repos, pane_width, at + 1, sel + 1) >= 1);
        lemma_drawn_reaches(rows, repos, pane_width, at + 1, sel, left - h);
    }
}

proof fn lemma_drawn_grows(
    rows: Seq<Row>,
    repos: Seq<Repo>,
    pane_width: u16,
    at: int,
    left: int,
)
    ensures
        drawn_end(rows, repos, pane_width, at, left) >= at,
    decreases rows.len() - at,
{
    if 0 <= at < rows.len() && left > 0 {
        lemma_drawn_grows(
            rows,
            repos,
            pane_width,
            at + 1,
            left - height_of(repos, pane_width, rows[at]),
        );
    }
}

/// The line where the row `index` starts when `at` is drawn at line `y`;
/// `None` where `index` is not among the rows from `at` on.
pub open spec fn line_of(
    rows: Seq<Row>,
    repos: Seq<Repo>,
    pane_width: u16,
    at: int,
    y: int,
    index: int,
) -> Option<int>
    decreases rows.len() - at,
{
    if 0 <= at < rows.len() {
        if at == index {
            Some(y)
        } else {
            line_of(
                rows,
                repos,
                pane_width,
                at + 1,
                y + height_of(repos, pane_width, rows[at]),
                index,
            )
        }
    } else {
        None
    }
}

/// The screen row where `index`'s first line is drawn, where it is visible.
pub open spec fn row_y_spec(
    rows: Seq<Row>,
    repos: Seq<Repo>,
    pane_width: u16,
    body: BodyGeom,
    index: int,
) -> Option<u16> {
    match line_of(rows, repos, pane_width, body.offset as int, body.top as int, index) {
        Some(y) => if y < body.top + body.height && y <= u16::MAX {
            Some(y as u16)
        } else {
            None
        },
        None => None,
    }
}

proof fn lemma_line_grows(
    rows: Seq<Row>,
    repos: Seq<Repo>,
    pane_width: u16,
    at: int,
    y: int,
    index: int,
)
    ensures
        line_of(rows, repos, pane_width, at, y, index) matches Some(line) ==> line >= y,
    decreases rows.len() - at,
{
    if 0 <= at < rows.len() && at != index {
        lemma_line_grows(
            rows,
            repos,
            pane_width,
            at + 1,
            y + height_of(repos, pane_width, rows[at]),
            index,
        );
    }
}

pub fn row_y(
    rows: &Vec<Row>,
    repos: &Vec<Repo>,
    pane_width: u16,
    body: BodyGeom,
    index: usize,
) -> (res: Option<u16>)
    ensures
        res == row_y_spec(rows@, repos@, pane_width, body, index as int),
{
    let limit: u32 = body.top as u32 + body.height as u32;
    let mut y: u32 = body.top as u32;
    let mut at: usize = body.offset;
    while at < rows.len()
        invariant
            y <= limit,
            limit == body.top + body.height,
            line_of(rows@, repos@, pane_width, at as int, y as int, index as int) == line_of(
                rows@,
                repos@,
                pane_width,
                body.offset as int,
                body.top as int,
                index as int,
            ),
        decreases rows@.len() - at,
    {
        if at == index {
            return if y < limit && y <= 0xffff {
                Some(y as u16)
            } else {
                None
            };
        }
        let next: u32 = y + row_height(repos, pane_width, rows[at]) as u32;
        if next > limit {
            proof {
                lemma_line_grows(
                    rows@,
                    repos@,
                    pane_width,
                    at + 1,
                    next as int,
                    index as int,
                );
            }
            return None;
        }
        y = next;
        at += 1;
    }
    None
}

} // verus!
