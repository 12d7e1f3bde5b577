//! What the list of the Source Control panel promises: which rows it has, where
//! the keys and the mouse find them, and what their labels say.

use crate::git::Status;
use crate::scm_app::drawer::{
    all_drawers, drawer_ref, fetched_lines, first_hash, is_hash, show_target, Drawer, DrawerPanel,
    RefView, DRAWERS,
};
use crate::scm_app::header::{header_counts, sync_counts, sync_label_spec};
use crate::scm_app::panel::{followed, Panel};
use crate::scm_app::refresh::with_status;
use crate::scm_app::rows::{
    changes_rows, drawer_rows, height_of, hit_from, lines_between, moved, next_stop, panel_rows,
    prev_stop, repo_rows, repos_rows, row_hit_spec, rows_of, staged_rows, with_heights, BodyGeom,
    Repo, Row,
};
use crate::text::{decimal, words};
use vstd::prelude::*;

verus! {

// ---- Which rows there are ----

/// Whether the files of a repository are listed at all: it is the only one, or
/// it is not folded.
pub open spec fn is_open(repos: Seq<Repo>, r: int) -> bool {
    repos.len() <= 1 || !repos[r].collapsed
}

proof fn lemma_repo_rows(repos: Seq<Repo>, r: usize, row: Row)
    requires
        r < repos.len(),
        repos[r as int].status.staged@.len() <= usize::MAX,
        repos[r as int].status.unstaged@.len() <= usize::MAX,
    ensures
        repo_rows(r, repos[r as int], repos.len() > 1).contains(row) <==> row.repo_spec() == Some(r)
            && is_listed(repos, row),
{
    let repo = repos[r as int];
    let all = repo_rows(r, repo, repos.len() > 1);
    let staged = staged_rows(r, repo);
    let changes = changes_rows(r, repo);
    let n = if repos.len() > 1 {
        3int
    } else {
        0
    };
    if is_open(repos, r as int) {
        let head = if repos.len() > 1 {
            seq![Row::RepoHeader(r), Row::Message(r), Row::Commit(r)]
        } else {
            Seq::empty()
        };
        assert(all == head + staged + changes);
        if all.contains(row) {
            let k = choose|k: int| 0 <= k < all.len() && all[k] == row;
            if k >= n + staged.len() {
                assert(all[k] == changes[k - n - staged.len()]);
            } else if k >= n {
                assert(all[k] == staged[k - n]);
            }
        }
        if row.repo_spec() == Some(r) && is_listed(repos, row) {
            match row {
                Row::RepoHeader(_) => {
                    assert(all[0] == row);
                },
                Row::Message(_) => {
                    assert(all[1] == row);
                },
                Row::Commit(_) => {
                    assert(all[2] == row);
                },
                Row::StagedHeader(_) => {
                    assert(staged[0] == row);
                    assert(all[n] == row);
                },
                Row::Staged(_, i) => {
                    assert(staged[i as int + 1] == row);
                    assert(all[n + i + 1] == row);
                },
                Row::ChangesHeader(_) => {
                    assert(changes[0] == row);
                    assert(all[n + staged.len()] == row);
                },
                Row::Unstaged(_, i) => {
                    assert(changes[i as int + 1] == row);
                    assert(all[n + staged.len() + i + 1] == row);
                },
                _ => {},
            }
        }
    } else {
        assert(all == seq![Row::RepoHeader(r)]);
        if row.repo_spec() == Some(r) && is_listed(repos, row) {
            assert(all[0] == row);
        }
    }
}

/// Whether a row of a repository is to be listed: its header where there is more
/// than one repository; its box and button where that is not folded; the header
/// of the staged changes where there are any, that of the changes always; and
/// each change where its list is not folded.
pub open spec fn is_listed(repos: Seq<Repo>, row: Row) -> bool {
    match row {
        Row::RepoHeader(r) => repos.len() > 1,
        Row::Message(r) => repos.len() > 1 && is_open(repos, r as int),
        Row::Commit(r) => repos.len() > 1 && is_open(repos, r as int),
        Row::StagedHeader(r) => is_open(repos, r as int)
            && repos[r as int].status.staged@.len() > 0,
        Row::Staged(r, i) => is_open(repos, r as int) && !repos[r as int].staged_collapsed && i
            < repos[r as int].status.staged@.len(),
        Row::ChangesHeader(r) => is_open(repos, r as int),
        Row::Unstaged(r, i) => is_open(repos, r as int) && !repos[r as int].changes_collapsed && i
            < repos[r as int].status.unstaged@.len(),
        _ => false,
    }
}

proof fn lemma_repos_rows(repos: Seq<Repo>, n: int, row: Row)
    requires
        0 <= n <= repos.len() <= usize::MAX,
        forall|r: int|
            0 <= r < repos.len() ==> (#[trigger] repos[r]).status.staged@.len() <= usize::MAX
                && repos[r].status.unstaged@.len() <= usize::MAX,
    ensures
        repos_rows(repos, n).contains(row) <==> (row.repo_spec() matches Some(r) && r < n
            && is_listed(repos, row)),
    decreases n,
{
    if n > 0 {
        lemma_repos_rows(repos, n - 1, row);
        let before = repos_rows(repos, n - 1);
        let own = repo_rows((n - 1) as usize, repos[n - 1], repos.len() > 1);
        lemma_repo_rows(repos, (n - 1) as usize, row);
        let all = repos_rows(repos, n);
        assert(all == before + own);
        if all.contains(row) {
            let k = choose|k: int| 0 <= k < all.len() && all[k] == row;
            if k < before.len() {
                assert(before[k] == row);
            } else {
                assert(own[k - before.len()] == row);
            }
        }
        if before.contains(row) {
            let k = choose|k: int| 0 <= k < before.len() && before[k] == row;
            assert(all[k] == row);
        }
        if own.contains(row) {
            let k = choose|k: int| 0 <= k < own.len() && own[k] == row;
            assert(all[before.len() + k] == row);
        }
    }
}

proof fn lemma_drawer_rows(drawers: Seq<DrawerPanel>, n: int, row: Row)
    requires
        0 <= n <= DRAWERS,
        drawers.len() == DRAWERS,
        forall|k: int| 0 <= k < DRAWERS ==> (#[trigger] drawers[k]).lines@.len() <= usize::MAX,
    ensures
        drawer_rows(drawers, n).contains(row) <==> match row {
            Row::DrawerHeader(kind) => kind.index_spec() < n,
            Row::DrawerLine(kind, i) => kind.index_spec() < n
                && drawers[kind.index_spec()].expanded && i
                < drawers[kind.index_spec()].lines@.len(),
            _ => false,
        },
    decreases n,
{
    if n > 0 {
        lemma_drawer_rows(drawers, n - 1, row);
        let before = drawer_rows(drawers, n - 1);
        let kind = all_drawers()[n - 1];
        crate::scm_app::drawer::law_drawer_index_is_its_place(n - 1);
        let own = panel_rows(kind, drawers[n - 1]);
        let all = drawer_rows(drawers, n);
        assert(all == before + own);
        if all.contains(row) {
            let k = choose|k: int| 0 <= k < all.len() && all[k] == row;
            if k < before.len() {
                assert(before[k] == row);
            } else {
                assert(own[k - before.len()] == row);
            }
        }
        if before.contains(row) {
            let k = choose|k: int| 0 <= k < before.len() && before[k] == row;
            assert(all[k] == row);
        }
        match row {
            Row::DrawerHeader(other) => {
                lemma_index_names(other, kind);
                if other == kind {
                    assert(own[0] == row);
                    assert(all[before.len() as int] == row);
                }
            },
            Row::DrawerLine(other, i) => {
                lemma_index_names(other, kind);
                if other == kind && drawers[n - 1].expanded && i < drawers[n - 1].lines@.len() {
                    assert(own[i as int + 1] == row);
                    assert(all[before.len() + (i as int + 1)] == row);
                }
            },
            _ => {},
        }
    }
}

proof fn lemma_index_names(a: Drawer, b: Drawer)
    ensures
        a == b <==> a.index_spec() == b.index_spec(),
{
}

/// The list holds the row of every staged and every other change, as long as
/// neither its list nor its repository is folded, and no row of a change that is
/// not there; the headers and the drawers are listed in the same way.
pub proof fn law_every_change_has_its_row(
    repos: Seq<Repo>,
    drawers: Seq<DrawerPanel>,
    row: Row,
)
    requires
        drawers.len() == DRAWERS,
        repos.len() <= usize::MAX,
        forall|r: int|
            0 <= r < repos.len() ==> (#[trigger] repos[r]).status.staged@.len() <= usize::MAX
                && repos[r].status.unstaged@.len() <= usize::MAX,
        forall|k: int| 0 <= k < DRAWERS ==> (#[trigger] drawers[k]).lines@.len() <= usize::MAX,
    ensures
        row matches Row::Staged(r, i) ==> (rows_of(repos, drawers).contains(row) <==> r
            < repos.len() && (repos.len() == 1 || !repos[r as int].collapsed)
            && !repos[r as int].staged_collapsed && i < repos[r as int].status.staged@.len()),
        row matches Row::Unstaged(r, i) ==> (rows_of(repos, drawers).contains(row) <==> r
            < repos.len() && (repos.len() == 1 || !repos[r as int].collapsed)
            && !repos[r as int].changes_collapsed && i < repos[r as int].status.unstaged@.len()),
        row matches Row::StagedHeader(r) ==> (rows_of(repos, drawers).contains(row) <==> r
            < repos.len() && (repos.len() == 1 || !repos[r as int].collapsed)
            && repos[r as int].status.staged@.len() > 0),
        row matches Row::ChangesHeader(r) ==> (rows_of(repos, drawers).contains(row) <==> r
            < repos.len() && (repos.len() == 1 || !repos[r as int].collapsed)),
        row matches Row::RepoHeader(r) ==> (rows_of(repos, drawers).contains(row) <==> r
            < repos.len() && repos.len() > 1),
        row matches Row::DrawerHeader(kind) ==> rows_of(repos, drawers).contains(row),
        row matches Row::DrawerLine(kind, i) ==> (rows_of(repos, drawers).contains(row)
            <==> drawers[kind.index_spec()].expanded && i
            < drawers[kind.index_spec()].lines@.len()),
{
    let n = repos.len() as int;
    lemma_repos_rows(repos, n, row);
    lemma_drawer_rows(drawers, DRAWERS as int, row);
    let (above, below) = (repos_rows(repos, n), drawer_rows(drawers, DRAWERS as int));
    let all = rows_of(repos, drawers);
    assert(all == above + below);
    if all.contains(row) {
        let k = choose|k: int| 0 <= k < all.len() && all[k] == row;
        if k < above.len() {
            assert(above[k] == row);
        } else {
            assert(below[k - above.len()] == row);
        }
    }
    if above.contains(row) {
        let k = choose|k: int| 0 <= k < above.len() && above[k] == row;
        assert(all[k] == row);
    }
    if below.contains(row) {
        let k = choose|k: int| 0 <= k < below.len() && below[k] == row;
        assert(all[above.len() + k] == row);
    }
}

/// Of one repository the staged changes stand before the others, each list in
/// the order of git, under its header.
pub proof fn law_staged_changes_come_first(repo: Repo, r: usize, i: int, j: int)
    requires
        !repo.staged_collapsed,
        !repo.changes_collapsed,
        0 <= i < repo.status.staged@.len() <= usize::MAX,
        0 <= j < repo.status.unstaged@.len() <= usize::MAX,
    ensures
        ({
            let rows = repo_rows(r, repo, false);
            let n = repo.status.staged@.len() as int;
            &&& rows[0] == Row::StagedHeader(r)
            &&& rows[i + 1] == Row::Staged(r, i as usize)
            &&& rows[n + 1] == Row::ChangesHeader(r)
            &&& rows[n + 2 + j] == Row::Unstaged(r, j as usize)
        }),
{
}

// ---- Where the keys go ----

proof fn lemma_next_stop(rows: Seq<Row>, from: int)
    requires
        0 <= from <= rows.len(),
    ensures
        from <= next_stop(rows, from) <= rows.len(),
        next_stop(rows, from) < rows.len() ==> rows[next_stop(rows, from)].is_stop(),
        forall|k: int| from <= k < next_stop(rows, from) ==> !(#[trigger] rows[k]).is_stop(),
    decreases rows.len() - from,
{
    if from < rows.len() && !rows[from].is_stop() {
        lemma_next_stop(rows, from + 1);
    }
}

proof fn lemma_prev_stop(rows: Seq<Row>, from: int)
    requires
        -1 <= from < rows.len(),
    ensures
        -1 <= prev_stop(rows, from) <= from,
        prev_stop(rows, from) >= 0 ==> rows[prev_stop(rows, from)].is_stop(),
        forall|k: int| prev_stop(rows, from) < k <= from ==> !(#[trigger] rows[k]).is_stop(),
    decreases from + 1,
{
    if from >= 0 && !rows[from].is_stop() {
        lemma_prev_stop(rows, from - 1);
    }
}

/// A step down goes to the next row that is no message box and no button, and a
/// step up to the one before, wherever there is one.
pub proof fn law_steps_go_to_the_next_row(rows: Seq<Row>, sel: usize)
    requires
        sel < rows.len(),
    ensures
        (exists|k: int|
            sel < k < rows.len() && !(#[trigger] rows[k] is Message) && !(rows[k] is Commit)) ==> {
            let to = moved(rows, Some(sel), 1);
            &&& sel < to < rows.len()
            &&& !(rows[to] is Message) && !(rows[to] is Commit)
            &&& forall|k: int|
                sel < k < to ==> (#[trigger] rows[k]) is Message || rows[k] is Commit
        },
        (exists|k: int|
            0 <= k < sel && !(#[trigger] rows[k] is Message) && !(rows[k] is Commit)) ==> {
            let to = moved(rows, Some(sel), -1);
            &&& 0 <= to < sel
            &&& !(rows[to] is Message) && !(rows[to] is Commit)
            &&& forall|k: int|
                to < k < sel ==> (#[trigger] rows[k]) is Message || rows[k] is Commit
        },
{
    if exists|k: int|
        sel < k < rows.len() && !(#[trigger] rows[k] is Message) && !(rows[k] is Commit) {
        let k = choose|k: int|
            sel < k < rows.len() && !(#[trigger] rows[k] is Message) && !(rows[k] is Commit);
        lemma_next_stop(rows, sel + 1);
        assert(rows[k].is_stop());
        let to = next_stop(rows, sel + 1);
        assert forall|j: int| sel < j < to implies (#[trigger] rows[j]) is Message
            || rows[j] is Commit by {
            assert(!rows[j].is_stop());
        }
    }
    if exists|k: int| 0 <= k < sel && !(#[trigger] rows[k] is Message) && !(rows[k] is Commit) {
        let k = choose|k: int|
            0 <= k < sel && !(#[trigger] rows[k] is Message) && !(rows[k] is Commit);
        lemma_prev_stop(rows, sel - 1);
        assert(rows[k].is_stop());
        let to = prev_stop(rows, sel - 1);
        assert forall|j: int| to < j < sel implies (#[trigger] rows[j]) is Message
            || rows[j] is Commit by {
            assert(!rows[j].is_stop());
        }
    }
}

// ---- Where the mouse is ----

proof fn lemma_hit(
    rows: Seq<Row>,
    repos: Seq<Repo>,
    width: u16,
    from: int,
    k: int,
    y: int,
    target: int,
)
    requires
        0 <= from,
        0 <= k,
        from + k <= rows.len() <= usize::MAX,
        y <= target <= u16::MAX,
    ensures
        hit_from(with_heights(rows, repos, width, from), k, y, target) matches Some(hit) ==> from
            + k <= hit.0 < rows.len() && y + lines_between(
            rows,
            repos,
            width,
            from + k,
            hit.0 as int,
        ) + hit.1 == target && hit.1 < height_of(repos, width, rows[hit.0 as int]),
    decreases rows.len() - (from + k),
{
    let list = with_heights(rows, repos, width, from);
    if k < list.len() {
        lemma_height_is_small(repos, width, rows[from + k]);
        assert(list[k] == (
            (from + k) as usize,
            height_of(repos, width, rows[from + k]) as u16,
        ));
        if target >= y + list[k].1 {
            lemma_hit(rows, repos, width, from, k + 1, y + list[k].1, target);
        }
    }
}

proof fn lemma_height_is_small(repos: Seq<Repo>, width: u16, row: Row)
    ensures
        height_of(repos, width, row) <= 6,
{
}

/// A click hits the row whose lines it lies among: as many lines as the rows
/// above it have, and as its own lines above the click, lie between the top of
/// the list and the click. A file takes one line, a button three.
pub proof fn law_clicks_hit_the_row_they_lie_on(
    rows: Seq<Row>,
    repos: Seq<Repo>,
    width: u16,
    body: BodyGeom,
    line: u16,
    hit: (usize, u16),
)
    requires
        rows.len() <= usize::MAX,
        body.offset <= rows.len(),
        row_hit_spec(body, line, with_heights(rows, repos, width, body.offset as int)) == Some(hit),
    ensures
        body.offset <= hit.0 < rows.len(),
        lines_between(rows, repos, width, body.offset as int, hit.0 as int) + hit.1 == line
            - body.top,
        hit.1 < height_of(repos, width, rows[hit.0 as int]),
        rows[hit.0 as int] is Staged || rows[hit.0 as int] is Unstaged ==> hit.1 == 0,
        rows[hit.0 as int] is Commit ==> hit.1 < 3,
{
    lemma_hit(rows, repos, width, body.offset as int, 0, body.top as int, line as int);
}

// ---- What the selection brings along ----

/// Selecting a row of another repository makes that the active one; selecting a
/// file shows its history, and the row of no repository changes neither.
pub proof fn law_the_selection_brings_its_repository(
    repos: Seq<Repo>,
    row: Row,
    active: usize,
    history: Option<Seq<char>>,
    open: bool,
)
    requires
        row.repo_spec() matches Some(r) ==> r < repos.len(),
    ensures
        ({
            let f = followed(repos, Some(row), active, history, open);
            &&& row.repo_spec() matches Some(r) ==> f.active == r
            &&& row.repo_spec() is None ==> f.active == active && f.history == history && !f.reload
            &&& row matches Row::Staged(r, i) ==> f.history == Some(
                repos[r as int].status.staged@[i as int].path@,
            )
            &&& row matches Row::Unstaged(r, i) ==> f.history == Some(
                repos[r as int].status.unstaged@[i as int].path@,
            )
            &&& row.repo_spec() is Some && !(row is Staged) && !(row is Unstaged) ==> f.history
                == (if row.repo_spec() == Some(active) {
                history
            } else {
                None
            })
            &&& row.repo_spec() is Some && row.repo_spec() != Some(active) ==> f.reload
        }),
        followed(repos, None, active, history, open).active == active,
        !followed(repos, None, active, history, open).reload,
{
}

/// A repository that git reports on shows what is reported; one that git fails
/// on keeps what it showed. Its message stays either way.
pub proof fn law_reports_replace_the_status_alone(repo: Repo, report: Result<Status, String>)
    ensures
        report matches Ok(status) ==> with_status(repo, report).status == status,
        report is Err ==> with_status(repo, report) == repo,
        with_status(repo, report).message == repo.message,
        with_status(repo, report).cursor == repo.cursor,
        with_status(repo, report).collapsed == repo.collapsed,
        with_status(repo, report).git == repo.git,
{
}

proof fn lemma_expanded(panel: Panel, n: int, kind: Drawer)
    requires
        0 <= n <= DRAWERS,
    ensures
        panel.expanded_among(n).contains(kind) <==> kind.index_spec() < n
            && panel.drawers@[kind.index_spec()].expanded,
    decreases n,
{
    if n > 0 {
        lemma_expanded(panel, n - 1, kind);
        let before = panel.expanded_among(n - 1);
        let other = all_drawers()[n - 1];
        crate::scm_app::drawer::law_drawer_index_is_its_place(n - 1);
        lemma_index_names(kind, other);
        let all = panel.expanded_among(n);
        if panel.drawers@[n - 1].expanded {
            assert(all == before.push(other));
            if before.contains(kind) {
                let k = choose|k: int| 0 <= k < before.len() && before[k] == kind;
                assert(all[k] == kind);
            }
            if kind == other {
                assert(all[before.len() as int] == kind);
            }
            if all.contains(kind) {
                let k = choose|k: int| 0 <= k < all.len() && all[k] == kind;
                if k < before.len() {
                    assert(before[k] == kind);
                }
            }
        }
    }
}

/// The drawers that are read anew are those that are open.
pub proof fn law_open_drawers_are_read_anew(panel: Panel, kind: Drawer)
    ensures
        panel.active < panel.repos@.len() ==> (panel.stale_drawers().contains(kind)
            <==> panel.drawers@[kind.index_spec()].expanded),
        panel.active >= panel.repos@.len() ==> panel.stale_drawers().len() == 0,
{
    lemma_expanded(panel, DRAWERS as int, kind);
}

// ---- Drawer lines ----

/// The first word of a line that could be a commit, of seven or more hexadecimal
/// digits, is the commit that the line of a log stands for.
pub proof fn law_log_lines_stand_for_their_commit(list: Seq<Seq<char>>, from: int, k: int)
    requires
        0 <= from <= k < list.len(),
        is_hash(list[k]),
        forall|j: int| from <= j < k ==> !is_hash(#[trigger] list[j]),
    ensures
        first_hash(list, from) == RefView::Commit(list[k]),
        list[k].len() >= 7,
        forall|i: int|
            0 <= i < list[k].len() ==> '0' <= #[trigger] list[k][i] <= '9' || 'a' <= list[k][i]
                <= 'f',
    decreases k - from,
{
    if from < k {
        law_log_lines_stand_for_their_commit(list, from + 1, k);
    } else {
        assert forall|i: int| 0 <= i < list[k].len() implies '0' <= #[trigger] list[k][i] <= '9'
            || 'a' <= list[k][i] <= 'f' by {
            assert(crate::scm_app::drawer::is_hash_char(list[k][i]));
        }
    }
}

/// A remote's line stands for the remote of its first word, at the address of
/// its second. What has no commit of its own cannot be shown.
pub proof fn law_remote_lines_stand_for_their_remote(line: Seq<char>)
    requires
        words(line).len() >= 2,
    ensures
        drawer_ref(Drawer::Remotes, line) == (RefView::Remote {
            name: words(line)[0],
            url: words(line)[1],
        }),
        show_target(drawer_ref(Drawer::Remotes, line)) is None,
{
}

/// What can be shown of a line: a commit, a branch, a tag by their names, a stash
/// by its place; not a remote, not a worktree, not a line that stands for
/// nothing.
pub proof fn law_what_can_be_shown(name: Seq<char>, current: bool, n: nat, url: Seq<char>)
    ensures
        show_target(RefView::Commit(name)) == Some(name),
        show_target(RefView::Branch { name, current }) == Some(name),
        show_target(RefView::Tag(name)) == Some(name),
        show_target(RefView::Stash(n)) == Some("stash@{"@ + decimal(n) + "}"@),
        show_target(RefView::Remote { name, url }) is None,
        show_target(RefView::Worktree(name)) is None,
        show_target(RefView::Nothing) is None,
{
}

/// A drawer shows the lines that were fetched, says so where there are none, and
/// shows the complaint where they could not be fetched.
pub proof fn law_drawers_show_what_was_fetched(lines: Seq<Seq<char>>, complaint: Seq<char>)
    ensures
        lines.len() > 0 ==> fetched_lines(Ok(lines)) == lines,
        lines.len() == 0 ==> fetched_lines(Ok(lines)) == seq!["(none)"@],
        fetched_lines(Err(complaint)) == seq!["("@ + complaint + ")"@],
{
}

// ---- What the counts say ----

/// The counts of the button name the commits ahead with an arrow up and those
/// behind with an arrow down, and leave out what is zero. The header names both
/// where there is either.
pub proof fn law_counts_point_the_right_way(status: Status)
    ensures
        status.ahead > 0 && status.behind > 0 ==> sync_counts(
            status.ahead as nat,
            status.behind as nat,
        ) == decimal(status.ahead as nat) + "↑"@ + " "@ + decimal(status.behind as nat) + "↓"@,
        status.ahead > 0 && status.behind == 0 ==> sync_counts(
            status.ahead as nat,
            status.behind as nat,
        ) == decimal(status.ahead as nat) + "↑"@,
        status.ahead == 0 && status.behind > 0 ==> sync_counts(
            status.ahead as nat,
            status.behind as nat,
        ) == decimal(status.behind as nat) + "↓"@,
        status.ahead > 0 || status.behind > 0 ==> header_counts(status) == " "@ + decimal(
            status.ahead as nat,
        ) + "↑ "@ + decimal(status.behind as nat) + "↓"@,
        status.ahead == 0 && status.behind == 0 ==> header_counts(status).len() == 0,
        sync_label_spec(status, true) is Some,
        sync_label_spec(status, false) is Some <==> status.has_upstream && (status.ahead > 0
            || status.behind > 0),
{
}

/// A branch with changes, staged or not, is marked with a star.
pub proof fn law_changed_branches_are_starred(repo: Repo)
    ensures
        repo.status.staged@.len() > 0 || repo.status.unstaged@.len() > 0
            ==> repo.branch_decor_spec() == repo.status.branch@ + "*"@,
        repo.status.staged@.len() == 0 && repo.status.unstaged@.len() == 0
            ==> repo.branch_decor_spec() == repo.status.branch@,
{
}

} // verus!
