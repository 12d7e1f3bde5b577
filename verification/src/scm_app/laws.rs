//! What the Source Control panel promises of its keys and clicks: which change
//! is asked of git for which row, and what is left alone.

use crate::geometry::Area;
use crate::git::FileEntry;
use crate::input::{Key, KeyCode, Mouse, MouseKind};
use crate::scm_app::app::{flash_is, App, Effect, Focus, MenuTarget, Overlay};
use crate::scm_app::clicks::RowClick;
use crate::scm_app::drawer::{Drawer, DrawerPanel, RefView, DRAWERS};
use crate::scm_app::header::ChangesHeaderAction;
use crate::scm_app::menu::{drawer_command, file_menu, DrawerCommandView, EntryView, MenuAction};
use crate::scm_app::message::edited;
use crate::scm_app::outcomes::{complaints, Attempt};
use crate::scm_app::panel::{toggled_drawers, toggled_repos};
use crate::scm_app::rows::{moved, Repo, Row};
use crate::settings::SettingRow;
use crate::text::{joined, string_views, trim};
use crate::view::{Exit, ViewKind};
use vstd::prelude::*;

verus! {

// ---- What is asked of git ----

/// Whether one of the effects moves a change into or out of the index.
pub open spec fn stages(effect: Effect) -> bool {
    effect is Stage || effect is StageAll
}

pub open spec fn unstages(effect: Effect) -> bool {
    effect is Unstage || effect is UnstageAll
}

/// Whether an effect throws changes away.
pub open spec fn discards(effect: Effect) -> bool {
    effect is Discard || effect is DiscardAll
}

/// Whether an effect makes git do anything that another one could not undo.
pub open spec fn is_harmless(effect: Effect) -> bool {
    !discards(effect) && effect !is Commit && effect !is Sync && effect !is RunGit
}

/// Activating a row of the list of changes asks for that file to be staged, and
/// for nothing to be unstaged; activating a row of the list of staged changes
/// asks for that file to be unstaged, and for nothing to be staged. Nothing is
/// discarded, committed or synchronised.
pub proof fn law_activating_moves_the_file_across(app: App, post: App, out: Seq<Effect>)
    requires
        app.activate_rel(&post, out),
    ensures
        app.panel.selected_row() matches Some(Row::Unstaged(r, i)) ==> {
                &&& out[0] == (Effect::Stage {
                    repo: r,
                    entry: app.panel.repos@[r as int].status.unstaged@[i as int],
                })
                &&& forall|k: int| 0 < k < out.len() ==> !stages(#[trigger] out[k])
                &&& forall|k: int| 0 <= k < out.len() ==> !unstages(#[trigger] out[k])
                &&& post.panel == app.panel
            },
        app.panel.selected_row() matches Some(Row::Staged(r, i)) ==> {
                &&& out[0] == (Effect::Unstage {
                    repo: r,
                    entry: app.panel.repos@[r as int].status.staged@[i as int],
                })
                &&& forall|k: int| 0 < k < out.len() ==> !unstages(#[trigger] out[k])
                &&& forall|k: int| 0 <= k < out.len() ==> !stages(#[trigger] out[k])
                &&& post.panel == app.panel
            },
        forall|k: int| 0 <= k < out.len() ==> is_harmless(#[trigger] out[k]),
        !(app.panel.selected_row() matches Some(row) && (row is Staged || row is Unstaged)) ==> (
        forall|k: int|
            0 <= k < out.len() ==> !stages(#[trigger] out[k]) && !unstages(out[k])),
{
    if let Some(row) = app.panel.selected_row() {
        if row is DrawerLine {
            assert forall|k: int| 0 <= k < out.len() implies is_harmless(#[trigger] out[k])
                && !stages(out[k]) && !unstages(out[k]) by {
                if k < out.len() - 1 {
                    assert(out[k] == out.drop_last()[k]);
                } else {
                    assert(out[k] == out.last());
                }
            }
        }
    }
}

/// With the list in focus and nothing open over it, `Enter` and the space bar
/// stage the selected change, or unstage it where it is staged; `a` stages and
/// `u` unstages everything in the active repository, and no other one.
pub proof fn law_list_keys_stage_what_is_selected(
    app: App,
    rows: Seq<SettingRow>,
    key: Key,
    post: App,
    out: Seq<Effect>,
    exit: Option<Exit>,
)
    requires
        key.press,
        !key.control,
        app.overlay is None,
        app.focus == Focus::List,
        app.key_rel(rows, key, &post, out, exit),
    ensures
        app.panel.selected_row() matches Some(Row::Unstaged(r, i)) ==> ((key.code == KeyCode::Enter
            || key.code == KeyCode::Char(' ')) ==> out[0] == (Effect::Stage {
                repo: r,
                entry: app.panel.repos@[r as int].status.unstaged@[i as int],
            }) && exit is None),
        app.panel.selected_row() matches Some(Row::Staged(r, i)) ==> ((key.code == KeyCode::Enter
            || key.code == KeyCode::Char(' ')) ==> out[0] == (Effect::Unstage {
                repo: r,
                entry: app.panel.repos@[r as int].status.staged@[i as int],
            }) && exit is None),
        key.code == KeyCode::Char('a') && app.panel.active < app.panel.repos@.len() ==> out
            == seq![Effect::StageAll(app.panel.active), Effect::Refresh],
        key.code == KeyCode::Char('u') && app.panel.active < app.panel.repos@.len() ==> out
            == seq![Effect::UnstageAll(app.panel.active), Effect::Refresh],
        key.code == KeyCode::Char('S') && app.panel.active < app.panel.repos@.len()
            && app.syncing is None && app.panel.repos@[app.panel.active as int].status.has_upstream
            ==> out == seq![Effect::Sync(app.panel.active)] && post.syncing == Some(
            app.panel.active,
        ),
        key.code == KeyCode::Char('A') && app.panel.active < app.panel.repos@.len()
            && !app.suggesting ==> out == seq![Effect::Suggest(app.panel.active)],
        key.code == KeyCode::Char('r') ==> out == seq![Effect::Refresh],
        key.code == KeyCode::Char('i') ==> out == seq![Effect::ToggleIcons],
        key.code == KeyCode::Char('b') ==> out == seq![Effect::Close { snooze: true }],
        key.code == KeyCode::Char('q') <==> exit == Some(Exit::Quit),
        key.code == KeyCode::Esc ==> out == seq![Effect::ClosePreview],
        key.code == KeyCode::Char('c') || key.code == KeyCode::Tab ==> post.focus == Focus::Message
            && out.len() == 0,
        key.code == KeyCode::BackTab ==> post.focus == Focus::Commit && out.len() == 0,
        key.code == KeyCode::Char('s') ==> post.overlay == Some(
            Overlay::Settings { selected: 0, rect: Area::empty_spec(), scroll: 0 },
        ) && out.len() == 0,
        key.code == KeyCode::Char('1') && app.merged ==> out == seq![
            Effect::ShareView { view: ViewKind::Explorer, search: false },
        ] && exit == Some(Exit::Switch),
        key.code == KeyCode::Char('2') && app.merged ==> out == seq![
            Effect::ShareView { view: ViewKind::Explorer, search: true },
        ] && exit == Some(Exit::Search { focus_query: false }),
{
}

/// The keys that move the selection: one row with the arrows or `j` and `k`, a
/// page with the page keys, to the ends with `Home`, `End`, `g` and `G`.
pub proof fn law_list_keys_move_the_selection(
    app: App,
    rows: Seq<SettingRow>,
    key: Key,
    post: App,
    out: Seq<Effect>,
    exit: Option<Exit>,
)
    requires
        key.press,
        !key.control,
        app.wf(),
        app.overlay is None,
        app.focus == Focus::List,
        app.key_rel(rows, key, &post, out, exit),
    ensures
        key.code == KeyCode::Home || key.code == KeyCode::Char('g') ==> post.panel.selected
            == Some(0usize),
        key.code == KeyCode::End || key.code == KeyCode::Char('G') ==> (
        post.panel.selected matches Some(j) && j == app.panel.rows@.len() - 1),
        key.code == KeyCode::Up || key.code == KeyCode::Char('k') ==> (
        post.panel.selected matches Some(j) && j == moved(
            app.panel.rows@,
            app.panel.selected,
            -1,
        )),
        key.code == KeyCode::Down || key.code == KeyCode::Char('j') ==> (
        post.panel.selected matches Some(j) && j == moved(
            app.panel.rows@,
            app.panel.selected,
            1,
        )),
        key.code == KeyCode::PageUp ==> (post.panel.selected matches Some(j) && j == moved(
            app.panel.rows@,
            app.panel.selected,
            -(app.page as int),
        )),
        key.code == KeyCode::PageDown ==> (post.panel.selected matches Some(j) && j == moved(
            app.panel.rows@,
            app.panel.selected,
            app.page as int,
        )),
        key.code == KeyCode::Home || key.code == KeyCode::End || key.code == KeyCode::Up
            || key.code == KeyCode::Down || key.code == KeyCode::PageUp || key.code
            == KeyCode::PageDown ==> post.panel.repos == app.panel.repos && post.panel.drawers
            == app.panel.drawers && post.panel.rows == app.panel.rows && post.panel.snap
            && exit is None,
{
    assert(app.panel.rows.len() == app.panel.rows@.len());
}

// ---- The main button ----

/// The main button of a repository with staged changes and a message that is not
/// blank commits that repository with the trimmed message, once, and does
/// nothing else. Where the repository is clean, has an upstream branch and is
/// ahead of or behind it, and nothing is being synchronised, it synchronises that
/// repository, once, and commits nothing.
pub proof fn law_the_main_button_commits_or_syncs(app: App, post: App, out: Seq<Effect>)
    requires
        app.panel.active < app.panel.repos@.len(),
        app.primary_rel(&post, out),
    ensures
        ({
            let repo = app.panel.repos@[app.panel.active as int];
            &&& repo.status.staged@.len() > 0 && trim(repo.message@).len() > 0 ==> {
                &&& out.len() == 1
                &&& out[0] matches Effect::Commit { repo: r, message } && r == app.panel.active
                    && message@ == trim(repo.message@)
                &&& post == app
            }
            &&& repo.status.staged@.len() == 0 && repo.status.unstaged@.len() == 0
                && repo.status.has_upstream && (repo.status.ahead > 0 || repo.status.behind > 0)
                && app.syncing is None ==> {
                &&& out == seq![Effect::Sync(app.panel.active)]
                &&& post == (App { syncing: Some(app.panel.active), ..app })
            }
            &&& repo.status.staged@.len() > 0 || repo.status.unstaged@.len() > 0
                || !repo.status.has_upstream || (repo.status.ahead == 0 && repo.status.behind
                == 0) ==> forall|k: int| 0 <= k < out.len() ==> (#[trigger] out[k]) is Commit
            &&& repo.status.staged@.len() == 0 ==> forall|k: int|
                0 <= k < out.len() ==> (#[trigger] out[k]) is Sync
        }),
{
}

/// `Enter` and the space bar on the main button do what the button does; `Enter`
/// in the message box commits the active repository.
pub proof fn law_enter_commits(
    app: App,
    rows: Seq<SettingRow>,
    key: Key,
    post: App,
    out: Seq<Effect>,
    exit: Option<Exit>,
)
    requires
        key.press,
        !key.control,
        app.overlay is None,
        app.focus != Focus::List,
        app.panel.active < app.panel.repos@.len(),
        key.code == KeyCode::Enter || (key.code == KeyCode::Char(' ') && app.focus
            == Focus::Commit),
        app.key_rel(rows, key, &post, out, exit),
    ensures
        exit is None,
        ({
            let repo = app.panel.repos@[app.panel.active as int];
            &&& repo.status.staged@.len() > 0 && trim(repo.message@).len() > 0 ==> out.len() == 1
                && (out[0] matches Effect::Commit { repo: r, message } && r == app.panel.active
                && message@ == trim(repo.message@))
            &&& app.focus == Focus::Commit && repo.status.staged@.len() == 0
                && repo.status.unstaged@.len() == 0 && repo.status.has_upstream && (
            repo.status.ahead > 0 || repo.status.behind > 0) && app.syncing is None ==> out
                == seq![Effect::Sync(app.panel.active)]
            &&& app.focus == Focus::Message && trim(repo.message@).len() == 0 ==> out.len() == 0
                && flash_is(post.flash, "Commit message is empty."@, true)
        }),
{
    let calm = App { flash: None, ..app };
    assert(calm.panel == app.panel);
}

/// A commit is asked for exactly where there is something staged and a message
/// that is not blank. Where there is none, the reader is told what is missing,
/// and a blank message brings them to its box.
pub proof fn law_commits_need_a_message_and_a_change(
    app: App,
    index: usize,
    post: App,
    out: Seq<Effect>,
)
    requires
        index < app.panel.repos@.len(),
        app.commit_rel(index, &post, out),
    ensures
        ({
            let repo = app.panel.repos@[index as int];
            &&& out.len() == 1 <==> trim(repo.message@).len() > 0 && repo.status.staged@.len() > 0
            &&& out.len() <= 1
            &&& out.len() == 1 ==> (out[0] matches Effect::Commit { repo: r, message } && r
                == index && message@ == trim(repo.message@))
            &&& out.len() == 0 ==> (post.flash matches Some(f) && f.1)
            &&& trim(repo.message@).len() == 0 ==> post.focus == Focus::Message
                && post.panel.active == index
            &&& trim(repo.message@).len() > 0 ==> post.focus == app.focus && post.panel.active
                == app.panel.active
            &&& post.panel.repos == app.panel.repos
        }),
{
}

/// A repository is synchronised exactly where it has an upstream branch and no
/// other one is being synchronised; the wish is remembered until it is done.
pub proof fn law_syncs_run_one_at_a_time(app: App, index: usize, post: App, out: Seq<Effect>)
    requires
        index < app.panel.repos@.len(),
        app.sync_rel(index, &post, out),
    ensures
        app.syncing is None && app.panel.repos@[index as int].status.has_upstream ==> out
            == seq![Effect::Sync(index)] && post.syncing == Some(index),
        app.syncing is Some ==> out.len() == 0 && post.syncing == app.syncing,
        !app.panel.repos@[index as int].status.has_upstream ==> out.len() == 0 && post.syncing
            == app.syncing,
        post.panel == app.panel,
{
}

/// A commit that went through empties the message of its own repository and no
/// other one; one that failed keeps every message. Either way the list is read
/// anew.
pub proof fn law_failed_commits_keep_the_message(
    app: App,
    index: usize,
    outcome: Result<String, String>,
    post: App,
    out: Seq<Effect>,
    k: int,
)
    requires
        index < app.panel.repos@.len(),
        0 <= k < app.panel.repos@.len(),
        app.committed_rel(index, outcome, &post, out),
    ensures
        outcome is Ok && k == index ==> post.panel.repos@[k].message@.len() == 0,
        outcome is Ok && k != index ==> post.panel.repos@[k].message@
            == app.panel.repos@[k].message@,
        outcome is Err ==> post.panel.repos@[k].message@ == app.panel.repos@[k].message@
            && post.focus == app.focus,
        outcome matches Ok(summary) ==> (post.flash matches Some(f) && f.0@ == summary@ && !f.1)
            && post.focus == Focus::List,
        outcome matches Err(error) ==> (post.flash matches Some(f) && f.0@ == error@ && f.1),
        out.contains(Effect::Refresh),
{
    assert(out[0] == Effect::Refresh);
}

/// A generated message becomes the message of the active repository, ready to be
/// edited at its end, and of no other one; where none was generated every message
/// stays.
pub proof fn law_suggestions_go_into_the_active_message(
    app: App,
    message: Option<String>,
    post: App,
    k: int,
)
    requires
        0 <= k < app.panel.repos@.len(),
        app.suggested_rel(message, &post),
    ensures
        !post.suggesting,
        message matches Some(text) ==> {
            &&& post.focus == Focus::Message
            &&& k == app.panel.active ==> post.panel.repos@[k].message@ == text@
                && post.panel.repos@[k].cursor == text@.len()
            &&& k != app.panel.active ==> post.panel.repos@[k] == app.panel.repos@[k]
        },
        message is Some ==> flash_is(
            post.flash,
            "✧ suggestion ready — edit or ⏎ to commit"@,
            false,
        ),
        message is None ==> post.panel == app.panel && post.focus == app.focus && flash_is(
            post.flash,
            "✧ generation failed"@,
            true,
        ),
{
}

/// However a synchronisation ends, another one can be started; only a failure is
/// told.
pub proof fn law_a_sync_ends(app: App, outcome: Result<(), Option<String>>, post: App)
    requires
        app.sync_ended_rel(outcome, &post),
    ensures
        post.syncing is None,
        post.panel == app.panel,
        outcome is Ok ==> post.flash == app.flash,
        outcome is Err ==> (post.flash matches Some(f) && f.1),
        outcome matches Err(Some(error)) ==> (post.flash matches Some(f) && f.0@ == error@),
        outcome matches Err(None) ==> flash_is(post.flash, "sync failed"@, true),
{
}

/// A message is generated where there is something to describe, and not twice at
/// the same time.
pub proof fn law_messages_describe_changes(
    app: App,
    outcome: Result<(String, Vec<String>), String>,
    post: App,
    goes_on: bool,
)
    requires
        app.described_rel(outcome, &post, goes_on),
    ensures
        goes_on <==> (outcome matches Ok(found) && (trim(found.0@).len() > 0 || found.1@.len()
            > 0)),
        goes_on ==> post.suggesting,
        !goes_on ==> post.suggesting == app.suggesting && (post.flash matches Some(f) && f.1),
        post.panel == app.panel,
{
}

// ---- Clicks on a row ----

/// The actions at the right end of a file's row under the mouse: of a change,
/// the last one stages it, the one before asks whether to discard it, and the
/// first one opens it; of a staged change, the last one unstages it.
pub proof fn law_hover_actions_act_on_their_file(
    app: App,
    index: usize,
    line: u16,
    x: u16,
    double: bool,
    icon: Seq<char>,
)
    requires
        index < app.panel.rows@.len(),
        app.hovered == Some(index),
    ensures
        app.panel.rows@[index as int] matches Row::Unstaged(r, i) ==> (app.panel.width >= 19 ==> {
                let click = app.row_click_spec(index, line, x, double, icon);
                &&& app.panel.width - 5 <= x < app.panel.width - 2 ==> click == (RowClick::Stage {
                    repo: r,
                    index: i,
                })
                &&& app.panel.width - 8 <= x < app.panel.width - 5 ==> click == (
                RowClick::Discard { repo: r, index: i })
                &&& x < app.panel.width - 8 || x >= app.panel.width - 2 ==> (
                click matches RowClick::OpenDiff { repo, index: k, staged, pin } && repo == r && k
                    == i && !staged)
            }),
        app.panel.rows@[index as int] matches Row::Staged(r, i) ==> (app.panel.width >= 16 ==> {
                let click = app.row_click_spec(index, line, x, double, icon);
                &&& app.panel.width - 5 <= x < app.panel.width - 2 ==> click == (
                RowClick::Unstage { repo: r, index: i })
                &&& x < app.panel.width - 5 || x >= app.panel.width - 2 ==> (
                click matches RowClick::OpenDiff { repo, index: k, staged, pin } && repo == r && k
                    == i && staged)
            }),
{
    let width = app.panel.width;
    if app.panel.rows@[index as int] is Unstaged && width >= 19 {
        let start = (width - 11) as u16;
        assert(crate::scm_app::header::hover_start(width, false) == Some(start));
        if x >= start {
            assert((x - start) / 3 == (if x < start + 3 {
                0int
            } else if x < start + 6 {
                1
            } else if x < start + 9 {
                2
            } else {
                (x - start) / 3
            }));
        }
    }
    if app.panel.rows@[index as int] is Staged && width >= 16 {
        let start = (width - 8) as u16;
        assert(crate::scm_app::header::hover_start(width, true) == Some(start));
        if x >= start {
            assert((x - start) / 3 == (if x < start + 3 {
                0int
            } else if x < start + 6 {
                1
            } else {
                (x - start) / 3
            }));
        }
    }
}

/// A click on a row asks git for what the clicked part stands for, of the file
/// or the repository that the row shows: it stages a change and unstages a
/// staged one, and discards nothing before it has asked.
pub proof fn law_row_clicks_do_what_they_show(
    app: App,
    click: RowClick,
    post: App,
    out: Seq<Effect>,
)
    requires
        app.chosen_rel(click, &post, out),
    ensures
        forall|k: int| 0 <= k < out.len() ==> !discards(#[trigger] out[k]),
        click matches RowClick::Stage { repo, index } ==> out == seq![
            Effect::Stage {
                repo,
                entry: app.panel.repos@[repo as int].status.unstaged@[index as int],
            },
            Effect::Refresh,
        ],
        click matches RowClick::Unstage { repo, index } ==> out == seq![
            Effect::Unstage {
                repo,
                entry: app.panel.repos@[repo as int].status.staged@[index as int],
            },
            Effect::Refresh,
        ],
        click matches RowClick::Discard { repo, index } ==> out.len() == 0 && post.overlay == Some(
            Overlay::ConfirmDiscard {
                repo,
                entry: app.panel.repos@[repo as int].status.unstaged@[index as int],
            },
        ),
        click matches RowClick::UnstageAll(r) ==> out == seq![
            Effect::UnstageAll(r),
            Effect::Refresh,
        ],
        click matches RowClick::Header(r, ChangesHeaderAction::Stage) ==> out == seq![
            Effect::StageAll(r),
            Effect::Refresh,
        ],
        click matches RowClick::Header(r, ChangesHeaderAction::Discard) ==> out.len() == 0
            && post.overlay == Some(Overlay::ConfirmDiscardAll { repo: r }),
        click matches RowClick::Header(r, ChangesHeaderAction::Stash) ==> out.len() == 1 && (
        out[0] matches Effect::RunGit { repo, args } && repo == r && string_views(args@)
            == seq!["stash"@, "push"@, "--include-untracked"@]),
        click matches RowClick::HeaderBranch(r) ==> (r < app.panel.repos@.len() ==> out == seq![
            Effect::PickBranch(r),
        ] && post.panel.active == r),
        click matches RowClick::HeaderSync(r) ==> (forall|k: int|
            0 <= k < out.len() ==> #[trigger] out[k] == Effect::Sync(r)),
        click matches RowClick::HeaderCommit(r) ==> (forall|k: int|
            0 <= k < out.len() ==> (#[trigger] out[k] matches Effect::Commit { repo, message }
                && repo == r)),
        click matches RowClick::OpenDiff { repo, index, staged, pin } ==> (app.in_pane && repo
            < app.panel.repos@.len() ==> out == seq![
            Effect::OpenDiff {
                repo,
                entry: if staged {
                    app.panel.repos@[repo as int].status.staged@[index as int]
                } else {
                    app.panel.repos@[repo as int].status.unstaged@[index as int]
                },
                staged,
                pin,
            },
        ]),
{
    if click is Fold {
        law_activating_moves_the_file_across(app, post, out);
    }
}

/// A click on a repository's header row: its right half of the actions commits,
/// the left half synchronises, the branch opens the list of branches, and
/// everything else folds the repository.
pub proof fn law_header_clicks_name_their_repository(
    app: App,
    index: usize,
    line: u16,
    x: u16,
    double: bool,
    icon: Seq<char>,
    r: usize,
)
    requires
        index < app.panel.rows@.len(),
        app.panel.rows@[index as int] == Row::RepoHeader(r),
    ensures
        ({
            let click = app.row_click_spec(index, line, x, double, icon);
            ||| click == RowClick::HeaderCommit(r)
            ||| click == RowClick::HeaderSync(r)
            ||| click == RowClick::HeaderBranch(r)
            ||| click == RowClick::Fold
        }),
        app.row_click_spec(index, line, x, double, icon) == RowClick::HeaderCommit(r) ==> x
            < app.panel.width,
{
}

/// A click on the button of a repository's own row synchronises the repository
/// where it is clean and differs from its upstream branch, and commits it
/// otherwise; beside the button nothing happens.
pub proof fn law_repository_buttons_commit_or_sync(
    app: App,
    index: usize,
    line: u16,
    x: u16,
    double: bool,
    icon: Seq<char>,
    r: usize,
)
    requires
        index < app.panel.rows@.len(),
        app.panel.rows@[index as int] == Row::Commit(r),
    ensures
        ({
            let click = app.row_click_spec(index, line, x, double, icon);
            let status = app.panel.repos@[r as int].status;
            if line <= 2 && x > 0 && x + 1 < app.panel.width {
                if status.staged@.len() == 0 && status.unstaged@.len() == 0 && status.has_upstream
                    && (status.ahead > 0 || status.behind > 0) {
                    click == RowClick::Sync(r)
                } else {
                    click == RowClick::Commit(r)
                }
            } else {
                click == RowClick::Nothing
            }
        }),
{
}

// ---- Menus and prompts ----

/// The menu of a file offers to stage a change and to unstage a staged one, to
/// discard a change that is not staged, and to open what has not been deleted.
pub proof fn law_file_menus_fit_the_file(letter: char, staged: bool)
    ensures
        file_menu(letter, staged).contains(
            EntryView::Action(MenuAction::StageOrUnstage, "Stage Changes"@),
        ) <== !staged,
        file_menu(letter, staged).contains(
            EntryView::Action(MenuAction::StageOrUnstage, "Unstage Changes"@),
        ) <== staged,
        forall|k: int|
            0 <= k < file_menu(letter, staged).len() ==> {
                &&& (#[trigger] file_menu(letter, staged)[k]) matches EntryView::Action(
                    MenuAction::Discard,
                    _,
                ) ==> !staged
                &&& file_menu(letter, staged)[k] matches EntryView::Action(
                    MenuAction::OpenExternal,
                    _,
                ) ==> letter != 'D'
            },
        !staged ==> file_menu(letter, staged).contains(
            EntryView::Action(MenuAction::Discard, "Discard Changes…"@),
        ),
        letter != 'D' ==> file_menu(letter, staged).contains(
            EntryView::Action(MenuAction::OpenExternal, "Open with Default App"@),
        ),
{
    let menu = file_menu(letter, staged);
    let at: int = if letter != 'D' {
        2
    } else {
        1
    };
    assert(menu[at] is Action);
    if !staged {
        assert(menu[at + 1] == EntryView::Action(MenuAction::Discard, "Discard Changes…"@));
    }
    if letter != 'D' {
        assert(menu[1] == EntryView::Action(MenuAction::OpenExternal, "Open with Default App"@));
    }
}

/// The entries of a file's menu act on the file that the menu was opened for:
/// the stage entry unstages a staged change and stages another one, and the path
/// is copied in full or below the repository, as the entry says.
pub proof fn law_file_menus_act_on_their_file(
    app: App,
    action: MenuAction,
    repo: usize,
    entry: FileEntry,
    staged: bool,
    post: App,
    out: Seq<Effect>,
)
    requires
        repo < app.panel.repos@.len(),
        app.file_action_rel(action, repo, entry, staged, &post, out),
    ensures
        action == MenuAction::StageOrUnstage && staged ==> out == seq![
            Effect::Unstage { repo, entry },
            Effect::Refresh,
        ],
        action == MenuAction::StageOrUnstage && !staged ==> out == seq![
            Effect::Stage { repo, entry },
            Effect::Refresh,
        ],
        action == MenuAction::Discard ==> out.len() == 0 && post.overlay == Some(
            Overlay::ConfirmDiscard { repo, entry },
        ),
        action == MenuAction::OpenDiff && app.in_pane ==> out == seq![
            Effect::OpenDiff { repo, entry, staged, pin: false },
        ],
        action == MenuAction::CopyPath ==> out == seq![
            Effect::CopyPath { repo, entry, absolute: true },
        ],
        action == MenuAction::CopyRelativePath ==> out == seq![
            Effect::CopyPath { repo, entry, absolute: false },
        ],
        action == MenuAction::Reveal ==> out == seq![Effect::RevealFile { repo, entry }],
        action == MenuAction::OpenExternal ==> out == seq![Effect::OpenExternal { repo, entry }],
        forall|k: int| 0 <= k < out.len() ==> is_harmless(#[trigger] out[k]),
{
}

/// A prompt that is answered with `y` does what it asked about, to what it asked
/// about, and closes.
pub proof fn law_prompts_do_what_they_asked(
    app: App,
    rows: Seq<SettingRow>,
    key: Key,
    post: App,
    out: Seq<Effect>,
)
    requires
        key.code == KeyCode::Char('y') || key.code == KeyCode::Char('Y'),
        app.overlay_key_rel(rows, key, &post, out),
    ensures
        app.overlay matches Some(Overlay::ConfirmDiscard { repo, entry }) ==> out == seq![
            Effect::Discard { repo, entry },
            Effect::Refresh,
        ] && post.overlay is None,
        app.overlay matches Some(Overlay::ConfirmDiscardAll { repo }) ==> out == seq![
            Effect::DiscardAll(repo),
        ] && post.overlay is None,
        app.overlay matches Some(Overlay::ConfirmGit { repo, prompt, args }) ==> out == seq![
            Effect::RunGit { repo, args },
        ] && post.overlay is None,
{
}

/// Nothing but a prompt that was answered with `y` throws changes away, whatever
/// key is pressed.
pub proof fn law_keys_discard_after_a_prompt_only(
    app: App,
    rows: Seq<SettingRow>,
    key: Key,
    post: App,
    out: Seq<Effect>,
    exit: Option<Exit>,
    k: int,
)
    requires
        app.key_rel(rows, key, &post, out, exit),
        0 <= k < out.len(),
        discards(out[k]),
    ensures
        key.code == KeyCode::Char('y') || key.code == KeyCode::Char('Y'),
        app.overlay matches Some(o) && (o is ConfirmDiscard || o is ConfirmDiscardAll),
{
    let calm = App { flash: None, ..app };
    if app.overlay is None {
        if calm.activate_rel(&post, out) {
            law_activating_moves_the_file_across(calm, post, out);
        }
    }
}

/// The words that git is given for an entry of a drawer line's menu: what to do,
/// and what to do it to, last. What cannot be undone is asked about first.
pub proof fn law_drawer_commands_name_their_line(action: MenuAction, r: RefView, name: Seq<char>)
    requires
        r == RefView::Commit(name) || r == RefView::Tag(name) || r == RefView::Worktree(name) || (
        r matches RefView::Branch { name: n, .. } && n == name) || (
        r matches RefView::Remote { name: n, .. } && n == name),
    ensures
        drawer_command(MenuAction::Checkout, r) == DrawerCommandView::Run(
            seq!["checkout"@, name],
        ),
        drawer_command(MenuAction::MergeInto, r) == DrawerCommandView::Run(
            seq!["merge"@, "--no-edit"@, name],
        ),
        drawer_command(MenuAction::CherryPick, r) == DrawerCommandView::Run(
            seq!["cherry-pick"@, name],
        ),
        drawer_command(MenuAction::Revert, r) == DrawerCommandView::Run(
            seq!["revert"@, "--no-edit"@, name],
        ),
        drawer_command(MenuAction::FetchRemote, r) == DrawerCommandView::Run(seq!["fetch"@, name]),
        drawer_command(MenuAction::Reveal, r) == DrawerCommandView::Reveal(name),
        drawer_command(MenuAction::ShowRef, r) == DrawerCommandView::Show,
        drawer_command(MenuAction::DeleteBranch, r) matches DrawerCommandView::Confirm {
            prompt,
            args,
        } && args == seq!["branch"@, "-D"@, name],
        drawer_command(MenuAction::DeleteTag, r) matches DrawerCommandView::Confirm { prompt, args }
            && args == seq!["tag"@, "-d"@, name],
        drawer_command(MenuAction::ResetHere, r) matches DrawerCommandView::Confirm { prompt, args }
            && args == seq!["reset"@, "--mixed"@, name],
        drawer_command(MenuAction::RemoveWorktree, r) matches DrawerCommandView::Confirm {
            prompt,
            args,
        } && args == seq!["worktree"@, "remove"@, name],
        r !is Remote ==> drawer_command(MenuAction::CopyRef, r) == DrawerCommandView::Copy(name),
        r matches RefView::Remote { url, .. } ==> drawer_command(MenuAction::CopyRef, r)
            == DrawerCommandView::Copy(
            if url.len() > 0 {
                url
            } else {
                name
            },
        ),
{
}

/// A stash is applied, popped and dropped by its place, and dropped only after a
/// question.
pub proof fn law_stash_commands_name_their_stash(n: nat)
    ensures
        ({
            let name = "stash@{"@ + crate::text::decimal(n) + "}"@;
            &&& drawer_command(MenuAction::StashApply, RefView::Stash(n))
                == DrawerCommandView::Run(seq!["stash"@, "apply"@, name])
            &&& drawer_command(MenuAction::StashPop, RefView::Stash(n)) == DrawerCommandView::Run(
                seq!["stash"@, "pop"@, name],
            )
            &&& drawer_command(MenuAction::StashDrop, RefView::Stash(n))
                matches DrawerCommandView::Confirm { prompt, args } && args
                == seq!["stash"@, "drop"@, name]
        }),
{
}

/// The message box takes what is typed, of the active repository alone, and its
/// keys leave it: down and `Tab` to the button, up by `Shift+Tab` and `Esc` to the
/// list. The button is left in the same way.
pub proof fn law_focus_moves_between_the_parts(app: App, key: Key, post: App, out: Seq<Effect>)
    requires
        key.code != KeyCode::Enter,
        key.code != KeyCode::Char(' '),
    ensures
        app.message_key_rel(key, &post, out) ==> {
            &&& out.len() == 0
            &&& key.code == KeyCode::Esc || key.code == KeyCode::BackTab ==> post.focus
                == Focus::List
            &&& key.code == KeyCode::Tab || key.code == KeyCode::Down ==> post.focus
                == Focus::Commit
            &&& forall|k: int|
                0 <= k < app.panel.repos@.len() && k != app.panel.active ==> (
                #[trigger] post.panel.repos@[k]) == app.panel.repos@[k]
        },
        app.button_key_rel(key, &post, out) ==> {
            &&& out.len() == 0
            &&& key.code == KeyCode::Esc || key.code == KeyCode::Tab || key.code == KeyCode::Down
                ==> post.focus == Focus::List
            &&& key.code == KeyCode::BackTab || key.code == KeyCode::Up ==> post.focus
                == Focus::Message
            &&& post.panel == app.panel
        },
{
}

/// The keys that work from anywhere: `Ctrl+Q` closes the pane without hiding it,
/// `Ctrl+P` opens quick open and `Ctrl+F` the search where the views are united,
/// and `Ctrl` with a digit switches the view.
pub proof fn law_keys_from_anywhere(
    app: App,
    rows: Seq<SettingRow>,
    key: Key,
    post: App,
    out: Seq<Effect>,
    exit: Option<Exit>,
)
    requires
        key.press,
        key.control,
        !key.alt,
        app.merged,
        app.key_rel(rows, key, &post, out, exit),
    ensures
        key.code == KeyCode::Char('q') ==> out == seq![Effect::Close { snooze: false }]
            && exit is None,
        key.code == KeyCode::Char('p') ==> exit == Some(Exit::QuickOpen),
        key.code == KeyCode::Char('1') ==> out == seq![
            Effect::ShareView { view: ViewKind::Explorer, search: false },
        ] && exit == Some(Exit::Switch) && post.overlay is None,
        key.code == KeyCode::Char('2') ==> out == seq![
            Effect::ShareView { view: ViewKind::Explorer, search: true },
        ] && exit == Some(Exit::Search { focus_query: false }) && post.overlay is None,
        key.code == KeyCode::Char('3') ==> out.len() == 0 && exit is None,
        key.code == KeyCode::Char('f') && app.overlay is None ==> exit == Some(
            Exit::Search { focus_query: true },
        ),
{
}

/// `o` opens the changes of the selected file, staged where it is staged.
pub proof fn law_the_selected_changes_are_opened(app: App, post: App, out: Seq<Effect>)
    requires
        app.in_pane,
        app.selected_diff_rel(&post, out),
    ensures
        app.panel.selected_row() matches Some(Row::Staged(r, i)) ==> (r < app.panel.repos@.len()
            ==> out == seq![
            Effect::OpenDiff {
                repo: r,
                entry: app.panel.repos@[r as int].status.staged@[i as int],
                staged: true,
                pin: false,
            },
        ]),
        app.panel.selected_row() matches Some(Row::Unstaged(r, i)) ==> (r < app.panel.repos@.len()
            ==> out == seq![
            Effect::OpenDiff {
                repo: r,
                entry: app.panel.repos@[r as int].status.unstaged@[i as int],
                staged: false,
                pin: false,
            },
        ]),
{
}

/// The menu of a row is about the file that the row shows, in the list that it
/// stands in.
pub proof fn law_menus_are_about_their_row(
    app: App,
    x: u16,
    y: u16,
    row: Row,
    post: Option<Overlay>,
)
    requires
        app.menu_rel(x, y, row, post),
    ensures
        row matches Row::Staged(r, i) ==> (post matches Some(Overlay::Menu {
            x: mx,
            y: my,
            target: MenuTarget::File { repo, entry, staged },
            entries,
            selected,
            rect,
        }) && mx == x && my == y && repo == r && entry
            == app.panel.repos@[r as int].status.staged@[i as int] && staged && selected == 0),
        row matches Row::Unstaged(r, i) ==> (post matches Some(Overlay::Menu {
            x: mx,
            y: my,
            target: MenuTarget::File { repo, entry, staged },
            entries,
            selected,
            rect,
        }) && mx == x && my == y && repo == r && entry
            == app.panel.repos@[r as int].status.unstaged@[i as int] && !staged && selected == 0),
        row is RepoHeader || row is StagedHeader || row is ChangesHeader || row is DrawerHeader
            || row is Message || row is Commit ==> post == app.overlay,
{
}

/// Folding a header folds that list, repository or drawer, or opens it, and no
/// other one.
pub proof fn law_folding_folds_its_own_list(
    repos: Seq<Repo>,
    drawers: Seq<DrawerPanel>,
    row: Row,
    k: int,
)
    requires
        0 <= k < repos.len(),
        row.repo_spec() matches Some(r) ==> r < repos.len(),
        drawers.len() == DRAWERS,
    ensures
        ({
            let after = toggled_repos(repos, row);
            &&& after.len() == repos.len()
            &&& after[k].collapsed == (repos[k].collapsed != (row == Row::RepoHeader(k as usize)
                && k <= usize::MAX))
            &&& after[k].staged_collapsed == (repos[k].staged_collapsed != (row
                == Row::StagedHeader(k as usize) && k <= usize::MAX))
            &&& after[k].changes_collapsed == (repos[k].changes_collapsed != (row
                == Row::ChangesHeader(k as usize) && k <= usize::MAX))
            &&& after[k].status == repos[k].status && after[k].message == repos[k].message
        }),
        forall|kind: Drawer|
            #![trigger kind.index_spec()]
            toggled_drawers(drawers, row)[kind.index_spec()].expanded == (
            drawers[kind.index_spec()].expanded != (row == Row::DrawerHeader(kind))),
{
    assert forall|kind: Drawer|
        #![trigger kind.index_spec()]
        toggled_drawers(drawers, row)[kind.index_spec()].expanded == (
        drawers[kind.index_spec()].expanded != (row == Row::DrawerHeader(kind))) by {
        if let Row::DrawerHeader(other) = row {
            if other.index_spec() == kind.index_spec() {
                assert(other == kind);
            }
        }
    }
}

// ---- What git said ----

/// What went well is told as such, in the words of what was done; what went wrong
/// is told as an error, in the words of git. Nothing else changes but what is
/// read anew.
pub proof fn law_outcomes_are_told(
    app: App,
    path: Seq<char>,
    args: Seq<Seq<char>>,
    outcome: Result<(), String>,
    post: App,
    out: Seq<Effect>,
)
    ensures
        app.staged_rel(outcome, &post) ==> post.panel == app.panel && match outcome {
            Ok(_) => post.flash == app.flash,
            Err(e) => flash_is(post.flash, e@, true),
        },
        app.discarded_rel(path, outcome, &post) ==> post.panel == app.panel && match outcome {
            Ok(_) => flash_is(post.flash, "discarded "@ + path, false),
            Err(e) => flash_is(post.flash, e@, true),
        },
        app.git_done_rel(args, outcome, &post, out) ==> post.panel == app.panel && out == seq![
            Effect::Refresh,
        ] && match outcome {
            Ok(_) => flash_is(
                post.flash,
                "git "@ + joined(args, " "@, args.len() as int) + " ✓"@,
                false,
            ),
            Err(e) => flash_is(post.flash, e@, true),
        },
        app.checked_out_rel(path, outcome, &post, out) ==> post.overlay is None && match outcome {
            Ok(_) => flash_is(post.flash, "switched to "@ + path, false) && out == seq![
                Effect::Refresh,
            ],
            Err(e) => flash_is(post.flash, e@, true) && out.len() == 0,
        },
        app.copied_rel(path, outcome, &post) ==> match outcome {
            Ok(_) => flash_is(post.flash, "copied: "@ + path, false),
            Err(e) => flash_is(post.flash, "copy failed: "@ + e@, true),
        },
        app.opened_rel(path, outcome, &post) ==> match outcome {
            Ok(_) => flash_is(post.flash, "opened: "@ + path, false),
            Err(e) => flash_is(post.flash, "open failed: "@ + e@, true),
        },
{
}

/// Discarding everything tells how many changes are gone where all of them are,
/// and what stood in the way otherwise.
pub proof fn law_lost_changes_are_counted(
    app: App,
    attempts: Vec<Attempt>,
    post: App,
    out: Seq<Effect>,
)
    requires
        app.discarded_all_rel(Some(attempts), &post, out),
    ensures
        out == seq![Effect::Refresh],
        (forall|i: int| 0 <= i < attempts@.len() ==> (#[trigger] attempts@[i]).error is None)
            ==> flash_is(
            post.flash,
            "discarded "@ + crate::text::decimal(attempts@.len()) + " changes"@,
            false,
        ),
        (exists|i: int| 0 <= i < attempts@.len() && (#[trigger] attempts@[i]).error is Some)
            ==> (post.flash matches Some(f) && f.1),
{
    lemma_complaints(attempts@, attempts@.len() as int);
}

proof fn lemma_complaints(attempts: Seq<Attempt>, n: int)
    requires
        0 <= n <= attempts.len(),
    ensures
        (complaints(attempts, n).len() == 0) <==> forall|i: int|
            0 <= i < n ==> (#[trigger] attempts[i]).error is None,
    decreases n,
{
    if n > 0 {
        lemma_complaints(attempts, n - 1);
        if complaints(attempts, n).len() == 0 {
            assert(attempts[n - 1].error is None);
        } else if forall|i: int| 0 <= i < n ==> (#[trigger] attempts[i]).error is None {
            assert(attempts[n - 1].error is None);
        }
    }
}

// ---- The mouse ----

/// The wheel moves the list three rows towards the end of the list that it turns
/// to, as far as there are rows, and leaves the selection alone.
pub proof fn law_the_wheel_goes_its_way(
    app: App,
    rows: nat,
    mouse: Mouse,
    now: u64,
    icon: Seq<char>,
    post: App,
    out: Seq<Effect>,
    exit: Option<Exit>,
)
    requires
        app.wf(),
        app.overlay is None,
        app.mouse_rel(rows, mouse, now, icon, &post, out, exit),
    ensures
        mouse.kind == MouseKind::ScrollUp ==> post.panel.scroll == if app.panel.scroll >= 3 {
            app.panel.scroll - 3
        } else {
            0
        },
        mouse.kind == MouseKind::ScrollDown ==> post.panel.scroll == if app.panel.scroll + 3
            < app.panel.rows@.len() {
            app.panel.scroll + 3
        } else {
            app.panel.rows@.len() - 1
        },
        mouse.kind == MouseKind::ScrollUp || mouse.kind == MouseKind::ScrollDown ==> post.panel.selected
            == app.panel.selected && post.panel.repos == app.panel.repos && exit is None,
        mouse.kind == MouseKind::Moved ==> post.panel == app.panel && out.len() == 0,
{
    assert(app.panel.rows.len() == app.panel.rows@.len());
}

// ---- The message ----

/// Typing puts the character where the cursor stands and moves the cursor behind
/// it; the keys that move the cursor change no text, and those that delete take
/// away one character, before or behind the cursor.
pub proof fn law_typing_goes_where_the_cursor_is(message: Seq<char>, cursor: nat, key: Key)
    requires
        cursor <= message.len(),
    ensures
        key.code matches KeyCode::Char(c) ==> (!key.control ==> edited(message, cursor, key) == (
            message.take(cursor as int).push(c) + message.skip(cursor as int),
            cursor + 1,
        )),
        key.code == KeyCode::Char('u') && key.control && !key.alt ==> edited(message, cursor, key)
            == (Seq::<char>::empty(), 0nat),
        key.code == KeyCode::Left ==> edited(message, cursor, key) == (
            message,
            if cursor == 0 {
                0nat
            } else {
                (cursor - 1) as nat
            },
        ),
        key.code == KeyCode::Right ==> edited(message, cursor, key) == (
            message,
            if cursor == message.len() {
                cursor
            } else {
                cursor + 1
            },
        ),
        key.code == KeyCode::Home ==> edited(message, cursor, key) == (message, 0nat),
        key.code == KeyCode::End ==> edited(message, cursor, key) == (message, message.len()),
        key.code == KeyCode::Backspace && cursor > 0 ==> edited(message, cursor, key) == (
            message.take(cursor - 1) + message.skip(cursor as int),
            (cursor - 1) as nat,
        ),
        key.code == KeyCode::Backspace && cursor == 0 ==> edited(message, cursor, key) == (
            message,
            cursor,
        ),
        key.code == KeyCode::Delete && cursor < message.len() ==> edited(message, cursor, key) == (
            message.take(cursor as int) + message.skip(cursor as int + 1),
            cursor,
        ),
        key.code == KeyCode::Delete && cursor == message.len() ==> edited(message, cursor, key) == (
            message,
            cursor,
        ),
        key.code == KeyCode::Up || key.code == KeyCode::Down || key.code == KeyCode::Tab
            || key.code == KeyCode::Esc ==> edited(message, cursor, key) == (message, cursor),
{
    if let KeyCode::Char(c) = key.code {
        assert(message.insert(cursor as int, c) =~= message.take(cursor as int).push(c)
            + message.skip(cursor as int));
    }
    if cursor > 0 {
        assert(message.remove(cursor - 1) =~= message.take(cursor - 1) + message.skip(
            cursor as int,
        ));
    }
    if cursor < message.len() {
        assert(message.remove(cursor as int) =~= message.take(cursor as int) + message.skip(
            cursor as int + 1,
        ));
    }
}

/// A file that could not be discarded is complained about by its path, one that
/// was not at all; the complaints stand behind each other.
pub proof fn law_complaints_name_their_file(attempts: Seq<Attempt>, n: int)
    requires
        0 < n <= attempts.len(),
    ensures
        attempts[n - 1].error matches Some(error) ==> complaints(attempts, n) == complaints(
            attempts,
            n - 1,
        ).push(attempts[n - 1].path@ + ": "@ + error@),
        attempts[n - 1].error is None ==> complaints(attempts, n) == complaints(attempts, n - 1),
        complaints(attempts, 0).len() == 0,
{
}

/// The hint of the button under the mouse stands at the bottom, and how to open
/// a menu where there is none.
pub proof fn law_the_bottom_hints_at_the_button(app: App)
    ensures
        app.hint_spec() matches Some(hint) ==> app.bottom_hint_spec() == hint,
        app.hint_spec() is None ==> app.bottom_hint_spec() == "m / ctrl+rclick for menus"@,
        app.overlay is Some || app.flash is Some ==> !app.hint_takes_footer(),
        app.overlay is None && app.flash is None ==> (app.hint_takes_footer()
            <==> app.hint_spec() is Some),
{
}

/// Without a repository to discard in, that is told and nothing is read anew.
pub proof fn law_lost_repositories_are_told(app: App, post: App, out: Seq<Effect>)
    requires
        app.discarded_all_rel(None, &post, out),
    ensures
        out.len() == 0,
        flash_is(post.flash, "repository is gone"@, true),
        post.panel == app.panel,
{
}

} // verus!
