//! What the Source Control panel makes of what git and the terminal report.

use herdr_sidebar::geometry::Area;
use herdr_sidebar::git::{FileEntry, Git, Status};
use herdr_sidebar::input::{Key, KeyCode};
use herdr_sidebar::scm_app::app::{App, Effect, Focus, Overlay};
use herdr_sidebar::scm_app::boxes::{button_area, no_repository, sync_area};
use herdr_sidebar::scm_app::drawer::{drawer_placeholder, Drawer};
use herdr_sidebar::scm_app::frame::{FooterTone, RowIcons, RowTone};
use herdr_sidebar::scm_app::outcomes::{native_path, Attempt};
use herdr_sidebar::scm_app::refresh::Fetch;
use herdr_sidebar::scm_app::rows::{BodyGeom, Repo, Row};
use herdr_sidebar::scm_app::snapshot::{DiffKind, DocKey, Draft, ScmState};
use herdr_sidebar::spans::Span;

fn entry(path: &str, letter: char) -> FileEntry {
    FileEntry { path: path.into(), orig: None, letter }
}

fn status(branch: &str, unstaged: &[&str]) -> Status {
    Status {
        branch: branch.into(),
        unstaged: unstaged.iter().map(|path| entry(path, 'M')).collect(),
        ..Status::default()
    }
}

fn repo(name: &str) -> Repo {
    let mut repo = Repo::new(Git { root: format!("/ws/{name}"), name: name.into() });
    repo.status = status("main", &["b.rs", "c.rs"]);
    repo.status.staged = vec![entry("a.rs", 'M')];
    repo
}

fn nothing_saved() -> ScmState {
    ScmState {
        drawers: Vec::new(),
        active_root: None,
        selected: None,
        history_target: None,
        scroll: 0,
        drafts: Vec::new(),
        cleared_drafts: Vec::new(),
    }
}

fn app(names: &[&str]) -> App {
    let keys = names.iter().map(|n| format!("/ws/{n}")).collect();
    let repos = names.iter().map(|n| repo(n)).collect();
    let mut app = App::new(repos, &keys, &nothing_saved(), 40, true, true);
    app.body = BodyGeom { top: 5, height: 20, offset: 0 };
    app
}

fn flash(app: &App) -> (&str, bool) {
    let flash = app.flash.as_ref().unwrap();
    (flash.0.as_str(), flash.1)
}

fn icons() -> RowIcons {
    RowIcons {
        repo: "R ".into(),
        branch: "B ".into(),
        sparkle: "*".into(),
        file: "F ".into(),
        separator: '/',
    }
}

fn text_of(line: &[Span]) -> String {
    line.iter().map(|span| span.text.as_str()).collect()
}

fn place_of(app: &App, row: Row) -> usize {
    app.panel.rows.iter().position(|r| *r == row).unwrap()
}

// ---- Refreshing ----

#[test]
fn a_refresh_takes_what_git_reports() {
    let mut app = app(&["one", "two"]);
    app.panel.repos[0].message = "draft".chars().collect();
    let effects = app.refreshed(
        vec![Ok(status("topic", &["z.rs"])), Err("git is busy".into())],
        Vec::new(),
    );
    assert!(effects.is_empty());
    assert_eq!(app.panel.repos[0].status.branch, "topic");
    assert_eq!(app.panel.repos[0].message.iter().collect::<String>(), "draft");
    // The other repository keeps what it had.
    assert_eq!(app.panel.repos[1].status.branch, "main");
    assert_eq!(flash(&app), ("git is busy", true));
    assert!(app.panel.rows.contains(&Row::Unstaged(0, 0)));
    assert!(!app.panel.rows.contains(&Row::Staged(0, 0)));
}

#[test]
fn the_last_error_of_a_refresh_is_shown() {
    let mut app = app(&["one", "two", "three"]);
    app.refreshed(
        vec![Err("first".into()), Err("second".into()), Ok(status("x", &[]))],
        Vec::new(),
    );
    assert_eq!(flash(&app), ("second", true));
}

#[test]
fn a_quiet_refresh_leaves_the_flash() {
    let mut app = app(&["one"]);
    app.flash = Some(("committed".into(), false));
    app.refreshed(vec![Ok(status("main", &[]))], Vec::new());
    assert_eq!(flash(&app), ("committed", false));
}

#[test]
fn a_refresh_moves_a_lost_selection() {
    let mut app = app(&["one"]);
    let last = app.panel.rows.len() - 1;
    app.panel.select(last);
    app.refreshed(vec![Ok(status("main", &[]))], Vec::new());
    assert!(app.panel.selected.unwrap() < app.panel.rows.len());
    assert_eq!(app.panel.rows.len(), last + 1 - 4);
}

#[test]
fn expanded_drawers_are_fetched() {
    let mut app = app(&["one"]);
    assert!(app.panel.drawers_to_fetch().is_empty());
    app.panel.toggle(Row::DrawerHeader(Drawer::Tags));
    app.panel.toggle(Row::DrawerHeader(Drawer::Branches));
    assert!(app.panel.drawers_to_fetch() == vec![Drawer::Branches, Drawer::Tags]);
    app.drawers_fetched(vec![
        Fetch { kind: Drawer::Branches, lines: Ok(vec!["* main abc".into(), "  topic".into()]) },
        Fetch { kind: Drawer::Tags, lines: Ok(Vec::new()) },
        Fetch { kind: Drawer::Tags, lines: Err("late".into()) },
    ]);
    assert_eq!(app.panel.drawers[Drawer::Branches.index()].lines.len(), 2);
    assert_eq!(app.panel.drawers[Drawer::Tags.index()].lines, vec!["(none)"]);
    assert!(app.panel.rows.contains(&Row::DrawerLine(Drawer::Branches, 1)));
    // Without a repository there is nothing to ask.
    let mut nothing = self::app(&[]);
    nothing.panel.toggle(Row::DrawerHeader(Drawer::Tags));
    assert!(nothing.panel.drawers_to_fetch().is_empty());
}

#[test]
fn repositories_that_turn_up_are_listed() {
    let mut app = app(&[]);
    app.flash = Some(("hello".into(), false));
    app.panel.toggle(Row::DrawerHeader(Drawer::Tags));
    let repo = Repo::new(Git { root: "/ws/one".into(), name: "one".into() });
    app.discovered(vec![repo]);
    assert!(app.panel.drawers_to_fetch() == vec![Drawer::Tags]);
    app.refreshed(vec![Ok(status("main", &["a.rs"]))], Vec::new());
    assert!(app.panel.rows[..2] == [Row::ChangesHeader(0), Row::Unstaged(0, 0)]);
    assert_eq!(flash(&app), ("hello", false));
    // A panel that has repositories keeps them.
    app.discovered(Vec::new());
    assert_eq!(app.panel.repos.len(), 1);
}

#[test]
fn a_failed_fetch_says_why() {
    let mut app = app(&["one"]);
    app.panel.toggle(Row::DrawerHeader(Drawer::Stashes));
    app.refreshed(
        vec![Ok(status("main", &[]))],
        vec![Fetch { kind: Drawer::Stashes, lines: Err("no stash".into()) }],
    );
    assert_eq!(app.panel.drawers[Drawer::Stashes.index()].lines, vec!["(no stash)"]);
}

#[test]
fn the_file_history_waits_for_a_file() {
    assert_eq!(
        drawer_placeholder(Drawer::FileHistory, false),
        Some("(select a file above)")
    );
    assert_eq!(drawer_placeholder(Drawer::FileHistory, true), None);
    assert_eq!(drawer_placeholder(Drawer::Graph, false), None);
}

// ---- What became of a command ----

#[test]
fn commits_clear_the_message_errors_keep_it() {
    let mut app = app(&["one"]);
    app.panel.repos[0].message = "why".chars().collect();
    app.panel.repos[0].cursor = 3;
    let effects = app.committed(0, Err("hook failed".into()));
    assert!(matches!(effects.as_slice(), [Effect::Refresh, Effect::Persist]));
    assert_eq!(flash(&app), ("hook failed", true));
    assert_eq!(app.panel.repos[0].message.len(), 3);
    app.focus = Focus::Message;
    app.committed(0, Ok("[main 1234] why".into()));
    assert_eq!(flash(&app), ("[main 1234] why", false));
    assert!(app.panel.repos[0].message.is_empty());
    assert_eq!(app.panel.repos[0].cursor, 0);
    assert!(app.focus == Focus::List);
}

#[test]
fn suggestions_fill_the_message() {
    let mut app = app(&["one"]);
    assert!(app.diff_fetched(&Ok(("+new line".into(), Vec::new()))));
    assert!(app.suggesting);
    assert_eq!(flash(&app), ("✧ generating commit message…", false));
    app.suggestion_arrived(Some("Fix größe".into()));
    assert!(!app.suggesting);
    assert_eq!(app.panel.repos[0].message.iter().collect::<String>(), "Fix größe");
    assert_eq!(app.panel.repos[0].cursor, 9);
    assert!(app.focus == Focus::Message);
    assert_eq!(flash(&app), ("✧ suggestion ready — edit or ⏎ to commit", false));
    app.suggestion_arrived(None);
    assert_eq!(flash(&app), ("✧ generation failed", true));
}

#[test]
fn nothing_is_generated_without_changes() {
    let mut app = app(&["one"]);
    assert!(!app.diff_fetched(&Ok((" \n".into(), Vec::new()))));
    assert!(!app.suggesting);
    assert_eq!(flash(&app), ("no changes to describe", true));
    assert!(!app.diff_fetched(&Err("no repository".into())));
    assert_eq!(flash(&app), ("no repository", true));
    assert!(app.diff_fetched(&Ok((String::new(), vec!["new.txt".into()]))));
    assert!(app.suggesting);
}

#[test]
fn a_sync_ends_quietly_or_with_its_error() {
    let mut app = app(&["one"]);
    app.syncing = Some(0);
    app.sync_ended(Ok(()));
    assert!(app.syncing.is_none() && app.flash.is_none());
    app.syncing = Some(0);
    app.sync_ended(Err(Some("rejected".into())));
    assert_eq!(flash(&app), ("rejected", true));
    app.syncing = Some(0);
    app.sync_ended(Err(None));
    assert_eq!(flash(&app), ("sync failed", true));
}

#[test]
fn discarded_files_are_named_or_counted() {
    let mut app = app(&["one"]);
    app.discarded("b.rs", Ok(()));
    assert_eq!(flash(&app), ("discarded b.rs", false));
    app.discarded("b.rs", Err("locked".into()));
    assert_eq!(flash(&app), ("locked", true));
    let attempt = |path: &str, error: Option<&str>| Attempt {
        path: path.into(),
        error: error.map(String::from),
    };
    let effects = app.discarded_all(Some(vec![attempt("a", None), attempt("b", None)]));
    assert!(matches!(effects.as_slice(), [Effect::Refresh]));
    assert_eq!(flash(&app), ("discarded 2 changes", false));
    app.discarded_all(Some(vec![
        attempt("a", Some("locked")),
        attempt("b", None),
        attempt("c", Some("gone")),
    ]));
    assert_eq!(flash(&app), ("a: locked; c: gone", true));
    assert!(app.discarded_all(None).is_empty());
    assert_eq!(flash(&app), ("repository is gone", true));
}

#[test]
fn git_commands_are_ticked_off() {
    let mut app = app(&["one"]);
    let args = vec!["stash".to_string(), "pop".to_string()];
    let effects = app.git_done(&args, Ok(()));
    assert!(matches!(effects.as_slice(), [Effect::Refresh]));
    assert_eq!(flash(&app), ("git stash pop ✓", false));
    app.git_done(&args, Err("conflict".into()));
    assert_eq!(flash(&app), ("conflict", true));
}

#[test]
fn what_other_programs_did_is_told() {
    let mut app = app(&["one"]);
    app.staged(Ok(()));
    assert!(app.flash.is_none());
    app.staged(Err("index locked".into()));
    assert_eq!(flash(&app), ("index locked", true));
    app.copied("src/a.rs", Ok(()));
    assert_eq!(flash(&app), ("copied: src/a.rs", false));
    app.copied("src/a.rs", Err("no tool".into()));
    assert_eq!(flash(&app), ("copy failed: no tool", true));
    app.opened("src/a.rs", Ok(()));
    assert_eq!(flash(&app), ("opened: src/a.rs", false));
    app.opened("src/a.rs", Err("no program".into()));
    assert_eq!(flash(&app), ("open failed: no program", true));
    assert_eq!(native_path("src/bin/a.rs", '\\'), "src\\bin\\a.rs");
}

#[test]
fn a_checkout_closes_the_picker() {
    let mut app = app(&["one"]);
    app.overlay = Some(Overlay::BranchPicker);
    let effects = app.checked_out("topic", Ok(()));
    assert!(matches!(effects.as_slice(), [Effect::Refresh]));
    assert!(app.overlay.is_none());
    assert_eq!(flash(&app), ("switched to topic", false));
    app.overlay = Some(Overlay::BranchPicker);
    assert!(app.checked_out("topic", Err("dirty tree".into())).is_empty());
    assert!(app.overlay.is_none());
    assert_eq!(flash(&app), ("dirty tree", true));
    app.overlay = Some(Overlay::BranchPicker);
    app.picker_closed();
    assert!(app.overlay.is_none());
}

#[test]
fn a_preview_is_remembered_where_it_opened() {
    let mut app = app(&["one"]);
    let document = || DocKey::Diff {
        root: "/ws/one".into(),
        path: "b.rs".into(),
        kind: DiffKind::Worktree,
    };
    app.previewed(document(), Err("no pane".into()));
    assert!(app.last_preview.is_none());
    assert_eq!(flash(&app), ("no pane", true));
    app.previewed(document(), Ok(()));
    assert!(app.last_preview == Some(document()));
}

#[test]
fn folders_are_chosen_in_a_dialog() {
    let mut app = app(&["one"]);
    assert!(!app.change_folder_dialog(false, false));
    assert_eq!(flash(&app), ("no native picker here — use c in the Files view", true));
    assert!(app.change_folder_dialog(true, false));
    assert_eq!(flash(&app), ("folder picker open… (check your other windows)", false));
    assert!(!app.change_folder_dialog(true, true));
    app.picker_dismissed();
    assert!(app.flash.is_none());
    app.folder_refused("/nowhere");
    assert_eq!(flash(&app), ("cannot open /nowhere", true));
}

#[test]
fn a_failed_unification_says_why() {
    let mut app = app(&["one"]);
    app.unify_failed(Some("no answer"));
    assert_eq!(flash(&app), ("unified mode cancelled: no answer", true));
    app.unify_failed(None);
    assert_eq!(flash(&app), ("Explorer stayed open; unified mode cancelled", true));
}

#[test]
fn a_save_that_fails_keeps_what_is_known() {
    let mut app = app(&["one"]);
    app.panel.repos[0].message = "draft".chars().collect();
    let keys = vec!["/ws/one".to_string()];
    let state = app.panel.snapshot_scm(&keys, &Vec::new());
    let known = app.state_saved(false, &state, vec!["/ws/two".to_string()]);
    assert_eq!(known, vec!["/ws/two"]);
    assert_eq!(flash(&app), ("Could not save Source Control state; action cancelled.", true));
    app.flash = None;
    let known = app.state_saved(true, &state, vec!["/ws/two".to_string()]);
    assert_eq!(known, vec!["/ws/two", "/ws/one"]);
    assert!(app.flash.is_none());
}

// ---- The frame ----

#[test]
fn lit_rows_are_the_selected_and_the_hovered() {
    let mut app = app(&["one"]);
    app.panel.select(0);
    app.hovered = Some(1);
    assert!(app.row_tone(0) == RowTone::Selected(true));
    assert!(app.row_tone(1) == RowTone::Hovered);
    assert!(app.row_tone(2) == RowTone::Plain);
    app.focus = Focus::Message;
    assert!(app.row_tone(0) == RowTone::Selected(false));
}

#[test]
fn rows_show_what_they_stand_for() {
    let mut app = app(&["one"]);
    let lines = app.row_lines(place_of(&app, Row::StagedHeader(0)), &icons());
    assert_eq!(lines.len(), 1);
    assert!(text_of(&lines[0]).contains("Staged Changes"));
    let lines = app.row_lines(place_of(&app, Row::Unstaged(0, 0)), &icons());
    let text = text_of(&lines[0]);
    assert!(text.contains("b.rs") && text.contains('M'), "{text}");
    app.panel.toggle(Row::DrawerHeader(Drawer::Tags));
    app.drawers_fetched(vec![Fetch { kind: Drawer::Tags, lines: Ok(vec!["v1.0".into()]) }]);
    let lines = app.row_lines(place_of(&app, Row::DrawerLine(Drawer::Tags, 0)), &icons());
    assert!(text_of(&lines[0]).contains("v1.0"));
}

#[test]
fn a_lone_repository_has_its_box_above_the_list() {
    let mut app = app(&["one"]);
    let heights = app.heights(40, "*");
    assert_eq!((heights.activity, heights.message, heights.button), (3, 3, 3));
    assert_eq!(heights.sync, 0);
    app.panel.repos[0].message = vec!['x'; 50];
    app.panel.repos[0].cursor = 50;
    assert_eq!(app.heights(40, "*").message, 4);
    let many = self::app(&["one", "two"]);
    let heights = many.heights(40, "*");
    assert_eq!((heights.message, heights.button, heights.sync), (0, 0, 0));
}

#[test]
fn the_list_has_the_rows_that_are_left() {
    let mut app = app(&["one"]);
    app.panel.repos[0].status.has_upstream = true;
    app.panel.repos[0].status.ahead = 2;
    let parts = app.sections(Area { x: 0, y: 0, width: 40, height: 30 }, "*", 2);
    let rows = |y: u16, height: u16| Area { x: 0, y, width: 40, height };
    assert_eq!((parts.bar, parts.head), (rows(0, 3), rows(3, 1)));
    assert_eq!((parts.message, parts.button), (rows(4, 3), rows(7, 3)));
    assert_eq!((parts.sync, parts.list), (rows(10, 1), rows(11, 17)));
    assert_eq!(parts.footer, rows(28, 2));
    let many = self::app(&["one", "two"]);
    let parts = many.sections(Area { x: 0, y: 0, width: 40, height: 30 }, "*", 2);
    assert_eq!((parts.message.height, parts.list), (0, rows(4, 24)));
}

#[test]
fn a_hint_takes_the_footers_place() {
    let mut app = app(&["one"]);
    let screen = Area { x: 0, y: 0, width: 40, height: 30 };
    let (parts, kept) = app.lay_out(screen, "*", 4, true);
    assert!(kept);
    assert_eq!((parts.list.y, parts.list.height, parts.footer.height), (10, 15, 5));
    assert_eq!((app.body.top, app.body.height, app.page), (10, 15, 14));
    assert_eq!((app.panel.width, app.height), (40, 30));
    // The mouse on the buttons of a changed file.
    let row = place_of(&app, Row::Unstaged(0, 0));
    app.mouse_pos = Some((37, 10 + row as u16));
    let (parts, kept) = app.lay_out(screen, "*", 4, true);
    assert!(app.hovered_action_hint().is_some());
    assert!(!kept);
    assert_eq!((parts.list.height, parts.footer.height), (17, 3));
    app.zones.button = Area { x: 1, y: 1, width: 1, height: 1 };
    app.lay_out(screen, "*", 4, true);
    assert_eq!(app.zones.button.width, 1);
    let mut many = self::app(&["one", "two"]);
    many.zones.button = Area { x: 1, y: 1, width: 1, height: 1 };
    many.lay_out(screen, "*", 4, true);
    assert_eq!(many.zones.button, Area { x: 0, y: 0, width: 0, height: 0 });
}

#[test]
fn a_sync_row_shows_while_the_button_commits() {
    let mut app = app(&["one"]);
    app.panel.repos[0].status.has_upstream = true;
    app.panel.repos[0].status.ahead = 2;
    assert!(app.sync_label().is_some());
    assert_eq!(app.heights(40, "*").sync, 1);
    app.panel.repos[0].status.ahead = 0;
    assert!(app.sync_label().is_none());
    assert_eq!(app.heights(40, "*").sync, 0);
}

#[test]
fn headers_name_the_repository_and_its_branch() {
    let mut one = app(&["one"]);
    assert_eq!(one.title(), "one");
    assert_eq!(one.header_right(), "main ");
    one.panel.repos[0].status.ahead = 2;
    assert!(one.header_right().contains('2'));
    let many = app(&["one", "two"]);
    assert_eq!(many.title(), "Source Control");
    assert_eq!(many.header_right(), "one · main ");
    assert_eq!(app(&[]).header_right(), "");
}

#[test]
fn questions_stand_in_the_footer() {
    let mut app = app(&["one"]);
    assert!(app.footer_message().is_none());
    app.flash = Some(("done".into(), false));
    let (text, tone) = app.footer_message().unwrap();
    assert_eq!(text, "✓ done");
    assert!(tone == FooterTone::Good);
    app.overlay = Some(Overlay::ConfirmDiscard { repo: 0, entry: entry("b.rs", 'M') });
    let (text, tone) = app.footer_message().unwrap();
    assert_eq!(text, "Discard changes to 'b.rs'? (y/N)");
    assert!(tone == FooterTone::Warning);
    assert_eq!(App::footer_height(0, true), 3);
    assert_eq!(App::footer_height(0, false), 1);
    assert_eq!(App::footer_height(2, true), 3);
}

#[test]
fn hovered_buttons_explain_themselves() {
    let mut app = app(&["one"]);
    let header = place_of(&app, Row::ChangesHeader(0));
    app.hovered = Some(header);
    app.mouse_pos = Some((0, 0));
    assert!(app.hovered_action_hint().is_none());
    let hints: Vec<&str> = (0..40)
        .filter_map(|x| {
            app.mouse_pos = Some((x, 0));
            app.hovered_action_hint()
        })
        .collect();
    assert!(!hints.is_empty());
}

#[test]
fn the_cursor_stands_in_the_focused_box() {
    let mut app = app(&["one", "two"]);
    assert!(app.inline_cursor(40).is_none());
    app.focus = Focus::Message;
    app.panel.repos[0].message = "abc".chars().collect();
    app.panel.repos[0].cursor = 3;
    app.prepare_list(Area { x: 0, y: 5, width: 40, height: 20 });
    // The box is the second row; its text stands below its border.
    assert_eq!(app.inline_cursor(25), Some((4, 7)));
    assert_eq!(app.inline_cursor(7), None);
}

// ---- The box and the buttons of a lone repository ----

#[test]
fn an_empty_box_says_what_to_write() {
    let mut app = app(&["one"]);
    let shown = app.message_box(40);
    assert!(shown.is_placeholder && shown.cursor.is_none());
    assert_eq!(shown.lines, vec!["Message (⏎ to commit on \"main\")"]);
    app.focus = Focus::Message;
    let shown = app.message_box(40);
    assert!(!shown.is_placeholder);
    assert_eq!(shown.lines, vec![""]);
    assert_eq!(shown.cursor, Some((0, 0)));
}

#[test]
fn a_box_wraps_and_follows_the_cursor() {
    let mut app = app(&["one"]);
    app.panel.repos[0].message = "abcdefgh".chars().collect();
    app.panel.repos[0].cursor = 5;
    let shown = app.message_box(4);
    assert_eq!(shown.lines, vec!["abcd", "efgh"]);
    assert_eq!(shown.cursor, None);
    app.focus = Focus::Message;
    assert_eq!(app.message_box(4).cursor, Some((1, 1)));
    // Behind the end a fresh line opens.
    app.panel.repos[0].cursor = 8;
    let shown = app.message_box(4);
    assert_eq!(shown.lines, vec!["abcd", "efgh", ""]);
    assert_eq!(shown.cursor, Some((0, 2)));
    // A box that is full scrolls, and its cursor stays in it.
    app.panel.repos[0].message = vec!['x'; 400];
    app.panel.repos[0].cursor = 399;
    let shown = app.message_box(4);
    let (column, line) = shown.cursor.unwrap();
    assert_eq!(column, 3);
    assert_eq!(line, shown.lines.len() - 1);
    assert!(shown.lines.len() < 100);
}

#[test]
fn the_main_button_commits_or_syncs() {
    let mut app = app(&["one"]);
    assert_eq!(app.main_button(), "✓ Commit");
    app.panel.repos[0].status = status("main", &[]);
    app.panel.repos[0].status.has_upstream = true;
    app.panel.repos[0].status.ahead = 1;
    assert!(app.main_button().contains("Sync Changes"));
    assert_eq!(self::app(&[]).main_button(), "✓ Commit");
}

#[test]
fn buttons_keep_their_margins() {
    let area = Area { x: 2, y: 4, width: 20, height: 3 };
    assert_eq!(button_area(area), Area { x: 3, y: 5, width: 18, height: 1 });
    let flat = Area { height: 1, ..area };
    assert_eq!(button_area(flat), flat);
    assert_eq!(sync_area(flat), Area { x: 3, y: 4, width: 18, height: 1 });
}

#[test]
fn the_branch_yields_to_the_buttons() {
    let app = app(&["one"]);
    let area = Area { x: 0, y: 2, width: 30, height: 1 };
    let line = app.header_line(area, 2, 0);
    assert_eq!(line.left, " ▾ one");
    assert_eq!(line.branch, "main ");
    assert_eq!(line.pad, 17);
    assert_eq!(line.branch_zone, Area { x: 23, y: 2, width: 5, height: 1 });
    let narrow = app.header_line(Area { width: 12, ..area }, 2, 0);
    assert_eq!(narrow.branch, "ma…");
    assert_eq!(narrow.pad, 1);
}

#[test]
fn a_folder_without_a_repository_says_so() {
    assert_eq!(
        no_repository("fatal: none"),
        "Not a git repository.\n\nfatal: none\n\nOpen this pane inside a repo,\nor press q to quit."
    );
}

#[test]
fn hints_do_not_hide_questions() {
    let mut app = app(&["one"]);
    assert_eq!(app.bottom_hint(), "m / ctrl+rclick for menus");
    assert!(!app.hint_replaces_keys());
    app.hovered = Some(place_of(&app, Row::ChangesHeader(0)));
    let over = (0..40u16).find(|x| {
        app.mouse_pos = Some((*x, 0));
        app.hovered_action_hint().is_some()
    });
    app.mouse_pos = Some((over.unwrap(), 0));
    assert!(app.hint_replaces_keys());
    assert_ne!(app.bottom_hint(), "m / ctrl+rclick for menus");
    app.flash = Some(("done".into(), false));
    assert!(!app.hint_replaces_keys());
}

// ---- Starting and leaving ----

#[test]
fn a_panel_starts_where_another_left_off() {
    let saved = ScmState {
        drawers: vec!["Tags".into()],
        active_root: Some("/ws/two".into()),
        drafts: vec![Draft { root: "/ws/one".into(), message: "half a".into() }],
        ..nothing_saved()
    };
    let keys = vec!["/ws/one".to_string(), "/ws/two".to_string()];
    let app = App::new(vec![repo("one"), repo("two")], &keys, &saved, 30, false, true);
    assert_eq!(app.panel.active, 1);
    assert!(app.panel.drawers[Drawer::Tags.index()].expanded);
    assert!(!app.panel.drawers[Drawer::Graph.index()].expanded);
    assert_eq!(app.panel.repos[0].message.iter().collect::<String>(), "half a");
    assert_eq!(app.panel.repos[0].cursor, 6);
    assert!(app.panel.selected.is_none() && app.overlay.is_none());
    assert_eq!((app.panel.width, app.height, app.page), (30, 24, 20));
    assert!(!app.merged && app.in_pane);
}

#[test]
fn escape_closes_but_does_not_leave() {
    let escape = Key {
        code: KeyCode::Esc,
        control: false,
        alt: false,
        shift: false,
        meta: false,
        press: true,
    };
    let mut app = app(&["one"]);
    let (effects, exit) = app.on_key(&Vec::new(), escape);
    assert!(exit.is_none());
    assert!(matches!(effects.as_slice(), [Effect::ClosePreview]));
    app.overlay = Some(Overlay::ConfirmDiscardAll { repo: 0 });
    let (effects, exit) = app.on_key(&Vec::new(), escape);
    assert!(exit.is_none() && effects.is_empty() && app.overlay.is_none());
}

#[test]
fn collapsing_all_leaves_the_headers() {
    let mut app = app(&["one", "two"]);
    app.panel.toggle(Row::DrawerHeader(Drawer::Tags));
    app.panel.collapse_all();
    assert_eq!(app.panel.rows.len(), 2 + 8);
    assert!(app.panel.rows.iter().all(|row| matches!(
        row,
        Row::RepoHeader(_) | Row::DrawerHeader(_)
    )));
    let mut lone = self::app(&["one"]);
    lone.panel.collapse_all();
    assert!(lone.panel.rows[0] == Row::StagedHeader(0));
    assert!(lone.panel.rows[1] == Row::ChangesHeader(0));
    assert_eq!(lone.panel.rows.len(), 2 + 8);
}

#[test]
fn the_frame_leaves_the_box_its_lines() {
    let mut app = app(&["one"]);
    for length in [0, 1, 30, 36, 37, 72, 73, 500] {
        app.panel.repos[0].message = vec!['x'; length];
        app.panel.repos[0].cursor = length;
        for focus in [Focus::List, Focus::Message] {
            app.focus = focus;
            let lines = app.message_box(40 - 3 - 1).lines.len();
            assert_eq!(usize::from(app.heights(40, "*").message), 2 + lines, "{length}");
        }
    }
}
