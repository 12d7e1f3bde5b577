//! The Source Control panel as a whole: its rows, its keys and clicks, its
//! message boxes and what it saves.

use herdr_sidebar::geometry::Area;
use herdr_sidebar::git::{FileEntry, Git, Status};
use herdr_sidebar::input::{Key, KeyCode, Mouse, MouseKind};
use herdr_sidebar::scm_app::app::{App, ClickZones, Effect, Focus, Overlay};
use herdr_sidebar::scm_app::drawer::{Drawer, DrawerRef};
use herdr_sidebar::scm_app::frame::hints;
use herdr_sidebar::scm_app::header::{
    changes_header_action_at, changes_header_action_zones, file_hover_action_at,
    file_hover_actions, repo_header_action_zones, repo_header_branch_zone, FileHoverAction,
};
use herdr_sidebar::scm_app::menu::{
    drawer_menu_action, drawer_menu_entries, file_menu_entries, DrawerCommand, MenuAction,
    MenuEntry,
};
use herdr_sidebar::scm_app::message::{
    edit_message, message_placeholder, message_window, wrap_message,
};
use herdr_sidebar::scm_app::panel::Panel;
use herdr_sidebar::scm_app::render::message_box_item;
use herdr_sidebar::scm_app::rows::{
    build_rows, move_target, nearest_selectable, row_height, row_hit_with_heights, BodyGeom, Repo,
    Row,
};
use herdr_sidebar::scm_app::snapshot::{
    cleared_drafts, collect_drafts, diff_kind, persisted_after_save, DiffKind, Draft,
};
use herdr_sidebar::view::{Exit, ViewKind};

// ---- Making things ----

fn entry(path: &str, letter: char) -> FileEntry {
    FileEntry { path: path.into(), orig: None, letter }
}

fn repo(name: &str) -> Repo {
    let mut repo = Repo::new(Git { root: format!("/ws/{name}"), name: name.into() });
    repo.status = Status {
        branch: "main".into(),
        staged: vec![entry("a.rs", 'M')],
        unstaged: vec![entry("b.rs", 'M'), entry("c.rs", 'U')],
        ..Status::default()
    };
    repo
}

fn panel(names: &[&str]) -> Panel {
    let mut panel = Panel::new(names.iter().map(|n| repo(n)).collect(), 40);
    panel.relist();
    panel
}

fn app(names: &[&str]) -> App {
    App {
        panel: panel(names),
        focus: Focus::List,
        flash: None,
        overlay: None,
        hovered: None,
        mouse_pos: None,
        body: BodyGeom { top: 5, height: 20, offset: 0 },
        zones: ClickZones {
            activity_row: 1,
            explorer: (0, 0),
            search: (0, 0),
            source_control: (0, 0),
            gear: Area::empty(),
            message: Area::empty(),
            sparkle: Area::empty(),
            button: Area::empty(),
            sync: Area::empty(),
            header_branch: Area::empty(),
            footer_branch: Area::empty(),
            footer_sync: Area::empty(),
        },
        title_zones: Vec::new(),
        last_click: None,
        last_preview: None,
        page: 10,
        height: 30,
        merged: true,
        in_pane: true,
        syncing: None,
        suggesting: false,
    }
}

fn plain(code: KeyCode) -> Key {
    Key { code, control: false, alt: false, shift: false, meta: false, press: true }
}

fn ctrl(c: char) -> Key {
    Key { control: true, ..plain(KeyCode::Char(c)) }
}

fn press(app: &mut App, key: Key) -> (Vec<Effect>, Option<Exit>) {
    app.on_key(&Vec::new(), key)
}

fn chars(text: &str) -> Vec<char> {
    text.chars().collect()
}

// ---- Rows ----

#[test]
fn one_repository_has_no_header_of_its_own() {
    let panel = panel(&["one"]);
    assert_eq!(panel.rows[0], Row::StagedHeader(0));
    assert!(panel.rows.contains(&Row::Staged(0, 0)));
    assert!(panel.rows.contains(&Row::Unstaged(0, 1)));
    assert_eq!(panel.rows.iter().filter(|r| matches!(r, Row::DrawerHeader(_))).count(), 8);
    let two = self::panel(&["one", "two"]);
    assert_eq!(two.rows[..3], [Row::RepoHeader(0), Row::Message(0), Row::Commit(0)]);
}

#[test]
fn without_repositories_the_drawers_are_left() {
    let rows = build_rows(&Vec::new(), &panel(&[]).drawers);
    assert_eq!(rows.len(), 8);
}

#[test]
fn folding_twice_restores_the_rows() {
    let mut panel = panel(&["one", "two"]);
    let before = build_rows(&panel.repos, &panel.drawers);
    panel.toggle(Row::RepoHeader(0));
    panel.relist();
    assert!(panel.rows.len() < before.len());
    panel.toggle(Row::RepoHeader(0));
    panel.relist();
    assert_eq!(panel.rows, before);
}

#[test]
fn the_keyboard_stops_at_what_can_be_selected() {
    let rows = vec![Row::RepoHeader(0), Row::Message(0), Row::Commit(0), Row::StagedHeader(0)];
    let down = move_target(&rows, Some(0), 1);
    assert!(rows[down].selectable());
    assert_eq!(move_target(&rows, None, 1), 0);
    // The header is closer than the next row that can be selected.
    let open = vec![Row::RepoHeader(0), Row::Message(0), Row::Commit(0), Row::ChangesHeader(0)];
    assert_eq!(nearest_selectable(&open, 1), 0);
    assert_eq!(nearest_selectable(&open, 3), 3);
    // Of two that are as close, the one behind.
    let between = vec![Row::RepoHeader(0), Row::Message(0), Row::ChangesHeader(0)];
    assert_eq!(nearest_selectable(&between, 1), 2);
    assert_eq!(nearest_selectable(&vec![Row::Message(0)], 0), 0);
    // From behind the last row.
    assert_eq!(nearest_selectable(&between, 3), 2);
    assert_eq!(nearest_selectable(&vec![Row::RepoHeader(0), Row::Message(0)], 2), 0);
    assert_eq!(nearest_selectable(&vec![Row::Message(0)], 1), 0);
    assert_eq!(nearest_selectable(&Vec::new(), 0), 0);
    assert_eq!(move_target(&rows, Some(3), 9), 3);
}

#[test]
fn hits_name_the_line_of_a_tall_row() {
    let body = BodyGeom { top: 2, height: 10, offset: 0 };
    let rows = [(0, 1), (1, 3), (2, 1)];
    assert_eq!(row_hit_with_heights(body, 2, &rows), Some((0, 0)));
    assert_eq!(row_hit_with_heights(body, 4, &rows), Some((1, 1)));
    assert_eq!(row_hit_with_heights(body, 6, &rows), Some((2, 0)));
    assert_eq!(row_hit_with_heights(body, 7, &rows), None);
}

#[test]
fn a_message_box_is_as_high_as_its_row() {
    let mut repos = vec![repo("one"), repo("two")];
    repos[0].message = chars(&"x".repeat(80));
    repos[0].cursor = 80;
    for (r, one) in repos.iter().enumerate() {
        let lines = message_box_item(one, true, "✧", 40);
        assert_eq!(lines.len(), row_height(&repos, 40, Row::Message(r)) as usize);
    }
}

#[test]
fn the_wheel_leaves_the_scm_selection() {
    let mut app = app(&["one", "two"]);
    app.panel.select(3);
    let before = app.panel.selected;
    app.on_mouse(0, Mouse { kind: MouseKind::ScrollDown, column: 1, row: 8 }, 0, "x");
    assert_eq!(app.panel.selected, before);
    assert_eq!(app.panel.scroll, 3);
}

#[test]
fn drawing_shows_the_selected_row() {
    let mut app = app(&["one", "two"]);
    let last = app.panel.rows.len() - 1;
    app.panel.select(last);
    let count = app.panel.prepare_list(6);
    assert!(app.panel.scroll <= last && last < app.panel.scroll + count);
    assert!(!app.panel.snap);
}

// ---- The message ----

#[test]
fn wrapped_rows_hold_the_message() {
    let message = chars("abcdefgh");
    let (rows, row, column) = wrap_message(&message, 8, 4);
    assert_eq!(rows, ["abcd", "efgh", ""]);
    assert_eq!((row, column), (2, 0));
    let (rows, row, column) = wrap_message(&message, 5, 3);
    assert_eq!(rows.concat(), "abcdefgh");
    assert_eq!((row, column), (1, 2));
    assert_eq!(wrap_message(&[], 0, 4).0.len(), 1);
    let (top, visible) = message_window(9, 8, true);
    assert!(top <= 8 && 8 < top + visible && top + visible <= 9);
}

#[test]
fn backspace_takes_back_what_was_typed() {
    let mut message = chars("fix");
    let mut cursor = 1;
    edit_message(&mut message, &mut cursor, plain(KeyCode::Char('a')));
    assert_eq!((message.clone(), cursor), (chars("faix"), 2));
    edit_message(&mut message, &mut cursor, plain(KeyCode::Backspace));
    assert_eq!((message.clone(), cursor), (chars("fix"), 1));
    edit_message(&mut message, &mut cursor, plain(KeyCode::Home));
    edit_message(&mut message, &mut cursor, plain(KeyCode::Left));
    assert_eq!(cursor, 0);
    edit_message(&mut message, &mut cursor, plain(KeyCode::End));
    edit_message(&mut message, &mut cursor, plain(KeyCode::Right));
    assert_eq!(cursor, 3);
    edit_message(&mut message, &mut cursor, plain(KeyCode::Delete));
    assert_eq!(message, chars("fix"));
}

#[test]
fn placeholders_say_less_where_there_is_less_room() {
    assert_eq!(message_placeholder("main", 40), "Message (⏎ to commit on \"main\")");
    assert_eq!(message_placeholder("main", 25), "Message (⏎ to commit)");
    assert_eq!(message_placeholder("main", 10), "Message");
    assert_eq!(message_placeholder("main", 3), "");
}

#[test]
fn digits_are_text_in_the_message() {
    let mut app = app(&["one"]);
    app.focus = Focus::Message;
    let (out, exit) = press(&mut app, plain(KeyCode::Char('1')));
    assert!(out.is_empty() && exit.is_none());
    assert_eq!(app.panel.repos[0].message, chars("1"));
    let (out, exit) = press(&mut app, ctrl('1'));
    assert!(matches!(
        out[..],
        [Effect::ShareView { view: ViewKind::Explorer, search: false }]
    ));
    assert_eq!(exit, Some(Exit::Switch));
}

#[test]
fn a_commit_needs_a_message_and_something_staged() {
    let mut app = app(&["one"]);
    assert!(app.commit_repo(0).is_empty());
    assert_eq!(app.flash, Some(("Commit message is empty.".to_string(), true)));
    assert_eq!(app.focus, Focus::Message);
    app.panel.set_message(0, chars(" done "));
    let out = app.commit_repo(0);
    assert!(matches!(&out[..], [Effect::Commit { repo: 0, message }] if message == "done"));
    assert!(app.commit_repo(7).is_empty());
}

// ---- Headers ----

#[test]
fn zones_of_a_header_are_apart() {
    let (sync, commit) = repo_header_action_zones(40);
    assert!(sync.1 <= commit.0);
    let repo = repo("one");
    let branch = repo_header_branch_zone(&repo, "x", 40);
    assert!(branch.1 <= sync.0);
    let zones = changes_header_action_zones(40, 2).unwrap();
    for (action, zone) in zones {
        assert_eq!(changes_header_action_at(zone.0, 40, 2), Some(action));
        assert_eq!(changes_header_action_at(zone.1 - 1, 40, 2), Some(action));
    }
}

#[test]
fn hovered_files_offer_what_fits_them() {
    assert!(!file_hover_actions(true).contains(&FileHoverAction::Stage));
    assert!(!file_hover_actions(false).contains(&FileHoverAction::Unstage));
    for x in 0..40 {
        assert_ne!(file_hover_action_at(x, 40, false), Some(FileHoverAction::Unstage));
        assert_ne!(file_hover_action_at(x, 40, true), Some(FileHoverAction::Discard));
    }
}

// ---- Menus ----

#[test]
fn destructive_entries_ask_first() {
    let stash = DrawerRef::Stash(2);
    let DrawerCommand::Confirm { args, .. } = drawer_menu_action(MenuAction::StashDrop, &stash)
    else {
        panic!("runs at once");
    };
    assert_eq!(args, ["stash", "drop", "stash@{2}"]);
    assert!(matches!(
        drawer_menu_action(MenuAction::StashDrop, &DrawerRef::Nothing),
        DrawerCommand::Ignore
    ));
    let branch = DrawerRef::Branch { name: "x".into(), current: false };
    assert!(matches!(
        drawer_menu_action(MenuAction::DeleteBranch, &branch),
        DrawerCommand::Confirm { .. }
    ));
}

#[test]
fn every_drawer_entry_does_something() {
    for dref in [
        DrawerRef::Commit("abc".into()),
        DrawerRef::Stash(0),
        DrawerRef::Branch { name: "x".into(), current: true },
        DrawerRef::Branch { name: "x".into(), current: false },
        DrawerRef::Remote { name: "origin".into(), url: "u".into() },
        DrawerRef::Tag("v1".into()),
        DrawerRef::Worktree("/w".into()),
    ] {
        for entry in drawer_menu_entries(&dref) {
            if let MenuEntry::Action(action, _) = entry {
                assert!(!matches!(drawer_menu_action(action, &dref), DrawerCommand::Ignore));
            }
        }
    }
    assert!(!file_menu_entries('M', false).is_empty());
}

#[test]
fn prompts_run_on_y_alone() {
    let mut app = app(&["one"]);
    let ask = |app: &mut App| {
        app.overlay = Some(Overlay::ConfirmDiscard { repo: 0, entry: entry("b.rs", 'M') });
    };
    ask(&mut app);
    assert!(press(&mut app, plain(KeyCode::Enter)).0.is_empty());
    assert!(app.overlay.is_none());
    ask(&mut app);
    let (out, _) = press(&mut app, plain(KeyCode::Char('Y')));
    assert!(matches!(&out[..], [Effect::Discard { repo: 0, .. }, Effect::Refresh]));
}

// ---- Drawers ----

#[test]
fn drawers_have_their_places_and_titles() {
    let all = Drawer::all();
    for (i, drawer) in all.iter().enumerate() {
        assert_eq!(drawer.index(), i);
    }
    let mut titles: Vec<&str> = all.iter().map(|d| d.title()).collect();
    titles.sort();
    titles.dedup();
    assert_eq!(titles.len(), 8);
}

#[test]
fn drawers_show_what_was_fetched() {
    let mut panel = panel(&["one"]);
    panel.toggle(Row::DrawerHeader(Drawer::Branches));
    panel.load_drawer(Drawer::Branches, Ok(Vec::new()));
    assert_eq!(panel.drawers[Drawer::Branches.index()].lines, ["(none)"]);
    panel.load_drawer(Drawer::Branches, Err("not a repo".into()));
    assert_eq!(panel.drawers[Drawer::Branches.index()].lines, ["(not a repo)"]);
    panel.load_drawer(Drawer::Branches, Ok(vec!["* main".into(), "  other".into()]));
    assert_eq!(
        panel.drawers[Drawer::Branches.index()].refs,
        [
            DrawerRef::Branch { name: "main".into(), current: true },
            DrawerRef::Branch { name: "other".into(), current: false },
        ]
    );
}

// ---- What is saved ----

#[test]
fn named_rows_are_found_again() {
    let panel = panel(&["one", "two"]);
    for index in 0..panel.rows.len() {
        if let Some(id) = panel.row_stable_id(index) {
            let found = panel.find_row_by_stable_id(&id).unwrap();
            assert!(found <= index);
            assert_eq!(panel.row_stable_id(found), Some(id));
        }
    }
}

#[test]
fn what_is_saved_comes_back() {
    let mut panel = panel(&["one", "two"]);
    panel.toggle(Row::DrawerHeader(Drawer::Tags));
    panel.set_message(1, chars("wip"));
    panel.relist();
    let file = panel.rows.iter().position(|r| *r == Row::Unstaged(1, 0)).unwrap();
    panel.select(file);
    assert_eq!(panel.active, 1);
    let keys = vec!["/ws/one".to_string(), "/ws/two".to_string()];
    let saved = panel.snapshot_scm(&keys, &Vec::new());
    assert_eq!(saved.drawers, [Drawer::Tags.title()]);
    assert_eq!(saved.active_root.as_deref(), Some("/ws/two"));

    let mut again = Panel::new(vec![repo("one"), repo("two")], 40);
    again.restore(&keys, &saved);
    again.relist();
    again.restore_selection(&saved);
    assert_eq!(again.active, 1);
    assert!(again.drawers[Drawer::Tags.index()].expanded);
    assert!(!again.drawers[Drawer::Stashes.index()].expanded);
    assert_eq!(again.repos[1].message, chars("wip"));
    assert!(again.repos[0].message.is_empty());
    assert_eq!(again.rows[again.selected.unwrap()], Row::Unstaged(1, 0));
}

#[test]
fn drafts_of_others_are_never_cleared() {
    let drafts = vec![Draft { root: "/b".into(), message: "x".into() }];
    let strings = |list: &[&str]| list.iter().map(|s| s.to_string()).collect::<Vec<_>>();
    assert_eq!(
        cleared_drafts(&strings(&["/a", "/b"]), &strings(&["/a", "/b", "/c"]), &drafts),
        ["/a"]
    );
    assert!(cleared_drafts(&Vec::new(), &strings(&["/a"]), &Vec::new()).is_empty());
    let kept = persisted_after_save(&strings(&["/a", "/z"]), &strings(&["/a"]), &drafts);
    assert!(kept.contains(&"/b".to_string()) && kept.contains(&"/z".to_string()));
    assert!(!kept.contains(&"/a".to_string()));
    let mut repos = vec![repo("one")];
    assert!(collect_drafts(&repos, &strings(&["/one"])).is_empty());
    repos[0].message = chars("m");
    assert_eq!(collect_drafts(&repos, &strings(&["/one"]))[0].message, "m");
}

#[test]
fn diffs_depend_on_where_the_change_is() {
    assert_eq!(diff_kind('M', true), DiffKind::Staged);
    assert_eq!(diff_kind('U', false), DiffKind::Untracked);
    assert_eq!(diff_kind('M', false), DiffKind::Worktree);
}

#[test]
fn scm_hints_name_the_views_in_a_unified_sidebar() {
    assert_eq!(hints(false).len(), 12);
    assert_eq!(hints(true)[12], ("1", "files"));
    assert_eq!(hints(false)[0], ("⏎", "stage"));
}
