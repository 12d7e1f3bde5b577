//! The Explorer as a whole: keys, clicks, and what comes back from outside.

use std::sync::Arc;

use herdr_sidebar::chrome::{activity_bar, activity_text, ActivityTexts};
use herdr_sidebar::explorer_app::app::{
    App, ClickZones, Effect, Folder, Mode, Overlay, PromptKind, RepoState, Screen, Target,
};
use herdr_sidebar::explorer_app::deco::{
    status_step, IgnoredFiles, IgnoredRead, StatusStep, IGNORED_BACKOFF_MS,
};
use herdr_sidebar::explorer_app::frame::{header, hints};
use herdr_sidebar::explorer_app::hits::ContentHit;
use herdr_sidebar::explorer_app::menus::expand_home;
use herdr_sidebar::explorer_app::outcomes::{prompt_line, Staged};
use herdr_sidebar::explorer_app::panel::{SearchFocus, SearchPanel, SearchResult, SearchZones};
use herdr_sidebar::explorer_app::panel_view::{
    result_rows, result_zones, results_start, search_layout,
};
use herdr_sidebar::explorer_app::paths::{is_under, relative_path};
use herdr_sidebar::explorer_app::quick::QuickFile;
use herdr_sidebar::explorer_app::quick_open::{quick_layout, quick_line, QuickIndex};
use herdr_sidebar::explorer_app::search::SearchOptions;
use herdr_sidebar::explorer_app::tree::{Row, TreeList};
use herdr_sidebar::geometry::Area;
use herdr_sidebar::input::{Key, KeyCode, Mouse, MouseKind};
use herdr_sidebar::scm_app::rows::BodyGeom;
use herdr_sidebar::sections::{footer_line, message_line};
use herdr_sidebar::settings::{IconTheme, Setting, SettingRow, SettingStep};
use herdr_sidebar::view::{Exit, TitleAction, ViewKind};

// ---- Making things ----

fn dir(path: &str, folder: &str, depth: usize, expanded: bool) -> Row {
    Row {
        path: path.into(),
        name: path.rsplit('/').next().unwrap().into(),
        folder: folder.into(),
        is_dir: true,
        depth,
        expanded,
    }
}

fn file(path: &str, folder: &str, depth: usize) -> Row {
    Row {
        path: path.into(),
        name: path.rsplit('/').next().unwrap().into(),
        folder: folder.into(),
        is_dir: false,
        depth,
        expanded: false,
    }
}

/// `/ws` with an expanded and a collapsed folder, and two files.
fn rows() -> Vec<Row> {
    vec![
        dir("/ws/src", "/ws", 0, true),
        file("/ws/src/main.rs", "/ws/src", 1),
        dir("/ws/tests", "/ws", 0, false),
        file("/ws/README.md", "/ws", 0),
    ]
}

fn app() -> App {
    App {
        list: TreeList {
            rows: rows(),
            selected: None,
            scroll: 0,
            snap: false,
            hovered: None,
            body: BodyGeom { top: 4, height: 10, offset: 0 },
        },
        folder: Folder { root: "/ws".into(), root_name: "ws".into(), show_hidden: false },
        overlay: None,
        suspended: None,
        notice: None,
        mode: Mode {
            merged: true,
            in_pane: true,
            native_picker: false,
            editor_on_click: false,
            backslash: false,
        },
        repo: RepoState { present: true, upstream: Some(true), syncing: false },
        screen: Screen {
            page: 9,
            width: 30,
            height: 20,
            zones: ClickZones {
                activity_row: 1,
                explorer: (1, 5),
                search: (6, 10),
                source_control: (11, 15),
                gear: Area::new(27, 0, 3, 3),
                footer_branch: Area::new(0, 19, 10, 1),
                footer_sync: Area::new(10, 19, 5, 1),
            },
            title_zones: vec![(Area::new(20, 3, 2, 1), TitleAction::Refresh)],
            search_zones: SearchZones::nowhere(),
            result_rows: Vec::new(),
            mouse_pos: None,
        },
        picking: false,
        last_click: None,
        last_preview: None,
        index: None,
        indexing: false,
        searching: false,
        search_scroll: 0,
        search_snap: false,
    }
}

fn plain(code: KeyCode) -> Key {
    Key { code, control: false, alt: false, shift: false, meta: false, press: true }
}

fn ctrl(c: char) -> Key {
    Key { control: true, ..plain(KeyCode::Char(c)) }
}

fn alt(c: char) -> Key {
    Key { alt: true, ..plain(KeyCode::Char(c)) }
}

fn press(app: &mut App, key: Key) -> (Vec<Effect>, Option<Exit>) {
    app.on_key(&Vec::new(), key, 1_000)
}

fn type_text(app: &mut App, text: &str) {
    for c in text.chars() {
        let (out, exit) = press(app, plain(KeyCode::Char(c)));
        assert!(out.is_empty());
        assert!(exit.is_none());
    }
}

fn at(kind: MouseKind, column: u16, row: u16) -> Mouse {
    Mouse { kind, column, row }
}

fn click(app: &mut App, column: u16, row: u16, now: u64) -> (Vec<Effect>, Option<Exit>) {
    app.on_mouse(0, at(MouseKind::LeftDown, column, row), now)
}

fn panel(app: &App) -> &SearchPanel {
    match &app.overlay {
        Some(Overlay::Search(panel)) => panel,
        _ => panic!("the search is not shown"),
    }
}

fn hit(label: &str, line: usize, context: &str) -> ContentHit {
    ContentHit {
        path: format!("/ws/{label}"),
        label: label.into(),
        line,
        context: context.into(),
        matches: Vec::new(),
    }
}

fn result(app: &App, hits: Vec<ContentHit>) -> SearchResult {
    let panel = panel(app);
    SearchResult {
        root: app.folder.root.clone(),
        show_hidden: app.folder.show_hidden,
        query: panel.query.clone(),
        files_in: panel.files_in.clone(),
        files_out: panel.files_out.clone(),
        options: panel.options,
        hits,
        truncated: false,
        error: None,
    }
}

fn quick_file(label: &str) -> QuickFile {
    QuickFile {
        path: format!("/ws/{label}"),
        label: label.into(),
        label_lower: label.to_lowercase(),
    }
}

fn index(labels: &[&str]) -> QuickIndex {
    QuickIndex {
        root: "/ws".into(),
        show_hidden: false,
        files: Arc::new(labels.iter().map(|l| quick_file(l)).collect()),
        truncated: false,
    }
}

// ---- The tree ----

#[test]
fn the_first_step_selects_the_first_row() {
    let mut app = app();
    let (out, _) = press(&mut app, plain(KeyCode::Down));
    assert!(matches!(out[..], [Effect::Persist]));
    assert_eq!(app.list.selected, Some(0));
    press(&mut app, plain(KeyCode::Char('j')));
    assert_eq!(app.list.selected, Some(1));
    press(&mut app, plain(KeyCode::PageDown));
    assert_eq!(app.list.selected, Some(3));
    press(&mut app, plain(KeyCode::Home));
    assert_eq!(app.list.selected, Some(0));
    press(&mut app, plain(KeyCode::Up));
    assert_eq!(app.list.selected, Some(0));
    press(&mut app, plain(KeyCode::Char('G')));
    assert_eq!(app.list.selected, Some(3));
}

#[test]
fn an_empty_tree_has_nothing_to_select() {
    let mut app = app();
    app.list.rows = Vec::new();
    let (out, _) = press(&mut app, plain(KeyCode::Down));
    assert!(out.is_empty());
    assert_eq!(app.list.selected, None);
}

#[test]
fn right_goes_in_and_left_comes_back() {
    let mut app = app();
    app.list.selected = Some(0);
    press(&mut app, plain(KeyCode::Right));
    assert_eq!(app.list.selected, Some(1));
    press(&mut app, plain(KeyCode::Left));
    assert_eq!(app.list.selected, Some(0));
    let (out, _) = press(&mut app, plain(KeyCode::Char('h')));
    assert!(matches!(&out[..], [Effect::Collapse(p), Effect::ListRows] if p == "/ws/src"));
    app.list.selected = Some(2);
    let (out, _) = press(&mut app, plain(KeyCode::Char('l')));
    assert!(matches!(&out[..], [Effect::Expand(p), Effect::ListRows] if p == "/ws/tests"));
    app.list.selected = Some(3);
    assert!(press(&mut app, plain(KeyCode::Right)).0.is_empty());
    assert!(press(&mut app, plain(KeyCode::Left)).0.is_empty());
}

#[test]
fn enter_toggles_folders_and_shows_files() {
    let mut app = app();
    app.list.selected = Some(0);
    let (out, _) = press(&mut app, plain(KeyCode::Enter));
    assert!(matches!(&out[..], [Effect::Toggle(p), Effect::ListRows] if p == "/ws/src"));
    app.list.selected = Some(3);
    let (out, _) = press(&mut app, plain(KeyCode::Char(' ')));
    assert!(
        matches!(&out[..], [Effect::Preview { path, line: None }] if path == "/ws/README.md")
    );
    app.mode.in_pane = false;
    let (out, _) = press(&mut app, plain(KeyCode::Enter));
    assert!(out.is_empty());
    assert_eq!(app.notice.as_deref(), Some("preview needs a herdr pane"));
}

#[test]
fn rebuilds_keep_the_selected_path() {
    let mut app = app();
    app.list.selected = Some(3);
    app.list.scroll = 3;
    let mut fewer = rows();
    fewer.remove(1);
    let out = app.rebuilt(fewer);
    assert!(matches!(out[..], [Effect::Persist]));
    assert_eq!(app.list.selected, Some(2));
    assert_eq!(app.list.rows[2].path, "/ws/README.md");
    assert_eq!(app.list.scroll, 2);
    app.rebuilt(vec![file("/ws/other", "/ws", 0)]);
    assert_eq!(app.list.selected, Some(0));
    app.rebuilt(Vec::new());
    assert_eq!(app.list.selected, None);
    assert_eq!(app.list.scroll, 0);
}

#[test]
fn draws_bring_the_selection_onto_the_screen() {
    let mut app = app();
    app.list.rows = (0..50).map(|i| file(&format!("/ws/f{i}"), "/ws", 0)).collect();
    app.select(30);
    app.prepare_tree(30, 20, Area::new(0, 4, 30, 10));
    assert_eq!(app.list.scroll, 21);
    assert_eq!(app.list.body, BodyGeom { top: 4, height: 10, offset: 21 });
    assert_eq!(app.screen.page, 9);
    assert!(!app.list.snap);
    // The wheel leaves the selection.
    app.on_mouse(0, at(MouseKind::ScrollUp, 3, 5), 0);
    assert_eq!(app.list.scroll, 18);
    assert_eq!(app.list.selected, Some(30));
    app.list.scroll = 49;
    app.prepare_tree(30, 20, Area::new(0, 4, 30, 10));
    assert_eq!(app.list.scroll, 40);
}

#[test]
fn other_sidebars_selections_are_adopted_once() {
    let mut app = app();
    assert!(app.list.apply_shared_tree_state(None, Some("/ws/tests")));
    assert_eq!(app.list.selected, Some(2));
    assert!(app.list.snap);
    assert!(!app.list.apply_shared_tree_state(None, Some("/ws/tests")));
    // A path that is not there leaves the own selection.
    assert!(!app.list.apply_shared_tree_state(None, Some("/ws/gone")));
    assert!(app.list.apply_shared_tree_state(None, None));
    assert_eq!(app.list.selected, None);
}

#[test]
fn paths_lie_under_whole_components() {
    assert!(is_under("/ws", "/ws", false));
    assert!(is_under("/ws", "/ws/src", false));
    assert!(is_under("/", "/ws", false));
    assert!(is_under("/ws/", "/ws//./src", false));
    assert!(is_under("", "/ws", false));
    assert!(!is_under("/ws", "/wsx", false));
    assert!(!is_under("/ws", "/w", false));
    assert!(!is_under("/ws", "ws/src", false));
    assert!(!is_under("./a", "a/b", false));
    assert!(!is_under("/ws/src", "/ws", false));
    let below = |root: &str, path: &str| relative_path(root, path, false);
    assert_eq!(below("/ws", "/ws/src/main.rs"), "src/main.rs");
    assert_eq!(below("/ws", "/other/x"), "/other/x");
    assert_eq!(below("/", "/x"), "x");
    assert_eq!(below("/ws", "/ws"), "");
    assert_eq!(below("/ws", "/ws//a/./b/"), "a/./b");
    assert_eq!(below("", "/a/"), "/a");
}

#[test]
fn a_backslash_separates_names_on_one_system_only() {
    assert!(!is_under("/ws", "/ws\\x", false));
    assert_eq!(relative_path("/ws", "/ws\\x", false), "/ws\\x");
    assert!(is_under("C:\\ws", "C:\\ws\\src\\a.rs", true));
    assert_eq!(relative_path("C:\\ws", "C:\\ws\\src\\a.rs", true), "src\\a.rs");
    assert!(!is_under("C:\\ws", "C:\\wsx", true));
}

#[test]
fn refreshing_drops_what_quick_open_lists() {
    let mut app = app();
    app.index = Some(index(&["a"]));
    let (out, _) = press(&mut app, plain(KeyCode::Char('r')));
    assert!(matches!(out[..], [Effect::Reread, Effect::Rediscover, Effect::ListRows]));
    assert!(app.index.is_none());
    let (out, _) = press(&mut app, plain(KeyCode::Char('.')));
    assert!(matches!(out[..], [Effect::ListRows]));
    assert!(app.folder.show_hidden);
}

#[test]
fn keys_of_the_tree_end_or_leave_it() {
    let mut app = app();
    assert_eq!(press(&mut app, plain(KeyCode::Char('q'))).1, Some(Exit::Quit));
    let (out, exit) = press(&mut app, plain(KeyCode::Char('3')));
    assert_eq!(exit, Some(Exit::Switch));
    assert!(matches!(
        out[..],
        [Effect::ShareView { view: ViewKind::SourceControl, search: false }]
    ));
    app.mode.merged = false;
    let (out, exit) = press(&mut app, plain(KeyCode::Char('3')));
    assert!(out.is_empty() && exit.is_none());
    let (out, exit) = press(&mut app, plain(KeyCode::Esc));
    assert!(matches!(out[..], [Effect::ClosePreview]) && exit.is_none());
    assert!(matches!(
        press(&mut app, plain(KeyCode::Char('b'))).0[..],
        [Effect::Close { snooze: true }]
    ));
    assert!(matches!(press(&mut app, ctrl('q')).0[..], [Effect::Close { snooze: false }]));
    let release = Key { press: false, ..plain(KeyCode::Char('q')) };
    assert!(press(&mut app, release).1.is_none());
}

// ---- Clicks ----

#[test]
fn a_double_click_on_a_folder_does_not_undo_itself() {
    let mut app = app();
    let (out, _) = click(&mut app, 5, 4, 1_000);
    assert!(matches!(
        &out[..],
        [Effect::Persist, Effect::Toggle(p), Effect::ListRows] if p == "/ws/src"
    ));
    let (out, _) = click(&mut app, 5, 4, 1_200);
    assert!(matches!(out[..], [Effect::Persist]));
    // The arrow always counts.
    let (out, _) = click(&mut app, 1, 4, 1_300);
    assert_eq!(out.len(), 3);
}

#[test]
fn a_double_click_keeps_the_preview_of_the_first() {
    let mut app = app();
    let (out, _) = click(&mut app, 5, 7, 1_000);
    assert!(matches!(
        &out[..],
        [Effect::Persist, Effect::Preview { path, line: None }] if path == "/ws/README.md"
    ));
    app.previewed("/ws/README.md".into(), Ok(()));
    let (out, _) = click(&mut app, 5, 7, 1_449);
    assert!(matches!(&out[..], [Effect::Persist, Effect::Pin(p)] if p == "/ws/README.md"));
    app.pinned(false);
    assert_eq!(
        app.notice.as_deref(),
        Some("preview switch blocked; resolve unsaved changes in its tab")
    );
    // Too late for a double click.
    let (out, _) = click(&mut app, 5, 7, 1_899);
    assert!(matches!(out[..], [Effect::Persist, Effect::Preview { .. }]));
    app.previewed("/ws/x".into(), Err("no viewer".into()));
    assert_eq!(app.notice.as_deref(), Some("no viewer"));
}

#[test]
fn the_editor_takes_clicks_where_it_is_asked_to() {
    let mut app = app();
    app.mode.editor_on_click = true;
    let (out, _) = click(&mut app, 5, 7, 1_000);
    assert!(matches!(&out[..], [Effect::Persist, Effect::OpenEditor(p)] if p == "/ws/README.md"));
    let (out, _) = click(&mut app, 5, 7, 1_100);
    assert!(matches!(out[..], [Effect::Persist]));
    app.editor_opened("README.md", Ok(()));
    assert_eq!(app.notice.as_deref(), Some("opened in custom editor: README.md"));
    app.editor_opened("README.md", Err("gone".into()));
    assert_eq!(app.notice.as_deref(), Some("custom editor failed: gone"));
    app.mode.in_pane = false;
    let (out, _) = click(&mut app, 5, 7, 9_000);
    assert!(matches!(out[..], [Effect::Persist]));
    assert_eq!(app.notice.as_deref(), Some("custom editor needs a herdr pane"));
}

#[test]
fn empty_space_clears_the_selection() {
    let mut app = app();
    app.select(1);
    let (out, _) = click(&mut app, 5, 12, 1_000);
    assert!(matches!(out[..], [Effect::Persist]));
    assert_eq!(app.list.selected, None);
    assert!(click(&mut app, 5, 12, 1_000).0.is_empty());
}

#[test]
fn the_frame_takes_its_clicks() {
    let mut app = app();
    assert!(matches!(click(&mut app, 20, 3, 0).0[..], [
        Effect::Reread,
        Effect::Rediscover,
        Effect::ListRows
    ]));
    assert!(matches!(click(&mut app, 28, 19, 0).0[..], [Effect::Close { snooze: true }]));
    assert!(matches!(click(&mut app, 3, 19, 0).0[..], [Effect::PickBranch]));
    assert!(matches!(click(&mut app, 12, 19, 0).0[..], [Effect::Sync]));
    assert!(app.repo.syncing);
    assert!(click(&mut app, 12, 19, 0).0.is_empty());
    assert_eq!(click(&mut app, 12, 1, 0).1, Some(Exit::Switch));
    click(&mut app, 7, 2, 0);
    assert!(app.is_searching());
    assert!(matches!(click(&mut app, 2, 0, 0).0[..], [Effect::ShareSearch(false)]));
    assert!(app.overlay.is_none());
    click(&mut app, 28, 1, 0);
    assert!(matches!(app.overlay, Some(Overlay::Settings { selected: 0, .. })));
}

#[test]
fn hovering_marks_a_row_and_the_mouse_is_remembered() {
    let mut app = app();
    app.on_mouse(0, at(MouseKind::Moved, 8, 6), 0);
    assert_eq!(app.list.hovered, Some(2));
    assert_eq!(app.screen.mouse_pos, Some((8, 6)));
    app.on_mouse(0, at(MouseKind::Moved, 8, 13), 0);
    assert_eq!(app.list.hovered, None);
}

// ---- The menu ----

#[test]
fn the_menu_is_about_the_row_under_the_mouse() {
    let mut app = app();
    let (out, _) = app.on_mouse(0, at(MouseKind::RightDown, 6, 5), 0);
    assert_eq!(app.list.selected, Some(1));
    let mut out = out;
    assert_eq!(out.len(), 2);
    let Some(Effect::AskMenu { x: 6, y: 5, target: Some(target) }) = out.pop() else {
        panic!("no menu");
    };
    assert_eq!(target.path, "/ws/src/main.rs");
    assert_eq!(target.folder, "/ws/src");
    app.show_menu(6, 5, Some(target), true);
    let Some(Overlay::Menu { entries, selected: 0, .. }) = &app.overlay else {
        panic!("no menu");
    };
    assert_eq!(entries.len(), 17);
    // A click beside it closes it.
    click(&mut app, 29, 15, 0);
    assert!(app.overlay.is_none());
    let (out, _) = app.on_mouse(0, at(MouseKind::RightDown, 6, 13), 0);
    assert!(matches!(out[..], [Effect::AskMenu { x: 6, y: 13, target: None }]));
}

#[test]
fn the_keyboard_opens_the_menu_at_the_selection() {
    let mut app = app();
    app.list.selected = Some(1);
    let (out, _) = press(&mut app, plain(KeyCode::Char('m')));
    assert!(matches!(
        &out[..],
        [Effect::AskMenu { x: 2, y: 5, target: Some(t) }] if t.name == "main.rs"
    ));
    app.list.selected = None;
    let (out, _) = press(&mut app, plain(KeyCode::Char('m')));
    assert!(matches!(out[..], [Effect::AskMenu { x: 0, y: 4, target: None }]));
}

fn target() -> Target {
    Target {
        path: "/ws/src/main.rs".into(),
        name: "main.rs".into(),
        folder: "/ws/src".into(),
        is_dir: false,
    }
}

/// Run the entry with a label.
fn run_entry(app: &mut App, label: &str) -> Vec<Effect> {
    let Some(Overlay::Menu { entries, selected, .. }) = &mut app.overlay else {
        panic!("no menu");
    };
    *selected = entries
        .iter()
        .position(|e| {
            matches!(e, herdr_sidebar::actions::menu::MenuEntry::Action(_, l) if *l == label)
        })
        .unwrap();
    press(app, plain(KeyCode::Enter)).0
}

#[test]
fn entries_of_the_menu_ask_for_what_they_say() {
    let mut app = app();
    app.show_menu(0, 0, Some(target()), true);
    assert!(matches!(&run_entry(&mut app, "Copy Path")[..], [Effect::Copy(t)] if t == "/ws/src/main.rs"));
    assert!(app.overlay.is_none());
    app.show_menu(0, 0, Some(target()), true);
    assert!(
        matches!(&run_entry(&mut app, "Copy Relative Path")[..], [Effect::Copy(t)] if t == "src/main.rs")
    );
    app.show_menu(0, 0, Some(target()), true);
    assert!(matches!(
        &run_entry(&mut app, "Stage Changes")[..],
        [Effect::Stage { path, name }] if path == "/ws/src/main.rs" && name == "main.rs"
    ));
    app.show_menu(0, 0, Some(target()), true);
    assert!(matches!(
        &run_entry(&mut app, "Open with Default App")[..],
        [Effect::OpenExternal { name, .. }] if name == "main.rs"
    ));
    app.show_menu(0, 0, None, false);
    assert!(matches!(
        &run_entry(&mut app, "Reveal in File Explorer")[..],
        [Effect::Reveal { path, directory: true }] if path == "/ws"
    ));
}

#[test]
fn something_new_goes_beside_the_file() {
    let mut app = app();
    app.show_menu(0, 0, Some(target()), false);
    assert!(run_entry(&mut app, "New File…").is_empty());
    type_text(&mut app, " lib.rs ");
    let (out, _) = press(&mut app, plain(KeyCode::Enter));
    assert!(matches!(
        &out[..],
        [Effect::CreateFile { folder, name }] if folder == "/ws/src" && name == "lib.rs"
    ));
    let out = app.created(Some("/ws/src".into()), Ok("/ws/src/lib.rs".into()));
    assert!(matches!(
        &out[..],
        [
            Effect::Expand(_),
            Effect::Reread,
            Effect::Rediscover,
            Effect::ListRows,
            Effect::SelectPath(p)
        ] if p == "/ws/src/lib.rs"
    ));
    assert!(app.created(None, Err("denied".into())).is_empty());
    assert_eq!(app.notice.as_deref(), Some("failed: denied"));
}

#[test]
fn bad_names_are_refused() {
    let mut app = app();
    app.title_action(TitleAction::NewFolder);
    let Some(Overlay::Prompt { title, kind: PromptKind::NewFolder(folder), .. }) = &app.overlay
    else {
        panic!("no prompt");
    };
    assert_eq!(*title, "New folder");
    assert_eq!(folder, "/ws");
    type_text(&mut app, "a/b");
    assert!(press(&mut app, plain(KeyCode::Enter)).0.is_empty());
    assert_eq!(app.notice.as_deref(), Some("invalid name"));
    assert!(app.overlay.is_none());
}

#[test]
fn renames_start_from_the_name() {
    let mut app = app();
    app.show_menu(0, 0, Some(target()), false);
    run_entry(&mut app, "Rename…");
    press(&mut app, plain(KeyCode::Backspace));
    let (out, _) = press(&mut app, plain(KeyCode::Enter));
    assert!(matches!(
        &out[..],
        [Effect::Rename { path, name }] if path == "/ws/src/main.rs" && name == "main.r"
    ));
}

#[test]
fn only_y_deletes() {
    let mut app = app();
    app.show_menu(0, 0, Some(target()), false);
    assert!(run_entry(&mut app, "Delete").is_empty());
    assert_eq!(
        app.footer_message(),
        Some(("Delete 'main.rs' permanently? (y/N)".to_string(), true))
    );
    assert!(press(&mut app, plain(KeyCode::Enter)).0.is_empty());
    assert!(app.overlay.is_none());
    app.show_menu(0, 0, Some(target()), false);
    run_entry(&mut app, "Delete");
    // A click is no answer.
    assert!(click(&mut app, 5, 5, 0).0.is_empty());
    let (out, _) = press(&mut app, plain(KeyCode::Char('y')));
    assert!(matches!(
        &out[..],
        [Effect::Delete { path, is_dir: false }] if path == "/ws/src/main.rs"
    ));
    assert!(app.deleted(Err("busy".into())).is_empty());
    assert_eq!(app.notice.as_deref(), Some("delete failed: busy"));
    assert_eq!(app.deleted(Ok(())).len(), 3);
}

// ---- Folders ----

#[test]
fn folders_are_typed_where_there_is_no_picker() {
    let mut app = app();
    assert!(press(&mut app, plain(KeyCode::Char('c'))).0.is_empty());
    let Some(Overlay::Prompt { title, input, kind: PromptKind::ChangeFolder }) = &app.overlay
    else {
        panic!("no prompt");
    };
    assert_eq!((*title, input.as_str()), ("Folder", "/ws"));
    type_text(&mut app, "/src ");
    let (out, _) = press(&mut app, plain(KeyCode::Enter));
    assert!(matches!(&out[..], [Effect::ChangeFolder(p)] if p == "/ws/src"));
    assert!(app.change_folder("  ").is_empty());
    assert_eq!(app.notice.as_deref(), Some("empty path"));
    app.folder_refused("x");
    assert_eq!(app.notice.as_deref(), Some("not a folder: x"));
    assert_eq!(expand_home("~/x", "/home/me"), "/home/me/x");
    assert_eq!(expand_home("x~", "/home/me"), "x~");
}

#[test]
fn one_folder_picker_at_a_time() {
    let mut app = app();
    app.mode.native_picker = true;
    assert!(matches!(app.change_folder_dialog()[..], [Effect::PickFolder]));
    assert_eq!(
        app.notice.as_deref(),
        Some("folder picker open… (check your other windows)")
    );
    assert!(app.change_folder_dialog().is_empty());
    assert!(!app.may_follow(true));
    let out = app.poll_picker(Ok(Some("/other".into())));
    assert!(matches!(&out[..], [Effect::ChangeFolder(p)] if p == "/other"));
    assert!(app.may_follow(true));
    assert!(!app.may_follow(false));
    assert!(app.poll_picker(Ok(None)).is_empty());
    app.change_folder_dialog();
    assert!(app.poll_picker(Ok(None)).is_empty());
    assert_eq!(app.notice, None);
    app.change_folder_dialog();
    assert!(app.poll_picker(Err(())).is_empty());
    assert!(!app.picking);
}

// ---- What is said of how things went ----

#[test]
fn staging_says_what_it_did() {
    let mut app = app();
    let done = |count, skipped| Ok(Staged { count, skipped, repo: "ws".into() });
    assert!(matches!(app.staged("src", done(0, 2))[..], [Effect::ReadStatus]));
    assert_eq!(
        app.notice.as_deref(),
        Some("src: nothing staged — 2 path(s) belong to a nested repo")
    );
    app.staged("src", done(0, 0));
    assert_eq!(app.notice.as_deref(), Some("nothing to stage in src"));
    app.staged("src", done(1, 0));
    assert_eq!(app.notice.as_deref(), Some("staged src in ws"));
    app.staged("src", done(12, 1));
    assert_eq!(app.notice.as_deref(), Some("staged 12 paths under src in ws"));
    app.staged("src", Err("locked".into()));
    assert_eq!(app.notice.as_deref(), Some("stage failed: locked"));
}

#[test]
fn outcomes_are_told_in_the_footer() {
    let mut app = app();
    app.copied("/ws/x", Ok(()));
    assert_eq!(app.notice.as_deref(), Some("copied: /ws/x"));
    app.copied("/ws/x", Err("no clipboard".into()));
    assert_eq!(app.notice.as_deref(), Some("copy failed: no clipboard"));
    app.opened("x", Ok(()));
    assert_eq!(app.notice.as_deref(), Some("opened: x"));
    app.opened("x", Err("none".into()));
    assert_eq!(app.notice.as_deref(), Some("open failed: none"));
    app.editor_saved(true);
    assert_eq!(
        app.notice.as_deref(),
        Some("custom editor saved; Enter still previews files")
    );
    app.editor_saved(false);
    assert_eq!(
        app.notice.as_deref(),
        Some("custom editor command must be one non-empty line")
    );
    app.unify_failed(Some("busy"));
    assert_eq!(app.notice.as_deref(), Some("unified mode cancelled: busy"));
    app.unify_failed(None);
    assert_eq!(
        app.notice.as_deref(),
        Some("Source Control stayed open; unified mode cancelled")
    );
    // The next key takes it away.
    press(&mut app, plain(KeyCode::Down));
    assert_eq!(app.notice, None);
}

#[test]
fn a_sync_needs_an_upstream() {
    let mut app = app();
    app.repo.upstream = Some(false);
    assert!(app.sync_git_footer().is_empty());
    assert_eq!(app.notice.as_deref(), Some("no upstream to sync with"));
    app.repo.upstream = None;
    assert!(app.sync_git_footer().is_empty());
    app.repo.upstream = Some(true);
    assert!(matches!(app.sync_git_footer()[..], [Effect::Sync]));
    assert!(matches!(app.collect_git_sync(Ok("up to date".into()))[..], [Effect::ReadStatus]));
    assert_eq!(app.notice.as_deref(), Some("up to date"));
    app.sync_git_footer();
    app.collect_git_sync(Err(Some("rejected".into())));
    assert_eq!(app.notice.as_deref(), Some("rejected"));
    app.sync_git_footer();
    app.collect_git_sync(Err(None));
    assert_eq!(app.notice.as_deref(), Some("sync failed"));
    assert!(!app.repo.syncing);
}

#[test]
fn branches_are_checked_out_over_a_parked_search() {
    let mut app = app();
    app.open_content_search(true);
    type_text(&mut app, "x");
    app.branches_listed(Ok(()));
    assert!(matches!(app.overlay, Some(Overlay::BranchPicker)));
    assert!(matches!(press(&mut app, plain(KeyCode::Down)).0[..], [Effect::ToPicker]));
    let out = app.checked_out("main", Ok(()));
    assert_eq!(out.len(), 3);
    assert_eq!(app.notice.as_deref(), Some("switched to main"));
    assert_eq!(panel(&app).query, "x");
    app.branches_listed(Err("no git".into()));
    assert_eq!(app.notice.as_deref(), Some("no git"));
    app.branches_listed(Ok(()));
    app.picker_closed();
    assert_eq!(panel(&app).query, "x");
}

// ---- Settings ----

fn setting_rows() -> Vec<SettingRow> {
    vec![
        SettingRow {
            setting: Setting::SidebarWidth,
            label: "Sidebar width",
            value: "32 cols".into(),
            enabled: true,
        },
        SettingRow {
            setting: Setting::HiddenFiles,
            label: "Hidden files",
            value: "hidden".into(),
            enabled: true,
        },
    ]
}

#[test]
fn closing_the_settings_resumes_the_search() {
    let mut app = app();
    press(&mut app, ctrl('f'));
    type_text(&mut app, "needle");
    click(&mut app, 28, 1, 0);
    assert!(matches!(app.overlay, Some(Overlay::Settings { .. })));
    let rows = setting_rows();
    let (out, _) = app.on_key(&rows, plain(KeyCode::Left), 0);
    assert!(matches!(out[..], [Effect::AdjustWidth(false)]));
    app.on_key(&rows, plain(KeyCode::Down), 0);
    let (out, _) = app.on_key(&rows, plain(KeyCode::Enter), 0);
    assert!(matches!(out[..], [Effect::ToggleSetting(1)]));
    let (out, _) = app.on_key(&rows, plain(KeyCode::Esc), 0);
    assert!(out.is_empty());
    assert_eq!(panel(&app).query, "needle");
    assert!(app.suspended.is_none());
}

#[test]
fn a_click_beside_the_settings_resumes_the_search() {
    let mut app = app();
    press(&mut app, ctrl('f'));
    type_text(&mut app, "needle");
    click(&mut app, 28, 1, 0);
    let Some(Overlay::Settings { rect, .. }) = &mut app.overlay else {
        panic!("no settings");
    };
    *rect = Area::new(5, 5, 10, 6);
    let (out, _) = click(&mut app, 1, 12, 0);
    assert!(out.is_empty());
    assert_eq!(panel(&app).query, "needle");
    assert!(app.suspended.is_none());
}

#[test]
fn saving_the_editor_resumes_the_search() {
    let mut app = app();
    press(&mut app, ctrl('f'));
    type_text(&mut app, "needle");
    click(&mut app, 28, 1, 0);
    app.setting_changed(SettingStep::AskEditor, Some("vim".into()));
    let (out, _) = press(&mut app, plain(KeyCode::Enter));
    assert!(matches!(&out[..], [Effect::SaveEditor(c)] if c == "vim"));
    assert_eq!(panel(&app).query, "needle");
    assert!(app.suspended.is_none());
}

#[test]
fn settings_change_what_is_shown() {
    let mut app = app();
    app.open_settings();
    let out = app.setting_changed(SettingStep::Flip(Setting::HiddenFiles), None);
    assert!(matches!(out[..], [Effect::ListRows]));
    assert!(app.folder.show_hidden);
    let out = app.setting_changed(SettingStep::Flip(Setting::GitFooter), None);
    assert!(matches!(out[..], [Effect::Rediscover]));
    app.setting_changed(SettingStep::AskEditor, Some("vim".into()));
    type_text(&mut app, " -p");
    let (out, _) = press(&mut app, plain(KeyCode::Enter));
    assert!(matches!(&out[..], [Effect::SaveEditor(c)] if c == "vim -p"));
    app.open_settings();
    app.setting_changed(SettingStep::ChooseFolder, None);
    assert!(matches!(app.overlay, Some(Overlay::Prompt { kind: PromptKind::ChangeFolder, .. })));
    app.open_settings();
    app.setting_changed(SettingStep::SetUnified(true), None);
    assert!(app.overlay.is_none());
}

// ---- Quick open ----

#[test]
fn quick_open_lists_the_files_once() {
    let mut app = app();
    let (out, _) = press(&mut app, ctrl('p'));
    assert!(matches!(out[..], [Effect::ListFiles]));
    type_text(&mut app, "rd");
    app.collect_quick_index(index(&["src/main.rs", "README.md"]));
    let Some(Overlay::QuickOpen(quick)) = &app.overlay else {
        panic!("no quick open");
    };
    assert_eq!(quick.matches, vec![1]);
    assert!(!quick.loading);
    assert_eq!(quick.status(), "1 matches");
    press(&mut app, plain(KeyCode::Backspace));
    press(&mut app, plain(KeyCode::Backspace));
    press(&mut app, plain(KeyCode::Down));
    let (out, _) = press(&mut app, plain(KeyCode::Enter));
    assert!(matches!(&out[..], [Effect::Preview { path, .. }] if path == "/ws/README.md"));
    assert!(app.overlay.is_none());
    // The listing is kept.
    let (out, _) = press(&mut app, plain(KeyCode::F(12)));
    assert!(out.is_empty());
    let Some(Overlay::QuickOpen(quick)) = &app.overlay else {
        panic!("no quick open");
    };
    assert_eq!(quick.matches, vec![0, 1]);
}

#[test]
fn listings_of_other_folders_are_dropped() {
    let mut app = app();
    app.open_quick_open();
    app.collect_quick_index(QuickIndex { root: "/other".into(), ..index(&["a"]) });
    let Some(Overlay::QuickOpen(quick)) = &app.overlay else {
        panic!("no quick open");
    };
    assert!(!quick.loading && quick.matches.is_empty());
    assert_eq!(quick.status(), "no matching files");
    assert!(app.index.is_none());
    app.open_quick_open();
    let Some(Overlay::QuickOpen(quick)) = &app.overlay else {
        panic!("no quick open");
    };
    assert_eq!(quick.status(), "indexing files…");
    app.lose_quick_index();
    assert!(!app.indexing);
}

#[test]
fn quick_open_follows_its_selection() {
    let layout = quick_layout(100, 20, 40, 30);
    assert_eq!(layout.popup, Area::new(9, 0, 82, 20));
    assert_eq!(layout.query, Area::new(10, 1, 80, 1));
    assert_eq!(layout.list, Area::new(10, 3, 80, 15));
    assert_eq!(layout.status, Area::new(10, 18, 80, 1));
    assert_eq!(layout.start, 16);
    let small = quick_layout(10, 3, 0, 0);
    assert_eq!(small.popup, Area::new(0, 0, 10, 3));
    assert_eq!(small.list.height, 0);
    assert_eq!(quick_line("src/main.rs", 9), " …main.rs");
}

// ---- The search ----

#[test]
fn digits_switch_views_until_an_input_has_the_focus() {
    let mut app = app();
    press(&mut app, plain(KeyCode::Char('2')));
    assert_eq!(panel(&app).focus, SearchFocus::Results);
    assert_eq!(press(&mut app, plain(KeyCode::Char('3'))).1, Some(Exit::Switch));
    press(&mut app, ctrl('f'));
    assert_eq!(panel(&app).focus, SearchFocus::Query);
    type_text(&mut app, "123");
    assert_eq!(panel(&app).query, "123");
    let (out, _) = press(&mut app, ctrl('1'));
    assert!(matches!(out[..], [Effect::ShareSearch(false)]));
    assert!(app.overlay.is_none());
    let (_, exit) = press(&mut app, plain(KeyCode::F(11)));
    assert_eq!(exit, Some(Exit::Switch));
}

#[test]
fn what_is_typed_is_searched_after_a_while() {
    let mut app = app();
    press(&mut app, ctrl('f'));
    type_text(&mut app, "needle");
    assert!(app.start_content_search_if_due(1_299).is_empty());
    let out = app.start_content_search_if_due(1_300);
    assert!(matches!(
        &out[..],
        [Effect::Search { query, files_in, .. }] if query == "needle" && files_in.is_empty()
    ));
    assert!(panel(&app).loading);
    assert_eq!(panel(&app).status().as_deref(), Some("Searching…"));
    let found = result(&app, vec![hit("a.rs", 3, "a needle"), hit("b.rs", 1, "needle")]);
    app.collect_content_search(Some(found));
    assert_eq!(panel(&app).status().as_deref(), Some("2 results"));
    press(&mut app, plain(KeyCode::Down));
    press(&mut app, plain(KeyCode::Down));
    assert!(app.search_snap);
    let (out, _) = press(&mut app, plain(KeyCode::Enter));
    assert!(matches!(
        &out[..],
        [Effect::Preview { path, line: Some(1) }] if path == "/ws/b.rs"
    ));
    // Typing drops the results.
    press(&mut app, ctrl('f'));
    type_text(&mut app, "s");
    assert!(panel(&app).hits.is_empty());
    assert_eq!(panel(&app).status(), None);
}

#[test]
fn late_results_are_dropped() {
    let mut app = app();
    press(&mut app, ctrl('f'));
    type_text(&mut app, "ne");
    press(&mut app, plain(KeyCode::Enter));
    let late = result(&app, vec![hit("a.rs", 1, "ne")]);
    type_text(&mut app, "w");
    app.collect_content_search(Some(late));
    assert!(panel(&app).hits.is_empty());
    press(&mut app, plain(KeyCode::Enter));
    let elsewhere = SearchResult {
        root: "/other".into(),
        ..result(&app, vec![hit("a.rs", 1, "new")])
    };
    app.collect_content_search(Some(elsewhere));
    assert!(panel(&app).hits.is_empty());
    assert!(panel(&app).loading);
    press(&mut app, plain(KeyCode::Char('x')));
    press(&mut app, plain(KeyCode::Enter));
    app.collect_content_search(None);
    assert!(!panel(&app).loading);
    assert_eq!(panel(&app).status().as_deref(), Some("No results found"));
}

#[test]
fn errors_and_limits_are_told() {
    let mut app = app();
    app.open_content_search(true);
    type_text(&mut app, "(");
    press(&mut app, alt('r'));
    assert!(panel(&app).options.regex);
    press(&mut app, plain(KeyCode::Enter));
    let failed = SearchResult {
        error: Some("Invalid regular expression: x".into()),
        ..result(&app, Vec::new())
    };
    app.collect_content_search(Some(failed));
    assert_eq!(panel(&app).status().as_deref(), Some("Invalid regular expression: x"));
    press(&mut app, plain(KeyCode::Enter));
    let many = SearchResult { truncated: true, ..result(&app, vec![hit("a", 1, "(")]) };
    app.collect_content_search(Some(many));
    assert_eq!(
        panel(&app).status().as_deref(),
        Some("1 results · result limit reached")
    );
}

#[test]
fn options_toggle_and_toggle_back() {
    let mut app = app();
    app.open_content_search(true);
    for c in ['c', 'W', 'r'] {
        press(&mut app, alt(c));
    }
    assert_eq!(
        panel(&app).options,
        SearchOptions { match_case: true, whole_word: true, regex: true }
    );
    for c in ['C', 'w', 'R'] {
        press(&mut app, alt(c));
    }
    assert_eq!(panel(&app).options, SearchOptions::default());
    // A blank query waits for nothing.
    assert_eq!(panel(&app).dirty_since, None);
}

#[test]
fn tab_goes_round_the_inputs_that_are_shown() {
    let mut app = app();
    app.open_content_search(true);
    let mut seen = Vec::new();
    for _ in 0..3 {
        press(&mut app, plain(KeyCode::Tab));
        seen.push(panel(&app).focus);
    }
    assert_eq!(seen, [SearchFocus::Replace, SearchFocus::Results, SearchFocus::Query]);
    let details = Key { shift: true, ..ctrl('j') };
    press(&mut app, details);
    assert!(panel(&app).details_expanded);
    press(&mut app, plain(KeyCode::BackTab));
    press(&mut app, plain(KeyCode::BackTab));
    assert_eq!(panel(&app).focus, SearchFocus::Exclude);
    type_text(&mut app, "target");
    assert_eq!(panel(&app).files_out, "target");
    // Hidden inputs lose the focus.
    press(&mut app, details);
    assert_eq!(panel(&app).focus, SearchFocus::Query);
    press(&mut app, plain(KeyCode::Tab));
    type_text(&mut app, "new");
    assert_eq!(panel(&app).replace, "new");
    let (out, _) = press(&mut app, plain(KeyCode::Esc));
    assert!(matches!(out[..], [Effect::ShareSearch(false)]));
    assert!(app.overlay.is_none());
}

#[test]
fn the_search_is_clicked_where_it_was_drawn() {
    let mut app = app();
    app.screen.zones.gear = Area::empty();
    app.open_content_search(false);
    let area = Area::new(0, 3, 30, 16);
    let layout = search_layout(area, false);
    assert_eq!(layout.query_box, Area::new(2, 5, 27, 3));
    assert_eq!(layout.zones.query, Area::new(3, 6, 16, 1));
    assert_eq!(layout.zones.regex, Area::new(25, 6, 3, 1));
    assert_eq!(layout.zones.refresh, Area::new(21, 3, 3, 1));
    assert_eq!(layout.zones.files_in, Area::empty());
    assert_eq!(layout.results_y, 12);
    assert_eq!(search_layout(area, true).results_y, 21);

    let frame = app.prepare_search(area).unwrap();
    assert_eq!(frame.status, None);
    assert_eq!(frame.list, Area::new(0, 12, 30, 7));
    click(&mut app, 4, 6, 0);
    assert_eq!(panel(&app).focus, SearchFocus::Query);
    type_text(&mut app, "x");
    click(&mut app, 26, 6, 50);
    assert!(panel(&app).options.regex);
    assert_eq!(panel(&app).dirty_since, Some(50));
    let (out, _) = click(&mut app, 21, 3, 0);
    assert!(matches!(out[..], [Effect::Search { .. }]));
    let found = result(&app, vec![hit("a.rs", 3, "x"), hit("a.rs", 9, "x")]);
    app.collect_content_search(Some(found));
    let frame = app.prepare_search(area).unwrap();
    assert_eq!(frame.rows.len(), 3);
    assert_eq!(frame.start, 0);
    // Line 13 names the file, 14 and 15 are its results.
    let (out, _) = click(&mut app, 4, 15, 0);
    assert!(matches!(&out[..], [Effect::Preview { path, line: Some(9) }] if path == "/ws/a.rs"));
    assert_eq!(panel(&app).selected, 1);
    click(&mut app, 24, 3, 0);
    assert!(panel(&app).query.is_empty() && panel(&app).hits.is_empty());
    assert_eq!(panel(&app).focus, SearchFocus::Query);
    assert!(app.prepare_search(Area::empty()).is_none());
}

#[test]
fn results_stand_under_their_files() {
    let hits = vec![hit("a.rs", 1, "one"), hit("a.rs", 20, "two"), hit("b.rs", 3, "three")];
    let rows = result_rows(&hits, 20);
    let shown: Vec<Option<usize>> = rows.iter().map(|r| r.hit).collect();
    assert_eq!(shown, [None, Some(0), Some(1), None, Some(2)]);
    let text = |i: usize| rows[i].line.iter().map(|s| s.text.as_str()).collect::<String>();
    assert_eq!(text(0), "⌄ a.rs 2");
    assert_eq!(text(2), "   20: two");
    // A list that follows its selection begins with a file's name.
    assert_eq!(results_start(&rows, 2, 3, true, 0), 0);
    assert_eq!(results_start(&rows, 2, 1, true, 0), 3);
    assert_eq!(results_start(&rows, 2, 2, false, 9), 3);
    let zones = result_zones(&rows, Area::new(0, 10, 20, 3), 2);
    assert_eq!(zones, [(Area::new(0, 10, 20, 1), 1), (Area::new(0, 12, 20, 1), 2)]);
}

#[test]
fn the_wheel_scrolls_the_results() {
    let mut app = app();
    app.open_content_search(false);
    app.search_snap = true;
    app.on_mouse(0, at(MouseKind::ScrollDown, 5, 10), 0);
    assert_eq!(app.search_scroll, 3);
    assert!(!app.search_snap);
    app.on_mouse(0, at(MouseKind::ScrollUp, 5, 10), 0);
    app.on_mouse(0, at(MouseKind::ScrollUp, 5, 10), 0);
    assert_eq!(app.search_scroll, 0);
}

// ---- How it looks ----

#[test]
fn the_footer_has_room_for_what_it_says() {
    let mut app = app();
    assert_eq!(app.footer_height(0, None, false), 1);
    assert_eq!(app.footer_height(0, None, true), 3);
    assert_eq!(app.footer_height(0, Some(2), true), 3);
    app.change_folder_prompt();
    assert_eq!(app.footer_height(0, Some(2), false), 1);
    app.notice = Some("x".into());
    assert_eq!(app.footer_height(3, Some(2), true), 4);
}

#[test]
fn prompts_show_the_end_of_a_long_input() {
    let text = |width| -> String {
        prompt_line("Folder", "/a/long/path", width).iter().map(|s| s.text.clone()).collect()
    };
    assert_eq!(text(60), " Folder: /a/long/path█  (⏎ ok · esc cancel)");
    assert_eq!(text(20), " Folder: g/path█");
}

#[test]
fn the_header_yields_to_its_buttons() {
    assert_eq!(header("Größe", 20, 2, 8), (" GRÖSSE".to_string(), 3));
    assert_eq!(header("project", 14, 2, 8), (" PR…".to_string(), 0));
}

#[test]
fn hints_name_the_views_in_a_unified_sidebar() {
    assert_eq!(hints(false).len(), 12);
    assert_eq!(hints(true)[14], ("3", "git"));
    assert_eq!(hints(true)[0], ("↑↓", "move"));
}

#[test]
fn the_activity_bar_keeps_its_buttons_apart() {
    assert_eq!(activity_text("x", IconTheme::Material), " x  ");
    assert_eq!(activity_text("x", IconTheme::Emoji), " x ");
    let texts = ActivityTexts {
        explorer: " a ".into(),
        search: " b ".into(),
        source_control: " c ".into(),
        gear: " g ".into(),
    };
    let bar = activity_bar(&texts, Area::new(0, 0, 30, 3));
    assert_eq!(bar.row, 1);
    assert_eq!((bar.explorer, bar.search, bar.source_control), ((1, 4), (5, 8), (9, 12)));
    assert_eq!(bar.gear, Area::new(27, 0, 3, 3));
    assert_eq!(bar.pad, 15);
}

// ---- Decorations ----

#[test]
fn ignored_files_are_kept_between_reads() {
    let mut kept = IgnoredFiles::new();
    let read = |ignored: Option<Vec<String>>, attempted, degraded| IgnoredRead {
        root: "/ws".into(),
        ignored,
        attempted,
        degraded,
    };
    assert!(kept.is_due("/ws", 10));
    assert_eq!(kept.take(read(Some(vec!["target".into()]), true, false), 10), ["target"]);
    // Not listed this time: what is kept counts.
    assert_eq!(kept.take(read(None, false, false), 20), ["target"]);
    assert!(kept.is_due("/ws", 20));
    // A failed listing is not tried again for a minute.
    assert_eq!(kept.take(read(None, true, true), 30), ["target"]);
    assert!(!kept.is_due("/ws", 30 + IGNORED_BACKOFF_MS - 1));
    assert!(kept.is_due("/ws", 30 + IGNORED_BACKOFF_MS));
    assert!(kept.is_due("/other", 30));
    kept.take(read(Some(Vec::new()), true, false), 40);
    assert!(kept.is_due("/ws", 41));
}

#[test]
fn only_the_focused_pane_reads_on_its_own() {
    assert_eq!(status_step(false, false, false, true, true), StatusStep::Drop);
    assert_eq!(status_step(true, false, true, true, true), StatusStep::Skip);
    assert_eq!(status_step(true, false, false, false, false), StatusStep::Skip);
    assert_eq!(status_step(false, true, false, true, false), StatusStep::Read);
    assert_eq!(status_step(true, true, false, false, true), StatusStep::Read);
}

// ---- Starting and leaving ----

#[test]
fn the_explorer_starts_at_the_row_that_was_selected() {
    let folder = || Folder { root: "/ws".into(), root_name: "ws".into(), show_hidden: true };
    let mode = Mode {
        merged: false,
        in_pane: true,
        native_picker: true,
        editor_on_click: false,
        backslash: false,
    };
    let app = App::new(folder(), mode, true, rows(), Some("/ws/tests"), 32);
    assert_eq!(app.list.selected, Some(2));
    assert!(app.list.snap);
    assert_eq!((app.screen.width, app.screen.height, app.screen.page), (32, 24, 20));
    assert!(app.repo.present && app.folder.show_hidden && app.mode.native_picker);
    assert!(app.overlay.is_none() && app.index.is_none() && app.notice.is_none());
    let app = App::new(folder(), mode, false, rows(), Some("/ws/gone"), 32);
    assert_eq!(app.list.selected, None);
    assert!(!app.list.snap);
}

#[test]
fn another_folder_starts_afresh() {
    let mut app = app();
    press(&mut app, ctrl('f'));
    type_text(&mut app, "needle");
    app.searching = true;
    app.indexing = true;
    app.list.scroll = 3;
    let mode = app.mode;
    let folder = || Folder { root: "/o".into(), root_name: "o".into(), show_hidden: true };
    let listed = || vec![dir("/o/a", "/o", 0, true), file("/o/a/b", "/o/a", 1)];
    app.folder_changed(folder(), true, listed(), Some("/o/a/b"), 44, true);
    assert_eq!(app.notice.as_deref(), Some("folder: o"));
    assert!(app.overlay.is_none() && app.suspended.is_none());
    assert!(!app.searching && !app.indexing && app.repo.present);
    assert_eq!((app.list.selected, app.list.scroll), (Some(1), 0));
    assert_eq!(app.screen.width, 44);
    assert_eq!(app.screen.zones.activity_row, u16::MAX);
    assert_eq!(app.mode.in_pane, mode.in_pane);
    app.folder_changed(folder(), false, listed(), None, 44, false);
    assert_eq!(app.notice, None);
    assert_eq!(app.list.selected, None);
}

#[test]
fn the_pane_is_cut_into_its_parts() {
    let mut app = app();
    app.select(3);
    let screen = Area::new(0, 0, 30, 20);
    let (parts, found) = app.lay_out(screen, 2);
    assert!(found.is_none());
    assert_eq!(parts.bar, Area::new(0, 0, 30, 3));
    assert_eq!(parts.head, Area::new(0, 3, 30, 1));
    assert_eq!(parts.body, Area::new(0, 4, 30, 14));
    assert_eq!(parts.footer, Area::new(0, 18, 30, 2));
    assert_eq!(app.list.body, BodyGeom { top: 4, height: 14, offset: 0 });
    assert_eq!(app.screen.page, 13);
    app.mode.merged = false;
    let (parts, _) = app.lay_out(Area::new(2, 1, 9, 7), 7);
    // Too low: every part stays in the pane all the same.
    for part in [parts.bar, parts.head, parts.body, parts.footer] {
        assert!(part.y >= 1 && part.y + part.height <= 8);
        assert_eq!((part.x, part.width), (2, 9));
    }
}

#[test]
fn the_search_takes_the_place_of_the_tree() {
    let mut app = app();
    app.list.scroll = 3;
    app.open_content_search(false);
    let (parts, found) = app.lay_out(Area::new(0, 0, 30, 20), 1);
    assert_eq!(parts.footer, Area::new(0, 19, 30, 1));
    let found = found.unwrap();
    assert_eq!(found.layout.zones.query, app.screen.search_zones.query);
    assert_eq!(found.list, Area::new(0, 12, 30, 7));
    assert_eq!(app.list.body, BodyGeom { top: 0, height: 0, offset: 0 });
    assert_eq!((app.list.scroll, app.screen.page), (3, 14));
}

#[test]
fn the_last_line_ends_with_the_button() {
    let (status, button) = footer_line(Area::new(1, 18, 30, 2));
    assert_eq!(status, Area::new(1, 19, 27, 1));
    assert_eq!(button, Area::new(28, 19, 3, 1));
    let (status, button) = footer_line(Area::new(1, 18, 2, 1));
    assert_eq!((status.width, button), (0, Area::new(1, 18, 2, 1)));
    let (text, star) = message_line(Area::new(1, 5, 20, 1), "*");
    assert_eq!((text, star), (Area::new(1, 5, 18, 1), Area::new(19, 5, 2, 1)));
}

#[test]
fn escape_closes_the_preview_only() {
    let mut app = app();
    app.notice = Some("done".into());
    let (out, exit) = press(&mut app, plain(KeyCode::Esc));
    assert!(exit.is_none() && app.notice.is_none());
    assert!(matches!(out.as_slice(), [Effect::ClosePreview]));
}

#[test]
fn a_path_is_selected_where_it_is_listed() {
    let mut app = app();
    let out = app.select_path("/ws/README.md");
    assert_eq!(app.list.selected, Some(3));
    assert!(matches!(out.as_slice(), [Effect::Persist]));
    app.select_path("/ws/gone");
    assert_eq!(app.list.selected, Some(3));
}
