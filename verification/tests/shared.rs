//! What the views share: popups, settings, menus, text and its columns.

use herdr_sidebar::columns::{input_tail, truncate_to};
use herdr_sidebar::geometry::{hits, hits_activity_button, place, Area};
use herdr_sidebar::input::{Key, KeyCode, Mouse, MouseKind};
use herdr_sidebar::json::read_message;
use herdr_sidebar::menu_nav::step_over;
use herdr_sidebar::popup::{
    keep_visible_scroll, menu_key, menu_mouse, place_menu, place_settings, settings_mouse,
    MenuKey, MenuMouse, SettingsMouse,
};
use herdr_sidebar::ranking::insert_text;
use herdr_sidebar::settings::{
    desired_width, flip, row_text, settings_key, toggle_setting, Flags, IconTheme, Prefs, Setting,
    SettingRow, SettingStep, SettingsKey, SharedSteps,
};
use herdr_sidebar::text::{is_blank, join, parse_u64, parse_usize, shorten, split_lines, trim_string};
use herdr_sidebar::utf8::{byte_length, byte_offsets, char_at_offset};
use herdr_sidebar::view::{
    double_click, is_due, set_unified, surroundings_changed, unify_step, unite_step, UnifyAction,
    UnifyStep, UniteStep, HEARTBEAT_MS,
};

fn plain(code: KeyCode) -> Key {
    Key { code, control: false, alt: false, shift: false, meta: false, press: true }
}

fn flags() -> Flags {
    Flags {
        merged: false,
        dock_right: false,
        custom_editor_on_click: false,
        show_hidden: false,
        show_hotkeys: false,
        auto_open: true,
        strict_toggle: false,
        focus_on_open: true,
        follow_cwd: false,
        git_deco: true,
        show_git_footer: true,
    }
}

fn prefs() -> Prefs {
    Prefs {
        flags: flags(),
        other_view: true,
        sidebar_width: 32,
        above_percent: 60,
        stacks_above: false,
        theme: IconTheme::Material,
        color_theme: "dark".into(),
        preview_placement: "tab".into(),
        editor: None,
        follow_value: "off".into(),
        folder: "ws".into(),
    }
}

// ---- Cells ----

#[test]
fn areas_without_cells_take_no_clicks() {
    assert!(!hits(Area::new(3, 3, 0, 5), 3, 3));
    assert!(hits(Area::new(3, 3, 1, 1), 3, 3));
    assert!(!hits(Area::new(3, 3, 1, 1), 4, 3));
    assert!(hits(Area::new(u16::MAX, 0, 1, 1), u16::MAX, 0));
    assert_eq!(place(65_530, 2, 20, 3), Area::new(65_530, 2, 5, 3));
    assert!(hits_activity_button((2, 5), 1, 4, 0));
    assert!(!hits_activity_button((2, 5), 1, 4, 3));
}

// ---- Popups ----

#[test]
fn menus_stay_inside_the_pane() {
    assert_eq!(place_menu(2, 3, 20, 5, 40, 30), Area::new(2, 4, 24, 7));
    assert_eq!(place_menu(39, 29, 20, 5, 40, 30), Area::new(16, 23, 24, 7));
    assert_eq!(place_menu(0, 0, 99, 99, 10, 5), Area::new(0, 0, 10, 5));
    assert_eq!(place_settings(30, 18, 3, 40, 50), Area::new(5, 8, 30, 26));
}

#[test]
fn popups_scroll_to_their_selection() {
    assert_eq!(keep_visible_scroll(2, 5, 20), 0);
    assert_eq!(keep_visible_scroll(5, 5, 20), 1);
    assert_eq!(keep_visible_scroll(19, 5, 20), 15);
    assert_eq!(keep_visible_scroll(4, 9, 5), 0);
}

#[test]
fn menus_select_actions_only() {
    let actions = vec![true, false, true];
    assert_eq!(step_over(&actions, 0, 1), 2);
    assert_eq!(step_over(&actions, 2, 1), 2);
    assert_eq!(menu_key(&actions, 2, plain(KeyCode::Char('k'))), MenuKey::Select(0));
    assert_eq!(menu_key(&actions, 0, plain(KeyCode::Enter)), MenuKey::Activate);
    let rect = Area::new(5, 5, 20, 5);
    let at = |kind, column, row| Mouse { kind, column, row };
    assert_eq!(menu_mouse(rect, &actions, at(MouseKind::Moved, 6, 8)), MenuMouse::Point(2));
    assert_eq!(menu_mouse(rect, &actions, at(MouseKind::Moved, 6, 7)), MenuMouse::Nothing);
    assert_eq!(menu_mouse(rect, &actions, at(MouseKind::LeftDown, 6, 7)), MenuMouse::Close);
    assert_eq!(
        menu_mouse(rect, &actions, at(MouseKind::RightDown, 1, 2)),
        MenuMouse::Reopen(1, 2)
    );
}

// ---- Settings ----

#[test]
fn a_click_beside_the_settings_closes_them() {
    let rect = Area::new(5, 5, 20, 8);
    let at = |column, row| Mouse { kind: MouseKind::LeftDown, column, row };
    assert_eq!(settings_mouse(rect, 2, 10, at(6, 6)), SettingsMouse::Toggle(2));
    assert_eq!(settings_mouse(rect, 0, 10, at(5, 5)), SettingsMouse::Nothing);
    assert_eq!(settings_mouse(rect, 0, 10, at(4, 5)), SettingsMouse::Close);
    assert_eq!(settings_mouse(rect, 0, 2, at(6, 9)), SettingsMouse::Nothing);
}

#[test]
fn settings_toggle_back() {
    for setting in [Setting::DockRight, Setting::GitFooter, Setting::FollowCwd] {
        let once = flip(flags(), setting);
        assert_ne!(once, flags());
        assert_eq!(flip(once, setting), flags());
    }
    assert_eq!(flip(flags(), Setting::Folder), flags());
}

#[test]
fn dimmed_settings_do_not_move() {
    let rows = prefs().explorer_rows();
    assert_eq!(rows.len(), 18);
    let above = rows.iter().position(|r| r.setting == Setting::AbovePercent).unwrap();
    assert!(!rows[above].enabled);
    assert_eq!(settings_key(&rows, above, plain(KeyCode::Right)), SettingsKey::Nothing);
    assert_eq!(toggle_setting(&rows, above, false, IconTheme::Emoji), SettingStep::Nothing);
    let stacked = Prefs { stacks_above: true, ..prefs() }.explorer_rows();
    assert_eq!(
        settings_key(&stacked, above, plain(KeyCode::Right)),
        SettingsKey::AdjustAbovePercent(true)
    );
    let width = rows.iter().position(|r| r.setting == Setting::SidebarWidth).unwrap();
    assert_eq!(settings_key(&rows, width, plain(KeyCode::Char('h'))), SettingsKey::AdjustWidth(false));
    assert_eq!(rows[width].value, "32 cols");
    assert_eq!(toggle_setting(&rows, width, false, IconTheme::Emoji), SettingStep::Wider);
    assert_eq!(toggle_setting(&rows, 99, false, IconTheme::Emoji), SettingStep::Nothing);
}

#[test]
fn the_editor_row_shows_the_command() {
    let value = |prefs: &Prefs| {
        let rows = prefs.explorer_rows();
        let at = rows.iter().position(|r| r.setting == Setting::CustomEditorCommand).unwrap();
        let click = rows.iter().position(|r| r.setting == Setting::CustomEditorClick).unwrap();
        (rows[at].value.clone(), rows[click].enabled)
    };
    assert_eq!(value(&prefs()), ("not set".to_string(), false));
    let fits = Prefs { editor: Some("code --wait --new-window".into()), ..prefs() };
    assert_eq!(value(&fits), ("code --wait --new-window".to_string(), true));
    let long = Prefs { editor: Some("code --wait --new-window .".into()), ..prefs() };
    assert_eq!(value(&long), ("code --wait --new-windo…".to_string(), true));
    let mut clicks = long;
    clicks.flags.custom_editor_on_click = true;
    assert!(clicks.uses_editor_on_click());
    clicks.editor = None;
    assert!(!clicks.uses_editor_on_click());
}

#[test]
fn settings_rows_fill_their_width() {
    let row = SettingRow {
        setting: Setting::AutoOpen,
        label: "Auto-open sidebar",
        value: "on".into(),
        enabled: true,
    };
    assert_eq!(row_text(&row, 28), " Auto-open sidebar       on ");
    assert_eq!(desired_width(&vec![row]), 30);
}

#[test]
fn shared_settings_are_adopted_once() {
    let mut own = prefs();
    let mut shared = prefs();
    shared.flags.git_deco = false;
    shared.flags.custom_editor_on_click = true;
    shared.flags.auto_open = false;
    shared.color_theme = "light".into();
    shared.sidebar_width = 40;
    let steps = own.adopt_shared(&shared, true);
    assert_eq!(
        steps,
        SharedSteps { recolor: true, resize: true, rediscover: true, undecorate: true }
    );
    assert!(own.flags.custom_editor_on_click);
    assert!(own.flags.auto_open, "not shared");
    assert_eq!(own.color_theme, "light");
    let again = own.adopt_shared(&shared, true);
    assert_eq!(
        again,
        SharedSteps { recolor: false, resize: false, rediscover: false, undecorate: false }
    );
    let mut other = prefs();
    other.adopt_shared(&shared, false);
    assert!(!other.flags.custom_editor_on_click);
}

// ---- Views ----

#[test]
fn clicks_are_double_for_a_moment() {
    assert!(double_click(Some((3, 100)), 3, 549));
    assert!(!double_click(Some((3, 100)), 3, 550));
    assert!(!double_click(Some((3, 100)), 4, 200));
    assert!(!double_click(None, 3, 0));
}

#[test]
fn only_changed_surroundings_resize_the_pane() {
    assert_eq!(surroundings_changed(Some(100), Some(120)), (true, Some(120)));
    assert_eq!(surroundings_changed(Some(100), Some(100)), (false, Some(100)));
    assert_eq!(surroundings_changed(None, Some(100)), (false, Some(100)));
    assert_eq!(surroundings_changed(Some(100), None), (false, Some(100)));
}

#[test]
fn the_sidebar_is_unified_where_there_is_another_view() {
    assert_eq!(set_unified(true, true, true, 30), UnifyAction::Nothing);
    assert_eq!(set_unified(false, false, true, 30), UnifyAction::Nothing);
    assert_eq!(set_unified(true, false, false, 30), UnifyAction::Nothing);
    assert_eq!(set_unified(true, false, true, 30), UnifyAction::Unite);
    assert_eq!(set_unified(false, true, true, 30), UnifyAction::Separate { width: 61 });
    assert_eq!(set_unified(false, true, true, 32_767), UnifyAction::Separate { width: 65_535 });
    assert_eq!(set_unified(false, true, true, 40_000), UnifyAction::Separate { width: 65_535 });
    assert_eq!(unite_step(Some(true), 30), UniteStep::AwaitClose { width: 30 });
    assert_eq!(unite_step(Some(false), 30), UniteStep::Settled);
    assert_eq!(unite_step(None, 30), UniteStep::TakeBack);
}

#[test]
fn unifying_waits_for_the_other_pane() {
    assert_eq!(unify_step(true, 9_999), UnifyStep::Done);
    assert_eq!(unify_step(false, 1_999), UnifyStep::Wait);
    assert_eq!(unify_step(false, 2_000), UnifyStep::GiveUp);
}

// ---- Text ----

#[test]
fn texts_are_cut_by_columns() {
    assert_eq!(truncate_to("hello", 5), "hello");
    assert_eq!(truncate_to("hello", 4), "hel…");
    assert_eq!(truncate_to("界面界面", 5), "界面…");
    assert_eq!(input_tail("hello", 3), "llo");
    assert_eq!(input_tail("界面", 3), "面");
    assert_eq!(input_tail("ab", 9), "ab");
}

#[test]
fn texts_are_trimmed_and_split() {
    assert_eq!(trim_string("\u{3000} a b \n"), "a b");
    assert!(is_blank(" \t\n"));
    assert!(!is_blank(" x "));
    assert_eq!(shorten("né"), "n");
    assert_eq!(shorten(""), "");
    let chars: Vec<char> = "a\r\nb\n\nc".chars().collect();
    assert_eq!(split_lines(&chars), ["a", "b", "", "c"]);
    assert_eq!(join(&vec!["a".into(), "b".into()], ", "), "a, b");
    let number = |s: &str| s.chars().collect::<Vec<char>>();
    assert_eq!(parse_usize(&number("42")), Some(42));
    assert_eq!(parse_usize(&number("4x")), None);
    assert_eq!(parse_usize(&number("")), None);
    assert_eq!(parse_u64(&number("18446744073709551615")), Some(u64::MAX));
    assert_eq!(parse_u64(&number("18446744073709551616")), None);
}

#[test]
fn bytes_and_characters_are_told_apart() {
    assert_eq!(byte_length("aé界😀"), 10);
    let offsets = byte_offsets("aé界");
    assert_eq!(offsets, [0, 1, 3, 6]);
    assert_eq!(char_at_offset("aé界", &offsets, 3), 2);
    assert_eq!(char_at_offset("aé界", &offsets, 2), 2);
    assert_eq!(char_at_offset("aé界", &offsets, 99), 3);
}

#[test]
fn texts_are_inserted_in_order() {
    let mut list: Vec<String> = Vec::new();
    for text in ["b", "a", "c", "a", "B"] {
        insert_text(&mut list, text.to_string());
    }
    assert_eq!(list, ["B", "a", "b", "c"]);
}

// ---- Messages ----

#[test]
fn byte_order_marks_are_ignored() {
    assert!(read_message("\u{feff}{\"a\":1}").is_some());
    assert!(read_message("{\"a\":1}").is_some());
    assert!(read_message("nonsense").is_none());
}

#[test]
fn work_is_due_once_its_time_is_over() {
    assert!(!is_due(1000, HEARTBEAT_MS, 5999));
    assert!(is_due(1000, HEARTBEAT_MS, 6000));
    assert!(!is_due(1000, HEARTBEAT_MS, 0));
}

#[test]
fn repositories_are_looked_for_where_they_are_shown() {
    let mut prefs = prefs();
    assert!(prefs.watches_repositories());
    prefs.flags.git_deco = false;
    assert!(prefs.watches_repositories());
    prefs.flags.show_git_footer = false;
    assert!(!prefs.watches_repositories());
}
