//! The Explorer's rows, quick open and search.

use herdr_sidebar::actions::menu::{menu_entries, MenuEntry};
use herdr_sidebar::columns::truncate_path_tail;
use herdr_sidebar::explorer_app::deco::ignored_scan_due;
use herdr_sidebar::explorer_app::keys::step_menu;
use herdr_sidebar::explorer_app::panel_view::{search_input_line, search_toolbar_icons};
use herdr_sidebar::explorer_app::patterns::build_search_globs;
use herdr_sidebar::explorer_app::quick::{fuzzy_score_lowercased, quick_matches, QuickFile};
use herdr_sidebar::explorer_app::search::{
    content_hit_context, content_line_match_ranges, content_line_matches,
    highlighted_search_context, SearchOptions,
};
use herdr_sidebar::explorer_app::tree::{
    create_target_dir, deco_marker, deco_name_style, folder_click_toggles, hits_chevron, row_bg,
    row_index_at, row_line, shared_expansion, Row, RowBack, TreeList,
};
use herdr_sidebar::geometry::hits_collapse_button;
use herdr_sidebar::launch::queries::pane_focused_in;
use herdr_sidebar::scm_app::rows::BodyGeom;
use herdr_sidebar::settings::IconTheme;
use herdr_sidebar::spans::{Span, Tone};

#[test]
fn collapse_button_hit_region_is_header_right_edge() {
    assert!(hits_collapse_button(30, 49, 32, 50), "footer right edge");
    assert!(hits_collapse_button(28, 49, 32, 50));
    assert!(!hits_collapse_button(27, 49, 32, 50), "left of the button");
    assert!(!hits_collapse_button(30, 0, 32, 50), "header row");
    assert!(!hits_collapse_button(30, 48, 32, 50), "tree row");
}

#[test]
fn explorer_app_menu_navigation_skips_separators_and_clamps() {
    let entries = menu_entries(Some(false), true);
    // First entry is an action; stepping up from it stays put.
    assert_eq!(step_menu(&entries, 0, -1), 0);
    // Stepping down over a separator lands on the next action.
    let sep = entries.iter().position(|e| matches!(e, MenuEntry::Separator)).unwrap();
    assert_eq!(step_menu(&entries, sep - 1, 1), sep + 1);
    let last = entries.len() - 1;
    assert_eq!(step_menu(&entries, last, 1), last);
}

#[test]
fn chevron_hit_region_follows_indent_depth() {
    assert!(hits_chevron(0, 0));
    assert!(hits_chevron(1, 0));
    assert!(!hits_chevron(2, 0), "icon cell");
    assert!(hits_chevron(2, 1));
    assert!(hits_chevron(3, 1));
    assert!(!hits_chevron(0, 1), "indent cell");
}

#[test]
fn folder_rows_toggle_on_single_click_without_double_clicking_back() {
    assert!(folder_click_toggles(false, false));
    assert!(!folder_click_toggles(false, true));
    assert!(folder_click_toggles(true, true));
}

fn row(path: &str, name: &str, folder: &str, is_dir: bool, depth: usize, expanded: bool) -> Row {
    Row {
        path: path.into(),
        name: name.into(),
        folder: folder.into(),
        is_dir,
        depth,
        expanded,
    }
}

/// The rows of `/ws/src/bin/main.rs` with some folders expanded.
fn rows_of(expanded: &[String]) -> Vec<Row> {
    let open = |path: &str| expanded.iter().any(|e| e == path);
    let mut rows = vec![row("/ws/src", "src", "/ws", true, 0, open("/ws/src"))];
    if open("/ws/src") {
        rows.push(row("/ws/src/bin", "bin", "/ws/src", true, 1, open("/ws/src/bin")));
        if open("/ws/src/bin") {
            rows.push(row(
                "/ws/src/bin/main.rs",
                "main.rs",
                "/ws/src/bin",
                false,
                2,
                false,
            ));
        }
    }
    rows
}

fn list_of(rows: Vec<Row>, selected: Option<usize>, scroll: usize) -> TreeList {
    TreeList {
        rows,
        selected,
        scroll,
        snap: false,
        hovered: None,
        body: BodyGeom::default(),
    }
}

#[test]
fn shared_tree_state_updates_expansion_and_selection() {
    let mut expanded: Vec<String> = Vec::new();
    let mut list = list_of(rows_of(&expanded), None, 4);
    let file = "/ws/src/bin/main.rs";
    let shared = vec!["/ws/src/bin".to_string(), "/ws/src".to_string()];
    let wanted = shared_expansion("/ws", false, &expanded, &shared);
    assert_eq!(wanted, Some(vec!["/ws/src".to_string(), "/ws/src/bin".to_string()]));
    expanded = wanted.unwrap();
    assert!(list.apply_shared_tree_state(Some(rows_of(&expanded)), Some(file)));
    assert_eq!(
        list.selected.map(|index| list.rows[index].path.clone()),
        Some(file.to_string())
    );
    expanded.reverse();
    assert_eq!(shared_expansion("/ws", false, &expanded, &shared), None);
    assert!(!list.apply_shared_tree_state(None, Some(file)));
}

#[test]
fn a_shared_expansion_keeps_the_shared_selection() {
    let with_file = |expanded: &[String]| {
        let mut rows = rows_of(expanded);
        rows.push(row("/ws/z.rs", "z.rs", "/ws", false, 0, false));
        rows
    };
    let mut list = list_of(with_file(&[]), Some(1), 0);
    let more = with_file(&["/ws/src".to_string(), "/ws/src/bin".to_string()]);
    assert!(list.apply_shared_tree_state(Some(more), Some("/ws/z.rs")));
    assert_eq!(list.selected, Some(3));
    assert!(list.snap);
}

#[test]
fn collapsing_all_publishes_the_repointed_visible_selection() {
    let expanded = vec!["/ws/src".to_string(), "/ws/src/bin".to_string()];
    let rows = rows_of(&expanded);
    let selected = rows.iter().position(|row| row.path == "/ws/src/bin/main.rs");
    let mut list = list_of(rows, selected, 0);
    list.rebuild(rows_of(&[]));

    let path = list.selected_row().map(|row| row.path.clone());
    assert!(path.is_some());
    assert_eq!(shared_expansion("/ws", false, &Vec::new(), &Vec::new()), None);
    assert!(!list.apply_shared_tree_state(None, path.as_deref()));
}

#[test]
fn create_target_matches_vscode_semantics() {
    let root = "C:\\ws";
    let dir = row("C:\\ws\\src", "src", "C:\\ws", true, 0, false);
    let file = row("C:\\ws\\src\\main.rs", "main.rs", "C:\\ws\\src", false, 1, false);
    assert_eq!(create_target_dir(Some(&dir), root), "C:\\ws\\src");
    assert_eq!(create_target_dir(Some(&file), root), "C:\\ws\\src");
    assert_eq!(create_target_dir(None, root), root);
}

#[test]
fn explorer_app_focused_pane_detection_is_scoped_to_our_pane_id() {
    let panes = r#"{"result":{"panes":[
            {"pane_id":"w1:p1","focused":false},
            {"pane_id":"w1:p2","focused":true}
        ]}}"#;
    assert!(!pane_focused_in(panes, "w1:p1"));
    assert!(pane_focused_in(panes, "w1:p2"));
    assert!(!pane_focused_in("garbage", "w1:p2"));
}

fn text_of(spans: &[Span]) -> String {
    spans.iter().map(|s| s.text.as_str()).collect()
}

/// The rendered text of a row, decorations included.
fn rendered(row: &Row, deco: Option<char>, width: u16) -> String {
    text_of(&row_line(row, "📄", deco, width))
}

fn file_row(name: &str) -> Row {
    row(&format!("C:\\ws\\{name}"), name, "C:\\ws", false, 0, false)
}

fn dir_row(name: &str) -> Row {
    row(&format!("C:\\ws\\{name}"), name, "C:\\ws", true, 0, false)
}

#[test]
fn files_render_their_status_letter_and_dirs_a_dirty_dot() {
    assert!(rendered(&file_row("app.rs"), Some('M'), 30).ends_with("M  "));
    assert!(rendered(&file_row("new.rs"), Some('A'), 30).ends_with("A  "));
    assert!(rendered(&file_row("gone.rs"), Some('D'), 30).ends_with("D  "));
    assert!(rendered(&file_row("notes.md"), Some('U'), 30).ends_with("U  "));
    assert!(rendered(&file_row("merge.rs"), Some('!'), 30).ends_with("!  "));
    // A directory shows the aggregate as a dot, never a letter.
    let dir = rendered(&dir_row("src"), Some('M'), 30);
    assert!(dir.ends_with("●  "), "{dir}");
    assert!(!dir.contains('M'));
}

#[test]
fn undecorated_and_ignored_rows_carry_no_marker() {
    let plain = rendered(&file_row("app.rs"), None, 30);
    assert!(plain.trim_end().ends_with("app.rs"), "{plain}");
    // Ignored is conveyed by the dimmed name alone — no trailing marker.
    let ignored = rendered(&file_row("build.log"), Some('I'), 30);
    assert!(ignored.trim_end().ends_with("build.log"), "{ignored}");
}

#[test]
fn decorations_are_foreground_only_so_selection_stays_visible() {
    // Selection owns the BACKGROUND; a decoration must only recolor the
    // name, or a selected changed row would be unreadable.
    assert_eq!(row_bg(false, true), RowBack::Selected);
    assert_eq!(row_bg(true, false), RowBack::Hovered);
    assert_eq!(row_bg(false, false), RowBack::Bare);
    // The decoration itself only ever sets a foreground.
    let line = row_line(&file_row("app.rs"), "📄", Some('M'), 30);
    assert!(line.iter().all(|s| matches!(
        s.tone,
        Tone::Dim | Tone::Icon | Tone::Status(_) | Tone::Plain | Tone::Letter(_)
    )));
    assert_eq!(deco_name_style(Some('M')), Tone::Status('M'));
    assert_eq!(deco_name_style(None), Tone::Plain);
    assert_eq!(deco_name_style(Some('I')), Tone::Dim);
}

#[test]
fn a_decorated_name_is_truncated_to_keep_the_marker_visible() {
    let long = file_row("a-very-long-file-name-that-will-not-fit.rs");
    let text = rendered(&long, Some('M'), 20);
    assert!(text.ends_with("M  "), "marker survives a narrow pane: {text}");
    assert_eq!(
        ratatui::text::Span::raw(text.as_str()).width(),
        20,
        "and the row still fills exactly the pane width"
    );
}

#[test]
fn deco_markers_follow_the_row_kind() {
    assert_eq!(deco_marker('M', false).as_deref(), Some("M"));
    assert_eq!(deco_marker('M', true).as_deref(), Some("●"));
    assert_eq!(deco_marker('!', true).as_deref(), Some("●"));
    assert_eq!(deco_marker('I', false), None);
    assert_eq!(deco_marker('I', true), None);
}

#[test]
fn row_index_accounts_for_header_and_scroll() {
    let body = BodyGeom { top: 1, height: 10, offset: 5 };
    assert_eq!(row_index_at(body, 100, 0), None, "header row");
    assert_eq!(row_index_at(body, 100, 1), Some(5));
    assert_eq!(row_index_at(body, 100, 10), Some(14));
    assert_eq!(row_index_at(body, 100, 11), None, "footer row");
    assert_eq!(row_index_at(body, 6, 2), None, "past the last row");
}

fn quick_file(label: &str, lower: &str) -> QuickFile {
    QuickFile { path: label.into(), label: label.into(), label_lower: lower.into() }
}

#[test]
fn quick_open_matches_case_insensitive_subsequences() {
    let files = vec![
        quick_file("src/main.rs", "src/main.rs"),
        quick_file("README.md", "readme.md"),
    ];
    assert!(fuzzy_score_lowercased("smr", "src/main.rs").is_some());
    assert!(fuzzy_score_lowercased("smr", "readme.md").is_none());
    assert_eq!(quick_matches(&files, "read"), vec![1]);
}

#[test]
fn quick_open_truncation_keeps_the_filename_visible() {
    assert_eq!(truncate_path_tail("src/very/deep/nested/thing.rs", 12), "…ed/thing.rs");
    assert_eq!(truncate_path_tail("main.rs", 12), "main.rs");
    assert_eq!(truncate_path_tail("main.rs", 0), "");
    assert_eq!(truncate_path_tail("src/界面.rs", 8), "…界面.rs");
}

#[test]
fn content_search_options_match_vscode_semantics() {
    assert!(content_line_matches(
        "Needle needlebox",
        "needle",
        SearchOptions::default(),
        None,
    ));
    assert!(!content_line_matches(
        "Needle",
        "needle",
        SearchOptions { match_case: true, ..SearchOptions::default() },
        None,
    ));
    assert!(content_line_matches(
        "a needle here",
        "needle",
        SearchOptions { whole_word: true, ..SearchOptions::default() },
        None,
    ));
    assert!(!content_line_matches(
        "needlebox",
        "needle",
        SearchOptions { whole_word: true, ..SearchOptions::default() },
        None,
    ));

    let regex = regex::RegexBuilder::new(r"need(le|ful)")
        .case_insensitive(true)
        .build()
        .unwrap();
    assert!(content_line_matches(
        "NEEDFUL",
        "ignored",
        SearchOptions { regex: true, ..SearchOptions::default() },
        Some(&regex),
    ));
    assert!(build_search_globs("[", "include").is_err());
    let directories = build_search_globs("node_modules", "exclude").unwrap().unwrap();
    assert!(directories.is_match("web/node_modules/pkg/index.js"));
    assert!(directories.is_match("node_modules/pkg/index.js"));
}

#[test]
fn ignored_backoff_applies_independently_of_status_refreshes() {
    let now = 5_000;
    assert!(!ignored_scan_due(Some(now + 60_000), now));
    assert!(ignored_scan_due(Some(now), now));
    assert!(ignored_scan_due(None, now));
}

#[test]
fn focused_empty_search_hides_its_placeholder() {
    let focused = search_input_line("", "Search", true, 20);
    assert_eq!(text_of(&focused), "█");
    let idle = search_input_line("", "Search", false, 20);
    assert_eq!(idle[0].text, "Search");
    assert_eq!(idle[0].tone, Tone::Dim);
}

fn bold(spans: &[Span]) -> usize {
    spans.iter().filter(|span| span.tone == Tone::Match).count()
}

#[test]
fn search_result_context_bolds_every_visible_match() {
    let line = "Needle plus needlebox";
    let ranges = content_line_match_ranges(line, "needle", SearchOptions::default(), None);
    let spans = highlighted_search_context(line, &ranges, 80);
    assert_eq!(text_of(&spans), "Needle plus needlebox");
    assert_eq!(bold(&spans), 2);

    let line = "needle plus needlebox";
    let ranges = content_line_match_ranges(
        line,
        "needle",
        SearchOptions { whole_word: true, ..SearchOptions::default() },
        None,
    );
    let spans = highlighted_search_context(line, &ranges, 80);
    assert_eq!(bold(&spans), 1);
}

#[test]
fn search_highlights_follow_literal_boundaries_unicode_and_clipping() {
    let whole_word = SearchOptions { whole_word: true, ..SearchOptions::default() };
    let punctuation = "use C++ here";
    let ranges = content_line_match_ranges(punctuation, "C++", whole_word, None);
    assert_eq!(ranges, [(4, 7)]);

    let unicode = "İ and s ſ";
    assert_eq!(
        content_line_match_ranges(unicode, "i", SearchOptions::default(), None),
        [(0, 2)]
    );
    assert_eq!(
        content_line_match_ranges(unicode, "s", SearchOptions::default(), None),
        [(7, 8)]
    );
    assert_eq!(
        content_line_match_ranges("ΟΣ", "ΟΣ", SearchOptions::default(), None),
        [(0, 4)]
    );

    let (_, trimmed_ranges) = content_hit_context(" needle", &[(0, 1)]);
    assert!(trimmed_ranges.is_empty());

    let clipped = "needlebox needle";
    let ranges = content_line_match_ranges(clipped, "needle", whole_word, None);
    let spans = highlighted_search_context(clipped, &ranges, 8);
    assert!(spans.iter().all(|span| span.tone != Tone::Match));

    // Beyond the end a match is clipped, or nothing is left of it.
    let spans = highlighted_search_context("néedle", &[(3, 40), (41, 50)], 80);
    assert_eq!(text_of(&spans), "néedle");
    assert_eq!((spans[0].text.as_str(), spans[1].text.as_str()), ("né", "edle"));
    assert_eq!((spans.len(), spans[1].tone), (2, Tone::Match));
    // Where nothing is cut there, a match may begin within a character.
    let spans = highlighted_search_context("néedle", &[(0, 3), (2, 5), (6, 6)], 80);
    assert_eq!(bold(&spans), 2);
    assert_eq!(spans[1].text, "ed");

    let ranges = content_line_match_ranges("needle", "needle", whole_word, None);
    let spans = highlighted_search_context("needle", &ranges, 5);
    assert_eq!(text_of(&spans), "need…");
    assert_eq!(spans[0].tone, Tone::Match);
}

#[test]
fn search_toolbar_uses_full_size_codicons_in_material_mode() {
    assert_eq!(
        search_toolbar_icons(IconTheme::Material),
        ("\u{eb37}", "\u{eabf}", "\u{ea7c}")
    );
}
