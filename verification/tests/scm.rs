//! The Source Control panel.

use herdr_sidebar::git::{FileEntry, Status};
use herdr_sidebar::launch::queries::pane_focused_in;
use herdr_sidebar::scm_app::drawer::{
    parse_drawer_ref, pretty_remote_line, pretty_worktree_line, Drawer, DrawerRef,
};
use herdr_sidebar::scm_app::header::{
    changes_header_action_at, changes_header_action_zones, commit_draft_present,
    file_hover_action_at, file_hover_action_start, repo_header_action_zones, sync_is_primary,
    sync_label_for_status, ChangesHeaderAction, FileHoverAction,
};
use herdr_sidebar::scm_app::menu::{step_menu, MenuAction, MenuEntry};
use herdr_sidebar::scm_app::rows::{row_hit_with_heights, BodyGeom};

#[test]
fn clean_diverged_repo_uses_sync_as_the_primary_action() {
    let status = Status { ahead: 43, has_upstream: true, ..Status::default() };
    assert!(sync_is_primary(&status));

    let dirty = Status {
        unstaged: vec![FileEntry { path: "README.md".into(), orig: None, letter: 'M' }],
        ..status
    };
    assert!(!sync_is_primary(&dirty));
}

#[test]
fn sync_label_omits_zero_counts() {
    let status = Status { ahead: 43, has_upstream: true, ..Status::default() };
    assert_eq!(
        sync_label_for_status(&status, false).as_deref(),
        Some("⟳ Sync Changes 43↑")
    );
}

#[test]
fn narrow_repo_headers_disable_hidden_action_zones() {
    assert_eq!(repo_header_action_zones(4), ((0, 0), (0, 0)));
    assert_eq!(repo_header_action_zones(6), ((0, 3), (3, 6)));
}

#[test]
fn changes_header_actions_are_ordered_and_hide_when_narrow() {
    assert_eq!(changes_header_action_zones(24, 12), None);
    assert_eq!(
        changes_header_action_zones(30, 12),
        Some([
            (ChangesHeaderAction::Discard, (16, 19)),
            (ChangesHeaderAction::Stash, (19, 22)),
            (ChangesHeaderAction::Stage, (22, 25)),
        ])
    );
    assert_eq!(changes_header_action_at(16, 30, 12), Some(ChangesHeaderAction::Discard));
    assert_eq!(changes_header_action_at(21, 30, 12), Some(ChangesHeaderAction::Stash));
    assert_eq!(changes_header_action_at(24, 30, 12), Some(ChangesHeaderAction::Stage));
    assert_eq!(changes_header_action_at(25, 30, 12), None);
}

#[test]
fn changes_header_actions_describe_their_footer_tooltips() {
    assert_eq!(ChangesHeaderAction::Discard.footer_hint(), "↶ Discard All Changes");
    assert_eq!(ChangesHeaderAction::Stash.footer_hint(), "⇩ Stash Changes");
    assert_eq!(ChangesHeaderAction::Stage.footer_hint(), "+ Stage All Changes");
}

#[test]
fn file_hover_actions_match_their_rendered_columns() {
    assert_eq!(file_hover_action_start(18, false), None);
    assert_eq!(file_hover_action_start(30, false), Some(19));
    assert_eq!(file_hover_action_at(19, 30, false), Some(FileHoverAction::Open));
    assert_eq!(file_hover_action_at(23, 30, false), Some(FileHoverAction::Discard));
    assert_eq!(file_hover_action_at(27, 30, false), Some(FileHoverAction::Stage));
    assert_eq!(file_hover_action_at(28, 30, false), None);

    assert_eq!(file_hover_action_start(30, true), Some(22));
    assert_eq!(file_hover_action_at(22, 30, true), Some(FileHoverAction::Open));
    assert_eq!(file_hover_action_at(26, 30, true), Some(FileHoverAction::Unstage));
}

#[test]
fn file_hover_actions_describe_their_footer_tooltips() {
    assert_eq!(FileHoverAction::Open.footer_hint(), "↗ Open Changes");
    assert_eq!(FileHoverAction::Discard.footer_hint(), "↶ Discard Changes");
    assert_eq!(FileHoverAction::Stage.footer_hint(), "+ Stage Changes");
    assert_eq!(FileHoverAction::Unstage.footer_hint(), "− Unstage Changes");
}

#[test]
fn stationary_hover_uses_the_latest_list_geometry() {
    let mouse_row = 12;
    let before = BodyGeom { top: 10, height: 5, offset: 2 };
    assert_eq!(
        row_hit_with_heights(before, mouse_row, &[(2, 1), (3, 3), (4, 1)]),
        Some((3, 1))
    );

    let after = BodyGeom { top: 11, height: 3, offset: 0 };
    assert_eq!(
        row_hit_with_heights(after, mouse_row, &[(0, 1), (1, 1), (2, 1)]),
        Some((1, 0))
    );
}

#[test]
fn any_commit_message_pauses_cwd_follow() {
    let empty: &[char] = &[];
    let draft = ['d', 'r', 'a', 'f', 't'];
    assert!(!commit_draft_present(&[empty, empty]));
    assert!(commit_draft_present(&[empty, draft.as_slice()]));
}

#[test]
fn scm_app_focused_pane_detection_is_scoped_to_our_pane_id() {
    let panes = r#"{"result":{"panes":[
        {"pane_id":"w1:p1","focused":false},
        {"pane_id":"w1:p2","focused":true}
    ]}}"#;
    assert!(!pane_focused_in(panes, "w1:p1"));
    assert!(pane_focused_in(panes, "w1:p2"));
}

#[test]
fn drawer_lines_parse_into_actionable_refs() {
    assert_eq!(
        parse_drawer_ref(Drawer::Commits, "a1b2c3d Add telemetry module"),
        DrawerRef::Commit("a1b2c3d".into())
    );
    // Graph edge-only lines carry no commit; subject words never match
    // (uppercase or non-hex letters, or too short).
    assert_eq!(parse_drawer_ref(Drawer::Graph, "| \\"), DrawerRef::Nothing);
    assert_eq!(
        parse_drawer_ref(Drawer::Graph, "* deadbee (HEAD -> main) Added decoded fallback"),
        DrawerRef::Commit("deadbee".into())
    );
    assert_eq!(
        parse_drawer_ref(Drawer::Branches, "* main"),
        DrawerRef::Branch { name: "main".into(), current: true }
    );
    assert_eq!(
        parse_drawer_ref(Drawer::Branches, "  origin/main"),
        DrawerRef::Branch { name: "origin/main".into(), current: false }
    );
    assert_eq!(
        parse_drawer_ref(Drawer::Stashes, "stash@{2}: WIP on main: 1a2b3c4 x"),
        DrawerRef::Stash(2)
    );
    assert_eq!(
        parse_drawer_ref(Drawer::Remotes, "origin  https://github.com/a/b.git"),
        DrawerRef::Remote { name: "origin".into(), url: "https://github.com/a/b.git".into() }
    );
    assert_eq!(parse_drawer_ref(Drawer::Tags, "v0.1.0"), DrawerRef::Tag("v0.1.0".into()));
    assert_eq!(parse_drawer_ref(Drawer::Tags, "(none)"), DrawerRef::Nothing);
    assert_eq!(
        parse_drawer_ref(Drawer::Worktrees, "C:/Users/x/proj  a1b2c3d [main]"),
        DrawerRef::Worktree("C:/Users/x/proj".into())
    );
    assert_eq!(parse_drawer_ref(Drawer::Worktrees, "(none)"), DrawerRef::Nothing);
}

#[test]
fn drawer_lines_prettify_for_display() {
    assert_eq!(
        pretty_worktree_line("C:/Users/x/Projects/herdr  7c12b6d [main]"),
        "herdr  ⎇ main"
    );
    assert_eq!(
        pretty_worktree_line("C:/x/wt-fix  1a2b3c4 (detached HEAD)"),
        "wt-fix  (detached)"
    );
    assert_eq!(pretty_worktree_line("(none)"), "(none)");
    assert_eq!(
        pretty_remote_line("origin  https://github.com/alexarthurs/herdr-sidebar.git"),
        "origin  alexarthurs/herdr-sidebar"
    );
    assert_eq!(pretty_remote_line("up  git@github.com:me/repo.git"), "up  me/repo");
    assert_eq!(
        pretty_remote_line("origin  C:/Users/x/Projects/.demo-origin.git"),
        "origin  .demo-origin"
    );
    assert_eq!(pretty_remote_line("(none)"), "(none)");
}

#[test]
fn scm_app_menu_navigation_skips_separators_and_clamps() {
    let entries = [
        MenuEntry::Action(MenuAction::StageOrUnstage, "Stage Changes"),
        MenuEntry::Separator,
        MenuEntry::Action(MenuAction::CopyPath, "Copy Path"),
    ];
    assert_eq!(step_menu(&entries, 0, -1), 0);
    assert_eq!(step_menu(&entries, 0, 1), 2, "skips the separator");
    assert_eq!(step_menu(&entries, 2, 1), 2);
}

#[test]
fn drawer_titles_are_title_case_and_include_worktrees() {
    let titles: Vec<&str> = Drawer::all().iter().map(|d| d.title()).collect();
    assert_eq!(
        titles,
        [
            "Graph",
            "Commits",
            "File History",
            "Branches",
            "Worktrees",
            "Remotes",
            "Stashes",
            "Tags"
        ]
    );
}
