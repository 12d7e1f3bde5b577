//! The file menu, the clipboard, editors and the folder picker.

use herdr_sidebar::actions::clipboard::{
    base64_encode, copy_ended, copy_to_clipboard, osc52_sequence, paste_from_clipboard, CopyStep,
    Platform,
};
use herdr_sidebar::actions::commands::{
    applescript_escape, open_command, parse_osascript_folder, picker_script, reveal_command,
};
use herdr_sidebar::actions::editor::{
    configured_editor, editor_argv, editor_file_key, editor_label, editor_tab_for_file,
    open_in_editor_tab, run_configured_editor, tab_create_ids, EditorError, EditorStep,
};
use herdr_sidebar::actions::menu::{
    menu_entries, taken_message, validate_name, MenuAction, MenuEntry,
};

fn has(entries: &[MenuEntry], action: MenuAction) -> bool {
    entries.iter().any(|e| matches!(e, MenuEntry::Action(a, _) if *a == action))
}

#[test]
fn menu_shape_for_rows_and_root() {
    let row = menu_entries(Some(false), true);
    assert!(matches!(row[0], MenuEntry::Action(MenuAction::NewFile, _)));
    assert!(has(&row, MenuAction::Delete));
    let root = menu_entries(None, true);
    assert!(!has(&root, MenuAction::Rename));
    assert!(has(&root, MenuAction::Reveal));
}

#[test]
fn open_external_is_offered_for_files_only() {
    assert!(has(&menu_entries(Some(false), true), MenuAction::OpenExternal), "file row");
    assert!(!has(&menu_entries(Some(true), true), MenuAction::OpenExternal), "directory row");
    assert!(!has(&menu_entries(None, true), MenuAction::OpenExternal), "empty space");
    // Directories keep everything else they had.
    assert!(has(&menu_entries(Some(true), true), MenuAction::Rename));
}

#[test]
fn stage_is_offered_for_rows_inside_a_repo_only() {
    assert!(has(&menu_entries(Some(false), true), MenuAction::Stage), "file row");
    assert!(has(&menu_entries(Some(true), true), MenuAction::Stage), "directory row");
    assert!(!has(&menu_entries(None, true), MenuAction::Stage), "empty space");
    assert!(!has(&menu_entries(Some(false), false), MenuAction::Stage), "outside a repo");
    assert!(!has(&menu_entries(Some(true), false), MenuAction::Stage));
}

#[test]
fn separators_stand_between_actions() {
    for target in [None, Some(false), Some(true)] {
        let entries = menu_entries(target, true);
        assert!(matches!(entries.first(), Some(MenuEntry::Action(..))));
        assert!(matches!(entries.last(), Some(MenuEntry::Action(..))));
        for pair in entries.windows(2) {
            assert!(!pair.iter().all(|e| matches!(e, MenuEntry::Separator)));
        }
    }
}

#[test]
fn name_validation_rejects_paths_and_blanks() {
    assert_eq!(validate_name("  notes.md ").as_deref(), Some("notes.md"));
    assert_eq!(validate_name(""), None);
    assert_eq!(validate_name("   "), None);
    assert_eq!(validate_name("a/b"), None);
    assert_eq!(validate_name("a\\b"), None);
    assert_eq!(validate_name("C:"), None);
    assert_eq!(validate_name(".."), None);
}

#[test]
fn a_single_dot_is_no_name_but_dotfiles_are() {
    assert_eq!(validate_name(" . "), None);
    assert_eq!(validate_name("...").as_deref(), Some("..."));
    assert_eq!(validate_name(".gitignore").as_deref(), Some(".gitignore"));
    assert_eq!(taken_message("a.txt"), "a.txt already exists");
}

#[test]
fn editor_command_is_split_without_a_shell_and_substitutes_the_file() {
    let file = "C:/work/my project/main.rs";
    assert_eq!(
        editor_argv("nvim -f", file).unwrap(),
        vec!["nvim", "-f", "C:/work/my project/main.rs"]
    );
    assert_eq!(
        editor_argv("code --goto \"{file}:12\"", file).unwrap(),
        vec!["code", "--goto", "C:/work/my project/main.rs:12"]
    );
    assert_eq!(
        editor_argv(r#"C:\Tools\Code\code.exe --wait"#, file).unwrap(),
        vec![r#"C:\Tools\Code\code.exe"#, "--wait", "C:/work/my project/main.rs"]
    );
    assert_eq!(
        editor_argv(r#""C:\Program Files\Code\code.exe" --wait"#, file).unwrap(),
        vec![r#"C:\Program Files\Code\code.exe"#, "--wait", "C:/work/my project/main.rs"]
    );
    assert!(editor_argv("\"unterminated", file).is_err());
}

#[test]
fn editor_commands_fail_with_a_reason() {
    assert_eq!(editor_argv("'open", "f"), Err(EditorError::Invalid));
    assert_eq!(editor_argv("   ", "f"), Err(EditorError::Empty));
    assert_eq!(EditorError::Invalid.message(), "invalid editor command");
    assert_eq!(EditorError::Empty.message(), "editor command is empty");
}

#[test]
fn quotes_and_backslashes_keep_words_whole() {
    assert_eq!(editor_argv("'a  b\\c\"d'", "f").unwrap(), vec!["a  b\\c\"d", "f"]);
    assert_eq!(editor_argv("a\\ b \"c\\\"d\\\\e\\f\"", "f").unwrap(), vec!["a b", "c\"d\\e\\f", "f"]);
    assert_eq!(editor_argv("'' x", "f").unwrap(), vec!["", "x", "f"]);
    assert_eq!(editor_argv("{file}{file} {file}", "f").unwrap(), vec!["ff", "f"]);
}

#[test]
fn the_stored_editor_wins_over_the_environment() {
    let set = [Some("  ".to_string()), None, Some(" vi ".to_string())];
    assert_eq!(configured_editor(Some("nano".into()), &set).as_deref(), Some("nano"));
    assert_eq!(configured_editor(None, &set).as_deref(), Some("vi"));
    assert_eq!(configured_editor(None, &[None, Some(String::new())]), None);
    assert_eq!(editor_label("main.rs"), "main.rs · editor");
}

#[test]
fn tab_create_response_exposes_editor_root_pane() {
    let response = r#"{"result":{"tab":{"tab_id":"w1:t9"},"root_pane":{"pane_id":"w1:p8"}}}"#;
    assert_eq!(tab_create_ids(response), Some(("w1:t9".into(), "w1:p8".into())));
    assert_eq!(tab_create_ids("garbage"), None);
}

#[test]
fn editor_tabs_reuse_only_the_live_matching_path_in_the_same_workspace() {
    let first = &editor_file_key("/one/README.md", false);
    let second = &editor_file_key("/two/README.md", false);
    assert_ne!(first, second, "same-named files keep distinct identities");
    let panes = format!(
        r#"{{"result":{{"panes":[
            {{"pane_id":"w1:p1","tab_id":"w1:t1","workspace_id":"w1",
              "tokens":{{"herdr-sidebar-editor":"100","hs-editor-path":"{first}"}}}},
            {{"pane_id":"w2:p1","tab_id":"w2:t1","workspace_id":"w2",
              "tokens":{{"herdr-sidebar-editor":"100","hs-editor-path":"{first}"}}}},
            {{"pane_id":"w1:p2","tab_id":"w1:t2","workspace_id":"w1",
              "tokens":{{"herdr-sidebar-editor":"1","hs-editor-path":"{second}"}}}}
        ]}}}}"#
    );
    assert_eq!(
        editor_tab_for_file(&panes, "w1", first, 100),
        Some(("w1:t1".into(), "w1:p1".into()))
    );
    assert_eq!(editor_tab_for_file(&panes, "w1", second, 100), None);
    assert_eq!(
        editor_tab_for_file(&panes, "w2", first, 100),
        Some(("w2:t1".into(), "w2:p1".into()))
    );
}

#[test]
fn editors_of_one_file_share_a_key() {
    assert_eq!(editor_file_key("/One/a.rs", false), "/One/a.rs");
    assert_eq!(editor_file_key("C:/One\\A.rs", true), "c:\\one\\a.rs");
}

#[test]
fn editors_are_stale_after_twenty_seconds() {
    let panes = r#"{"result":{"panes":[{"pane_id":"p","tab_id":"t","workspace_id":"w",
        "tokens":{"herdr-sidebar-editor":"80","hs-editor-path":"f"}}]}}"#;
    assert_eq!(editor_tab_for_file(panes, "w", "f", 100), Some(("t".into(), "p".into())));
    assert_eq!(editor_tab_for_file(panes, "w", "f", 101), None);
    // A heartbeat that is a number is none.
    let number = panes.replace("\"80\"", "80");
    assert_eq!(editor_tab_for_file(&number, "w", "f", 80), None);
}

#[test]
fn base64_matches_rfc_4648_padding_cases() {
    assert_eq!(base64_encode(b""), "");
    assert_eq!(base64_encode(b"f"), "Zg==");
    assert_eq!(base64_encode(b"fo"), "Zm8=");
    assert_eq!(base64_encode(b"foo"), "Zm9v");
    assert_eq!(base64_encode(b"foobar"), "Zm9vYmFy");
    assert_eq!(base64_encode("/path/héllo".as_bytes()), "L3BhdGgvaMOpbGxv");
}

#[test]
fn base64_uses_the_whole_alphabet() {
    assert_eq!(base64_encode(&[0xfb, 0xff, 0xfe]), "+//+");
    assert_eq!(base64_encode(&[0, 16, 131, 16, 81, 135]), "ABCDEFGH");
}

#[test]
fn the_terminal_is_asked_last() {
    assert_eq!(osc52_sequence("foo", false), "\x1b]52;c;Zm9v\x07");
    assert_eq!(osc52_sequence("foo", true), "\x1bPtmux;\x1b\x1b]52;c;Zm9v\x07\x1b\\");
    let tool = |platform, failed: usize| {
        let tried = vec![Err("gone".to_string()); failed];
        match copy_to_clipboard(platform, &tried, "foo", false).unwrap() {
            CopyStep::Run(argv) => argv.join(" "),
            CopyStep::Print(sequence) => sequence,
        }
    };
    assert_eq!(tool(Platform::Windows, 0), "clip");
    assert_eq!(tool(Platform::Windows, 1), "\x1b]52;c;Zm9v\x07");
    assert_eq!(tool(Platform::Unix, 0), "pbcopy");
    assert_eq!(tool(Platform::Unix, 1), "wl-copy");
    assert_eq!(tool(Platform::MacOs, 2), "xclip -selection clipboard");
    assert_eq!(tool(Platform::Unix, 3), "\x1b]52;c;Zm9v\x07");
    let paste = |platform, failed| paste_from_clipboard(platform, failed).map(|v| v.join(" "));
    assert_eq!(paste(Platform::MacOs, 0).as_deref(), Some("pbpaste"));
    assert_eq!(paste(Platform::Unix, 0).as_deref(), Some("wl-paste --no-newline"));
    assert_eq!(paste(Platform::Unix, 1).as_deref(), Some("xclip -selection clipboard -o"));
    assert_eq!(paste(Platform::Unix, 2), None);
    assert_eq!(paste_from_clipboard(Platform::Windows, 0).map(|v| v.len()), Some(5));
}

#[test]
fn a_copy_ends_with_the_first_tool_that_takes_it() {
    let failed = |why: &str| Err(why.to_string());
    let tried = vec![failed("no pbcopy"), Ok(())];
    assert!(copy_to_clipboard(Platform::Unix, &tried, "foo", false).is_none());
    assert_eq!(copy_ended(&tried, &failed("not asked")), Ok(()));
    let tools = vec![failed("no pbcopy"), failed("no wl-copy"), failed("no xclip")];
    assert_eq!(copy_ended(&tools, &Ok(())), Ok(()));
    assert_eq!(copy_ended(&tools, &failed("broken pipe")), failed("no xclip"));
    assert_eq!(copy_ended(&Vec::new(), &failed("x")), failed("no clipboard tool found"));
}

#[test]
fn applescript_literals_escape_backslashes_before_quotes() {
    assert_eq!(applescript_escape("/tmp/plain"), "/tmp/plain");
    assert_eq!(applescript_escape(r#"/tmp/a"b"#), r#"/tmp/a\"b"#);
    assert_eq!(applescript_escape(r"/tmp/a\b"), r"/tmp/a\\b");
    assert_eq!(applescript_escape(r#"/tmp/a\"b"#), r#"/tmp/a\\\"b"#);
}

#[test]
fn osascript_picker_output_parsing_handles_cancel_root_and_trailing_slash() {
    assert_eq!(parse_osascript_folder(false, b"/ignored/\n"), None);
    assert_eq!(parse_osascript_folder(true, b"\n"), None);
    assert_eq!(parse_osascript_folder(true, b"/\n").as_deref(), Some("/"));
    assert_eq!(
        parse_osascript_folder(true, b"/Users/alex/My Folder/\n").as_deref(),
        Some("/Users/alex/My Folder")
    );
}

#[test]
fn picked_folders_are_read_as_text_whatever_the_bytes() {
    assert_eq!(
        parse_osascript_folder(true, b"/a\xffb\n").as_deref(),
        Some("/a\u{fffd}b")
    );
    assert_eq!(parse_osascript_folder(true, "/é//\n".as_bytes()).as_deref(), Some("/é"));
}

#[test]
fn commands_differ_by_platform() {
    let reveal = |platform, parent, directory| {
        reveal_command(platform, "/a/b", parent, directory).map(|argv| argv.join("|"))
    };
    assert_eq!(reveal(Platform::Windows, None, true).as_deref(), Some("explorer|/a/b"));
    assert_eq!(reveal(Platform::Windows, None, false).as_deref(), Some("explorer|/select,/a/b"));
    assert_eq!(reveal(Platform::MacOs, None, true).as_deref(), Some("open|/a/b"));
    assert_eq!(reveal(Platform::MacOs, None, false).as_deref(), Some("open|-R|/a/b"));
    assert_eq!(reveal(Platform::Unix, Some("/a"), true).as_deref(), Some("xdg-open|/a/b"));
    assert_eq!(reveal(Platform::Unix, Some("/a"), false).as_deref(), Some("xdg-open|/a"));
    assert_eq!(reveal(Platform::Unix, None, false), None);
    assert_eq!(open_command(Platform::Unix, "f"), vec!["xdg-open", "f"]);
    assert_eq!(open_command(Platform::MacOs, "f"), vec!["open", "f"]);
    assert_eq!(open_command(Platform::Windows, "f"), vec!["explorer", "f"]);
    assert_eq!(
        picker_script(Some("/a\"b")),
        "POSIX path of (choose folder with prompt \"Open Folder\" default location POSIX file \"/a\\\"b\")"
    );
    assert_eq!(picker_script(None), "POSIX path of (choose folder with prompt \"Open Folder\")");
}

#[test]
fn files_open_where_their_editor_is() {
    let panes = r#"{"result":{"panes":[
        {"pane_id":"w1:p1","tab_id":"w1:t1","workspace_id":"w1","tokens":{}},
        {"pane_id":"w1:p2","tab_id":"w1:t2","workspace_id":"w1",
         "tokens":{"hs-editor-path":"f1","herdr-sidebar-editor":"100"}}
    ]}}"#;
    let open = |command: Option<&str>, pane: &str, token: &str| {
        open_in_editor_tab(command.map(String::from), panes, pane, token, "a.rs", 110)
    };
    assert!(matches!(
        open(None, "w1:p1", "f1"),
        EditorStep::Fail("set HERDR_SIDEBAR_EDITOR, VISUAL, or EDITOR")
    ));
    assert!(matches!(
        open(Some("vim"), "w9:p9", "f1"),
        EditorStep::Fail("could not find the current workspace")
    ));
    assert!(matches!(
        open(Some("vim"), "w1:p1", "f1"),
        EditorStep::Focus { tab_id, pane_id } if tab_id == "w1:t2" && pane_id == "w1:p2"
    ));
    assert!(matches!(
        open(Some("vim"), "w1:p1", "f2"),
        EditorStep::Create { workspace_id, label, command }
            if workspace_id == "w1" && label == "a.rs · editor" && command == "vim"
    ));
}

#[test]
fn an_editor_tab_runs_what_it_was_given() {
    assert_eq!(
        run_configured_editor(None, Some("x")),
        Err("custom editor is not configured".to_string())
    );
    assert_eq!(
        run_configured_editor(Some("vim"), None),
        Err("editor file is missing".to_string())
    );
    assert_eq!(
        run_configured_editor(Some("vim 'a"), Some("x")),
        Err("invalid editor command".to_string())
    );
    assert_eq!(
        run_configured_editor(Some(" "), Some("x")),
        Err("editor command is empty".to_string())
    );
    assert_eq!(
        run_configured_editor(Some("vim -p"), Some("x")),
        Ok(vec!["vim".to_string(), "-p".to_string(), "x".to_string()])
    );
}
