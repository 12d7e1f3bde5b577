//! Decisions over the messages of the multiplexer.

use herdr_sidebar::launch::decision::{
    focus_as_close, focused_pane, focused_pane_in, launch_decision, launch_decision_git,
    launch_decision_in, pane_has_token, pane_is_starting,
};
use herdr_sidebar::launch::events::{
    event_kind, event_scope, event_scope_in, event_scope_with_tab_context,
};
use herdr_sidebar::launch::follow::CwdFollower;
use herdr_sidebar::launch::layout::{self, layout_width, repair_step};
use herdr_sidebar::launch::queries::{
    focused_tab, live_tabs, pane_in_tab, pane_outside_tab, server_focused_pane_id, tab_of,
    work_panes_in_tab, workspace_of,
};
use herdr_sidebar::launch::replies::{
    created_tab_root_pane, plugin_pane_id, split_pane_id, workspace_label,
};
use herdr_sidebar::launch::resize::{preferred_resize_plan, resize_plan, ResizeStep};

/// The share of the split that a step covers.
fn amount(step: &ResizeStep) -> f64 {
    step.columns as f64 / step.of as f64
}

/// How far each divider of a layout lies from the left edge of its split.
fn dividers(json: &str) -> Vec<Option<i64>> {
    let divider = |(width, ratio): (i64, String)| {
        let ratio = serde_json::from_str::<f64>(&ratio).ok()?;
        Some((f64::from(width as i32) * ratio).round() as i64)
    };
    layout::split_shares(json).into_iter().map(|share| share.and_then(divider)).collect()
}

/// The split target, the share that stays with it and whether the two swap.
fn open_plan(json: &str, dock_right: bool, columns: u16) -> String {
    let Some(plan) = layout::open_plan(json, dock_right, columns) else {
        return String::new();
    };
    let (columns, of) = layout::split_share(&plan);
    let ratio = columns as f64 / of as f64;
    format!("{}\t{ratio:.6}\t{}", plan.pane_id, plan.swap)
}

/// Strict toggle rewrites only the FOCUS decision; OPEN, CLOSE, and
/// REPLACE (and garbage) must reach the launchers untouched.
#[test]
fn strict_toggle_maps_focus_to_close_and_nothing_else() {
    assert_eq!(focus_as_close("FOCUS w4:p2"), "CLOSE w4:p2");
    assert_eq!(focus_as_close("OPEN"), "OPEN");
    assert_eq!(focus_as_close("CLOSE w4:p2"), "CLOSE w4:p2");
    assert_eq!(focus_as_close("REPLACE w4:p2"), "REPLACE w4:p2");
    assert_eq!(focus_as_close(""), "");
}

/// The decision and the dock must reason about the SAME tab. Scoping only
/// the spawn cwd would let the decision see a focused tab with no sidebar,
/// answer OPEN, and dock a second sidebar into a scoped tab that already
/// had one.
#[test]
fn the_decision_follows_the_same_scope_as_the_dock() {
    let json = pane_list(
        r#"{"pane_id":"w4:pM","tab_id":"w4:tY","workspace_id":"w4","focused":true,"cwd":"/repo/faultline"},
           {"pane_id":"wH:p1","tab_id":"wH:t1","workspace_id":"wH","cwd":"/repo/tremor"},
           {"pane_id":"wH:p2","tab_id":"wH:t1","workspace_id":"wH","label":"Explorer",
            "tokens":{"herdr-sidebar-explorer":"9999999999"}}"#,
    );
    // Unscoped: the focused tab has no explorer, so a fresh one is right.
    assert_eq!(launch_decision_in(&json, 9999999999, ""), "OPEN");
    // Scoped to wH, whose tab ALREADY has one — docking again would twin it.
    assert_eq!(launch_decision_in(&json, 9999999999, "wH"), "FOCUS wH:p2");
}

/// The sidebar is rooted from the cwd it is spawned with, so picking the
/// globally focused pane roots a new tab's sidebar in whatever project
/// the user was last looking at — observed live as tremor's sidebar
/// rooted in bedrock. The event payload names the scope; honor it.
#[test]
fn spawn_cwd_comes_from_the_events_own_scope() {
    let json = pane_list(
        r#"{"pane_id":"w4:pM","tab_id":"w4:tY","workspace_id":"w4","focused":true,"foreground_cwd":"/repo/faultline"},
           {"pane_id":"wH:p1","tab_id":"wH:t1","workspace_id":"wH","foreground_cwd":"/repo/tremor"},
           {"pane_id":"wH:p9","tab_id":"wH:t2","workspace_id":"wH","foreground_cwd":"/repo/tremor/sub"}"#,
    );
    // A multi-tab workspace is ambiguous and must not borrow one tab.
    assert_eq!(focused_pane_in(&json, "wH"), "");
    // A tab scope is more specific still.
    assert_eq!(focused_pane_in(&json, "wH:t2"), "wH:p9\t/repo/tremor/sub");
    // No scope keeps the old global behavior.
    assert_eq!(focused_pane_in(&json, ""), "w4:pM\t/repo/faultline");
    // A scope whose panes are gone yields nothing rather than guessing.
    assert_eq!(focused_pane_in(&json, "wQ"), "");
}

/// Within a scope the focused pane still wins; a brand-new space may have
/// no focused pane yet, and then any pane in it is the right root.
#[test]
fn a_scope_prefers_its_focused_pane_but_settles_for_any() {
    let json = pane_list(
        r#"{"pane_id":"wH:p1","tab_id":"wH:t1","workspace_id":"wH","foreground_cwd":"/repo/a"},
           {"pane_id":"wH:p2","tab_id":"wH:t1","workspace_id":"wH","focused":true,"foreground_cwd":"/repo/b"}"#,
    );
    assert_eq!(focused_pane_in(&json, "wH"), "wH:p2\t/repo/b");

    let unfocused = pane_list(
        r#"{"pane_id":"wH:p1","tab_id":"wH:t1","workspace_id":"wH","foreground_cwd":"/repo/a"}"#,
    );
    assert_eq!(focused_pane_in(&unfocused, "wH"), "wH:p1\t/repo/a");
}

#[test]
fn spawn_scope_falls_back_to_cwd_when_live_cwd_is_unavailable() {
    let json = pane_list(
        r#"{"pane_id":"wH:p1","tab_id":"wH:t1","workspace_id":"wH","focused":true,
            "cwd":"C:\\repo\\tremor"}"#,
    );
    assert_eq!(focused_pane_in(&json, "wH:t1"), "wH:p1\tC:\\repo\\tremor");
}

#[test]
fn event_scope_prefers_the_tab_then_the_workspace() {
    let tab = r#"{"event":"tab_focused","data":{"type":"tab_focused","tab_id":"w4:tY","workspace_id":"w4"}}"#;
    assert_eq!(event_scope(tab), "w4:tY");
    let ws = r#"{"event":"workspace_created","data":{"type":"workspace_created","workspace_id":"wH"}}"#;
    assert_eq!(event_scope(ws), "wH");
    // Nested workspace object, as workspace_created carries WorkspaceInfo.
    let nested = r#"{"event":"workspace_created","data":{"type":"workspace_created","workspace":{"workspace_id":"wH"}}}"#;
    assert_eq!(event_scope(nested), "wH");
    assert_eq!(event_scope("garbage"), "");
    // Shell-unsafe ids are dropped, same as the event kind.
    assert_eq!(
        event_scope(r#"{"data":{"workspace_id":"a b; rm -rf /"}}"#),
        ""
    );
}

#[test]
fn pane_focus_scope_resolves_to_its_own_tab() {
    let event = r#"{"data":{"type":"pane_focused","pane_id":"w4:p9","workspace_id":"w4"}}"#;
    let panes = pane_list(
        r#"{"pane_id":"w4:p1","tab_id":"w4:t1","workspace_id":"w4"},
           {"pane_id":"w4:p9","tab_id":"w4:t2","workspace_id":"w4"}"#,
    );
    assert_eq!(event_scope_in(event, &panes), "w4:t2");
    assert_eq!(event_scope(event), "w4");
}

#[test]
fn workspace_focus_uses_its_active_tab_context() {
    let event = r#"{"event":"workspace.focused","data":{"workspace_id":"w4"}}"#;
    let panes = pane_list(
        r#"{"pane_id":"w4:p1","tab_id":"w4:t1","workspace_id":"w4"},
           {"pane_id":"w4:p9","tab_id":"w4:t2","workspace_id":"w4","focused":true,"foreground_cwd":"/repo/two"}"#,
    );
    let scope = event_scope_with_tab_context(event, &panes, "w4:t2");
    assert_eq!(scope, "w4:t2");
    assert_eq!(focused_pane_in(&panes, &scope), "w4:p9\t/repo/two");
    assert_eq!(event_scope_with_tab_context(event, &panes, "w9:t1"), "w4");
}

/// The launcher handles several event kinds through one implementation, so the only
/// way to treat space creation specially is the payload. The envelope
/// shape isn't documented, so the discriminator is looked for at the top
/// level and under the usual wrappers.
#[test]
fn event_kind_is_found_whatever_the_envelope() {
    assert_eq!(
        event_kind(r#"{"type":"workspace_created"}"#),
        "workspace_created"
    );
    assert_eq!(
        event_kind(r#"{"data":{"type":"workspace_created"}}"#),
        "workspace_created"
    );
    assert_eq!(
        event_kind(r#"{"event":{"type":"tab_focused"}}"#),
        "tab_focused"
    );
    assert_eq!(event_kind(r#"{"event":"tab.created"}"#), "tab_created");
}

/// The kind is interpolated into a shell command, so anything that is not
/// a plain lower_snake identifier is dropped rather than passed along.
#[test]
fn event_kind_refuses_anything_shell_unsafe() {
    for hostile in [
        r#"{"type":"a; rm -rf /"}"#,
        r#"{"type":"$(whoami)"}"#,
        r#"{"type":"a b"}"#,
        r#"{"type":42}"#,
        r#"{"type":""}"#,
        "garbage",
    ] {
        assert_eq!(event_kind(hostile), "", "{hostile}");
    }
}

#[test]
fn workspace_labels_resolve_by_id_and_degrade_quietly() {
    let json = r#"{"result":{"workspaces":[
        {"workspace_id":"wG","label":"tremor"},
        {"workspace_id":"w4","label":"faultline"},
        {"workspace_id":"wZ"}
    ]}}"#;
    assert_eq!(workspace_label(json, "wG"), "tremor");
    assert_eq!(workspace_label(json, "w4"), "faultline");
    // A space with no label, an id that is gone, and a missing id all
    // yield "" so the caller falls back to the pane's cwd.
    assert_eq!(workspace_label(json, "wZ"), "");
    assert_eq!(workspace_label(json, "wQ"), "");
    assert_eq!(workspace_label(json, ""), "");
    assert_eq!(workspace_label("garbage", "wG"), "");
}

fn pane_list(panes: &str) -> String {
    format!(r#"{{"id":"cli:pane:list","result":{{"panes":[{panes}]}}}}"#)
}

/// Every kind of pane this plugin owns is excluded — by token when the
/// process is live, by label when herdr restored the pane without its
/// metadata — and so is every pane in another tab.
#[test]
fn work_panes_are_the_users_own_panes_in_the_tab() {
    let json = pane_list(
        r#"{"pane_id":"w1:p1","tab_id":"w1:t1","label":"Sidebar","tokens":{"herdr-sidebar-explorer":"1"}},
           {"pane_id":"w1:p2","tab_id":"w1:t1","label":"agent"},
           {"pane_id":"w1:p3","tab_id":"w1:t1","tokens":{"herdr-sidebar-git":"1"}},
           {"pane_id":"w1:p4","tab_id":"w1:t1","tokens":{"herdr-sidebar-preview":"1"}},
           {"pane_id":"w1:p5","tab_id":"w1:t1","label":"Preview"},
           {"pane_id":"w1:p6","tab_id":"w1:t1","label":"Source Control"},
           {"pane_id":"w1:p7","tab_id":"w1:t1"},
           {"pane_id":"w1:p8","tab_id":"w1:t2","label":"shell"}"#,
    );
    assert_eq!(work_panes_in_tab(&json, "w1:t1"), vec!["w1:p2", "w1:p7"]);
    assert_eq!(work_panes_in_tab(&json, "w1:t2"), vec!["w1:p8"]);
    assert!(work_panes_in_tab(&json, "w1:t9").is_empty());
    assert!(work_panes_in_tab("garbage", "w1:t1").is_empty());
}

#[test]
fn cwd_follower_uses_only_live_foreground_cwd() {
    let mut follower = CwdFollower::default();
    let live = pane_list(
        r#"{"pane_id":"w1:p3","tab_id":"w1:t1","label":"Sidebar","tokens":{"herdr-sidebar-explorer":"1"}},
           {"pane_id":"w1:p1","tab_id":"w1:t1","cwd":"/stale/spawn","foreground_cwd":"/live/project"}"#,
    );
    assert_eq!(
        follower.next_cwd(&live, "w1:p3").as_deref(),
        Some("/live/project")
    );

    follower.reset();
    let stale_only = pane_list(
        r#"{"pane_id":"w1:p3","tab_id":"w1:t1","label":"Sidebar"},
           {"pane_id":"w1:p1","tab_id":"w1:t1","cwd":"/stale/spawn"}"#,
    );
    assert_eq!(follower.next_cwd(&stale_only, "w1:p3"), None);
}

#[test]
fn cwd_follower_has_deterministic_multi_pane_precedence() {
    let mut follower = CwdFollower::default();
    let unordered = pane_list(
        r#"{"pane_id":"w1:p3","tab_id":"w1:t1","label":"Sidebar"},
           {"pane_id":"w1:p9","tab_id":"w1:t1","foreground_cwd":"/nine"},
           {"pane_id":"w1:p1","tab_id":"w1:t1","foreground_cwd":"/one"}"#,
    );
    // No focused sibling: lexical pane id is the stable fallback.
    assert_eq!(
        follower.next_cwd(&unordered, "w1:p3").as_deref(),
        Some("/one")
    );
    assert_eq!(follower.next_cwd(&unordered, "w1:p3"), None);

    let focused = pane_list(
        r#"{"pane_id":"w1:p3","tab_id":"w1:t1","label":"Sidebar"},
           {"pane_id":"w1:p9","tab_id":"w1:t1","foreground_cwd":"/nine","focused":true},
           {"pane_id":"w1:p1","tab_id":"w1:t1","foreground_cwd":"/one"}"#,
    );
    assert_eq!(
        follower.next_cwd(&focused, "w1:p3").as_deref(),
        Some("/nine")
    );
}

#[test]
fn manual_folder_wins_until_an_observed_pane_moves() {
    let mut follower = CwdFollower::default();
    let initial = pane_list(
        r#"{"pane_id":"w1:p3","tab_id":"w1:t1","label":"Sidebar"},
           {"pane_id":"w1:p1","tab_id":"w1:t1","foreground_cwd":"/one"},
           {"pane_id":"w1:p2","tab_id":"w1:t1","foreground_cwd":"/two"}"#,
    );
    assert_eq!(
        follower.next_cwd(&initial, "w1:p3").as_deref(),
        Some("/one")
    );
    follower.mark_manual_folder();

    // Focus alone, pane-list reordering, and a newly-created pane do not
    // override an explicit folder choice.
    let focus_only = pane_list(
        r#"{"pane_id":"w1:p3","tab_id":"w1:t1","label":"Sidebar"},
           {"pane_id":"w1:p4","tab_id":"w1:t1","foreground_cwd":"/new"},
           {"pane_id":"w1:p2","tab_id":"w1:t1","foreground_cwd":"/two","focused":true},
           {"pane_id":"w1:p1","tab_id":"w1:t1","foreground_cwd":"/one"}"#,
    );
    assert_eq!(follower.next_cwd(&focus_only, "w1:p3"), None);

    let moved = pane_list(
        r#"{"pane_id":"w1:p3","tab_id":"w1:t1","label":"Sidebar"},
           {"pane_id":"w1:p1","tab_id":"w1:t1","foreground_cwd":"/one"},
           {"pane_id":"w1:p2","tab_id":"w1:t1","foreground_cwd":"/two/next","focused":true}"#,
    );
    assert_eq!(
        follower.next_cwd(&moved, "w1:p3").as_deref(),
        Some("/two/next")
    );
}

#[test]
fn cwd_follower_ignores_plugin_panes_and_other_tabs() {
    let json = pane_list(
        r#"{"pane_id":"w1:p3","tab_id":"w1:t1","label":"Sidebar"},
           {"pane_id":"w1:p1","tab_id":"w1:t1","label":"Source Control","foreground_cwd":"/sc"},
           {"pane_id":"w1:p2","tab_id":"w1:t1","label":"Preview · routes.rs","foreground_cwd":"/preview"},
           {"pane_id":"w1:p5","tab_id":"w1:t1","label":"routes.rs · editor","foreground_cwd":"/editor"},
           {"pane_id":"w1:p4","tab_id":"w1:t2","foreground_cwd":"/other"}"#,
    );
    assert_eq!(CwdFollower::default().next_cwd(&json, "w1:p3"), None);
}

const FOCUSED: &str =
    r#"{"pane_id":"w1:p1","focused":true,"tab_id":"w1:t1","cwd":"C:\\work\\my repo"}"#;

#[test]
fn decision_opens_when_no_explorer_in_tab() {
    let json = pane_list(&format!(
        r#"{FOCUSED},{{"pane_id":"w1:p9","label":"Explorer","tab_id":"w1:t2"}}"#
    ));
    assert_eq!(
        launch_decision(&json, 100),
        "OPEN",
        "other-tab Explorer is ignored"
    );
}

#[test]
fn decision_focuses_unfocused_explorer_in_same_tab() {
    let json = pane_list(&format!(
        r#"{FOCUSED},{{"pane_id":"w1:p2","label":"Explorer","tab_id":"w1:t1","tokens":{{"herdr-sidebar-explorer":95}}}}"#
    ));
    assert_eq!(launch_decision(&json, 100), "FOCUS w1:p2");
}

#[test]
fn decision_closes_when_explorer_is_focused() {
    let json = pane_list(
        r#"{"pane_id":"w1:p2","label":"Explorer","tab_id":"w1:t1","focused":true,"tokens":{"herdr-sidebar-explorer":95}}"#,
    );
    assert_eq!(launch_decision(&json, 100), "CLOSE w1:p2");
}

#[test]
fn decision_recognizes_explorer_by_metadata_token_without_label() {
    // A collapsed explorer has its label cleared but keeps its token;
    // the token value is a fresh heartbeat timestamp.
    let json = pane_list(&format!(
        r#"{FOCUSED},{{"pane_id":"w1:p2","tab_id":"w1:t1","tokens":{{"herdr-sidebar-explorer":95}}}}"#
    ));
    assert_eq!(launch_decision(&json, 100), "FOCUS w1:p2");
}

#[test]
fn pane_token_probe_distinguishes_starting_and_live_sidebars() {
    let starting = pane_list(
        r#"{"pane_id":"w1:p1","tab_id":"w1:t1","label":"Explorer","focused":true,"tokens":{"herdr-sidebar-explorer":"100","herdr-sidebar-starting":"1"}}"#,
    );
    let live = pane_list(
        r#"{"pane_id":"w1:p1","tab_id":"w1:t1","label":"Explorer","tokens":{"herdr-sidebar-explorer":"100"}}"#,
    );
    // Synchronous pre-stamping makes the pane live to re-entrant hooks,
    // while retaining enough state for an immediate second toggle to
    // close it directly before its event loop starts.
    assert_eq!(launch_decision(&starting, 100), "CLOSE w1:p1");
    assert!(pane_has_token(&starting, "w1:p1"));
    assert!(pane_has_token(&live, "w1:p1"));
    assert!(!pane_has_token(&live, "w1:p2"));
    assert!(pane_is_starting(&starting, "w1:p1"));
    assert!(!pane_is_starting(&live, "w1:p1"));
    assert!(!pane_is_starting(&starting, "w1:p2"));

    let source_control = pane_list(
        r#"{"pane_id":"w1:p1","tab_id":"w1:t1","label":"Source Control","focused":true,"tokens":{"herdr-sidebar-git":"100","herdr-sidebar-starting":"1"}}"#,
    );
    assert_eq!(launch_decision_git(&source_control, 100), "CLOSE w1:p1");
    assert!(pane_is_starting(&source_control, "w1:p1"));
}

#[test]
fn decision_replaces_dead_panes() {
    // Stale heartbeat (or a pre-heartbeat token shape) = a dead TUI whose
    // pane must be closed and re-docked, never focused.
    let stale = pane_list(&format!(
        r#"{FOCUSED},{{"pane_id":"w1:p2","tab_id":"w1:t1","tokens":{{"herdr-sidebar-explorer":40}}}}"#
    ));
    assert_eq!(launch_decision(&stale, 100), "REPLACE w1:p2");
    let legacy = pane_list(&format!(
        r#"{FOCUSED},{{"pane_id":"w1:p2","tab_id":"w1:t1","tokens":{{"herdr-sidebar-explorer":{{"value":"explorer"}}}}}}"#
    ));
    assert_eq!(launch_decision(&legacy, 100), "REPLACE w1:p2");
    // Label without a token = a RESUMED corpse (labels survive server
    // restarts, tokens and the process do not) — for every our-label.
    for label in ["Explorer", "Sidebar"] {
        let corpse = pane_list(&format!(
            r#"{FOCUSED},{{"pane_id":"w1:p2","label":"{label}","tab_id":"w1:t1"}}"#
        ));
        assert_eq!(
            launch_decision(&corpse, 100),
            "REPLACE w1:p2",
            "{label} corpse"
        );
    }
    let sc_corpse = pane_list(&format!(
        r#"{FOCUSED},{{"pane_id":"w1:p3","label":"Source Control","tab_id":"w1:t1"}}"#
    ));
    assert_eq!(launch_decision_git(&sc_corpse, 100), "REPLACE w1:p3");
    // Same rules for the separated Source Control decision.
    let sc_stale = pane_list(&format!(
        r#"{FOCUSED},{{"pane_id":"w1:p3","tab_id":"w1:t1","tokens":{{"herdr-sidebar-git":40}}}}"#
    ));
    assert_eq!(launch_decision_git(&sc_stale, 100), "REPLACE w1:p3");
    let sc_live = pane_list(&format!(
        r#"{FOCUSED},{{"pane_id":"w1:p3","tab_id":"w1:t1","tokens":{{"herdr-sidebar-git":95}}}}"#
    ));
    assert_eq!(launch_decision_git(&sc_live, 100), "FOCUS w1:p3");
}

#[test]
fn decision_degrades_to_open_on_garbage_or_unsafe_ids() {
    assert_eq!(launch_decision("not json", 100), "OPEN");
    assert_eq!(
        launch_decision(&pane_list(r#"{"pane_id":"w1:p1"}"#), 100),
        "OPEN"
    );
    let json = pane_list(&format!(
        r#"{FOCUSED},{{"pane_id":"--evil","label":"Explorer","tab_id":"w1:t1"}}"#
    ));
    assert_eq!(launch_decision(&json, 100), "OPEN");
}

#[test]
fn utf8_bom_from_powershell_pipe_is_stripped() {
    let json = format!("\u{feff}{}", pane_list(FOCUSED));
    assert_eq!(launch_decision(&json, 100), "OPEN");
    assert!(focused_pane(&json).starts_with("w1:p1\t"));
    let layout_json = format!(
        "\u{feff}{}",
        layout(r#"{"pane_id":"w1:p1","rect":{"x":0,"y":0,"width":90,"height":50}}"#)
    );
    assert_eq!(open_plan(&layout_json, false, 32), "w1:p1\t0.355556\ttrue");
}

#[test]
fn focused_pane_reports_id_and_stripped_cwd() {
    let json = pane_list(&format!(
        r#"{{"pane_id":"w1:p3","focused":true,"tab_id":"w1:t1","cwd":"\\\\?\\C:\\work\\my repo"}},{FOCUSED}"#
    ));
    assert_eq!(focused_pane(&json), "w1:p3\tC:\\work\\my repo");
    assert_eq!(focused_pane("not json"), "");
    assert_eq!(focused_pane(&pane_list(r#"{"pane_id":"w1:p1"}"#)), "");
}

fn layout(panes: &str) -> String {
    format!(r#"{{"id":"cli:pane:layout","result":{{"layout":{{"panes":[{panes}]}}}}}}"#)
}

#[test]
fn open_plan_picks_leftmost_topmost_pane() {
    let json = layout(
        r#"{"pane_id":"w1:p2","rect":{"x":119,"y":1,"width":90,"height":70}},
           {"pane_id":"w1:p3","rect":{"x":29,"y":36,"width":90,"height":35}},
           {"pane_id":"w1:p1","rect":{"x":29,"y":1,"width":90,"height":35}}"#,
    );
    let plan = open_plan(&json, false, 32);
    let (id, ratio) = plan.split_once('\t').unwrap();
    assert_eq!(id, "w1:p1");
    assert_eq!(ratio, "0.355556\ttrue"); // 32 / 90, then swap left
}

#[test]
fn open_plan_picks_rightmost_topmost_pane_and_inverts_ratio() {
    let json = layout(
        r#"{"pane_id":"w1:p2","rect":{"x":119,"y":36,"width":90,"height":35}},
           {"pane_id":"w1:p3","rect":{"x":29,"y":1,"width":90,"height":70}},
           {"pane_id":"w1:p1","rect":{"x":119,"y":1,"width":90,"height":35}}"#,
    );
    assert_eq!(open_plan(&json, true, 32), "w1:p1\t0.644444\tfalse");
}

#[test]
fn the_split_leaves_the_rest_where_nothing_swaps() {
    let json = layout(r#"{"pane_id":"w1:p1","rect":{"x":0,"y":0,"width":90,"height":50}}"#);
    let left = layout::open_plan(&json, false, 32).unwrap();
    assert_eq!(layout::split_share(&left), (32, 90));
    let right = layout::open_plan(&json, true, 32).unwrap();
    assert_eq!(layout::split_share(&right), (58, 90));
}

#[test]
fn open_plan_clamps_ratio() {
    let wide = layout(r#"{"pane_id":"w1:p1","rect":{"x":0,"y":0,"width":400,"height":50}}"#);
    assert_eq!(open_plan(&wide, false, 32), "w1:p1\t0.150000\ttrue");
    assert_eq!(open_plan(&wide, true, 32), "w1:p1\t0.850000\tfalse");
    let narrow = layout(r#"{"pane_id":"w1:p1","rect":{"x":0,"y":0,"width":40,"height":50}}"#);
    assert_eq!(open_plan(&narrow, false, 32), "w1:p1\t0.500000\ttrue");
    assert_eq!(open_plan(&narrow, true, 32), "w1:p1\t0.500000\tfalse");
    assert_eq!(open_plan(&narrow, false, 24), "w1:p1\t0.500000\ttrue");
}

#[test]
fn layout_width_distinguishes_tab_area_from_pane_width() {
    let json = r#"{"result":{"layout":{"area":{"x":0,"y":0,"width":174,"height":50},"panes":[{"pane_id":"e","rect":{"x":0,"y":0,"width":42,"height":50}}]}}}"#;
    assert_eq!(layout_width(json), Some(174));
    assert_eq!(layout_width("not json"), None);
}

#[test]
fn focused_tab_and_live_tabs() {
    let json = pane_list(&format!(
        r#"{FOCUSED},{{"pane_id":"w1:p9","tab_id":"w1:t2"}}"#
    ));
    assert_eq!(focused_tab(&json), "w1:t1");
    assert_eq!(
        live_tabs(&json),
        vec!["w1:t1".to_string(), "w1:t2".to_string()]
    );
    assert_eq!(focused_tab("not json"), "");
    assert!(live_tabs("not json").is_empty());
}

#[test]
fn split_pane_id_extracts_and_validates() {
    let json =
        r#"{"id":"x","result":{"pane":{"pane_id":"w3:p5","cwd":"C:x"},"type":"pane_info"}}"#;
    assert_eq!(split_pane_id(json), Some("w3:p5".to_string()));
    let evil = r#"{"id":"x","result":{"pane":{"pane_id":"--evil"},"type":"pane_info"}}"#;
    assert_eq!(split_pane_id(evil), None);
    assert_eq!(split_pane_id("not json"), None);
    assert_eq!(split_pane_id(r#"{"id":"x","result":{"type":"ok"}}"#), None);
}

#[test]
fn plugin_pane_id_extracts_and_validates() {
    let json = r#"{"result":{"plugin_pane":{"plugin_id":"herdr-sidebar","entrypoint":"sidebar","pane":{"pane_id":"w3:p5"}}}}"#;
    assert_eq!(plugin_pane_id(json), Some("w3:p5".to_string()));
    let evil = r#"{"result":{"plugin_pane":{"pane":{"pane_id":"--evil"}}}}"#;
    assert_eq!(plugin_pane_id(evil), None);
    assert_eq!(plugin_pane_id("not json"), None);
}

fn layout_with_splits(panes: &str, splits: &str) -> String {
    format!(
        r#"{{"id":"cli:pane:layout","result":{{"layout":{{"panes":[{panes}],"splits":[{splits}]}}}}}}"#
    )
}

fn layout_with_area(panes: &str) -> String {
    format!(
        r#"{{"id":"x","result":{{"layout":{{"area":{{"x":0,"y":0,"width":180,"height":50}},"tab_id":"w1:t1","panes":[{panes}]}}}}}}"#
    )
}

#[test]
fn repair_step_finds_below_and_right_panes() {
    // Explorer truncated to the top-left; p7 spans below it, p1 beside it.
    let json = layout_with_area(
        r#"{"pane_id":"e","rect":{"x":0,"y":0,"width":32,"height":25}},
           {"pane_id":"p1","rect":{"x":32,"y":0,"width":58,"height":25}},
           {"pane_id":"p7","rect":{"x":0,"y":25,"width":90,"height":25}},
           {"pane_id":"p4","rect":{"x":90,"y":0,"width":90,"height":50}}"#,
    );
    let step = repair_step(&json, "e", false).unwrap();
    assert_eq!(
        (step.below.as_str(), step.beside.as_str(), step.tab.as_str()),
        ("p7", "p1", "w1:t1")
    );
}

#[test]
fn repair_step_mirrors_for_right_dock() {
    let json = layout_with_area(
        r#"{"pane_id":"p4","rect":{"x":0,"y":0,"width":90,"height":50}},
           {"pane_id":"p1","rect":{"x":90,"y":0,"width":58,"height":25}},
           {"pane_id":"e","rect":{"x":148,"y":0,"width":32,"height":25}},
           {"pane_id":"p7","rect":{"x":90,"y":25,"width":90,"height":25}}"#,
    );
    let step = repair_step(&json, "e", true).unwrap();
    assert_eq!(
        (step.below.as_str(), step.beside.as_str(), step.tab.as_str()),
        ("p7", "p1", "w1:t1")
    );
}

#[test]
fn repair_step_none_when_full_height_or_unmatched() {
    let full = layout_with_area(
        r#"{"pane_id":"e","rect":{"x":0,"y":0,"width":32,"height":50}},
           {"pane_id":"p1","rect":{"x":32,"y":0,"width":148,"height":50}}"#,
    );
    assert!(repair_step(&full, "e", false).is_none());
    assert!(repair_step(&full, "missing", false).is_none());
    assert!(repair_step("not json", "e", false).is_none());
}

#[test]
fn resize_plan_converts_columns_to_split_ratio_delta() {
    // Explorer: 32 rect cols (30 terminal cols) at the left of a 160-col split.
    let json = layout_with_splits(
        r#"{"pane_id":"w1:p2","rect":{"x":0,"y":0,"width":32,"height":50}},
           {"pane_id":"w1:p1","rect":{"x":32,"y":0,"width":128,"height":50}}"#,
        r#"{"direction":"right","ratio":0.2,"rect":{"x":0,"y":0,"width":160,"height":50}}"#,
    );
    // Collapse 30 → 4 terminal cols: rect 32 → 6, delta -26/160.
    let step = resize_plan(&json, &dividers(&json), "w1:p2", 30, 4, false).unwrap();
    assert_eq!(step.direction, "left");
    assert!((amount(&step) - 26.0 / 160.0).abs() < 1e-9);
    // Expand 30 → 40: rect 32 → 42, delta +10/160.
    let step = resize_plan(&json, &dividers(&json), "w1:p2", 30, 40, false).unwrap();
    assert_eq!(step.direction, "right");
    assert!((amount(&step) - 10.0 / 160.0).abs() < 1e-9);
}

#[test]
fn resize_plan_mirrors_directions_for_right_dock() {
    let json = layout_with_splits(
        r#"{"pane_id":"w1:p1","rect":{"x":0,"y":0,"width":128,"height":50}},
           {"pane_id":"w1:p2","rect":{"x":128,"y":0,"width":32,"height":50}}"#,
        r#"{"direction":"right","ratio":0.8,"rect":{"x":0,"y":0,"width":160,"height":50}}"#,
    );
    let shrink = resize_plan(&json, &dividers(&json), "w1:p2", 30, 4, true).unwrap();
    assert_eq!(shrink.direction, "right");
    assert!((amount(&shrink) - 26.0 / 160.0).abs() < 1e-9);
    let grow = resize_plan(&json, &dividers(&json), "w1:p2", 30, 40, true).unwrap();
    assert_eq!(grow.direction, "left");
    assert!((amount(&grow) - 10.0 / 160.0).abs() < 1e-9);
}

#[test]
fn preferred_resize_plan_pins_columns_but_yields_at_extremes() {
    let normal = layout_with_splits(
        r#"{"pane_id":"e","rect":{"x":0,"y":0,"width":39,"height":50}}"#,
        r#"{"direction":"right","ratio":0.195,"rect":{"x":0,"y":0,"width":200,"height":50}}"#,
    );
    let step = preferred_resize_plan(&normal, &dividers(&normal), "e", 37, 42, false).unwrap();
    assert_eq!(step.direction, "right");
    assert!((amount(&step) - 5.0 / 200.0).abs() < 1e-9);

    let narrow = layout_with_splits(
        r#"{"pane_id":"e","rect":{"x":0,"y":0,"width":20,"height":50}}"#,
        r#"{"direction":"right","ratio":0.333333,"rect":{"x":0,"y":0,"width":60,"height":50}}"#,
    );
    let step = preferred_resize_plan(&narrow, &dividers(&narrow), "e", 18, 42, false).unwrap();
    assert_eq!(step.direction, "right");
    assert!((amount(&step) - 10.0 / 60.0).abs() < 1e-9);
}

#[test]
fn resize_plan_picks_innermost_matching_split() {
    // Nested: root split (divider elsewhere) plus the inner split whose
    // divider is at the explorer's right edge.
    let json = layout_with_splits(
        r#"{"pane_id":"e","rect":{"x":0,"y":0,"width":20,"height":50}}"#,
        r#"{"direction":"right","ratio":0.5,"rect":{"x":0,"y":0,"width":200,"height":50}},
           {"direction":"right","ratio":0.2,"rect":{"x":0,"y":0,"width":100,"height":50}}"#,
    );
    let step = resize_plan(&json, &dividers(&json), "e", 18, 40, false).unwrap();
    // delta computed against the inner 100-col split: +22/100.
    assert!((amount(&step) - 22.0 / 100.0).abs() < 1e-9);
}

#[test]
fn resize_plan_returns_none_when_unresizable_or_at_target() {
    assert!(resize_plan("not json", &[], "e", 30, 4, false).is_none());
    // No split with a divider at the pane's edge (e.g. the only pane).
    let solo = layout_with_splits(
        r#"{"pane_id":"e","rect":{"x":0,"y":0,"width":100,"height":50}}"#,
        "",
    );
    assert!(resize_plan(&solo, &dividers(&solo), "e", 98, 30, false).is_none());
    // Already at the target.
    let json = layout_with_splits(
        r#"{"pane_id":"e","rect":{"x":0,"y":0,"width":32,"height":50}}"#,
        r#"{"direction":"right","ratio":0.2,"rect":{"x":0,"y":0,"width":160,"height":50}}"#,
    );
    assert!(resize_plan(&json, &dividers(&json), "e", 30, 30, false).is_none());
}

#[test]
fn open_plan_is_empty_on_failure() {
    assert_eq!(open_plan("not json", false, 32), "");
    assert_eq!(open_plan(&layout(""), false, 32), "");
    let unsafe_id = layout(r#"{"pane_id":"--x","rect":{"x":0,"y":0,"width":90,"height":50}}"#);
    assert_eq!(open_plan(&unsafe_id, true, 32), "");
}

// ---- More queries ----

fn two_tabs() -> String {
    pane_list(
        r#"{"pane_id":"w1:p1","tab_id":"w1:t1","workspace_id":"w1"},
           {"pane_id":"w1:p2","tab_id":"w1:t1","workspace_id":"w1"},
           {"pane_id":"w2:p3","tab_id":"w2:t2","workspace_id":"w2","focused":true}"#,
    )
}

#[test]
fn panes_and_tabs_find_each_other() {
    let json = two_tabs();
    assert_eq!(tab_of(&json, "w1:p2"), "w1:t1");
    assert_eq!(tab_of(&json, "w9:p9"), "");
    assert_eq!(tab_of("garbage", "w1:p2"), "");
    assert_eq!(workspace_of(&json, "w2:p3"), "w2");
    assert_eq!(workspace_of(&json, "w9:p9"), "");
    assert_eq!(pane_in_tab(&json, "w1:t1"), "w1:p1");
    assert_eq!(pane_in_tab(&json, "w9:t9"), "");
    assert_eq!(pane_outside_tab(&json, "w1:t1"), "w2:p3");
    assert_eq!(pane_outside_tab(&json, "w2:t2"), "w1:p1");
    assert_eq!(pane_outside_tab("garbage", "w1:t1"), "");
    assert_eq!(server_focused_pane_id(&json), "w2:p3");
    assert_eq!(server_focused_pane_id(&pane_list("")), "");
}

#[test]
fn created_tabs_answer_with_their_root_pane() {
    let json = r#"{"result":{"tab":{"tab_id":"w1:t3"},"root_pane":{"pane_id":"w1:p9"}}}"#;
    assert_eq!(
        created_tab_root_pane(json),
        Some(("w1:t3".to_string(), "w1:p9".to_string()))
    );
    let unsafe_id = r#"{"result":{"tab":{"tab_id":"--help"},"root_pane":{"pane_id":"w1:p9"}}}"#;
    assert_eq!(created_tab_root_pane(unsafe_id), None);
    assert_eq!(created_tab_root_pane(r#"{"result":{"tab":{"tab_id":"w1:t3"}}}"#), None);
    assert_eq!(created_tab_root_pane("garbage"), None);
}

#[test]
fn a_strict_toggle_only_closes_or_opens() {
    let once = focus_as_close("FOCUS w1:p1");
    assert_eq!(once, "CLOSE w1:p1");
    assert_eq!(focus_as_close(&once), once);
}

#[test]
fn a_toggle_stays_in_its_tab() {
    let json = pane_list(
        r#"{"pane_id":"w1:p1","tab_id":"w1:t1","label":"Explorer"},
           {"pane_id":"w1:p2","tab_id":"w1:t2","focused":true}"#,
    );
    // The Explorer of the other tab is left alone.
    assert_eq!(launch_decision(&json, 0), "OPEN");
}

#[test]
fn a_toggle_without_a_focused_pane_opens() {
    let explorer = pane_list(
        r#"{"pane_id":"w1:p2","tab_id":"w1:t1","label":"Explorer",
            "tokens":{"herdr-sidebar-explorer":"100"}}"#,
    );
    assert_eq!(launch_decision(&explorer, 100), "OPEN");
    let git = pane_list(
        r#"{"pane_id":"w1:p2","tab_id":"w1:t1","label":"Source Control",
            "tokens":{"herdr-sidebar-git":"100"}}"#,
    );
    assert_eq!(launch_decision_git(&git, 100), "OPEN");
    // In a tab that is named its first pane counts as the focused one.
    assert_eq!(launch_decision_in(&explorer, 100, "w1:t1"), "CLOSE w1:p2");
    assert_eq!(launch_decision_in(&explorer, 100, "w9:t1"), "OPEN");
    let beside = pane_list(
        r#"{"pane_id":"w1:p1","tab_id":"w1:t1"},
           {"pane_id":"w1:p2","tab_id":"w1:t1","label":"Explorer",
            "tokens":{"herdr-sidebar-explorer":"100"}}"#,
    );
    assert_eq!(launch_decision_in(&beside, 100, "w1:t1"), "FOCUS w1:p2");
    assert_eq!(launch_decision(&beside, 100), "OPEN");
}

#[test]
fn the_order_of_the_panes_does_not_matter_to_a_follower() {
    let panes = [
        r#"{"pane_id":"w1:p3","tab_id":"w1:t1","label":"Sidebar"}"#,
        r#"{"pane_id":"w1:p9","tab_id":"w1:t1","foreground_cwd":"/nine"}"#,
        r#"{"pane_id":"w1:p1","tab_id":"w1:t1","foreground_cwd":"/one"}"#,
    ];
    let orders = [[0, 1, 2], [0, 2, 1], [1, 0, 2], [1, 2, 0], [2, 0, 1], [2, 1, 0]];
    for order in orders {
        let json = pane_list(&order.map(|i| panes[i]).join(","));
        let mut follower = CwdFollower::default();
        assert_eq!(follower.next_cwd(&json, "w1:p3").as_deref(), Some("/one"), "{order:?}");
        let again = pane_list(&panes.join(","));
        assert_eq!(follower.next_cwd(&again, "w1:p3"), None);
    }
}

// ---- Fields of a message ----

#[test]
fn a_field_that_is_given_twice_spoils_the_message() {
    let twice = r#"{"result":{"panes":[{"pane_id":"w1:p1","pane_id":"w1:p2","focused":true}]}}"#;
    assert_eq!(focused_pane(twice), "");
    assert_eq!(server_focused_pane_id(twice), "");
    let spelled = twice.replacen("pane_id", r"pane\u005fid", 1);
    assert_eq!(server_focused_pane_id(&spelled), "");
    let outer = r#"{"result":{"panes":[]},"result":{"panes":[]}}"#;
    assert_eq!(launch_decision(outer, 100), "OPEN");
    assert_eq!(split_pane_id(r#"{"result":{"pane":{"pane_id":"a","pane_id":"b"}}}"#), None);
    let flat = r#"{"pane_id":"w1:p1","rect":{"x":0,"x":1,"y":0,"width":90,"height":50}}"#;
    assert!(layout::open_plan(&layout(flat), false, 32).is_none());
    // Other fields, and the tokens, may be given as often as one likes.
    let other = r#"{"result":{"panes":[{"pane_id":"w1:p1","x":1,"x":2,"focused":true,
        "tokens":{"a":1,"a":2}}]}}"#;
    assert_eq!(server_focused_pane_id(other), "w1:p1");
}

#[test]
fn other_fields_are_passed_over_whatever_they_hold() {
    let deep = format!("{}{}", "[".repeat(300), "]".repeat(300));
    for other in ["1e999", "-1E+4000", r#""\ud800""#, "123456789012345678901234567890", &deep] {
        let json = format!(
            r#"{{"id":{other},"result":{{"panes":[{{"x":{other},"pane_id":"w1:p1","focused":true}}],
               "more":{other}}}}}"#
        );
        assert_eq!(server_focused_pane_id(&json), "w1:p1", "{other}");
        // What is read must be of its kind.
        let read = json.replace(r#""w1:p1""#, other);
        assert_eq!(server_focused_pane_id(&read), "", "{other}");
    }
    for broken in ["tru", "01", r#""\x""#, "{\"a\":}", "[1,]", "{,}", "1 2", "+1"] {
        let json = format!(
            r#"{{"result":{{"panes":[{{"pane_id":"w1:p1","focused":true,"x":{broken}}}]}}}}"#
        );
        assert_eq!(server_focused_pane_id(&json), "", "{broken}");
    }
    let plain = r#" {"result" : {"panes":[ {"pane_id" :"w1:p1" , "focused":true } ] } } "#;
    assert_eq!(server_focused_pane_id(plain), "w1:p1");
    assert_eq!(server_focused_pane_id(&format!("{plain}]")), "");
}

#[test]
fn messages_may_be_lists_of_their_fields() {
    let json = r#"[[[["w1:p1",null,"/ws",null,true,"w1:t1",null,{}],["w1:p2",null,null,null,false,"t",null]]]]"#;
    assert_eq!(server_focused_pane_id(json), "w1:p1");
    assert_eq!(tab_of(json, "w1:p2"), "t");
    assert_eq!(server_focused_pane_id(r#"[[[["w1:p1",null,null,null,true]]]]"#), "");
    assert_eq!(server_focused_pane_id(r#"[[[]],1]"#), "");
}

#[test]
fn tokens_are_nested_as_deep_as_a_message_may_be() {
    let nested = |levels: usize| {
        let value = format!("{}{}", "[".repeat(levels), "]".repeat(levels));
        format!(
            r#"{{"result":{{"panes":[{{"pane_id":"w1:p1","focused":true,"tokens":{{"a":{value}}}}}]}}}}"#
        )
    };
    assert_eq!(server_focused_pane_id(&nested(122)), "w1:p1");
    assert_eq!(server_focused_pane_id(&nested(123)), "");
}

#[test]
fn a_sidebar_that_has_its_width_is_left_alone() {
    let json = layout_with_splits(
        r#"{"pane_id":"w1:p1","rect":{"x":0,"y":0,"width":30,"height":50}},
           {"pane_id":"w1:p2","rect":{"x":30,"y":0,"width":70,"height":50}}"#,
        r#"{"direction":"right","ratio":0.3,"rect":{"x":0,"y":0,"width":100,"height":50}}"#,
    );
    assert!(resize_plan(&json, &dividers(&json), "w1:p1", 30, 30, false).is_none());
    let wider = resize_plan(&json, &dividers(&json), "w1:p1", 30, 40, false).unwrap();
    assert_eq!((wider.direction, wider.columns, wider.of), ("right", 10, 100));
}
