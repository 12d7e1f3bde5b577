//! What the Explorer promises of its keys and clicks: what is asked for which
//! row, and of which file.

use crate::actions::menu::{is_name, MenuAction};
use crate::explorer_app::app::{App, Effect, EffectView, Overlay, PromptKind, Target};
use crate::explorer_app::clicks::FrameTarget;
use crate::explorer_app::hits::{hit_at, hits_from, HitView};
use crate::explorer_app::keys::prompted;
use crate::explorer_app::outcomes::{stage_text, Staged};
use crate::explorer_app::panel::{
    focus_after, result_under, target_spec, SearchCommand, SearchFocus, SearchPanel, SearchResult,
    SearchTarget, SearchZones,
};
use crate::explorer_app::quick_open::{QuickCommand, QuickOpen};
use crate::explorer_app::search::{line_matches, shown_line, SearchOptions};
use crate::explorer_app::tree::{parent_above, row_under, Row, TreeList};
use crate::geometry::{in_area, Area};
use crate::input::{Key, KeyCode, Mouse, MouseKind};
use crate::popup::{MenuMouse, SettingsMouse};
use crate::settings::SettingRow;
use crate::text::trim;
use crate::view::{Exit, TitleAction, ViewKind};
use vstd::prelude::*;

verus! {

// ---- Keys in the tree ----

/// The right arrow and `l` expand a collapsed folder and go into an expanded one;
/// the left arrow and `h` collapse an expanded folder and go to the one that
/// anything else lies in. `Enter` and the space bar turn a folder over and show a
/// file.
pub proof fn law_tree_keys_act_on_the_selected_row(
    app: App,
    rows: Seq<SettingRow>,
    key: Key,
    now: u64,
    post: App,
    out: Seq<EffectView>,
    row: Row,
)
    requires
        key.press,
        !key.control,
        app.overlay is None,
        app.list.selected_row_spec() == Some(row),
        app.key_rel(rows, key, now, &post, out),
    ensures
        key.code == KeyCode::Right || key.code == KeyCode::Char('l') ==> {
            &&& row.is_dir && !row.expanded ==> out == seq![
                EffectView::Expand(row.path@),
                EffectView::ListRows,
            ] && post.list == app.list
            &&& row.is_dir && row.expanded && app.list.selected->0 + 1 < app.list.rows@.len()
                && app.list.rows@[app.list.selected->0 + 1].depth == row.depth + 1 ==> (
            post.list.selected matches Some(j) && j == app.list.selected->0 + 1)
            &&& !row.is_dir ==> out.len() == 0 && post.list == app.list
        },
        key.code == KeyCode::Left || key.code == KeyCode::Char('h') ==> {
            &&& row.is_dir && row.expanded ==> out == seq![
                EffectView::Collapse(row.path@),
                EffectView::ListRows,
            ] && post.list == app.list
            &&& !(row.is_dir && row.expanded) ==> forall|k: int|
                0 <= k < out.len() ==> #[trigger] out[k] == EffectView::Persist
        },
        key.code == KeyCode::Enter || key.code == KeyCode::Char(' ') ==> {
            &&& row.is_dir ==> out == seq![EffectView::Toggle(row.path@), EffectView::ListRows]
            &&& !row.is_dir && app.mode.in_pane ==> out == seq![
                EffectView::Preview { path: row.path@, line: None },
            ]
            &&& post.list == app.list
        },
{
    assert(app.list.rows.len() == app.list.rows@.len());
}

proof fn lemma_parent(rows: Seq<Row>, index: int, depth: nat)
    requires
        0 <= index <= rows.len(),
    ensures
        match parent_above(rows, index, depth) {
            Some(p) => 0 <= p < index && rows[p].depth + 1 == depth && forall|k: int|
                p < k < index ==> (#[trigger] rows[k]).depth + 1 != depth,
            None => forall|k: int| 0 <= k < index ==> (#[trigger] rows[k]).depth + 1 != depth,
        },
    decreases index,
{
    if index > 0 && rows[index - 1].depth + 1 != depth {
        lemma_parent(rows, index - 1, depth);
    }
}

/// The folder that a row lies in is the nearest row above it that is one level
/// less deep; a row of the first level lies in none.
pub proof fn law_parents_are_the_nearest_shallower_row(list: TreeList, row: Row)
    requires
        list.selected_row_spec() == Some(row),
    ensures
        row.depth == 0 ==> list.parent_spec() is None,
        list.parent_spec() matches Some(p) ==> 0 <= p < list.selected->0 && list.rows@[p].depth + 1
            == row.depth && forall|k: int|
            p < k < list.selected->0 ==> (#[trigger] list.rows@[k]).depth + 1 != row.depth,
        row.depth > 0 && list.parent_spec() is None ==> forall|k: int|
            0 <= k < list.selected->0 ==> (#[trigger] list.rows@[k]).depth + 1 != row.depth,
{
    lemma_parent(list.rows@, list.selected->0 as int, row.depth as nat);
}

/// The keys that move the selection: down and up by one row or by a page, no
/// further than the ends, and to the ends themselves. Where nothing is selected
/// they select the first row.
pub proof fn law_tree_keys_move_the_selection(
    app: App,
    rows: Seq<SettingRow>,
    key: Key,
    now: u64,
    post: App,
    out: Seq<EffectView>,
)
    requires
        key.press,
        !key.control,
        app.overlay is None,
        app.list.rows@.len() > 0,
        app.key_rel(rows, key, now, &post, out),
    ensures
        app.list.selected matches Some(i) ==> (i < app.list.rows@.len() ==> {
            &&& key.code == KeyCode::Down || key.code == KeyCode::Char('j') ==> (
            post.list.selected matches Some(j) && j == if i + 1 < app.list.rows@.len() {
                i + 1
            } else {
                i as int
            })
            &&& key.code == KeyCode::Up || key.code == KeyCode::Char('k') ==> (
            post.list.selected matches Some(j) && j == if i > 0 {
                i - 1
            } else {
                0
            })
            &&& key.code == KeyCode::PageDown ==> (post.list.selected matches Some(j) && j == if i
                + app.screen.page < app.list.rows@.len() {
                i + app.screen.page
            } else {
                app.list.rows@.len() - 1
            })
            &&& key.code == KeyCode::PageUp ==> (post.list.selected matches Some(j) && j == if i
                >= app.screen.page {
                i - app.screen.page
            } else {
                0
            })
        }),
        app.list.selected is None && (key.code == KeyCode::Down || key.code == KeyCode::Up
            || key.code == KeyCode::PageDown || key.code == KeyCode::PageUp) ==> post.list.selected
            == Some(0usize),
        key.code == KeyCode::Home || key.code == KeyCode::Char('g') ==> post.list.selected == Some(
            0usize,
        ),
        key.code == KeyCode::End || key.code == KeyCode::Char('G') ==> (
        post.list.selected matches Some(j) && j == app.list.rows@.len() - 1),
        key.code == KeyCode::Down || key.code == KeyCode::Up || key.code == KeyCode::Home
            || key.code == KeyCode::End ==> post.list.rows == app.list.rows && post.list.snap && out
            == seq![EffectView::Persist],
{
    assert(app.list.rows.len() == app.list.rows@.len());
}

/// What the other keys of the tree ask for.
pub proof fn law_tree_keys_ask_for_what_they_stand_for(
    app: App,
    rows: Seq<SettingRow>,
    key: Key,
    now: u64,
    post: App,
    out: Seq<EffectView>,
)
    requires
        key.press,
        !key.control,
        app.overlay is None,
        app.key_rel(rows, key, now, &post, out),
    ensures
        key.code == KeyCode::Char('r') ==> out == seq![
            EffectView::Reread,
            EffectView::Rediscover,
            EffectView::ListRows,
        ] && post.index is None,
        key.code == KeyCode::Char('.') ==> out == seq![EffectView::ListRows]
            && post.folder.show_hidden == !app.folder.show_hidden && post.folder.root
            == app.folder.root && post.index is None,
        key.code != KeyCode::Char('.') ==> post.folder == app.folder,
        key.code == KeyCode::Char('i') ==> out == seq![EffectView::ToggleIcons],
        key.code == KeyCode::Char('b') ==> out == seq![EffectView::Close { snooze: true }],
        key.code == KeyCode::Char('s') ==> (post.overlay matches Some(Overlay::Settings { .. })),
        key.code == KeyCode::Char('2') ==> (post.overlay matches Some(Overlay::Search(_))),
        key.code == KeyCode::Char('3') && app.mode.merged ==> out == seq![
            EffectView::ShareView { view: ViewKind::SourceControl, search: false },
        ] && app.key_exit(key) == Some(Exit::Switch),
        key.code == KeyCode::Char('q') <==> app.key_exit(key) == Some(Exit::Quit),
        key.code == KeyCode::Char('c') && app.mode.native_picker && !app.picking ==> out == seq![
            EffectView::PickFolder,
        ] && post.picking,
        key.code == KeyCode::Char('c') && !app.mode.native_picker ==> (
        post.overlay matches Some(Overlay::Prompt { title, input, kind })
            && kind is ChangeFolder && input@ == app.folder.root@),
        key.code == KeyCode::Char('m') ==> out.len() == 1 && (out[0] matches EffectView::AskMenu {
            x,
            y,
            target,
        } && match app.list.selected_row_spec() {
            Some(row) => target matches Some(t) && t.path == row.path@ && t.name == row.name@
                && t.folder == row.folder@ && t.is_dir == row.is_dir,
            None => target is None,
        }),
{
}

// ---- Clicks in the tree ----

/// A click on a row selects it. On a folder it turns the folder over, except for
/// the second click of a double click on its name; on a file it shows the file,
/// or opens it in the editor where that is set.
pub proof fn law_clicks_act_on_the_row_under_them(
    app: App,
    i: usize,
    column: u16,
    now: u64,
    post: App,
    out: Seq<EffectView>,
)
    requires
        i < app.list.rows@.len(),
        app.mode.in_pane,
        app.click_row_rel(i, column, now, &post, out),
    ensures
        post.list.selected == Some(i),
        out[0] == EffectView::Persist,
        ({
            let row = app.list.rows@[i as int];
            let arrow = 2 * row.depth <= column < 2 * row.depth + 2;
            let double = app.last_click matches Some(last) && crate::view::is_double(
                app.last_click,
                i,
                now,
            );
            &&& row.is_dir && (arrow || !double) ==> out.skip(1) == seq![
                EffectView::Toggle(row.path@),
                EffectView::ListRows,
            ]
            &&& row.is_dir && !arrow && double ==> out.len() == 1
            &&& !row.is_dir && app.mode.editor_on_click && !double ==> out.skip(1) == seq![
                EffectView::OpenEditor(row.path@),
            ]
            &&& !row.is_dir && !app.mode.editor_on_click && !double ==> out.skip(1) == seq![
                EffectView::Preview { path: row.path@, line: None },
            ]
        }),
{
    assert(app.list.rows.len() == app.list.rows@.len());
}

/// The wheel moves the tree by three rows, towards the end that it turns to, as
/// far as there are rows.
pub proof fn law_the_wheel_moves_the_tree(
    app: App,
    mouse: Mouse,
    now: u64,
    post: App,
    out: Seq<EffectView>,
)
    requires
        app.tree_mouse_rel(mouse, now, &post, out),
        app.list.scroll < app.list.rows@.len(),
    ensures
        mouse.kind == MouseKind::ScrollUp ==> post.list.scroll == if app.list.scroll >= 3 {
            app.list.scroll - 3
        } else {
            0
        },
        mouse.kind == MouseKind::ScrollDown ==> post.list.scroll == if app.list.scroll + 3
            < app.list.rows@.len() {
            app.list.scroll + 3
        } else {
            app.list.rows@.len() - 1
        },
{
    assert(app.list.rows.len() == app.list.rows@.len());
}

/// The row under the mouse is as far below the first row on the screen as the
/// mouse is below the top of the list.
pub proof fn law_the_row_under_the_mouse(list: TreeList, line: u16, i: usize)
    requires
        row_under(list.body, list.rows@.len(), line) == Some(i),
    ensures
        list.body.top <= line,
        line - list.body.top < list.body.height,
        i - list.body.offset == line - list.body.top,
        i < list.rows@.len(),
{
    assert(list.rows.len() == list.rows@.len());
}

/// A right click asks for the menu of the row under it, at the mouse, and for
/// the menu of the folder where there is no row.
pub proof fn law_right_clicks_ask_for_the_menu_of_their_row(
    app: App,
    x: u16,
    y: u16,
    post: App,
    out: Seq<EffectView>,
)
    requires
        app.context_rel(x, y, &post, out),
    ensures
        out.len() > 0,
        out.last() matches EffectView::AskMenu { x: mx, y: my, target } && mx == x && my == y
            && match row_under(app.list.body, app.list.rows@.len(), y) {
            Some(i) => target matches Some(t) && t.path == app.list.rows@[i as int].path@ && t.name
                == app.list.rows@[i as int].name@ && t.is_dir == app.list.rows@[i as int].is_dir,
            None => target is None,
        },
        row_under(app.list.body, app.list.rows@.len(), y) matches Some(i) ==> post.list.selected
            == Some(i),
{
    assert(app.list.rows.len() == app.list.rows@.len());
}

/// The buttons of the bar, of the footer and of the title do what they stand for.
pub proof fn law_buttons_do_what_they_stand_for(
    app: App,
    target: FrameTarget,
    action: TitleAction,
    post: App,
    out: Seq<EffectView>,
)
    ensures
        app.frame_rel(target, &post, out) ==> {
            &&& target == FrameTarget::Explorer ==> post.overlay is None && out == seq![
                EffectView::ShareSearch(false),
            ]
            &&& target == FrameTarget::Search ==> (post.overlay matches Some(Overlay::Search(_)))
            &&& target == FrameTarget::SourceControl && app.mode.merged ==> out == seq![
                EffectView::ShareView { view: ViewKind::SourceControl, search: false },
            ]
            &&& target == FrameTarget::Settings ==> (post.overlay matches Some(
                Overlay::Settings { .. },
            ))
            &&& target == FrameTarget::Branch && app.repo.present ==> out == seq![
                EffectView::PickBranch,
            ]
            &&& target == FrameTarget::Sync && app.repo.present && app.repo.upstream == Some(true)
                && !app.repo.syncing ==> out == seq![EffectView::Sync] && post.repo.syncing
            &&& target == FrameTarget::Sync && (app.repo.syncing || app.repo.upstream is None
                || app.repo.upstream == Some(false)) ==> out.len() == 0
        },
        app.title_rel(action, &post, out) ==> {
            &&& action == TitleAction::Refresh ==> out == seq![
                EffectView::Reread,
                EffectView::Rediscover,
                EffectView::ListRows,
            ]
            &&& action == TitleAction::CollapseAll ==> out == seq![
                EffectView::CollapseAll,
                EffectView::ListRows,
            ] && post.list.scroll == 0
            &&& action == TitleAction::NewFile ==> out.len() == 0 && (
            post.overlay matches Some(Overlay::Prompt { title, input, kind })
                && kind is NewFile)
            &&& action == TitleAction::NewFolder ==> out.len() == 0 && (
            post.overlay matches Some(Overlay::Prompt { title, input, kind })
                && kind is NewFolder)
        },
{
}

// ---- Prompts and menus ----

/// Something new is created in the selected folder, beside the selected file, or
/// in the folder that is shown where nothing is selected.
pub proof fn law_new_things_go_beside_the_selection(app: App, directory: bool, post: App)
    requires
        app.create_rel(directory, &post),
    ensures
        post.overlay matches Some(Overlay::Prompt { title, input, kind }) && input@.len() == 0 && {
            let folder = match kind {
                PromptKind::NewFile(folder) => if directory {
                    None
                } else {
                    Some(folder@)
                },
                PromptKind::NewFolder(folder) => if directory {
                    Some(folder@)
                } else {
                    None
                },
                _ => None,
            };
            match app.list.selected_row_spec() {
                Some(row) => if row.is_dir {
                    folder == Some(row.path@)
                } else {
                    folder == Some(row.folder@)
                },
                None => folder == Some(app.folder.root@),
            }
        },
{
}

/// A prompt that is confirmed does what it asked for with the trimmed name:
/// creates a file or a folder in the folder it was opened for, or renames the
/// file it was opened for. A name with a separator or a colon, no name, and the
/// names of the folder itself and the one above are refused.
pub proof fn law_prompts_do_what_they_ask(app: App, post: App, out: Seq<EffectView>)
    requires
        app.confirm_rel(&post, out),
        app.overlay matches Some(Overlay::Prompt { .. }),
    ensures
        app.overlay matches Some(Overlay::Prompt { title, input, kind }) && {
            let name = trim(input@);
            let good = name.len() > 0 && name != "."@ && name != ".."@ && (forall|i: int|
                0 <= i < name.len() ==> #[trigger] name[i] != '/' && name[i] != '\\' && name[i]
                    != ':');
            match kind {
                PromptKind::NewFile(folder) => if good {
                    out == seq![EffectView::CreateFile { folder: folder@, name }]
                } else {
                    out.len() == 0
                },
                PromptKind::NewFolder(folder) => if good {
                    out == seq![EffectView::CreateFolder { folder: folder@, name }]
                } else {
                    out.len() == 0
                },
                PromptKind::Rename(path) => if good {
                    out == seq![EffectView::Rename { path: path@, name }]
                } else {
                    out.len() == 0
                },
                PromptKind::ChangeFolder => if name.len() > 0 {
                    out == seq![EffectView::ChangeFolder(name)]
                } else {
                    out.len() == 0
                },
                PromptKind::CustomEditor => out == seq![EffectView::SaveEditor(input@)],
            }
        },
{
    if let Some(Overlay::Prompt { title, input, kind }) = app.overlay {
        let name = trim(input@);
        assert(is_name(name) <==> name.len() > 0 && name != "."@ && name != ".."@ && (forall|
            i: int,
        |
            0 <= i < name.len() ==> #[trigger] name[i] != '/' && name[i] != '\\' && name[i]
                != ':')) by {
            if is_name(name) {
                assert forall|i: int| 0 <= i < name.len() implies #[trigger] name[i] != '/'
                    && name[i] != '\\' && name[i] != ':' by {
                    assert(crate::actions::menu::is_name_char(name[i]));
                }
            }
            if name.len() > 0 && name != "."@ && name != ".."@ && (forall|i: int|
                0 <= i < name.len() ==> #[trigger] name[i] != '/' && name[i] != '\\' && name[i]
                    != ':') {
                assert forall|i: int| 0 <= i < name.len() implies crate::actions::menu::is_name_char(
                    #[trigger] name[i],
                ) by {
                    assert(name[i] != '/' && name[i] != '\\' && name[i] != ':');
                }
            }
        }
    }
}

/// A prompt takes what is typed behind what is there, and `Backspace` takes the
/// last character away.
pub proof fn law_prompts_are_typed_at_their_end(text: Seq<char>, c: char)
    ensures
        prompted(text, KeyCode::Char(c)) == text + seq![c],
        prompted(text + seq![c], KeyCode::Backspace) == text,
        prompted(Seq::empty(), KeyCode::Backspace) == Seq::<char>::empty(),
{
    assert((text + seq![c]).drop_last() =~= text);
}

/// The entries of the menu act on the file or folder that the menu was opened
/// for: what is created goes into a folder or beside a file, and the copied path
/// is its own.
pub proof fn law_menus_act_on_their_target(
    app: App,
    action: MenuAction,
    target: Target,
    post: App,
    out: Seq<EffectView>,
)
    requires
        app.action_rel(action, Some(target), &post, out),
    ensures
        action == MenuAction::CopyPath ==> out == seq![EffectView::Copy(target.path@)],
        action == MenuAction::OpenExternal ==> out == seq![
            EffectView::OpenExternal { path: target.path@, name: target.name@ },
        ],
        action == MenuAction::Stage ==> out == seq![
            EffectView::Stage { path: target.path@, name: target.name@ },
        ],
        action == MenuAction::Reveal ==> out == seq![
            EffectView::Reveal { path: target.path@, directory: target.is_dir },
        ],
        action == MenuAction::Rename ==> out.len() == 0 && (post.overlay matches Some(
            Overlay::Prompt { title, input, kind },
        ) && input@ == target.name@ && (kind matches PromptKind::Rename(path) && path@
            == target.path@)),
        action == MenuAction::Delete ==> out.len() == 0 && (post.overlay matches Some(
            Overlay::ConfirmDelete { path, name, is_dir },
        ) && path@ == target.path@ && name@ == target.name@ && is_dir == target.is_dir),
        action == MenuAction::NewFile ==> out.len() == 0 && (post.overlay matches Some(
            Overlay::Prompt { title, input, kind },
        ) && (kind matches PromptKind::NewFile(folder) && folder@ == if target.is_dir {
            target.path@
        } else {
            target.folder@
        })),
        action == MenuAction::NewFolder ==> out.len() == 0 && (post.overlay matches Some(
            Overlay::Prompt { title, input, kind },
        ) && (kind matches PromptKind::NewFolder(folder) && folder@ == if target.is_dir {
            target.path@
        } else {
            target.folder@
        })),
{
}

/// A question whether to delete is answered by deleting what it names, where the
/// answer is `y`, and by nothing otherwise.
pub proof fn law_confirmed_deletions_delete_what_was_named(
    app: App,
    rows: Seq<SettingRow>,
    key: Key,
    now: u64,
    post: App,
    out: Seq<EffectView>,
)
    requires
        app.overlay matches Some(Overlay::ConfirmDelete { .. }),
        app.suspended is None,
        app.overlay_key_rel(rows, key, now, &post, out),
    ensures
        app.overlay matches Some(Overlay::ConfirmDelete { path, name, is_dir }) && (if key.code
            == KeyCode::Char('y') || key.code == KeyCode::Char('Y') {
            out == seq![EffectView::Delete { path: path@, is_dir }]
        } else {
            out.len() == 0
        }),
        post.overlay is None,
        post.list == app.list,
{
}

// ---- Quick open ----

/// In quick open `Enter` opens the selected answer, the arrows move the selection
/// by one and stop at the ends, and what is typed is appended to the query, with
/// the first answer selected anew.
pub proof fn law_quick_open_keys(
    quick: QuickOpen,
    key: Key,
    post: QuickOpen,
    command: QuickCommand,
)
    requires
        quick.key_rel(key, &post, command),
    ensures
        key.code == KeyCode::Enter && quick.selected < quick.matches@.len() ==> (
        command matches QuickCommand::Open(path) && path@
            == quick.files@[quick.matches@[quick.selected as int] as int].path@),
        key.code == KeyCode::Enter && quick.selected >= quick.matches@.len() ==> command is Nothing,
        key.code == KeyCode::Esc <==> command is Close,
        command is Open ==> key.code == KeyCode::Enter,
        key.code == KeyCode::Down && quick.selected + 1 < quick.matches@.len() ==> post.selected
            == quick.selected + 1,
        key.code == KeyCode::Up && quick.selected > 0 ==> post.selected == quick.selected - 1,
        key.code == KeyCode::Up && quick.selected == 0 ==> post.selected == 0,
        key.code matches KeyCode::Char(c) ==> (!key.control ==> post.query@ == quick.query@ + seq![
            c,
        ] && post.selected == 0),
        key.code == KeyCode::Backspace && quick.query@.len() > 0 ==> post.query@
            == quick.query@.take(quick.query@.len() - 1) && post.selected == 0,
        post.files == quick.files,
{
    assert(quick.matches.len() == quick.matches@.len());
    if let KeyCode::Char(c) = key.code {
        assert(quick.query@.push(c) =~= quick.query@ + seq![c]);
    }
    if quick.query@.len() > 0 {
        assert(quick.query@.drop_last() =~= quick.query@.take(quick.query@.len() - 1));
    }
}

// ---- The search panel ----

/// `Alt` with `c`, `w` or `r` turns the regard to case, whole words or patterns
/// over, and the other two stay. A click on the button of an option does the
/// same.
pub proof fn law_each_option_has_its_own_key_and_button(
    panel: SearchPanel,
    key: Key,
    target: SearchTarget,
    now: u64,
    post: SearchPanel,
    command: SearchCommand,
)
    ensures
        panel.key_rel(key, now, &post, command) && key.alt && !key.control ==> {
            let before = panel.options;
            &&& key.code == KeyCode::Char('c') ==> post.options == (SearchOptions {
                match_case: !before.match_case,
                whole_word: before.whole_word,
                regex: before.regex,
            })
            &&& key.code == KeyCode::Char('w') ==> post.options == (SearchOptions {
                match_case: before.match_case,
                whole_word: !before.whole_word,
                regex: before.regex,
            })
            &&& key.code == KeyCode::Char('r') ==> post.options == (SearchOptions {
                match_case: before.match_case,
                whole_word: before.whole_word,
                regex: !before.regex,
            })
        },
        panel.key_rel(key, now, &post, command) && !(key.alt && !key.control) ==> post.options
            == panel.options,
        panel.click_rel(target, now, &post, command) ==> {
            let before = panel.options;
            post.options == (SearchOptions {
                match_case: before.match_case != (target is MatchCase),
                whole_word: before.whole_word != (target is WholeWord),
                regex: before.regex != (target is Regex),
            })
        },
{
}

/// `Tab` goes from the query to the replacement, from there to the file filters
/// where they are shown, to the results and back to the query.
pub proof fn law_tab_goes_down_the_panel()
    ensures
        focus_after(SearchFocus::Query, true) == SearchFocus::Replace,
        focus_after(SearchFocus::Query, false) == SearchFocus::Replace,
        focus_after(SearchFocus::Replace, true) == SearchFocus::Include,
        focus_after(SearchFocus::Replace, false) == SearchFocus::Results,
        focus_after(SearchFocus::Include, true) == SearchFocus::Exclude,
        focus_after(SearchFocus::Exclude, true) == SearchFocus::Results,
        focus_after(SearchFocus::Results, true) == SearchFocus::Query,
        focus_after(SearchFocus::Results, false) == SearchFocus::Query,
{
}

/// `Enter` on a result opens its file at its line, and so does a click on one;
/// `Enter` in the query or a file filter searches, where there is a query and no
/// search is running. What is typed goes into the field in focus, and into no
/// other one.
pub proof fn law_search_keys_do_what_they_stand_for(
    panel: SearchPanel,
    key: Key,
    now: u64,
    post: SearchPanel,
    command: SearchCommand,
)
    requires
        !key.alt,
        !key.control,
        panel.key_rel(key, now, &post, command),
    ensures
        key.code == KeyCode::Enter && panel.focus == SearchFocus::Results && panel.selected
            < panel.hits@.len() ==> (command matches SearchCommand::Open { path, line } && path@
            == panel.hits@[panel.selected as int].path@ && line
            == panel.hits@[panel.selected as int].line),
        key.code == KeyCode::Enter && (panel.focus == SearchFocus::Query || panel.focus
            == SearchFocus::Include || panel.focus == SearchFocus::Exclude) ==> (command is Start
            <==> !panel.loading && trim(panel.query@).len() > 0),
        key.code == KeyCode::Esc <==> command is Close,
        key.code == KeyCode::Down && panel.focus == SearchFocus::Results && panel.selected + 1
            < panel.hits@.len() ==> post.selected == panel.selected + 1,
        key.code == KeyCode::Up && panel.focus == SearchFocus::Results && panel.selected > 0
            ==> post.selected == panel.selected - 1,
        panel.focus != SearchFocus::Query ==> post.query@ == panel.query@,
        panel.focus != SearchFocus::Replace ==> post.replace@ == panel.replace@,
        panel.focus != SearchFocus::Include ==> post.files_in@ == panel.files_in@,
        panel.focus != SearchFocus::Exclude ==> post.files_out@ == panel.files_out@,
        key.code matches KeyCode::Char(c) ==> {
            &&& panel.focus == SearchFocus::Query ==> post.query@ == panel.query@ + seq![c]
            &&& panel.focus == SearchFocus::Replace ==> post.replace@ == panel.replace@ + seq![c]
            &&& panel.focus == SearchFocus::Include ==> post.files_in@ == panel.files_in@ + seq![c]
            &&& panel.focus == SearchFocus::Exclude ==> post.files_out@ == panel.files_out@ + seq![
                c,
            ]
        },
{
    assert(panel.hits.len() == panel.hits@.len());
    if let KeyCode::Char(c) = key.code {
        assert(panel.query@.push(c) =~= panel.query@ + seq![c]);
        assert(panel.replace@.push(c) =~= panel.replace@ + seq![c]);
        assert(panel.files_in@.push(c) =~= panel.files_in@ + seq![c]);
        assert(panel.files_out@.push(c) =~= panel.files_out@ + seq![c]);
    }
}

/// A click in the search panel: a field takes the focus, a result opens its file
/// at its line, the refresh button searches, the clear button empties every
/// field, and the wheel moves the results by three lines.
pub proof fn law_search_clicks_do_what_they_show(
    panel: SearchPanel,
    target: SearchTarget,
    now: u64,
    post: SearchPanel,
    command: SearchCommand,
)
    requires
        panel.click_rel(target, now, &post, command),
    ensures
        target is Query || target is Clear ==> post.focus == SearchFocus::Query,
        target is Replace ==> post.focus == SearchFocus::Replace,
        target is Include ==> post.focus == SearchFocus::Include,
        target is Exclude ==> post.focus == SearchFocus::Exclude,
        target is Refresh <==> command is Start,
        target is Clear ==> post.query@.len() == 0 && post.replace@.len() == 0
            && post.files_in@.len() == 0 && post.files_out@.len() == 0 && post.hits@.len() == 0,
        target !is Clear ==> post.query@ == panel.query@ && post.files_in@ == panel.files_in@
            && post.files_out@ == panel.files_out@ && post.replace@ == panel.replace@,
        target is Details <==> post.details_expanded != panel.details_expanded,
        target matches SearchTarget::Result(i) ==> (i < panel.hits@.len() ==> post.selected == i
            && post.focus == SearchFocus::Results && (command matches SearchCommand::Open {
            path,
            line,
        } && path@ == panel.hits@[i as int].path@ && line == panel.hits@[i as int].line)),
{
}

/// A search that is started asks for what the panel shows, and for nothing where
/// there is no query or one is running.
pub proof fn law_searches_ask_for_what_is_shown(
    app: App,
    panel: SearchPanel,
    post: App,
    out: Seq<EffectView>,
)
    requires
        app.overlay == Some(Overlay::Search(panel)),
        app.start_rel(&post, out),
    ensures
        panel.query@.len() > 0 && !app.searching ==> post.searching && out == seq![
            EffectView::Search {
                query: panel.query@,
                files_in: panel.files_in@,
                files_out: panel.files_out@,
                options: panel.options,
            },
        ],
        panel.query@.len() == 0 || app.searching ==> out.len() == 0,
{
}

proof fn lemma_hits_are_lines(
    path: Seq<char>,
    label: Seq<char>,
    list: Seq<Seq<char>>,
    i: int,
    query: Seq<char>,
    options: SearchOptions,
    source: Option<(Seq<char>, bool)>,
    limit: int,
    hits: Seq<HitView>,
)
    requires
        0 <= i <= list.len(),
        hits.len() < limit,
    ensures
        ({
            let (found, full) = hits_from(
                path,
                label,
                list,
                i,
                query,
                options,
                source,
                limit,
                hits,
            );
            &&& hits.len() <= found.len()
            &&& forall|k: int| 0 <= k < hits.len() ==> #[trigger] found[k] == hits[k]
            &&& forall|k: int|
                hits.len() <= k < found.len() ==> {
                    let hit = #[trigger] found[k];
                    &&& hit.path == path
                    &&& hit.label == label
                    &&& i < hit.line <= list.len()
                    &&& hit.context == shown_line(list[hit.line - 1])
                    &&& line_matches(list[hit.line - 1], query, options, source)
                }
            &&& forall|j: int, k: int|
                hits.len() <= j < k < found.len() ==> (#[trigger] found[j]).line < (
                #[trigger] found[k]).line
            &&& !full ==> forall|n: int|
                i <= n < list.len() && #[trigger] line_matches(list[n], query, options, source)
                    ==> exists|k: int|
                    hits.len() <= k < found.len() && (#[trigger] found[k]).line == n + 1
        }),
    decreases list.len() - i,
{
    if i < list.len() {
        if line_matches(list[i], query, options, source) {
            let more = hits.push(hit_at(path, label, i, list[i], query, options, source));
            if more.len() < limit {
                lemma_hits_are_lines(
                    path,
                    label,
                    list,
                    i + 1,
                    query,
                    options,
                    source,
                    limit,
                    more,
                );
            }
            let (found, full) = hits_from(
                path,
                label,
                list,
                i,
                query,
                options,
                source,
                limit,
                hits,
            );
            assert(found[hits.len() as int] == more[hits.len() as int]);
            assert(found[hits.len() as int].line == i + 1);
            assert forall|k: int| 0 <= k < hits.len() implies #[trigger] found[k] == hits[k] by {
                assert(found[k] == more[k]);
            }
        } else {
            lemma_hits_are_lines(
                path,
                label,
                list,
                i + 1,
                query,
                options,
                source,
                limit,
                hits,
            );
        }
    }
}

/// The lines that a search finds in a file are those that hold what is asked
/// for, each once and in their order, under their own numbers counted from one;
/// all of them, unless there are more than may be.
pub proof fn law_hits_are_the_lines_that_match(
    path: Seq<char>,
    label: Seq<char>,
    list: Seq<Seq<char>>,
    query: Seq<char>,
    options: SearchOptions,
    source: Option<(Seq<char>, bool)>,
    limit: int,
)
    requires
        limit > 0,
    ensures
        ({
            let (found, full) = hits_from(
                path,
                label,
                list,
                0,
                query,
                options,
                source,
                limit,
                Seq::empty(),
            );
            &&& forall|k: int|
                0 <= k < found.len() ==> {
                    let hit = #[trigger] found[k];
                    &&& hit.path == path
                    &&& hit.label == label
                    &&& 1 <= hit.line <= list.len()
                    &&& hit.context == shown_line(list[hit.line - 1])
                    &&& line_matches(list[hit.line - 1], query, options, source)
                }
            &&& forall|j: int, k: int|
                0 <= j < k < found.len() ==> (#[trigger] found[j]).line < (
                #[trigger] found[k]).line
            &&& !full ==> forall|n: int|
                0 <= n < list.len() && #[trigger] line_matches(list[n], query, options, source)
                    ==> exists|k: int|
                    0 <= k < found.len() && (#[trigger] found[k]).line == n + 1
        }),
{
    lemma_hits_are_lines(path, label, list, 0, query, options, source, limit, Seq::empty());
}

// ---- Keys from anywhere ----

/// The keys that work from anywhere: `Ctrl+Q` closes the pane without hiding it,
/// `Ctrl+P` opens quick open and `Ctrl+F` the search, ready to type; `Ctrl` with
/// a digit switches to the tree, the search or Source Control.
pub proof fn law_keys_from_anywhere(
    app: App,
    rows: Seq<SettingRow>,
    key: Key,
    now: u64,
    post: App,
    out: Seq<EffectView>,
)
    requires
        key.press,
        key.control,
        !key.alt,
        app.key_rel(rows, key, now, &post, out),
    ensures
        key.code == KeyCode::Char('q') ==> out == seq![EffectView::Close { snooze: false }] && post
            == app,
        key.code == KeyCode::Char('p') ==> (post.overlay matches Some(Overlay::QuickOpen(quick))
            && quick.query@.len() == 0) && post.suspended is None,
        key.code == KeyCode::Char('f') && (app.overlay is None || app.in_search()) ==> (
        post.overlay matches Some(Overlay::Search(panel)) && panel.focus == SearchFocus::Query),
        key.code == KeyCode::Char('1') ==> post.overlay is None,
        key.code == KeyCode::Char('2') ==> (post.overlay matches Some(Overlay::Search(_))),
        key.code == KeyCode::Char('3') && app.mode.merged ==> out == seq![
            EffectView::ShareView { view: ViewKind::SourceControl, search: false },
        ] && app.key_exit(key) == Some(Exit::Switch),
{
}

/// Quick open lists the files anew where what was listed is of another folder or
/// of other hidden files, and uses what was listed otherwise.
pub proof fn law_quick_open_uses_a_fresh_list(app: App, post: App, out: Seq<EffectView>)
    requires
        app.quick_open_rel(&post, out),
    ensures
        app.index matches Some(index) ==> (index.root@ == app.folder.root@ && index.show_hidden
            == app.folder.show_hidden ==> out.len() == 0 && (
        post.overlay matches Some(Overlay::QuickOpen(quick)) && quick.files == index.files
            && !quick.loading)),
        app.index is None && !app.indexing ==> out == seq![EffectView::ListFiles] && post.indexing,
        app.index matches Some(index) ==> ((index.root@ != app.folder.root@ || index.show_hidden
            != app.folder.show_hidden) && !app.indexing ==> out == seq![EffectView::ListFiles]),
        app.indexing ==> out.len() == 0,
{
}

/// Results are shown where they answer the search that the panel asks for, of
/// the folder that is shown; others are dropped.
pub proof fn law_answers_are_shown_where_they_were_asked(
    app: App,
    panel: SearchPanel,
    result: SearchResult,
    post: App,
)
    requires
        app.searching,
        app.overlay == Some(Overlay::Search(panel)),
        app.found_rel(Some(result), &post),
    ensures
        !post.searching,
        result.root@ == app.folder.root@ && result.show_hidden == app.folder.show_hidden
            && result.query@ == panel.query@ && result.files_in@ == panel.files_in@
            && result.files_out@ == panel.files_out@ && result.options == panel.options ==> (
        post.overlay matches Some(Overlay::Search(after)) && after.hits == result.hits
            && !after.loading && after.searched && after.truncated == result.truncated
            && after.error == result.error),
        result.query@ != panel.query@ || result.options != panel.options ==> post.overlay
            == app.overlay,
{
}

// ---- What has happened ----

/// A file that was created or renamed is selected in the tree that is read anew,
/// with its folder open; what could not be done is told.
pub proof fn law_new_files_are_selected(
    app: App,
    folder: Option<String>,
    outcome: Result<String, String>,
    post: App,
    out: Seq<EffectView>,
)
    requires
        app.created_rel(folder, outcome, &post, out),
    ensures
        outcome matches Ok(path) ==> out.len() >= 4 && out.last() == EffectView::SelectPath(path@)
            && out[out.len() - 2] == EffectView::ListRows && post.index is None,
        outcome is Ok && folder is Some ==> out[0] == EffectView::Expand(folder->0@),
        outcome matches Err(error) ==> out.len() == 0 && (post.notice matches Some(text) && text@
            == "failed: "@ + error@) && post.list == app.list,
{
    if let Ok(path) = outcome {
        let refresh = crate::explorer_app::app::triple(
            EffectView::Reread,
            EffectView::Rediscover,
            EffectView::ListRows,
        );
        let last = crate::explorer_app::app::just(EffectView::SelectPath(path@));
        if let Some(folder) = folder {
            let first = crate::explorer_app::app::just(EffectView::Expand(folder@));
            assert(out == first + refresh + last);
            assert(out[3] == refresh[2]);
            assert(out[4] == last[0]);
            assert(out[0] == first[0]);
        } else {
            assert(out == refresh + last);
            assert(out[2] == refresh[2]);
            assert(out[3] == last[0]);
        }
    }
}

/// A deletion or a change of branches that went through has everything read
/// anew; one that did not is told, and nothing is read.
pub proof fn law_changes_are_read_anew(
    app: App,
    branch: Seq<char>,
    outcome: Result<(), String>,
    post: App,
    out: Seq<EffectView>,
)
    ensures
        app.deleted_rel(outcome, &post, out) ==> match outcome {
            Ok(()) => out == seq![
                EffectView::Reread,
                EffectView::Rediscover,
                EffectView::ListRows,
            ] && post.notice == app.notice,
            Err(error) => out.len() == 0 && (post.notice matches Some(text) && text@
                == "delete failed: "@ + error@),
        },
        app.checked_out_rel(branch, outcome, &post, out) ==> match outcome {
            Ok(()) => out == seq![
                EffectView::Reread,
                EffectView::Rediscover,
                EffectView::ListRows,
            ] && (post.notice matches Some(text) && text@ == "switched to "@ + branch),
            Err(error) => out.len() == 0 && post.notice == Some(error),
        },
        app.branches_rel(outcome, &post) ==> match outcome {
            Ok(()) => post.overlay matches Some(Overlay::BranchPicker),
            Err(error) => post.notice == Some(error) && post.overlay == app.overlay,
        },
{
}

/// A synchronisation that has ended lets another one start, reads the status
/// anew where it went through, and is told either way.
pub proof fn law_a_sync_ends(
    app: App,
    outcome: Result<String, Option<String>>,
    post: App,
    out: Seq<EffectView>,
)
    requires
        app.repo.syncing,
        app.synced_rel(outcome, &post, out),
    ensures
        !post.repo.syncing,
        outcome matches Ok(summary) ==> post.notice == Some(summary) && out == seq![
            EffectView::ReadStatus,
        ],
        outcome matches Err(Some(error)) ==> post.notice == Some(error) && out.len() == 0,
        outcome is Err ==> out.len() == 0 && post.notice is Some,
{
}

/// What staging from the tree tells: nothing, one file, or how many.
pub proof fn law_staging_is_counted(name: Seq<char>, done: Staged)
    ensures
        done.count == 0 && done.skipped == 0 ==> stage_text(name, Ok(done)) == "nothing to stage in "@
            + name,
        done.count == 1 ==> stage_text(name, Ok(done)) == "staged "@ + name + " in "@ + done.repo@,
        done.count > 1 ==> stage_text(name, Ok(done)) == "staged "@ + crate::text::decimal(
            done.count as nat,
        ) + " paths under "@ + name + " in "@ + done.repo@,
{
}

// ---- What is asked for ----

/// What is asked for in plain values is what is asked for.
pub proof fn law_effects_are_seen_as_they_are(a: String, b: String, line: Option<usize>, flag: bool)
    ensures
        Effect::Expand(a)@ == EffectView::Expand(a@),
        Effect::Collapse(a)@ == EffectView::Collapse(a@),
        Effect::Toggle(a)@ == EffectView::Toggle(a@),
        Effect::SelectPath(a)@ == EffectView::SelectPath(a@),
        (Effect::Preview { path: a, line })@ == (EffectView::Preview { path: a@, line }),
        Effect::Pin(a)@ == EffectView::Pin(a@),
        Effect::OpenEditor(a)@ == EffectView::OpenEditor(a@),
        Effect::Copy(a)@ == EffectView::Copy(a@),
        (Effect::OpenExternal { path: a, name: b })@ == (EffectView::OpenExternal {
            path: a@,
            name: b@,
        }),
        (Effect::Stage { path: a, name: b })@ == (EffectView::Stage { path: a@, name: b@ }),
        (Effect::Reveal { path: a, directory: flag })@ == (EffectView::Reveal {
            path: a@,
            directory: flag,
        }),
        (Effect::CreateFile { folder: a, name: b })@ == (EffectView::CreateFile {
            folder: a@,
            name: b@,
        }),
        (Effect::CreateFolder { folder: a, name: b })@ == (EffectView::CreateFolder {
            folder: a@,
            name: b@,
        }),
        (Effect::Rename { path: a, name: b })@ == (EffectView::Rename { path: a@, name: b@ }),
        (Effect::Delete { path: a, is_dir: flag })@ == (EffectView::Delete {
            path: a@,
            is_dir: flag,
        }),
        Effect::ChangeFolder(a)@ == EffectView::ChangeFolder(a@),
        Effect::SaveEditor(a)@ == EffectView::SaveEditor(a@),
        (Effect::Close { snooze: flag })@ == (EffectView::Close { snooze: flag }),
        Effect::ShareSearch(flag)@ == EffectView::ShareSearch(flag),
        Effect::AdjustWidth(flag)@ == EffectView::AdjustWidth(flag),
        Effect::AdjustAbovePercent(flag)@ == EffectView::AdjustAbovePercent(flag),
{
}

// ---- The mouse in what lies above ----

/// A click on a row of a menu runs that row, one beside the menu closes it, and
/// the mouse points at the row that it is on.
pub proof fn law_menus_take_the_mouse(
    app: App,
    step: MenuMouse,
    i: usize,
    post: App,
    out: Seq<EffectView>,
)
    requires
        app.menu_mouse_rel(step, &post, out),
    ensures
        step is Nothing ==> post == app && out.len() == 0,
        step == MenuMouse::Point(i) ==> out.len() == 0 && post.overlay == app.overlay_at(i),
        step == MenuMouse::Activate(i) ==> (App {
            overlay: app.overlay_at(i),
            ..app
        }).activate_rel(&post, out),
        step is Close ==> out.len() == 0 && !(post.overlay matches Some(Overlay::Menu { .. })),
{
}

/// A click on a row of the settings changes that setting, and one beside them
/// closes them.
pub proof fn law_settings_take_the_mouse(
    app: App,
    step: SettingsMouse,
    i: usize,
    post: App,
    out: Seq<EffectView>,
)
    requires
        app.settings_mouse_rel(step, &post, out),
    ensures
        step is Nothing ==> post == app && out.len() == 0,
        step == SettingsMouse::Point(i) ==> out.len() == 0 && post.overlay == app.overlay_at(i),
        step == SettingsMouse::Toggle(i) ==> out == seq![EffectView::ToggleSetting(i)],
        step is Close ==> out.len() == 0 && !(post.overlay matches Some(Overlay::Settings { .. })),
{
}

/// What is open above the tree takes the mouse for itself, and the picker of
/// the branches as well.
pub proof fn law_what_is_open_takes_the_mouse(
    app: App,
    rows: usize,
    mouse: Mouse,
    post: App,
    out: Seq<EffectView>,
)
    requires
        app.overlay_mouse_rel(rows, mouse, &post, out),
    ensures
        app.overlay == Some(Overlay::BranchPicker) ==> out == seq![EffectView::ToPicker] && post
            == app,
        app.overlay is None || (app.overlay matches Some(Overlay::Prompt { .. })) || (
        app.overlay matches Some(Overlay::ConfirmDelete { .. })) ==> post == app && out.len() == 0,
        post.list == app.list && post.folder == app.folder || app.overlay matches Some(
            Overlay::Menu { .. },
        ),
{
}

/// The result under a cell is the first one that is drawn there.
pub proof fn law_the_first_result_under_a_cell_is_hit(
    rows: Seq<(Area, usize)>,
    x: u16,
    y: u16,
    from: int,
    k: int,
)
    requires
        0 <= from <= k < rows.len(),
        in_area(rows[k].0, x, y),
        forall|j: int| from <= j < k ==> !in_area((#[trigger] rows[j]).0, x, y),
    ensures
        result_under(rows, x, y, from) == Some(rows[k].1),
    decreases k - from,
{
    if from < k {
        law_the_first_result_under_a_cell_is_hit(rows, x, y, from + 1, k);
    }
}

/// A click in the search panel goes to the part that is drawn there; the parts
/// of a panel do not lie above each other.
pub proof fn law_search_clicks_go_where_they_point(
    zones: SearchZones,
    rows: Seq<(Area, usize)>,
    details: bool,
    x: u16,
    y: u16,
)
    ensures
        ({
            let target = target_spec(zones, rows, details, x, y);
            &&& target == SearchTarget::Refresh ==> in_area(zones.refresh, x, y)
            &&& target == SearchTarget::Clear ==> in_area(zones.clear, x, y)
            &&& target == SearchTarget::Details ==> in_area(zones.details, x, y)
            &&& target == SearchTarget::MatchCase ==> in_area(zones.match_case, x, y)
            &&& target == SearchTarget::WholeWord ==> in_area(zones.whole_word, x, y)
            &&& target == SearchTarget::Regex ==> in_area(zones.regex, x, y)
            &&& target == SearchTarget::Query ==> in_area(zones.query, x, y)
            &&& target == SearchTarget::Replace ==> in_area(zones.replace, x, y)
            &&& target == SearchTarget::Include ==> details && in_area(zones.files_in, x, y)
            &&& target == SearchTarget::Exclude ==> details && in_area(zones.files_out, x, y)
            &&& target == SearchTarget::Nowhere ==> {
                &&& !in_area(zones.refresh, x, y) && !in_area(zones.clear, x, y) && !in_area(
                    zones.details,
                    x,
                    y,
                )
                &&& !in_area(zones.match_case, x, y) && !in_area(zones.whole_word, x, y)
                    && !in_area(zones.regex, x, y)
                &&& !in_area(zones.query, x, y) && !in_area(zones.replace, x, y)
                &&& details ==> !in_area(zones.files_in, x, y) && !in_area(zones.files_out, x, y)
                &&& result_under(rows, x, y, 0) is None
            }
            &&& target matches SearchTarget::Result(i) ==> result_under(rows, x, y, 0) == Some(i)
        }),
{
}

/// What answers another search is dropped: one for other text, other options or
/// other filters.
pub proof fn law_other_answers_are_dropped(panel: SearchPanel, result: SearchResult)
    ensures
        panel.query@ != result.query@ || panel.files_in@ != result.files_in@ || panel.files_out@
            != result.files_out@ || panel.options != result.options ==> panel.answered(result)
            == panel,
        panel.query@ == result.query@ && panel.files_in@ == result.files_in@ && panel.files_out@
            == result.files_out@ && panel.options == result.options ==> panel.answered(result).hits
            == result.hits && panel.answered(result).selected == 0 && panel.answered(
            result,
        ).dirty_since is None,
{
}

/// A staging that failed tells why, and one that met a repository inside tells
/// how many files were left to it.
pub proof fn law_stagings_tell_what_was_left(name: Seq<char>, done: Staged, error: String)
    ensures
        stage_text(name, Err(error)) == "stage failed: "@ + error@,
        done.count == 0 && done.skipped > 0 ==> stage_text(name, Ok(done)) == name
            + ": nothing staged — "@ + crate::text::decimal(done.skipped as nat)
            + " path(s) belong to a nested repo"@,
{
}

/// An answer that nobody waits for changes nothing.
pub proof fn law_unexpected_answers_change_nothing(
    app: App,
    result: Option<SearchResult>,
    post: App,
)
    requires
        !app.searching,
        app.found_rel(result, &post),
    ensures
        post == app,
{
}

} // verus!
