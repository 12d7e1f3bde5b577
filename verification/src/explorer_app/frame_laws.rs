//! What the Explorer promises to draw around the tree, and what the settings, the
//! folder picker and the listing of the files do to it.

use crate::columns::{columns, fitting_start, input_end};
use crate::explorer_app::app::{list_command_spec, App, EffectView, ListCommand, Overlay};
use crate::explorer_app::clicks::FrameTarget;
use crate::explorer_app::deco::{IgnoredFiles, IgnoredRead};
use crate::explorer_app::frame::{bar_rows, header_spec, hint_spec, SearchFrame};
use crate::explorer_app::hits::{has_bad_regex, regex_text, search_error};
use crate::explorer_app::menus::at_home;
use crate::explorer_app::outcomes::prompt_pieces;
use crate::explorer_app::panel::{SearchCommand, SearchPanel, SearchZones};
use crate::explorer_app::patterns::{
    filter_error, filter_globs, first_glob_error, glob_error, glob_set_error, regex_error,
};
use crate::explorer_app::quick::{is_arrangement, is_file_at, is_listing, QuickFile};
use crate::explorer_app::quick_open::QuickIndex;
use crate::explorer_app::search::SearchOptions;
use crate::explorer_app::tree::{row_lead, row_pieces, Row};
use crate::geometry::{in_area, Area};
use crate::input::{KeyCode, Mouse, MouseKind};
use crate::ranking::text_before;
use crate::settings::{Setting, SettingStep};
use crate::text::{lowercase, string_views, uppercase};
use crate::view::is_due;
use vstd::prelude::*;

verus! {

// ---- Lines ----

/// The line above the tree names the folder in upper case to the left, and what
/// is left of its width stands between the name and the buttons.
pub proof fn law_the_folder_is_named_at_the_left(
    name: Seq<char>,
    width: u16,
    gear: u16,
    actions: u16,
)
    requires
        columns(" "@ + uppercase(name)) + gear + actions <= width,
    ensures
        header_spec(name, width, gear, actions).0 == " "@ + uppercase(name),
        columns(" "@ + uppercase(name)) + header_spec(name, width, gear, actions).1 + actions + gear
            == width,
{
}

/// The keys that the footer explains do what it says.
pub proof fn law_hints_tell_what_the_keys_do()
    ensures
        hint_spec(3) == ("r"@, "refresh"@) && list_command_spec(KeyCode::Char('r'))
            == ListCommand::Refresh,
        hint_spec(4) == ("."@, "dotfiles"@) && list_command_spec(KeyCode::Char('.'))
            == ListCommand::ToggleHidden,
        hint_spec(5) == ("c"@, "folder"@) && list_command_spec(KeyCode::Char('c'))
            == ListCommand::ChangeFolder,
        hint_spec(8) == ("m"@, "menu"@) && list_command_spec(KeyCode::Char('m'))
            == ListCommand::Menu,
        hint_spec(9) == ("s"@, "settings"@) && list_command_spec(KeyCode::Char('s'))
            == ListCommand::Settings,
        hint_spec(10) == ("b"@, "hide"@) && list_command_spec(KeyCode::Char('b'))
            == ListCommand::Hide,
        hint_spec(11) == ("q"@, "quit"@) && list_command_spec(KeyCode::Char('q'))
            == ListCommand::Quit,
        hint_spec(12) == ("1"@, "files"@) && list_command_spec(KeyCode::Char('1'))
            == ListCommand::Explorer,
        hint_spec(13) == ("2"@, "search"@) && list_command_spec(KeyCode::Char('2'))
            == ListCommand::Search,
        hint_spec(14) == ("3"@, "git"@) && list_command_spec(KeyCode::Char('3'))
            == ListCommand::SourceControl,
        hint_spec(0).1 == "move"@ && list_command_spec(KeyCode::Up) == ListCommand::Up
            && list_command_spec(KeyCode::Down) == ListCommand::Down,
        hint_spec(1).1 == "fold"@ && list_command_spec(KeyCode::Left) == ListCommand::Leave
            && list_command_spec(KeyCode::Right) == ListCommand::Enter,
        hint_spec(2).1 == "toggle"@ && list_command_spec(KeyCode::Enter) == ListCommand::Toggle,
{
}

/// A row of the tree shows its indentation, its icon and its name; the mark of
/// its status ends in the third column from the right. A name that has room is
/// shown whole.
pub proof fn law_rows_show_their_name_and_mark(
    row: Row,
    glyph: Seq<char>,
    letter: char,
    width: u16,
)
    requires
        columns(row_lead(row)) + columns(glyph + " "@) + columns(row.name@) + 4 <= width,
        letter != 'I',
    ensures
        ({
            let line = row_pieces(row, glyph, Some(letter), width);
            &&& line.len() == 6
            &&& line[0].text == row_lead(row)
            &&& line[1].text == glyph + " "@
            &&& line[2].text == row.name@
            &&& columns(line[0].text) + columns(line[1].text) + columns(line[2].text)
                + line[3].text.len() + 1 + 2 == width
            &&& line[4].text == (if row.is_dir {
                "●"@
            } else {
                seq![letter]
            })
            &&& line[5].text == "  "@
        }),
        ({
            let line = row_pieces(row, glyph, None, width);
            &&& line.len() == 3
            &&& line[0].text == row_lead(row)
            &&& line[1].text == glyph + " "@
            &&& line[2].text == row.name@
        }),
        row_pieces(row, glyph, Some('I'), width).len() == 3,
        row_pieces(row, glyph, Some('I'), width)[2].text == row.name@,
{
}

/// A prompt shows its title before what was typed, and the cursor behind it;
/// where there is room, which keys end it.
pub proof fn law_prompts_show_what_was_typed(title: Seq<char>, input: Seq<char>, width: u16)
    ensures
        ({
            let line = prompt_pieces(title, input, width);
            &&& line.len() == 3 || line.len() == 4
            &&& line[0].text == " "@ + title + ": "@
            &&& line[2].text == "█"@
            &&& line.len() == 4 ==> line[3].text == "  (⏎ ok · esc cancel)"@
            &&& line.len() == 4 <==> columns(" "@ + title + ": "@) + 5 + columns(
                "  (⏎ ok · esc cancel)"@,
            ) + columns(input) <= width
            &&& line[1].text.len() <= input.len()
            &&& line[1].text == input.skip(input.len() - line[1].text.len())
        }),
{
    let line = prompt_pieces(title, input, width);
    assert(exists|max: usize| line[1].text == #[trigger] input_end(input, max));
    let max = choose|max: usize| line[1].text == #[trigger] input_end(input, max);
    lemma_fitting_start(input, input.len() as int, max as int);
    let from = fitting_start(input, input.len() as int, max as int);
    assert(line[1].text == input.skip(from));
    assert(line[1].text.len() == input.len() - from);
}

proof fn lemma_fitting_start(text: Seq<char>, to: int, room: int)
    requires
        0 <= to <= text.len(),
    ensures
        0 <= fitting_start(text, to, room) <= to,
    decreases to,
{
    if to > 0 && crate::columns::shown_columns(text[to - 1]) <= room {
        lemma_fitting_start(text, to - 1, room - crate::columns::shown_columns(text[to - 1]));
    }
}

/// A notice stands in the footer before a question, and a question names what
/// would be deleted.
pub proof fn law_the_footer_tells_before_it_asks(app: App)
    ensures
        app.notice matches Some(notice) ==> app.message_spec() == Some((notice@, false)),
        app.notice is None ==> (app.overlay matches Some(
            Overlay::ConfirmDelete { path, name, is_dir },
        ) ==> app.message_spec() == Some(("Delete '"@ + name@ + "' permanently? (y/N)"@, true))),
        app.notice is None && !(app.overlay matches Some(Overlay::ConfirmDelete { .. }))
            ==> app.message_spec() is None,
{
}

/// The footer has at least one line. A message has the lines that it takes, a
/// prompt one, the hints theirs, and the branch one more.
pub proof fn law_the_footer_has_room_for_its_lines(app: App, message: int, hints: Option<u16>)
    requires
        message >= 1,
    ensures
        app.footer_lines(message, hints, false) >= 1,
        app.message_spec() is Some ==> app.footer_lines(message, hints, false) == message
            && app.footer_lines(message, hints, true) == message + 1,
        app.message_spec() is None && app.overlay is None ==> {
            &&& app.footer_lines(message, None, false) == 1
            &&& app.footer_lines(message, None, true) == 3
            &&& hints matches Some(n) ==> n > 0 ==> app.footer_lines(message, hints, false) == n
                && app.footer_lines(message, hints, true) == n + 1
        },
        app.message_spec() is None && (app.overlay matches Some(Overlay::Prompt { .. }))
            ==> app.footer_lines(message, hints, false) == 1 && app.footer_lines(
            message,
            hints,
            true,
        ) == 2,
{
}

/// The tree is drawn in its part of the screen, from the row that its scroll
/// names, and shows the selection where a key moved it.
pub proof fn law_the_tree_is_drawn_in_its_part(
    app: App,
    width: u16,
    height: u16,
    body: Area,
    sel: usize,
)
    requires
        app.list.selected == Some(sel),
        sel < app.list.rows@.len(),
        body.height > 0,
    ensures
        ({
            let drawn = app.tree_drawn(width, height, body);
            &&& drawn.list.body.top == body.y && drawn.list.body.height == body.height
            &&& drawn.list.body.offset == drawn.list.scroll
            &&& app.list.snap ==> drawn.list.scroll <= sel < drawn.list.scroll + body.height
            &&& !drawn.list.snap
            &&& drawn.list.selected == app.list.selected && drawn.list.rows == app.list.rows
            &&& drawn.screen.width == width && drawn.screen.height == height
            &&& drawn.overlay == app.overlay && drawn.notice == app.notice
        }),
{
    assert(app.list.rows.len() == app.list.rows@.len());
    crate::explorer_app::tree::law_draws_show_the_selection(app.list, body.height as int);
}

/// A click on the frame goes to what is drawn there; the tabs are there in a
/// unified sidebar only.
pub proof fn law_frame_clicks_go_where_they_point(app: App, x: u16, y: u16)
    ensures
        app.frame_target_spec(x, y) == FrameTarget::Explorer
            || app.frame_target_spec(x, y) == FrameTarget::Search
            || app.frame_target_spec(x, y) == FrameTarget::SourceControl ==> app.mode.merged,
        app.frame_target_spec(x, y) == FrameTarget::Settings ==> in_area(
            app.screen.zones.gear,
            x,
            y,
        ),
        app.frame_target_spec(x, y) == FrameTarget::Branch ==> in_area(
            app.screen.zones.footer_branch,
            x,
            y,
        ),
        app.frame_target_spec(x, y) == FrameTarget::Sync ==> in_area(
            app.screen.zones.footer_sync,
            x,
            y,
        ),
        !app.mode.merged && in_area(app.screen.zones.gear, x, y) ==> app.frame_target_spec(x, y)
            == FrameTarget::Settings,
        !app.mode.merged && !in_area(app.screen.zones.gear, x, y) && in_area(
            app.screen.zones.footer_branch,
            x,
            y,
        ) ==> app.frame_target_spec(x, y) == FrameTarget::Branch,
        !app.mode.merged && !in_area(app.screen.zones.gear, x, y) && !in_area(
            app.screen.zones.footer_branch,
            x,
            y,
        ) && in_area(app.screen.zones.footer_sync, x, y) ==> app.frame_target_spec(x, y)
            == FrameTarget::Sync,
        !in_area(app.screen.zones.gear, x, y) && !in_area(app.screen.zones.footer_branch, x, y)
            && !in_area(app.screen.zones.footer_sync, x, y) && !app.mode.merged
            ==> app.frame_target_spec(x, y) == FrameTarget::Body,
{
}

/// The mouse leaves the Explorer by the tab of Source Control alone.
pub proof fn law_the_mouse_leaves_by_the_tab(app: App, mouse: Mouse)
    ensures
        app.mouse_exit(mouse) is Some ==> app.mode.merged && mouse.kind == MouseKind::LeftDown
            && app.frame_target_spec(mouse.column, mouse.row) == FrameTarget::SourceControl,
{
}

// ---- Settings and folders ----

/// A setting that was chosen does what it names: the hidden files appear or
/// vanish, the marks of git are read anew, the editor is asked for, and a
/// folder is picked.
pub proof fn law_settings_take_effect(
    app: App,
    step: SettingStep,
    editor: Option<String>,
    post: App,
    out: Seq<EffectView>,
)
    requires
        app.setting_rel(step, editor, &post, out),
    ensures
        step == SettingStep::Flip(Setting::HiddenFiles) ==> post.folder.show_hidden
            == !app.folder.show_hidden && out == seq![EffectView::ListRows],
        step == SettingStep::Flip(Setting::GitDecorations) || step == SettingStep::Flip(
            Setting::GitFooter,
        ) ==> out == seq![EffectView::Rediscover] && post == app,
        step != SettingStep::Flip(Setting::HiddenFiles) ==> post.folder == app.folder,
        step == SettingStep::AskEditor ==> (post.overlay matches Some(
            Overlay::Prompt { title, input, kind },
        ) && kind is CustomEditor && (editor matches Some(command) ==> input@ == command@) && (
        editor is None ==> input@.len() == 0)),
        step is SetUnified ==> !(post.overlay matches Some(Overlay::Settings { .. })),
        step == SettingStep::ChooseFolder && app.mode.native_picker && !app.picking ==> out
            == seq![EffectView::PickFolder] && post.picking,
{
}

/// The folder that was picked becomes the root; a picker that was dismissed
/// changes nothing, and another one can be opened after either.
pub proof fn law_picked_folders_are_opened(
    app: App,
    outcome: Result<Option<String>, ()>,
    post: App,
    out: Seq<EffectView>,
)
    requires
        app.picked_rel(outcome, &post, out),
    ensures
        app.picking ==> !post.picking,
        !app.picking ==> post == app && out.len() == 0,
        app.picking ==> (outcome matches Ok(Some(path)) ==> crate::text::trim(path@).len() > 0
            ==> out == seq![EffectView::ChangeFolder(crate::text::trim(path@))]),
        !(outcome matches Ok(Some(_))) ==> out.len() == 0,
        post.folder == app.folder,
{
}

/// A tilde in front stands for the home folder, and a path without one for
/// itself.
pub proof fn law_tildes_stand_for_home(rest: Seq<char>, home: Seq<char>)
    ensures
        at_home(seq!['~'] + rest, home) == home + rest,
        rest.len() == 0 || rest[0] != '~' ==> at_home(rest, home) == rest,
{
    assert((seq!['~'] + rest).skip(1) =~= rest);
}

// ---- Searching and listing ----

/// A pattern that cannot be read is complained about before the filters, and
/// the files to search before those to leave out; a search whose parts can all
/// be read is not complained about.
pub proof fn law_complaints_name_what_is_wrong(
    query: Seq<char>,
    files_in: Seq<char>,
    files_out: Seq<char>,
    options: SearchOptions,
)
    ensures
        !options.regex ==> !has_bad_regex(query, options),
        options.regex ==> (regex_error(
            regex_text(query, options.whole_word),
            !options.match_case,
        ) matches Some(error) ==> search_error(query, files_in, files_out, options) == Some(
            "Invalid regular expression: "@ + error,
        )),
        !has_bad_regex(query, options) ==> {
            &&& filter_error(files_in) matches Some(error) ==> search_error(
                query,
                files_in,
                files_out,
                options,
            ) == Some("Invalid "@ + "include"@ + " pattern: "@ + error)
            &&& filter_error(files_in) is None ==> (filter_error(files_out) matches Some(error)
                ==> search_error(query, files_in, files_out, options) == Some(
                "Invalid "@ + "exclude"@ + " pattern: "@ + error,
            ))
            &&& filter_error(files_in) is None && filter_error(files_out) is None
                ==> search_error(query, files_in, files_out, options) is None
        },
{
}

proof fn lemma_first_glob_error(patterns: Seq<Seq<char>>, from: int, k: int)
    requires
        0 <= from <= k < patterns.len(),
        glob_error(patterns[k]) is Some,
        forall|j: int| from <= j < k ==> glob_error(#[trigger] patterns[j]) is None,
    ensures
        first_glob_error(patterns, from) == glob_error(patterns[k]),
    decreases k - from,
{
    if from < k {
        lemma_first_glob_error(patterns, from + 1, k);
    }
}

proof fn lemma_no_glob_error(patterns: Seq<Seq<char>>, from: int)
    requires
        0 <= from <= patterns.len(),
        forall|j: int| from <= j < patterns.len() ==> glob_error(#[trigger] patterns[j]) is None,
    ensures
        first_glob_error(patterns, from) is None,
    decreases patterns.len() - from,
{
    if from < patterns.len() {
        lemma_no_glob_error(patterns, from + 1);
    }
}

/// The first pattern of a filter that cannot be read is the one that is
/// complained about; an empty filter is always in order.
pub proof fn law_the_first_bad_pattern_is_told(raw: Seq<char>, k: int)
    ensures
        filter_globs(raw).len() == 0 ==> filter_error(raw) is None,
        0 <= k < filter_globs(raw).len() && glob_error(filter_globs(raw)[k]) is Some && (forall|
            j: int,
        |
            0 <= j < k ==> glob_error(#[trigger] filter_globs(raw)[j]) is None) ==> filter_error(raw)
            == glob_error(filter_globs(raw)[k]),
        filter_globs(raw).len() > 0 && (forall|j: int|
            0 <= j < filter_globs(raw).len() ==> glob_error(#[trigger] filter_globs(raw)[j])
                is None) ==> filter_error(raw) == glob_set_error(filter_globs(raw)),
{
    let globs = filter_globs(raw);
    if 0 <= k < globs.len() && glob_error(globs[k]) is Some && (forall|j: int|
        0 <= j < k ==> glob_error(#[trigger] globs[j]) is None) {
        lemma_first_glob_error(globs, 0, k);
    }
    if forall|j: int| 0 <= j < globs.len() ==> glob_error(#[trigger] globs[j]) is None {
        lemma_no_glob_error(globs, 0);
    }
}

/// A search starts when the text has rested for 300 milliseconds, and not while
/// another one runs.
pub proof fn law_searches_wait_for_the_typing(app: App, panel: SearchPanel, since: u64, now: u64)
    requires
        app.overlay == Some(Overlay::Search(panel)),
        panel.dirty_since == Some(since),
        now >= since,
    ensures
        now - since >= 300 && !app.searching <==> app.search_due(now),
{
}

/// The files that were listed are shown in quick open with what was typed kept,
/// where they are of the folder that is shown; another listing is dropped.
pub proof fn law_listed_files_are_shown(app: App, index: QuickIndex, post: App)
    requires
        app.indexing,
        app.index_rel(index, &post),
    ensures
        !post.indexing,
        index.root@ == app.folder.root@ && index.show_hidden == app.folder.show_hidden
            ==> post.index == Some(index) && (app.overlay matches Some(Overlay::QuickOpen(quick))
            ==> (post.overlay matches Some(Overlay::QuickOpen(now)) && now.files == index.files
            && now.query == quick.query && now.truncated == index.truncated && !now.loading
            && now.selected == 0)),
        index.root@ != app.folder.root@ ==> post.index == app.index && (app.overlay matches Some(
            Overlay::QuickOpen(quick),
        ) ==> (post.overlay matches Some(Overlay::QuickOpen(now)) && now.files == quick.files
            && !now.loading)),
{
}

/// The listing holds every file once, by its path in lower case.
pub proof fn law_listings_are_in_order(
    files: Seq<QuickFile>,
    order: Seq<usize>,
    listed: Seq<QuickFile>,
    i: int,
    j: int,
)
    requires
        is_arrangement(order, files.len()),
        is_listing(files, order, listed),
        0 <= i < j < listed.len(),
    ensures
        listed.len() == files.len(),
        listed[i].label_lower@ != listed[j].label_lower@ ==> text_before(
            listed[i].label_lower@,
            listed[j].label_lower@,
        ),
        listed[i].label_lower@ == listed[j].label_lower@ ==> order[i] < order[j],
        listed[i].path@ == files[order[i] as int].path@,
        order[i] != order[j],
{
    let (a, b) = (order[i], order[j]);
    assert(listed[i].label_lower@ == files[a as int].label_lower@);
    assert(listed[j].label_lower@ == files[b as int].label_lower@);
}

/// A file is labelled with its path below the root, with slashes between the
/// names.
pub proof fn law_labels_are_paths_with_slashes(
    file: QuickFile,
    path: Seq<char>,
    below: Seq<char>,
    i: int,
)
    requires
        is_file_at(file, path, below),
        0 <= i < below.len(),
    ensures
        file.path@ == path,
        file.label@.len() == below.len(),
        below[i] == '\\' ==> file.label@[i] == '/',
        below[i] != '\\' ==> file.label@[i] == below[i],
        file.label_lower@ == lowercase(file.label@),
{
}

/// What was listed of a repository is kept until it is listed again.
pub proof fn law_ignored_files_are_kept(kept: IgnoredFiles, read: IgnoredRead)
    ensures
        read.ignored matches Some(list) ==> kept.ignored_after(read) == Some(string_views(list@)),
        read.ignored is None ==> kept.ignored_after(read) == kept.ignored_of(read.root@),
{
}

/// Something that is done at intervals is due when the interval has passed.
pub proof fn law_intervals_pass(last: u64, every: u64, now: u64, due: bool)
    requires
        call_ensures(is_due, (last, every, now), due),
    ensures
        due <==> last + every <= now,
{
}

/// A listing that nobody waits for changes nothing.
pub proof fn law_unexpected_listings_change_nothing(app: App, index: QuickIndex, post: App)
    requires
        !app.indexing,
        app.index_rel(index, &post),
    ensures
        post == app,
{
}

/// The bar is three lines high in a unified sidebar, and not there otherwise.
pub proof fn law_the_bar_is_there_for_both_views()
    ensures
        bar_rows(true) == 3,
        bar_rows(false) == 0,
{
}

/// The wheel scrolls the results by three lines, up or down.
pub proof fn law_the_wheel_scrolls_the_results(
    panel: SearchPanel,
    zones: SearchZones,
    rows: Seq<(Area, usize)>,
    mouse: Mouse,
    now: u64,
    post: SearchPanel,
    command: SearchCommand,
)
    requires
        panel.mouse_rel(zones, rows, mouse, now, &post, command),
    ensures
        mouse.kind == MouseKind::ScrollUp ==> post == panel && (
        command matches SearchCommand::Scroll(delta) && delta == -3),
        mouse.kind == MouseKind::ScrollDown ==> post == panel && (
        command matches SearchCommand::Scroll(delta) && delta == 3),
        mouse.kind != MouseKind::ScrollUp && mouse.kind != MouseKind::ScrollDown && mouse.kind
            != MouseKind::LeftDown ==> post == panel && command is Nothing,
{
}

/// Without room nothing of the search is drawn, and nothing of it can be
/// clicked; with room its cells are those that were drawn.
pub proof fn law_only_what_is_drawn_is_clicked(
    app: App,
    area: Area,
    post: App,
    drawn: Option<SearchFrame>,
)
    requires
        app.overlay matches Some(Overlay::Search(_)),
        app.search_drawn_rel(area, &post, drawn),
    ensures
        area.width == 0 || area.height == 0 ==> drawn is None && post.screen.result_rows@.len()
            == 0,
        area.width > 0 && area.height > 0 ==> (drawn matches Some(frame)
            && post.screen.search_zones == frame.layout.zones),
        post.overlay == app.overlay && post.list == app.list && post.notice == app.notice,
{
}

} // verus!
