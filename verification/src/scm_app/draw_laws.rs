//! What the Source Control panel promises to draw: lines that fill their width,
//! a list that shows the selection, and a cursor where the text is.

use crate::columns::{columns, repeated};
use crate::geometry::{area_at, capped, Area};
use crate::git::Status;
use crate::input::KeyCode;
use crate::scm_app::app::{list_command_spec, App, Focus, ListCommand};
use crate::scm_app::boxes::{button_cells, missing_text, sync_cells, HeaderLine};
use crate::scm_app::drawer::Drawer;
use crate::scm_app::frame::{hint_spec, RowIcons};
use crate::scm_app::header::{
    any_draft, branch_text_spec, changes_start, header_counts, sync_label_spec, ChangesHeaderAction,
    REPO_HEADER_ACTIONS,
};
use crate::scm_app::message::{inline_field, placeholder_of};
use crate::scm_app::render::{
    button_label, changes_line, commit_button_lines, drawer_text_line, file_history_line, file_line,
    file_name, header_text, message_box_lines, repo_header_line, section_line,
};
use crate::scm_app::rows::{drawn_end, law_snapping_shows_the_selection, Repo, Row};
use crate::scm_app::snapshot::DocKey;
use crate::spans::{piece, Tone};
use crate::text::decimal;
use vstd::prelude::*;

verus! {

// ---- Lines ----

/// Where the name and the branch of a repository have room, its line shows both
/// whole, the name to the left and the branch right before the actions, and
/// fills the width.
pub proof fn law_repository_lines_fill_their_width(
    repo: Repo,
    active: bool,
    icon: Seq<char>,
    branch_icon: Seq<char>,
    width: usize,
    hovered: bool,
)
    requires
        ({
            let room = width - columns(REPO_HEADER_ACTIONS@);
            let branch = columns(branch_text_spec(branch_icon, repo));
            &&& 0 <= room
            &&& 2 * branch <= room
            &&& columns(header_text(repo.collapsed, icon + " "@ + repo.git.name@)) <= room - branch
        }),
    ensures
        ({
            let line = repo_header_line(repo, active, icon, branch_icon, width, hovered);
            &&& line.len() == 4
            &&& line[0].text == header_text(repo.collapsed, icon + " "@ + repo.git.name@)
            &&& line[2].text == branch_icon + " "@ + repo.branch_decor_spec() + header_counts(
                repo.status,
            )
            &&& line[3].text == " ⇅  ✓ "@
            &&& columns(line[0].text) + line[1].text.len() + columns(line[2].text) + columns(
                line[3].text,
            ) == width
            &&& forall|i: int| 0 <= i < line[1].text.len() ==> #[trigger] line[1].text[i] == ' '
            &&& (line[0].tone == Tone::Bold) == active
            &&& (line[2].tone == Tone::Hover) == hovered
        }),
{
}

/// The button is three lines high. Its label stands in the middle of the second
/// one, and each line fills the width between the margins.
pub proof fn law_buttons_hold_their_label_in_the_middle(
    status: Status,
    syncing: bool,
    active: bool,
    focused: bool,
    width: usize,
)
    requires
        columns(button_label(status, syncing)) + 2 <= width,
    ensures
        ({
            let lines = commit_button_lines(status, syncing, active, focused, width);
            let label = button_label(status, syncing);
            let free = width - 2 - columns(label);
            let middle = lines[1][1].text;
            &&& lines.len() == 3
            &&& lines[0].len() == 3 && lines[1].len() == 3 && lines[2].len() == 3
            &&& middle.len() == label.len() + free
            &&& middle.subrange(free / 2, free / 2 + label.len()) == label
            &&& forall|i: int| 0 <= i < free / 2 ==> #[trigger] middle[i] == ' '
            &&& forall|i: int|
                free / 2 + label.len() <= i < middle.len() ==> #[trigger] middle[i] == ' '
            &&& lines[0][1].text.len() == width - 2 && lines[2][1].text.len() == width - 2
            &&& forall|i: int| 0 <= i < width - 2 ==> #[trigger] lines[0][1].text[i] == '▄'
            &&& forall|i: int| 0 <= i < width - 2 ==> #[trigger] lines[2][1].text[i] == '▀'
            &&& lines[1][1].tone == Tone::Button(active, focused)
        }),
{
    let lines = commit_button_lines(status, syncing, active, focused, width);
    let label = button_label(status, syncing);
    let free = width - 2 - columns(label);
    let middle = lines[1][1].text;
    assert(middle == repeated(' ', (free / 2) as nat) + label + repeated(
        ' ',
        (free - free / 2) as nat,
    ));
    assert(middle.subrange(free / 2, free / 2 + label.len()) =~= label);
}

/// The header of a section shows its title to the left and its count in a badge
/// at the right edge, and fills the width where both have room.
pub proof fn law_section_headers_count_at_the_right(
    title: Seq<char>,
    collapsed: bool,
    count: usize,
    width: usize,
    glyph: Seq<char>,
)
    ensures
        ({
            let line = section_line(title, collapsed, Some(count), width, None);
            let badge = " "@ + decimal(count as nat) + " "@;
            &&& line.len() == 4
            &&& line[0].text == header_text(collapsed, title)
            &&& line[2].text == badge && line[2].tone == Tone::Badge
            &&& line[3].text == " "@
            &&& columns(line[0].text) + columns(badge) + 1 < width ==> columns(line[0].text)
                + line[1].text.len() + columns(badge) + 1 == width
            &&& line[1].text.len() >= 1
        }),
        ({
            let line = section_line(title, collapsed, Some(count), width, Some(glyph));
            let badge = " "@ + decimal(count as nat) + " "@;
            &&& line.len() == 5
            &&& line[0].text == header_text(collapsed, title)
            &&& line[2].text == glyph + " "@
            &&& line[3].text == badge
            &&& line[4].text == " "@
        }),
        section_line(title, collapsed, None, width, None).len() == 1,
        section_line(title, collapsed, None, width, None)[0].text == header_text(collapsed, title),
{
}

/// Under the mouse the header of the changes offers to discard, to stash and to
/// stage, in this order before the count, as long as these have room.
pub proof fn law_changes_headers_offer_their_actions(
    collapsed: bool,
    count: usize,
    width: u16,
    action: Option<ChangesHeaderAction>,
)
    ensures
        ({
            let badge = " "@ + decimal(count as nat) + " "@;
            let line = changes_line(collapsed, count, width as usize, true, action);
            let start = changes_start(
                width,
                columns(" ▾ Changes"@) as u16,
                columns(badge) as u16,
            );
            &&& start is None ==> line == section_line(
                "Changes"@,
                collapsed,
                Some(count),
                width as usize,
                None,
            )
            &&& start is Some ==> {
                &&& line.len() == 7
                &&& line[0].text == header_text(collapsed, "Changes"@)
                &&& line[2].text == " "@ + "↶"@ + " "@
                &&& line[3].text == " "@ + "⇩"@ + " "@
                &&& line[4].text == " "@ + "+"@ + " "@
                &&& line[5].text == badge
                &&& line[2].tone == Tone::Action(action == Some(ChangesHeaderAction::Discard))
                &&& line[3].tone == Tone::Action(action == Some(ChangesHeaderAction::Stash))
                &&& line[4].tone == Tone::Action(action == Some(ChangesHeaderAction::Stage))
            }
        }),
        changes_line(collapsed, count, width as usize, false, action) == section_line(
            "Changes"@,
            collapsed,
            Some(count),
            width as usize,
            None,
        ),
{
}

/// Each row of the list is drawn from what it stands for: a file from its entry
/// in its own list, a drawer from its own lines, a header with its own count.
/// What a row offers shows under the mouse alone.
pub proof fn law_rows_are_drawn_from_what_they_stand_for(app: App, i: usize, icons: RowIcons)
    ensures
        app.panel.rows@[i as int] matches Row::Staged(r, k) ==> app.row_lines_spec(i, icons).len()
            == 1 && (app.hovered != Some(i) ==> app.row_lines_spec(i, icons)[0] == file_line(
            app.panel.repos@[r as int].status.staged@[k as int],
            app.panel.width as usize,
            icons.file@,
            icons.separator,
            true,
            false,
            None,
        )),
        app.panel.rows@[i as int] matches Row::Unstaged(r, k) ==> app.row_lines_spec(
            i,
            icons,
        ).len() == 1 && (app.hovered != Some(i) ==> app.row_lines_spec(i, icons)[0] == file_line(
            app.panel.repos@[r as int].status.unstaged@[k as int],
            app.panel.width as usize,
            icons.file@,
            icons.separator,
            false,
            false,
            None,
        )),
        app.panel.rows@[i as int] matches Row::StagedHeader(r) ==> app.row_lines_spec(
            i,
            icons,
        )[0][0].text == header_text(
            app.panel.repos@[r as int].staged_collapsed,
            "Staged Changes"@,
        ) && (app.hovered != Some(i) ==> app.row_lines_spec(i, icons)[0].len() == 4) && (
        app.hovered == Some(i) ==> app.row_lines_spec(i, icons)[0][2].text == "−"@ + " "@),
        app.panel.rows@[i as int] matches Row::ChangesHeader(r) ==> app.row_lines_spec(
            i,
            icons,
        )[0][0].text == header_text(app.panel.repos@[r as int].changes_collapsed, "Changes"@),
        app.panel.rows@[i as int] matches Row::DrawerLine(kind, k) ==> app.row_lines_spec(
            i,
            icons,
        ) == seq![
            drawer_text_line(kind, app.panel.drawers@[kind.index_spec()].lines@[k as int]@),
        ],
        app.panel.rows@[i as int] matches Row::DrawerHeader(kind) ==> (kind
            == Drawer::FileHistory && app.panel.history() is Some ==> app.row_lines_spec(
            i,
            icons,
        )[0][1].text == "  "@ + file_name(app.panel.history()->0)) && (kind != Drawer::FileHistory
            ==> app.row_lines_spec(i, icons)[0][0].text == header_text(
            !app.panel.drawers@[kind.index_spec()].expanded,
            kind.title_spec(),
        )),
{
}

/// The history of a file names the file behind its title.
pub proof fn law_file_histories_name_their_file(collapsed: bool, file: Seq<char>)
    ensures
        file_history_line(collapsed, file).len() == 2,
        file_history_line(collapsed, file)[0].text == header_text(collapsed, "File History"@),
        file_history_line(collapsed, file)[1].text == "  "@ + file,
{
}

// ---- The frame ----

/// The line at the top shows the title to the left and the branch right before
/// the actions, and a click on the branch is a click on its cells.
pub proof fn law_the_top_line_ends_with_the_branch(
    app: App,
    area: Area,
    gear: u16,
    actions: u16,
    line: HeaderLine,
)
    requires
        app.header_rel(area, gear, actions, line),
        columns(" ▾ "@ + app.title_spec()) + actions + gear + 1 + columns(app.header_right_spec())
            <= area.width,
        area.x + area.width <= u16::MAX,
        area.y < u16::MAX,
    ensures
        line.left@ == " ▾ "@ + app.title_spec(),
        line.branch@ == app.header_right_spec(),
        columns(line.left@) + line.pad + columns(line.branch@) + actions + gear == area.width,
        line.branch_zone.x + line.branch_zone.width + actions + gear == area.x + area.width,
        line.branch_zone.width == columns(line.branch@),
        line.branch_zone.y == area.y && line.branch_zone.height == 1,
{
    reveal(capped);
    reveal(area_at);
}

/// The cells of the button lie inside its border, and those of the sync row
/// between its margins.
pub proof fn law_buttons_lie_inside_their_border(area: Area)
    requires
        area.x + area.width < u16::MAX,
        area.y + area.height < u16::MAX,
    ensures
        area.height >= 3 && area.width >= 2 ==> button_cells(area) == (Area {
            x: (area.x + 1) as u16,
            y: (area.y + 1) as u16,
            width: (area.width - 2) as u16,
            height: 1,
        }),
        area.height < 3 ==> button_cells(area) == area,
        area.width >= 2 ==> sync_cells(area) == (Area {
            x: (area.x + 1) as u16,
            width: (area.width - 2) as u16,
            ..area
        }),
{
    reveal(capped);
    reveal(area_at);
}

/// A list that was moved by a key shows the selected row. The row that is
/// hovered is the one on whose line the mouse stands.
pub proof fn law_the_list_shows_the_selection(app: App, area: Area, sel: usize)
    requires
        app.panel.selected == Some(sel),
        sel < app.panel.rows@.len(),
        area.height > 0,
    ensures
        !app.list_laid(area).panel.snap,
        app.list_laid(area).panel.selected == app.panel.selected,
        app.panel.snap ==> app.list_laid(area).panel.scroll <= sel < drawn_end(
            app.panel.rows@,
            app.panel.repos@,
            app.panel.width,
            app.list_laid(area).panel.scroll as int,
            area.height as int,
        ),
        !app.panel.snap ==> app.list_laid(area).panel.scroll == app.panel.scroll,
        app.list_laid(area).body.offset == app.list_laid(area).panel.scroll,
        app.list_laid(area).body.top == area.y,
        app.list_laid(area).body.height == area.height,
        app.mouse_pos is None ==> app.list_laid(area).hovered is None,
        app.mouse_pos matches Some(pos) ==> (app.list_laid(area).hovered == match app.list_laid(
            area,
        ).hit_at(pos.1) {
            Some((i, _)) => Some(i),
            None => None,
        }),
{
    if app.panel.snap {
        law_snapping_shows_the_selection(
            app.panel.rows@,
            app.panel.repos@,
            app.panel.width,
            app.panel.scroll as int,
            sel as int,
            area.height as nat,
        );
    }
}

/// The footer has its hints and, where it is shown, one line for the branch; at
/// least one line is left to it.
pub proof fn law_the_footer_has_room_for_its_lines(lines: u16)
    requires
        lines < u16::MAX,
    ensures
        lines > 0 ==> App::footer_rows(lines, false) == lines,
        lines > 0 ==> App::footer_rows(lines, true) == lines + 1,
        App::footer_rows(0, false) == 1,
        App::footer_rows(0, true) == 3,
{
}

proof fn lemma_box_from(app: App, from: int)
    requires
        0 <= from <= app.panel.rows@.len(),
        app.panel.rows@.len() <= usize::MAX,
    ensures
        match app.box_from(from) {
            Some(i) => from <= i < app.panel.rows@.len() && app.panel.rows@[i as int]
                == Row::Message(app.panel.active) && forall|j: int|
                from <= j < i ==> #[trigger] app.panel.rows@[j] != Row::Message(app.panel.active),
            None => forall|j: int|
                from <= j < app.panel.rows@.len() ==> #[trigger] app.panel.rows@[j]
                    != Row::Message(app.panel.active),
        },
    decreases app.panel.rows@.len() - from,
{
    if from < app.panel.rows@.len() && app.panel.rows@[from] != Row::Message(app.panel.active) {
        lemma_box_from(app, from + 1);
    }
}

/// The message that is typed is that of the active repository.
pub proof fn law_the_box_of_the_active_repository(app: App)
    requires
        app.panel.rows@.len() <= usize::MAX,
    ensures
        match app.box_from(0) {
            Some(i) => i < app.panel.rows@.len() && app.panel.rows@[i as int] == Row::Message(
                app.panel.active,
            ),
            None => !app.panel.rows@.contains(Row::Message(app.panel.active)),
        },
{
    lemma_box_from(app, 0);
}

/// The cursor shows where the message of one of several repositories is typed,
/// and nowhere else; it stands inside the box, as far into its line as the text
/// before it.
pub proof fn law_the_cursor_stands_in_the_box(app: App, bottom: int)
    requires
        app.panel.width > 5,
    ensures
        app.focus != Focus::Message || !app.multi() ==> app.cursor_spec(bottom) is None,
        app.cursor_spec(bottom) matches Some((x, y)) ==> 1 <= x <= app.panel.width - 5 && y + 1
            < bottom && (x - 1) as nat == app.panel.repos@[app.panel.active as int].cursor as nat % (
        app.panel.width - 5) as nat,
        inline_field(app.panel.width) == app.panel.width - 5,
{
}

/// A document that was shown is remembered, and one that could not be is not.
pub proof fn law_shown_documents_are_remembered(
    app: App,
    document: DocKey,
    outcome: Result<(), String>,
    post: App,
)
    requires
        app.previewed_rel(document, outcome, &post),
    ensures
        outcome is Ok ==> post.last_preview == Some(document) && post.flash == app.flash,
        outcome is Err ==> post.last_preview == app.last_preview && (post.flash matches Some(f)
            && f.1),
        post.panel == app.panel,
{
}

/// There is a draft where one of the messages has a character.
pub proof fn law_drafts_have_text(messages: Seq<&[char]>, i: int)
    requires
        0 <= i < messages.len(),
    ensures
        messages[i]@.len() > 0 ==> any_draft(messages),
        (forall|k: int| 0 <= k < messages.len() ==> (#[trigger] messages[k])@.len() == 0)
            ==> !any_draft(messages),
{
}

/// Outside of a repository the error of git is shown.
pub proof fn law_without_a_repository_the_error_is_shown(error: Seq<char>)
    ensures
        exists|before: Seq<char>, after: Seq<char>|
            missing_text(error) == before + error + after && before.len() > 0 && after.len() > 0,
{
    let before = "Not a git repository.\n\n"@;
    let after = "\n\nOpen this pane inside a repo,\nor press q to quit."@;
    reveal_strlit("Not a git repository.\n\n");
    reveal_strlit("\n\nOpen this pane inside a repo,\nor press q to quit.");
    assert(missing_text(error) == before + error + after);
}

// ---- The message box ----

/// The placeholder names the branch where that has room, and says less and less
/// where it has not.
pub proof fn law_placeholders_say_what_has_room(branch: Seq<char>, width: usize)
    ensures
        ({
            let full = "Message (⏎ to commit on \""@ + branch + "\")"@;
            let short = "Message (⏎ to commit)"@;
            &&& columns(full) <= width ==> placeholder_of(branch, width) == full
            &&& columns(full) > width && columns(short) <= width ==> placeholder_of(branch, width)
                == short
            &&& columns(full) > width && columns(short) > width && columns("Message"@) <= width
                ==> placeholder_of(branch, width) == "Message"@
            &&& columns(placeholder_of(branch, width)) <= width || placeholder_of(
                branch,
                width,
            ).len() == 0
        }),
{
}

/// A box has a border all around it, as wide as the pane, and shows either the
/// placeholder or the message; the suggest button stands on its first line.
pub proof fn law_boxes_frame_the_message(
    repo: Repo,
    focused: bool,
    sparkle: Seq<char>,
    width: u16,
    i: int,
)
    requires
        width >= 2,
    ensures
        ({
            let lines = message_box_lines(repo, focused, sparkle, width as usize);
            let n = lines.len() as int;
            let bar = repeated('─', (width - 2) as nat);
            &&& n >= 2
            &&& lines[0] == seq![piece("┌"@ + bar + "┐"@, Tone::Frame(focused))]
            &&& lines[n - 1] == seq![piece("└"@ + bar + "┘"@, Tone::Frame(focused))]
            &&& 0 < i < n - 1 ==> lines[i].len() == 5 && lines[i][0].text == "│"@
                && lines[i][4].text == "│"@
            &&& 1 < i < n - 1 ==> lines[i][3].text == "   "@
            &&& repo.message@.len() == 0 && !focused ==> n == 3 && lines[1][1].text
                == placeholder_of(repo.status.branch@, inline_field(width) as usize)
        }),
{
}

/// While a repository is synchronised its button says so, and those of the
/// others do not.
pub proof fn law_the_button_follows_the_active_repository(app: App)
    requires
        app.panel.active < app.panel.repos@.len(),
    ensures
        app.button_text() == button_label(
            app.panel.repos@[app.panel.active as int].status,
            app.syncing is Some && app.syncing->0 == app.panel.active,
        ),
        app.label_of_sync() == sync_label_spec(
            app.panel.repos@[app.panel.active as int].status,
            app.syncing is Some && app.syncing->0 == app.panel.active,
        ),
{
}

/// The keys that the footer explains do what it says.
pub proof fn law_hints_tell_what_the_keys_do()
    ensures
        hint_spec(0) == ("⏎"@, "stage"@) && list_command_spec(KeyCode::Enter)
            == ListCommand::Activate,
        hint_spec(1) == ("a"@, "all"@) && list_command_spec(KeyCode::Char('a'))
            == ListCommand::StageAll,
        hint_spec(2) == ("u"@, "none"@) && list_command_spec(KeyCode::Char('u'))
            == ListCommand::UnstageAll,
        hint_spec(3) == ("c"@, "msg"@) && list_command_spec(KeyCode::Char('c'))
            == ListCommand::FocusMessage,
        hint_spec(4) == ("A"@, "suggest"@) && list_command_spec(KeyCode::Char('A'))
            == ListCommand::Suggest,
        hint_spec(5) == ("o"@, "diff"@) && list_command_spec(KeyCode::Char('o'))
            == ListCommand::OpenDiff,
        hint_spec(6) == ("m"@, "menu"@) && list_command_spec(KeyCode::Char('m'))
            == ListCommand::Menu,
        hint_spec(7) == ("b"@, "hide"@) && list_command_spec(KeyCode::Char('b'))
            == ListCommand::Hide,
        hint_spec(8) == ("S"@, "sync"@) && list_command_spec(KeyCode::Char('S'))
            == ListCommand::Sync,
        hint_spec(9) == ("s"@, "settings"@) && list_command_spec(KeyCode::Char('s'))
            == ListCommand::Settings,
        hint_spec(10) == ("r"@, "refresh"@) && list_command_spec(KeyCode::Char('r'))
            == ListCommand::Refresh,
        hint_spec(11) == ("q"@, "quit"@) && list_command_spec(KeyCode::Char('q'))
            == ListCommand::Quit,
        hint_spec(12) == ("1"@, "files"@) && list_command_spec(KeyCode::Char('1'))
            == ListCommand::Explorer,
        hint_spec(13) == ("2"@, "search"@) && list_command_spec(KeyCode::Char('2'))
            == ListCommand::Search,
        hint_spec(14) == ("3"@, "git"@),
{
}

/// The box and the button of a repository show that they have the keys where
/// these go there, which is in the active repository alone.
pub proof fn law_boxes_show_who_has_the_keys(app: App, i: usize, icons: RowIcons)
    ensures
        app.panel.rows@[i as int] matches Row::Message(r) ==> app.row_lines_spec(i, icons)
            == message_box_lines(
            app.panel.repos@[r as int],
            r == app.panel.active && app.focus == Focus::Message,
            icons.sparkle@,
            app.panel.width as usize,
        ),
        app.panel.rows@[i as int] matches Row::Commit(r) ==> app.row_lines_spec(i, icons)
            == commit_button_lines(
            app.panel.repos@[r as int].status,
            app.syncing is Some && app.syncing->0 == r,
            r == app.panel.active,
            r == app.panel.active && app.focus == Focus::Commit,
            app.panel.width as usize,
        ),
        app.mouse_on(i) is Some ==> app.hovered == Some(i),
        app.hovered == Some(i) ==> (app.mouse_pos matches Some(pos) ==> app.mouse_on(i) == Some(
            pos.0,
        )),
{
}

} // verus!
