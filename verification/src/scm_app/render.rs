//! The rows of the list as lines of styled text.

use vstd::prelude::*;

use crate::columns::{
    columns, columns_left, left_over, repeat, repeated, text_width, truncate_to, truncated,
};
use crate::git::{FileEntry, Status};
use crate::scm_app::drawer::Drawer;
use crate::scm_app::header::{
    badge_spec, badge_text, branch_text, branch_text_spec, changes_header_action_zones,
    changes_start, file_hover_action_start, file_hover_actions, header_split, hover_actions,
    hover_start, primary_is_sync, split_header, sync_is_primary, sync_label_for_status,
    sync_label_spec, ChangesHeaderAction, FileHoverAction, REPO_HEADER_ACTIONS,
};
use crate::scm_app::message::{
    inline_field, inline_field_width, message_placeholder, message_window, placeholder_of, window_of,
    wrap_message, wrapped,
};
use crate::scm_app::rows::Repo;
use crate::spans::{
    empty_line, line_view, lines_view, no_lines, piece, put, put_line, Span, SpanView, Tone,
};
use crate::text::{slice_to_string, string_views, to_chars};

verus! {

/// The disclosure arrow before a header.
pub open spec fn arrow_spec(collapsed: bool) -> Seq<char> {
    if collapsed {
        "▸"@
    } else {
        "▾"@
    }
}

fn arrow(collapsed: bool) -> (res: &'static str)
    ensures
        res@ == arrow_spec(collapsed),
{
    if collapsed {
        "▸"
    } else {
        "▾"
    }
}

pub open spec fn header_text(collapsed: bool, title: Seq<char>) -> Seq<char> {
    " "@ + arrow_spec(collapsed) + " "@ + title
}

fn header_string(collapsed: bool, title: &str) -> (res: String)
    ensures
        res@ == header_text(collapsed, title@),
{
    let mut out: String = " ".to_owned();
    out.append(arrow(collapsed));
    out.append(" ");
    out.append(title);
    out
}

// ---- Repositories ----

/// A repository's row: arrow, icon and name at the left, the branch and the
/// action icons at the right. The icon columns are at fixed offsets from the
/// right edge, where clicks look for them.
pub open spec fn repo_header_line(
    repo: Repo,
    active: bool,
    icon: Seq<char>,
    branch_icon: Seq<char>,
    width: usize,
    branch_hovered: bool,
) -> Seq<SpanView> {
    let full = columns(REPO_HEADER_ACTIONS@);
    let icons = if width >= full {
        full
    } else {
        0
    };
    let branch_full = branch_text_spec(branch_icon, repo);
    let (content, part) = header_split(width as nat, full as nat, columns(branch_full) as nat);
    let left_room = (content - part) as usize;
    let left = truncated(
        header_text(repo.collapsed, icon + " "@ + repo.git.name@),
        left_room,
    );
    let branch = truncated(branch_full, part as usize);
    let gap = left_over(left_room as int, columns(left) as int) + left_over(
        part as int,
        columns(branch) as int,
    );
    seq![
        piece(left, if active { Tone::Bold } else { Tone::DimBold }),
        piece(repeated(' ', gap), Tone::Plain),
        piece(branch, if branch_hovered { Tone::Hover } else { Tone::Dim }),
        piece(truncated(REPO_HEADER_ACTIONS@, icons), Tone::Dim),
    ]
}

pub fn repo_header_item(
    repo: &Repo,
    active: bool,
    icon: &str,
    branch_icon: &str,
    width: usize,
    branch_hovered: bool,
) -> (res: Vec<Span>)
    ensures
        line_view(res@) == repo_header_line(
            *repo,
            active,
            icon@,
            branch_icon@,
            width,
            branch_hovered,
        ),
{
    let full: usize = text_width(REPO_HEADER_ACTIONS);
    let icons: usize = if width >= full {
        full
    } else {
        0
    };
    let branch_full: String = branch_text(branch_icon, repo);
    let branch_columns: usize = text_width(branch_full.as_str());
    let (content, part): (usize, usize) = split_header(width, full, branch_columns);
    let left_room: usize = content - part;
    let mut name: String = icon.to_owned();
    name.append(" ");
    name.append(repo.git.name.as_str());
    let label: String = header_string(repo.collapsed, name.as_str());
    let left: String = truncate_to(label.as_str(), left_room);
    let branch: String = truncate_to(branch_full.as_str(), part);
    let left_pad: usize = left_room.saturating_sub(text_width(left.as_str()));
    let branch_pad: usize = part.saturating_sub(text_width(branch.as_str()));
    let mut line: Vec<Span> = empty_line();
    put(
        &mut line,
        left,
        if active {
            Tone::Bold
        } else {
            Tone::DimBold
        },
    );
    put(&mut line, repeat(' ', left_pad + branch_pad), Tone::Plain);
    put(
        &mut line,
        branch,
        if branch_hovered {
            Tone::Hover
        } else {
            Tone::Dim
        },
    );
    put(&mut line, truncate_to(REPO_HEADER_ACTIONS, icons), Tone::Dim);
    assert(line_view(line@) =~= repo_header_line(
        *repo,
        active,
        icon@,
        branch_icon@,
        width,
        branch_hovered,
    ));
    line
}

// ---- The inline message box ----

/// The suggest button, padded to the three columns it owns.
pub open spec fn suggest_tail(sparkle: Seq<char>) -> Seq<char> {
    sparkle + repeated(' ', left_over(3, columns(sparkle) as int))
}

/// One line of the box between its borders: the text, padded to the field, and
/// the tail.
pub open spec fn boxed_line(
    text: SpanView,
    field: nat,
    tail: Seq<char>,
    focused: bool,
) -> Seq<SpanView> {
    seq![
        piece("│"@, Tone::Frame(focused)),
        text,
        piece(repeated(' ', left_over(field as int, columns(text.text) as int)), Tone::Plain),
        piece(tail, Tone::Plain),
        piece("│"@, Tone::Frame(focused)),
    ]
}

/// The lines between the box's top and bottom: a placeholder, or the window of
/// the wrapped message. The suggest button stands on the first of them.
pub open spec fn box_content(repo: Repo, focused: bool, sparkle: Seq<char>, field: usize) -> Seq<
    Seq<SpanView>,
> {
    if repo.message@.len() == 0 && !focused {
        seq![
            boxed_line(
                piece(placeholder_of(repo.status.branch@, field), Tone::DimItalic),
                field as nat,
                suggest_tail(sparkle),
                focused,
            ),
        ]
    } else {
        let rows = wrapped(repo.message@, repo.cursor as nat, field as nat);
        let cursor_row = repo.cursor as nat / crate::scm_app::message::at_least_one(field as nat);
        let (top, visible) = window_of(rows.len(), cursor_row, focused);
        let shown = if top + visible <= rows.len() {
            visible
        } else {
            left_over(rows.len() as int, top as int)
        };
        Seq::new(
            shown,
            |i: int|
                boxed_line(
                    piece(rows[top + i], Tone::Plain),
                    field as nat,
                    if i == 0 {
                        suggest_tail(sparkle)
                    } else {
                        "   "@
                    },
                    focused,
                ),
        )
    }
}

pub open spec fn message_box_lines(repo: Repo, focused: bool, sparkle: Seq<char>, width: usize) -> Seq<
    Seq<SpanView>,
> {
    let bar = repeated('─', left_over(width as int, 2));
    let field = inline_field(width as u16) as usize;
    seq![seq![piece("┌"@ + bar + "┐"@, Tone::Frame(focused))]] + box_content(
        repo,
        focused,
        sparkle,
        field,
    ) + seq![seq![piece("└"@ + bar + "┘"@, Tone::Frame(focused))]]
}

fn boxed(text: String, tone: Tone, field: usize, tail: String, focused: bool) -> (res: Vec<Span>)
    ensures
        line_view(res@) == boxed_line(piece(text@, tone), field as nat, tail@, focused),
{
    let pad: usize = field.saturating_sub(text_width(text.as_str()));
    let mut line: Vec<Span> = empty_line();
    let ghost shown: Seq<char> = text@;
    let ghost end: Seq<char> = tail@;
    put(&mut line, "│".to_owned(), Tone::Frame(focused));
    put(&mut line, text, tone);
    put(&mut line, repeat(' ', pad), Tone::Plain);
    put(&mut line, tail, Tone::Plain);
    put(&mut line, "│".to_owned(), Tone::Frame(focused));
    assert(line_view(line@) =~= boxed_line(piece(shown, tone), field as nat, end, focused));
    line
}

fn suggest_button(sparkle: &str) -> (res: String)
    ensures
        res@ == suggest_tail(sparkle@),
{
    let pad: usize = (3usize).saturating_sub(text_width(sparkle));
    let mut out: String = sparkle.to_owned();
    out.append(repeat(' ', pad).as_str());
    out
}

fn put_box_content(
    lines: &mut Vec<Vec<Span>>,
    repo: &Repo,
    focused: bool,
    sparkle: &str,
    field: usize,
)
    requires
        repo.wf(),
    ensures
        lines_view(final(lines)@) == lines_view(old(lines)@) + box_content(
            *repo,
            focused,
            sparkle@,
            field,
        ),
{
    let ghost before: Seq<Seq<SpanView>> = lines_view(lines@);
    if repo.message.len() == 0 && !focused {
        let text: String = message_placeholder(repo.status.branch.as_str(), field);
        let line: Vec<Span> = boxed(
            text,
            Tone::DimItalic,
            field,
            suggest_button(sparkle),
            focused,
        );
        put_line(lines, line);
        assert(lines_view(lines@) =~= before + box_content(*repo, focused, sparkle@, field));
        return;
    }
    let (rows, cursor_row, _): (Vec<String>, usize, usize) = wrap_message(
        repo.message.as_slice(),
        repo.cursor,
        field,
    );
    proof {
        crate::scm_app::message::law_cursor_stands_on_a_row(
            repo.message@,
            repo.cursor as nat,
            field as nat,
        );
        assert(string_views(rows@).len() == rows@.len());
        assert(cursor_row < rows@.len());
    }
    let count: usize = rows.len();
    let (top, visible): (usize, usize) = message_window(count, cursor_row, focused);
    let ghost all: Seq<Seq<SpanView>> = box_content(*repo, focused, sparkle@, field);
    assert(top + visible <= count);
    assert(all.len() == visible);
    let mut i: usize = 0;
    assert(before + all.take(0) =~= before);
    while i < visible
        invariant
            i <= visible,
            top + visible <= count,
            count == rows@.len(),
            string_views(rows@) == wrapped(repo.message@, repo.cursor as nat, field as nat),
            all.len() == visible,
            lines_view(lines@) == before + all.take(i as int),
            forall|k: int|
                0 <= k < visible ==> #[trigger] all[k] == boxed_line(
                    piece(rows@[top + k]@, Tone::Plain),
                    field as nat,
                    if k == 0 {
                        suggest_tail(sparkle@)
                    } else {
                        "   "@
                    },
                    focused,
                ),
        decreases visible - i,
    {
        let tail: String = if i == 0 {
            suggest_button(sparkle)
        } else {
            "   ".to_owned()
        };
        let line: Vec<Span> = boxed(rows[top + i].clone(), Tone::Plain, field, tail, focused);
        assert(line_view(line@) == all[i as int]);
        put_line(lines, line);
        i += 1;
        assert(lines_view(lines@) =~= before + all.take(i as int));
    }
    assert(all.take(visible as int) =~= all);
}

/// A repo's inline message box: a bordered input that grows with its wrapped
/// message, with the suggest button at its right end.
pub fn message_box_item(repo: &Repo, focused: bool, sparkle: &str, width: usize) -> (res: Vec<
    Vec<Span>,
>)
    requires
        repo.wf(),
    ensures
        lines_view(res@) == message_box_lines(*repo, focused, sparkle@, width),
{
    let bar: String = repeat('─', width.saturating_sub(2));
    let field: usize = inline_field_width(width as u16) as usize;
    let mut top: String = "┌".to_owned();
    top.append(bar.as_str());
    top.append("┐");
    let mut bottom: String = "└".to_owned();
    bottom.append(bar.as_str());
    bottom.append("┘");
    let mut lines: Vec<Vec<Span>> = no_lines();
    let mut first: Vec<Span> = empty_line();
    put(&mut first, top, Tone::Frame(focused));
    put_line(&mut lines, first);
    put_box_content(&mut lines, repo, focused, sparkle, field);
    let mut last: Vec<Span> = empty_line();
    put(&mut last, bottom, Tone::Frame(focused));
    put_line(&mut lines, last);
    proof {
        let f = Tone::Frame(focused);
        let b = repeated('─', left_over(width as int, 2));
        assert(Seq::<SpanView>::empty().push(piece("┌"@ + b + "┐"@, f)) =~= seq![
            piece("┌"@ + b + "┐"@, f),
        ]);
        assert(Seq::<SpanView>::empty().push(piece("└"@ + b + "┘"@, f)) =~= seq![
            piece("└"@ + b + "┘"@, f),
        ]);
    }
    assert(lines_view(lines@) =~= message_box_lines(*repo, focused, sparkle@, width));
    lines
}

/// The box of a repository is as many lines high as its row is said to be.
pub proof fn law_box_is_as_high_as_its_row(
    repos: Seq<Repo>,
    r: usize,
    focused: bool,
    sparkle: Seq<char>,
    width: u16,
)
    requires
        r < repos.len(),
        repos[r as int].wf(),
    ensures
        message_box_lines(repos[r as int], focused, sparkle, width as usize).len()
            == crate::scm_app::rows::height_of(repos, width, crate::scm_app::rows::Row::Message(r)),
{
    let repo = repos[r as int];
    let field = inline_field(width) as nat;
    crate::scm_app::message::law_cursor_stands_on_a_row(repo.message@, repo.cursor as nat, field);
}

// ---- The Commit button ----

pub open spec fn button_label(status: Status, syncing: bool) -> Seq<char> {
    if primary_is_sync(status) {
        match sync_label_spec(status, syncing) {
            Some(label) => label,
            None => "⟳ Sync Changes"@,
        }
    } else {
        "✓ Commit"@
    }
}

pub fn primary_label(status: &Status, syncing: bool) -> (res: String)
    ensures
        res@ == button_label(*status, syncing),
{
    if sync_is_primary(status) {
        match sync_label_for_status(status, syncing) {
            Some(label) => label,
            None => "⟳ Sync Changes".to_owned(),
        }
    } else {
        "✓ Commit".to_owned()
    }
}

/// The inline button: its label centred, between rows of half blocks.
pub open spec fn commit_button_lines(
    status: Status,
    syncing: bool,
    active: bool,
    focused: bool,
    width: usize,
) -> Seq<Seq<SpanView>> {
    let room = left_over(width as int, 2);
    let label = truncated(button_label(status, syncing), room as usize);
    let used = columns(label);
    let left = left_over(room as int, used as int) / 2;
    let right = left_over(room as int, left + used);
    let cap = Tone::ButtonCap(active, focused);
    seq![
        seq![
            piece(" "@, Tone::Plain),
            piece(repeated('▄', room), cap),
            piece(" "@, Tone::Plain),
        ],
        seq![
            piece(" "@, Tone::Plain),
            piece(
                repeated(' ', left) + label + repeated(' ', right),
                Tone::Button(active, focused),
            ),
            piece(" "@, Tone::Plain),
        ],
        seq![
            piece(" "@, Tone::Plain),
            piece(repeated('▀', room), cap),
            piece(" "@, Tone::Plain),
        ],
    ]
}

fn margined(text: String, tone: Tone) -> (res: Vec<Span>)
    ensures
        line_view(res@) == seq![
            piece(" "@, Tone::Plain),
            piece(text@, tone),
            piece(" "@, Tone::Plain),
        ],
{
    let ghost shown: Seq<char> = text@;
    let mut line: Vec<Span> = empty_line();
    put(&mut line, " ".to_owned(), Tone::Plain);
    put(&mut line, text, tone);
    put(&mut line, " ".to_owned(), Tone::Plain);
    assert(line_view(line@) =~= seq![
        piece(" "@, Tone::Plain),
        piece(shown, tone),
        piece(" "@, Tone::Plain),
    ]);
    line
}

pub fn commit_button_item(
    status: &Status,
    syncing: bool,
    active: bool,
    focused: bool,
    width: usize,
) -> (res: Vec<Vec<Span>>)
    ensures
        lines_view(res@) == commit_button_lines(*status, syncing, active, focused, width),
{
    let room: usize = width.saturating_sub(2);
    let full: String = primary_label(status, syncing);
    let label: String = truncate_to(full.as_str(), room);
    let used: usize = text_width(label.as_str());
    let left: usize = room.saturating_sub(used) / 2;
    let right: usize = columns_left(room, left, used, 0, 0);
    let mut body: String = repeat(' ', left);
    body.append(label.as_str());
    body.append(repeat(' ', right).as_str());
    let cap: Tone = Tone::ButtonCap(active, focused);
    let mut lines: Vec<Vec<Span>> = no_lines();
    put_line(&mut lines, margined(repeat('▄', room), cap));
    put_line(&mut lines, margined(body, Tone::Button(active, focused)));
    put_line(&mut lines, margined(repeat('▀', room), cap));
    assert(lines_view(lines@) =~= commit_button_lines(*status, syncing, active, focused, width));
    lines
}

// ---- Section headers ----

/// A collapsible section header; a count shows as a badge at the right, after
/// the glyph of the section-wide action while the row is hovered.
pub open spec fn section_line(
    title: Seq<char>,
    collapsed: bool,
    count: Option<usize>,
    width: usize,
    action: Option<Seq<char>>,
) -> Seq<SpanView> {
    let left = header_text(collapsed, title);
    match count {
        None => seq![piece(left, Tone::Bold)],
        Some(count) => {
            let badge = badge_spec(count as nat);
            let glyph = match action {
                Some(glyph) => seq![piece(glyph + " "@, Tone::Bold)],
                None => Seq::empty(),
            };
            let used = columns(left) + columns(badge) + 1 + (match action {
                Some(glyph) => columns(glyph + " "@) as int,
                None => 0,
            });
            let pad = left_over(width as int, used);
            seq![
                piece(left, Tone::Bold),
                piece(
                    repeated(
                        ' ',
                        if pad == 0 {
                            1
                        } else {
                            pad
                        },
                    ),
                    Tone::Plain,
                ),
            ] + glyph + seq![piece(badge, Tone::Badge), piece(" "@, Tone::Plain)]
        },
    }
}

pub open spec fn opt_glyph(action: Option<&str>) -> Option<Seq<char>> {
    match action {
        Some(glyph) => Some(glyph@),
        None => None,
    }
}

pub fn section_item(
    title: &str,
    collapsed: bool,
    count: Option<usize>,
    width: usize,
    action: Option<&str>,
) -> (res: Vec<Span>)
    ensures
        line_view(res@) == section_line(title@, collapsed, count, width, opt_glyph(action)),
{
    let left: String = header_string(collapsed, title);
    let mut line: Vec<Span> = empty_line();
    match count {
        None => {
            put(&mut line, left, Tone::Bold);
            assert(line_view(line@) =~= section_line(
                title@,
                collapsed,
                count,
                width,
                opt_glyph(action),
            ));
            line
        },
        Some(n) => {
            let badge: String = badge_text(n);
            let glyph: String = match action {
                Some(glyph) => {
                    let mut out: String = glyph.to_owned();
                    out.append(" ");
                    out
                },
                None => String::new(),
            };
            let glyph_width: usize = match action {
                Some(_) => text_width(glyph.as_str()),
                None => 0,
            };
            let room: usize = columns_left(
                width,
                text_width(left.as_str()),
                text_width(badge.as_str()),
                1,
                glyph_width,
            );
            let pad: usize = if room == 0 {
                1
            } else {
                room
            };
            put(&mut line, left, Tone::Bold);
            put(&mut line, repeat(' ', pad), Tone::Plain);
            if action.is_some() {
                put(&mut line, glyph, Tone::Bold);
            }
            put(&mut line, badge, Tone::Badge);
            put(&mut line, " ".to_owned(), Tone::Plain);
            assert(line_view(line@) =~= section_line(
                title@,
                collapsed,
                count,
                width,
                opt_glyph(action),
            ));
            line
        },
    }
}

pub open spec fn action_piece(action: ChangesHeaderAction, hovered: Option<ChangesHeaderAction>) -> SpanView {
    piece(" "@ + action.glyph_spec() + " "@, Tone::Action(hovered == Some(action)))
}

/// The Changes header. While it is hovered and wide enough, its three actions
/// stand before the badge.
pub open spec fn changes_line(
    collapsed: bool,
    count: usize,
    width: usize,
    hovered: bool,
    action: Option<ChangesHeaderAction>,
) -> Seq<SpanView> {
    let badge = badge_spec(count as nat);
    let start = changes_start(
        width as u16,
        columns(" ▾ Changes"@) as u16,
        columns(badge) as u16,
    );
    if !hovered || start is None {
        section_line("Changes"@, collapsed, Some(count), width, None)
    } else {
        let left = header_text(collapsed, "Changes"@);
        let pad = left_over(width as int, columns(left) + 9 + columns(badge) + 1);
        seq![
            piece(left, Tone::Bold),
            piece(
                repeated(
                    ' ',
                    if pad == 0 {
                        1
                    } else {
                        pad
                    },
                ),
                Tone::Plain,
            ),
            action_piece(ChangesHeaderAction::Discard, action),
            action_piece(ChangesHeaderAction::Stash, action),
            action_piece(ChangesHeaderAction::Stage, action),
            piece(badge, Tone::Badge),
            piece(" "@, Tone::Plain),
        ]
    }
}

fn spaced(glyph: &str) -> (res: String)
    ensures
        res@ == " "@ + glyph@ + " "@,
{
    let mut out: String = " ".to_owned();
    out.append(glyph);
    out.append(" ");
    out
}

fn put_action(line: &mut Vec<Span>, action: ChangesHeaderAction, hovered: Option<ChangesHeaderAction>)
    ensures
        line_view(final(line)@) == line_view(old(line)@).push(action_piece(action, hovered)),
{
    let lit: bool = match hovered {
        Some(h) => h == action,
        None => false,
    };
    put(line, spaced(action.glyph()), Tone::Action(lit));
}

pub fn changes_header_item(
    collapsed: bool,
    count: usize,
    width: usize,
    hovered: bool,
    action: Option<ChangesHeaderAction>,
) -> (res: Vec<Span>)
    ensures
        line_view(res@) == changes_line(collapsed, count, width, hovered, action),
{
    if !hovered || changes_header_action_zones(width as u16, count).is_none() {
        return section_item("Changes", collapsed, Some(count), width, None);
    }
    let left: String = header_string(collapsed, "Changes");
    let badge: String = badge_text(count);
    let room: usize = columns_left(
        width,
        text_width(left.as_str()),
        9,
        text_width(badge.as_str()),
        1,
    );
    let pad: usize = if room == 0 {
        1
    } else {
        room
    };
    let mut line: Vec<Span> = empty_line();
    put(&mut line, left, Tone::Bold);
    put(&mut line, repeat(' ', pad), Tone::Plain);
    put_action(&mut line, ChangesHeaderAction::Discard, action);
    put_action(&mut line, ChangesHeaderAction::Stash, action);
    put_action(&mut line, ChangesHeaderAction::Stage, action);
    put(&mut line, badge, Tone::Badge);
    put(&mut line, " ".to_owned(), Tone::Plain);
    assert(line_view(line@) =~= changes_line(collapsed, count, width, hovered, action));
    line
}

/// The file history header with the followed file's name appended.
pub open spec fn file_history_line(collapsed: bool, file: Seq<char>) -> Seq<SpanView> {
    seq![piece(header_text(collapsed, "File History"@), Tone::Bold), piece("  "@ + file, Tone::Dim)]
}

pub fn file_history_header(collapsed: bool, file: &str) -> (res: Vec<Span>)
    ensures
        line_view(res@) == file_history_line(collapsed, file@),
{
    let mut name: String = "  ".to_owned();
    name.append(file);
    let mut line: Vec<Span> = empty_line();
    put(&mut line, header_string(collapsed, "File History"), Tone::Bold);
    put(&mut line, name, Tone::Dim);
    assert(line_view(line@) =~= file_history_line(collapsed, file@));
    line
}

/// One line of an expanded drawer; the branch that is checked out stands out.
pub open spec fn drawer_text_line(kind: Drawer, text: Seq<char>) -> Seq<SpanView> {
    seq![
        piece(
            "   "@ + text,
            if kind == Drawer::Branches && text.len() > 0 && text[0] == '*' {
                Tone::Current
            } else {
                Tone::Plain
            },
        ),
    ]
}

pub fn drawer_line(kind: Drawer, text: &str) -> (res: Vec<Span>)
    ensures
        line_view(res@) == drawer_text_line(kind, text@),
{
    let starred: bool = !text.is_empty() && text.get_char(0) == '*';
    let mut shown: String = "   ".to_owned();
    shown.append(text);
    let mut line: Vec<Span> = empty_line();
    put(
        &mut line,
        shown,
        if kind == Drawer::Branches && starred {
            Tone::Current
        } else {
            Tone::Plain
        },
    );
    assert(line_view(line@) =~= drawer_text_line(kind, text@));
    line
}

// ---- Files ----

/// The place of the last `/` of a path, or -1.
pub open spec fn last_slash(path: Seq<char>, to: int) -> int
    decreases to,
{
    if 0 < to <= path.len() {
        if path[to - 1] == '/' {
            to - 1
        } else {
            last_slash(path, to - 1)
        }
    } else {
        -1
    }
}

pub open spec fn file_name(path: Seq<char>) -> Seq<char> {
    path.skip(last_slash(path, path.len() as int) + 1)
}

/// The folder of a path, its components apart by `separator`.
pub open spec fn folder_text(path: Seq<char>, separator: char) -> Option<Seq<char>> {
    let slash = last_slash(path, path.len() as int);
    if slash < 0 {
        None
    } else {
        Some(
            Seq::new(
                slash as nat,
                |i: int|
                    if path[i] == '/' {
                        separator
                    } else {
                        path[i]
                    },
            ),
        )
    }
}

fn split_path(path: &str, separator: char) -> (res: (Option<String>, String))
    ensures
        res.1@ == file_name(path@),
        match res.0 {
            Some(folder) => folder_text(path@, separator) == Some(folder@),
            None => folder_text(path@, separator) is None,
        },
{
    let chars: Vec<char> = to_chars(path);
    let mut to: usize = chars.len();
    while to > 0 && chars[to - 1] != '/'
        invariant
            to <= chars@.len(),
            last_slash(chars@, to as int) == last_slash(chars@, chars@.len() as int),
        decreases to,
    {
        to -= 1;
    }
    let name: String = slice_to_string(chars.as_slice(), to, chars.len());
    assert(chars@.skip(to as int) =~= chars@.subrange(to as int, chars@.len() as int));
    if to == 0 {
        return (None, name);
    }
    let slash: usize = to - 1;
    let mut folder: String = String::new();
    let mut i: usize = 0;
    while i < slash
        invariant
            i <= slash,
            slash < chars@.len(),
            folder@.len() == i,
            forall|k: int|
                0 <= k < i ==> folder@[k] == (if chars@[k] == '/' {
                    separator
                } else {
                    chars@[k]
                }),
        decreases slash - i,
    {
        folder.push(
            if chars[i] == '/' {
                separator
            } else {
                chars[i]
            },
        );
        i += 1;
    }
    assert(folder@ =~= folder_text(path@, separator)->0);
    (Some(folder), name)
}

/// The action buttons of a hovered file.
pub open spec fn hover_pieces(staged: bool, hovered: Option<FileHoverAction>) -> Seq<SpanView> {
    Seq::new(
        hover_actions(staged).len(),
        |i: int|
            piece(
                " "@ + hover_actions(staged)[i].glyph_spec() + " "@,
                Tone::Action(hovered == Some(hover_actions(staged)[i])),
            ),
    )
}

/// Columns at the right end of a file row: the letter, the margin, and the
/// action buttons where they show.
pub open spec fn file_tail(shows: bool, staged: bool) -> nat {
    if !shows {
        2
    } else if staged {
        8
    } else {
        11
    }
}

/// The folder as far as `room` columns show it; empty where there is none.
pub open spec fn folder_shown(folder: Option<Seq<char>>, room: usize) -> Seq<char> {
    match folder {
        Some(folder) => truncated(" "@ + folder, room),
        None => Seq::empty(),
    }
}

pub open spec fn folder_pieces(folder: Seq<char>) -> Seq<SpanView> {
    if folder.len() > 0 {
        seq![piece(folder, Tone::Dim)]
    } else {
        Seq::empty()
    }
}

pub open spec fn folder_columns(folder: Seq<char>) -> int {
    if folder.len() > 0 {
        columns(folder) as int
    } else {
        0
    }
}

/// A file row: icon, name in the colour of its status, folder, and the status
/// letter at the right, after the action buttons while the row is hovered.
pub open spec fn file_line(
    entry: FileEntry,
    width: usize,
    icon: Seq<char>,
    separator: char,
    staged: bool,
    hovered: bool,
    action: Option<FileHoverAction>,
) -> Seq<SpanView> {
    let shows = hovered && hover_start(width as u16, staged) is Some;
    let tail = file_tail(shows, staged) as int;
    let glyph = icon + " "@;
    let prefix = columns("   "@) + columns(glyph);
    let name = truncated(
        file_name(entry.path@),
        left_over(width as int, prefix + tail) as usize,
    );
    let used = prefix + columns(name);
    let folder = folder_shown(
        folder_text(entry.path@, separator),
        left_over(width as int, used + tail) as usize,
    );
    let gap = left_over(width as int, used + folder_columns(folder) + tail);
    seq![
        piece("   "@, Tone::Plain),
        piece(glyph, Tone::Icon),
        piece(name, Tone::Status(entry.letter)),
    ] + folder_pieces(folder) + seq![piece(repeated(' ', gap), Tone::Plain)] + (if shows {
        hover_pieces(staged, action)
    } else {
        Seq::empty()
    }) + seq![
        piece(seq![entry.letter], Tone::Letter(entry.letter)),
        piece(" "@, Tone::Plain),
    ]
}

fn fold_folder(folder: Option<String>, room: usize) -> (res: String)
    ensures
        res@ == folder_shown(
            match folder {
                Some(folder) => Some(folder@),
                None => None,
            },
            room,
        ),
{
    match folder {
        Some(folder) => {
            let mut text: String = " ".to_owned();
            text.append(folder.as_str());
            truncate_to(text.as_str(), room)
        },
        None => {
            let none: String = String::new();
            assert(none@ =~= Seq::<char>::empty());
            none
        },
    }
}

fn put_folder(line: &mut Vec<Span>, folder: String)
    ensures
        line_view(final(line)@) == line_view(old(line)@) + folder_pieces(folder@),
{
    let ghost before: Seq<SpanView> = line_view(line@);
    let ghost shown: Seq<char> = folder@;
    if !folder.as_str().is_empty() {
        put(line, folder, Tone::Dim);
    }
    assert(line_view(line@) =~= before + folder_pieces(shown));
}

fn put_letter(line: &mut Vec<Span>, letter: char)
    ensures
        line_view(final(line)@) == line_view(old(line)@) + seq![
            piece(seq![letter], Tone::Letter(letter)),
            piece(" "@, Tone::Plain),
        ],
{
    let ghost before: Seq<SpanView> = line_view(line@);
    let mut text: String = String::new();
    text.push(letter);
    assert(text@ =~= seq![letter]);
    put(line, text, Tone::Letter(letter));
    put(line, " ".to_owned(), Tone::Plain);
    assert(line_view(line@) =~= before + seq![
        piece(seq![letter], Tone::Letter(letter)),
        piece(" "@, Tone::Plain),
    ]);
}

fn put_hover_actions(line: &mut Vec<Span>, staged: bool, hovered: Option<FileHoverAction>)
    ensures
        line_view(final(line)@) == line_view(old(line)@) + hover_pieces(staged, hovered),
{
    let ghost before: Seq<SpanView> = line_view(line@);
    let ghost all: Seq<SpanView> = hover_pieces(staged, hovered);
    let actions: Vec<FileHoverAction> = file_hover_actions(staged);
    let mut i: usize = 0;
    assert(before + all.take(0) =~= before);
    while i < actions.len()
        invariant
            i <= actions@.len(),
            actions@ == hover_actions(staged),
            all == hover_pieces(staged, hovered),
            line_view(line@) == before + all.take(i as int),
        decreases actions@.len() - i,
    {
        let lit: bool = match hovered {
            Some(h) => h == actions[i],
            None => false,
        };
        put(line, spaced(actions[i].glyph()), Tone::Action(lit));
        assert(all[i as int] == piece(
            " "@ + actions@[i as int].glyph_spec() + " "@,
            Tone::Action(lit),
        ));
        i += 1;
        assert(line_view(line@) =~= before + all.take(i as int));
    }
    assert(all.take(all.len() as int) =~= all);
}

pub fn file_item(
    entry: &FileEntry,
    width: usize,
    icon: &str,
    separator: char,
    staged: bool,
    hovered: bool,
    action: Option<FileHoverAction>,
) -> (res: Vec<Span>)
    ensures
        line_view(res@) == file_line(*entry, width, icon@, separator, staged, hovered, action),
{
    let (folder, name): (Option<String>, String) = split_path(entry.path.as_str(), separator);
    let shows: bool = hovered && file_hover_action_start(width as u16, staged).is_some();
    let tail: usize = if !shows {
        2
    } else if staged {
        8
    } else {
        11
    };
    let mut glyph: String = icon.to_owned();
    glyph.append(" ");
    let margin_width: usize = text_width("   ");
    let glyph_width: usize = text_width(glyph.as_str());
    let shown_name: String = truncate_to(
        name.as_str(),
        columns_left(width, margin_width, glyph_width, tail, 0),
    );
    let name_width: usize = text_width(shown_name.as_str());
    let shown_folder: String = fold_folder(
        folder,
        columns_left(width, margin_width, glyph_width, name_width, tail),
    );
    let folder_width: usize = if shown_folder.as_str().is_empty() {
        0
    } else {
        text_width(shown_folder.as_str())
    };
    let free: usize = columns_left(width, margin_width, glyph_width, name_width, folder_width);
    let gap: usize = free.saturating_sub(tail);
    let mut line: Vec<Span> = empty_line();
    put(&mut line, "   ".to_owned(), Tone::Plain);
    put(&mut line, glyph, Tone::Icon);
    put(&mut line, shown_name, Tone::Status(entry.letter));
    assert(line_view(line@) =~= seq![
        piece("   "@, Tone::Plain),
        piece(icon@ + " "@, Tone::Icon),
        piece(shown_name@, Tone::Status(entry.letter)),
    ]);
    put_folder(&mut line, shown_folder);
    let ghost before: Seq<SpanView> = line_view(line@);
    put(&mut line, repeat(' ', gap), Tone::Plain);
    assert(line_view(line@) =~= before + seq![piece(repeated(' ', gap as nat), Tone::Plain)]);
    let ghost filled: Seq<SpanView> = line_view(line@);
    if shows {
        put_hover_actions(&mut line, staged, action);
    }
    assert(line_view(line@) =~= filled + (if shows {
        hover_pieces(staged, action)
    } else {
        Seq::empty()
    }));
    put_letter(&mut line, entry.letter);
    line
}

} // verus!
