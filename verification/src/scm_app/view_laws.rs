//! What the Source Control panel promises to show: labels that say what a click
//! does, files under their names, and questions that name what they are about.

use crate::geometry::Area;
use crate::git::{FileEntry, Status};
use crate::scm_app::app::{App, Overlay};
use crate::scm_app::drawer::Drawer;
use crate::scm_app::frame::{FooterTone, FrameHeights};
use crate::scm_app::header::{ChangesHeaderAction, FileHoverAction};
use crate::scm_app::panel::Panel;
use crate::scm_app::parts::PanelParts;
use crate::scm_app::render::{
    button_label, drawer_text_line, file_line, file_name, folder_text, header_text, hover_pieces,
    last_slash,
};
use crate::scm_app::restore::{place_of, saved_message};
use crate::scm_app::rows::Row;
use crate::scm_app::snapshot::{diff_kind_spec, DiffKind, DocView};
use crate::spans::Tone;
use crate::text::decimal;
use vstd::prelude::*;

verus! {

// ---- Labels ----

/// The main button says that it commits exactly where it commits: where there
/// are changes, or nothing to synchronise.
pub proof fn law_the_button_says_what_it_does(status: Status)
    ensures
        status.staged@.len() > 0 || status.unstaged@.len() > 0 || !status.has_upstream || (
        status.ahead == 0 && status.behind == 0) ==> button_label(status, false) == "✓ Commit"@,
        status.staged@.len() == 0 && status.unstaged@.len() == 0 && status.has_upstream
            && status.ahead > 0 && status.behind == 0 ==> button_label(status, false)
            == "⟳ Sync Changes "@ + (decimal(status.ahead as nat) + "↑"@),
        status.staged@.len() == 0 && status.unstaged@.len() == 0 && status.has_upstream
            && status.ahead == 0 && status.behind > 0 ==> button_label(status, false)
            == "⟳ Sync Changes "@ + (decimal(status.behind as nat) + "↓"@),
{
}

/// A header that is folded points to the right, and one that is open down.
pub proof fn law_arrows_say_what_is_folded(title: Seq<char>)
    ensures
        header_text(true, title) == " "@ + "▸"@ + " "@ + title,
        header_text(false, title) == " "@ + "▾"@ + " "@ + title,
{
}

/// The actions on a file's row are drawn in the order in which they are clicked,
/// each with its own sign; those on the header of the changes as well.
pub proof fn law_actions_bear_their_signs(hovered: Option<FileHoverAction>)
    ensures
        hover_pieces(true, hovered).len() == 2,
        hover_pieces(true, hovered)[0].text == " "@ + "↗"@ + " "@,
        hover_pieces(true, hovered)[1].text == " "@ + "−"@ + " "@,
        hover_pieces(false, hovered).len() == 3,
        hover_pieces(false, hovered)[0].text == " "@ + "↗"@ + " "@,
        hover_pieces(false, hovered)[1].text == " "@ + "↶"@ + " "@,
        hover_pieces(false, hovered)[2].text == " "@ + "+"@ + " "@,
        FileHoverAction::Open.hint() == "↗ Open Changes"@,
        FileHoverAction::Discard.hint() == "↶ Discard Changes"@,
        FileHoverAction::Stage.hint() == "+ Stage Changes"@,
        FileHoverAction::Unstage.hint() == "− Unstage Changes"@,
        ChangesHeaderAction::Discard.hint() == "↶ Discard All Changes"@,
        ChangesHeaderAction::Stash.hint() == "⇩ Stash Changes"@,
        ChangesHeaderAction::Stage.hint() == "+ Stage All Changes"@,
        ChangesHeaderAction::Discard.glyph_spec() == "↶"@,
        ChangesHeaderAction::Stash.glyph_spec() == "⇩"@,
        ChangesHeaderAction::Stage.glyph_spec() == "+"@,
{
}

proof fn lemma_last_slash(path: Seq<char>, to: int)
    requires
        0 <= to <= path.len(),
    ensures
        ({
            let at = last_slash(path, to);
            &&& -1 <= at < to || (at == -1 && to == 0)
            &&& at >= 0 ==> path[at] == '/'
            &&& forall|i: int| at < i < to ==> #[trigger] path[i] != '/'
        }),
    decreases to,
{
    if to > 0 && path[to - 1] != '/' {
        lemma_last_slash(path, to - 1);
    }
}

/// A file is shown by the last name of its path, and its folder by what stands
/// before that.
pub proof fn law_files_are_shown_by_name(folder: Seq<char>, name: Seq<char>)
    requires
        !name.contains('/'),
    ensures
        file_name(folder + seq!['/'] + name) == name,
        folder_text(folder + seq!['/'] + name, '/') == Some(folder),
        file_name(name) == name,
        folder_text(name, '/') is None,
{
    let path = folder + seq!['/'] + name;
    let n = folder.len() as int;
    lemma_last_slash(path, path.len() as int);
    let at = last_slash(path, path.len() as int);
    assert(path[n] == '/');
    assert(at == n) by {
        if at > n {
            assert(path[at] == name[at - n - 1]);
            assert(name.contains(name[at - n - 1]));
        }
        if at < n {
            assert(path[n] != '/');
        }
    }
    assert(path.skip(n + 1) =~= name);
    assert(folder_text(path, '/')->0 =~= folder);
    lemma_last_slash(name, name.len() as int);
    let own = last_slash(name, name.len() as int);
    if own >= 0 {
        assert(name.contains(name[own]));
    }
    assert(name.skip(0) =~= name);
}

/// The row of a file ends with its status letter and shows its name in the
/// colour of that letter.
pub proof fn law_files_bear_their_letter(
    entry: FileEntry,
    width: usize,
    icon: Seq<char>,
    separator: char,
    staged: bool,
    hovered: bool,
    action: Option<FileHoverAction>,
)
    ensures
        ({
            let line = file_line(entry, width, icon, separator, staged, hovered, action);
            let n = line.len() as int;
            &&& n >= 6
            &&& line[2].tone == Tone::Status(entry.letter)
            &&& line[n - 2].text == seq![entry.letter]
            &&& line[n - 2].tone == Tone::Letter(entry.letter)
        }),
{
}

/// The branch that is checked out stands out among the branches.
pub proof fn law_the_current_branch_stands_out(kind: Drawer, text: Seq<char>)
    ensures
        drawer_text_line(kind, text).len() == 1,
        drawer_text_line(kind, text)[0].text == "   "@ + text,
        drawer_text_line(kind, text)[0].tone == Tone::Current <==> kind == Drawer::Branches
            && text.len() > 0 && text[0] == '*',
{
}

/// A question in the footer names what it is about, and comes before any other
/// notice; an error is a warning and a success is ticked.
pub proof fn law_the_footer_asks_first(app: App)
    ensures
        app.overlay matches Some(Overlay::ConfirmDiscard { repo, entry }) ==> app.footer_spec()
            == Some(
            ("Discard changes to '"@ + entry.path@ + "'? (y/N)"@, FooterTone::Warning),
        ),
        app.overlay matches Some(Overlay::ConfirmGit { repo, prompt, args }) ==> app.footer_spec()
            == Some((prompt@, FooterTone::Warning)),
        app.overlay is None ==> match app.flash {
            Some(f) => if f.1 {
                app.footer_spec() == Some((f.0@, FooterTone::Warning))
            } else {
                app.footer_spec() == Some(("✓ "@ + f.0@, FooterTone::Good))
            },
            None => app.footer_spec() is None,
        },
{
}

/// The header names the one repository, or Source Control where there are more,
/// and at its right the branch of the active one.
pub proof fn law_the_header_names_the_branch(app: App)
    requires
        app.panel.active < app.panel.repos@.len(),
    ensures
        app.panel.repos@.len() == 1 ==> app.title_spec() == app.panel.repos@[0].git.name@,
        app.panel.repos@.len() > 1 ==> app.title_spec() == "Source Control"@,
        app.panel.repos@.len() > 1 ==> app.header_right_spec()
            == app.panel.repos@[app.panel.active as int].git.name@ + " · "@
            + app.panel.repos@[app.panel.active as int].status.branch@ + " "@,
        app.panel.repos@.len() == 1 && app.panel.repos@[0].status.ahead == 0
            && app.panel.repos@[0].status.behind == 0 ==> app.header_right_spec()
            == app.panel.repos@[0].status.branch@ + " "@,
{
    if app.panel.repos@.len() == 1 {
        let branch = app.panel.repos@[0].status.branch@;
        assert(branch + Seq::empty() =~= branch);
    }
}

/// The separate row that synchronises is there where there is something to
/// synchronise and the main button does something else.
pub proof fn law_the_sync_row_completes_the_button(app: App, width: u16, sparkle: nat)
    requires
        app.panel.active < app.panel.repos@.len(),
        app.syncing is None,
    ensures
        ({
            let status = app.panel.repos@[app.panel.active as int].status;
            let heights = app.heights_spec(width, sparkle);
            &&& heights.sync == 1 <==> app.panel.repos@.len() == 1 && status.has_upstream && (
            status.ahead > 0 || status.behind > 0) && (status.staged@.len() > 0
                || status.unstaged@.len() > 0)
            &&& heights.button == (if app.panel.repos@.len() == 1 {
                3int
            } else {
                0
            })
            &&& heights.activity == (if app.merged {
                3int
            } else {
                0
            })
        }),
{
}

/// The parts of the panel stand under each other without a gap, from the bar at
/// the top to the footer at the bottom.
pub proof fn law_the_parts_are_stacked(screen: Area, heights: FrameHeights, footer: u16)
    requires
        PanelParts::rows(heights, footer) <= screen.height,
        screen.y + screen.height <= u16::MAX,
    ensures
        ({
            let parts = PanelParts::stacked(screen, heights, footer);
            &&& parts.bar.y == screen.y
            &&& parts.head.y == parts.bar.y + parts.bar.height
            &&& parts.message.y == parts.head.y + parts.head.height
            &&& parts.button.y == parts.message.y + parts.message.height
            &&& parts.sync.y == parts.button.y + parts.button.height
            &&& parts.list.y == parts.sync.y + parts.sync.height
            &&& parts.footer.y == parts.list.y + parts.list.height
            &&& parts.footer.y + parts.footer.height == screen.y + screen.height
            &&& parts.head.height == 1
            &&& parts.message.height == heights.message
            &&& parts.button.height == heights.button
            &&& parts.sync.height == heights.sync
            &&& parts.footer.height == footer
        }),
{
}

// ---- Documents ----

/// What a row previews: of a staged file its staged changes, of an untracked file
/// the file, of any other its changes in the folder; always of its own
/// repository.
pub proof fn law_rows_preview_their_own_file(panel: Panel, row: Row)
    ensures
        row matches Row::Staged(r, i) ==> panel.doc_of(row) == Some(
            DocView::Diff {
                root: panel.repos@[r as int].git.root@,
                path: panel.repos@[r as int].status.staged@[i as int].path@,
                kind: DiffKind::Staged,
            },
        ),
        row matches Row::Unstaged(r, i) ==> panel.doc_of(row) == Some(
            DocView::Diff {
                root: panel.repos@[r as int].git.root@,
                path: panel.repos@[r as int].status.unstaged@[i as int].path@,
                kind: if panel.repos@[r as int].status.unstaged@[i as int].letter == 'U' {
                    DiffKind::Untracked
                } else {
                    DiffKind::Worktree
                },
            },
        ),
        row is RepoHeader || row is Message || row is Commit || row is StagedHeader
            || row is ChangesHeader || row is DrawerHeader ==> panel.doc_of(row) is None,
{
}

// ---- What was saved ----

/// A repository gets the message that was saved under its own key.
pub proof fn law_drafts_are_found_by_key(
    drafts: Seq<(Seq<char>, Seq<char>)>,
    key: Seq<char>,
    from: int,
    k: int,
)
    requires
        0 <= from <= k < drafts.len(),
        drafts[k].0 == key,
        forall|j: int| from <= j < k ==> (#[trigger] drafts[j]).0 != key,
    ensures
        saved_message(drafts, key, from) == Some(drafts[k].1),
    decreases k - from,
{
    if from < k {
        law_drafts_are_found_by_key(drafts, key, from + 1, k);
    }
}

/// The active repository is found again by its key.
pub proof fn law_the_active_repository_is_found_by_key(
    keys: Seq<String>,
    wanted: Seq<char>,
    from: int,
    k: int,
)
    requires
        0 <= from <= k < keys.len() <= usize::MAX,
        keys[k]@ == wanted,
        forall|j: int| from <= j < k ==> (#[trigger] keys[j])@ != wanted,
    ensures
        place_of(keys, wanted, from) == k,
    decreases k - from,
{
    if from < k {
        law_the_active_repository_is_found_by_key(keys, wanted, from + 1, k);
    }
}

/// A staged file shows what is staged; of the others a file that git does not
/// know is shown whole, and one that it knows against what it knows.
pub proof fn law_changes_are_shown_by_their_kind(letter: char)
    ensures
        diff_kind_spec(letter, true) == DiffKind::Staged,
        letter == 'U' ==> diff_kind_spec(letter, false) == DiffKind::Untracked,
        letter != 'U' ==> diff_kind_spec(letter, false) == DiffKind::Worktree,
{
}

} // verus!
