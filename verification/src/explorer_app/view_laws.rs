//! What the Explorer promises to show, and what its file filters stand for.

use crate::explorer_app::deco::{
    ignored_scan_due, status_step, IgnoredFiles, IgnoredRead, StatusStep,
};
use crate::explorer_app::frame::{page_of, FrameParts};
use crate::explorer_app::hits::regex_text;
use crate::explorer_app::panel::SearchPanel;
use crate::explorer_app::panel_view::{group_end, input_pieces, layout_spec, line_prefix};
use crate::explorer_app::patterns::{
    entry_globs, filter_globs, filter_globs_from, has_separator, has_wildcard,
    without_end_separators,
};
use crate::explorer_app::quick_open::QuickOpen;
use crate::explorer_app::tree::{
    arrow, marker_of, name_tone, on_chevron, row_at_path, row_lead, Row,
};
use crate::geometry::Area;
use crate::spans::Tone;
use crate::text::{decimal, is_char, is_separator, lemma_scan, lemma_scan_back, pieces, scan, trim};
use vstd::prelude::*;

verus! {

// ---- The tree ----

/// A row is indented by two columns for each level, and its arrow, which turns a
/// folder over, stands right behind: to the right where the folder is folded,
/// down where it is open; a file has none.
pub proof fn law_rows_are_indented_by_their_depth(row: Row, column: u16)
    ensures
        row_lead(row).len() >= 2 * row.depth,
        forall|i: int| 0 <= i < 2 * row.depth ==> #[trigger] row_lead(row)[i] == ' ',
        row_lead(row).skip(2 * row.depth as int) == arrow(row),
        row.is_dir && row.expanded ==> arrow(row) == "▾ "@,
        row.is_dir && !row.expanded ==> arrow(row) == "▸ "@,
        !row.is_dir ==> arrow(row) == "  "@,
        on_chevron(column, row.depth as nat) <==> column == 2 * row.depth || column == 2 * row.depth
            + 1,
{
    assert(row_lead(row).skip(2 * row.depth as int) =~= arrow(row));
}

/// A file is marked with its letter and a folder with a dot; what is ignored is
/// dimmed and bears no mark.
pub proof fn law_marks_say_the_status(letter: char)
    ensures
        letter != 'I' ==> marker_of(letter, false) == Some(seq![letter]) && marker_of(letter, true)
            == Some("●"@) && name_tone(Some(letter)) == Tone::Status(letter),
        marker_of('I', false) is None,
        marker_of('I', true) is None,
        name_tone(Some('I')) == Tone::Dim,
        name_tone(None) == Tone::Plain,
{
}

/// A path is found at the first row that has it.
pub proof fn law_paths_are_found_at_their_row(rows: Seq<Row>, path: Seq<char>, from: int, k: int)
    requires
        0 <= from <= k < rows.len(),
        rows[k].path@ == path,
        forall|j: int| from <= j < k ==> (#[trigger] rows[j]).path@ != path,
    ensures
        row_at_path(rows, path, from) == Some(k),
    decreases k - from,
{
    if from < k {
        law_paths_are_found_at_their_row(rows, path, from + 1, k);
    }
}

/// The parts of the frame stand under each other without a gap.
pub proof fn law_the_frame_is_stacked(screen: Area, bar: u16, footer: u16)
    requires
        bar + 1 + footer <= screen.height,
        screen.y + screen.height <= u16::MAX,
    ensures
        ({
            let parts = FrameParts::stacked(screen, bar, footer);
            &&& parts.bar.y == screen.y && parts.bar.height == bar
            &&& parts.head.y == screen.y + bar && parts.head.height == 1
            &&& parts.body.y == parts.head.y + 1
            &&& parts.footer.y == parts.body.y + parts.body.height
            &&& parts.footer.y + parts.footer.height == screen.y + screen.height
            &&& parts.footer.height == footer
        }),
        screen.height >= 2 ==> page_of(screen.height) == screen.height - 1,
{
}

// ---- The search panel ----

/// The buttons of the three options stand side by side in their order, each three
/// columns wide, and so do the three buttons of the bar; the query stands above
/// the replacement, that above the files to search, and those above the files to
/// leave out and the results.
pub proof fn law_the_panel_is_laid_out_in_order(area: Area, details: bool)
    requires
        area.width >= 20,
        area.x + area.width <= u16::MAX,
        area.y + 40 <= u16::MAX,
    ensures
        ({
            let zones = layout_spec(area, details).zones;
            &&& zones.match_case.width == 3 && zones.whole_word.width == 3 && zones.regex.width == 3
            &&& zones.whole_word.x == zones.match_case.x + 3
            &&& zones.regex.x == zones.whole_word.x + 3
            &&& zones.match_case.y == zones.query.y && zones.whole_word.y == zones.query.y
                && zones.regex.y == zones.query.y
            &&& zones.query.x + zones.query.width <= zones.match_case.x
            &&& zones.clear.x == zones.refresh.x + 3
            &&& zones.details.x == zones.clear.x + 3
            &&& zones.refresh.y == area.y && zones.clear.y == area.y && zones.details.y == area.y
            &&& zones.query.y == area.y + 3
            &&& zones.replace.y == area.y + 6
            &&& details ==> zones.files_in.y == area.y + 11 && zones.files_out.y == area.y + 15
            &&& layout_spec(area, details).results_y == area.y + (if details {
                18int
            } else {
                9
            })
        }),
{
    reveal(crate::geometry::capped);
    reveal(crate::geometry::area_at);
}

/// The line above the results tells the complaint, that the search runs, or how
/// many results there are.
pub proof fn law_the_status_tells_the_results(panel: SearchPanel)
    ensures
        panel.error matches Some(error) ==> panel.status_spec() == Some(error@),
        panel.error is None && panel.loading ==> panel.status_spec() == Some("Searching…"@),
        panel.error is None && !panel.loading && !panel.searched ==> panel.status_spec() is None,
        panel.error is None && !panel.loading && panel.searched && panel.hits@.len() == 0
            ==> panel.status_spec() == Some("No results found"@),
        panel.error is None && !panel.loading && panel.searched && panel.hits@.len() > 0
            && !panel.truncated ==> panel.status_spec() == Some(
            decimal(panel.hits@.len()) + " results"@,
        ),
        panel.error is None && !panel.loading && panel.searched && panel.hits@.len() > 0
            && panel.truncated ==> panel.status_spec() == Some(
            decimal(panel.hits@.len()) + " results · result limit reached"@,
        ),
{
}

/// A field in focus shows a cursor behind its text; an empty one that is not
/// shows what it is for. A result is shown behind the number of its line.
pub proof fn law_fields_show_their_text(
    value: Seq<char>,
    placeholder: Seq<char>,
    focused: bool,
    width: u16,
    line: nat,
)
    ensures
        ({
            let line = input_pieces(value, placeholder, focused, width);
            &&& line.len() > 0
            &&& focused ==> line.last().text == "█"@
            &&& !focused && value.len() == 0 ==> line[0].tone == Tone::Dim
            &&& value.len() > 0 ==> line[0].tone == Tone::Plain
        }),
        line_prefix(line) == "   "@ + decimal(line) + ": "@,
{
}

proof fn lemma_group_end(
    hits: Seq<crate::explorer_app::hits::ContentHit>,
    label: Seq<char>,
    at: int,
)
    requires
        0 <= at <= hits.len(),
    ensures
        at <= group_end(hits, label, at) <= hits.len(),
        forall|k: int| at <= k < group_end(hits, label, at) ==> (#[trigger] hits[k]).label@ == label,
        group_end(hits, label, at) < hits.len() ==> hits[group_end(hits, label, at)].label@
            != label,
    decreases hits.len() - at,
{
    if at < hits.len() && hits[at].label@ == label {
        lemma_group_end(hits, label, at + 1);
    }
}

/// The results under the name of a file are those of that file, up to the first
/// one of another.
pub proof fn law_results_stand_under_their_file(
    hits: Seq<crate::explorer_app::hits::ContentHit>,
    label: Seq<char>,
    at: int,
)
    requires
        0 <= at <= hits.len(),
    ensures
        at <= group_end(hits, label, at) <= hits.len(),
        forall|k: int| at <= k < group_end(hits, label, at) ==> (#[trigger] hits[k]).label@ == label,
        group_end(hits, label, at) < hits.len() ==> hits[group_end(hits, label, at)].label@
            != label,
{
    lemma_group_end(hits, label, at);
}

/// Quick open says how many files it has found, and that it looks for them still.
pub proof fn law_quick_open_tells_its_answers(quick: QuickOpen)
    ensures
        quick.loading ==> quick.status_spec() == "indexing files…"@,
        !quick.loading && quick.matches@.len() == 0 ==> quick.status_spec()
            == "no matching files"@,
        !quick.loading && quick.matches@.len() > 0 && !quick.truncated ==> quick.status_spec()
            == decimal(quick.matches@.len()) + " matches"@,
        !quick.loading && quick.matches@.len() > 0 && quick.truncated ==> quick.status_spec()
            == decimal(quick.matches@.len()) + " matches · first "@ + decimal(20000)
            + " files indexed"@,
{
}

// ---- File filters ----

/// A filter without a comma is one entry, without white space around it; a blank
/// one is none, and asks for every file.
pub proof fn law_a_filter_without_commas_is_one_entry(raw: Seq<char>)
    requires
        !raw.contains(','),
    ensures
        trim(raw).len() == 0 ==> filter_globs(raw).len() == 0,
        trim(raw).len() > 0 ==> filter_globs(raw) == entry_globs(trim(raw)),
{
    lemma_scan(raw, is_char(','), 0);
    let at = scan(raw, is_char(','), 0);
    if at < raw.len() {
        assert(is_char(',')(raw[at]));
        assert(raw.contains(raw[at]));
    }
    assert(raw.skip(0) =~= raw);
    assert(pieces(raw, ',') =~= seq![raw]);
    let list = pieces(raw, ',');
    assert(list[0] == raw);
    assert(filter_globs_from(list, 1) =~= Seq::empty());
    assert(entry_globs(trim(raw)) + Seq::empty() =~= entry_globs(trim(raw)));
}

/// An entry with a wildcard stands for itself. Any other stands for that file and
/// for everything in the folder of that path; a bare name also for everything in
/// a folder of that name anywhere.
pub proof fn law_plain_entries_stand_for_folders_too(entry: Seq<char>)
    requires
        entry.len() > 0,
        entry.last() != '/',
        entry.last() != '\\',
    ensures
        (exists|i: int|
            0 <= i < entry.len() && (#[trigger] entry[i] == '*' || entry[i] == '?' || entry[i] == '['
                || entry[i] == '{')) ==> entry_globs(entry) == seq![entry],
        (forall|i: int|
            0 <= i < entry.len() ==> #[trigger] entry[i] != '*' && entry[i] != '?' && entry[i] != '['
                && entry[i] != '{') ==> {
            &&& (exists|i: int| 0 <= i < entry.len() && #[trigger] entry[i] == '/') ==> entry_globs(
                entry,
            ) == seq![entry, entry + "/**"@]
            &&& (forall|i: int|
                0 <= i < entry.len() ==> #[trigger] entry[i] != '/' && entry[i] != '\\')
                ==> entry_globs(entry) == seq![
                entry,
                entry + "/**"@,
                "**/"@ + entry + "/**"@,
            ]
        },
{
    let ends = |c: char| is_separator(c);
    lemma_scan_back(entry, ends, entry.len() as int);
    let to = crate::text::scan_back(entry, ends, entry.len() as int);
    if to < entry.len() {
        assert(ends(entry[entry.len() - 1]));
    }
    assert(entry.take(entry.len() as int) =~= entry);
    assert(without_end_separators(entry) == entry);
    if exists|i: int|
        0 <= i < entry.len() && (#[trigger] entry[i] == '*' || entry[i] == '?' || entry[i] == '['
            || entry[i] == '{') {
        let i = choose|i: int|
            0 <= i < entry.len() && (#[trigger] entry[i] == '*' || entry[i] == '?' || entry[i] == '['
                || entry[i] == '{');
        assert(crate::explorer_app::patterns::is_wildcard(entry[i]));
    } else {
        assert(!has_wildcard(entry)) by {
            if has_wildcard(entry) {
                let i = choose|i: int|
                    0 <= i < entry.len() && crate::explorer_app::patterns::is_wildcard(
                        #[trigger] entry[i],
                    );
                assert(entry[i] == '*' || entry[i] == '?' || entry[i] == '[' || entry[i] == '{');
            }
        }
        if exists|i: int| 0 <= i < entry.len() && #[trigger] entry[i] == '/' {
            let i = choose|i: int| 0 <= i < entry.len() && #[trigger] entry[i] == '/';
            assert(is_separator(entry[i]));
        }
        if forall|i: int| 0 <= i < entry.len() ==> #[trigger] entry[i] != '/' && entry[i] != '\\' {
            assert(!has_separator(entry)) by {
                if has_separator(entry) {
                    let i = choose|i: int| 0 <= i < entry.len() && is_separator(#[trigger] entry[i]);
                    assert(entry[i] != '/' && entry[i] != '\\');
                }
            }
        }
    }
}

/// Whole words of a pattern are asked for with word boundaries around it.
pub proof fn law_whole_word_patterns_have_boundaries(query: Seq<char>)
    ensures
        regex_text(query, true) == "\\b(?:"@ + query + ")\\b"@,
        regex_text(query, false) == query,
{
}

// ---- Decorations ----

/// The status is read where something shows it, none is being read, and it is
/// asked for or the pane is focused; where nothing shows it, it is dropped.
pub proof fn law_the_status_is_read_where_it_shows(
    decorations: bool,
    footer: bool,
    pending: bool,
    forced: bool,
    focused: bool,
    step: StatusStep,
)
    requires
        call_ensures(status_step, (decorations, footer, pending, forced, focused), step),
    ensures
        step == StatusStep::Read <==> (decorations || footer) && !pending && (forced || focused),
        step == StatusStep::Drop <==> !decorations && !footer,
{
}

/// A repository whose ignored files could not be listed is left alone for a
/// while; one whose could is not.
pub proof fn law_failed_listings_are_left_alone(
    known: IgnoredFiles,
    read: IgnoredRead,
    now: u64,
    due: bool,
    until: Option<u64>,
)
    requires
        now < 0x1_0000_0000_0000,
        call_ensures(ignored_scan_due, (until, now), due),
    ensures
        read.attempted && read.degraded ==> (known.until_after(read, now) matches Some(end) && end
            > now),
        read.attempted && !read.degraded ==> known.until_after(read, now) is None,
        !read.attempted ==> known.until_after(read, now) == known.until(read.root@),
        due <==> !(until matches Some(end) && now < end),
{
}

} // verus!
