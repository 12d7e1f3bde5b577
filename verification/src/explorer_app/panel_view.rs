//! How the search panel looks: where its parts stand, and the list of results.

use crate::columns::{
    columns, columns_left, input_end, input_tail, left_over, lemma_fitting_end, tail_of,
    text_width, truncate_path_tail, truncate_to, truncated,
};
use crate::explorer_app::hits::{hits_are_clean, ContentHit};
use crate::explorer_app::panel::{result_under, SearchPanel, SearchZones};
use crate::explorer_app::search::{
    are_clean, highlighted, highlighted_search_context, lemma_whole_matches_cut_no_char,
    visible_end,
};
use crate::geometry::{area_at, capped, in_area, place, plus, Area};
use crate::json::opt_text;
use crate::settings::IconTheme;
use crate::spans::{empty_line, line_view, piece, put, Span, SpanView, Tone};
use crate::text::{decimal, push_decimal, str_eq};
use crate::utf8::{bytes_before, lemma_bytes_increase, lemma_chars_before};
use vstd::prelude::*;

verus! {

// ---- Inputs ----

/// An input: its placeholder while nothing is typed and nothing is to be, else
/// the end of what was typed, with a cursor where it has the focus.
pub open spec fn input_pieces(
    value: Seq<char>,
    placeholder: Seq<char>,
    focused: bool,
    width: u16,
) -> Seq<SpanView> {
    if focused {
        let room = left_over(width as int, 1) as usize;
        if value.len() == 0 {
            seq![piece("█"@, Tone::Plain)]
        } else {
            seq![piece(input_end(value, room), Tone::Plain), piece("█"@, Tone::Plain)]
        }
    } else if value.len() == 0 {
        seq![piece(truncated(placeholder, width as usize), Tone::Dim)]
    } else {
        seq![piece(input_end(value, width as usize), Tone::Plain)]
    }
}

pub fn search_input_line(value: &str, placeholder: &str, focused: bool, width: u16) -> (res: Vec<
    Span,
>)
    ensures
        line_view(res@) == input_pieces(value@, placeholder@, focused, width),
{
    let mut line: Vec<Span> = empty_line();
    let room: usize = if focused {
        columns_left(width as usize, 1, 0, 0, 0)
    } else {
        width as usize
    };
    if !value.is_empty() {
        put(&mut line, input_tail(value, room), Tone::Plain);
    } else if !focused {
        put(&mut line, truncate_to(placeholder, room), Tone::Dim);
    }
    if focused {
        put(&mut line, "█".to_owned(), Tone::Plain);
    }
    assert(line_view(line@) =~= input_pieces(value@, placeholder@, focused, width));
    line
}

/// The icons of the three buttons: search again, clear, and the file filters.
pub fn search_toolbar_icons(theme: IconTheme) -> (res: (&'static str, &'static str, &'static str))
    ensures
        match theme {
            IconTheme::Material => res.0@ == "\u{eb37}"@ && res.1@ == "\u{eabf}"@ && res.2@
                == "\u{ea7c}"@,
            IconTheme::Emoji => res.0@ == "⟳"@ && res.1@ == "×"@ && res.2@ == "⋯"@,
        },
{
    match theme {
        IconTheme::Material => ("\u{eb37}", "\u{eabf}", "\u{ea7c}"),
        IconTheme::Emoji => ("⟳", "×", "⋯"),
    }
}

// ---- Where the parts stand ----

/// The frames of the panel's inputs, and where its results begin.
#[derive(Clone, Copy, Debug)]
pub struct SearchLayout {
    pub toolbar: Area,
    pub query_box: Area,
    pub options: Area,
    pub replace_box: Area,
    pub files_in_label: Area,
    pub files_in_box: Area,
    pub files_out_label: Area,
    pub files_out_box: Area,
    pub zones: SearchZones,
    /// The line of the status, or of the first result where there is none.
    pub results_y: u16,
}

/// The frame of an input at a line of the panel.
pub open spec fn box_at(area: Area, y: u16) -> Area {
    area_at(capped(area.x + 2), y, left_over(area.width as int, 3) as u16, 3)
}

fn place_box(area: Area, y: u16) -> (res: Area)
    ensures
        res == box_at(area, y),
{
    place(plus(area.x, 2), y, area.width.saturating_sub(3), 3)
}

/// The text line inside the frame of an input that leaves `right` columns free.
pub open spec fn text_at(frame: Area, right: int) -> Area {
    area_at(
        capped(frame.x + 1),
        capped(frame.y + 1),
        left_over(frame.width as int, right) as u16,
        1,
    )
}

fn place_text(frame: Area, right: u16) -> (res: Area)
    ensures
        res == text_at(frame, right as int),
{
    place(
        plus(frame.x, 1),
        plus(frame.y, 1),
        frame.width.saturating_sub(right),
        1,
    )
}

/// The line above the frame of a file filter.
pub open spec fn label_at(area: Area, y: u16) -> Area {
    area_at(capped(area.x + 2), y, left_over(area.width as int, 3) as u16, 1)
}

fn place_label(area: Area, y: u16) -> (res: Area)
    ensures
        res == label_at(area, y),
{
    place(plus(area.x, 2), y, area.width.saturating_sub(3), 1)
}

pub open spec fn at_most(a: int, b: int) -> int {
    if a < b {
        a
    } else {
        b
    }
}

/// Three buttons at the right of the title; below it the query with its three
/// options inside its frame, then the replacement, then the file filters where
/// they are shown, then the results.
pub open spec fn layout_spec(area: Area, details: bool) -> SearchLayout {
    let bar = at_most(9, area.width as int);
    let bar_x = capped(area.x + (area.width - bar));
    let query_box = box_at(area, capped(area.y + 2));
    let option_width = at_most(query_box.width as int, 9);
    let option_x = capped(query_box.x + left_over(query_box.width as int, option_width + 1));
    let option_y = capped(query_box.y + 1);
    let replace_box = box_at(area, capped(query_box.y + query_box.height));
    let below = capped(capped(replace_box.y + replace_box.height) + 1);
    let files_in_box = box_at(area, capped(below + 1));
    let out_y = capped(files_in_box.y + files_in_box.height);
    let files_out_box = box_at(area, capped(out_y + 1));
    SearchLayout {
        toolbar: area_at(bar_x, area.y, bar as u16, 1),
        query_box,
        options: area_at(option_x, option_y, option_width as u16, 1),
        replace_box,
        files_in_label: if details {
            label_at(area, below)
        } else {
            Area::empty_spec()
        },
        files_in_box: if details {
            files_in_box
        } else {
            Area::empty_spec()
        },
        files_out_label: if details {
            label_at(area, out_y)
        } else {
            Area::empty_spec()
        },
        files_out_box: if details {
            files_out_box
        } else {
            Area::empty_spec()
        },
        zones: SearchZones {
            query: text_at(query_box, option_width + 2),
            replace: text_at(replace_box, 2),
            files_in: if details {
                text_at(files_in_box, 2)
            } else {
                Area::empty_spec()
            },
            files_out: if details {
                text_at(files_out_box, 2)
            } else {
                Area::empty_spec()
            },
            match_case: area_at(option_x, option_y, 3, 1),
            whole_word: area_at(capped(option_x + 3), option_y, 3, 1),
            regex: area_at(capped(option_x + 6), option_y, 3, 1),
            refresh: area_at(bar_x, area.y, at_most(3, bar) as u16, 1),
            clear: area_at(capped(bar_x + 3), area.y, 3, 1),
            details: area_at(capped(bar_x + 6), area.y, 3, 1),
        },
        results_y: if details {
            capped(capped(files_out_box.y + files_out_box.height) + 1)
        } else {
            below
        },
    }
}

/// Where the parts of the panel stand in `area`.
pub fn search_layout(area: Area, details: bool) -> (res: SearchLayout)
    ensures
        res == layout_spec(area, details),
{
    let bar: u16 = if area.width < 9 {
        area.width
    } else {
        9
    };
    let bar_x: u16 = plus(area.x, area.width - bar);
    let first: u16 = if bar < 3 {
        bar
    } else {
        3
    };
    let query_box: Area = place_box(area, plus(area.y, 2));
    let option_width: u16 = if query_box.width < 9 {
        query_box.width
    } else {
        9
    };
    let option_x: u16 = plus(
        query_box.x,
        query_box.width.saturating_sub(option_width + 1),
    );
    let option_y: u16 = plus(query_box.y, 1);
    let replace_box: Area = place_box(area, plus(query_box.y, query_box.height));
    let below: u16 = plus(plus(replace_box.y, replace_box.height), 1);
    let empty: Area = Area::empty();
    let mut layout: SearchLayout = SearchLayout {
        toolbar: place(bar_x, area.y, bar, 1),
        query_box,
        options: place(option_x, option_y, option_width, 1),
        replace_box,
        files_in_label: empty,
        files_in_box: empty,
        files_out_label: empty,
        files_out_box: empty,
        zones: SearchZones {
            query: place_text(query_box, option_width + 2),
            replace: place_text(replace_box, 2),
            files_in: empty,
            files_out: empty,
            match_case: place(option_x, option_y, 3, 1),
            whole_word: place(plus(option_x, 3), option_y, 3, 1),
            regex: place(plus(option_x, 6), option_y, 3, 1),
            refresh: place(bar_x, area.y, first, 1),
            clear: place(plus(bar_x, 3), area.y, 3, 1),
            details: place(plus(bar_x, 6), area.y, 3, 1),
        },
        results_y: below,
    };
    if details {
        let files_in_box: Area = place_box(area, plus(below, 1));
        let out_y: u16 = plus(files_in_box.y, files_in_box.height);
        let files_out_box: Area = place_box(area, plus(out_y, 1));
        layout.files_in_label = place_label(area, below);
        layout.files_in_box = files_in_box;
        layout.files_out_label = place_label(area, out_y);
        layout.files_out_box = files_out_box;
        layout.zones.files_in = place_text(files_in_box, 2);
        layout.zones.files_out = place_text(files_out_box, 2);
        layout.results_y = plus(plus(files_out_box.y, files_out_box.height), 1);
    }
    layout
}

/// While the file filters are hidden, no click reaches them.
pub proof fn law_hidden_filters_take_no_clicks(area: Area, x: u16, y: u16)
    ensures
        !in_area(layout_spec(area, false).zones.files_in, x, y),
        !in_area(layout_spec(area, false).zones.files_out, x, y),
{
}

// ---- The status ----

impl SearchPanel {
    /// The line above the results.
    pub open spec fn status_spec(&self) -> Option<Seq<char>> {
        match self.error {
            Some(error) => Some(error@),
            None => if self.loading {
                Some("Searching…"@)
            } else if !self.searched {
                None
            } else if self.hits@.len() == 0 {
                Some("No results found"@)
            } else if self.truncated {
                Some(decimal(self.hits@.len()) + " results · result limit reached"@)
            } else {
                Some(decimal(self.hits@.len()) + " results"@)
            },
        }
    }

    pub fn status(&self) -> (res: Option<String>)
        ensures
            opt_text(res) == self.status_spec(),
    {
        if let Some(error) = &self.error {
            return Some(error.clone());
        }
        if self.loading {
            return Some("Searching…".to_owned());
        }
        if !self.searched {
            return None;
        }
        let count: usize = self.hits.len();
        if count == 0 {
            return Some("No results found".to_owned());
        }
        let mut text: String = String::new();
        push_decimal(&mut text, count);
        assert(text@ =~= decimal(count as nat));
        text.append(
            if self.truncated {
                " results · result limit reached"
            } else {
                " results"
            },
        );
        Some(text)
    }
}

// ---- The results ----

/// A line of the list of results: the name of a file, or a line found in it.
pub struct ResultRow {
    /// The result that the line shows.
    pub hit: Option<usize>,
    pub line: Vec<Span>,
}

/// What a `ResultRow` holds.
#[verifier::ext_equal]
pub struct ResultView {
    pub hit: Option<usize>,
    pub line: Seq<SpanView>,
}

impl View for ResultRow {
    type V = ResultView;

    open spec fn view(&self) -> ResultView {
        ResultView { hit: self.hit, line: line_view(self.line@) }
    }
}

pub open spec fn result_views(rows: Seq<ResultRow>) -> Seq<ResultView> {
    rows.map(|i: int, r: ResultRow| r@)
}

/// The end of the run of results from `at` on in the file `label`.
pub open spec fn group_end(hits: Seq<ContentHit>, label: Seq<char>, at: int) -> int
    decreases hits.len() - at,
{
    if 0 <= at < hits.len() && hits[at].label@ == label {
        group_end(hits, label, at + 1)
    } else {
        at
    }
}

proof fn lemma_group_end(hits: Seq<ContentHit>, label: Seq<char>, at: int)
    requires
        0 <= at <= hits.len(),
    ensures
        at <= group_end(hits, label, at) <= hits.len(),
    decreases hits.len() - at,
{
    if at < hits.len() && hits[at].label@ == label {
        lemma_group_end(hits, label, at + 1);
    }
}

pub open spec fn count_text(count: int) -> Seq<char> {
    " "@ + decimal(count as nat)
}

/// The name of a file, and how many lines were found in it.
pub open spec fn file_pieces(label: Seq<char>, count: int, width: u16) -> Seq<SpanView> {
    let room = left_over(width as int, 2 + columns(count_text(count)));
    seq![
        piece("⌄ "@, Tone::Dim),
        piece(tail_of(label, room as usize), Tone::Bold),
        piece(count_text(count), Tone::Dim),
    ]
}

pub open spec fn line_prefix(line: nat) -> Seq<char> {
    "   "@ + decimal(line) + ": "@
}

/// A found line: its number, and its text with what was found standing out.
pub open spec fn hit_pieces(hit: ContentHit, width: u16) -> Seq<SpanView> {
    let prefix = line_prefix(hit.line as nat);
    seq![piece(prefix, Tone::Accent)] + highlighted(
        hit.context@,
        hit.matches@,
        left_over(width as int, columns(prefix) as int) as usize,
    )
}

pub open spec fn hit_row(hits: Seq<ContentHit>, i: int, width: u16) -> ResultView {
    ResultView { hit: Some(i as usize), line: hit_pieces(hits[i], width) }
}

/// The results from `i` on, as lines: each run of one file under its name.
pub open spec fn results_from(hits: Seq<ContentHit>, i: int, width: u16) -> Seq<ResultView>
    decreases hits.len() - i,
    when 0 <= i
    via results_decrease
{
    if i < hits.len() {
        let end = group_end(hits, hits[i].label@, i + 1);
        seq![ResultView { hit: None, line: file_pieces(hits[i].label@, end - i, width) }]
            + Seq::new((end - i) as nat, |k: int| hit_row(hits, i + k, width)) + results_from(
            hits,
            end,
            width,
        )
    } else {
        Seq::empty()
    }
}

#[via_fn]
proof fn results_decrease(hits: Seq<ContentHit>, i: int, width: u16) {
    if i < hits.len() {
        lemma_group_end(hits, hits[i].label@, i + 1);
    }
}

fn file_row(label: &str, count: usize, width: u16) -> (res: ResultRow)
    ensures
        res@ == (ResultView { hit: None, line: file_pieces(label@, count as int, width) }),
{
    let mut number: String = " ".to_owned();
    push_decimal(&mut number, count);
    let number_width: usize = text_width(number.as_str());
    let room: usize = columns_left(width as usize, 2, number_width, 0, 0);
    let mut line: Vec<Span> = empty_line();
    put(&mut line, "⌄ ".to_owned(), Tone::Dim);
    put(&mut line, truncate_path_tail(label, room), Tone::Bold);
    put(&mut line, number, Tone::Dim);
    assert(line_view(line@) =~= file_pieces(label@, count as int, width));
    ResultRow { hit: None, line }
}

fn found_row(hits: &Vec<ContentHit>, i: usize, width: u16) -> (res: ResultRow)
    requires
        i < hits@.len(),
        hits_are_clean(hits@),
    ensures
        res@ == hit_row(hits@, i as int, width),
{
    let hit: &ContentHit = &hits[i];
    let mut prefix: String = "   ".to_owned();
    push_decimal(&mut prefix, hit.line);
    prefix.append(": ");
    assert(prefix@ =~= line_prefix(hit.line as nat));
    let prefix_width: usize = text_width(prefix.as_str());
    let room: usize = columns_left(width as usize, prefix_width, 0, 0, 0);
    assert(are_clean(hits@[i as int].matches@, hits@[i as int].context@));
    proof {
        let end = visible_end(hit.context@, room);
        lemma_fitting_end(hit.context@, 0, room - 1);
        lemma_chars_before(hit.context@, 0);
        lemma_chars_before(hit.context@, end);
        lemma_bytes_increase(hit.context@, end, hit.context@.len() as int);
        lemma_whole_matches_cut_no_char(
            hit.context@,
            hit.matches@,
            0,
            0,
            bytes_before(hit.context@, end) as int,
        );
    }
    let mut rest: Vec<Span> = highlighted_search_context(
        hit.context.as_str(),
        hit.matches.as_slice(),
        room,
    );
    let mut line: Vec<Span> = empty_line();
    put(&mut line, prefix, Tone::Accent);
    let ghost head: Seq<Span> = line@;
    let ghost tail: Seq<Span> = rest@;
    line.append(&mut rest);
    assert(line_view(line@) =~= line_view(head) + line_view(tail));
    assert(line_view(line@) =~= hit_pieces(*hit, width));
    ResultRow { hit: Some(i), line }
}

/// The lines of the list of results.
pub fn result_rows(hits: &Vec<ContentHit>, width: u16) -> (res: Vec<ResultRow>)
    requires
        hits_are_clean(hits@),
    ensures
        result_views(res@) == results_from(hits@, 0, width),
{
    let mut rows: Vec<ResultRow> = Vec::new();
    let mut i: usize = 0;
    let ghost all: Seq<ResultView> = results_from(hits@, 0, width);
    assert(result_views(rows@) + results_from(hits@, 0, width) =~= all);
    while i < hits.len()
        invariant
            i <= hits@.len(),
            hits_are_clean(hits@),
            all == results_from(hits@, 0, width),
            result_views(rows@) + results_from(hits@, i as int, width) == all,
        decreases hits@.len() - i,
    {
        let ghost before: Seq<ResultView> = result_views(rows@);
        let ghost label: Seq<char> = hits@[i as int].label@;
        let mut end: usize = i + 1;
        while end < hits.len() && str_eq(hits[end].label.as_str(), hits[i].label.as_str())
            invariant
                i < end <= hits@.len(),
                label == hits@[i as int].label@,
                group_end(hits@, label, end as int) == group_end(hits@, label, i + 1),
            decreases hits@.len() - end,
        {
            end += 1;
        }
        rows.push(file_row(hits[i].label.as_str(), end - i, width));
        let ghost name: ResultView = ResultView {
            hit: None,
            line: file_pieces(label, end - i, width),
        };
        assert(result_views(rows@) =~= before.push(name));
        let mut at: usize = i;
        while at < end
            invariant
                i <= at <= end <= hits@.len(),
                hits_are_clean(hits@),
                result_views(rows@) == before.push(name) + Seq::new(
                    (at - i) as nat,
                    |k: int| hit_row(hits@, i + k, width),
                ),
            decreases end - at,
        {
            let ghost so_far: Seq<ResultView> = result_views(rows@);
            rows.push(found_row(hits, at, width));
            assert(result_views(rows@) =~= so_far.push(hit_row(hits@, at as int, width)));
            assert(result_views(rows@) =~= before.push(name) + Seq::new(
                (at + 1 - i) as nat,
                |k: int| hit_row(hits@, i + k, width),
            ));
            at += 1;
        }
        assert(result_views(rows@) + results_from(hits@, end as int, width) =~= before
            + results_from(hits@, i as int, width));
        i = end;
    }
    assert(result_views(rows@) =~= all);
    rows
}

// ---- What is on the screen ----

/// The first line from the `i`th on that shows a result.
pub open spec fn row_of_hit(rows: Seq<ResultView>, hit: usize, i: int) -> int
    decreases rows.len() - i,
{
    if 0 <= i < rows.len() {
        if rows[i].hit == Some(hit) {
            i
        } else {
            row_of_hit(rows, hit, i + 1)
        }
    } else {
        0
    }
}

/// The line of a file's name at `at` or above it.
pub open spec fn name_above(rows: Seq<ResultView>, at: int) -> int
    decreases at,
{
    if 0 < at && rows[at].hit is Some {
        name_above(rows, at - 1)
    } else {
        at
    }
}

/// The first line on the screen: where the selection is to be shown, the name
/// of its file or that of one above it, with half a screen above it; else where
/// the list was scrolled to.
pub open spec fn first_shown(
    rows: Seq<ResultView>,
    selected: usize,
    viewport: int,
    snap: bool,
    scroll: int,
) -> int {
    let most = left_over(rows.len() as int, viewport) as int;
    if snap {
        name_above(
            rows,
            at_most(left_over(row_of_hit(rows, selected, 0), viewport / 2) as int, most),
        )
    } else {
        at_most(scroll, most)
    }
}

fn find_hit(rows: &Vec<ResultRow>, hit: usize) -> (res: usize)
    ensures
        res == row_of_hit(result_views(rows@), hit, 0),
        res == 0 || res < rows@.len(),
{
    let ghost views: Seq<ResultView> = result_views(rows@);
    let mut i: usize = 0;
    while i < rows.len()
        invariant
            i <= rows@.len(),
            views == result_views(rows@),
            row_of_hit(views, hit, i as int) == row_of_hit(views, hit, 0),
        decreases rows@.len() - i,
    {
        assert(views[i as int] == rows@[i as int]@);
        match rows[i].hit {
            Some(k) => {
                if k == hit {
                    return i;
                }
            },
            None => {},
        }
        i += 1;
    }
    0
}

pub fn results_start(
    rows: &Vec<ResultRow>,
    selected: usize,
    viewport: usize,
    snap: bool,
    scroll: usize,
) -> (res: usize)
    ensures
        res == first_shown(
            result_views(rows@),
            selected,
            viewport as int,
            snap,
            scroll as int,
        ),
{
    let ghost views: Seq<ResultView> = result_views(rows@);
    let most: usize = rows.len().saturating_sub(viewport);
    if !snap {
        return if scroll < most {
            scroll
        } else {
            most
        };
    }
    let above: usize = find_hit(rows, selected).saturating_sub(viewport / 2);
    let wanted: usize = if above < most {
        above
    } else {
        most
    };
    let mut start: usize = wanted;
    while start > 0 && rows[start].hit.is_some()
        invariant
            start == 0 || start < rows@.len(),
            views == result_views(rows@),
            name_above(views, start as int) == name_above(views, wanted as int),
        decreases start,
    {
        assert(views[start as int] == rows@[start as int]@);
        start -= 1;
    }
    proof {
        if start > 0 {
            assert(views[start as int] == rows@[start as int]@);
        }
    }
    start
}

/// Where the results among the lines on the screen stand.
pub open spec fn zones_from(rows: Seq<ResultView>, area: Area, start: int, k: int) -> Seq<
    (Area, usize),
>
    decreases area.height - k,
{
    if 0 <= k < area.height && 0 <= start + k < rows.len() {
        let rest = zones_from(rows, area, start, k + 1);
        match rows[start + k].hit {
            Some(hit) => seq![(area_at(area.x, capped(area.y + k), area.width, 1), hit)] + rest,
            None => rest,
        }
    } else {
        Seq::empty()
    }
}

pub fn result_zones(rows: &Vec<ResultRow>, area: Area, start: usize) -> (res: Vec<(Area, usize)>)
    ensures
        res@ == zones_from(result_views(rows@), area, start as int, 0),
{
    let ghost views: Seq<ResultView> = result_views(rows@);
    let mut out: Vec<(Area, usize)> = Vec::new();
    let mut k: u16 = 0;
    let ghost all: Seq<(Area, usize)> = zones_from(views, area, start as int, 0);
    assert(out@ + zones_from(views, area, start as int, 0) =~= all);
    while k < area.height && start < rows.len() && (k as usize) < rows.len() - start
        invariant
            k <= area.height,
            views == result_views(rows@),
            out@ + zones_from(views, area, start as int, k as int) == all,
        decreases area.height - k,
    {
        let ghost before: Seq<(Area, usize)> = out@;
        let ghost rest: Seq<(Area, usize)> = zones_from(views, area, start as int, k + 1);
        let i: usize = start + k as usize;
        assert(views[i as int] == rows@[i as int]@);
        if let Some(hit) = rows[i].hit {
            let zone: Area = place(area.x, plus(area.y, k), area.width, 1);
            out.push((zone, hit));
            assert(out@ + rest =~= before + (seq![(zone, hit)] + rest));
        }
        k += 1;
    }
    assert(out@ =~= all);
    out
}

// ---- What the list promises ----

/// The results that lines show, in their order.
pub open spec fn shown_hits(rows: Seq<ResultView>) -> Seq<usize>
    decreases rows.len(),
{
    if rows.len() == 0 {
        Seq::empty()
    } else {
        let rest = shown_hits(rows.drop_last());
        match rows.last().hit {
            Some(hit) => rest.push(hit),
            None => rest,
        }
    }
}

proof fn lemma_shown_hits_add(a: Seq<ResultView>, b: Seq<ResultView>)
    ensures
        shown_hits(a + b) == shown_hits(a) + shown_hits(b),
    decreases b.len(),
{
    if b.len() == 0 {
        assert(a + b =~= a);
        assert(shown_hits(a + b) =~= shown_hits(a) + shown_hits(b));
    } else {
        lemma_shown_hits_add(a, b.drop_last());
        assert((a + b).drop_last() =~= a + b.drop_last());
        assert((a + b).last() == b.last());
        assert(shown_hits(a + b) =~= shown_hits(a) + shown_hits(b));
    }
}

proof fn lemma_shown_run(hits: Seq<ContentHit>, i: int, n: nat, width: u16)
    ensures
        shown_hits(Seq::new(n, |k: int| hit_row(hits, i + k, width))) == Seq::new(
            n,
            |k: int| (i + k) as usize,
        ),
    decreases n,
{
    let rows = Seq::new(n, |k: int| hit_row(hits, i + k, width));
    let expected = Seq::new(n, |k: int| (i + k) as usize);
    if n > 0 {
        let m = (n - 1) as nat;
        lemma_shown_run(hits, i, m, width);
        assert(rows.drop_last() =~= Seq::new(m, |k: int| hit_row(hits, i + k, width)));
        assert(expected =~= Seq::new(m, |k: int| (i + k) as usize).push((i + m) as usize));
    }
    assert(shown_hits(rows) =~= expected);
}

proof fn lemma_shown_results(hits: Seq<ContentHit>, i: int, width: u16)
    requires
        0 <= i <= hits.len(),
    ensures
        shown_hits(results_from(hits, i, width)) == Seq::new(
            (hits.len() - i) as nat,
            |k: int| (i + k) as usize,
        ),
        i < hits.len() ==> results_from(hits, i, width)[0].hit is None,
    decreases hits.len() - i,
{
    let expected = Seq::new((hits.len() - i) as nat, |k: int| (i + k) as usize);
    if i < hits.len() {
        let end = group_end(hits, hits[i].label@, i + 1);
        lemma_group_end(hits, hits[i].label@, i + 1);
        lemma_shown_results(hits, end, width);
        let name = seq![ResultView { hit: None, line: file_pieces(hits[i].label@, end - i, width) }];
        let run = Seq::new((end - i) as nat, |k: int| hit_row(hits, i + k, width));
        lemma_shown_run(hits, i, (end - i) as nat, width);
        lemma_shown_hits_add(name, run);
        lemma_shown_hits_add(name + run, results_from(hits, end, width));
        assert(name.drop_last() =~= Seq::empty());
        assert(shown_hits(name) =~= Seq::empty()) by {
            assert(shown_hits(name.drop_last()) =~= Seq::<usize>::empty());
        }
        assert(results_from(hits, i, width)[0] == name[0]);
    }
    assert(shown_hits(results_from(hits, i, width)) =~= expected);
}

/// A zone in front of others takes the clicks that it covers, and no others.
proof fn lemma_result_under_first(first: (Area, usize), rest: Seq<(Area, usize)>, x: u16, y: u16)
    ensures
        result_under(seq![first] + rest, x, y, 0) == (if in_area(first.0, x, y) {
            Some(first.1)
        } else {
            result_under(rest, x, y, 0)
        }),
{
    let all = seq![first] + rest;
    assert(all[0] == first);
    lemma_result_under_shift(first, rest, x, y, 0);
}

proof fn lemma_result_under_shift(
    first: (Area, usize),
    rest: Seq<(Area, usize)>,
    x: u16,
    y: u16,
    i: int,
)
    requires
        0 <= i,
    ensures
        result_under(seq![first] + rest, x, y, i + 1) == result_under(rest, x, y, i),
    decreases rest.len() - i,
{
    let all = seq![first] + rest;
    if i < rest.len() {
        assert(all[i + 1] == rest[i]);
        lemma_result_under_shift(first, rest, x, y, i + 1);
    }
}

proof fn lemma_drawn_result(
    rows: Seq<ResultView>,
    area: Area,
    start: int,
    j: int,
    k: int,
    hit: usize,
    x: u16,
)
    requires
        0 <= j <= k < area.height,
        0 <= start,
        start + k < rows.len(),
        rows[start + k].hit == Some(hit),
        area.y + area.height <= u16::MAX,
        area.x + area.width <= u16::MAX,
        area.x <= x < area.x + area.width,
    ensures
        result_under(zones_from(rows, area, start, j), x, (area.y + k) as u16, 0) == Some(hit),
    decreases k - j,
{
    reveal(area_at);
    reveal(capped);
    let y = (area.y + k) as u16;
    let rest = zones_from(rows, area, start, j + 1);
    match rows[start + j].hit {
        Some(h) => {
            let first = (area_at(area.x, capped(area.y + j), area.width, 1), h);
            lemma_result_under_first(first, rest, x, y);
            if j < k {
                lemma_drawn_result(rows, area, start, j + 1, k, hit, x);
            }
        },
        None => {
            lemma_drawn_result(rows, area, start, j + 1, k, hit, x);
        },
    }
}

/// A click on a line of the list reaches the result that the line shows.
pub proof fn law_clicks_reach_the_drawn_result(
    rows: Seq<ResultView>,
    area: Area,
    start: int,
    k: int,
    hit: usize,
    x: u16,
)
    requires
        0 <= k < area.height,
        0 <= start,
        start + k < rows.len(),
        rows[start + k].hit == Some(hit),
        area.y + area.height <= u16::MAX,
        area.x + area.width <= u16::MAX,
        area.x <= x < area.x + area.width,
    ensures
        result_under(zones_from(rows, area, start, 0), x, (area.y + k) as u16, 0) == Some(hit),
{
    lemma_drawn_result(rows, area, start, 0, k, hit, x);
}

/// The list shows each result once, in the order in which they were found, and
/// begins with the name of a file.
pub proof fn law_each_result_is_listed_once(hits: Seq<ContentHit>, width: u16)
    ensures
        shown_hits(results_from(hits, 0, width)) == Seq::new(hits.len(), |k: int| k as usize),
        hits.len() > 0 ==> results_from(hits, 0, width)[0].hit is None,
{
    lemma_shown_results(hits, 0, width);
    assert(Seq::new(hits.len(), |k: int| k as usize) =~= Seq::new(
        hits.len(),
        |k: int| (0 + k) as usize,
    ));
}

proof fn lemma_name_above(rows: Seq<ResultView>, at: int)
    requires
        0 <= at,
    ensures
        0 <= name_above(rows, at) <= at,
        name_above(rows, at) == 0 || rows[name_above(rows, at)].hit is None,
    decreases at,
{
    if 0 < at && rows[at].hit is Some {
        lemma_name_above(rows, at - 1);
    }
}

proof fn lemma_row_of_hit(rows: Seq<ResultView>, hit: usize, i: int)
    requires
        0 <= i,
    ensures
        0 <= row_of_hit(rows, hit, i),
    decreases rows.len() - i,
{
    if i < rows.len() && rows[i].hit != Some(hit) {
        lemma_row_of_hit(rows, hit, i + 1);
    }
}

/// What is on the screen begins in the list and wastes no line at its end; a
/// list that was moved to its selection begins with a file's name.
pub proof fn law_lists_begin_with_a_name(
    hits: Seq<ContentHit>,
    width: u16,
    selected: usize,
    viewport: int,
    snap: bool,
    scroll: int,
)
    requires
        hits.len() > 0,
        viewport >= 0,
        scroll >= 0,
    ensures
        ({
            let rows = results_from(hits, 0, width);
            let start = first_shown(rows, selected, viewport, snap, scroll);
            &&& 0 <= start
            &&& start == 0 || start + viewport <= rows.len()
            &&& snap && viewport > 0 ==> rows[start].hit is None
        }),
{
    let rows = results_from(hits, 0, width);
    lemma_shown_results(hits, 0, width);
    lemma_row_of_hit(rows, selected, 0);
    if snap {
        lemma_name_above(
            rows,
            at_most(
                left_over(row_of_hit(rows, selected, 0), viewport / 2) as int,
                left_over(rows.len() as int, viewport) as int,
            ),
        );
    }
}

} // verus!
