//! What holds of the words, lines, numbers and paths that everything else is
//! said in.

use crate::columns::{fitting_end, fitting_start, input_end, shown_columns, tail_of, truncated};
use crate::geometry::{in_area, on_collapse_button, Area};
use crate::ranking::{before_from, text_before};
use crate::text::{
    all_digits, decimal, decimal_value, digit, is_char, is_digit, is_separator, is_whitespace,
    joined, last_component, lemma_scan, lemma_scan_back, lines, lines_from, not_white,
    parsed_number, pieces, pieces_from, scan, scan_back, trim, white, without_return, words,
    words_from,
};
use vstd::prelude::*;

verus! {

// ---- White space ----

/// Trimming takes white space away at both ends and nothing else: what is left
/// starts and ends with no white space, and what is gone is white space.
pub proof fn law_trimming_takes_white_space_alone(s: Seq<char>)
    ensures
        trim(s).len() > 0 ==> !is_whitespace(trim(s).first()) && !is_whitespace(trim(s).last()),
        trim(s).len() > 0 ==> exists|from: int|
            0 <= from && from + trim(s).len() <= s.len() && #[trigger] s.subrange(
                from,
                from + trim(s).len(),
            ) == trim(s) && (forall|i: int| 0 <= i < from ==> is_whitespace(#[trigger] s[i]))
                && forall|i: int|
                from + trim(s).len() <= i < s.len() ==> is_whitespace(#[trigger] s[i]),
        trim(s).len() == 0 <==> forall|i: int| 0 <= i < s.len() ==> is_whitespace(#[trigger] s[i]),
{
    let from = scan(s, not_white(), 0);
    let to = scan_back(s, white(), s.len() as int);
    lemma_scan(s, not_white(), 0);
    lemma_scan_back(s, white(), s.len() as int);
    if from < s.len() {
        assert(!is_whitespace(s[from]));
        if to <= from {
            assert(white()(s[from]));
        }
        assert(trim(s) == s.subrange(from, to));
        assert(s.subrange(from, from + trim(s).len()) == trim(s));
        assert forall|i: int| 0 <= i < from implies is_whitespace(#[trigger] s[i]) by {
            assert(!not_white()(s[i]));
        }
        assert forall|i: int| to <= i < s.len() implies is_whitespace(#[trigger] s[i]) by {
            assert(white()(s[i]));
        }
        assert(!white()(s[to - 1]));
    } else {
        assert forall|i: int| 0 <= i < s.len() implies is_whitespace(#[trigger] s[i]) by {
            assert(!not_white()(s[i]));
        }
        assert(to <= s.len());
    }
}

proof fn lemma_words(s: Seq<char>, from: int, k: int)
    requires
        0 <= from <= s.len(),
        0 <= k < words_from(s, from).len(),
    ensures
        words_from(s, from)[k].len() > 0,
        forall|i: int|
            0 <= i < words_from(s, from)[k].len() ==> !is_whitespace(
                #[trigger] words_from(s, from)[k][i],
            ),
    decreases s.len() - from,
{
    let a = scan(s, not_white(), from);
    let b = scan(s, white(), a);
    lemma_scan(s, not_white(), from);
    lemma_scan(s, white(), a);
    if k == 0 {
        let word = words_from(s, from)[0];
        assert(word == s.subrange(a, b));
        assert forall|i: int| 0 <= i < word.len() implies !is_whitespace(#[trigger] word[i]) by {
            assert(!white()(s[a + i]));
        }
    } else {
        assert(words_from(s, from)[k] == words_from(s, b)[k - 1]);
        lemma_words(s, b, k - 1);
    }
}

/// A word has at least one character and no white space in it.
pub proof fn law_words_hold_no_white_space(s: Seq<char>, k: int)
    requires
        0 <= k < words(s).len(),
    ensures
        words(s)[k].len() > 0,
        forall|i: int| 0 <= i < words(s)[k].len() ==> !is_whitespace(#[trigger] words(s)[k][i]),
{
    lemma_words(s, 0, k);
}

/// Two words with a space between them are two words.
pub proof fn law_spaces_part_words(first: Seq<char>, second: Seq<char>)
    requires
        first.len() > 0,
        second.len() > 0,
        forall|i: int| 0 <= i < first.len() ==> !is_whitespace(#[trigger] first[i]),
        forall|i: int| 0 <= i < second.len() ==> !is_whitespace(#[trigger] second[i]),
    ensures
        words(first + seq![' '] + second) == seq![first, second],
{
    let s = first + seq![' '] + second;
    let n = first.len() as int;
    assert(s[n] == ' ');
    assert(s[0] == first[0]);
    assert(scan(s, not_white(), 0) == 0);
    lemma_scan(s, white(), 0);
    let b = scan(s, white(), 0);
    assert(b == n) by {
        if b < n {
            assert(s[b] == first[b]);
            assert(white()(s[b]));
        }
        if b > n {
            assert(!white()(s[n]));
        }
    }
    assert(s.subrange(0, n) =~= first);
    lemma_scan(s, not_white(), n);
    let a = scan(s, not_white(), n);
    assert(a == n + 1) by {
        assert(s[n + 1] == second[0]);
        if a == n {
            assert(not_white()(s[n]));
        }
        if a > n + 1 {
            assert(!not_white()(s[n + 1]));
        }
    }
    lemma_scan(s, white(), a);
    let e = scan(s, white(), a);
    assert(e == s.len()) by {
        if e < s.len() {
            assert(s[e] == second[e - n - 1]);
            assert(white()(s[e]));
        }
    }
    assert(s.subrange(a, e) =~= second);
    assert(words_from(s, e) =~= Seq::empty());
    assert(words_from(s, n) =~= seq![second]);
    assert(words_from(s, 0) =~= seq![first, second]);
}

// ---- Lines ----

proof fn lemma_lines_of_rest(s: Seq<char>, from: int)
    requires
        0 <= from <= s.len(),
    ensures
        lines_from(s, from) == lines(s.skip(from)),
    decreases s.len() - from,
{
    let rest = s.skip(from);
    lemma_scan_of_rest(s, from, 0);
    let at = scan(s, is_char('\n'), from);
    lemma_scan(s, is_char('\n'), from);
    if at < s.len() {
        lemma_lines_of_rest(s, at + 1);
        lemma_lines_of_rest(rest, at - from + 1);
        assert(rest.skip(at - from + 1) =~= s.skip(at + 1));
        assert(rest.subrange(0, at - from) =~= s.subrange(from, at));
    } else if from < s.len() {
        assert(rest.skip(0) =~= s.skip(from));
    }
}

proof fn lemma_scan_of_rest(s: Seq<char>, from: int, i: int)
    requires
        0 <= from <= s.len(),
        0 <= i <= s.len() - from,
    ensures
        scan(s.skip(from), is_char('\n'), i) == scan(s, is_char('\n'), from + i) - from,
    decreases s.len() - from - i,
{
    if i < s.len() - from {
        assert(s.skip(from)[i] == s[from + i]);
        if s[from + i] != '\n' {
            lemma_scan_of_rest(s, from, i + 1);
        }
    }
}

/// A line ends at the line feed, or at a carriage return right before it; what
/// comes behind the line feed are the other lines. A text without one is a line,
/// and an empty text has none.
pub proof fn law_lines_end_at_line_feeds(line: Seq<char>, rest: Seq<char>)
    requires
        !line.contains('\n'),
    ensures
        lines(line + seq!['\n'] + rest) == seq![without_return(line)] + lines(rest),
        line.len() > 0 ==> lines(line) == seq![line],
        lines(Seq::empty()) == Seq::<Seq<char>>::empty(),
        without_return(line + seq!['\r']) == line,
        line.len() == 0 || line.last() != '\r' ==> without_return(line) == line,
{
    let s = line + seq!['\n'] + rest;
    let n = line.len() as int;
    assert forall|i: int| 0 <= i < n implies #[trigger] line[i] != '\n' by {
        assert(line.contains(line[i]));
    }
    lemma_scan(s, is_char('\n'), 0);
    let at = scan(s, is_char('\n'), 0);
    assert(s[n] == '\n');
    assert(at == n) by {
        if at < n {
            assert(s[at] == line[at]);
            assert(is_char('\n')(s[at]));
        }
        if at > n {
            assert(!is_char('\n')(s[n]));
        }
    }
    lemma_lines_of_rest(s, n + 1);
    assert(s.skip(n + 1) =~= rest);
    assert(s.subrange(0, n) =~= line);
    lemma_scan(line, is_char('\n'), 0);
    let end = scan(line, is_char('\n'), 0);
    if end < n {
        assert(is_char('\n')(line[end]));
    }
    assert(line.skip(0) =~= line);
    assert((line + seq!['\r']).drop_last() =~= line);
}

// ---- Numbers ----

/// A number is written in digits that are read back as it, without a zero in
/// front.
pub proof fn law_numbers_are_read_back(n: nat)
    ensures
        decimal(n).len() > 0,
        all_digits(decimal(n)),
        decimal_value(decimal(n)) == n,
        n > 0 ==> decimal(n)[0] != '0',
        parsed_number(decimal(n), n) == Some(n),
    decreases n,
{
    let s = decimal(n);
    if n < 10 {
        assert(s.drop_last() =~= Seq::empty());
        assert(decimal_value(Seq::<char>::empty()) == 0);
        assert(s.last() == digit(n));
        assert(s.last() as int == n + '0' as int);
        assert(all_digits(s));
    } else {
        law_numbers_are_read_back(n / 10);
        let before = decimal(n / 10);
        assert(s.drop_last() =~= before);
        assert(s.last() as int == n % 10 + '0' as int);
        assert(s[0] == before[0]);
        assert forall|i: int| 0 <= i < s.len() implies is_digit(#[trigger] s[i]) by {
            if i < before.len() {
                assert(s[i] == before[i]);
            }
        }
    }
    assert(s[0] != '+') by {
        assert(is_digit(s[0]));
    }
}

// ---- The order of texts ----

proof fn lemma_before(a: Seq<char>, b: Seq<char>, i: int, k: int)
    requires
        0 <= i <= k,
        k <= a.len(),
        k <= b.len(),
        forall|j: int| 0 <= j < k ==> #[trigger] a[j] == b[j],
    ensures
        k < a.len() && k < b.len() && a[k] < b[k] ==> before_from(a, b, i),
        k < a.len() && k < b.len() && a[k] > b[k] ==> !before_from(a, b, i),
        k == a.len() && k < b.len() ==> before_from(a, b, i),
        k == b.len() ==> !before_from(a, b, i),
    decreases k - i,
{
    if i < k {
        assert(a[i] == b[i]);
        lemma_before(a, b, i + 1, k);
    }
}

/// Of two texts the one comes first whose character is smaller where they first
/// differ; one that goes on where the other ends comes later.
pub proof fn law_texts_are_ordered_by_their_first_difference(a: Seq<char>, b: Seq<char>, k: int)
    requires
        0 <= k <= a.len(),
        k <= b.len(),
        forall|j: int| 0 <= j < k ==> #[trigger] a[j] == b[j],
    ensures
        k < a.len() && k < b.len() && a[k] != b[k] ==> (text_before(a, b) <==> a[k] < b[k]),
        k == a.len() && k < b.len() ==> text_before(a, b),
        k == b.len() ==> !text_before(a, b),
{
    lemma_before(a, b, 0, k);
}

// ---- Paths and lists ----

/// The last name of a path is what stands behind its last slash or backslash.
pub proof fn law_the_last_name_of_a_path(folder: Seq<char>, name: Seq<char>)
    requires
        !name.contains('/'),
        !name.contains('\\'),
    ensures
        last_component(folder + seq!['/'] + name) == name,
        last_component(folder + seq!['\\'] + name) == name,
        last_component(name) == name,
{
    lemma_last_name(folder + seq!['/'], name);
    lemma_last_name(folder + seq!['\\'], name);
    lemma_last_name(Seq::empty(), name);
    assert(Seq::<char>::empty() + name =~= name);
}

proof fn lemma_last_name(folder: Seq<char>, name: Seq<char>)
    requires
        !name.contains('/'),
        !name.contains('\\'),
        folder.len() > 0 ==> folder.last() == '/' || folder.last() == '\\',
    ensures
        last_component(folder + name) == name,
{
    let path = folder + name;
    let keep = |c: char| !is_separator(c);
    lemma_scan_back(path, keep, path.len() as int);
    let at = scan_back(path, keep, path.len() as int);
    assert(at == folder.len()) by {
        if at > folder.len() {
            assert(path[at - 1] == name[at - 1 - folder.len()]);
            assert(name.contains(name[at - 1 - folder.len()]));
            assert(!keep(path[at - 1]));
        }
        if at < folder.len() {
            assert(path[folder.len() - 1] == folder.last());
            assert(keep(path[folder.len() - 1]));
        }
    }
    assert(path.skip(folder.len() as int) =~= name);
}

/// A list is joined by what is put between its items, and by nothing at its ends.
pub proof fn law_lists_are_joined_between_their_items(
    a: Seq<char>,
    b: Seq<char>,
    c: Seq<char>,
    sep: Seq<char>,
)
    ensures
        joined(seq![a], sep, 1) == a,
        joined(seq![a, b], sep, 2) == a + sep + b,
        joined(seq![a, b, c], sep, 3) == a + sep + b + sep + c,
        joined(Seq::empty(), sep, 0) == Seq::<char>::empty(),
{
    reveal_with_fuel(joined, 4);
}

// ---- Columns ----

proof fn lemma_fitting_end_is_maximal(text: Seq<char>, at: int, room: int)
    requires
        0 <= at <= text.len(),
        room >= 0,
    ensures
        ({
            let end = fitting_end(text, at, room);
            &&& at <= end <= text.len()
            &&& end < text.len() ==> lead_columns(text, at, end) + shown_columns(text[end]) > room
            &&& lead_columns(text, at, end) <= room
        }),
    decreases text.len() - at,
{
    if at < text.len() && shown_columns(text[at]) <= room {
        lemma_fitting_end_is_maximal(text, at + 1, room - shown_columns(text[at]));
    }
}

/// The columns of `text[from..to]`.
pub open spec fn lead_columns(text: Seq<char>, from: int, to: int) -> nat
    decreases to - from,
{
    if from < to {
        shown_columns(text[from]) + lead_columns(text, from + 1, to)
    } else {
        0
    }
}

/// A text that is too wide is cut to its longest beginning that leaves a column
/// for the dots behind it.
pub proof fn law_wide_texts_keep_their_beginning(text: Seq<char>, max: usize)
    requires
        crate::columns::columns(text) > max,
        max > 0,
    ensures
        ({
            let cut = truncated(text, max);
            let kept = cut.len() - 1;
            &&& 0 <= kept <= text.len()
            &&& cut.last() == '…'
            &&& cut.take(kept) == text.take(kept)
            &&& lead_columns(text, 0, kept) <= max - 1
            &&& kept < text.len() ==> lead_columns(text, 0, kept) + shown_columns(text[kept]) > max
                - 1
        }),
{
    lemma_fitting_end_is_maximal(text, 0, max - 1);
    let end = fitting_end(text, 0, max - 1);
    assert(truncated(text, max).take(end) =~= text.take(end));
}

proof fn lemma_fitting_start(text: Seq<char>, to: int, room: int)
    requires
        0 <= to <= text.len(),
    ensures
        0 <= fitting_start(text, to, room) <= to,
    decreases to,
{
    if 0 < to && shown_columns(text[to - 1]) <= room {
        lemma_fitting_start(text, to - 1, room - shown_columns(text[to - 1]));
    }
}

/// A path that is too wide keeps its end, behind the dots; what is typed into a
/// field that is too narrow is shown to its end.
pub proof fn law_wide_paths_keep_their_end(label: Seq<char>, max: usize)
    ensures
        crate::columns::columns(label) > max && max > 0 ==> tail_of(label, max).len() > 0
            && tail_of(label, max)[0] == '…' && exists|from: int|
            0 <= from <= label.len() && tail_of(label, max).skip(1) == #[trigger] label.skip(from),
        crate::columns::columns(label) <= max ==> tail_of(label, max) == label,
        exists|from: int|
            0 <= from <= label.len() && input_end(label, max) == #[trigger] label.skip(from),
{
    lemma_fitting_start(label, label.len() as int, max - 1);
    lemma_fitting_start(label, label.len() as int, max as int);
    let from = fitting_start(label, label.len() as int, max - 1);
    assert((seq!['…'] + label.skip(from)).skip(1) =~= label.skip(from));
}

// ---- Areas ----

/// A cell lies in an area where it lies between its edges, the left and the upper
/// one counted in and the others not; the collapse button is the last four
/// columns of the last line.
pub proof fn law_cells_lie_between_the_edges(area: Area, x: u16, y: u16, width: u16, height: u16)
    ensures
        in_area(area, x, y) <==> area.x <= x && x - area.x < area.width && area.y <= y && y - area.y
            < area.height,
        area.width == 0 || area.height == 0 ==> !in_area(area, x, y),
        on_collapse_button(x, y, width, height) <==> height > 0 && y + 1 == height && x >= width
            - 4,
{
}

proof fn lemma_pieces_of_rest(s: Seq<char>, c: char, from: int)
    requires
        0 <= from <= s.len(),
    ensures
        pieces_from(s, c, from) == pieces(s.skip(from), c),
    decreases s.len() - from,
{
    let rest = s.skip(from);
    let at = scan(s, is_char(c), from);
    let own = scan(rest, is_char(c), 0);
    lemma_scan(s, is_char(c), from);
    lemma_scan(rest, is_char(c), 0);
    assert(own == at - from) by {
        if own < at - from {
            assert(rest[own] == s[from + own]);
        }
        if own > at - from && at < s.len() {
            assert(rest[at - from] == s[at]);
        }
    }
    if at < s.len() {
        lemma_pieces_of_rest(s, c, at + 1);
        lemma_pieces_of_rest(rest, c, own + 1);
        assert(rest.skip(own + 1) =~= s.skip(at + 1));
        assert(rest.subrange(0, own) =~= s.subrange(from, at));
    } else {
        assert(rest.skip(0) =~= rest);
    }
}

/// A text is cut at each of the characters: what stands before the first one,
/// and then the pieces of what stands behind it. Without one it is one piece.
pub proof fn law_texts_are_cut_at_each_character(first: Seq<char>, rest: Seq<char>, c: char)
    requires
        !first.contains(c),
    ensures
        pieces(first, c) == seq![first],
        pieces(first + seq![c] + rest, c) == seq![first] + pieces(rest, c),
{
    let s = first + seq![c] + rest;
    lemma_scan(first, is_char(c), 0);
    let own = scan(first, is_char(c), 0);
    if own < first.len() {
        assert(first.contains(first[own]));
    }
    assert(first.skip(0) =~= first);
    lemma_scan(s, is_char(c), 0);
    let at = scan(s, is_char(c), 0);
    if at < first.len() {
        assert(s[at] == first[at]);
        assert(first.contains(first[at]));
    }
    if at > first.len() {
        assert(s[first.len() as int] == c);
    }
    assert(at == first.len());
    lemma_pieces_of_rest(s, c, at + 1);
    assert(s.skip(at + 1) =~= rest);
    assert(s.subrange(0, at) =~= first);
}

} // verus!
