//! How many terminal columns a text takes.

use vstd::prelude::*;

verus! {

/// The columns that a text takes on a terminal.
pub uninterp spec fn columns(text: Seq<char>) -> usize;

/// Letters, digits, punctuation and the space of ASCII.
pub open spec fn is_printable_ascii(text: Seq<char>) -> bool {
    forall|i: int| 0 <= i < text.len() ==> ' ' <= #[trigger] text[i] <= '~'
}

/// `ratatui::text::Span::width` of an unstyled span, which is the display width
/// that the `unicode-width` crate gives the text. It depends on the text alone.
/// Each printable ASCII character takes one column, and none of that crate's
/// joining rules applies among them.
#[verifier::external_body]
pub(crate) fn text_width(text: &str) -> (res: usize)
    ensures
        res == columns(text@),
        is_printable_ascii(text@) ==> res == text@.len(),
{
    ratatui::text::Span::raw(text).width()
}

/// The columns that a single character takes; `None` for a control character.
pub uninterp spec fn char_columns(c: char) -> Option<usize>;

/// `unicode_width::UnicodeWidthChar::width`, a function of the character alone:
/// the columns it takes, `None` for control characters.
#[verifier::external_body]
pub(crate) fn char_width(c: char) -> (res: Option<usize>)
    ensures
        res == char_columns(c),
{
    unicode_width::UnicodeWidthChar::width(c)
}

/// The columns of a character, none for a control character.
pub open spec fn shown_columns(c: char) -> nat {
    match char_columns(c) {
        Some(n) => n as nat,
        None => 0,
    }
}

fn shown_width(c: char) -> (res: usize)
    ensures
        res == shown_columns(c),
{
    match char_width(c) {
        Some(n) => n,
        None => 0,
    }
}

// ---- Cutting text to a width ----

/// The end of the longest part of `text` from `at` on whose characters take at
/// most `room` columns.
pub open spec fn fitting_end(text: Seq<char>, at: int, room: int) -> int
    decreases text.len() - at,
{
    if 0 <= at < text.len() && shown_columns(text[at]) <= room {
        fitting_end(text, at + 1, room - shown_columns(text[at]))
    } else {
        at
    }
}

/// The start of the longest part of `text` that ends at `to` and whose
/// characters take at most `room` columns.
pub open spec fn fitting_start(text: Seq<char>, to: int, room: int) -> int
    decreases to,
{
    if 0 < to <= text.len() && shown_columns(text[to - 1]) <= room {
        fitting_start(text, to - 1, room - shown_columns(text[to - 1]))
    } else {
        to
    }
}

/// The part that fits ends in the text.
pub proof fn lemma_fitting_end(text: Seq<char>, at: int, room: int)
    requires
        0 <= at <= text.len(),
    ensures
        at <= fitting_end(text, at, room) <= text.len(),
    decreases text.len() - at,
{
    if at < text.len() && shown_columns(text[at]) <= room {
        lemma_fitting_end(text, at + 1, room - shown_columns(text[at]));
    }
}

/// How many characters from the start take at most `room` columns.
pub fn fitting_prefix(chars: &[char], room: usize) -> (res: usize)
    ensures
        res == fitting_end(chars@, 0, room as int),
        res <= chars@.len(),
{
    let mut left: usize = room;
    let mut at: usize = 0;
    while at < chars.len() && shown_width(chars[at]) <= left
        invariant
            at <= chars@.len(),
            fitting_end(chars@, at as int, left as int) == fitting_end(chars@, 0, room as int),
        decreases chars@.len() - at,
    {
        left -= shown_width(chars[at]);
        at += 1;
    }
    at
}

/// `text` where it fits in `max` columns, else as much of its start as leaves a
/// column for an ellipsis.
pub open spec fn truncated(text: Seq<char>, max: usize) -> Seq<char> {
    if columns(text) <= max {
        text
    } else if max == 0 {
        Seq::empty()
    } else {
        text.take(fitting_end(text, 0, max - 1)).push('…')
    }
}

pub fn truncate_to(text: &str, max: usize) -> (res: String)
    ensures
        res@ == truncated(text@, max),
{
    if text_width(text) <= max {
        return text.to_owned();
    }
    if max == 0 {
        return String::new();
    }
    let chars: Vec<char> = crate::text::to_chars(text);
    let to: usize = fitting_prefix(chars.as_slice(), max - 1);
    let mut out: String = crate::text::slice_to_string(chars.as_slice(), 0, to);
    assert(chars@.subrange(0, to as int) =~= text@.take(to as int));
    out.push('…');
    out
}

/// `label` where it fits in `max` columns, else an ellipsis and as much of its
/// end as fits beside it.
pub open spec fn tail_of(label: Seq<char>, max: usize) -> Seq<char> {
    if columns(label) <= max {
        label
    } else if max == 0 {
        Seq::empty()
    } else {
        seq!['…'] + label.skip(fitting_start(label, label.len() as int, max - 1))
    }
}

/// Cut the start of a path so that its file name stays visible.
pub fn truncate_path_tail(label: &str, max: usize) -> (res: String)
    ensures
        res@ == tail_of(label@, max),
{
    if text_width(label) <= max {
        return label.to_owned();
    }
    if max == 0 {
        return String::new();
    }
    let chars: Vec<char> = crate::text::to_chars(label);
    let mut room: usize = max - 1;
    let mut to: usize = chars.len();
    while to > 0 && shown_width(chars[to - 1]) <= room
        invariant
            to <= chars@.len(),
            fitting_start(chars@, to as int, room as int) == fitting_start(
                chars@,
                chars@.len() as int,
                max - 1,
            ),
        decreases to,
    {
        room -= shown_width(chars[to - 1]);
        to -= 1;
    }
    let mut out: String = "…".to_owned();
    proof {
        reveal_strlit("…");
        assert("…"@ =~= seq!['…']);
        assert(chars@.skip(to as int) =~= chars@.subrange(to as int, chars@.len() as int));
    }
    out.append(crate::text::slice_to_string(chars.as_slice(), to, chars.len()).as_str());
    out
}

/// As much of the end of an input as fits in `max` columns: where the cursor is.
pub open spec fn input_end(value: Seq<char>, max: usize) -> Seq<char> {
    value.skip(fitting_start(value, value.len() as int, max as int))
}

pub fn input_tail(value: &str, max: usize) -> (res: String)
    ensures
        res@ == input_end(value@, max),
{
    let chars: Vec<char> = crate::text::to_chars(value);
    let mut room: usize = max;
    let mut to: usize = chars.len();
    while to > 0 && shown_width(chars[to - 1]) <= room
        invariant
            to <= chars@.len(),
            fitting_start(chars@, to as int, room as int) == fitting_start(
                chars@,
                chars@.len() as int,
                max as int,
            ),
        decreases to,
    {
        room -= shown_width(chars[to - 1]);
        to -= 1;
    }
    assert(chars@.skip(to as int) =~= chars@.subrange(to as int, chars@.len() as int));
    crate::text::slice_to_string(chars.as_slice(), to, chars.len())
}

/// The columns of the characters of `text` from `from` up to `to`, one by one.
pub open spec fn columns_between(text: Seq<char>, from: int, to: int) -> nat
    decreases to - from,
{
    if 0 <= from < to <= text.len() {
        columns_between(text, from, to - 1) + shown_columns(text[to - 1])
    } else {
        0
    }
}

/// A truncated path is the path itself, nothing, or an ellipsis before an end
/// of it that takes, with the ellipsis, no more columns than were asked for.
pub proof fn law_truncated_paths_end_like_the_path(label: Seq<char>, max: usize)
    ensures
        ({
            let shown = tail_of(label, max);
            ||| shown == label
            ||| shown.len() == 0
            ||| exists|from: int|
                {
                    &&& 0 <= from <= label.len()
                    &&& #[trigger] columns_between(label, from, label.len() as int) + 1 <= max
                    &&& shown == seq!['…'] + label.skip(from)
                }
        }),
{
    if columns(label) > max && max > 0 {
        let end = label.len() as int;
        lemma_fitting_start(label, end, max - 1);
        let from = fitting_start(label, end, max - 1);
        assert(columns_between(label, from, end) + 1 <= max);
    }
}

proof fn lemma_fitting_start(text: Seq<char>, to: int, room: int)
    requires
        0 <= to <= text.len(),
        room >= 0,
    ensures
        0 <= fitting_start(text, to, room) <= to,
        columns_between(text, fitting_start(text, to, room), to) <= room,
    decreases to,
{
    if 0 < to && shown_columns(text[to - 1]) <= room {
        let left = room - shown_columns(text[to - 1]);
        lemma_fitting_start(text, to - 1, left);
    }
}

/// `width` less the parts of a line that are used up, never below zero.
pub open spec fn left_over(width: int, used: int) -> nat {
    if width > used {
        (width - used) as nat
    } else {
        0
    }
}

/// The columns that `a`, `b`, `c` and `d` leave of `width`.
pub fn columns_left(width: usize, a: usize, b: usize, c: usize, d: usize) -> (res: usize)
    ensures
        res == left_over(width as int, a + b + c + d),
{
    width.saturating_sub(a).saturating_sub(b).saturating_sub(c).saturating_sub(d)
}

pub open spec fn repeated(c: char, n: nat) -> Seq<char> {
    Seq::new(n, |i: int| c)
}

/// `n` times the character `c`.
pub fn repeat(c: char, n: usize) -> (res: String)
    ensures
        res@ == repeated(c, n as nat),
{
    let mut out: String = String::new();
    let mut i: usize = 0;
    assert(out@ =~= repeated(c, 0));
    while i < n
        invariant
            i <= n,
            out@ == repeated(c, i as nat),
        decreases n - i,
    {
        out.push(c);
        i += 1;
        assert(out@ =~= repeated(c, i as nat));
    }
    out
}

} // verus!
