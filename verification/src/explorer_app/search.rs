//! Search through file contents: what a line holds of the query, and the part
//! of it that is shown.

use crate::columns::{columns, fitting_end, fitting_prefix, lemma_fitting_end, text_width};
use crate::explorer_app::patterns::{find_all, has_match, regex_finds, regex_source};
use crate::spans::{empty_line, line_view, piece, put, Span, SpanView, Tone};
use crate::text::{
    find_from, find_str, lowercase, not_white, scan, slice_to_string, to_chars, to_lowercase, trim,
    trim_bounds,
};
use crate::utf8::{
    byte_len, byte_offsets, bytes_before, char_at_offset, chars_before, chars_until, is_boundary,
    lemma_bytes_increase, lemma_bytes_of_part, lemma_bytes_of_prefix, lemma_chars_before,
};
use vstd::prelude::*;

verus! {

#[derive(Clone, Copy, PartialEq, Eq, Structural, Debug)]
pub struct SearchOptions {
    pub match_case: bool,
    pub whole_word: bool,
    pub regex: bool,
}

impl Default for SearchOptions {
    fn default() -> (res: SearchOptions)
        ensures
            !res.match_case && !res.whole_word && !res.regex,
    {
        SearchOptions { match_case: false, whole_word: false, regex: false }
    }
}

// ---- Words ----

/// Whether a character is a letter or a number.
pub uninterp spec fn alphanumeric(c: char) -> bool;

/// `char::is_alphanumeric`, a function of the character alone. Which characters
/// these are follows the tables of Unicode and is not spelled out.
pub assume_specification[ char::is_alphanumeric ](c: char) -> (res: bool)
    ensures
        res == alphanumeric(c),
;

pub open spec fn is_word_char(c: char) -> bool {
    alphanumeric(c) || c == '_'
}

/// A letter, a number or an underscore: part of a word.
pub fn search_word_char(character: char) -> (res: bool)
    ensures
        res == is_word_char(character),
{
    character.is_alphanumeric() || character == '_'
}

/// Whether `s[start..end]` is no part of a longer word, where that is asked for.
pub open spec fn stands_alone(s: Seq<char>, start: int, end: int, whole_word: bool) -> bool {
    whole_word ==> {
        &&& !(0 < start <= s.len() && is_word_char(s[start - 1]))
        &&& !(0 <= end < s.len() && is_word_char(s[end]))
    }
}

fn word_boundary_matches(haystack: &[char], start: usize, end: usize, whole_word: bool) -> (res:
    bool)
    requires
        start <= end <= haystack@.len(),
    ensures
        res == stands_alone(haystack@, start as int, end as int, whole_word),
{
    if !whole_word {
        return true;
    }
    if start > 0 && search_word_char(haystack[start - 1]) {
        return false;
    }
    !(end < haystack.len() && search_word_char(haystack[end]))
}

// ---- The plain text of a query ----

/// A part of a line as a range of bytes.
pub open spec fn byte_range(s: Seq<char>, from: int, to: int) -> (usize, usize) {
    (bytes_before(s, from) as usize, bytes_before(s, to) as usize)
}

/// Where `query` stands in `line` from position `from` on, letter for letter.
pub open spec fn exact_ranges(
    line: Seq<char>,
    query: Seq<char>,
    whole_word: bool,
    from: int,
) -> Seq<(usize, usize)>
    decreases line.len() - from,
{
    let at = find_from(line, query, from);
    if query.len() == 0 || from < 0 || at < from || at + query.len() > line.len() {
        Seq::empty()
    } else {
        let rest = exact_ranges(line, query, whole_word, at + query.len());
        if stands_alone(line, at, at + query.len(), whole_word) {
            seq![byte_range(line, at, at + query.len())] + rest
        } else {
            rest
        }
    }
}

/// For each character of the line in lower case, the character of the line that
/// it came from.
pub open spec fn sources_from(line: Seq<char>, i: int) -> Seq<int>
    decreases line.len() - i,
{
    if 0 <= i < line.len() {
        Seq::new(lowercase(seq![line[i]]).len(), |k: int| i) + sources_from(line, i + 1)
    } else {
        Seq::empty()
    }
}

/// The range of the line that `low[at..at + n]` came from.
pub open spec fn source_range(line: Seq<char>, sources: Seq<int>, at: int, n: int) -> (
    usize,
    usize,
) {
    byte_range(line, sources[at], sources[at + n - 1] + 1)
}

/// One range more, unless it is the last one again.
pub open spec fn with_range(ranges: Seq<(usize, usize)>, range: (usize, usize)) -> Seq<
    (usize, usize),
> {
    if ranges.len() > 0 && ranges.last() == range {
        ranges
    } else {
        ranges.push(range)
    }
}

/// Where `needle` stands in `low` from position `from` on, as ranges of the
/// line, behind the ranges that were found before.
pub open spec fn folded_ranges(
    line: Seq<char>,
    low: Seq<char>,
    needle: Seq<char>,
    whole_word: bool,
    from: int,
    found: Seq<(usize, usize)>,
) -> Seq<(usize, usize)>
    decreases low.len() - from,
{
    let at = find_from(low, needle, from);
    if needle.len() == 0 || from < 0 || at < from || at + needle.len() > low.len() {
        found
    } else {
        let next = at + needle.len();
        if stands_alone(low, at, next, whole_word) {
            let range = source_range(line, sources_from(line, 0), at, needle.len() as int);
            folded_ranges(line, low, needle, whole_word, next, with_range(found, range))
        } else {
            folded_ranges(line, low, needle, whole_word, next, found)
        }
    }
}

/// Where the text of a query stands in a line. Without regard to case the line
/// is searched in lower case; nothing is found where that cannot be traced back
/// character by character.
pub open spec fn literal_ranges(
    line: Seq<char>,
    query: Seq<char>,
    options: SearchOptions,
) -> Seq<(usize, usize)> {
    if query.len() == 0 {
        Seq::empty()
    } else if options.match_case {
        exact_ranges(line, query, options.whole_word, 0)
    } else if sources_from(line, 0).len() != lowercase(line).len() {
        Seq::empty()
    } else {
        folded_ranges(
            line,
            lowercase(line),
            lowercase(query),
            options.whole_word,
            0,
            Seq::empty(),
        )
    }
}

fn exact_match_ranges(line: &str, query: &[char], whole_word: bool) -> (res: Vec<(usize, usize)>)
    requires
        query@.len() > 0,
    ensures
        res@ == exact_ranges(line@, query@, whole_word, 0),
{
    let chars: Vec<char> = to_chars(line);
    let offsets: Vec<usize> = byte_offsets(line);
    let mut out: Vec<(usize, usize)> = Vec::new();
    let mut from: usize = 0;
    assert(out@ + exact_ranges(line@, query@, whole_word, 0) =~= exact_ranges(
        line@,
        query@,
        whole_word,
        0,
    ));
    loop
        invariant_except_break
            from <= chars@.len(),
            chars@ == line@,
            query@.len() > 0,
            offsets@.len() == line@.len() + 1,
            forall|i: int| 0 <= i <= line@.len() ==> #[trigger] offsets@[i] == bytes_before(
                line@,
                i,
            ),
            out@ + exact_ranges(line@, query@, whole_word, from as int) == exact_ranges(
                line@,
                query@,
                whole_word,
                0,
            ),
        ensures
            out@ == exact_ranges(line@, query@, whole_word, 0),
        decreases chars@.len() - from,
    {
        match find_str(chars.as_slice(), query, from) {
            None => {
                assert(exact_ranges(line@, query@, whole_word, from as int) =~= Seq::empty());
                assert(out@ =~= exact_ranges(line@, query@, whole_word, 0));
                break;
            },
            Some(at) => {
                let next: usize = at + query.len();
                let ghost before = out@;
                let ghost rest = exact_ranges(line@, query@, whole_word, next as int);
                if word_boundary_matches(chars.as_slice(), at, next, whole_word) {
                    out.push((offsets[at], offsets[next]));
                    assert(out@ + rest =~= before + (seq![byte_range(line@, at as int, next as int)]
                        + rest));
                }
                from = next;
            },
        }
    }
    out
}

proof fn lemma_sources(line: Seq<char>, i: int, k: int)
    requires
        0 <= i <= line.len(),
        0 <= k < sources_from(line, i).len(),
    ensures
        i <= sources_from(line, i)[k] < line.len(),
    decreases line.len() - i,
{
    if i < line.len() {
        let n = lowercase(seq![line[i]]).len();
        if k >= n {
            lemma_sources(line, i + 1, k - n);
        }
    }
}

proof fn lemma_sources_increase(line: Seq<char>, i: int, j: int, k: int)
    requires
        0 <= i <= line.len(),
        0 <= j <= k < sources_from(line, i).len(),
    ensures
        sources_from(line, i)[j] <= sources_from(line, i)[k],
    decreases line.len() - i,
{
    if i < line.len() {
        let n = lowercase(seq![line[i]]).len();
        lemma_sources(line, i, k);
        if j >= n {
            lemma_sources_increase(line, i + 1, j - n, k - n);
        }
    }
}

/// For each character of the line in lower case, the character of the line that
/// it came from; `None` once there are more than `limit` of them.
fn lowered_sources(line: &str, limit: usize) -> (res: Option<Vec<usize>>)
    ensures
        match res {
            Some(list) => {
                &&& list@.len() <= limit
                &&& list@.len() == sources_from(line@, 0).len()
                &&& forall|k: int| 0 <= k < list@.len() ==> #[trigger] list@[k] == sources_from(
                    line@,
                    0,
                )[k]
            },
            None => sources_from(line@, 0).len() > limit,
        },
{
    let chars: Vec<char> = to_chars(line);
    let mut out: Vec<usize> = Vec::new();
    let mut i: usize = 0;
    while i < chars.len()
        invariant
            i <= chars@.len(),
            chars@ == line@,
            out@.len() <= limit,
            out@.len() + sources_from(line@, i as int).len() == sources_from(line@, 0).len(),
            forall|k: int| 0 <= k < out@.len() ==> #[trigger] out@[k] == sources_from(line@, 0)[k],
            forall|k: int|
                0 <= k < sources_from(line@, i as int).len() ==> #[trigger] sources_from(
                    line@,
                    i as int,
                )[k] == sources_from(line@, 0)[out@.len() + k],
        decreases chars@.len() - i,
    {
        let mut one: String = String::new();
        one.push(chars[i]);
        assert(one@ =~= seq![line@[i as int]]);
        let lowered: Vec<char> = to_chars(to_lowercase(one.as_str()).as_str());
        let ghost n = lowercase(seq![line@[i as int]]).len();
        let ghost all = sources_from(line@, 0);
        let ghost here = sources_from(line@, i as int);
        let ghost rest = sources_from(line@, i + 1);
        let ghost start = out@.len();
        assert(here == Seq::new(n, |k: int| i as int) + rest);
        if lowered.len() > limit - out.len() {
            return None;
        }
        let mut k: usize = 0;
        while k < lowered.len()
            invariant
                k <= lowered@.len(),
                lowered@.len() == n,
                out@.len() == start + k,
                start + n <= limit,
                all == sources_from(line@, 0),
                here == Seq::new(n, |k: int| i as int) + rest,
                start + here.len() == all.len(),
                forall|k: int| 0 <= k < here.len() ==> #[trigger] here[k] == all[start + k],
                forall|k: int| 0 <= k < out@.len() ==> #[trigger] out@[k] == all[k],
            decreases lowered@.len() - k,
        {
            assert(here[k as int] == i);
            out.push(i);
            k += 1;
        }
        assert forall|k: int| 0 <= k < rest.len() implies #[trigger] rest[k] == all[out@.len()
            + k] by {
            assert(here[n + k] == rest[k]);
        }
        i += 1;
    }
    Some(out)
}

fn folded_match_ranges(line: &str, query: &str, whole_word: bool) -> (res: Vec<(usize, usize)>)
    ensures
        res@ == if sources_from(line@, 0).len() != lowercase(line@).len() {
            Seq::empty()
        } else {
            folded_ranges(
                line@,
                lowercase(line@),
                lowercase(query@),
                whole_word,
                0,
                Seq::empty(),
            )
        },
{
    let low: Vec<char> = to_chars(to_lowercase(line).as_str());
    let needle: Vec<char> = to_chars(to_lowercase(query).as_str());
    let mut out: Vec<(usize, usize)> = Vec::new();
    let sources: Vec<usize> = match lowered_sources(line, low.len()) {
        Some(list) => list,
        None => {
            assert(out@ =~= Seq::empty());
            return out;
        },
    };
    if sources.len() != low.len() || needle.len() == 0 {
        assert(out@ =~= Seq::empty());
        return out;
    }
    let offsets: Vec<usize> = byte_offsets(line);
    let count: usize = low.len();
    let bounds: usize = offsets.len();
    let mut from: usize = 0;
    assert(out@ =~= Seq::empty());
    let ghost answer = folded_ranges(line@, low@, needle@, whole_word, 0, Seq::empty());
    loop
        invariant_except_break
            from <= low@.len(),
            count == low@.len(),
            bounds == offsets@.len(),
            needle@.len() > 0,
            low@ == lowercase(line@),
            sources@.len() == low@.len(),
            sources@.len() == sources_from(line@, 0).len(),
            forall|k: int| 0 <= k < sources@.len() ==> #[trigger] sources@[k] == sources_from(
                line@,
                0,
            )[k],
            offsets@.len() == line@.len() + 1,
            forall|i: int| 0 <= i <= line@.len() ==> #[trigger] offsets@[i] == bytes_before(
                line@,
                i,
            ),
            folded_ranges(line@, low@, needle@, whole_word, from as int, out@) == answer,
        ensures
            out@ == answer,
        decreases low@.len() - from,
    {
        match find_str(low.as_slice(), needle.as_slice(), from) {
            None => {
                break;
            },
            Some(at) => {
                let next: usize = at + needle.len();
                if word_boundary_matches(low.as_slice(), at, next, whole_word) {
                    proof {
                        lemma_sources(line@, 0, at as int);
                        lemma_sources(line@, 0, next - 1);
                    }
                    let range: (usize, usize) = (
                        offsets[sources[at]],
                        offsets[sources[next - 1] + 1],
                    );
                    assert(range == source_range(
                        line@,
                        sources_from(line@, 0),
                        at as int,
                        needle@.len() as int,
                    ));
                    let repeated: bool = out.len() > 0 && out[out.len() - 1].0 == range.0
                        && out[out.len() - 1].1 == range.1;
                    if !repeated {
                        out.push(range);
                    }
                }
                from = next;
            },
        }
    }
    out
}

/// Where the text of a query stands in a line.
pub fn literal_match_ranges(line: &str, query: &str, options: SearchOptions) -> (res: Vec<
    (usize, usize),
>)
    ensures
        res@ == literal_ranges(line@, query@, options),
{
    if query.is_empty() {
        let none: Vec<(usize, usize)> = Vec::new();
        assert(none@ =~= Seq::empty());
        return none;
    }
    if options.match_case {
        let wanted: Vec<char> = to_chars(query);
        return exact_match_ranges(line, wanted.as_slice(), options.whole_word);
    }
    folded_match_ranges(line, query, options.whole_word)
}

/// Ranges of bytes that hold something of a text and cut no character of it.
pub open spec fn are_clean(ranges: Seq<(usize, usize)>, s: Seq<char>) -> bool {
    forall|i: int|
        0 <= i < ranges.len() ==> {
            &&& #[trigger] ranges[i].0 < ranges[i].1
            &&& is_boundary(s, ranges[i].0 as int)
            &&& is_boundary(s, ranges[i].1 as int)
        }
}

proof fn lemma_clean_range(s: Seq<char>, from: int, to: int)
    requires
        0 <= from < to <= s.len(),
        byte_len(s) <= usize::MAX,
    ensures
        ({
            let range = byte_range(s, from, to);
            &&& range.0 < range.1
            &&& is_boundary(s, range.0 as int)
            &&& is_boundary(s, range.1 as int)
        }),
{
    lemma_bytes_increase(s, from, to);
    lemma_bytes_increase(s, to, s.len() as int);
    lemma_chars_before(s, from);
    lemma_chars_before(s, to);
}

proof fn lemma_exact_ranges_are_clean(
    line: Seq<char>,
    query: Seq<char>,
    whole_word: bool,
    from: int,
)
    requires
        byte_len(line) <= usize::MAX,
    ensures
        are_clean(exact_ranges(line, query, whole_word, from), line),
    decreases line.len() - from,
{
    let at = find_from(line, query, from);
    if !(query.len() == 0 || from < 0 || at < from || at + query.len() > line.len()) {
        lemma_exact_ranges_are_clean(line, query, whole_word, at + query.len());
        lemma_clean_range(line, at, at + query.len());
    }
}

proof fn lemma_folded_ranges_are_clean(
    line: Seq<char>,
    low: Seq<char>,
    needle: Seq<char>,
    whole_word: bool,
    from: int,
    found: Seq<(usize, usize)>,
)
    requires
        byte_len(line) <= usize::MAX,
        sources_from(line, 0).len() == low.len(),
        are_clean(found, line),
    ensures
        are_clean(folded_ranges(line, low, needle, whole_word, from, found), line),
    decreases low.len() - from,
{
    let at = find_from(low, needle, from);
    if !(needle.len() == 0 || from < 0 || at < from || at + needle.len() > low.len()) {
        let next = at + needle.len();
        let sources = sources_from(line, 0);
        lemma_sources(line, 0, at);
        lemma_sources(line, 0, next - 1);
        lemma_sources_increase(line, 0, at, next - 1);
        lemma_clean_range(line, sources[at], sources[next - 1] + 1);
        let range = source_range(line, sources, at, needle.len() as int);
        lemma_folded_ranges_are_clean(
            line,
            low,
            needle,
            whole_word,
            next,
            with_range(found, range),
        );
        lemma_folded_ranges_are_clean(line, low, needle, whole_word, next, found);
    }
}

/// What a query finds in a line lies in the line, is not empty and cuts no
/// character.
pub proof fn law_found_ranges_are_clean(line: Seq<char>, query: Seq<char>, options: SearchOptions)
    requires
        byte_len(line) <= usize::MAX,
    ensures
        are_clean(literal_ranges(line, query, options), line),
{
    lemma_exact_ranges_are_clean(line, query, options.whole_word, 0);
    if sources_from(line, 0).len() == lowercase(line).len() {
        lemma_folded_ranges_are_clean(
            line,
            lowercase(line),
            lowercase(query),
            options.whole_word,
            0,
            Seq::empty(),
        );
    }
}

// ---- A line ----

/// The ranges from the `i`th on that hold something.
pub open spec fn nonempty_from(ranges: Seq<(usize, usize)>, i: int) -> Seq<(usize, usize)>
    decreases ranges.len() - i,
{
    if 0 <= i < ranges.len() {
        if ranges[i].0 < ranges[i].1 {
            seq![ranges[i]] + nonempty_from(ranges, i + 1)
        } else {
            nonempty_from(ranges, i + 1)
        }
    } else {
        Seq::empty()
    }
}

/// What a regular expression was made from.
pub open spec fn source_of(pattern: Option<&regex::Regex>) -> Option<(Seq<char>, bool)> {
    match pattern {
        Some(re) => Some(regex_source(*re)),
        None => None,
    }
}

/// The parts of a line that a search shows: the matches of the regular
/// expression where there is one, but for the empty ones, else where the text of
/// the query stands.
pub open spec fn line_ranges(
    line: Seq<char>,
    query: Seq<char>,
    options: SearchOptions,
    source: Option<(Seq<char>, bool)>,
) -> Seq<(usize, usize)> {
    match source {
        Some((pattern, ignore_case)) => nonempty_from(regex_finds(pattern, ignore_case, line), 0),
        None => literal_ranges(line, query, options),
    }
}

/// Whether a search finds a line. An empty match finds it too.
pub open spec fn line_matches(
    line: Seq<char>,
    query: Seq<char>,
    options: SearchOptions,
    source: Option<(Seq<char>, bool)>,
) -> bool {
    match source {
        Some((pattern, ignore_case)) => regex_finds(pattern, ignore_case, line).len() > 0,
        None => literal_ranges(line, query, options).len() > 0,
    }
}

pub fn content_line_match_ranges(
    line: &str,
    query: &str,
    options: SearchOptions,
    pattern: Option<&regex::Regex>,
) -> (res: Vec<(usize, usize)>)
    ensures
        res@ == line_ranges(line@, query@, options, source_of(pattern)),
        are_clean(res@, line@),
{
    match pattern {
        Some(re) => {
            let found: Vec<(usize, usize)> = find_all(re, line);
            let mut out: Vec<(usize, usize)> = Vec::new();
            let mut i: usize = 0;
            assert(out@ + nonempty_from(found@, 0) =~= nonempty_from(found@, 0));
            while i < found.len()
                invariant
                    i <= found@.len(),
                    crate::explorer_app::patterns::are_ranges_of(found@, line@),
                    out@ + nonempty_from(found@, i as int) == nonempty_from(found@, 0),
                    are_clean(out@, line@),
                decreases found@.len() - i,
            {
                let ghost before = out@;
                let ghost rest = nonempty_from(found@, i + 1);
                let range: (usize, usize) = found[i];
                if range.0 < range.1 {
                    out.push(range);
                    assert(out@ + rest =~= before + (seq![found@[i as int]] + rest));
                }
                i += 1;
            }
            assert(out@ =~= nonempty_from(found@, 0));
            out
        },
        None => {
            let bytes: usize = crate::utf8::byte_length(line);
            proof {
                law_found_ranges_are_clean(line@, query@, options);
            }
            literal_match_ranges(line, query, options)
        },
    }
}

pub fn content_line_matches(
    line: &str,
    query: &str,
    options: SearchOptions,
    pattern: Option<&regex::Regex>,
) -> (res: bool)
    ensures
        res == line_matches(line@, query@, options, source_of(pattern)),
{
    match pattern {
        Some(re) => has_match(re, line),
        None => {
            let found: Vec<(usize, usize)> = literal_match_ranges(line, query, options);
            found.len() > 0
        },
    }
}

// ---- What is shown of a line ----

/// `s` with a space for every tab.
pub open spec fn untabbed(s: Seq<char>) -> Seq<char> {
    s.map(|i: int, c: char| if c == '\t' { ' ' } else { c })
}

/// The line as it is shown: trimmed, with a space for every tab.
pub open spec fn shown_line(line: Seq<char>) -> Seq<char> {
    untabbed(trim(line))
}

/// The bytes of a line before the first character that is no white space.
pub open spec fn margin(line: Seq<char>) -> nat {
    bytes_before(line, scan(line, not_white(), 0))
}

/// The ranges from the `i`th on, cut to `start..end` and counted from `start`.
pub open spec fn clipped_from(
    ranges: Seq<(usize, usize)>,
    start: int,
    end: int,
    i: int,
) -> Seq<(usize, usize)>
    decreases ranges.len() - i,
{
    if 0 <= i < ranges.len() {
        let rest = clipped_from(ranges, start, end, i + 1);
        let (a, b) = ranges[i];
        if a >= end || b <= start {
            rest
        } else {
            let from = if a < start {
                start
            } else {
                a as int
            };
            let to = if b > end {
                end
            } else {
                b as int
            };
            seq![((from - start) as usize, (to - start) as usize)] + rest
        }
    } else {
        Seq::empty()
    }
}

/// The ranges of a line as ranges of what is shown of it.
pub open spec fn shown_ranges(line: Seq<char>, ranges: Seq<(usize, usize)>) -> Seq<(usize, usize)> {
    if trim(line).len() == 0 {
        Seq::empty()
    } else {
        let start = margin(line) as int;
        clipped_from(ranges, start, start + byte_len(trim(line)), 0)
    }
}

/// Offsets of the line are offsets of what is shown of it, less the margin.
proof fn lemma_shown_boundary(line: Seq<char>, from: int, to: int, offset: int)
    requires
        0 <= from < to <= line.len(),
        trim(line) == line.subrange(from, to),
        is_boundary(line, offset),
        bytes_before(line, from) <= offset <= bytes_before(line, to),
    ensures
        is_boundary(shown_line(line), offset - bytes_before(line, from)),
{
    let k = chars_before(line, offset);
    assert(0 <= k <= line.len() && bytes_before(line, k) == offset);
    if k < from {
        lemma_bytes_increase(line, k, from);
    }
    if k > to {
        lemma_bytes_increase(line, to, k);
    }
    let part = line.subrange(from, to);
    lemma_bytes_of_part(line, from, to, k - from);
    lemma_bytes_of_prefix(part, untabbed(part), k - from);
    lemma_chars_before(untabbed(part), k - from);
}

/// The part of a line that is shown, and what a search has found in it.
pub fn content_hit_context(line: &str, ranges: &[(usize, usize)]) -> (res: (
    String,
    Vec<(usize, usize)>,
))
    ensures
        res.0@ == shown_line(line@),
        res.1@ == shown_ranges(line@, ranges@),
        are_clean(ranges@, line@) ==> are_clean(res.1@, res.0@),
{
    let chars: Vec<char> = to_chars(line);
    let (from, to): (usize, usize) = trim_bounds(chars.as_slice());
    let mut shown: String = String::new();
    let mut out: Vec<(usize, usize)> = Vec::new();
    if from >= to {
        assert(trim(line@).len() == 0);
        assert(shown@ =~= shown_line(line@));
        assert(out@ =~= Seq::empty());
        return (shown, out);
    }
    let mut k: usize = from;
    let ghost part = line@.subrange(from as int, to as int);
    while k < to
        invariant
            from <= k <= to <= chars@.len(),
            chars@ == line@,
            part == line@.subrange(from as int, to as int),
            shown@ == untabbed(part).take(k - from),
        decreases to - k,
    {
        let c: char = chars[k];
        shown.push(if c == '\t' {
            ' '
        } else {
            c
        });
        k += 1;
        assert(shown@ =~= untabbed(part).take(k - from));
    }
    assert(shown@ =~= untabbed(part));
    let offsets: Vec<usize> = byte_offsets(line);
    let start: usize = offsets[from];
    let end: usize = offsets[to];
    proof {
        lemma_bytes_of_part(line@, from as int, to as int, to - from);
        lemma_bytes_increase(line@, from as int, to as int);
        lemma_chars_before(line@, from as int);
        lemma_chars_before(line@, to as int);
    }
    let mut i: usize = 0;
    let ghost all = clipped_from(ranges@, start as int, end as int, 0);
    assert(out@ + clipped_from(ranges@, start as int, end as int, 0) =~= all);
    while i < ranges.len()
        invariant
            i <= ranges@.len(),
            from < to <= line@.len(),
            start == bytes_before(line@, from as int),
            end == bytes_before(line@, to as int),
            start < end,
            trim(line@) == line@.subrange(from as int, to as int),
            shown@ == shown_line(line@),
            is_boundary(line@, start as int),
            is_boundary(line@, end as int),
            all == clipped_from(ranges@, start as int, end as int, 0),
            out@ + clipped_from(ranges@, start as int, end as int, i as int) == all,
            are_clean(ranges@, line@) ==> are_clean(out@, shown@),
        decreases ranges@.len() - i,
    {
        let ghost before = out@;
        let ghost rest = clipped_from(ranges@, start as int, end as int, i + 1);
        let (a, b): (usize, usize) = ranges[i];
        if !(a >= end || b <= start) {
            let low: usize = if a < start {
                start
            } else {
                a
            };
            let high: usize = if b > end {
                end
            } else {
                b
            };
            assert(ranges@[i as int] == (a, b));
            proof {
                if are_clean(ranges@, line@) {
                    assert(ranges@[i as int].0 < ranges@[i as int].1);
                    lemma_shown_boundary(line@, from as int, to as int, low as int);
                    lemma_shown_boundary(line@, from as int, to as int, high as int);
                }
            }
            out.push((low - start, high - start));
            assert(out@ + rest =~= before + (seq![(
                (low - start) as usize,
                (high - start) as usize,
            )] + rest));
        }
        i += 1;
    }
    assert(out@ =~= all);
    (shown, out)
}

// ---- A found line on the screen ----

/// How much of `context` is shown in `max` columns.
pub open spec fn visible_end(context: Seq<char>, max: usize) -> int {
    if columns(context) <= max {
        context.len() as int
    } else if max < 2 {
        0
    } else {
        fitting_end(context, 0, max - 1)
    }
}

/// Whether an ellipsis says that there is more.
pub open spec fn is_cut(context: Seq<char>, max: usize) -> bool {
    columns(context) > max && max >= 2
}

/// No character is cut where the matches from the `i`th on begin and end, as far
/// as they lie between the bytes `cursor` and `end`, each behind the one before.
pub open spec fn cut_no_char(
    s: Seq<char>,
    matches: Seq<(usize, usize)>,
    i: int,
    cursor: int,
    end: int,
) -> bool
    decreases matches.len() - i,
{
    if 0 <= i < matches.len() && matches[i].0 < end {
        let start = if matches[i].0 < cursor {
            cursor
        } else {
            matches[i].0 as int
        };
        let stop = if matches[i].1 > end {
            end
        } else {
            matches[i].1 as int
        };
        if start >= stop {
            cut_no_char(s, matches, i + 1, cursor, end)
        } else {
            &&& is_boundary(s, start)
            &&& is_boundary(s, stop)
            &&& cut_no_char(s, matches, i + 1, stop, end)
        }
    } else {
        true
    }
}

/// Matches that begin and end where characters do, or beyond the end, cut none.
pub proof fn lemma_whole_matches_cut_no_char(
    s: Seq<char>,
    matches: Seq<(usize, usize)>,
    i: int,
    cursor: int,
    end: int,
)
    requires
        0 <= i,
        forall|j: int|
            0 <= j < matches.len() ==> (is_boundary(s, #[trigger] matches[j].0 as int)
                || matches[j].0 >= byte_len(s)) && (is_boundary(s, matches[j].1 as int)
                || matches[j].1 >= byte_len(s)),
        is_boundary(s, cursor),
        is_boundary(s, end),
        end <= byte_len(s),
    ensures
        cut_no_char(s, matches, i, cursor, end),
    decreases matches.len() - i,
{
    if i < matches.len() && matches[i].0 < end {
        assert(is_boundary(s, matches[i].0 as int));
        let stop = if matches[i].1 > end {
            end
        } else {
            matches[i].1 as int
        };
        assert(is_boundary(s, stop));
        lemma_whole_matches_cut_no_char(s, matches, i + 1, cursor, end);
        lemma_whole_matches_cut_no_char(s, matches, i + 1, stop, end);
    }
}

/// The pieces of `s[cursor..end]`: the matches from the `i`th on stand out from
/// the text between them.
pub open spec fn highlights_from(
    s: Seq<char>,
    matches: Seq<(usize, usize)>,
    i: int,
    cursor: int,
    end: int,
) -> Seq<SpanView>
    decreases matches.len() - i,
{
    if 0 <= i < matches.len() && chars_until(s, 0, matches[i].0 as int) < end {
        let a = chars_until(s, 0, matches[i].0 as int);
        let b = chars_until(s, 0, matches[i].1 as int);
        let start = if a < cursor {
            cursor
        } else {
            a
        };
        let stop = if b > end {
            end
        } else {
            b
        };
        if start >= stop {
            highlights_from(s, matches, i + 1, cursor, end)
        } else {
            let hit = seq![piece(s.subrange(start, stop), Tone::Match)];
            let rest = highlights_from(s, matches, i + 1, stop, end);
            if start > cursor {
                seq![piece(s.subrange(cursor, start), Tone::Plain)] + hit + rest
            } else {
                hit + rest
            }
        }
    } else if cursor < end {
        seq![piece(s.subrange(cursor, end), Tone::Plain)]
    } else {
        Seq::empty()
    }
}

/// A found line in at most `max` columns, with the matches standing out. Matches
/// are clipped to what is shown.
pub open spec fn highlighted(
    context: Seq<char>,
    matches: Seq<(usize, usize)>,
    max: usize,
) -> Seq<SpanView> {
    let shown = highlights_from(context, matches, 0, 0, visible_end(context, max));
    if is_cut(context, max) {
        shown.push(piece("…"@, Tone::Plain))
    } else {
        shown
    }
}

pub fn highlighted_search_context(
    context: &str,
    matches: &[(usize, usize)],
    max_width: usize,
) -> (res: Vec<Span>)
    requires
        cut_no_char(
            context@,
            matches@,
            0,
            0,
            bytes_before(context@, visible_end(context@, max_width)) as int,
        ),
    ensures
        line_view(res@) == highlighted(context@, matches@, max_width),
{
    let chars: Vec<char> = to_chars(context);
    let fits: bool = text_width(context) <= max_width;
    let end: usize = if fits {
        chars.len()
    } else if max_width < 2 {
        0
    } else {
        fitting_prefix(chars.as_slice(), max_width - 1)
    };
    let offsets: Vec<usize> = byte_offsets(context);
    let mut spans: Vec<Span> = empty_line();
    let mut cursor: usize = 0;
    let mut i: usize = 0;
    let ghost all = highlights_from(context@, matches@, 0, 0, end as int);
    assert(line_view(spans@) + all =~= all);
    loop
        invariant_except_break
            i <= matches@.len(),
            cursor <= end <= chars@.len(),
            chars@ == context@,
            offsets@.len() == context@.len() + 1,
            forall|k: int| 0 <= k <= context@.len() ==> #[trigger] offsets@[k] == bytes_before(
                context@,
                k,
            ),
            line_view(spans@) + highlights_from(
                context@,
                matches@,
                i as int,
                cursor as int,
                end as int,
            ) == all,
        ensures
            line_view(spans@) == all,
        decreases matches@.len() - i,
    {
        let ghost before = line_view(spans@);
        if i >= matches.len() {
            if cursor < end {
                put(&mut spans, slice_to_string(chars.as_slice(), cursor, end), Tone::Plain);
                assert(line_view(spans@) =~= before + seq![
                    piece(context@.subrange(cursor as int, end as int), Tone::Plain),
                ]);
            } else {
                assert(before =~= all);
            }
            break;
        }
        let (from, to): (usize, usize) = matches[i];
        assert(matches@[i as int] == (from, to));
        let a: usize = char_at_offset(context, &offsets, from);
        let b: usize = char_at_offset(context, &offsets, to);
        if a >= end {
            if cursor < end {
                put(&mut spans, slice_to_string(chars.as_slice(), cursor, end), Tone::Plain);
                assert(line_view(spans@) =~= before + seq![
                    piece(context@.subrange(cursor as int, end as int), Tone::Plain),
                ]);
            } else {
                assert(before =~= all);
            }
            break;
        }
        let start: usize = if a < cursor {
            cursor
        } else {
            a
        };
        let stop: usize = if b > end {
            end
        } else {
            b
        };
        if start < stop {
            let ghost hit = seq![piece(context@.subrange(start as int, stop as int), Tone::Match)];
            let ghost rest = highlights_from(
                context@,
                matches@,
                i + 1,
                stop as int,
                end as int,
            );
            if start > cursor {
                put(&mut spans, slice_to_string(chars.as_slice(), cursor, start), Tone::Plain);
            }
            put(&mut spans, slice_to_string(chars.as_slice(), start, stop), Tone::Match);
            proof {
                if start > cursor {
                    let gap = seq![
                        piece(context@.subrange(cursor as int, start as int), Tone::Plain),
                    ];
                    assert(line_view(spans@) + rest =~= before + (gap + hit + rest));
                } else {
                    assert(line_view(spans@) + rest =~= before + (hit + rest));
                }
            }
            cursor = stop;
        }
        i += 1;
    }
    if !fits && max_width >= 2 {
        put(&mut spans, "…".to_owned(), Tone::Plain);
    }
    spans
}

/// The text of a line of pieces, from the `i`th on.
pub open spec fn text_of(line: Seq<SpanView>, i: int) -> Seq<char>
    decreases line.len() - i,
{
    if 0 <= i < line.len() {
        line[i].text + text_of(line, i + 1)
    } else {
        Seq::empty()
    }
}

proof fn lemma_text_of_sum(a: Seq<SpanView>, b: Seq<SpanView>, i: int)
    requires
        0 <= i <= a.len(),
    ensures
        text_of(a + b, i) == text_of(a, i) + text_of(b, 0),
    decreases a.len() - i,
{
    if i < a.len() {
        lemma_text_of_sum(a, b, i + 1);
        assert((a + b)[i] == a[i]);
        assert(text_of(a + b, i) =~= text_of(a, i) + text_of(b, 0));
    } else {
        lemma_text_of_tail(a, b, i);
        assert(text_of(a, i) =~= Seq::empty());
        assert(text_of(a + b, i) =~= text_of(a, i) + text_of(b, 0));
    }
}

proof fn lemma_text_of_tail(a: Seq<SpanView>, b: Seq<SpanView>, i: int)
    requires
        a.len() <= i <= a.len() + b.len(),
    ensures
        text_of(a + b, i) == text_of(b, i - a.len()),
    decreases a.len() + b.len() - i,
{
    if i < a.len() + b.len() {
        lemma_text_of_tail(a, b, i + 1);
        assert((a + b)[i] == b[i - a.len()]);
    }
}

proof fn lemma_text_of_one(one: SpanView)
    ensures
        text_of(seq![one], 0) == one.text,
{
    let line = seq![one];
    assert(text_of(line, 1) =~= Seq::empty());
    assert(text_of(line, 0) =~= one.text);
}

proof fn lemma_highlights_keep_text(
    s: Seq<char>,
    matches: Seq<(usize, usize)>,
    i: int,
    cursor: int,
    end: int,
)
    requires
        0 <= i <= matches.len(),
        0 <= cursor <= end <= s.len(),
    ensures
        text_of(highlights_from(s, matches, i, cursor, end), 0) == s.subrange(cursor, end),
    decreases matches.len() - i,
{
    if i < matches.len() && chars_until(s, 0, matches[i].0 as int) < end {
        let a = chars_until(s, 0, matches[i].0 as int);
        let b = chars_until(s, 0, matches[i].1 as int);
        let start = if a < cursor {
            cursor
        } else {
            a
        };
        let stop = if b > end {
            end
        } else {
            b
        };
        if start >= stop {
            lemma_highlights_keep_text(s, matches, i + 1, cursor, end);
        } else {
            let one = piece(s.subrange(start, stop), Tone::Match);
            let hit = seq![one];
            let rest = highlights_from(s, matches, i + 1, stop, end);
            lemma_highlights_keep_text(s, matches, i + 1, stop, end);
            lemma_text_of_one(one);
            if start > cursor {
                let first = piece(s.subrange(cursor, start), Tone::Plain);
                let gap = seq![first];
                lemma_text_of_one(first);
                lemma_text_of_sum(gap, hit, 0);
                lemma_text_of_sum(gap + hit, rest, 0);
                assert(s.subrange(cursor, start) + s.subrange(start, stop) + s.subrange(stop, end)
                    =~= s.subrange(cursor, end));
            } else {
                lemma_text_of_sum(hit, rest, 0);
                assert(s.subrange(start, stop) + s.subrange(stop, end) =~= s.subrange(cursor, end));
            }
        }
    } else if cursor < end {
        lemma_text_of_one(piece(s.subrange(cursor, end), Tone::Plain));
    } else {
        assert(s.subrange(cursor, end) =~= Seq::empty());
    }
}

/// However the matches lie, a found line reads as it is up to where it is cut,
/// and then shows an ellipsis.
pub proof fn law_highlights_keep_the_text(
    context: Seq<char>,
    matches: Seq<(usize, usize)>,
    max: usize,
)
    ensures
        0 <= visible_end(context, max) <= context.len(),
        text_of(highlighted(context, matches, max), 0) == context.take(visible_end(context, max))
            + if is_cut(context, max) {
            "…"@
        } else {
            Seq::empty()
        },
{
    let end = visible_end(context, max);
    lemma_fitting_end(context, 0, max - 1);
    lemma_highlights_keep_text(context, matches, 0, 0, end);
    let shown = highlights_from(context, matches, 0, 0, end);
    assert(context.subrange(0, end) =~= context.take(end));
    if is_cut(context, max) {
        let dots = piece("…"@, Tone::Plain);
        lemma_text_of_one(dots);
        lemma_text_of_sum(shown, seq![dots], 0);
        assert(shown.push(dots) =~= shown + seq![dots]);
    } else {
        assert(context.take(end) + Seq::empty() =~= context.take(end));
    }
}

} // verus!
