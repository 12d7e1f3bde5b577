//! Sequences of characters: the vocabulary in which the contracts of this
//! crate speak of text, and the executable functions that match it.

use vstd::prelude::*;

verus! {

broadcast use vstd::seq_lib::group_seq_properties;

/// `String::push` appends one character to the end of the string.
pub assume_specification[ String::push ](s: &mut String, ch: char)
    ensures
        final(s)@ == old(s)@.push(ch),
;

// ---- Characters ----

/// The Unicode `White_Space` property.
pub open spec fn is_whitespace(c: char) -> bool {
    ||| '\u{9}' <= c <= '\u{d}'
    ||| c == ' '
    ||| c == '\u{85}'
    ||| c == '\u{a0}'
    ||| c == '\u{1680}'
    ||| '\u{2000}' <= c <= '\u{200a}'
    ||| c == '\u{2028}'
    ||| c == '\u{2029}'
    ||| c == '\u{202f}'
    ||| c == '\u{205f}'
    ||| c == '\u{3000}'
}

pub fn char_is_whitespace(c: char) -> (res: bool)
    ensures
        res == is_whitespace(c),
{
    ('\u{9}' <= c && c <= '\u{d}') || c == ' ' || c == '\u{85}' || c == '\u{a0}' || c == '\u{1680}'
        || ('\u{2000}' <= c && c <= '\u{200a}') || c == '\u{2028}' || c == '\u{2029}' || c
        == '\u{202f}' || c == '\u{205f}' || c == '\u{3000}'
}

// ---- Conversions ----

/// A text in lower case.
pub uninterp spec fn lowercase(text: Seq<char>) -> Seq<char>;

/// `str::to_lowercase`, a function of the text alone. What it gives follows the
/// tables of Unicode and is not spelled out.
#[verifier::external_body]
pub(crate) fn to_lowercase(text: &str) -> (res: String)
    ensures
        res@ == lowercase(text@),
{
    text.to_lowercase()
}

/// The text with every character in upper case.
pub uninterp spec fn uppercase(text: Seq<char>) -> Seq<char>;

/// `str::to_uppercase`, a function of the text alone. What it gives follows the
/// tables of Unicode and is not spelled out.
#[verifier::external_body]
pub(crate) fn to_uppercase(text: &str) -> (res: String)
    ensures
        res@ == uppercase(text@),
{
    text.to_uppercase()
}

/// The characters of `s`, in order.
pub fn to_chars(s: &str) -> (res: Vec<char>)
    ensures
        res@ == s@,
{
    let mut out: Vec<char> = Vec::new();
    for c in it: s.chars()
        invariant
            it.seq() == s@,
            out@ == s@.take(it.index() as int),
    {
        out.push(c);
        assert(out@ =~= s@.take(it.index() + 1));
    }
    assert(s@.take(s@.len() as int) =~= s@);
    out
}

/// The string that holds the characters of `chars`, in order.
pub fn from_chars(chars: &[char]) -> (res: String)
    ensures
        res@ == chars@,
{
    let mut out: String = String::new();
    let mut i: usize = 0;
    while i < chars.len()
        invariant
            i <= chars@.len(),
            out@ == chars@.take(i as int),
        decreases chars@.len() - i,
    {
        out.push(chars[i]);
        i += 1;
        assert(out@ =~= chars@.take(i as int));
    }
    assert(chars@.take(chars@.len() as int) =~= chars@);
    out
}

/// The string that holds the characters of `chars` from `from` up to `to`.
pub fn slice_to_string(chars: &[char], from: usize, to: usize) -> (res: String)
    requires
        from <= to <= chars@.len(),
    ensures
        res@ == chars@.subrange(from as int, to as int),
{
    let mut out: String = String::new();
    let mut i: usize = from;
    while i < to
        invariant
            from <= i <= to <= chars@.len(),
            out@ == chars@.subrange(from as int, i as int),
        decreases to - i,
    {
        out.push(chars[i]);
        i += 1;
        assert(out@ =~= chars@.subrange(from as int, i as int));
    }
    out
}

/// Whether two strings hold the same characters.
pub fn str_eq(a: &str, b: &str) -> (res: bool)
    ensures
        res == (a@ == b@),
{
    chars_eq(to_chars(a).as_slice(), to_chars(b).as_slice())
}

pub fn chars_eq(a: &[char], b: &[char]) -> (res: bool)
    ensures
        res == (a@ == b@),
{
    if a.len() != b.len() {
        return false;
    }
    let mut i: usize = 0;
    while i < a.len()
        invariant
            a@.len() == b@.len(),
            i <= a@.len(),
            forall|k: int| 0 <= k < i ==> a@[k] == b@[k],
        decreases a@.len() - i,
    {
        if a[i] != b[i] {
            return false;
        }
        i += 1;
    }
    assert(a@ =~= b@);
    true
}

// ---- Searching ----

/// The first position at or after `from` whose character satisfies `p`, or
/// the length where there is none.
pub open spec fn scan(s: Seq<char>, p: spec_fn(char) -> bool, from: int) -> int
    decreases s.len() - from,
{
    if 0 <= from < s.len() && !p(s[from]) {
        scan(s, p, from + 1)
    } else {
        from
    }
}

/// The end of the prefix of `s[..to]` that is left when characters that
/// satisfy `p` are dropped from its end.
pub open spec fn scan_back(s: Seq<char>, p: spec_fn(char) -> bool, to: int) -> int
    decreases to,
{
    if 0 < to <= s.len() && p(s[to - 1]) {
        scan_back(s, p, to - 1)
    } else {
        to
    }
}

pub proof fn lemma_scan(s: Seq<char>, p: spec_fn(char) -> bool, from: int)
    requires
        0 <= from <= s.len(),
    ensures
        from <= scan(s, p, from) <= s.len(),
        forall|k: int| from <= k < scan(s, p, from) ==> !p(#[trigger] s[k]),
        scan(s, p, from) < s.len() ==> p(s[scan(s, p, from)]),
    decreases s.len() - from,
{
    if from < s.len() && !p(s[from]) {
        lemma_scan(s, p, from + 1);
    }
}

pub proof fn lemma_scan_back(s: Seq<char>, p: spec_fn(char) -> bool, to: int)
    requires
        0 <= to <= s.len(),
    ensures
        0 <= scan_back(s, p, to) <= to,
        forall|k: int| scan_back(s, p, to) <= k < to ==> p(#[trigger] s[k]),
        scan_back(s, p, to) > 0 ==> !p(s[scan_back(s, p, to) - 1]),
    decreases to,
{
    if 0 < to && p(s[to - 1]) {
        lemma_scan_back(s, p, to - 1);
    }
}

pub open spec fn is_char(wanted: char) -> spec_fn(char) -> bool {
    |c: char| c == wanted
}

pub open spec fn not_char(wanted: char) -> spec_fn(char) -> bool {
    |c: char| c != wanted
}

pub open spec fn white() -> spec_fn(char) -> bool {
    |c: char| is_whitespace(c)
}

pub open spec fn not_white() -> spec_fn(char) -> bool {
    |c: char| !is_whitespace(c)
}

/// `/` and `\`, between which the components of a path stand.
pub open spec fn is_separator(c: char) -> bool {
    c == '/' || c == '\\'
}

pub fn find_char(s: &[char], wanted: char, from: usize) -> (res: usize)
    requires
        from <= s@.len(),
    ensures
        res == scan(s@, is_char(wanted), from as int),
        from <= res <= s@.len(),
        res < s@.len() ==> s@[res as int] == wanted,
{
    let mut i: usize = from;
    while i < s.len() && s[i] != wanted
        invariant
            from <= i <= s@.len(),
            scan(s@, is_char(wanted), i as int) == scan(s@, is_char(wanted), from as int),
        decreases s@.len() - i,
    {
        i += 1;
    }
    i
}

pub fn find_whitespace(s: &[char], from: usize) -> (res: usize)
    requires
        from <= s@.len(),
    ensures
        res == scan(s@, white(), from as int),
        from <= res <= s@.len(),
        res < s@.len() ==> is_whitespace(s@[res as int]),
{
    let mut i: usize = from;
    while i < s.len() && !char_is_whitespace(s[i])
        invariant
            from <= i <= s@.len(),
            scan(s@, white(), i as int) == scan(s@, white(), from as int),
        decreases s@.len() - i,
    {
        i += 1;
    }
    i
}

pub fn find_non_whitespace(s: &[char], from: usize) -> (res: usize)
    requires
        from <= s@.len(),
    ensures
        res == scan(s@, not_white(), from as int),
        from <= res <= s@.len(),
        res < s@.len() ==> !is_whitespace(s@[res as int]),
{
    let mut i: usize = from;
    while i < s.len() && char_is_whitespace(s[i])
        invariant
            from <= i <= s@.len(),
            scan(s@, not_white(), i as int) == scan(s@, not_white(), from as int),
        decreases s@.len() - i,
    {
        i += 1;
    }
    i
}

/// Whether `needle` stands in `s` at position `at`.
pub open spec fn occurs_at(s: Seq<char>, needle: Seq<char>, at: int) -> bool {
    0 <= at && at + needle.len() <= s.len() && s.subrange(at, at + needle.len()) == needle
}

pub open spec fn contains(s: Seq<char>, needle: Seq<char>) -> bool {
    exists|at: int| #[trigger] occurs_at(s, needle, at)
}

pub open spec fn starts_with(s: Seq<char>, prefix: Seq<char>) -> bool {
    occurs_at(s, prefix, 0)
}

pub open spec fn ends_with(s: Seq<char>, suffix: Seq<char>) -> bool {
    occurs_at(s, suffix, s.len() - suffix.len())
}

pub fn matches_at(s: &[char], needle: &[char], at: usize) -> (res: bool)
    ensures
        res == occurs_at(s@, needle@, at as int),
{
    if needle.len() > s.len() || at > s.len() - needle.len() {
        return false;
    }
    let mut k: usize = 0;
    while k < needle.len()
        invariant
            k <= needle@.len(),
            at + needle@.len() <= s@.len() <= usize::MAX,
            forall|j: int| 0 <= j < k ==> s@[at + j] == needle@[j],
        decreases needle@.len() - k,
    {
        if s[at + k] != needle[k] {
            assert(s@.subrange(at as int, at + needle@.len())[k as int] != needle@[k as int]);
            return false;
        }
        k += 1;
    }
    assert(s@.subrange(at as int, at + needle@.len()) =~= needle@);
    true
}

/// The first position at or after `from` where `needle` stands in `s`, or -1.
pub open spec fn find_from(s: Seq<char>, needle: Seq<char>, from: int) -> int
    decreases s.len() - from,
{
    if from < 0 || from + needle.len() > s.len() {
        -1
    } else if occurs_at(s, needle, from) {
        from
    } else if from < s.len() {
        find_from(s, needle, from + 1)
    } else {
        -1
    }
}

pub proof fn lemma_find_from(s: Seq<char>, needle: Seq<char>, from: int)
    requires
        0 <= from,
    ensures
        find_from(s, needle, from) >= 0 ==> {
            &&& from <= find_from(s, needle, from)
            &&& occurs_at(s, needle, find_from(s, needle, from))
        },
        find_from(s, needle, from) >= 0 ==> forall|k: int|
            from <= k < find_from(s, needle, from) ==> !#[trigger] occurs_at(s, needle, k),
        find_from(s, needle, from) < 0 ==> forall|k: int|
            from <= k ==> !#[trigger] occurs_at(s, needle, k),
    decreases s.len() - from,
{
    if from + needle.len() <= s.len() && !occurs_at(s, needle, from) && from < s.len() {
        lemma_find_from(s, needle, from + 1);
    }
}

pub fn find_str(s: &[char], needle: &[char], from: usize) -> (res: Option<usize>)
    requires
        from <= s@.len(),
    ensures
        match res {
            Some(at) => at == find_from(s@, needle@, from as int) && at + needle@.len() <= s@.len()
                && from <= at,
            None => find_from(s@, needle@, from as int) == -1,
        },
{
    let mut i: usize = from;
    while needle.len() <= s.len() && i <= s.len() - needle.len()
        invariant
            from <= i <= s@.len() + 1,
            i <= s@.len() ==> find_from(s@, needle@, i as int) == find_from(
                s@,
                needle@,
                from as int,
            ),
            i > s@.len() ==> find_from(s@, needle@, from as int) == -1,
        decreases s@.len() + 1 - i,
    {
        if matches_at(s, needle, i) {
            return Some(i);
        }
        if i == s.len() {
            return None;
        }
        i += 1;
    }
    None
}

pub fn contains_str(s: &[char], needle: &[char]) -> (res: bool)
    ensures
        res == contains(s@, needle@),
{
    proof {
        lemma_find_from(s@, needle@, 0);
        if contains(s@, needle@) {
            let at = choose|at: int| #[trigger] occurs_at(s@, needle@, at);
            assert(find_from(s@, needle@, 0) >= 0);
        }
    }
    let found = find_str(s, needle, 0);
    found.is_some()
}

// ---- Trimming and splitting ----

/// `s` without the white space at its two ends.
pub open spec fn trim(s: Seq<char>) -> Seq<char> {
    let from = scan(s, not_white(), 0);
    let to = scan_back(s, white(), s.len() as int);
    if from < to {
        s.subrange(from, to)
    } else {
        Seq::empty()
    }
}

/// The bounds of the trimmed part of `s`.
pub fn trim_bounds(s: &[char]) -> (res: (usize, usize))
    ensures
        res.0 <= res.1 <= s@.len(),
        res.0 == scan(s@, not_white(), 0),
        res.0 < res.1 ==> res.1 == scan_back(s@, white(), s@.len() as int),
        trim(s@) == s@.subrange(res.0 as int, res.1 as int),
{
    let from: usize = find_non_whitespace(s, 0);
    let mut to: usize = s.len();
    while to > 0 && char_is_whitespace(s[to - 1])
        invariant
            to <= s@.len(),
            scan_back(s@, white(), to as int) == scan_back(s@, white(), s@.len() as int),
        decreases to,
    {
        to -= 1;
    }
    if from < to {
        (from, to)
    } else {
        (from, from)
    }
}

pub fn trim_string(s: &str) -> (res: String)
    ensures
        res@ == trim(s@),
{
    let chars: Vec<char> = to_chars(s);
    let (from, to): (usize, usize) = trim_bounds(chars.as_slice());
    slice_to_string(chars.as_slice(), from, to)
}

/// Whether `s` holds nothing but white space.
pub fn is_blank(s: &str) -> (res: bool)
    ensures
        res == (trim(s@).len() == 0),
{
    let chars: Vec<char> = to_chars(s);
    let (from, to): (usize, usize) = trim_bounds(chars.as_slice());
    from == to
}

/// `s` without its last character.
pub open spec fn shortened(s: Seq<char>) -> Seq<char> {
    if s.len() == 0 {
        s
    } else {
        s.drop_last()
    }
}

/// Take away the last character.
pub fn shorten(s: &str) -> (res: String)
    ensures
        res@ == shortened(s@),
{
    let chars: Vec<char> = to_chars(s);
    let n: usize = chars.len();
    if n == 0 {
        return s.to_owned();
    }
    let out: String = slice_to_string(chars.as_slice(), 0, n - 1);
    assert(out@ =~= s@.drop_last());
    out
}

/// The maximal runs of characters that are no white space, from `from` on.
pub open spec fn words_from(s: Seq<char>, from: int) -> Seq<Seq<char>>
    decreases s.len() - from,
{
    let a = scan(s, not_white(), from);
    let b = scan(s, white(), a);
    if 0 <= from <= a < s.len() && a < b <= s.len() {
        seq![s.subrange(a, b)] + words_from(s, b)
    } else {
        Seq::empty()
    }
}

/// The words of `s`: its maximal runs of characters that are no white space.
pub open spec fn words(s: Seq<char>) -> Seq<Seq<char>> {
    words_from(s, 0)
}

/// What the vectors of `v` hold.
pub open spec fn views(v: Seq<Vec<char>>) -> Seq<Seq<char>> {
    v.map(|i: int, w: Vec<char>| w@)
}

/// What the strings of `v` hold.
pub open spec fn string_views(v: Seq<String>) -> Seq<Seq<char>> {
    v.map(|i: int, w: String| w@)
}

pub fn slice_to_vec(s: &[char], from: usize, to: usize) -> (res: Vec<char>)
    requires
        from <= to <= s@.len(),
    ensures
        res@ == s@.subrange(from as int, to as int),
{
    let mut out: Vec<char> = Vec::new();
    let mut i: usize = from;
    while i < to
        invariant
            from <= i <= to <= s@.len(),
            out@ == s@.subrange(from as int, i as int),
        decreases to - i,
    {
        out.push(s[i]);
        i += 1;
        assert(out@ =~= s@.subrange(from as int, i as int));
    }
    out
}

pub fn split_words(s: &[char]) -> (res: Vec<Vec<char>>)
    ensures
        views(res@) == words(s@),
{
    let mut out: Vec<Vec<char>> = Vec::new();
    let mut i: usize = 0;
    assert(views(out@) + words_from(s@, 0) =~= words(s@));
    loop
        invariant
            i <= s@.len(),
            views(out@) + words_from(s@, i as int) == words(s@),
        ensures
            views(out@) == words(s@),
        decreases s@.len() - i,
    {
        let a: usize = find_non_whitespace(s, i);
        if a >= s.len() {
            assert(words_from(s@, i as int) =~= Seq::empty());
            assert(views(out@) =~= words(s@));
            break;
        }
        let b: usize = find_whitespace(s, a);
        proof {
            lemma_scan(s@, white(), a as int);
            assert(!is_whitespace(s@[a as int]));
            if b == a {
                assert(is_whitespace(s@[b as int]));
            }
        }
        let ghost before: Seq<Vec<char>> = out@;
        let word: Vec<char> = slice_to_vec(s, a, b);
        out.push(word);
        assert(views(out@) =~= views(before) + seq![s@.subrange(a as int, b as int)]);
        assert(views(out@) + words_from(s@, b as int) =~= views(before) + words_from(s@, i as int));
        i = b;
    }
    out
}

/// The parts of `s` from `from` on that stand between characters `c`.
pub open spec fn pieces_from(s: Seq<char>, c: char, from: int) -> Seq<Seq<char>>
    decreases s.len() - from,
{
    let at = scan(s, is_char(c), from);
    if 0 <= from <= at < s.len() {
        seq![s.subrange(from, at)] + pieces_from(s, c, at + 1)
    } else {
        seq![s.skip(from)]
    }
}

/// The parts of `s` that stand between characters `c`.
pub open spec fn pieces(s: Seq<char>, c: char) -> Seq<Seq<char>> {
    pieces_from(s, c, 0)
}

pub fn split_on(s: &[char], c: char) -> (res: Vec<Vec<char>>)
    ensures
        views(res@) == pieces(s@, c),
{
    let mut out: Vec<Vec<char>> = Vec::new();
    let mut i: usize = 0;
    assert(views(out@) + pieces_from(s@, c, 0) =~= pieces(s@, c));
    loop
        invariant_except_break
            i <= s@.len(),
            views(out@) + pieces_from(s@, c, i as int) == pieces(s@, c),
        ensures
            views(out@) == pieces(s@, c),
        decreases s@.len() + 1 - i,
    {
        let at: usize = find_char(s, c, i);
        let ghost before: Seq<Vec<char>> = out@;
        if at >= s.len() {
            let last: Vec<char> = slice_to_vec(s, i, s.len());
            out.push(last);
            assert(s@.skip(i as int) =~= s@.subrange(i as int, s@.len() as int));
            assert(views(out@) =~= views(before) + seq![s@.skip(i as int)]);
            break;
        }
        let part: Vec<char> = slice_to_vec(s, i, at);
        out.push(part);
        assert(views(out@) =~= views(before) + seq![s@.subrange(i as int, at as int)]);
        assert(views(out@) + pieces_from(s@, c, at + 1) =~= views(before) + pieces_from(
            s@,
            c,
            i as int,
        ));
        i = at + 1;
    }
    out
}

/// `line` without the carriage return at its end.
pub open spec fn without_return(line: Seq<char>) -> Seq<char> {
    if line.len() > 0 && line.last() == '\r' {
        line.drop_last()
    } else {
        line
    }
}

/// The lines of `s` from `from` on: each ends with a line feed, or with a
/// carriage return and a line feed, which the last may lack.
pub open spec fn lines_from(s: Seq<char>, from: int) -> Seq<Seq<char>>
    decreases s.len() - from,
{
    let at = scan(s, is_char('\n'), from);
    if 0 <= from <= at < s.len() {
        seq![without_return(s.subrange(from, at))] + lines_from(s, at + 1)
    } else if 0 <= from < s.len() {
        seq![s.skip(from)]
    } else {
        Seq::empty()
    }
}

pub open spec fn lines(s: Seq<char>) -> Seq<Seq<char>> {
    lines_from(s, 0)
}

pub fn split_lines(s: &[char]) -> (res: Vec<String>)
    ensures
        string_views(res@) == lines(s@),
{
    let mut out: Vec<String> = Vec::new();
    let mut i: usize = 0;
    assert(string_views(out@) + lines_from(s@, 0) =~= lines(s@));
    loop
        invariant_except_break
            i <= s@.len(),
            string_views(out@) + lines_from(s@, i as int) == lines(s@),
        ensures
            string_views(out@) == lines(s@),
        decreases s@.len() - i,
    {
        let at: usize = find_char(s, '\n', i);
        let ghost before: Seq<String> = out@;
        if at >= s.len() {
            if i < s.len() {
                out.push(slice_to_string(s, i, s.len()));
                assert(s@.skip(i as int) =~= s@.subrange(i as int, s@.len() as int));
                assert(string_views(out@) =~= string_views(before) + seq![s@.skip(i as int)]);
            } else {
                assert(lines_from(s@, i as int) =~= Seq::empty());
                assert(string_views(out@) =~= lines(s@));
            }
            break;
        }
        let to: usize = if at > i && s[at - 1] == '\r' {
            at - 1
        } else {
            at
        };
        assert(s@.subrange(i as int, to as int) =~= without_return(
            s@.subrange(i as int, at as int),
        ));
        out.push(slice_to_string(s, i, to));
        assert(string_views(out@) =~= string_views(before) + seq![
            without_return(s@.subrange(i as int, at as int)),
        ]);
        assert(string_views(out@) + lines_from(s@, at + 1) =~= string_views(before) + lines_from(
            s@,
            i as int,
        ));
        i = at + 1;
    }
    out
}

/// What follows the last `/` or `\` of a path; all of it where there is none.
pub open spec fn last_component(path: Seq<char>) -> Seq<char> {
    path.skip(scan_back(path, |c: char| !is_separator(c), path.len() as int))
}

pub fn last_component_start(path: &[char]) -> (res: usize)
    ensures
        res <= path@.len(),
        last_component(path@) == path@.subrange(res as int, path@.len() as int),
{
    let ghost keep = |c: char| !is_separator(c);
    let mut i: usize = path.len();
    while i > 0 && path[i - 1] != '/' && path[i - 1] != '\\'
        invariant
            i <= path@.len(),
            keep == (|c: char| !is_separator(c)),
            scan_back(path@, keep, i as int) == scan_back(path@, keep, path@.len() as int),
        decreases i,
    {
        i -= 1;
    }
    assert(path@.skip(i as int) =~= path@.subrange(i as int, path@.len() as int));
    i
}

/// Two texts in a row.
pub fn text_pair(first: &str, second: &str) -> (res: String)
    ensures
        res@ == first@ + second@,
{
    let mut out: String = first.to_owned();
    out.append(second);
    out
}

/// The first `n` of `list`, one after the other with `sep` between them.
pub open spec fn joined(list: Seq<Seq<char>>, sep: Seq<char>, n: int) -> Seq<char>
    decreases n,
{
    if n <= 0 {
        Seq::empty()
    } else if n == 1 {
        list[0]
    } else {
        joined(list, sep, n - 1) + sep + list[n - 1]
    }
}

/// The strings of `list`, one after the other with `sep` between them.
pub fn join(list: &Vec<String>, sep: &str) -> (res: String)
    ensures
        res@ == joined(string_views(list@), sep@, list@.len() as int),
{
    let ghost all: Seq<Seq<char>> = string_views(list@);
    let mut out: String = String::new();
    let mut i: usize = 0;
    while i < list.len()
        invariant
            i <= list@.len(),
            all == string_views(list@),
            out@ == joined(all, sep@, i as int),
        decreases list@.len() - i,
    {
        assert(all[i as int] == list@[i as int]@);
        if i > 0 {
            out.append(sep);
        }
        out.append(list[i].as_str());
        i += 1;
        assert(out@ =~= joined(all, sep@, i as int));
    }
    out
}

// ---- Numbers ----

pub open spec fn digit(d: nat) -> char {
    (d + '0' as nat) as char
}

/// `n` in decimal notation, without leading zeros.
pub open spec fn decimal(n: nat) -> Seq<char>
    decreases n,
{
    if n < 10 {
        seq![digit(n)]
    } else {
        decimal(n / 10).push(digit(n % 10))
    }
}

pub fn digit_char(d: usize) -> (res: char)
    requires
        d < 10,
    ensures
        res == digit(d as nat),
{
    match d {
        0 => '0',
        1 => '1',
        2 => '2',
        3 => '3',
        4 => '4',
        5 => '5',
        6 => '6',
        7 => '7',
        8 => '8',
        _ => '9',
    }
}

/// Appends `n` in decimal notation.
pub fn push_decimal(out: &mut String, n: usize)
    ensures
        final(out)@ == old(out)@ + decimal(n as nat),
    decreases n,
{
    if n >= 10 {
        push_decimal(out, n / 10);
    }
    out.push(digit_char(n % 10));
    assert(out@ =~= old(out)@ + decimal(n as nat));
}

pub open spec fn is_digit(c: char) -> bool {
    '0' <= c <= '9'
}

pub open spec fn all_digits(s: Seq<char>) -> bool {
    forall|i: int| 0 <= i < s.len() ==> is_digit(#[trigger] s[i])
}

/// The number that the decimal digits of `s` write.
pub open spec fn decimal_value(s: Seq<char>) -> nat
    decreases s.len(),
{
    if s.len() == 0 {
        0
    } else {
        (decimal_value(s.drop_last()) * 10 + (s.last() as int - '0' as int)) as nat
    }
}

/// The number that `s` writes: an optional `+`, then one or more digits, of a
/// value that is at most `max`.
pub open spec fn parsed_number(s: Seq<char>, max: nat) -> Option<nat> {
    let digits = if s.len() > 0 && s[0] == '+' {
        s.skip(1)
    } else {
        s
    };
    if digits.len() > 0 && all_digits(digits) && decimal_value(digits) <= max {
        Some(decimal_value(digits))
    } else {
        None
    }
}

pub proof fn lemma_decimal_value_monotone(s: Seq<char>, i: int)
    requires
        0 <= i <= s.len(),
        all_digits(s),
    ensures
        decimal_value(s.take(i)) <= decimal_value(s),
    decreases s.len() - i,
{
    if i < s.len() {
        lemma_decimal_value_monotone(s, i + 1);
        assert(s.take(i + 1).drop_last() =~= s.take(i));
        assert(is_digit(s[i]));
    } else {
        assert(s.take(i) =~= s);
    }
}

/// The `u64` that `s` writes, as `parsed_number` reads it.
pub fn parse_u64(s: &[char]) -> (res: Option<u64>)
    ensures
        match res {
            Some(n) => parsed_number(s@, u64::MAX as nat) == Some(n as nat),
            None => parsed_number(s@, u64::MAX as nat) is None,
        },
{
    let signed: bool = s.len() > 0 && s[0] == '+';
    let from: usize = if signed { 1 } else { 0 };
    let ghost digits: Seq<char> = s@.skip(from as int);
    assert(digits =~= if s@.len() > 0 && s@[0] == '+' { s@.skip(1) } else { s@ });
    if from == s.len() {
        return None;
    }
    let mut i: usize = from;
    let mut value: u64 = 0;
    while i < s.len()
        invariant
            from <= i <= s@.len(),
            digits == s@.skip(from as int),
            digits.len() == s@.len() - from,
            digits.len() > 0,
            digits == (if s@.len() > 0 && s@[0] == '+' { s@.skip(1) } else { s@ }),
            all_digits(digits.take(i - from)),
            value == decimal_value(digits.take(i - from)),
        decreases s@.len() - i,
    {
        let c: char = s[i];
        let ghost k: int = i - from;
        assert(digits[k] == c);
        if c < '0' || c > '9' {
            assert(!is_digit(digits[k]));
            return None;
        }
        let d: u64 = c as u64 - '0' as u64;
        assert(digits.take(k + 1).drop_last() =~= digits.take(k));
        assert(all_digits(digits.take(k + 1))) by {
            assert forall|j: int| 0 <= j < k + 1 implies is_digit(
                #[trigger] digits.take(k + 1)[j],
            ) by {
                if j < k {
                    assert(digits.take(k)[j] == digits.take(k + 1)[j]);
                }
            }
        }
        proof {
            if all_digits(digits) {
                lemma_decimal_value_monotone(digits, k + 1);
            }
        }
        match value.checked_mul(10) {
            None => {
                return None;
            },
            Some(tens) => {
                match tens.checked_add(d) {
                    None => {
                        return None;
                    },
                    Some(next) => {
                        value = next;
                    },
                }
            },
        }
        i += 1;
    }
    assert(digits.take(digits.len() as int) =~= digits);
    Some(value)
}

pub fn parse_usize(s: &[char]) -> (res: Option<usize>)
    ensures
        match res {
            Some(n) => parsed_number(s@, usize::MAX as nat) == Some(n as nat),
            None => parsed_number(s@, usize::MAX as nat) is None,
        },
{
    match parse_u64(s) {
        Some(n) if n <= usize::MAX as u64 => Some(n as usize),
        _ => None,
    }
}

} // verus!
