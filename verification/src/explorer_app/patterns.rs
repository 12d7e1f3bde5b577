//! The two outside pattern languages of the search: regular expressions for
//! lines, globs for paths.

use crate::text::{
    is_char, is_separator, lemma_scan, lemma_scan_back, not_white, pieces, pieces_from, scan,
    scan_back, slice_to_string, slice_to_vec, split_on, to_chars, trim, trim_bounds, views, white,
};
use vstd::prelude::*;

verus! {

// ---- Regular expressions ----

/// A compiled regular expression of the `regex` crate.
#[verifier::external_type_specification]
#[verifier::external_body]
pub struct ExRegex(regex::Regex);

/// The pattern that a regular expression was compiled from, and whether it
/// ignores case.
pub uninterp spec fn regex_source(re: regex::Regex) -> (Seq<char>, bool);

/// Why a pattern cannot be compiled; `None` where it can.
pub uninterp spec fn regex_error(pattern: Seq<char>, ignore_case: bool) -> Option<Seq<char>>;

/// The successive matches of a pattern in a text, as byte offsets.
pub uninterp spec fn regex_finds(pattern: Seq<char>, ignore_case: bool, text: Seq<char>) -> Seq<
    (usize, usize),
>;

/// `regex::RegexBuilder`: compiles `pattern`, with `case_insensitive` as given
/// and every other setting at its default. Whether it compiles, and the text of
/// the error where it does not, depend on these two alone.
#[verifier::external_body]
pub(crate) fn compile_regex(pattern: &str, ignore_case: bool) -> (res: Result<regex::Regex, String>)
    ensures
        match res {
            Ok(re) => regex_error(pattern@, ignore_case) is None && regex_source(re) == (
                pattern@,
                ignore_case,
            ),
            Err(text) => regex_error(pattern@, ignore_case) == Some(text@),
        },
{
    match regex::RegexBuilder::new(pattern).case_insensitive(ignore_case).build() {
        Ok(re) => Ok(re),
        Err(error) => Err(error.to_string()),
    }
}

/// Byte ranges that lie in a text one after the other and cut no character.
pub open spec fn are_ranges_of(ranges: Seq<(usize, usize)>, text: Seq<char>) -> bool {
    &&& forall|i: int|
        0 <= i < ranges.len() ==> {
            &&& #[trigger] ranges[i].0 <= ranges[i].1
            &&& crate::utf8::is_boundary(text, ranges[i].0 as int)
            &&& crate::utf8::is_boundary(text, ranges[i].1 as int)
        }
    &&& forall|i: int, j: int|
        0 <= i < j < ranges.len() ==> #[trigger] ranges[i].1 <= #[trigger] ranges[j].0
}

/// `regex::Regex::find_iter`: the start and end of each of the successive,
/// non-overlapping matches. They depend on the pattern, the case setting and
/// the text; each lies in the text and cuts no character of it.
#[verifier::external_body]
pub(crate) fn find_all(re: &regex::Regex, text: &str) -> (res: Vec<(usize, usize)>)
    ensures
        res@ == regex_finds(regex_source(*re).0, regex_source(*re).1, text@),
        are_ranges_of(res@, text@),
{
    re.find_iter(text).map(|found| (found.start(), found.end())).collect()
}

/// `regex::Regex::is_match`: whether there is a match anywhere, that is,
/// whether `find_iter` would give one.
#[verifier::external_body]
pub(crate) fn has_match(re: &regex::Regex, text: &str) -> (res: bool)
    ensures
        res == (regex_finds(regex_source(*re).0, regex_source(*re).1, text@).len() > 0),
{
    re.is_match(text)
}

// ---- Globs ----

/// A parsed glob of the `globset` crate.
#[verifier::external_type_specification]
#[verifier::external_body]
pub struct ExGlob(globset::Glob);

/// Globs of the `globset` crate that are being gathered.
#[verifier::external_type_specification]
#[verifier::external_body]
pub struct ExGlobSetBuilder(globset::GlobSetBuilder);

/// A compiled set of globs of the `globset` crate.
#[verifier::external_type_specification]
#[verifier::external_body]
pub struct ExGlobSet(globset::GlobSet);

/// The pattern that a glob was parsed from.
pub uninterp spec fn glob_source(glob: globset::Glob) -> Seq<char>;

/// The patterns that a builder has gathered.
pub uninterp spec fn gathered_globs(builder: globset::GlobSetBuilder) -> Seq<Seq<char>>;

/// The patterns of a set of globs.
pub uninterp spec fn globs_of(set: globset::GlobSet) -> Seq<Seq<char>>;

/// No backslash is in it. Whether one is an escape or a separator depends on the
/// platform, so a glob or a path with one need not mean the same on another.
pub open spec fn is_plain(text: Seq<char>) -> bool {
    !text.contains('\\')
}

pub open spec fn all_plain(texts: Seq<Seq<char>>) -> bool {
    forall|i: int| 0 <= i < texts.len() ==> is_plain(#[trigger] texts[i])
}

/// Why a plain pattern is no glob; `None` where it is one.
pub uninterp spec fn glob_error(pattern: Seq<char>) -> Option<Seq<char>>;

/// Why plain globs cannot be compiled together; `None` where they can.
pub uninterp spec fn glob_set_error(patterns: Seq<Seq<char>>) -> Option<Seq<char>>;

/// Whether a plain path matches a plain glob.
pub uninterp spec fn glob_matches(pattern: Seq<char>, path: Seq<char>) -> bool;

/// Whether a path matches a set of globs.
pub uninterp spec fn set_matches(set: globset::GlobSet, path: Seq<char>) -> bool;

/// `globset::Glob::new`: parses a pattern with the default settings. The glob
/// keeps the pattern. Whether a plain pattern parses, and the text of the error
/// where it does not, depend on the pattern alone. Nothing is said of whether one
/// with a backslash parses: the parser asks the platform what a backslash is.
#[verifier::external_body]
pub(crate) fn parse_glob(pattern: &str) -> (res: Result<globset::Glob, String>)
    ensures
        match res {
            Ok(glob) => glob_source(glob) == pattern@ && (is_plain(pattern@) ==> glob_error(
                pattern@,
            ) is None),
            Err(text) => is_plain(pattern@) ==> glob_error(pattern@) == Some(text@),
        },
{
    match globset::Glob::new(pattern) {
        Ok(glob) => Ok(glob),
        Err(error) => Err(error.to_string()),
    }
}

/// `globset::GlobSetBuilder::new`: no globs yet.
#[verifier::external_body]
pub(crate) fn no_globs() -> (res: globset::GlobSetBuilder)
    ensures
        gathered_globs(res) == Seq::<Seq<char>>::empty(),
{
    globset::GlobSetBuilder::new()
}

/// `globset::GlobSetBuilder::add`: one glob more, behind the others.
#[verifier::external_body]
pub(crate) fn gather_glob(builder: &mut globset::GlobSetBuilder, glob: globset::Glob)
    ensures
        gathered_globs(*final(builder)) == gathered_globs(*old(builder)).push(glob_source(glob)),
{
    builder.add(glob);
}

/// `globset::GlobSetBuilder::build`: the set of the globs that were gathered.
/// Whether plain globs compile, and the text of the error where they do not,
/// depend on their patterns alone; a plain path matches the set where it matches
/// one of them. Of a set with a glob that holds a backslash neither is said.
#[verifier::external_body]
pub(crate) fn compile_globs(builder: &globset::GlobSetBuilder) -> (res: Result<
    globset::GlobSet,
    String,
>)
    ensures
        match res {
            Ok(set) => {
                &&& globs_of(set) == gathered_globs(*builder)
                &&& all_plain(gathered_globs(*builder)) ==> glob_set_error(
                    gathered_globs(*builder),
                ) is None
                &&& all_plain(gathered_globs(*builder)) ==> forall|path: Seq<char>|
                    is_plain(path) ==> #[trigger] set_matches(set, path) == (exists|i: int|
                        0 <= i < gathered_globs(*builder).len() && glob_matches(
                            #[trigger] gathered_globs(*builder)[i],
                            path,
                        ))
            },
            Err(text) => all_plain(gathered_globs(*builder)) ==> glob_set_error(
                gathered_globs(*builder),
            ) == Some(text@),
        },
{
    match builder.build() {
        Ok(set) => Ok(set),
        Err(error) => Err(error.to_string()),
    }
}

/// Whether a path matches one of some globs.
pub open spec fn matches_one(globs: Seq<Seq<char>>, path: Seq<char>) -> bool {
    exists|i: int| 0 <= i < globs.len() && glob_matches(#[trigger] globs[i], path)
}

/// The set decides about plain paths as its globs do, where they are plain.
pub open spec fn set_follows(set: globset::GlobSet, globs: Seq<Seq<char>>) -> bool {
    all_plain(globs) ==> forall|path: Seq<char>|
        is_plain(path) ==> #[trigger] set_matches(set, path) == matches_one(globs, path)
}

/// `globset::GlobSet::is_match`: whether the path matches a glob of the set, which
/// depends on these two alone.
#[verifier::external_body]
pub(crate) fn globs_match(set: &globset::GlobSet, path: &str) -> (res: bool)
    ensures
        res == set_matches(*set, path@),
{
    set.is_match(path)
}

// ---- The path filters of a search ----

/// A character that makes a pattern more than the name of a file or folder.
pub open spec fn is_wildcard(c: char) -> bool {
    c == '*' || c == '?' || c == '[' || c == '{'
}

pub open spec fn has_wildcard(s: Seq<char>) -> bool {
    exists|i: int| 0 <= i < s.len() && is_wildcard(#[trigger] s[i])
}

pub open spec fn has_separator(s: Seq<char>) -> bool {
    exists|i: int| 0 <= i < s.len() && is_separator(#[trigger] s[i])
}

/// `s` without the separators at its end.
pub open spec fn without_end_separators(s: Seq<char>) -> Seq<char> {
    s.take(scan_back(s, |c: char| is_separator(c), s.len() as int))
}

/// The globs that one entry of a path filter stands for: itself, and where it
/// is a plain name or path also what lies below a folder of that name; below
/// one at any depth where it is a single name.
pub open spec fn entry_globs(entry: Seq<char>) -> Seq<Seq<char>> {
    if has_wildcard(entry) {
        seq![entry]
    } else {
        let folder = without_end_separators(entry);
        if has_separator(folder) {
            seq![entry, folder + "/**"@]
        } else {
            seq![entry, folder + "/**"@, "**/"@ + folder + "/**"@]
        }
    }
}

/// The globs of the entries of a filter from the `i`th on; blank ones count
/// for nothing.
pub open spec fn filter_globs_from(entries: Seq<Seq<char>>, i: int) -> Seq<Seq<char>>
    decreases entries.len() - i,
{
    if 0 <= i < entries.len() {
        let entry = trim(entries[i]);
        if entry.len() == 0 {
            filter_globs_from(entries, i + 1)
        } else {
            entry_globs(entry) + filter_globs_from(entries, i + 1)
        }
    } else {
        Seq::empty()
    }
}

/// The globs of a path filter, a list of entries between commas.
pub open spec fn filter_globs(raw: Seq<char>) -> Seq<Seq<char>> {
    filter_globs_from(pieces(raw, ','), 0)
}

/// The error of the first of `patterns` from the `i`th on that is no glob.
pub open spec fn first_glob_error(patterns: Seq<Seq<char>>, i: int) -> Option<Seq<char>>
    decreases patterns.len() - i,
{
    if 0 <= i < patterns.len() {
        match glob_error(patterns[i]) {
            Some(error) => Some(error),
            None => first_glob_error(patterns, i + 1),
        }
    } else {
        None
    }
}

/// The globs of a path filter are plain.
pub open spec fn filter_is_plain(raw: Seq<char>) -> bool {
    all_plain(filter_globs(raw))
}

/// Why a plain path filter cannot be used; `None` where it can.
pub open spec fn filter_error(raw: Seq<char>) -> Option<Seq<char>> {
    let globs = filter_globs(raw);
    if globs.len() == 0 {
        None
    } else {
        match first_glob_error(globs, 0) {
            Some(error) => Some(error),
            None => glob_set_error(globs),
        }
    }
}

/// What is said of a path filter that cannot be used.
pub open spec fn filter_complaint(label: Seq<char>, error: Seq<char>) -> Seq<char> {
    "Invalid "@ + label + " pattern: "@ + error
}

fn complain(label: &str, error: &str) -> (res: String)
    ensures
        res@ == filter_complaint(label@, error@),
{
    let mut out: String = "Invalid ".to_owned();
    out.append(label);
    out.append(" pattern: ");
    out.append(error);
    out
}

/// Add a pattern to the globs.
fn gather(builder: &mut globset::GlobSetBuilder, pattern: &str, label: &str) -> (res: Result<
    (),
    String,
>)
    ensures
        match res {
            Ok(_) => (is_plain(pattern@) ==> glob_error(pattern@) is None) && gathered_globs(
                *final(builder),
            ) == gathered_globs(*old(builder)).push(pattern@),
            Err(text) => exists|error: Seq<char>|
                text@ == #[trigger] filter_complaint(label@, error) && (is_plain(pattern@)
                    ==> glob_error(pattern@) == Some(error)),
        },
{
    match parse_glob(pattern) {
        Ok(glob) => {
            gather_glob(builder, glob);
            Ok(())
        },
        Err(error) => Err(complain(label, error.as_str())),
    }
}

fn any_wildcard(s: &[char]) -> (res: bool)
    ensures
        res == has_wildcard(s@),
{
    let mut i: usize = 0;
    while i < s.len()
        invariant
            i <= s@.len(),
            forall|k: int| 0 <= k < i ==> !is_wildcard(#[trigger] s@[k]),
        decreases s@.len() - i,
    {
        let c: char = s[i];
        if c == '*' || c == '?' || c == '[' || c == '{' {
            return true;
        }
        i += 1;
    }
    false
}

fn any_separator(s: &[char]) -> (res: bool)
    ensures
        res == has_separator(s@),
{
    let mut i: usize = 0;
    while i < s.len()
        invariant
            i <= s@.len(),
            forall|k: int| 0 <= k < i ==> !is_separator(#[trigger] s@[k]),
        decreases s@.len() - i,
    {
        if s[i] == '/' || s[i] == '\\' {
            return true;
        }
        i += 1;
    }
    false
}

fn folder_end(s: &[char]) -> (res: usize)
    ensures
        res <= s@.len(),
        s@.take(res as int) == without_end_separators(s@),
{
    let ghost p = |c: char| is_separator(c);
    let mut to: usize = s.len();
    while to > 0 && (s[to - 1] == '/' || s[to - 1] == '\\')
        invariant
            to <= s@.len(),
            p == (|c: char| is_separator(c)),
            scan_back(s@, p, to as int) == scan_back(s@, p, s@.len() as int),
        decreases to,
    {
        to -= 1;
    }
    to
}

/// The globs that one entry of a path filter stands for.
pub fn globs_of_entry(entry: &[char]) -> (res: Vec<String>)
    ensures
        crate::text::string_views(res@) == entry_globs(entry@),
{
    let whole: String = slice_to_string(entry, 0, entry.len());
    assert(entry@.subrange(0, entry@.len() as int) =~= entry@);
    let mut out: Vec<String> = Vec::new();
    out.push(whole);
    if !any_wildcard(entry) {
        let to: usize = folder_end(entry);
        let folder: Vec<char> = slice_to_vec(entry, 0, to);
        assert(folder@ =~= entry@.take(to as int));
        let mut below: String = slice_to_string(folder.as_slice(), 0, folder.len());
        assert(folder@.subrange(0, folder@.len() as int) =~= folder@);
        below.append("/**");
        if any_separator(folder.as_slice()) {
            out.push(below);
            assert(crate::text::string_views(out@) =~= entry_globs(entry@));
        } else {
            let mut nested: String = "**/".to_owned();
            nested.append(slice_to_string(folder.as_slice(), 0, folder.len()).as_str());
            nested.append("/**");
            out.push(below);
            out.push(nested);
            assert(crate::text::string_views(out@) =~= entry_globs(entry@));
        }
    } else {
        assert(crate::text::string_views(out@) =~= entry_globs(entry@));
    }
    out
}

/// The globs of a path filter.
pub fn search_patterns(raw: &str) -> (res: Vec<String>)
    ensures
        crate::text::string_views(res@) == filter_globs(raw@),
{
    let chars: Vec<char> = to_chars(raw);
    let entries: Vec<Vec<char>> = split_on(chars.as_slice(), ',');
    let ghost list: Seq<Seq<char>> = pieces(raw@, ',');
    let mut out: Vec<String> = Vec::new();
    let mut i: usize = 0;
    assert(crate::text::string_views(out@) + filter_globs_from(list, 0) =~= filter_globs(raw@));
    while i < entries.len()
        invariant
            i <= entries@.len(),
            views(entries@) == list,
            list.len() == entries@.len(),
            crate::text::string_views(out@) + filter_globs_from(list, i as int) == filter_globs(
                raw@,
            ),
        decreases entries@.len() - i,
    {
        let ghost before: Seq<String> = out@;
        let (from, to): (usize, usize) = trim_bounds(entries[i].as_slice());
        assert(views(entries@)[i as int] == entries@[i as int]@);
        if from < to {
            let entry: Vec<char> = slice_to_vec(entries[i].as_slice(), from, to);
            let mut globs: Vec<String> = globs_of_entry(entry.as_slice());
            let ghost added: Seq<String> = globs@;
            out.append(&mut globs);
            assert(crate::text::string_views(out@) =~= crate::text::string_views(before)
                + crate::text::string_views(added));
            assert(crate::text::string_views(out@) + filter_globs_from(list, i + 1)
                =~= crate::text::string_views(before) + filter_globs_from(list, i as int));
        }
        i += 1;
    }
    assert(crate::text::string_views(out@) =~= filter_globs(raw@));
    out
}

/// Compile a path filter. `label` names the filter where it cannot be used. What
/// becomes of one with a backslash depends on the platform.
pub fn build_search_globs(raw: &str, label: &str) -> (res: Result<
    Option<globset::GlobSet>,
    String,
>)
    ensures
        match res {
            Ok(None) => filter_globs(raw@).len() == 0,
            Ok(Some(set)) => {
                &&& filter_globs(raw@).len() > 0
                &&& filter_is_plain(raw@) ==> filter_error(raw@) is None
                &&& globs_of(set) == filter_globs(raw@)
                &&& set_follows(set, filter_globs(raw@))
            },
            Err(text) => {
                &&& filter_globs(raw@).len() > 0
                &&& exists|error: Seq<char>|
                    text@ == #[trigger] filter_complaint(label@, error) && (filter_is_plain(raw@)
                        ==> filter_error(raw@) == Some(error))
            },
        },
{
    let patterns: Vec<String> = search_patterns(raw);
    let ghost globs: Seq<Seq<char>> = filter_globs(raw@);
    assert(globs.len() == patterns@.len());
    if patterns.len() == 0 {
        return Ok(None);
    }
    let mut builder: globset::GlobSetBuilder = no_globs();
    let mut i: usize = 0;
    assert(globs.take(0) =~= Seq::<Seq<char>>::empty());
    while i < patterns.len()
        invariant
            i <= patterns@.len(),
            globs == filter_globs(raw@),
            globs.len() == patterns@.len(),
            globs.len() > 0,
            crate::text::string_views(patterns@) == globs,
            gathered_globs(builder) == globs.take(i as int),
            all_plain(globs) ==> first_glob_error(globs, i as int) == first_glob_error(globs, 0),
        decreases patterns@.len() - i,
    {
        assert(globs[i as int] == patterns@[i as int]@);
        match gather(&mut builder, patterns[i].as_str(), label) {
            Ok(_) => {},
            Err(text) => {
                return Err(text);
            },
        }
        assert(globs.take(i + 1) =~= globs.take(i as int).push(globs[i as int]));
        i += 1;
    }
    assert(globs.take(i as int) =~= globs);
    match compile_globs(&builder) {
        Ok(set) => Ok(Some(set)),
        Err(error) => Err(complain(label, error.as_str())),
    }
}

// ---- Laws ----

proof fn lemma_part_is_plain(s: Seq<char>, from: int, to: int)
    requires
        is_plain(s),
        0 <= from <= to <= s.len(),
    ensures
        is_plain(s.subrange(from, to)),
{
    let part = s.subrange(from, to);
    if part.contains('\\') {
        let k = choose|k: int| 0 <= k < part.len() && part[k] == '\\';
        assert(s[from + k] == '\\');
    }
}

proof fn lemma_joined_is_plain(a: Seq<char>, b: Seq<char>)
    requires
        is_plain(a),
        is_plain(b),
    ensures
        is_plain(a + b),
{
    let both = a + b;
    if both.contains('\\') {
        let k = choose|k: int| 0 <= k < both.len() && both[k] == '\\';
        if k < a.len() {
            assert(a[k] == '\\');
        } else {
            assert(b[k - a.len()] == '\\');
        }
    }
}

proof fn lemma_pieces_are_plain(s: Seq<char>, c: char, from: int)
    requires
        is_plain(s),
        0 <= from <= s.len(),
    ensures
        all_plain(pieces_from(s, c, from)),
    decreases s.len() - from,
{
    let at = scan(s, is_char(c), from);
    lemma_scan(s, is_char(c), from);
    if at < s.len() {
        lemma_part_is_plain(s, from, at);
        lemma_pieces_are_plain(s, c, at + 1);
        let all = pieces_from(s, c, from);
        let rest = pieces_from(s, c, at + 1);
        assert forall|i: int| 0 <= i < all.len() implies is_plain(#[trigger] all[i]) by {
            if i > 0 {
                assert(all[i] == rest[i - 1]);
            }
        }
    } else {
        lemma_part_is_plain(s, from, s.len() as int);
        assert(s.skip(from) =~= s.subrange(from, s.len() as int));
    }
}

proof fn lemma_entry_is_plain(entry: Seq<char>)
    requires
        is_plain(entry),
    ensures
        all_plain(entry_globs(entry)),
{
    reveal_strlit("/**");
    reveal_strlit("**/");
    let p = |c: char| is_separator(c);
    let to = scan_back(entry, p, entry.len() as int);
    lemma_scan_back(entry, p, entry.len() as int);
    lemma_part_is_plain(entry, 0, to);
    let folder = without_end_separators(entry);
    assert(folder =~= entry.subrange(0, to));
    assert(is_plain("/**"@));
    assert(is_plain("**/"@));
    lemma_joined_is_plain(folder, "/**"@);
    lemma_joined_is_plain("**/"@, folder);
    lemma_joined_is_plain("**/"@ + folder, "/**"@);
}

proof fn lemma_filter_is_plain(entries: Seq<Seq<char>>, i: int)
    requires
        all_plain(entries),
        0 <= i,
    ensures
        all_plain(filter_globs_from(entries, i)),
    decreases entries.len() - i,
{
    if i < entries.len() {
        lemma_filter_is_plain(entries, i + 1);
        let text = entries[i];
        let from = scan(text, not_white(), 0);
        let to = scan_back(text, white(), text.len() as int);
        lemma_scan(text, not_white(), 0);
        lemma_scan_back(text, white(), text.len() as int);
        if from < to {
            lemma_part_is_plain(text, from, to);
        }
        let entry = trim(text);
        if entry.len() > 0 {
            lemma_entry_is_plain(entry);
            let all = filter_globs_from(entries, i);
            let own = entry_globs(entry);
            let rest = filter_globs_from(entries, i + 1);
            assert forall|k: int| 0 <= k < all.len() implies is_plain(#[trigger] all[k]) by {
                if k < own.len() {
                    assert(all[k] == own[k]);
                } else {
                    assert(all[k] == rest[k - own.len()]);
                }
            }
        }
    }
}

/// A path filter without a backslash has none in its globs.
pub proof fn law_a_filter_without_backslashes_is_plain(raw: Seq<char>)
    requires
        is_plain(raw),
    ensures
        filter_is_plain(raw),
{
    lemma_pieces_are_plain(raw, ',', 0);
    lemma_filter_is_plain(pieces(raw, ','), 0);
}

} // verus!
