//! A search through the files below a root. The files come from outside one by
//! one; what they hold is searched here.

use crate::explorer_app::patterns::{
    build_search_globs, compile_regex, filter_complaint, filter_error, filter_globs,
    filter_is_plain, globs_match, globs_of, is_plain, matches_one, regex_error, regex_source,
    set_follows, set_matches,
};
use crate::explorer_app::quick::QuickFile;
use crate::explorer_app::search::{
    are_clean, content_hit_context, content_line_match_ranges, content_line_matches, line_matches,
    line_ranges, shown_line, shown_ranges, source_of, SearchOptions,
};
use crate::text::{lines, split_lines, string_views, to_chars};
use vstd::prelude::*;

verus! {

pub const CONTENT_SEARCH_MATCH_LIMIT: usize = 1_000;

pub const CONTENT_SEARCH_FILE_LIMIT: usize = 20_000;

pub const CONTENT_SEARCH_MAX_BYTES: u64 = 1024 * 1024;

/// A line that a search has found.
#[derive(Debug)]
pub struct ContentHit {
    pub path: String,
    pub label: String,
    /// Counted from one.
    pub line: usize,
    /// The line as it is shown.
    pub context: String,
    /// What was found, in bytes of `context`.
    pub matches: Vec<(usize, usize)>,
}

/// What a `ContentHit` holds.
#[verifier::ext_equal]
pub struct HitView {
    pub path: Seq<char>,
    pub label: Seq<char>,
    pub line: nat,
    pub context: Seq<char>,
    pub matches: Seq<(usize, usize)>,
}

impl View for ContentHit {
    type V = HitView;

    open spec fn view(&self) -> HitView {
        HitView {
            path: self.path@,
            label: self.label@,
            line: self.line as nat,
            context: self.context@,
            matches: self.matches@,
        }
    }
}

pub open spec fn hit_views(hits: Seq<ContentHit>) -> Seq<HitView> {
    hits.map(|i: int, h: ContentHit| h@)
}

/// The matches of each hit can be shown in its line.
pub open spec fn hits_are_clean(hits: Seq<ContentHit>) -> bool {
    forall|i: int|
        0 <= i < hits.len() ==> are_clean((#[trigger] hits[i]).matches@, hits[i].context@)
}

// ---- The query ----

/// The pattern of a query that is a regular expression.
pub open spec fn regex_text(query: Seq<char>, whole_word: bool) -> Seq<char> {
    if whole_word {
        "\\b(?:"@ + query + ")\\b"@
    } else {
        query
    }
}

/// The query is a regular expression that cannot be compiled.
pub open spec fn has_bad_regex(query: Seq<char>, options: SearchOptions) -> bool {
    options.regex && regex_error(regex_text(query, options.whole_word), !options.match_case) is Some
}

/// Why a search with plain path filters cannot run; `None` where it can.
pub open spec fn search_error(
    query: Seq<char>,
    files_in: Seq<char>,
    files_out: Seq<char>,
    options: SearchOptions,
) -> Option<Seq<char>> {
    let text = regex_text(query, options.whole_word);
    if has_bad_regex(query, options) {
        Some("Invalid regular expression: "@ + regex_error(text, !options.match_case)->0)
    } else {
        match filter_error(files_in) {
            Some(error) => Some(filter_complaint("include"@, error)),
            None => match filter_error(files_out) {
                Some(error) => Some(filter_complaint("exclude"@, error)),
                None => None,
            },
        }
    }
}

/// A search that is ready to run.
pub struct SearchRun {
    pub query: String,
    pub options: SearchOptions,
    pub pattern: Option<regex::Regex>,
    pub includes: Option<globset::GlobSet>,
    pub excludes: Option<globset::GlobSet>,
    pub limit: usize,
}

/// The globs of a compiled filter, none where it was blank.
pub open spec fn compiled_globs(set: Option<globset::GlobSet>) -> Seq<Seq<char>> {
    match set {
        Some(set) => globs_of(set),
        None => Seq::empty(),
    }
}

pub open spec fn compiled_source(pattern: Option<regex::Regex>) -> Option<(Seq<char>, bool)> {
    match pattern {
        Some(re) => Some(regex_source(re)),
        None => None,
    }
}

/// Whether a file at `label` is searched: it matches the first filter, unless
/// that is blank, and not the second.
pub open spec fn path_wanted(files_in: Seq<char>, files_out: Seq<char>, label: Seq<char>) -> bool {
    &&& filter_globs(files_in).len() > 0 ==> matches_one(filter_globs(files_in), label)
    &&& filter_globs(files_out).len() > 0 ==> !matches_one(filter_globs(files_out), label)
}

impl SearchRun {
    /// The search for `query` that was asked for.
    pub open spec fn is_search(
        self,
        query: Seq<char>,
        files_in: Seq<char>,
        files_out: Seq<char>,
        options: SearchOptions,
        limit: usize,
    ) -> bool {
        &&& self.query@ == query
        &&& self.options == options
        &&& self.limit == limit
        &&& self.source() == (if options.regex {
            Some((regex_text(query, options.whole_word), !options.match_case))
        } else {
            None
        })
        &&& (self.includes is Some) == (filter_globs(files_in).len() > 0)
        &&& compiled_globs(self.includes) == filter_globs(files_in)
        &&& (self.excludes is Some) == (filter_globs(files_out).len() > 0)
        &&& compiled_globs(self.excludes) == filter_globs(files_out)
        &&& self.includes matches Some(set) ==> set_follows(set, filter_globs(files_in))
        &&& self.excludes matches Some(set) ==> set_follows(set, filter_globs(files_out))
    }

    pub open spec fn source(self) -> Option<(Seq<char>, bool)> {
        compiled_source(self.pattern)
    }

    /// Whether a file at `label` is searched.
    pub open spec fn path_is_wanted(self, label: Seq<char>) -> bool {
        &&& self.includes matches Some(set) ==> set_matches(set, label)
        &&& self.excludes matches Some(set) ==> !set_matches(set, label)
    }

    /// Prepare a search for `query` through the files that the two path filters
    /// leave. Nothing is searched without a query, or where nothing may be
    /// found. Whether a path filter with a backslash can be used depends on the
    /// platform.
    pub fn new(
        query: &str,
        files_in: &str,
        files_out: &str,
        options: SearchOptions,
        limit: usize,
    ) -> (res: Result<Option<SearchRun>, String>)
        ensures
            query@.len() == 0 || limit == 0 ==> res is Ok && res->Ok_0 is None,
            query@.len() > 0 && limit > 0 && res is Ok ==> res->Ok_0 is Some
                && res->Ok_0->0.is_search(query@, files_in@, files_out@, options, limit),
            query@.len() > 0 && limit > 0 && (has_bad_regex(query@, options) || (filter_is_plain(
                files_in@,
            ) && filter_is_plain(files_out@))) ==> match search_error(
                query@,
                files_in@,
                files_out@,
                options,
            ) {
                Some(error) => res is Err && res->Err_0@ == error,
                None => res is Ok,
            },
            res is Err && !has_bad_regex(query@, options) ==> (exists|error: Seq<char>|
                res->Err_0@ == #[trigger] filter_complaint("include"@, error)) || (exists|
                error: Seq<char>,
            |
                res->Err_0@ == #[trigger] filter_complaint("exclude"@, error)),
    {
        if query.is_empty() || limit == 0 {
            return Ok(None);
        }
        let pattern: Option<regex::Regex> = if options.regex {
            let mut text: String = String::new();
            if options.whole_word {
                text.append("\\b(?:");
                text.append(query);
                text.append(")\\b");
            } else {
                text.append(query);
            }
            assert(text@ =~= regex_text(query@, options.whole_word));
            match compile_regex(text.as_str(), !options.match_case) {
                Ok(re) => Some(re),
                Err(error) => {
                    let mut message: String = "Invalid regular expression: ".to_owned();
                    message.append(error.as_str());
                    return Err(message);
                },
            }
        } else {
            None
        };
        let includes: Option<globset::GlobSet> = match build_search_globs(files_in, "include") {
            Ok(set) => set,
            Err(message) => {
                return Err(message);
            },
        };
        let excludes: Option<globset::GlobSet> = match build_search_globs(files_out, "exclude") {
            Ok(set) => set,
            Err(message) => {
                return Err(message);
            },
        };
        let run: SearchRun = SearchRun {
            query: query.to_owned(),
            options,
            pattern,
            includes,
            excludes,
            limit,
        };
        proof {
            if filter_globs(files_in@).len() == 0 {
                assert(filter_globs(files_in@) =~= Seq::empty());
            }
            if filter_globs(files_out@).len() == 0 {
                assert(filter_globs(files_out@) =~= Seq::empty());
            }
        }
        Ok(Some(run))
    }

    /// Whether a file at `label` is searched.
    pub fn wants(&self, label: &str) -> (res: bool)
        ensures
            res == self.path_is_wanted(label@),
    {
        let in_place: bool = match &self.includes {
            Some(set) => globs_match(set, label),
            None => true,
        };
        if !in_place {
            return false;
        }
        match &self.excludes {
            Some(set) => !globs_match(set, label),
            None => true,
        }
    }
}

/// The two path filters decide which files a search reads, where no backslash is
/// in them or in the path.
pub proof fn law_filters_decide_the_files(
    run: SearchRun,
    query: Seq<char>,
    files_in: Seq<char>,
    files_out: Seq<char>,
    options: SearchOptions,
    limit: usize,
    label: Seq<char>,
)
    requires
        run.is_search(query, files_in, files_out, options, limit),
        filter_is_plain(files_in),
        filter_is_plain(files_out),
        is_plain(label),
    ensures
        run.path_is_wanted(label) == path_wanted(files_in, files_out, label),
{
}

// ---- The files ----

/// Larger files are not searched.
pub fn is_small_enough(bytes: u64) -> (res: bool)
    ensures
        res == (bytes <= 1_048_576),
{
    bytes <= CONTENT_SEARCH_MAX_BYTES
}

/// `std::str::from_utf8`: the text that bytes encode, `None` where they are no
/// UTF-8.
#[verifier::external_body]
fn decode(bytes: &[u8]) -> (res: Option<String>)
    ensures
        match res {
            Some(text) => vstd::utf8::valid_utf8(bytes@) && text@ == vstd::utf8::decode_utf8(
                bytes@,
            ),
            None => !vstd::utf8::valid_utf8(bytes@),
        },
{
    match std::str::from_utf8(bytes) {
        Ok(text) => Some(text.to_string()),
        Err(_) => None,
    }
}

/// The text of a file: bytes that are UTF-8 and hold no zero.
pub open spec fn file_text(bytes: Seq<u8>) -> Option<Seq<char>> {
    if bytes.contains(0u8) || !vstd::utf8::valid_utf8(bytes) {
        None
    } else {
        Some(vstd::utf8::decode_utf8(bytes))
    }
}

fn text_in(bytes: &[u8]) -> (res: Option<String>)
    ensures
        match res {
            Some(text) => file_text(bytes@) == Some(text@),
            None => file_text(bytes@) is None,
        },
{
    let mut i: usize = 0;
    while i < bytes.len()
        invariant
            i <= bytes@.len(),
            forall|k: int| 0 <= k < i ==> #[trigger] bytes@[k] != 0u8,
        decreases bytes@.len() - i,
    {
        if bytes[i] == 0 {
            assert(bytes@.contains(0u8));
            return None;
        }
        i += 1;
    }
    decode(bytes)
}

/// The hit of the `i`th line of a file.
pub open spec fn hit_at(
    path: Seq<char>,
    label: Seq<char>,
    i: int,
    line: Seq<char>,
    query: Seq<char>,
    options: SearchOptions,
    source: Option<(Seq<char>, bool)>,
) -> HitView {
    HitView {
        path,
        label,
        line: (i + 1) as nat,
        context: shown_line(line),
        matches: shown_ranges(line, line_ranges(line, query, options, source)),
    }
}

/// The hits behind the lines of a file from the `i`th on were searched, and
/// whether there are then as many as may be found.
pub open spec fn hits_from(
    path: Seq<char>,
    label: Seq<char>,
    list: Seq<Seq<char>>,
    i: int,
    query: Seq<char>,
    options: SearchOptions,
    source: Option<(Seq<char>, bool)>,
    limit: int,
    hits: Seq<HitView>,
) -> (Seq<HitView>, bool)
    decreases list.len() - i,
{
    if 0 <= i < list.len() {
        if line_matches(list[i], query, options, source) {
            let more = hits.push(hit_at(path, label, i, list[i], query, options, source));
            if more.len() >= limit {
                (more, true)
            } else {
                hits_from(path, label, list, i + 1, query, options, source, limit, more)
            }
        } else {
            hits_from(path, label, list, i + 1, query, options, source, limit, hits)
        }
    } else {
        (hits, false)
    }
}

impl SearchRun {
    /// The hits behind those there are, after a file that holds `bytes`.
    pub open spec fn hits_in(
        self,
        file: QuickFile,
        bytes: Seq<u8>,
        hits: Seq<HitView>,
    ) -> (Seq<HitView>, bool) {
        match file_text(bytes) {
            Some(text) => hits_from(
                file.path@,
                file.label@,
                lines(text),
                0,
                self.query@,
                self.options,
                self.source(),
                self.limit as int,
                hits,
            ),
            None => (hits, false),
        }
    }

    /// Search a file. The search is over once as many lines have been found as
    /// may be.
    pub fn scan_file(&self, file: &QuickFile, bytes: &[u8], hits: &mut Vec<ContentHit>) -> (full:
        bool)
        ensures
            (hit_views(final(hits)@), full) == self.hits_in(*file, bytes@, hit_views(old(hits)@)),
            hits_are_clean(old(hits)@) ==> hits_are_clean(final(hits)@),
    {
        let text: String = match text_in(bytes) {
            Some(text) => text,
            None => {
                return false;
            },
        };
        let chars: Vec<char> = to_chars(text.as_str());
        let list: Vec<String> = split_lines(chars.as_slice());
        let ghost views: Seq<Seq<char>> = lines(text@);
        let pattern: Option<&regex::Regex> = match &self.pattern {
            Some(re) => Some(re),
            None => None,
        };
        assert(source_of(pattern) == self.source());
        let mut i: usize = 0;
        let count: usize = list.len();
        let ghost answer = self.hits_in(*file, bytes@, hit_views(hits@));
        while i < count
            invariant
                i <= count,
                count == list@.len(),
                string_views(list@) == views,
                views.len() == list@.len(),
                source_of(pattern) == self.source(),
                hits_from(
                    file.path@,
                    file.label@,
                    views,
                    i as int,
                    self.query@,
                    self.options,
                    self.source(),
                    self.limit as int,
                    hit_views(hits@),
                ) == answer,
                answer == self.hits_in(*file, bytes@, hit_views(old(hits)@)),
                hits_are_clean(old(hits)@) ==> hits_are_clean(hits@),
            decreases count - i,
        {
            let line: &str = list[i].as_str();
            assert(views[i as int] == line@);
            if content_line_matches(line, self.query.as_str(), self.options, pattern) {
                let ranges: Vec<(usize, usize)> = content_line_match_ranges(
                    line,
                    self.query.as_str(),
                    self.options,
                    pattern,
                );
                let (context, matches): (String, Vec<(usize, usize)>) = content_hit_context(
                    line,
                    ranges.as_slice(),
                );
                let ghost before: Seq<ContentHit> = hits@;
                let hit: ContentHit = ContentHit {
                    path: file.path.clone(),
                    label: file.label.clone(),
                    line: i + 1,
                    context,
                    matches,
                };
                assert(hit@ == hit_at(
                    file.path@,
                    file.label@,
                    i as int,
                    line@,
                    self.query@,
                    self.options,
                    self.source(),
                ));
                hits.push(hit);
                assert(hit_views(hits@) =~= hit_views(before).push(hit@));
                if hits.len() >= self.limit {
                    return true;
                }
            }
            i += 1;
        }
        false
    }
}

} // verus!
