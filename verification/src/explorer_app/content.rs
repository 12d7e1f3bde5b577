//! A whole search: which of the files it reads, in order, and when it is over.

use crate::explorer_app::hits::{
    file_text, has_bad_regex, hit_at, hit_views, hits_are_clean, hits_from,
    law_filters_decide_the_files, search_error, ContentHit, HitView, SearchRun,
};
use crate::explorer_app::patterns::{filter_is_plain, is_plain};
use crate::explorer_app::quick::QuickFile;
use crate::explorer_app::search::{line_matches, SearchOptions};
use crate::text::lines;
use vstd::prelude::*;

verus! {

/// What a search finds from the `i`th file on, behind `hits`, and whether it
/// stopped because no more may be found. A file without contents was too large
/// or could not be read.
pub open spec fn found_from(
    run: SearchRun,
    files: Seq<QuickFile>,
    contents: Seq<Option<Seq<u8>>>,
    i: int,
    hits: Seq<HitView>,
) -> (Seq<HitView>, bool)
    decreases files.len() - i,
{
    if 0 <= i < files.len() {
        if run.path_is_wanted(files[i].label@) && contents[i] is Some {
            let (more, full) = run.hits_in(files[i], contents[i]->0, hits);
            if full {
                (more, true)
            } else {
                found_from(run, files, contents, i + 1, more)
            }
        } else {
            found_from(run, files, contents, i + 1, hits)
        }
    } else {
        (hits, false)
    }
}

/// What a list of read files holds.
pub open spec fn read_views(contents: Seq<Option<Vec<u8>>>) -> Seq<Option<Seq<u8>>> {
    contents.map(
        |i: int, c: Option<Vec<u8>>|
            match c {
                Some(bytes) => Some(bytes@),
                None => None,
            },
    )
}

/// A search under way. It names the files that it wants to read one by one and
/// is handed what they hold.
pub struct ContentSearch {
    pub run: SearchRun,
    pub files: Vec<QuickFile>,
    /// The file that is next.
    pub next: usize,
    pub hits: Vec<ContentHit>,
    /// As many lines have been found as may be.
    pub full: bool,
}

impl ContentSearch {
    pub open spec fn wf(&self) -> bool {
        self.next <= self.files@.len() && hits_are_clean(self.hits@)
    }

    /// What the search will have found where the files hold `contents`.
    pub open spec fn outcome(&self, contents: Seq<Option<Seq<u8>>>) -> (Seq<HitView>, bool) {
        if self.full {
            (hit_views(self.hits@), true)
        } else {
            found_from(
                self.run,
                self.files@,
                contents,
                self.next as int,
                hit_views(self.hits@),
            )
        }
    }

    pub fn new(run: SearchRun, files: Vec<QuickFile>) -> (res: Self)
        ensures
            res.wf(),
            res.run == run,
            res.files == files,
            res.next == 0,
            res.hits@.len() == 0,
            !res.full,
            forall|contents: Seq<Option<Seq<u8>>>| #[trigger]
                res.outcome(contents) == found_from(run, files@, contents, 0, Seq::empty()),
    {
        let hits: Vec<ContentHit> = Vec::new();
        assert(hit_views(hits@) =~= Seq::<HitView>::empty());
        ContentSearch { run, files, next: 0, hits, full: false }
    }

    /// The path of the next file to read; `None` once the search is over.
    pub fn next_file(&mut self) -> (res: Option<String>)
        requires
            old(self).wf(),
        ensures
            final(self).wf(),
            *final(self) == (ContentSearch { next: final(self).next, ..*old(self) }),
            old(self).next <= final(self).next,
            forall|contents: Seq<Option<Seq<u8>>>| #[trigger]
                final(self).outcome(contents) == old(self).outcome(contents),
            match res {
                Some(path) => {
                    &&& !final(self).full
                    &&& final(self).next < final(self).files@.len()
                    &&& path@ == final(self).files@[final(self).next as int].path@
                    &&& final(self).run.path_is_wanted(
                        final(self).files@[final(self).next as int].label@,
                    )
                },
                None => forall|contents: Seq<Option<Seq<u8>>>| #[trigger]
                    final(self).outcome(contents) == (hit_views(final(self).hits@), final(self).full),
            },
    {
        if self.full {
            return None;
        }
        let ghost start: ContentSearch = *self;
        while self.next < self.files.len()
            invariant
                start.wf(),
                !start.full,
                start == *old(self),
                self.wf(),
                *self == (ContentSearch { next: self.next, ..start }),
                start.next <= self.next,
                forall|contents: Seq<Option<Seq<u8>>>| #[trigger]
                    self.outcome(contents) == start.outcome(contents),
            decreases self.files@.len() - self.next,
        {
            if self.run.wants(self.files[self.next].label.as_str()) {
                return Some(self.files[self.next].path.clone());
            }
            let ghost before: ContentSearch = *self;
            self.next += 1;
            assert forall|contents: Seq<Option<Seq<u8>>>| #[trigger]
                self.outcome(contents) == start.outcome(contents) by {
                assert(before.outcome(contents) == start.outcome(contents));
            }
        }
        None
    }

    /// Search what the next file holds. One that is too large or cannot be read
    /// is passed over.
    pub fn read(&mut self, bytes: Option<&[u8]>)
        requires
            old(self).wf(),
            !old(self).full,
            old(self).next < old(self).files@.len(),
        ensures
            final(self).wf(),
            final(self).next == old(self).next + 1,
            final(self).run == old(self).run,
            final(self).files == old(self).files,
            match bytes {
                Some(bytes) => (hit_views(final(self).hits@), final(self).full) == old(
                    self,
                ).run.hits_in(
                    old(self).files@[old(self).next as int],
                    bytes@,
                    hit_views(old(self).hits@),
                ),
                None => final(self).hits == old(self).hits && !final(self).full,
            },
            old(self).run.path_is_wanted(old(self).files@[old(self).next as int].label@)
                ==> forall|contents: Seq<Option<Seq<u8>>>|
                contents[old(self).next as int] == (match bytes {
                    Some(bytes) => Some(bytes@),
                    None => None,
                }) ==> #[trigger] final(self).outcome(contents) == old(self).outcome(contents),
    {
        let count: usize = self.files.len();
        if let Some(bytes) = bytes {
            let file: &QuickFile = &self.files[self.next];
            self.full = self.run.scan_file(file, bytes, &mut self.hits);
        }
        assert(self.next < count);
        self.next += 1;
    }
}

/// Search `files`, whose contents were read, for `query`. The list is incomplete
/// where as many lines were found as may be, or where `partial` says that not
/// all files are listed. Whether a path filter with a backslash can be used
/// depends on the platform.
pub fn collect_content_hits(
    query: &str,
    files_in: &str,
    files_out: &str,
    options: SearchOptions,
    limit: usize,
    files: Vec<QuickFile>,
    contents: &Vec<Option<Vec<u8>>>,
    partial: bool,
) -> (res: Result<(Vec<ContentHit>, bool), String>)
    requires
        contents@.len() == files@.len(),
    ensures
        query@.len() == 0 || limit == 0 ==> res is Ok && res->Ok_0.0@.len() == 0 && !res->Ok_0.1,
        query@.len() > 0 && limit > 0 && res is Ok ==> exists|run: SearchRun| #[trigger]
            run.is_search(query@, files_in@, files_out@, options, limit) && ({
                let (found, full) = found_from(run, files@, read_views(contents@), 0, Seq::empty());
                hit_views(res->Ok_0.0@) == found && res->Ok_0.1 == (full || partial)
            }),
        query@.len() > 0 && limit > 0 && (has_bad_regex(query@, options) || (filter_is_plain(
            files_in@,
        ) && filter_is_plain(files_out@))) ==> match search_error(
            query@,
            files_in@,
            files_out@,
            options,
        ) {
            Some(error) => res is Err && res->Err_0@ == error,
            None => res is Ok,
        },
        res is Ok ==> hits_are_clean(res->Ok_0.0@),
{
    let run: SearchRun = match SearchRun::new(query, files_in, files_out, options, limit) {
        Ok(Some(run)) => run,
        Ok(None) => {
            return Ok((Vec::new(), false));
        },
        Err(message) => {
            return Err(message);
        },
    };
    let ghost views: Seq<Option<Seq<u8>>> = read_views(contents@);
    let ghost listed: Seq<QuickFile> = files@;
    let ghost first: SearchRun = run;
    let mut search: ContentSearch = ContentSearch::new(run, files);
    let ghost answer = found_from(first, listed, views, 0, Seq::empty());
    assert(search.outcome(views) == answer);
    let mut over: bool = false;
    while !over
        invariant
            search.wf(),
            search.run == first,
            search.files@ == listed,
            listed.len() == contents@.len(),
            views == read_views(contents@),
            search.outcome(views) == answer,
            over ==> answer == (hit_views(search.hits@), search.full),
        decreases (if over {
            0
        } else {
            search.files@.len() - search.next + 1
        }),
    {
        match search.next_file() {
            Some(_) => {
                assert(search.outcome(views) == answer);
                let bytes: Option<&[u8]> = match &contents[search.next] {
                    Some(bytes) => Some(bytes.as_slice()),
                    None => None,
                };
                search.read(bytes);
                assert(search.outcome(views) == answer);
            },
            None => {
                assert(search.outcome(views) == answer);
                over = true;
            },
        }
    }
    let incomplete: bool = search.full || partial;
    Ok((search.hits, incomplete))
}

// ---- Laws ----

/// What a search finds depends on what was asked for alone, not on how it was
/// prepared, where no backslash is in the path filters or in the labels. No label
/// that `gather_file` gives has one.
pub proof fn law_the_same_search_finds_the_same(
    a: SearchRun,
    b: SearchRun,
    query: Seq<char>,
    files_in: Seq<char>,
    files_out: Seq<char>,
    options: SearchOptions,
    limit: usize,
    files: Seq<QuickFile>,
    contents: Seq<Option<Seq<u8>>>,
    i: int,
    hits: Seq<HitView>,
)
    requires
        a.is_search(query, files_in, files_out, options, limit),
        b.is_search(query, files_in, files_out, options, limit),
        filter_is_plain(files_in),
        filter_is_plain(files_out),
        forall|j: int| 0 <= j < files.len() ==> is_plain((#[trigger] files[j]).label@),
        0 <= i,
    ensures
        found_from(a, files, contents, i, hits) == found_from(b, files, contents, i, hits),
    decreases files.len() - i,
{
    if i < files.len() {
        let label = files[i].label@;
        law_filters_decide_the_files(a, query, files_in, files_out, options, limit, label);
        law_filters_decide_the_files(b, query, files_in, files_out, options, limit, label);
        let more = a.hits_in(files[i], contents[i]->0, hits).0;
        law_the_same_search_finds_the_same(
            a,
            b,
            query,
            files_in,
            files_out,
            options,
            limit,
            files,
            contents,
            i + 1,
            more,
        );
        law_the_same_search_finds_the_same(
            a,
            b,
            query,
            files_in,
            files_out,
            options,
            limit,
            files,
            contents,
            i + 1,
            hits,
        );
    }
}

proof fn lemma_lines_stop_at_the_limit(
    path: Seq<char>,
    label: Seq<char>,
    list: Seq<Seq<char>>,
    i: int,
    query: Seq<char>,
    options: SearchOptions,
    source: Option<(Seq<char>, bool)>,
    limit: int,
    hits: Seq<HitView>,
)
    requires
        0 <= i,
        hits.len() < limit,
    ensures
        ({
            let (more, full) = hits_from(path, label, list, i, query, options, source, limit, hits);
            &&& more.len() <= limit
            &&& full == (more.len() == limit)
            &&& hits.len() <= more.len()
            &&& more.take(hits.len() as int) == hits
            &&& forall|k: int|
                hits.len() <= k < more.len() ==> (#[trigger] more[k]).path == path && more[k].label
                    == label
        }),
    decreases list.len() - i,
{
    if i < list.len() {
        if line_matches(list[i], query, options, source) {
            let next = hits.push(hit_at(path, label, i, list[i], query, options, source));
            if next.len() < limit {
                lemma_lines_stop_at_the_limit(
                    path,
                    label,
                    list,
                    i + 1,
                    query,
                    options,
                    source,
                    limit,
                    next,
                );
                let more = hits_from(
                    path,
                    label,
                    list,
                    i + 1,
                    query,
                    options,
                    source,
                    limit,
                    next,
                ).0;
                assert(more.take(hits.len() as int) =~= hits) by {
                    assert forall|k: int| 0 <= k < hits.len() implies more[k] == hits[k] by {
                        assert(more.take(next.len() as int)[k] == next[k]);
                    }
                }
                assert forall|k: int| hits.len() <= k < more.len() implies (
                #[trigger] more[k]).path == path && more[k].label == label by {
                    if k < next.len() {
                        assert(more.take(next.len() as int)[k] == next[k]);
                    }
                }
            } else {
                assert(next.take(hits.len() as int) =~= hits);
            }
        } else {
            lemma_lines_stop_at_the_limit(
                path,
                label,
                list,
                i + 1,
                query,
                options,
                source,
                limit,
                hits,
            );
        }
    } else {
        assert(hits.take(hits.len() as int) =~= hits);
    }
}

/// A search finds no more lines than it may, and stops exactly when it has
/// found that many.
pub proof fn law_searches_stop_at_the_limit(
    run: SearchRun,
    files: Seq<QuickFile>,
    contents: Seq<Option<Seq<u8>>>,
    i: int,
    hits: Seq<HitView>,
)
    requires
        0 <= i,
        hits.len() < run.limit,
    ensures
        found_from(run, files, contents, i, hits).0.len() <= run.limit,
        found_from(run, files, contents, i, hits).1 == (found_from(
            run,
            files,
            contents,
            i,
            hits,
        ).0.len() == run.limit),
    decreases files.len() - i,
{
    if i < files.len() {
        if run.path_is_wanted(files[i].label@) && contents[i] is Some {
            let (more, full) = run.hits_in(files[i], contents[i]->0, hits);
            if let Some(text) = file_text(contents[i]->0) {
                lemma_lines_stop_at_the_limit(
                    files[i].path@,
                    files[i].label@,
                    lines(text),
                    0,
                    run.query@,
                    run.options,
                    run.source(),
                    run.limit as int,
                    hits,
                );
            }
            if !full {
                law_searches_stop_at_the_limit(run, files, contents, i + 1, more);
            }
        } else {
            law_searches_stop_at_the_limit(run, files, contents, i + 1, hits);
        }
    }
}

/// A file that a hit can come from: one that the path filters leave, and that
/// could be read.
pub open spec fn is_source(
    run: SearchRun,
    files: Seq<QuickFile>,
    contents: Seq<Option<Seq<u8>>>,
    j: int,
    hit: HitView,
) -> bool {
    &&& 0 <= j < files.len()
    &&& hit.path == files[j].path@
    &&& hit.label == files[j].label@
    &&& run.path_is_wanted(files[j].label@)
    &&& contents[j] is Some
    &&& file_text(contents[j]->0) is Some
}

/// Each hit comes from a text file that the path filters leave.
pub proof fn law_hits_come_from_wanted_files(
    run: SearchRun,
    files: Seq<QuickFile>,
    contents: Seq<Option<Seq<u8>>>,
    i: int,
    hits: Seq<HitView>,
    k: int,
)
    requires
        0 <= i,
        hits.len() < run.limit,
        hits.len() <= k < found_from(run, files, contents, i, hits).0.len(),
    ensures
        exists|j: int| #[trigger]
            is_source(run, files, contents, j, found_from(run, files, contents, i, hits).0[k]),
    decreases files.len() - i,
{
    if i < files.len() {
        let found = found_from(run, files, contents, i, hits).0;
        if run.path_is_wanted(files[i].label@) && contents[i] is Some {
            let (more, full) = run.hits_in(files[i], contents[i]->0, hits);
            if let Some(text) = file_text(contents[i]->0) {
                lemma_lines_stop_at_the_limit(
                    files[i].path@,
                    files[i].label@,
                    lines(text),
                    0,
                    run.query@,
                    run.options,
                    run.source(),
                    run.limit as int,
                    hits,
                );
            }
            if full {
                assert(is_source(run, files, contents, i, found[k]));
            } else {
                lemma_found_keeps(run, files, contents, i + 1, more);
                if k < more.len() {
                    assert(found.take(more.len() as int)[k] == more[k]);
                    assert(is_source(run, files, contents, i, found[k]));
                } else {
                    law_hits_come_from_wanted_files(run, files, contents, i + 1, more, k);
                }
            }
        } else {
            law_hits_come_from_wanted_files(run, files, contents, i + 1, hits, k);
        }
    }
}

proof fn lemma_found_keeps(
    run: SearchRun,
    files: Seq<QuickFile>,
    contents: Seq<Option<Seq<u8>>>,
    i: int,
    hits: Seq<HitView>,
)
    requires
        0 <= i,
        hits.len() < run.limit,
    ensures
        hits.len() <= found_from(run, files, contents, i, hits).0.len(),
        found_from(run, files, contents, i, hits).0.take(hits.len() as int) == hits,
    decreases files.len() - i,
{
    let found = found_from(run, files, contents, i, hits).0;
    if i < files.len() {
        if run.path_is_wanted(files[i].label@) && contents[i] is Some {
            let (more, full) = run.hits_in(files[i], contents[i]->0, hits);
            if let Some(text) = file_text(contents[i]->0) {
                lemma_lines_stop_at_the_limit(
                    files[i].path@,
                    files[i].label@,
                    lines(text),
                    0,
                    run.query@,
                    run.options,
                    run.source(),
                    run.limit as int,
                    hits,
                );
            } else {
                assert(more.take(hits.len() as int) =~= hits);
            }
            if !full {
                lemma_found_keeps(run, files, contents, i + 1, more);
                assert(found.take(hits.len() as int) =~= hits) by {
                    assert forall|k: int| 0 <= k < hits.len() implies found[k] == hits[k] by {
                        assert(found.take(more.len() as int)[k] == more[k]);
                        assert(more.take(hits.len() as int)[k] == hits[k]);
                    }
                }
            }
        } else {
            lemma_found_keeps(run, files, contents, i + 1, hits);
        }
    } else {
        assert(found.take(hits.len() as int) =~= hits);
    }
}

} // verus!
