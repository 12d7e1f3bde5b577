//! What the Explorer promises of its search: which lines are found, and which
//! parts of them.

use crate::explorer_app::search::{
    byte_range, exact_ranges, folded_ranges, is_word_char, line_matches, line_ranges,
    literal_ranges, sources_from, stands_alone, with_range, SearchOptions,
};
use crate::text::{contains, find_from, lemma_find_from, lowercase, occurs_at};
use crate::utf8::{byte_len, bytes_before, lemma_bytes_increase};
use vstd::prelude::*;

verus! {

// ---- Search in a line ----

/// Whether no letter, number or underscore stands right before or right behind
/// `s[from..to]`.
pub open spec fn is_alone(s: Seq<char>, from: int, to: int) -> bool {
    &&& from > 0 ==> !is_word_char(s[from - 1])
    &&& to < s.len() ==> !is_word_char(s[to])
}

/// Whether a range is where the query stands in the line, at position `at`.
pub open spec fn is_found_at(
    line: Seq<char>,
    query: Seq<char>,
    at: int,
    range: (usize, usize),
) -> bool {
    &&& occurs_at(line, query, at)
    &&& range.0 == bytes_before(line, at)
    &&& range.1 == bytes_before(line, at + query.len())
}

/// Whether a range is some place of the query in the line from `from` on, with
/// nothing of a word beside it where whole words are asked for.
pub open spec fn is_found(
    line: Seq<char>,
    query: Seq<char>,
    whole_word: bool,
    from: int,
    range: (usize, usize),
) -> bool {
    exists|at: int|
        from <= at && #[trigger] is_found_at(line, query, at, range) && (whole_word ==> is_alone(
            line,
            at,
            at + query.len(),
        ))
}

/// Whether the place `at` of the query in the line lies in one of the ranges.
pub open spec fn is_covered(
    line: Seq<char>,
    query: Seq<char>,
    ranges: Seq<(usize, usize)>,
    at: int,
) -> bool {
    exists|p: int|
        p <= at < p + query.len() && #[trigger] occurs_at(line, query, p) && ranges.contains(
            byte_range(line, p, p + query.len()),
        )
}

proof fn lemma_found_at(line: Seq<char>, query: Seq<char>, at: int)
    requires
        byte_len(line) <= usize::MAX,
        occurs_at(line, query, at),
    ensures
        is_found_at(line, query, at, byte_range(line, at, at + query.len())),
{
    lemma_bytes_increase(line, at, line.len() as int);
    lemma_bytes_increase(line, at + query.len(), line.len() as int);
}

proof fn lemma_one_place(line: Seq<char>, query: Seq<char>, p: int, q: int, range: (usize, usize))
    requires
        is_found_at(line, query, p, range),
        is_found_at(line, query, q, range),
    ensures
        p == q,
{
    if p < q {
        lemma_bytes_increase(line, p, q);
    }
    if q < p {
        lemma_bytes_increase(line, q, p);
    }
}

proof fn lemma_exact_ranges_are_found(
    line: Seq<char>,
    query: Seq<char>,
    whole_word: bool,
    from: int,
)
    requires
        query.len() > 0,
        byte_len(line) <= usize::MAX,
        0 <= from <= line.len(),
    ensures
        forall|range: (usize, usize)| #[trigger]
            exact_ranges(line, query, whole_word, from).contains(range) ==> is_found(
                line,
                query,
                whole_word,
                from,
                range,
            ),
    decreases line.len() - from,
{
    let ranges = exact_ranges(line, query, whole_word, from);
    let at = find_from(line, query, from);
    lemma_find_from(line, query, from);
    if at >= 0 {
        let next = at + query.len();
        let here = byte_range(line, at, next);
        lemma_found_at(line, query, at);
        lemma_exact_ranges_are_found(line, query, whole_word, next);
        let rest = exact_ranges(line, query, whole_word, next);
        let kept = stands_alone(line, at, next, whole_word);
        assert forall|range: (usize, usize)| #[trigger] ranges.contains(range) implies is_found(
            line,
            query,
            whole_word,
            from,
            range,
        ) by {
            let k = choose|k: int| 0 <= k < ranges.len() && ranges[k] == range;
            if kept && k == 0 {
                assert(is_found_at(line, query, at, range));
            } else {
                assert(rest[if kept {
                    k - 1
                } else {
                    k
                }] == range);
                assert(rest.contains(range));
                let p = choose|p: int|
                    next <= p && #[trigger] is_found_at(line, query, p, range) && (whole_word
                        ==> is_alone(line, p, p + query.len()));
                assert(from <= p);
            }
        }
    }
}

proof fn lemma_exact_ranges_cover(line: Seq<char>, query: Seq<char>, from: int, q: int)
    requires
        query.len() > 0,
        0 <= from <= q,
        occurs_at(line, query, q),
    ensures
        is_covered(line, query, exact_ranges(line, query, false, from), q),
    decreases line.len() - from,
{
    let ranges = exact_ranges(line, query, false, from);
    let at = find_from(line, query, from);
    lemma_find_from(line, query, from);
    let next = at + query.len();
    let rest = exact_ranges(line, query, false, next);
    assert(ranges == seq![byte_range(line, at, next)] + rest);
    if q < next {
        assert(ranges[0] == byte_range(line, at, next));
        assert(occurs_at(line, query, at) && ranges.contains(byte_range(line, at, next)));
    } else {
        lemma_exact_ranges_cover(line, query, next, q);
        let p = choose|p: int|
            p <= q < p + query.len() && #[trigger] occurs_at(line, query, p) && rest.contains(
                byte_range(line, p, p + query.len()),
            );
        let range = byte_range(line, p, p + query.len());
        let k = choose|k: int| 0 <= k < rest.len() && rest[k] == range;
        assert(ranges[k + 1] == range);
        assert(ranges.contains(range));
    }
}

proof fn lemma_whole_words_are_kept(line: Seq<char>, query: Seq<char>, from: int)
    requires
        query.len() > 0,
        byte_len(line) <= usize::MAX,
        0 <= from <= line.len(),
    ensures
        forall|range: (usize, usize)| #[trigger]
            exact_ranges(line, query, true, from).contains(range) ==> exact_ranges(
                line,
                query,
                false,
                from,
            ).contains(range),
        forall|p: int, range: (usize, usize)|
            exact_ranges(line, query, false, from).contains(range) && #[trigger] is_found_at(
                line,
                query,
                p,
                range,
            ) && is_alone(line, p, p + query.len()) ==> exact_ranges(
                line,
                query,
                true,
                from,
            ).contains(range),
    decreases line.len() - from,
{
    let at = find_from(line, query, from);
    lemma_find_from(line, query, from);
    let all = exact_ranges(line, query, false, from);
    let words = exact_ranges(line, query, true, from);
    if at >= 0 {
        let next = at + query.len();
        let here = byte_range(line, at, next);
        lemma_found_at(line, query, at);
        lemma_whole_words_are_kept(line, query, next);
        let all_rest = exact_ranges(line, query, false, next);
        let words_rest = exact_ranges(line, query, true, next);
        assert(all == seq![here] + all_rest);
        let kept = stands_alone(line, at, next, true);
        assert(words == if kept {
            seq![here] + words_rest
        } else {
            words_rest
        });
        assert forall|range: (usize, usize)| #[trigger] words.contains(range) implies all.contains(
            range,
        ) by {
            let k = choose|k: int| 0 <= k < words.len() && words[k] == range;
            if kept && k == 0 {
                assert(all[0] == range);
            } else {
                let j = if kept {
                    k - 1
                } else {
                    k
                };
                assert(words_rest[j] == range);
                assert(words_rest.contains(range));
                let m = choose|m: int| 0 <= m < all_rest.len() && all_rest[m] == range;
                assert(all[m + 1] == range);
            }
        }
        assert forall|p: int, range: (usize, usize)|
            all.contains(range) && #[trigger] is_found_at(line, query, p, range) && is_alone(
                line,
                p,
                p + query.len(),
            ) implies words.contains(range) by {
            let k = choose|k: int| 0 <= k < all.len() && all[k] == range;
            if k == 0 {
                lemma_one_place(line, query, p, at, range);
                assert(kept);
                assert(words[0] == range);
            } else {
                assert(all_rest[k - 1] == range);
                assert(all_rest.contains(range));
                assert(words_rest.contains(range));
                let m = choose|m: int| 0 <= m < words_rest.len() && words_rest[m] == range;
                assert(words[if kept {
                    m + 1
                } else {
                    m
                }] == range);
            }
        }
    }
}

/// With regard to case, and without a pattern, a line holds the query where it
/// is found: every range that is found covers text equal to the query. Where
/// whole words are not asked for, something is found exactly where the line
/// contains the query, and every place of it lies in a range that was found.
/// Where they are, no letter, number or underscore stands beside a range.
pub proof fn law_exact_search_finds_the_query(
    line: Seq<char>,
    query: Seq<char>,
    options: SearchOptions,
)
    requires
        query.len() > 0,
        byte_len(line) <= usize::MAX,
        options.match_case,
    ensures
        ({
            let ranges = literal_ranges(line, query, options);
            &&& !options.whole_word ==> (ranges.len() > 0 <==> contains(line, query))
            &&& forall|range: (usize, usize)| #[trigger]
                ranges.contains(range) ==> is_found(line, query, options.whole_word, 0, range)
            &&& !options.whole_word ==> forall|at: int|
                occurs_at(line, query, at) ==> #[trigger] is_covered(line, query, ranges, at)
        }),
{
    let ranges = literal_ranges(line, query, options);
    lemma_exact_ranges_are_found(line, query, options.whole_word, 0);
    if !options.whole_word {
        assert forall|at: int| occurs_at(line, query, at) implies #[trigger] is_covered(
            line,
            query,
            ranges,
            at,
        ) by {
            lemma_exact_ranges_cover(line, query, 0, at);
        }
        if ranges.len() > 0 {
            assert(ranges.contains(ranges[0]));
            let at = choose|at: int| #[trigger] is_found_at(line, query, at, ranges[0]);
            assert(occurs_at(line, query, at));
        }
        if contains(line, query) {
            let at = choose|at: int| #[trigger] occurs_at(line, query, at);
            assert(is_covered(line, query, ranges, at));
        }
    }
}

/// Asking for whole words takes ranges away and adds none: of those that are
/// found without it, the ones stay that no letter, number or underscore stands
/// beside.
pub proof fn law_whole_words_are_the_ranges_that_stand_alone(
    line: Seq<char>,
    query: Seq<char>,
    options: SearchOptions,
)
    requires
        query.len() > 0,
        byte_len(line) <= usize::MAX,
        options.match_case,
    ensures
        ({
            let all = literal_ranges(line, query, SearchOptions { whole_word: false, ..options });
            let words = literal_ranges(line, query, SearchOptions { whole_word: true, ..options });
            &&& forall|range: (usize, usize)| #[trigger]
                words.contains(range) ==> all.contains(range)
            &&& forall|at: int, range: (usize, usize)|
                all.contains(range) && #[trigger] is_found_at(line, query, at, range) ==> (
                words.contains(range) <==> is_alone(line, at, at + query.len()))
        }),
{
    let all = literal_ranges(line, query, SearchOptions { whole_word: false, ..options });
    let words = literal_ranges(line, query, SearchOptions { whole_word: true, ..options });
    lemma_whole_words_are_kept(line, query, 0);
    lemma_exact_ranges_are_found(line, query, true, 0);
    assert forall|at: int, range: (usize, usize)|
        all.contains(range) && #[trigger] is_found_at(line, query, at, range) implies (
    words.contains(range) <==> is_alone(line, at, at + query.len())) by {
        if words.contains(range) {
            assert(exact_ranges(line, query, true, 0).contains(range));
            let p = choose|p: int|
                0 <= p && #[trigger] is_found_at(line, query, p, range) && is_alone(
                    line,
                    p,
                    p + query.len(),
                );
            lemma_one_place(line, query, at, p, range);
        }
    }
}

/// Whether a range is what `low[at..at + n]` was in the line before it was put
/// in lower case.
pub open spec fn is_traced_back(
    line: Seq<char>,
    needle: Seq<char>,
    low: Seq<char>,
    at: int,
    range: (usize, usize),
) -> bool {
    &&& occurs_at(low, needle, at)
    &&& range == byte_range(
        line,
        sources_from(line, 0)[at],
        sources_from(line, 0)[at + needle.len() - 1] + 1,
    )
}

/// Whether a range is what some place of the needle in the line in lower case
/// was before, with nothing of a word beside it where whole words are asked for.
pub open spec fn is_traced(
    line: Seq<char>,
    needle: Seq<char>,
    low: Seq<char>,
    whole_word: bool,
    range: (usize, usize),
) -> bool {
    exists|at: int| #[trigger]
        is_traced_back(line, needle, low, at, range) && (whole_word ==> is_alone(
            low,
            at,
            at + needle.len(),
        ))
}

proof fn lemma_folded_ranges_are_traced(
    line: Seq<char>,
    low: Seq<char>,
    needle: Seq<char>,
    whole_word: bool,
    from: int,
    found: Seq<(usize, usize)>,
)
    requires
        needle.len() > 0,
        0 <= from <= low.len(),
        forall|k: int|
            0 <= k < found.len() ==> is_traced(
                line,
                needle,
                low,
                whole_word,
                #[trigger] found[k],
            ),
    ensures
        ({
            let ranges = folded_ranges(line, low, needle, whole_word, from, found);
            &&& found.len() <= ranges.len()
            &&& forall|k: int|
                0 <= k < ranges.len() ==> is_traced(
                    line,
                    needle,
                    low,
                    whole_word,
                    #[trigger] ranges[k],
                )
            &&& !whole_word && find_from(low, needle, from) >= 0 ==> ranges.len() > 0
        }),
    decreases low.len() - from,
{
    let at = find_from(low, needle, from);
    lemma_find_from(low, needle, from);
    if at >= 0 {
        let next = at + needle.len();
        let range = byte_range(
            line,
            sources_from(line, 0)[at],
            sources_from(line, 0)[at + needle.len() - 1] + 1,
        );
        if stands_alone(low, at, next, whole_word) {
            assert(is_traced_back(line, needle, low, at, range));
            lemma_folded_ranges_are_traced(
                line,
                low,
                needle,
                whole_word,
                next,
                with_range(found, range),
            );
        } else {
            lemma_folded_ranges_are_traced(line, low, needle, whole_word, next, found);
        }
    }
}

/// Without regard to case, and without a pattern, the line is searched for the
/// query with both in lower case. Where the line in lower case can be traced
/// back, every range that is found is what some place of the query was before;
/// where whole words are not asked for, something is found exactly where the one
/// contains the other.
pub proof fn law_search_without_case_goes_by_lower_case(
    line: Seq<char>,
    query: Seq<char>,
    options: SearchOptions,
)
    requires
        query.len() > 0,
        lowercase(query).len() > 0,
        !options.match_case,
        sources_from(line, 0).len() == lowercase(line).len(),
    ensures
        ({
            let ranges = literal_ranges(line, query, options);
            let (low, needle) = (lowercase(line), lowercase(query));
            &&& !options.whole_word ==> (ranges.len() > 0 <==> contains(low, needle))
            &&& forall|k: int|
                0 <= k < ranges.len() ==> is_traced(
                    line,
                    needle,
                    low,
                    options.whole_word,
                    #[trigger] ranges[k],
                )
        }),
{
    let ranges = literal_ranges(line, query, options);
    let (low, needle) = (lowercase(line), lowercase(query));
    lemma_folded_ranges_are_traced(line, low, needle, options.whole_word, 0, Seq::empty());
    lemma_find_from(low, needle, 0);
    if !options.whole_word {
        if ranges.len() > 0 {
            assert(is_traced(line, needle, low, false, ranges[0]));
            let at = choose|at: int| #[trigger] is_traced_back(line, needle, low, at, ranges[0]);
            assert(occurs_at(low, needle, at));
        }
        if contains(low, needle) {
            let at = choose|at: int| #[trigger] occurs_at(low, needle, at);
            assert(0 <= at && occurs_at(low, needle, at));
        }
    }
}

proof fn lemma_plain_sources(line: Seq<char>, i: int)
    requires
        0 <= i <= line.len(),
        forall|k: int| 0 <= k < line.len() ==> lowercase(seq![#[trigger] line[k]]).len() == 1,
    ensures
        sources_from(line, i).len() == line.len() - i,
        forall|k: int| 0 <= k < line.len() - i ==> #[trigger] sources_from(line, i)[k] == i + k,
    decreases line.len() - i,
{
    if i < line.len() {
        lemma_plain_sources(line, i + 1);
        assert(lowercase(seq![line[i]]).len() == 1);
        let first = Seq::new(lowercase(seq![line[i]]).len(), |k: int| i);
        assert forall|k: int| 0 <= k < line.len() - i implies #[trigger] sources_from(line, i)[k]
            == i + k by {
            if k > 0 {
                assert(sources_from(line, i)[k] == sources_from(line, i + 1)[k - 1]);
            } else {
                assert(sources_from(line, i)[0] == first[0]);
            }
        }
    }
}

/// Where every character of a line has one in lower case, a place in the line
/// in lower case is the same place in the line.
pub proof fn law_plain_lines_are_traced_back_in_place(
    line: Seq<char>,
    query: Seq<char>,
    at: int,
    range: (usize, usize),
)
    requires
        lowercase(query).len() > 0,
        lowercase(line).len() == line.len(),
        forall|k: int| 0 <= k < line.len() ==> lowercase(seq![#[trigger] line[k]]).len() == 1,
        is_traced_back(line, lowercase(query), lowercase(line), at, range),
    ensures
        range == byte_range(line, at, at + lowercase(query).len()),
{
    lemma_plain_sources(line, 0);
}

/// A line is a hit exactly where some part of it is found; an empty query finds
/// nothing. A pattern takes the place of the query.
pub proof fn law_hits_have_ranges(line: Seq<char>, query: Seq<char>, options: SearchOptions)
    ensures
        line_matches(line, query, options, None) <==> line_ranges(
            line,
            query,
            options,
            None,
        ).len() > 0,
        query.len() == 0 ==> line_ranges(line, query, options, None).len() == 0,
        line_ranges(line, query, options, None) == literal_ranges(line, query, options),
{
}

} // verus!
