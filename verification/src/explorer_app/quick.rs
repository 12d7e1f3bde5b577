//! Quick open: files by a few characters of their paths.

use crate::explorer_app::patterns::is_plain;
use crate::ranking::{
    goes_before, lemma_text_order_is_transitive, lemma_texts_are_ordered, sort_positions,
    text_before, Ranking,
};
use crate::text::{lowercase, to_chars, to_lowercase};
use crate::utf8::{byte_len, byte_length};
use vstd::prelude::*;

verus! {

pub const QUICK_OPEN_FILE_LIMIT: usize = 20_000;

/// A file that quick open can find.
#[derive(Debug)]
pub struct QuickFile {
    pub path: String,
    /// The path below the root, with `/` between its components.
    pub label: String,
    pub label_lower: String,
}

// ---- Scores ----

/// Characters after which a name, or a part of one, starts.
pub open spec fn is_part_end(c: char) -> bool {
    c == '/' || c == '\\' || c == '-' || c == '_' || c == '.'
}

/// What the character at `i` adds to a score where it is the next one wanted:
/// more right behind the one found before, and more where a part of a name
/// starts.
pub open spec fn match_points(candidate: Seq<char>, i: int, last: Option<int>) -> int {
    10 + (if last == Some(i - 1) {
        8int
    } else {
        0
    }) + (if i == 0 || is_part_end(candidate[i - 1]) {
        6int
    } else {
        0
    })
}

/// The score of `candidate` from position `i` on, where the first `k`
/// characters of `query` were found before, the last of them at `last`, each at
/// the first place left for it. Longer candidates score less.
pub open spec fn score_from(
    query: Seq<char>,
    candidate: Seq<char>,
    i: int,
    k: int,
    last: Option<int>,
    score: int,
) -> Option<int>
    decreases candidate.len() - i,
{
    if k >= query.len() {
        Some(score - candidate.len())
    } else if i < 0 || i >= candidate.len() {
        None
    } else if candidate[i] == query[k] {
        score_from(
            query,
            candidate,
            i + 1,
            k + 1,
            Some(i),
            score + match_points(candidate, i, last),
        )
    } else {
        score_from(query, candidate, i + 1, k, last, score)
    }
}

/// How well `candidate` answers `query`; `None` where it does not hold its
/// characters in their order.
pub open spec fn fuzzy_score(query: Seq<char>, candidate: Seq<char>) -> Option<int> {
    if query.len() == 0 {
        Some(0)
    } else {
        score_from(query, candidate, 0, 0, None, 0)
    }
}

/// A score as far as 64 bits hold it.
pub open spec fn clipped(score: int) -> int {
    if score > i64::MAX {
        i64::MAX as int
    } else if score < i64::MIN {
        i64::MIN as int
    } else {
        score
    }
}

fn part_ends(c: char) -> (res: bool)
    ensures
        res == is_part_end(c),
{
    c == '/' || c == '\\' || c == '-' || c == '_' || c == '.'
}

/// How well a path answers a query, both in lower case.
pub fn fuzzy_score_lowercased(query: &str, candidate: &str) -> (res: Option<i64>)
    ensures
        match (res, fuzzy_score(query@, candidate@)) {
            (Some(score), Some(exact)) => score == clipped(exact),
            (None, None) => true,
            _ => false,
        },
{
    let wanted: Vec<char> = to_chars(query);
    let chars: Vec<char> = to_chars(candidate);
    if wanted.len() == 0 {
        return Some(0);
    }
    let length: usize = chars.len();
    let count: usize = wanted.len();
    let mut k: usize = 0;
    let mut score: i128 = 0;
    let mut last: Option<usize> = None;
    let mut i: usize = 0;
    while i < length
        invariant
            i <= length,
            length == chars@.len(),
            chars@ == candidate@,
            wanted@ == query@,
            count == wanted@.len(),
            k < count,
            0 <= score <= 24 * i,
            last is Some ==> last->0 < i,
            score_from(
                query@,
                candidate@,
                i as int,
                k as int,
                (match last {
                    Some(at) => Some(at as int),
                    None => None,
                }),
                score as int,
            ) == fuzzy_score(query@, candidate@),
        decreases length - i,
    {
        if chars[i] == wanted[k] {
            let follows: bool = match last {
                Some(at) => at + 1 == i,
                None => false,
            };
            let mut points: i128 = 10;
            if follows {
                points += 8;
            }
            if i == 0 || part_ends(chars[i - 1]) {
                points += 6;
            }
            assert(points == match_points(
                candidate@,
                i as int,
                match last {
                    Some(at) => Some(at as int),
                    None => None,
                },
            ));
            score += points;
            last = Some(i);
            k += 1;
            assert(score_from(
                query@,
                candidate@,
                i + 1,
                k as int,
                Some(i as int),
                score as int,
            ) == fuzzy_score(query@, candidate@));
            if k == count {
                let total: i128 = score - length as i128;
                assert(fuzzy_score(query@, candidate@) == Some(total as int));
                if total > i64::MAX as i128 {
                    return Some(i64::MAX);
                }
                if total < i64::MIN as i128 {
                    return Some(i64::MIN);
                }
                return Some(total as i64);
            }
        }
        i += 1;
    }
    None
}

// ---- What a score means ----

/// `at` are places of the characters of `query` from the `k`th on, in
/// `candidate` from position `i` on and in their order.
pub open spec fn are_places(
    query: Seq<char>,
    candidate: Seq<char>,
    i: int,
    k: int,
    at: Seq<int>,
) -> bool {
    &&& at.len() == query.len() - k
    &&& forall|j: int|
        0 <= j < at.len() ==> i <= #[trigger] at[j] < candidate.len() && candidate[at[j]] == query[k
            + j]
    &&& forall|j: int, l: int| 0 <= j < l < at.len() ==> #[trigger] at[j] < #[trigger] at[l]
}

proof fn lemma_scored_has_places(
    query: Seq<char>,
    candidate: Seq<char>,
    i: int,
    k: int,
    last: Option<int>,
    score: int,
) -> (at: Seq<int>)
    requires
        0 <= i <= candidate.len(),
        0 <= k <= query.len(),
        score_from(query, candidate, i, k, last, score) is Some,
    ensures
        are_places(query, candidate, i, k, at),
    decreases candidate.len() - i,
{
    if k >= query.len() {
        Seq::empty()
    } else if candidate[i] == query[k] {
        let rest = lemma_scored_has_places(
            query,
            candidate,
            i + 1,
            k + 1,
            Some(i),
            score + match_points(candidate, i, last),
        );
        let at = seq![i] + rest;
        assert forall|j: int| 0 <= j < at.len() implies i <= #[trigger] at[j] < candidate.len()
            && candidate[at[j]] == query[k + j] by {
            if j > 0 {
                assert(at[j] == rest[j - 1]);
            }
        }
        assert forall|j: int, l: int| 0 <= j < l < at.len() implies #[trigger] at[j]
            < #[trigger] at[l] by {
            assert(at[l] == rest[l - 1]);
            if j > 0 {
                assert(at[j] == rest[j - 1]);
            }
        }
        at
    } else {
        lemma_scored_has_places(query, candidate, i + 1, k, last, score)
    }
}

proof fn lemma_places_are_scored(
    query: Seq<char>,
    candidate: Seq<char>,
    i: int,
    k: int,
    last: Option<int>,
    score: int,
    at: Seq<int>,
)
    requires
        0 <= i <= candidate.len(),
        0 <= k <= query.len(),
        are_places(query, candidate, i, k, at),
    ensures
        score_from(query, candidate, i, k, last, score) is Some,
    decreases candidate.len() - i,
{
    if k < query.len() {
        assert(i <= at[0] < candidate.len());
        if candidate[i] == query[k] {
            let rest = at.skip(1);
            assert forall|j: int| 0 <= j < rest.len() implies i + 1 <= #[trigger] rest[j]
                < candidate.len() && candidate[rest[j]] == query[k + 1 + j] by {
                assert(rest[j] == at[j + 1]);
                assert(at[0] < at[j + 1]);
            }
            assert forall|j: int, l: int| 0 <= j < l < rest.len() implies #[trigger] rest[j]
                < #[trigger] rest[l] by {
                assert(at[j + 1] < at[l + 1]);
            }
            lemma_places_are_scored(
                query,
                candidate,
                i + 1,
                k + 1,
                Some(i),
                score + match_points(candidate, i, last),
                rest,
            );
        } else {
            assert(at[0] != i);
            assert forall|j: int| 0 <= j < at.len() implies i + 1 <= #[trigger] at[j]
                < candidate.len() && candidate[at[j]] == query[k + j] by {
                if j > 0 {
                    assert(at[0] < at[j]);
                }
            }
            lemma_places_are_scored(query, candidate, i + 1, k, last, score, at);
        }
    }
}

/// Quick open finds the paths that hold the characters of the query in their
/// order, and no others.
pub proof fn law_quick_open_finds_subsequences(query: Seq<char>, candidate: Seq<char>)
    ensures
        fuzzy_score(query, candidate) is Some <==> exists|at: Seq<int>|
            are_places(query, candidate, 0, 0, at),
{
    if query.len() == 0 {
        assert(are_places(query, candidate, 0, 0, Seq::empty()));
    } else {
        if fuzzy_score(query, candidate) is Some {
            let at = lemma_scored_has_places(query, candidate, 0, 0, None, 0);
            assert(are_places(query, candidate, 0, 0, at));
        }
        if exists|at: Seq<int>| are_places(query, candidate, 0, 0, at) {
            let at = choose|at: Seq<int>| are_places(query, candidate, 0, 0, at);
            lemma_places_are_scored(query, candidate, 0, 0, None, 0, at);
        }
    }
}

/// Whether a name or a part of one starts at `i`.
pub open spec fn starts_part(candidate: Seq<char>, i: int) -> bool {
    i == 0 || candidate[i - 1] == '/' || candidate[i - 1] == '\\' || candidate[i - 1] == '-'
        || candidate[i - 1] == '_' || candidate[i - 1] == '.'
}

/// Whether no place between `from` and `to` holds the character.
pub open spec fn lacks(s: Seq<char>, c: char, from: int, to: int) -> bool {
    forall|m: int| from <= m < to ==> #[trigger] s[m] != c
}

/// Whether the `j`th of the places is the first one left for its character, the
/// `k + j`th of `query`.
pub open spec fn is_first_left(
    query: Seq<char>,
    candidate: Seq<char>,
    i: int,
    k: int,
    at: Seq<int>,
    j: int,
) -> bool {
    lacks(
        candidate,
        query[k + j],
        if j == 0 {
            i
        } else {
            at[j - 1] + 1
        },
        at[j],
    )
}

/// `at` are the places of the characters of `query` from the `k`th on, each the
/// first one left for it from position `i` on.
pub open spec fn are_first_places(
    query: Seq<char>,
    candidate: Seq<char>,
    i: int,
    k: int,
    at: Seq<int>,
) -> bool {
    &&& are_places(query, candidate, i, k, at)
    &&& forall|j: int|
        0 <= j < at.len() ==> #[trigger] is_first_left(query, candidate, i, k, at, j)
}

/// How many of the first `n` places are right behind the one before.
pub open spec fn neighbours(at: Seq<int>, n: int) -> int
    decreases n,
{
    if n <= 1 {
        0
    } else {
        neighbours(at, n - 1) + (if at[n - 1] == at[n - 2] + 1 {
            1int
        } else {
            0
        })
    }
}

/// How many of the first `n` places start a name or a part of one.
pub open spec fn starts(candidate: Seq<char>, at: Seq<int>, n: int) -> int
    decreases n,
{
    if n <= 0 {
        0
    } else {
        starts(candidate, at, n - 1) + (if starts_part(candidate, at[n - 1]) {
            1int
        } else {
            0
        })
    }
}

proof fn lemma_scored_has_first_places(
    query: Seq<char>,
    candidate: Seq<char>,
    i: int,
    k: int,
    last: Option<int>,
    score: int,
) -> (at: Seq<int>)
    requires
        0 <= i <= candidate.len(),
        0 <= k <= query.len(),
        score_from(query, candidate, i, k, last, score) is Some,
    ensures
        are_first_places(query, candidate, i, k, at),
    decreases candidate.len() - i,
{
    if k >= query.len() {
        Seq::empty()
    } else if candidate[i] == query[k] {
        let rest = lemma_scored_has_first_places(
            query,
            candidate,
            i + 1,
            k + 1,
            Some(i),
            score + match_points(candidate, i, last),
        );
        let at = seq![i] + rest;
        assert forall|j: int| 0 <= j < at.len() implies i <= #[trigger] at[j] < candidate.len()
            && candidate[at[j]] == query[k + j] by {
            if j > 0 {
                assert(at[j] == rest[j - 1]);
            }
        }
        assert forall|j: int, l: int| 0 <= j < l < at.len() implies #[trigger] at[j]
            < #[trigger] at[l] by {
            assert(at[l] == rest[l - 1]);
            if j > 0 {
                assert(at[j] == rest[j - 1]);
            }
        }
        assert forall|j: int| 0 <= j < at.len() implies #[trigger] is_first_left(
            query,
            candidate,
            i,
            k,
            at,
            j,
        ) by {
            if j > 0 {
                assert(is_first_left(query, candidate, i + 1, k + 1, rest, j - 1));
                assert(at[j] == rest[j - 1]);
                assert(query[k + j] == query[k + 1 + (j - 1)]);
                if j > 1 {
                    assert(at[j - 1] == rest[j - 2]);
                }
            }
        }
        at
    } else {
        let at = lemma_scored_has_first_places(query, candidate, i + 1, k, last, score);
        assert forall|j: int| 0 <= j < at.len() implies #[trigger] is_first_left(
            query,
            candidate,
            i,
            k,
            at,
            j,
        ) by {
            assert(is_first_left(query, candidate, i + 1, k, at, j));
        }
        at
    }
}

proof fn lemma_points_of_places(
    query: Seq<char>,
    candidate: Seq<char>,
    at: Seq<int>,
    i: int,
    k: int,
)
    requires
        are_first_places(query, candidate, 0, 0, at),
        0 <= k <= query.len(),
        (if k == 0 {
            0
        } else {
            at[k - 1] + 1
        }) <= i <= candidate.len(),
        k < query.len() ==> i <= at[k],
    ensures
        score_from(
            query,
            candidate,
            i,
            k,
            if k == 0 {
                None
            } else {
                Some(at[k - 1])
            },
            10 * k + 8 * neighbours(at, k) + 6 * starts(candidate, at, k),
        ) == Some(
            10 * query.len() + 8 * neighbours(at, query.len() as int) + 6 * starts(
                candidate,
                at,
                query.len() as int,
            ) - candidate.len(),
        ),
    decreases candidate.len() - i,
{
    if k < query.len() {
        assert(0 <= at[k] < candidate.len() && candidate[at[k]] == query[k]);
        assert(is_first_left(query, candidate, 0, 0, at, k));
        if i == at[k] {
            if k + 1 < query.len() {
                assert(at[k] < at[k + 1]);
            }
            lemma_points_of_places(query, candidate, at, i + 1, k + 1);
        } else {
            assert(candidate[i] != query[k]);
            lemma_points_of_places(query, candidate, at, i + 1, k);
        }
    }
}

/// Each character of a query is found at the first place left for it. Every one
/// adds ten points, eight more right behind the one found before, six more where
/// a name or a part of one starts; each character of the path takes one away.
pub proof fn law_each_character_adds_its_points(query: Seq<char>, candidate: Seq<char>)
    requires
        query.len() > 0,
    ensures
        fuzzy_score(query, candidate) is Some <==> exists|at: Seq<int>|
            are_first_places(query, candidate, 0, 0, at),
        forall|at: Seq<int>| #[trigger]
            are_first_places(query, candidate, 0, 0, at) ==> fuzzy_score(query, candidate) == Some(
                10 * query.len() + 8 * neighbours(at, query.len() as int) + 6 * starts(
                    candidate,
                    at,
                    query.len() as int,
                ) - candidate.len(),
            ),
{
    assert forall|at: Seq<int>| #[trigger]
        are_first_places(query, candidate, 0, 0, at) implies fuzzy_score(query, candidate) == Some(
        10 * query.len() + 8 * neighbours(at, query.len() as int) + 6 * starts(
            candidate,
            at,
            query.len() as int,
        ) - candidate.len(),
    ) by {
        assert(0 <= at[0] < candidate.len());
        lemma_points_of_places(query, candidate, at, 0, 0);
    }
    if fuzzy_score(query, candidate) is Some {
        let at = lemma_scored_has_first_places(query, candidate, 0, 0, None, 0);
        assert(are_first_places(query, candidate, 0, 0, at));
    }
}

/// Whether the places are one unbroken run.
pub open spec fn is_run(at: Seq<int>) -> bool {
    forall|j: int| 0 < j < at.len() ==> #[trigger] at[j] == at[j - 1] + 1
}

/// Whether no place behind a gap starts a part of a name.
pub open spec fn gaps_start_nothing(candidate: Seq<char>, at: Seq<int>) -> bool {
    forall|j: int|
        0 < j < at.len() && #[trigger] at[j] != at[j - 1] + 1 ==> !starts_part(candidate, at[j])
}

proof fn lemma_runs_gain(
    query: Seq<char>,
    left: Seq<char>,
    right: Seq<char>,
    at: Seq<int>,
    gapped: Seq<int>,
    n: int,
)
    requires
        are_places(query, left, 0, 0, at),
        are_places(query, right, 0, 0, gapped),
        is_run(at),
        gaps_start_nothing(right, gapped),
        1 <= n <= query.len(),
    ensures
        neighbours(at, n) == n - 1,
        neighbours(gapped, n) <= n - 1,
        starts(left, at, n) + 1 >= starts(right, gapped, n),
        (exists|j: int| 0 < j < n && #[trigger] gapped[j] != gapped[j - 1] + 1) ==> neighbours(
            gapped,
            n,
        ) < n - 1,
    decreases n,
{
    if n == 1 {
        assert(starts(left, at, 0) == 0);
        assert(starts(right, gapped, 0) == 0);
    } else {
        lemma_runs_gain(query, left, right, at, gapped, n - 1);
        assert(at[n - 1] == at[n - 1 - 1] + 1);
        assert(left[at[n - 2]] == query[0 + (n - 2)]);
        assert(right[gapped[n - 2]] == query[0 + (n - 2)]);
        assert(0 <= gapped[n - 2] < gapped[n - 1]);
        if gapped[n - 1] != gapped[n - 1 - 1] + 1 {
            assert(!starts_part(right, gapped[n - 1]));
        }
        if exists|j: int| 0 < j < n && #[trigger] gapped[j] != gapped[j - 1] + 1 {
            let j = choose|j: int| 0 < j < n && #[trigger] gapped[j] != gapped[j - 1] + 1;
            if j < n - 1 {
                assert(gapped[j] != gapped[j - 1] + 1);
            }
        }
    }
}

/// A query that is found in a path as one unbroken run scores more than where it
/// is found with gaps that start no part of a name, in a path that is not
/// shorter.
pub proof fn law_a_run_outscores_gaps(
    query: Seq<char>,
    left: Seq<char>,
    right: Seq<char>,
    at: Seq<int>,
    gapped: Seq<int>,
)
    requires
        query.len() > 0,
        are_first_places(query, left, 0, 0, at),
        are_first_places(query, right, 0, 0, gapped),
        is_run(at),
        !is_run(gapped),
        gaps_start_nothing(right, gapped),
        left.len() <= right.len(),
    ensures
        fuzzy_score(query, left) matches Some(x) && fuzzy_score(query, right) matches Some(y) && x
            > y,
{
    law_each_character_adds_its_points(query, left);
    law_each_character_adds_its_points(query, right);
    lemma_runs_gain(query, left, right, at, gapped, query.len() as int);
    let j = choose|j: int| 0 < j < gapped.len() && #[trigger] gapped[j] != gapped[j - 1] + 1;
    assert(0 < j < query.len() && gapped[j] != gapped[j - 1] + 1);
}

// ---- The order of the answers ----

/// The score of the `a`th file.
pub open spec fn score_of(files: Seq<QuickFile>, query: Seq<char>, a: int) -> int {
    match fuzzy_score(query, files[a].label_lower@) {
        Some(score) => clipped(score),
        None => 0,
    }
}

/// Whether the `a`th file is a better answer than the `b`th: by score, then the
/// shorter path, then by the path, then the one that was found first.
pub open spec fn answers_better(files: Seq<QuickFile>, query: Seq<char>, a: int, b: int) -> bool {
    let (x, y) = (score_of(files, query, a), score_of(files, query, b));
    let (m, n) = (byte_len(files[a].label@), byte_len(files[b].label@));
    if x != y {
        x > y
    } else if m != n {
        m < n
    } else if files[a].label@ != files[b].label@ {
        text_before(files[a].label@, files[b].label@)
    } else {
        a < b
    }
}

struct ByScore<'a> {
    files: &'a [QuickFile],
    query: Ghost<Seq<char>>,
    scores: &'a Vec<Option<i64>>,
    lengths: &'a Vec<usize>,
}

impl<'a> Ranking for ByScore<'a> {
    closed spec fn covers(&self, a: int) -> bool {
        &&& 0 <= a < self.files@.len()
        &&& a < self.scores@.len()
        &&& a < self.lengths@.len()
        &&& self.scores@[a] matches Some(score)
        &&& score == score_of(self.files@, self.query@, a)
        &&& self.lengths@[a] == byte_len(self.files@[a].label@)
    }

    closed spec fn before(&self, a: int, b: int) -> bool {
        answers_better(self.files@, self.query@, a, b)
    }

    proof fn order_is_total(&self, a: int, b: int) {
        lemma_texts_are_ordered(self.files@[a].label@, self.files@[b].label@);
    }

    proof fn order_is_transitive(&self, a: int, b: int, c: int) {
        let (x, y, z) = (self.files@[a].label@, self.files@[b].label@, self.files@[c].label@);
        lemma_texts_are_ordered(x, y);
        lemma_texts_are_ordered(y, z);
        lemma_texts_are_ordered(x, z);
        if text_before(x, y) && text_before(y, z) {
            lemma_text_order_is_transitive(x, y, z);
        }
    }

    fn goes_first(&self, a: usize, b: usize) -> (res: bool) {
        let x: i64 = match self.scores[a] {
            Some(score) => score,
            None => 0,
        };
        let y: i64 = match self.scores[b] {
            Some(score) => score,
            None => 0,
        };
        if x != y {
            return x > y;
        }
        if self.lengths[a] != self.lengths[b] {
            return self.lengths[a] < self.lengths[b];
        }
        let left: Vec<char> = to_chars(self.files[a].label.as_str());
        let right: Vec<char> = to_chars(self.files[b].label.as_str());
        if goes_before(left.as_slice(), right.as_slice()) {
            proof {
                lemma_texts_are_ordered(left@, right@);
            }
            return true;
        }
        if goes_before(right.as_slice(), left.as_slice()) {
            proof {
                lemma_texts_are_ordered(left@, right@);
            }
            return false;
        }
        proof {
            lemma_texts_are_ordered(left@, right@);
        }
        a < b
    }
}

/// Whether the `a`th file answers the query.
pub open spec fn answers(files: Seq<QuickFile>, query: Seq<char>, a: int) -> bool {
    0 <= a < files.len() && fuzzy_score(query, files[a].label_lower@) is Some
}

/// `found` are the files that answer a query, the best first; all of them in
/// their order where there is no query.
#[verifier::opaque]
pub open spec fn are_answers(files: Seq<QuickFile>, query: Seq<char>, found: Seq<usize>) -> bool {
    if query.len() == 0 {
        found == Seq::new(files.len(), |i: int| i as usize)
    } else {
        &&& forall|a: usize|
            #[trigger] found.contains(a) <==> answers(files, lowercase(query), a as int)
        &&& forall|i: int, j: int|
            0 <= i < j < found.len() ==> answers_better(
                files,
                lowercase(query),
                #[trigger] found[i] as int,
                #[trigger] found[j] as int,
            )
    }
}

/// Each of the found files is there.
pub proof fn lemma_answers_are_files(files: Seq<QuickFile>, query: Seq<char>, found: Seq<usize>)
    requires
        are_answers(files, query, found),
        files.len() <= usize::MAX,
    ensures
        forall|i: int| 0 <= i < found.len() ==> (#[trigger] found[i]) < files.len(),
{
    reveal(are_answers);
    assert forall|i: int| 0 <= i < found.len() implies (#[trigger] found[i]) < files.len() by {
        if query.len() > 0 {
            assert(found.contains(found[i]));
        }
    }
}

/// The files that answer a query, the best first; all of them in their order
/// where there is no query.
pub fn quick_matches(files: &[QuickFile], query: &str) -> (res: Vec<usize>)
    ensures
        are_answers(files@, query@, res@),
{
    reveal(are_answers);
    let mut found: Vec<usize> = Vec::new();
    let count: usize = files.len();
    let mut i: usize = 0;
    if query.is_empty() {
        while i < count
            invariant
                i <= count,
                found@ == Seq::new(i as nat, |k: int| k as usize),
            decreases count - i,
        {
            found.push(i);
            i += 1;
            assert(found@ =~= Seq::new(i as nat, |k: int| k as usize));
        }
        return found;
    }
    let query_lower: String = to_lowercase(query);
    let ghost wanted: Seq<char> = lowercase(query@);
    let mut scores: Vec<Option<i64>> = Vec::new();
    let mut lengths: Vec<usize> = Vec::new();
    while i < count
        invariant
            i <= count,
            count == files@.len(),
            query_lower@ == wanted,
            scores@.len() == i,
            lengths@.len() == i,
            forall|k: int| 0 <= k < i ==> #[trigger] lengths@[k] == byte_len(files@[k].label@),
            forall|k: int|
                0 <= k < i && answers(files@, wanted, k) ==> (#[trigger] scores@[k] matches Some(
                    score,
                ) && score == score_of(files@, wanted, k)),
            forall|k: int| 0 <= k < found@.len() ==> #[trigger] found@[k] < i,
            forall|a: usize|
                #[trigger] found@.contains(a) <==> a < i && answers(files@, wanted, a as int),
            found@.no_duplicates(),
        decreases count - i,
    {
        let score: Option<i64> = fuzzy_score_lowercased(
            query_lower.as_str(),
            files[i].label_lower.as_str(),
        );
        let ghost before: Seq<usize> = found@;
        scores.push(score);
        lengths.push(byte_length(files[i].label.as_str()));
        if score.is_some() {
            found.push(i);
            assert(found@[before.len() as int] == i);
            assert forall|a: usize| #[trigger] found@.contains(a) <==> a < i + 1 && answers(
                files@,
                wanted,
                a as int,
            ) by {
                if before.contains(a) {
                    let k = choose|k: int| 0 <= k < before.len() && before[k] == a;
                    assert(found@[k] == a);
                }
            }
        }
        i += 1;
    }
    let ranking: ByScore = ByScore {
        files,
        query: Ghost(wanted),
        scores: &scores,
        lengths: &lengths,
    };
    assert forall|k: int| 0 <= k < found@.len() implies ranking.covers(
        #[trigger] found@[k] as int,
    ) by {
        assert(found@.contains(found@[k]));
    }
    let res: Vec<usize> = sort_positions(&ranking, &found);
    assert forall|i: int, j: int| 0 <= i < j < res@.len() implies answers_better(
        files@,
        wanted,
        #[trigger] res@[i] as int,
        #[trigger] res@[j] as int,
    ) by {
        assert(ranking.before(res@[i] as int, res@[j] as int));
    }
    res
}

// ---- Gathering files ----

/// Whether the score of every path that is answered fits 64 bits.
pub open spec fn scores_fit(files: Seq<QuickFile>) -> bool {
    forall|a: int| 0 <= a < files.len() ==> 24 * (#[trigger] files[a]).label_lower@.len() <= i64::MAX
}

proof fn lemma_scores_are_small(query: Seq<char>, candidate: Seq<char>, at: Seq<int>, n: int)
    requires
        are_places(query, candidate, 0, 0, at),
        0 <= n <= at.len(),
    ensures
        0 <= neighbours(at, n) <= n,
        0 <= starts(candidate, at, n) <= n,
        n > 0 ==> n - 1 <= at[n - 1] < candidate.len(),
    decreases n,
{
    if n > 0 {
        lemma_scores_are_small(query, candidate, at, n - 1);
        assert(0 <= at[n - 1] < candidate.len());
        if n > 1 {
            assert(at[n - 2] < at[n - 1]);
        }
    }
}

proof fn lemma_scores_fit(query: Seq<char>, candidate: Seq<char>)
    requires
        query.len() > 0,
        24 * candidate.len() <= i64::MAX,
        fuzzy_score(query, candidate) is Some,
    ensures
        i64::MIN <= fuzzy_score(query, candidate)->0 <= i64::MAX,
{
    law_each_character_adds_its_points(query, candidate);
    let at = choose|at: Seq<int>| are_first_places(query, candidate, 0, 0, at);
    lemma_scores_are_small(query, candidate, at, at.len() as int);
}

/// Quick open lists every file whose path in lower case holds the characters of
/// the query in lower case and in their order, each once. A file that is listed
/// before another one scores more, or as much with a path of fewer bytes, or as
/// much with as many bytes and a path that is no later in the order of texts.
pub proof fn law_better_scores_are_listed_first(
    files: Seq<QuickFile>,
    query: Seq<char>,
    found: Seq<usize>,
    i: int,
    j: int,
)
    requires
        query.len() > 0,
        lowercase(query).len() > 0,
        scores_fit(files),
        files.len() <= usize::MAX,
        are_answers(files, query, found),
        0 <= i < j < found.len(),
    ensures
        found[i] != found[j],
        found[i] < files.len(),
        found[j] < files.len(),
        fuzzy_score(lowercase(query), files[found[i] as int].label_lower@) matches Some(x)
            && fuzzy_score(lowercase(query), files[found[j] as int].label_lower@) matches Some(y)
            && {
            ||| x > y
            ||| x == y && byte_len(files[found[i] as int].label@) < byte_len(
                files[found[j] as int].label@,
            )
            ||| x == y && byte_len(files[found[i] as int].label@) == byte_len(
                files[found[j] as int].label@,
            ) && !text_before(files[found[j] as int].label@, files[found[i] as int].label@)
        },
{
    reveal(are_answers);
    lemma_answers_are_files(files, query, found);
    let (a, b) = (found[i], found[j]);
    assert(found.contains(a));
    assert(found.contains(b));
    assert(answers_better(files, lowercase(query), found[i] as int, found[j] as int));
    lemma_scores_fit(lowercase(query), files[a as int].label_lower@);
    lemma_scores_fit(lowercase(query), files[b as int].label_lower@);
    lemma_texts_are_ordered(files[a as int].label@, files[b as int].label@);
}

/// Of two files that both answer a query, the one with the query as one unbroken
/// run is listed before the one with gaps that start no part of a name, where
/// its path is not longer.
pub proof fn law_runs_are_listed_before_gaps(
    files: Seq<QuickFile>,
    query: Seq<char>,
    found: Seq<usize>,
    a: usize,
    b: usize,
    at: Seq<int>,
    gapped: Seq<int>,
)
    requires
        query.len() > 0,
        lowercase(query).len() > 0,
        scores_fit(files),
        files.len() <= usize::MAX,
        are_answers(files, query, found),
        a < files.len(),
        b < files.len(),
        are_first_places(lowercase(query), files[a as int].label_lower@, 0, 0, at),
        are_first_places(lowercase(query), files[b as int].label_lower@, 0, 0, gapped),
        is_run(at),
        !is_run(gapped),
        gaps_start_nothing(files[b as int].label_lower@, gapped),
        files[a as int].label_lower@.len() <= files[b as int].label_lower@.len(),
    ensures
        exists|i: int, j: int| 0 <= i < j < found.len() && found[i] == a && found[j] == b,
{
    reveal(are_answers);
    let wanted = lowercase(query);
    law_a_run_outscores_gaps(
        wanted,
        files[a as int].label_lower@,
        files[b as int].label_lower@,
        at,
        gapped,
    );
    assert(answers(files, wanted, a as int));
    assert(answers(files, wanted, b as int));
    assert(found.contains(a));
    assert(found.contains(b));
    let i = choose|i: int| 0 <= i < found.len() && found[i] == a;
    let j = choose|j: int| 0 <= j < found.len() && found[j] == b;
    if i > j {
        law_better_scores_are_listed_first(files, query, found, j, i);
    }
    assert(0 <= i < j < found.len() && found[i] == a && found[j] == b);
}

/// `path` with `/` for every `\`.
pub open spec fn with_slashes(path: Seq<char>) -> Seq<char> {
    path.map(|i: int, c: char| if c == '\\' { '/' } else { c })
}

/// A file under the path below the root that it was found at.
pub open spec fn is_file_at(file: QuickFile, path: Seq<char>, below: Seq<char>) -> bool {
    &&& file.path@ == path
    &&& file.label@ == with_slashes(below)
    &&& file.label_lower@ == lowercase(with_slashes(below))
}

/// Add a file that was found at `below` under the root. The walk is over once
/// `limit` files have been found.
pub fn gather_file(files: &mut Vec<QuickFile>, path: &str, below: &str, limit: usize) -> (full: bool)
    ensures
        final(files)@.len() == old(files)@.len() + 1,
        final(files)@.drop_last() == old(files)@,
        is_file_at(final(files)@.last(), path@, below@),
        is_plain(final(files)@.last().label@),
        full == (final(files)@.len() >= limit),
{
    let chars: Vec<char> = to_chars(below);
    let mut label: String = String::new();
    let mut i: usize = 0;
    while i < chars.len()
        invariant
            i <= chars@.len(),
            chars@ == below@,
            label@ == with_slashes(below@).take(i as int),
        decreases chars@.len() - i,
    {
        let c: char = chars[i];
        label.push(if c == '\\' {
            '/'
        } else {
            c
        });
        i += 1;
        assert(label@ =~= with_slashes(below@).take(i as int));
    }
    assert(label@ =~= with_slashes(below@));
    assert(is_plain(label@));
    let label_lower: String = to_lowercase(label.as_str());
    let ghost before: Seq<QuickFile> = files@;
    files.push(QuickFile { path: path.to_owned(), label, label_lower });
    assert(files@.drop_last() =~= before);
    files.len() >= limit
}

/// Whether the `a`th file stands before the `b`th in the list: by path in lower
/// case, then the one that was found first.
pub open spec fn listed_before(files: Seq<QuickFile>, a: int, b: int) -> bool {
    if files[a].label_lower@ != files[b].label_lower@ {
        text_before(files[a].label_lower@, files[b].label_lower@)
    } else {
        a < b
    }
}

struct ByLabel<'a> {
    files: &'a Vec<QuickFile>,
}

impl<'a> Ranking for ByLabel<'a> {
    closed spec fn covers(&self, a: int) -> bool {
        0 <= a < self.files@.len()
    }

    closed spec fn before(&self, a: int, b: int) -> bool {
        listed_before(self.files@, a, b)
    }

    proof fn order_is_total(&self, a: int, b: int) {
        lemma_texts_are_ordered(self.files@[a].label_lower@, self.files@[b].label_lower@);
    }

    proof fn order_is_transitive(&self, a: int, b: int, c: int) {
        let x = self.files@[a].label_lower@;
        let y = self.files@[b].label_lower@;
        let z = self.files@[c].label_lower@;
        lemma_texts_are_ordered(x, y);
        lemma_texts_are_ordered(y, z);
        lemma_texts_are_ordered(x, z);
        if text_before(x, y) && text_before(y, z) {
            lemma_text_order_is_transitive(x, y, z);
        }
    }

    fn goes_first(&self, a: usize, b: usize) -> (res: bool) {
        let left: Vec<char> = to_chars(self.files[a].label_lower.as_str());
        let right: Vec<char> = to_chars(self.files[b].label_lower.as_str());
        proof {
            lemma_texts_are_ordered(left@, right@);
        }
        if goes_before(left.as_slice(), right.as_slice()) {
            return true;
        }
        if goes_before(right.as_slice(), left.as_slice()) {
            return false;
        }
        a < b
    }
}

/// `order` holds each position of a list of `n` once.
pub open spec fn is_arrangement(order: Seq<usize>, n: nat) -> bool {
    &&& order.len() == n
    &&& order.no_duplicates()
    &&& forall|i: int| 0 <= i < order.len() ==> #[trigger] order[i] < n
}

/// The places in the list of the files that a walk has found.
pub fn listing(files: &Vec<QuickFile>) -> (res: Vec<usize>)
    ensures
        is_arrangement(res@, files@.len()),
        forall|i: int, j: int|
            0 <= i < j < res@.len() ==> listed_before(
                files@,
                #[trigger] res@[i] as int,
                #[trigger] res@[j] as int,
            ),
{
    let count: usize = files.len();
    let mut all: Vec<usize> = Vec::new();
    let mut i: usize = 0;
    while i < count
        invariant
            i <= count,
            all@.len() == i,
            forall|k: int| 0 <= k < i ==> #[trigger] all@[k] == k,
        decreases count - i,
    {
        all.push(i);
        i += 1;
    }
    let ranking: ByLabel = ByLabel { files };
    let res: Vec<usize> = sort_positions(&ranking, &all);
    proof {
        assert forall|i: int| 0 <= i < res@.len() implies #[trigger] res@[i] < files@.len() by {
            assert(res@.contains(res@[i]));
            assert(all@.contains(res@[i]));
        }
        assert forall|i: int, j: int| 0 <= i < j < res@.len() implies listed_before(
            files@,
            #[trigger] res@[i] as int,
            #[trigger] res@[j] as int,
        ) by {
            assert(ranking.before(res@[i] as int, res@[j] as int));
        }
    }
    res
}

/// The files that a walk has found, in the order in which they are listed.
pub fn sort_files(files: &Vec<QuickFile>) -> (res: Vec<QuickFile>)
    ensures
        exists|order: Seq<usize>| #[trigger]
            is_arrangement(order, files@.len()) && is_listing(files@, order, res@),
{
    let order: Vec<usize> = listing(files);
    let mut out: Vec<QuickFile> = Vec::new();
    let mut i: usize = 0;
    while i < order.len()
        invariant
            i <= order@.len(),
            is_arrangement(order@, files@.len()),
            out@.len() == i,
            forall|k: int|
                0 <= k < i ==> {
                    let from = files@[order@[k] as int];
                    &&& (#[trigger] out@[k]).path@ == from.path@
                    &&& out@[k].label@ == from.label@
                    &&& out@[k].label_lower@ == from.label_lower@
                },
        decreases order@.len() - i,
    {
        assert(order@[i as int] < files@.len());
        let file: &QuickFile = &files[order[i]];
        out.push(
            QuickFile {
                path: file.path.clone(),
                label: file.label.clone(),
                label_lower: file.label_lower.clone(),
            },
        );
        i += 1;
    }
    assert(is_listing(files@, order@, out@));
    out
}

/// `listed` are the files in the given order, which is the order of a list.
pub open spec fn is_listing(
    files: Seq<QuickFile>,
    order: Seq<usize>,
    listed: Seq<QuickFile>,
) -> bool {
    &&& listed.len() == order.len()
    &&& forall|k: int|
        0 <= k < order.len() ==> {
            let from = files[order[k] as int];
            &&& (#[trigger] listed[k]).path@ == from.path@
            &&& listed[k].label@ == from.label@
            &&& listed[k].label_lower@ == from.label_lower@
        }
    &&& forall|i: int, j: int|
        0 <= i < j < order.len() ==> listed_before(
            files,
            #[trigger] order[i] as int,
            #[trigger] order[j] as int,
        )
}

} // verus!
