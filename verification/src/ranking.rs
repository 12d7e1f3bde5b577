//! Orders, and sorting by them.

use crate::text::{str_eq, string_views, to_chars};
use vstd::prelude::*;

verus! {

// ---- The order of texts ----

/// Whether `a` comes before `b` in the order of their characters, both taken
/// from position `i` on.
pub open spec fn before_from(a: Seq<char>, b: Seq<char>, i: int) -> bool
    decreases b.len() - i,
{
    if i >= b.len() {
        false
    } else if i >= a.len() {
        true
    } else if a[i] != b[i] {
        a[i] < b[i]
    } else {
        before_from(a, b, i + 1)
    }
}

/// Whether `a` comes before `b` in the order of their characters.
pub open spec fn text_before(a: Seq<char>, b: Seq<char>) -> bool {
    before_from(a, b, 0)
}

proof fn lemma_before_is_total(a: Seq<char>, b: Seq<char>, i: int)
    requires
        0 <= i <= a.len(),
        i <= b.len(),
        forall|k: int| 0 <= k < i ==> a[k] == b[k],
    ensures
        a != b ==> before_from(a, b, i) || before_from(b, a, i),
        !(before_from(a, b, i) && before_from(b, a, i)),
    decreases b.len() - i,
{
    if i < a.len() && i < b.len() && a[i] == b[i] {
        lemma_before_is_total(a, b, i + 1);
    } else if i == a.len() && i == b.len() {
        assert(a =~= b);
    }
}

proof fn lemma_before_is_transitive(a: Seq<char>, b: Seq<char>, c: Seq<char>, i: int)
    requires
        0 <= i,
        before_from(a, b, i),
        before_from(b, c, i),
    ensures
        before_from(a, c, i),
    decreases c.len() - i,
{
    if i < a.len() && a[i] == b[i] && b[i] == c[i] {
        lemma_before_is_transitive(a, b, c, i + 1);
    }
}

/// Of two different texts one comes before the other, and only one.
pub proof fn lemma_texts_are_ordered(a: Seq<char>, b: Seq<char>)
    ensures
        a != b ==> text_before(a, b) || text_before(b, a),
        !(text_before(a, b) && text_before(b, a)),
{
    lemma_before_is_total(a, b, 0);
}

pub proof fn lemma_text_order_is_transitive(a: Seq<char>, b: Seq<char>, c: Seq<char>)
    requires
        text_before(a, b),
        text_before(b, c),
    ensures
        text_before(a, c),
{
    lemma_before_is_transitive(a, b, c, 0);
}

/// Whether `a` comes before `b` in the order of their characters.
pub fn goes_before(a: &[char], b: &[char]) -> (res: bool)
    ensures
        res == text_before(a@, b@),
{
    let mut i: usize = 0;
    while i < a.len() && i < b.len() && a[i] == b[i]
        invariant
            i <= a@.len(),
            i <= b@.len(),
            before_from(a@, b@, i as int) == text_before(a@, b@),
        decreases a@.len() - i,
    {
        i += 1;
    }
    if i >= b.len() {
        false
    } else if i >= a.len() {
        true
    } else {
        a[i] < b[i]
    }
}

/// Texts in order, none of them twice.
pub open spec fn texts_in_order(list: Seq<Seq<char>>) -> bool {
    forall|i: int, j: int|
        0 <= i < j < list.len() ==> text_before(#[trigger] list[i], #[trigger] list[j])
}

/// Add a text to texts in order, unless it is there.
pub fn insert_text(list: &mut Vec<String>, text: String)
    requires
        texts_in_order(string_views(old(list)@)),
    ensures
        texts_in_order(string_views(final(list)@)),
        forall|t: Seq<char>|
            #[trigger] string_views(final(list)@).contains(t) <==> string_views(
                old(list)@,
            ).contains(t) || t == text@,
{
    let chars: Vec<char> = to_chars(text.as_str());
    let ghost before: Seq<Seq<char>> = string_views(list@);
    let count: usize = list.len();
    let mut i: usize = 0;
    while i < count && goes_before(to_chars(list[i].as_str()).as_slice(), chars.as_slice())
        invariant
            i <= count,
            count == list@.len(),
            chars@ == text@,
            before == string_views(list@),
            texts_in_order(before),
            forall|k: int| 0 <= k < i ==> text_before(#[trigger] before[k], text@),
        decreases count - i,
    {
        assert(before[i as int] == list@[i as int]@);
        i += 1;
    }
    if i < count && str_eq(list[i].as_str(), text.as_str()) {
        assert(before[i as int] == text@);
        return;
    }
    proof {
        assert forall|k: int| i <= k < before.len() implies text_before(
            text@,
            #[trigger] before[k],
        ) by {
            assert(before[i as int] == list@[i as int]@);
            lemma_texts_are_ordered(text@, before[i as int]);
            if k > i {
                lemma_text_order_is_transitive(text@, before[i as int], before[k]);
            }
        }
    }
    list.insert(i, text);
    proof {
        let after = string_views(list@);
        assert(after =~= before.insert(i as int, text@));
        assert forall|a: int, b: int| 0 <= a < b < after.len() implies text_before(
            #[trigger] after[a],
            #[trigger] after[b],
        ) by {
            let x = if a < i {
                a
            } else {
                a - 1
            };
            let y = if b < i {
                b
            } else {
                b - 1
            };
            if a != i {
                assert(after[a] == before[x]);
            }
            if b != i {
                assert(after[b] == before[y]);
            }
        }
        assert forall|t: Seq<char>| #[trigger] after.contains(t) <==> before.contains(t) || t
            == text@ by {
            if before.contains(t) {
                let k = choose|k: int| 0 <= k < before.len() && before[k] == t;
                let at = if k < i {
                    k
                } else {
                    k + 1
                };
                assert(after[at] == t);
            }
            if t == text@ {
                assert(after[i as int] == t);
            }
            if after.contains(t) {
                let k = choose|k: int| 0 <= k < after.len() && after[k] == t;
                if k < i {
                    assert(before[k] == t);
                } else if k > i {
                    assert(before[k - 1] == t);
                }
            }
        }
    }
}

// ---- Sorting positions ----

/// An order of the positions in a list, in which no two stand at one place.
pub trait Ranking {
    /// Whether `a` is a position of the list.
    spec fn covers(&self, a: int) -> bool;

    /// Whether position `a` comes before position `b`.
    spec fn before(&self, a: int, b: int) -> bool;

    proof fn order_is_total(&self, a: int, b: int)
        ensures
            a != b ==> self.before(a, b) || self.before(b, a),
            !(self.before(a, b) && self.before(b, a)),
    ;

    proof fn order_is_transitive(&self, a: int, b: int, c: int)
        requires
            self.before(a, b),
            self.before(b, c),
        ensures
            self.before(a, c),
    ;

    fn goes_first(&self, a: usize, b: usize) -> (res: bool)
        requires
            self.covers(a as int),
            self.covers(b as int),
        ensures
            res == self.before(a as int, b as int),
    ;
}

/// Each position comes before the ones behind it.
pub open spec fn in_order<R: Ranking>(ranking: &R, list: Seq<usize>) -> bool {
    forall|i: int, j: int|
        0 <= i < j < list.len() ==> ranking.before(#[trigger] list[i] as int, #[trigger] list[j] as int)
}

pub open spec fn all_covered<R: Ranking>(ranking: &R, list: Seq<usize>) -> bool {
    forall|i: int| 0 <= i < list.len() ==> ranking.covers(#[trigger] list[i] as int)
}

/// Two lists in order become one.
fn merge<R: Ranking>(ranking: &R, left: &Vec<usize>, right: &Vec<usize>) -> (res: Vec<usize>)
    requires
        in_order(ranking, left@),
        in_order(ranking, right@),
        all_covered(ranking, left@),
        all_covered(ranking, right@),
        forall|i: int, j: int|
            0 <= i < left@.len() && 0 <= j < right@.len() ==> left@[i] != right@[j],
    ensures
        in_order(ranking, res@),
        res@.to_multiset() == left@.to_multiset().add(right@.to_multiset()),
{
    let mut out: Vec<usize> = Vec::new();
    let mut i: usize = 0;
    let mut j: usize = 0;
    proof {
        assert(left@.take(0) =~= Seq::<usize>::empty());
        assert(right@.take(0) =~= Seq::<usize>::empty());
        assert(out@ =~= Seq::<usize>::empty());
        broadcast use vstd::seq_lib::group_to_multiset_ensures;

        assert(out@.to_multiset() =~= left@.take(0).to_multiset().add(right@.take(0).to_multiset()));
    }
    while i < left.len() || j < right.len()
        invariant
            i <= left@.len(),
            j <= right@.len(),
            in_order(ranking, left@),
            in_order(ranking, right@),
            all_covered(ranking, left@),
            all_covered(ranking, right@),
            in_order(ranking, out@),
            forall|a: int, b: int|
                0 <= a < left@.len() && 0 <= b < right@.len() ==> left@[a] != right@[b],
            out@.to_multiset() == left@.take(i as int).to_multiset().add(
                right@.take(j as int).to_multiset(),
            ),
            forall|a: int, b: int|
                0 <= a < out@.len() && i <= b < left@.len() ==> ranking.before(
                    #[trigger] out@[a] as int,
                    #[trigger] left@[b] as int,
                ),
            forall|a: int, b: int|
                0 <= a < out@.len() && j <= b < right@.len() ==> ranking.before(
                    #[trigger] out@[a] as int,
                    #[trigger] right@[b] as int,
                ),
        decreases left@.len() - i + right@.len() - j,
    {
        let ghost old_out: Seq<usize> = out@;
        let from_left: bool = if i >= left.len() {
            false
        } else if j >= right.len() {
            true
        } else {
            ranking.goes_first(left[i], right[j])
        };
        broadcast use vstd::seq_lib::group_to_multiset_ensures;

        if from_left {
            let next: usize = left[i];
            out.push(next);
            proof {
                assert(left@.take(i + 1) =~= left@.take(i as int).push(next));
                assert(out@.to_multiset() =~= left@.take(i + 1).to_multiset().add(
                    right@.take(j as int).to_multiset(),
                ));
                assert forall|b: int| j <= b < right@.len() implies ranking.before(
                    next as int,
                    #[trigger] right@[b] as int,
                ) by {
                    if b > j {
                        ranking.order_is_transitive(
                            next as int,
                            right@[j as int] as int,
                            right@[b] as int,
                        );
                    }
                }
            }
            i += 1;
        } else {
            let next: usize = right[j];
            out.push(next);
            proof {
                assert(right@.take(j + 1) =~= right@.take(j as int).push(next));
                assert(out@.to_multiset() =~= left@.take(i as int).to_multiset().add(
                    right@.take(j + 1).to_multiset(),
                ));
                assert forall|b: int| i <= b < left@.len() implies ranking.before(
                    next as int,
                    #[trigger] left@[b] as int,
                ) by {
                    ranking.order_is_total(next as int, left@[i as int] as int);
                    if b > i {
                        ranking.order_is_transitive(
                            next as int,
                            left@[i as int] as int,
                            left@[b] as int,
                        );
                    }
                }
            }
            j += 1;
        }
    }
    assert(left@.take(i as int) =~= left@);
    assert(right@.take(j as int) =~= right@);
    out
}

/// The positions `from..to` of a list, put in order.
fn sorted_part<R: Ranking>(ranking: &R, list: &Vec<usize>, from: usize, to: usize) -> (res: Vec<
    usize,
>)
    requires
        from <= to <= list@.len(),
        all_covered(ranking, list@),
        list@.no_duplicates(),
    ensures
        in_order(ranking, res@),
        res@.to_multiset() == list@.subrange(from as int, to as int).to_multiset(),
    decreases to - from,
{
    if to - from <= 1 {
        let mut out: Vec<usize> = Vec::new();
        if from < to {
            out.push(list[from]);
        }
        assert(out@ =~= list@.subrange(from as int, to as int));
        return out;
    }
    let mid: usize = from + (to - from) / 2;
    let left: Vec<usize> = sorted_part(ranking, list, from, mid);
    let right: Vec<usize> = sorted_part(ranking, list, mid, to);
    proof {
        let a = list@.subrange(from as int, mid as int);
        let b = list@.subrange(mid as int, to as int);
        lemma_same_members(left@, a);
        lemma_same_members(right@, b);
        assert forall|i: int| 0 <= i < left@.len() implies ranking.covers(
            #[trigger] left@[i] as int,
        ) by {
            assert(a.contains(left@[i]));
            let k = choose|k: int| 0 <= k < a.len() && a[k] == left@[i];
            assert(list@[from + k] == left@[i]);
        }
        assert forall|i: int| 0 <= i < right@.len() implies ranking.covers(
            #[trigger] right@[i] as int,
        ) by {
            assert(b.contains(right@[i]));
            let k = choose|k: int| 0 <= k < b.len() && b[k] == right@[i];
            assert(list@[mid + k] == right@[i]);
        }
        assert forall|i: int, j: int|
            0 <= i < left@.len() && 0 <= j < right@.len() implies left@[i] != right@[j] by {
            assert(a.contains(left@[i]));
            assert(b.contains(right@[j]));
            let k = choose|k: int| 0 <= k < a.len() && a[k] == left@[i];
            let l = choose|l: int| 0 <= l < b.len() && b[l] == right@[j];
            assert(list@[from + k] == left@[i]);
            assert(list@[mid + l] == right@[j]);
        }
        assert(a + b =~= list@.subrange(from as int, to as int));
        vstd::seq_lib::lemma_multiset_commutative(a, b);
    }
    merge(ranking, &left, &right)
}

/// Lists with the same elements, counted, hold the same elements.
proof fn lemma_same_members(x: Seq<usize>, y: Seq<usize>)
    requires
        x.to_multiset() == y.to_multiset(),
    ensures
        x.len() == y.len(),
        forall|i: int| 0 <= i < x.len() ==> y.contains(#[trigger] x[i]),
        forall|i: int| 0 <= i < y.len() ==> x.contains(#[trigger] y[i]),
{
    broadcast use vstd::seq_lib::group_to_multiset_ensures;

    assert(x.len() == x.to_multiset().len());
    assert(y.len() == y.to_multiset().len());
    assert forall|i: int| 0 <= i < x.len() implies y.contains(#[trigger] x[i]) by {
        assert(x.contains(x[i]));
        assert(x.to_multiset().count(x[i]) > 0);
    }
    assert forall|i: int| 0 <= i < y.len() implies x.contains(#[trigger] y[i]) by {
        assert(y.contains(y[i]));
        assert(y.to_multiset().count(y[i]) > 0);
    }
}

/// The same positions.
pub open spec fn same_positions(x: Seq<usize>, y: Seq<usize>) -> bool {
    &&& x.len() == y.len()
    &&& forall|a: usize| #[trigger] x.contains(a) <==> y.contains(a)
}

/// Put positions of a list in order.
pub fn sort_positions<R: Ranking>(ranking: &R, list: &Vec<usize>) -> (res: Vec<usize>)
    requires
        all_covered(ranking, list@),
        list@.no_duplicates(),
    ensures
        in_order(ranking, res@),
        same_positions(res@, list@),
        res@.no_duplicates(),
{
    let res: Vec<usize> = sorted_part(ranking, list, 0, list.len());
    proof {
        assert(list@.subrange(0, list@.len() as int) =~= list@);
        lemma_same_members(res@, list@);
        assert forall|i: int, j: int| 0 <= i < j < res@.len() implies res@[i] != res@[j] by {
            ranking.order_is_total(res@[i] as int, res@[j] as int);
        }
    }
    res
}

} // verus!
