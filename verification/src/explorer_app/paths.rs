//! Paths by their components.
//!
//! A path is compared by its names: separators that follow each other count as
//! one, and neither one at the end nor a lone dot behind a separator is a name.

use crate::text::{slice_to_string, to_chars};
use vstd::prelude::*;

verus! {

/// `/` separates names, and `\` where `backslash` says so.
pub open spec fn separates(c: char, backslash: bool) -> bool {
    c == '/' || (backslash && c == '\\')
}

fn is_separating(c: char, backslash: bool) -> (res: bool)
    ensures
        res == separates(c, backslash),
{
    c == '/' || (backslash && c == '\\')
}

/// A lone dot stands at `at`, if a name could start there.
pub open spec fn lone_dot(path: Seq<char>, at: int, backslash: bool) -> bool {
    &&& 0 <= at < path.len() && path[at] == '.'
    &&& at + 1 == path.len() || separates(path[at + 1], backslash)
}

fn is_lone_dot(path: &[char], at: usize, backslash: bool) -> (res: bool)
    requires
        at < path@.len(),
    ensures
        res == lone_dot(path@, at as int, backslash),
{
    path[at] == '.' && (at + 1 == path.len() || is_separating(path[at + 1], backslash))
}

/// What a path starts from.
#[derive(Clone, Copy, PartialEq, Eq, Structural, Debug)]
pub enum Origin {
    Root,
    /// A lone dot.
    Here,
    /// A name, or nothing at all.
    Name,
}

pub open spec fn origin_of(path: Seq<char>, backslash: bool) -> Origin {
    if path.len() > 0 && separates(path[0], backslash) {
        Origin::Root
    } else if lone_dot(path, 0, backslash) {
        Origin::Here
    } else {
        Origin::Name
    }
}

fn origin(path: &[char], backslash: bool) -> (res: Origin)
    ensures
        res == origin_of(path@, backslash),
{
    if path.len() == 0 {
        Origin::Name
    } else if is_separating(path[0], backslash) {
        Origin::Root
    } else if is_lone_dot(path, 0, backslash) {
        Origin::Here
    } else {
        Origin::Name
    }
}

/// Where the next name from `at` on starts.
pub open spec fn name_start(path: Seq<char>, at: int, backslash: bool) -> int
    decreases path.len() - at,
{
    if 0 <= at < path.len() && (separates(path[at], backslash) || lone_dot(path, at, backslash)) {
        name_start(path, at + 1, backslash)
    } else {
        at
    }
}

/// Where the name at `at` ends.
pub open spec fn name_end(path: Seq<char>, at: int, backslash: bool) -> int
    decreases path.len() - at,
{
    if 0 <= at < path.len() && !separates(path[at], backslash) {
        name_end(path, at + 1, backslash)
    } else {
        at
    }
}

/// Where each name from `at` on starts and ends.
pub open spec fn names(path: Seq<char>, at: int, backslash: bool) -> Seq<(int, int)>
    decreases path.len() - at,
{
    let from = name_start(path, at, backslash);
    let to = name_end(path, from, backslash);
    if 0 <= at <= from < to <= path.len() {
        seq![(from, to)] + names(path, to, backslash)
    } else {
        Seq::empty()
    }
}

/// The names stand one after the other.
proof fn lemma_names(path: Seq<char>, at: int, backslash: bool)
    ensures
        ({
            let all = names(path, at, backslash);
            &&& forall|i: int|
                0 <= i < all.len() ==> 0 <= at <= (#[trigger] all[i]).0 < all[i].1 <= path.len()
            &&& forall|i: int, j: int|
                0 <= i < j < all.len() ==> (#[trigger] all[i]).1 <= (#[trigger] all[j]).0
        }),
    decreases path.len() - at,
{
    let from = name_start(path, at, backslash);
    let to = name_end(path, from, backslash);
    if 0 <= at <= from < to <= path.len() {
        lemma_names(path, to, backslash);
        let all = names(path, at, backslash);
        let rest = names(path, to, backslash);
        assert forall|i: int| 0 <= i < all.len() implies 0 <= at <= (#[trigger] all[i]).0
            < all[i].1 <= path.len() by {
            if i > 0 {
                assert(all[i] == rest[i - 1]);
            }
        }
        assert forall|i: int, j: int| 0 <= i < j < all.len() implies (#[trigger] all[i]).1 <= (
        #[trigger] all[j]).0 by {
            assert(all[j] == rest[j - 1]);
            if i > 0 {
                assert(all[i] == rest[i - 1]);
            }
        }
    }
}

/// Starts and ends, as numbers.
pub open spec fn spans_view(spans: Seq<(usize, usize)>) -> Seq<(int, int)> {
    spans.map(|i: int, s: (usize, usize)| (s.0 as int, s.1 as int))
}

fn name_spans(path: &[char], backslash: bool) -> (res: Vec<(usize, usize)>)
    ensures
        spans_view(res@) == names(path@, 0, backslash),
{
    let ghost all: Seq<(int, int)> = names(path@, 0, backslash);
    let mut out: Vec<(usize, usize)> = Vec::new();
    let mut at: usize = 0;
    assert(spans_view(out@) + all =~= all);
    while at < path.len()
        invariant
            at <= path@.len(),
            all == names(path@, 0, backslash),
            all == spans_view(out@) + names(path@, at as int, backslash),
        decreases path@.len() - at,
    {
        let ghost start: int = at as int;
        let mut from: usize = at;
        while from < path.len() && (is_separating(path[from], backslash) || is_lone_dot(
            path,
            from,
            backslash,
        ))
            invariant
                start <= from <= path@.len(),
                name_start(path@, from as int, backslash) == name_start(path@, start, backslash),
            decreases path@.len() - from,
        {
            from += 1;
        }
        let mut to: usize = from;
        while to < path.len() && !is_separating(path[to], backslash)
            invariant
                from <= to <= path@.len(),
                name_end(path@, to as int, backslash) == name_end(path@, from as int, backslash),
            decreases path@.len() - to,
        {
            to += 1;
        }
        if from == path.len() {
            assert(names(path@, start, backslash) =~= Seq::empty());
            assert(spans_view(out@) =~= all);
            return out;
        }
        assert(from < to);
        let ghost before: Seq<(int, int)> = spans_view(out@);
        out.push((from, to));
        assert(spans_view(out@) =~= before + seq![(from as int, to as int)]);
        assert(all =~= spans_view(out@) + names(path@, to as int, backslash));
        at = to;
    }
    assert(names(path@, at as int, backslash) =~= Seq::empty());
    assert(spans_view(out@) =~= all);
    out
}

/// A path is a folder or lies below it: its first components are those of the
/// folder. Everything lies below the empty path.
pub open spec fn lies_under(root: Seq<char>, path: Seq<char>, backslash: bool) -> bool {
    let above = names(root, 0, backslash);
    let all = names(path, 0, backslash);
    root.len() == 0 || {
        &&& origin_of(root, backslash) == origin_of(path, backslash)
        &&& above.len() <= all.len()
        &&& forall|i: int|
            0 <= i < above.len() ==> root.subrange((#[trigger] above[i]).0, above[i].1)
                == path.subrange(all[i].0, all[i].1)
    }
}

/// Whether two stretches hold the same characters.
fn same_text(a: &[char], b: &[char], x: (usize, usize), y: (usize, usize)) -> (res: bool)
    requires
        x.0 <= x.1 <= a@.len(),
        y.0 <= y.1 <= b@.len(),
    ensures
        res == (a@.subrange(x.0 as int, x.1 as int) == b@.subrange(y.0 as int, y.1 as int)),
{
    let ghost left: Seq<char> = a@.subrange(x.0 as int, x.1 as int);
    let ghost right: Seq<char> = b@.subrange(y.0 as int, y.1 as int);
    let count: usize = x.1 - x.0;
    if y.1 - y.0 != count {
        assert(left.len() != right.len());
        return false;
    }
    let mut i: usize = 0;
    while i < count
        invariant
            i <= count,
            count == x.1 - x.0,
            count == y.1 - y.0,
            x.1 <= a@.len(),
            y.1 <= b@.len(),
            left == a@.subrange(x.0 as int, x.1 as int),
            right == b@.subrange(y.0 as int, y.1 as int),
            forall|k: int| 0 <= k < i ==> left[k] == right[k],
        decreases count - i,
    {
        assert(left[i as int] == a@[x.0 + i] && right[i as int] == b@[y.0 + i]);
        if a[x.0 + i] != b[y.0 + i] {
            assert(left[i as int] != right[i as int]);
            return false;
        }
        i += 1;
    }
    assert(left =~= right);
    true
}

fn under(root: &[char], path: &[char], backslash: bool) -> (res: bool)
    ensures
        res == lies_under(root@, path@, backslash),
{
    if root.len() == 0 {
        return true;
    }
    if origin(root, backslash) != origin(path, backslash) {
        return false;
    }
    let above: Vec<(usize, usize)> = name_spans(root, backslash);
    let all: Vec<(usize, usize)> = name_spans(path, backslash);
    let ghost a: Seq<(int, int)> = names(root@, 0, backslash);
    let ghost b: Seq<(int, int)> = names(path@, 0, backslash);
    assert(spans_view(above@).len() == above@.len() && spans_view(all@).len() == all@.len());
    if above.len() > all.len() {
        return false;
    }
    proof {
        lemma_names(root@, 0, backslash);
        lemma_names(path@, 0, backslash);
    }
    let mut i: usize = 0;
    while i < above.len()
        invariant
            i <= above@.len() <= all@.len(),
            a == names(root@, 0, backslash),
            b == names(path@, 0, backslash),
            a == spans_view(above@),
            b == spans_view(all@),
            forall|k: int|
                0 <= k < a.len() ==> 0 <= (#[trigger] a[k]).0 < a[k].1 <= root@.len(),
            forall|k: int|
                0 <= k < b.len() ==> 0 <= (#[trigger] b[k]).0 < b[k].1 <= path@.len(),
            forall|k: int|
                0 <= k < i ==> root@.subrange((#[trigger] a[k]).0, a[k].1) == path@.subrange(
                    b[k].0,
                    b[k].1,
                ),
        decreases above@.len() - i,
    {
        assert(a[i as int] == (above@[i as int].0 as int, above@[i as int].1 as int));
        assert(b[i as int] == (all@[i as int].0 as int, all@[i as int].1 as int));
        if !same_text(root, path, above[i], all[i]) {
            return false;
        }
        i += 1;
    }
    true
}

pub fn is_under(root: &str, path: &str, backslash: bool) -> (res: bool)
    ensures
        res == lies_under(root@, path@, backslash),
{
    let root: Vec<char> = to_chars(root);
    let path: Vec<char> = to_chars(path);
    under(root.as_slice(), path.as_slice(), backslash)
}

/// Where the last component of a path ends.
pub open spec fn names_end(path: Seq<char>, backslash: bool) -> int {
    let all = names(path, 0, backslash);
    if all.len() > 0 {
        all.last().1
    } else if origin_of(path, backslash) == Origin::Name {
        0
    } else {
        1
    }
}

/// What of a path lies below a folder: the text from the first component that
/// the folder does not have to the end of the last one. The whole path where it
/// does not lie below the folder.
pub open spec fn below(root: Seq<char>, path: Seq<char>, backslash: bool) -> Seq<char> {
    let above = names(root, 0, backslash);
    let all = names(path, 0, backslash);
    let end = names_end(path, backslash);
    if !lies_under(root, path, backslash) {
        path
    } else if root.len() == 0 {
        path.subrange(0, end)
    } else if above.len() < all.len() {
        path.subrange(all[above.len() as int].0, end)
    } else {
        Seq::empty()
    }
}

pub fn relative_path(root: &str, path: &str, backslash: bool) -> (res: String)
    ensures
        res@ == below(root@, path@, backslash),
{
    let above: Vec<char> = to_chars(root);
    let chars: Vec<char> = to_chars(path);
    if !under(above.as_slice(), chars.as_slice(), backslash) {
        return path.to_owned();
    }
    let skipped: Vec<(usize, usize)> = name_spans(above.as_slice(), backslash);
    let all: Vec<(usize, usize)> = name_spans(chars.as_slice(), backslash);
    let ghost b: Seq<(int, int)> = names(path@, 0, backslash);
    proof {
        lemma_names(path@, 0, backslash);
        assert(spans_view(skipped@).len() == skipped@.len());
        assert(b == spans_view(all@) && b.len() == all@.len());
    }
    let end: usize = if all.len() > 0 {
        assert(b.last().1 == all@.last().1);
        all[all.len() - 1].1
    } else if origin(chars.as_slice(), backslash) == Origin::Name {
        0
    } else {
        1
    };
    if above.len() == 0 {
        slice_to_string(chars.as_slice(), 0, end)
    } else if skipped.len() < all.len() {
        let ghost k: int = skipped@.len() as int;
        assert(b[k] == (all@[k].0 as int, all@[k].1 as int));
        assert(b[k].1 <= b.last().1) by {
            if k < b.len() - 1 {
                assert(b[k].1 <= b[b.len() - 1].0);
            }
        }
        slice_to_string(chars.as_slice(), all[skipped.len()].0, end)
    } else {
        String::new()
    }
}

} // verus!
