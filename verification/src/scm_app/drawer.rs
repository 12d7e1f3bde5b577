//! The Git-Graph-style drawers below the Changes section: what each line of
//! git's output points at, and how it is shown.

use vstd::prelude::*;

use crate::text::{
    contains, contains_str, decimal, find_char, find_from, find_str, from_chars, is_char,
    last_component, last_component_start, matches_at, occurs_at, parse_usize, parsed_number,
    push_decimal, scan, scan_back, slice_to_string, slice_to_vec, split_words, starts_with, to_chars,
    trim, trim_bounds, views, words,
};

verus! {

/// The drawers, in the order in which the panel shows them.
#[derive(Clone, Copy, PartialEq, Eq, Structural, Debug)]
pub enum Drawer {
    Graph,
    Commits,
    FileHistory,
    Branches,
    Worktrees,
    Remotes,
    Stashes,
    Tags,
}

/// How many drawers there are.
pub const DRAWERS: usize = 8;

pub open spec fn all_drawers() -> Seq<Drawer> {
    seq![
        Drawer::Graph,
        Drawer::Commits,
        Drawer::FileHistory,
        Drawer::Branches,
        Drawer::Worktrees,
        Drawer::Remotes,
        Drawer::Stashes,
        Drawer::Tags,
    ]
}

impl Drawer {
    pub open spec fn title_spec(self) -> Seq<char> {
        match self {
            Drawer::Graph => "Graph"@,
            Drawer::Commits => "Commits"@,
            Drawer::FileHistory => "File History"@,
            Drawer::Branches => "Branches"@,
            Drawer::Worktrees => "Worktrees"@,
            Drawer::Remotes => "Remotes"@,
            Drawer::Stashes => "Stashes"@,
            Drawer::Tags => "Tags"@,
        }
    }

    /// The place of the drawer among all drawers.
    pub open spec fn index_spec(self) -> int {
        match self {
            Drawer::Graph => 0,
            Drawer::Commits => 1,
            Drawer::FileHistory => 2,
            Drawer::Branches => 3,
            Drawer::Worktrees => 4,
            Drawer::Remotes => 5,
            Drawer::Stashes => 6,
            Drawer::Tags => 7,
        }
    }

    /// Every drawer once, in the order in which the panel shows them.
    pub fn all() -> (res: [Drawer; 8])
        ensures
            res@ == all_drawers(),
    {
        let res: [Drawer; 8] = [
            Drawer::Graph,
            Drawer::Commits,
            Drawer::FileHistory,
            Drawer::Branches,
            Drawer::Worktrees,
            Drawer::Remotes,
            Drawer::Stashes,
            Drawer::Tags,
        ];
        assert(res@ =~= all_drawers());
        res
    }

    pub fn title(self) -> (res: &'static str)
        ensures
            res@ == self.title_spec(),
    {
        match self {
            Drawer::Graph => "Graph",
            Drawer::Commits => "Commits",
            Drawer::FileHistory => "File History",
            Drawer::Branches => "Branches",
            Drawer::Worktrees => "Worktrees",
            Drawer::Remotes => "Remotes",
            Drawer::Stashes => "Stashes",
            Drawer::Tags => "Tags",
        }
    }

    pub fn index(self) -> (res: usize)
        ensures
            res == self.index_spec(),
            res < DRAWERS,
            all_drawers()[res as int] == self,
    {
        match self {
            Drawer::Graph => 0,
            Drawer::Commits => 1,
            Drawer::FileHistory => 2,
            Drawer::Branches => 3,
            Drawer::Worktrees => 4,
            Drawer::Remotes => 5,
            Drawer::Stashes => 6,
            Drawer::Tags => 7,
        }
    }
}

/// `index` numbers the drawers in the order of `all`: the drawer at place `i`
/// has index `i`.
pub proof fn law_drawer_index_is_its_place(i: int)
    requires
        0 <= i < all_drawers().len(),
    ensures
        all_drawers()[i].index_spec() == i,
{
}

/// No two drawers share a title, so a title names one drawer.
pub proof fn law_drawer_titles_are_distinct(a: Drawer, b: Drawer)
    requires
        a.title_spec() == b.title_spec(),
    ensures
        a == b,
{
    reveal_strlit("Graph");
    reveal_strlit("Commits");
    reveal_strlit("File History");
    reveal_strlit("Branches");
    reveal_strlit("Worktrees");
    reveal_strlit("Remotes");
    reveal_strlit("Stashes");
    reveal_strlit("Tags");
    assert("Graph"@[0] == 'G');
    assert("Commits"@[0] == 'C');
    assert("File History"@[0] == 'F');
    assert("Branches"@[0] == 'B');
    assert("Worktrees"@[0] == 'W');
    assert("Remotes"@[0] == 'R');
    assert("Stashes"@[0] == 'S');
    assert("Tags"@[0] == 'T');
    assert(a.title_spec()[0] == b.title_spec()[0]);
}

// ---- What a line points at ----

/// What a drawer line points at, for clicks and context menus.
#[derive(PartialEq, Eq, Debug)]
pub enum DrawerRef {
    /// A line that is no handle to anything, such as a graph edge.
    Nothing,
    /// A short commit hash (graph, commits and file history lines).
    Commit(String),
    /// `stash@{n}`.
    Stash(usize),
    Branch { name: String, current: bool },
    Remote { name: String, url: String },
    Tag(String),
    /// A worktree's checkout path.
    Worktree(String),
}

impl Clone for DrawerRef {
    fn clone(&self) -> (res: Self)
        ensures
            res == *self,
    {
        match self {
            DrawerRef::Nothing => DrawerRef::Nothing,
            DrawerRef::Commit(h) => DrawerRef::Commit(h.clone()),
            DrawerRef::Stash(n) => DrawerRef::Stash(*n),
            DrawerRef::Branch { name, current } => DrawerRef::Branch {
                name: name.clone(),
                current: *current,
            },
            DrawerRef::Remote { name, url } => DrawerRef::Remote {
                name: name.clone(),
                url: url.clone(),
            },
            DrawerRef::Tag(t) => DrawerRef::Tag(t.clone()),
            DrawerRef::Worktree(p) => DrawerRef::Worktree(p.clone()),
        }
    }
}

/// What a `DrawerRef` holds.
pub enum RefView {
    Nothing,
    Commit(Seq<char>),
    Stash(nat),
    Branch { name: Seq<char>, current: bool },
    Remote { name: Seq<char>, url: Seq<char> },
    Tag(Seq<char>),
    Worktree(Seq<char>),
}

impl View for DrawerRef {
    type V = RefView;

    open spec fn view(&self) -> RefView {
        match *self {
            DrawerRef::Nothing => RefView::Nothing,
            DrawerRef::Commit(h) => RefView::Commit(h@),
            DrawerRef::Stash(n) => RefView::Stash(n as nat),
            DrawerRef::Branch { name, current } => RefView::Branch { name: name@, current },
            DrawerRef::Remote { name, url } => RefView::Remote { name: name@, url: url@ },
            DrawerRef::Tag(t) => RefView::Tag(t@),
            DrawerRef::Worktree(p) => RefView::Worktree(p@),
        }
    }
}

/// A digit or a lower-case letter up to `f`.
pub open spec fn is_hash_char(c: char) -> bool {
    ('0' <= c <= '9') || ('a' <= c <= 'f')
}

/// A word that reads as a short commit hash.
pub open spec fn is_hash(word: Seq<char>) -> bool {
    word.len() >= 7 && forall|i: int| 0 <= i < word.len() ==> is_hash_char(#[trigger] word[i])
}

/// The first of `list` from `from` on that reads as a commit hash.
pub open spec fn first_hash(list: Seq<Seq<char>>, from: int) -> RefView
    decreases list.len() - from,
{
    if 0 <= from < list.len() {
        if is_hash(list[from]) {
            RefView::Commit(list[from])
        } else {
            first_hash(list, from + 1)
        }
    } else {
        RefView::Nothing
    }
}

/// A name as a branch or a tag has it: not empty, and none of git's notes in
/// parentheses such as `(none)`.
pub open spec fn is_name(s: Seq<char>) -> bool {
    s.len() > 0 && s[0] != '('
}

pub open spec fn nth_word(line: Seq<char>, n: int) -> Seq<char> {
    if 0 <= n < words(line).len() {
        words(line)[n]
    } else {
        Seq::empty()
    }
}

/// What one line of `kind`'s output points at.
pub open spec fn drawer_ref(kind: Drawer, line: Seq<char>) -> RefView {
    match kind {
        Drawer::Graph | Drawer::Commits | Drawer::FileHistory => first_hash(words(line), 0),
        Drawer::Branches => {
            let name = trim(line.skip(scan(line, |c: char| c != '*', 0)));
            if is_name(name) {
                RefView::Branch { name, current: line.len() > 0 && line[0] == '*' }
            } else {
                RefView::Nothing
            }
        },
        Drawer::Remotes => if words(line).len() > 0 {
            RefView::Remote { name: nth_word(line, 0), url: nth_word(line, 1) }
        } else {
            RefView::Nothing
        },
        Drawer::Worktrees => if is_name(nth_word(line, 0)) {
            RefView::Worktree(nth_word(line, 0))
        } else {
            RefView::Nothing
        },
        Drawer::Stashes => if starts_with(line, "stash@{"@) {
            let rest = line.skip("stash@{"@.len() as int);
            match parsed_number(rest.take(scan(rest, is_char('}'), 0)), usize::MAX as nat) {
                Some(n) => RefView::Stash(n),
                None => RefView::Nothing,
            }
        } else {
            RefView::Nothing
        },
        Drawer::Tags => if is_name(trim(line)) {
            RefView::Tag(trim(line))
        } else {
            RefView::Nothing
        },
    }
}

fn reads_as_hash(word: &[char]) -> (res: bool)
    ensures
        res == is_hash(word@),
{
    if word.len() < 7 {
        return false;
    }
    let mut i: usize = 0;
    while i < word.len()
        invariant
            i <= word@.len(),
            forall|k: int| 0 <= k < i ==> is_hash_char(#[trigger] word@[k]),
        decreases word@.len() - i,
    {
        let c: char = word[i];
        if !(('0' <= c && c <= '9') || ('a' <= c && c <= 'f')) {
            assert(!is_hash_char(word@[i as int]));
            return false;
        }
        i += 1;
    }
    true
}

fn commit_ref(line: &[char]) -> (res: DrawerRef)
    ensures
        res@ == first_hash(words(line@), 0),
{
    let list: Vec<Vec<char>> = split_words(line);
    let mut i: usize = 0;
    while i < list.len()
        invariant
            i <= list@.len(),
            views(list@) == words(line@),
            first_hash(words(line@), i as int) == first_hash(words(line@), 0),
        decreases list@.len() - i,
    {
        assert(words(line@)[i as int] == list@[i as int]@);
        if reads_as_hash(list[i].as_slice()) {
            return DrawerRef::Commit(from_chars(list[i].as_slice()));
        }
        i += 1;
    }
    DrawerRef::Nothing
}

fn branch_ref(line: &[char]) -> (res: DrawerRef)
    ensures
        res@ == drawer_ref(Drawer::Branches, line@),
{
    let ghost p = |c: char| c != '*';
    let mut i: usize = 0;
    while i < line.len() && line[i] == '*'
        invariant
            i <= line@.len(),
            p == (|c: char| c != '*'),
            scan(line@, p, i as int) == scan(line@, p, 0),
        decreases line@.len() - i,
    {
        i += 1;
    }
    let rest: Vec<char> = slice_to_vec(line, i, line.len());
    assert(rest@ =~= line@.skip(i as int));
    let (from, to): (usize, usize) = trim_bounds(rest.as_slice());
    if from == to || rest[from] == '(' {
        DrawerRef::Nothing
    } else {
        DrawerRef::Branch {
            name: slice_to_string(rest.as_slice(), from, to),
            current: line.len() > 0 && line[0] == '*',
        }
    }
}

fn stash_ref(line: &[char]) -> (res: DrawerRef)
    ensures
        res@ == drawer_ref(Drawer::Stashes, line@),
{
    let prefix: Vec<char> = to_chars("stash@{");
    if !matches_at(line, prefix.as_slice(), 0) {
        return DrawerRef::Nothing;
    }
    let rest: Vec<char> = slice_to_vec(line, prefix.len(), line.len());
    assert(rest@ =~= line@.skip("stash@{"@.len() as int));
    let end: usize = find_char(rest.as_slice(), '}', 0);
    let number: Vec<char> = slice_to_vec(rest.as_slice(), 0, end);
    assert(number@ =~= rest@.take(end as int));
    match parse_usize(number.as_slice()) {
        Some(n) => DrawerRef::Stash(n),
        None => DrawerRef::Nothing,
    }
}

/// Parse the actionable reference out of one drawer line.
pub fn parse_drawer_ref(kind: Drawer, line: &str) -> (res: DrawerRef)
    ensures
        res@ == drawer_ref(kind, line@),
{
    let chars: Vec<char> = to_chars(line);
    match kind {
        Drawer::Graph | Drawer::Commits | Drawer::FileHistory => commit_ref(chars.as_slice()),
        Drawer::Branches => branch_ref(chars.as_slice()),
        Drawer::Remotes => {
            let list: Vec<Vec<char>> = split_words(chars.as_slice());
            assert(views(list@).len() == list@.len());
            if list.len() == 0 {
                DrawerRef::Nothing
            } else {
                assert(words(chars@)[0] == list@[0]@);
                let url: String = if list.len() > 1 {
                    assert(words(chars@)[1] == list@[1]@);
                    from_chars(list[1].as_slice())
                } else {
                    String::new()
                };
                DrawerRef::Remote { name: from_chars(list[0].as_slice()), url }
            }
        },
        Drawer::Worktrees => {
            let list: Vec<Vec<char>> = split_words(chars.as_slice());
            assert(views(list@).len() == list@.len());
            if list.len() == 0 {
                return DrawerRef::Nothing;
            }
            assert(words(chars@)[0] == list@[0]@);
            if list[0].len() == 0 || list[0][0] == '(' {
                DrawerRef::Nothing
            } else {
                DrawerRef::Worktree(from_chars(list[0].as_slice()))
            }
        },
        Drawer::Stashes => stash_ref(chars.as_slice()),
        Drawer::Tags => {
            let (from, to): (usize, usize) = trim_bounds(chars.as_slice());
            if from == to || chars[from] == '(' {
                DrawerRef::Nothing
            } else {
                DrawerRef::Tag(slice_to_string(chars.as_slice(), from, to))
            }
        },
    }
}

/// The handle of `stash@{n}`.
pub open spec fn stash_handle(n: nat) -> Seq<char> {
    "stash@{"@ + decimal(n) + "}"@
}

/// The handle by which git knows what a reference points at.
pub open spec fn spec_of(r: RefView) -> Option<Seq<char>> {
    match r {
        RefView::Nothing => None,
        RefView::Commit(h) => Some(h),
        RefView::Stash(n) => Some(stash_handle(n)),
        RefView::Branch { name, .. } => Some(name),
        RefView::Remote { name, .. } => Some(name),
        RefView::Tag(t) => Some(t),
        RefView::Worktree(p) => Some(p),
    }
}

pub fn stash_spec(n: usize) -> (res: String)
    ensures
        res@ == stash_handle(n as nat),
{
    let mut out: String = String::new();
    out.append("stash@{");
    push_decimal(&mut out, n);
    out.append("}");
    assert(out@ =~= stash_handle(n as nat));
    out
}

/// The stable, repo-independent handle a drawer line points at, for mirroring
/// a selection across tabs. `None` for blank graph-edge rows.
pub fn drawer_spec(dref: &DrawerRef) -> (res: Option<String>)
    ensures
        match res {
            Some(handle) => spec_of(dref@) == Some(handle@),
            None => spec_of(dref@) is None,
        },
{
    match dref {
        DrawerRef::Commit(h) => Some(h.clone()),
        DrawerRef::Stash(n) => Some(stash_spec(*n)),
        DrawerRef::Branch { name, .. } => Some(name.clone()),
        DrawerRef::Tag(t) => Some(t.clone()),
        DrawerRef::Remote { name, .. } => Some(name.clone()),
        DrawerRef::Worktree(p) => Some(p.clone()),
        DrawerRef::Nothing => None,
    }
}

/// What `git show` can show of a reference: remotes and worktrees have no
/// commit of their own to show.
pub open spec fn show_target(r: RefView) -> Option<Seq<char>> {
    match r {
        RefView::Remote { .. } | RefView::Worktree(_) => None,
        _ => spec_of(r),
    }
}

pub fn show_spec(dref: &DrawerRef) -> (res: Option<String>)
    ensures
        match res {
            Some(handle) => show_target(dref@) == Some(handle@),
            None => show_target(dref@) is None,
        },
{
    match dref {
        DrawerRef::Remote { .. } | DrawerRef::Worktree(_) => None,
        _ => drawer_spec(dref),
    }
}

// ---- How a line is shown ----

/// Display form of a `git worktree list` line: the folder's name plus its
/// branch, or a note where it has none.
pub open spec fn pretty_worktree(raw: Seq<char>) -> Seq<char> {
    let name = last_component(nth_word(raw, 0));
    let start = scan(raw, is_char('['), 0);
    let end = scan_back(raw, |c: char| c != ']', raw.len() as int) - 1;
    if start < raw.len() && start < end {
        name + "  ⎇ "@ + raw.subrange(start + 1, end)
    } else if contains(raw, "(bare)"@) {
        name + "  (bare)"@
    } else if contains(raw, "detached"@) {
        name + "  (detached)"@
    } else {
        name
    }
}

pub fn pretty_worktree_line(raw: &str) -> (res: String)
    ensures
        res@ == pretty_worktree(raw@),
{
    let chars: Vec<char> = to_chars(raw);
    let list: Vec<Vec<char>> = split_words(chars.as_slice());
    assert(views(list@).len() == list@.len());
    let mut out: String = if list.len() > 0 {
        assert(words(chars@)[0] == list@[0]@);
        let name: usize = last_component_start(list[0].as_slice());
        slice_to_string(list[0].as_slice(), name, list[0].len())
    } else {
        assert(last_component(Seq::<char>::empty()) =~= Seq::<char>::empty());
        String::new()
    };
    let ghost name: Seq<char> = out@;
    assert(name == last_component(nth_word(raw@, 0)));
    let start: usize = find_char(chars.as_slice(), '[', 0);
    let ghost p = |c: char| c != ']';
    let mut close: usize = chars.len();
    while close > 0 && chars[close - 1] != ']'
        invariant
            close <= chars@.len(),
            p == (|c: char| c != ']'),
            scan_back(chars@, p, close as int) == scan_back(chars@, p, chars@.len() as int),
        decreases close,
    {
        close -= 1;
    }
    if start < chars.len() && start + 1 < close {
        out.append("  ⎇ ");
        out.append(slice_to_string(chars.as_slice(), start + 1, close - 1).as_str());
    } else if contains_str(chars.as_slice(), to_chars("(bare)").as_slice()) {
        out.append("  (bare)");
    } else if contains_str(chars.as_slice(), to_chars("detached").as_slice()) {
        out.append("  (detached)");
    }
    out
}

/// `s` without the runs of `suffix` at its end.
pub open spec fn without_suffixes(s: Seq<char>, suffix: Seq<char>) -> Seq<char>
    decreases s.len(),
{
    if suffix.len() > 0 && occurs_at(s, suffix, s.len() - suffix.len()) {
        without_suffixes(s.take(s.len() - suffix.len()), suffix)
    } else {
        s
    }
}

/// A remote's address without the slashes and then the `.git` at its end.
pub open spec fn bare_url(url: Seq<char>) -> Seq<char> {
    without_suffixes(url.take(scan_back(url, is_char('/'), url.len() as int)), ".git"@)
}

/// What stands behind the scheme, or behind `git@`, of a hosted address.
pub open spec fn hosted_part(trimmed: Seq<char>) -> Option<Seq<char>> {
    let at = find_from(trimmed, "://"@, 0);
    if at >= 0 {
        Some(trimmed.skip(at + "://"@.len()))
    } else if starts_with(trimmed, "git@"@) {
        Some(trimmed.skip("git@"@.len() as int))
    } else {
        None
    }
}

pub open spec fn colons_to_slashes(s: Seq<char>) -> Seq<char> {
    Seq::new(
        s.len(),
        |i: int|
            if s[i] == ':' {
                '/'
            } else {
                s[i]
            },
    )
}

/// `owner/repo` of a hosted address, the folder name of a local path.
pub open spec fn pretty_url(url: Seq<char>) -> Seq<char> {
    let trimmed = bare_url(url);
    match hosted_part(trimmed) {
        Some(hosted) => {
            let rest = colons_to_slashes(hosted);
            let slash = scan(rest, is_char('/'), 0);
            if slash + 1 < rest.len() {
                rest.skip(slash + 1)
            } else {
                rest
            }
        },
        None => last_component(trimmed),
    }
}

fn trimmed_url_end(url: &[char]) -> (res: usize)
    ensures
        res <= url@.len(),
        url@.take(res as int) == bare_url(url@),
{
    let mut end: usize = url.len();
    while end > 0 && url[end - 1] == '/'
        invariant
            end <= url@.len(),
            scan_back(url@, is_char('/'), end as int) == scan_back(
                url@,
                is_char('/'),
                url@.len() as int,
            ),
        decreases end,
    {
        end -= 1;
    }
    let suffix: Vec<char> = to_chars(".git");
    proof {
        reveal_strlit(".git");
    }
    let n: usize = suffix.len();
    while end >= n && matches_at(url, suffix.as_slice(), end - n)
        invariant
            end <= url@.len(),
            suffix@ == ".git"@,
            n == suffix@.len(),
            n > 0,
            without_suffixes(url@.take(end as int), ".git"@) == bare_url(url@),
        decreases end,
    {
        proof {
            let s = url@.take(end as int);
            assert(s.subrange(end - n, end as int) =~= url@.subrange(end - n, end as int));
            assert(s.take(end - n) =~= url@.take(end - n));
        }
        end -= n;
    }
    proof {
        let s = url@.take(end as int);
        if end >= n {
            assert(s.subrange(end - n, end as int) =~= url@.subrange(end - n, end as int));
        }
    }
    end
}

pub fn pretty_remote_url(url: &str) -> (res: String)
    ensures
        res@ == pretty_url(url@),
{
    let all: Vec<char> = to_chars(url);
    let end: usize = trimmed_url_end(all.as_slice());
    let trimmed: Vec<char> = slice_to_vec(all.as_slice(), 0, end);
    assert(trimmed@ =~= all@.take(end as int));
    let scheme: Vec<char> = to_chars("://");
    let user: Vec<char> = to_chars("git@");
    let start: usize = match find_str(trimmed.as_slice(), scheme.as_slice(), 0) {
        Some(at) => at + scheme.len(),
        None => if matches_at(trimmed.as_slice(), user.as_slice(), 0) {
            user.len()
        } else {
            let name: usize = last_component_start(trimmed.as_slice());
            return slice_to_string(trimmed.as_slice(), name, trimmed.len());
        },
    };
    let ghost hosted: Seq<char> = trimmed@.skip(start as int);
    assert(hosted_part(trimmed@) == Some(hosted));
    let mut rest: Vec<char> = Vec::new();
    let mut i: usize = start;
    while i < trimmed.len()
        invariant
            start <= i <= trimmed@.len(),
            rest@.len() == i - start,
            forall|k: int|
                0 <= k < rest@.len() ==> rest@[k] == (if trimmed@[start + k] == ':' {
                    '/'
                } else {
                    trimmed@[start + k]
                }),
        decreases trimmed@.len() - i,
    {
        rest.push(if trimmed[i] == ':' {
            '/'
        } else {
            trimmed[i]
        });
        i += 1;
    }
    assert(rest@ =~= colons_to_slashes(hosted));
    let slash: usize = find_char(rest.as_slice(), '/', 0);
    if slash < rest.len() && slash + 1 < rest.len() {
        assert(rest@.skip(slash + 1) =~= rest@.subrange(slash + 1, rest@.len() as int));
        slice_to_string(rest.as_slice(), slash + 1, rest.len())
    } else {
        from_chars(rest.as_slice())
    }
}

/// Display form of a remote line: the name, then the interesting part of its
/// address. A line without two words is shown as it is.
pub open spec fn pretty_remote(raw: Seq<char>) -> Seq<char> {
    if words(raw).len() >= 2 {
        words(raw)[0] + "  "@ + pretty_url(words(raw)[1])
    } else {
        raw
    }
}

pub fn pretty_remote_line(raw: &str) -> (res: String)
    ensures
        res@ == pretty_remote(raw@),
{
    let list: Vec<Vec<char>> = split_words(to_chars(raw).as_slice());
    assert(views(list@).len() == list@.len());
    if list.len() < 2 {
        return raw.to_owned();
    }
    assert(words(raw@)[0] == list@[0]@);
    assert(words(raw@)[1] == list@[1]@);
    let mut out: String = from_chars(list[0].as_slice());
    out.append("  ");
    let url: String = from_chars(list[1].as_slice());
    out.append(pretty_remote_url(url.as_str()).as_str());
    out
}

/// How a line of `kind`'s output is shown.
pub open spec fn shown_line(kind: Drawer, raw: Seq<char>) -> Seq<char> {
    match kind {
        Drawer::Worktrees => pretty_worktree(raw),
        Drawer::Remotes => pretty_remote(raw),
        _ => raw,
    }
}

pub fn display_line(kind: Drawer, raw: &str) -> (res: String)
    ensures
        res@ == shown_line(kind, raw@),
{
    match kind {
        Drawer::Worktrees => pretty_worktree_line(raw),
        Drawer::Remotes => pretty_remote_line(raw),
        _ => raw.to_owned(),
    }
}

// ---- Panels ----

/// How many log lines the history-ish drawers fetch.
pub const DRAWER_LIMIT: usize = 30;

/// One drawer: whether it is open, its lines, and what each of them points at.
pub struct DrawerPanel {
    pub expanded: bool,
    pub lines: Vec<String>,
    /// What each line points at, parallel to `lines`.
    pub refs: Vec<DrawerRef>,
}

/// The lines that a fetch gives a drawer: a note where there are none, and
/// git's own words where it failed.
pub open spec fn fetched_lines(fetched: Result<Seq<Seq<char>>, Seq<char>>) -> Seq<Seq<char>> {
    match fetched {
        Ok(lines) => if lines.len() == 0 {
            seq!["(none)"@]
        } else {
            lines
        },
        Err(e) => seq!["("@ + e + ")"@],
    }
}

/// The views of what a fetch returned.
pub open spec fn fetched_view(fetched: Result<Vec<String>, String>) -> Result<
    Seq<Seq<char>>,
    Seq<char>,
> {
    match fetched {
        Ok(lines) => Ok(crate::text::string_views(lines@)),
        Err(e) => Err(e@),
    }
}

impl DrawerPanel {
    /// Each line has its reference.
    pub open spec fn wf(&self) -> bool {
        self.lines@.len() == self.refs@.len()
    }

    /// The panel shows what `kind` fetched: each raw line in its display form,
    /// with the reference that the raw line holds.
    pub open spec fn shows(&self, kind: Drawer, raw: Seq<Seq<char>>) -> bool {
        &&& self.lines@.len() == raw.len()
        &&& self.refs@.len() == raw.len()
        &&& forall|i: int|
            0 <= i < raw.len() ==> {
                &&& (#[trigger] self.lines@[i])@ == shown_line(kind, raw[i])
                &&& self.refs@[i]@ == drawer_ref(kind, raw[i])
            }
    }

    pub fn new() -> (res: Self)
        ensures
            res.wf(),
            !res.expanded,
            res.lines@.len() == 0,
    {
        DrawerPanel { expanded: false, lines: Vec::new(), refs: Vec::new() }
    }

    /// Take in what git printed for this drawer.
    pub fn load(&mut self, kind: Drawer, fetched: Result<Vec<String>, String>)
        ensures
            final(self).wf(),
            final(self).expanded == old(self).expanded,
            final(self).shows(kind, fetched_lines(fetched_view(fetched))),
    {
        let ghost raw: Seq<Seq<char>> = fetched_lines(fetched_view(fetched));
        let source: Vec<String> = match fetched {
            Ok(lines) => if lines.len() == 0 {
                vec!["(none)".to_owned()]
            } else {
                lines
            },
            Err(e) => {
                let mut note: String = "(".to_owned();
                note.append(e.as_str());
                note.append(")");
                vec![note]
            },
        };
        assert(crate::text::string_views(source@) =~= raw);
        let mut lines: Vec<String> = Vec::new();
        let mut refs: Vec<DrawerRef> = Vec::new();
        let mut i: usize = 0;
        while i < source.len()
            invariant
                i <= source@.len(),
                raw == crate::text::string_views(source@),
                lines@.len() == i,
                refs@.len() == i,
                forall|k: int|
                    0 <= k < i ==> {
                        &&& (#[trigger] lines@[k])@ == shown_line(kind, raw[k])
                        &&& refs@[k]@ == drawer_ref(kind, raw[k])
                    },
            decreases source@.len() - i,
        {
            assert(raw[i as int] == source@[i as int]@);
            refs.push(parse_drawer_ref(kind, source[i].as_str()));
            lines.push(display_line(kind, source[i].as_str()));
            i += 1;
        }
        self.lines = lines;
        self.refs = refs;
    }
}

/// The line a drawer shows without asking git: the file history waits until a
/// file was selected.
pub fn drawer_placeholder(kind: Drawer, has_history_target: bool) -> (res: Option<&'static str>)
    ensures
        match res {
            Some(line) => kind == Drawer::FileHistory && !has_history_target && line@
                == "(select a file above)"@,
            None => kind != Drawer::FileHistory || has_history_target,
        },
{
    match kind {
        Drawer::FileHistory => if has_history_target {
            None
        } else {
            Some("(select a file above)")
        },
        _ => None,
    }
}

} // verus!
