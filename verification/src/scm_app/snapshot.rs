//! What of the panel outlives it: a name for each row that survives a rebuild,
//! and the view state that is saved for the next panel in the same folder.

use vstd::prelude::*;

use crate::scm_app::drawer::{all_drawers, drawer_spec, show_spec, show_target, spec_of, Drawer, DrawerPanel, DRAWERS};
use crate::scm_app::panel::{opt_view, Panel};
use crate::scm_app::rows::{row_exists, Repo, Row};
use crate::text::{from_chars, str_eq, string_views};

verus! {

// ---- Row names ----

/// A stable, repo-independent name for a row. Widget rows and lines that point
/// at nothing have none.
pub open spec fn stable_id(repos: Seq<Repo>, drawers: Seq<DrawerPanel>, row: Row) -> Option<
    Seq<char>,
> {
    match row {
        Row::RepoHeader(r) => Some("repo:"@ + repos[r as int].git.root@),
        Row::StagedHeader(r) => Some("staged-h:"@ + repos[r as int].git.root@),
        Row::ChangesHeader(r) => Some("changes-h:"@ + repos[r as int].git.root@),
        Row::Staged(r, i) => Some(
            "staged:"@ + repos[r as int].git.root@ + ":"@
                + repos[r as int].status.staged@[i as int].path@,
        ),
        Row::Unstaged(r, i) => Some(
            "unstaged:"@ + repos[r as int].git.root@ + ":"@
                + repos[r as int].status.unstaged@[i as int].path@,
        ),
        Row::DrawerHeader(kind) => Some("drawer-h:"@ + kind.title_spec()),
        Row::DrawerLine(kind, i) => match spec_of(
            drawers[kind.index_spec()].refs@[i as int]@,
        ) {
            Some(handle) => Some("drawer:"@ + kind.title_spec() + ":"@ + handle),
            None => None,
        },
        Row::Message(_) => None,
        Row::Commit(_) => None,
    }
}

fn tagged(tag: &str, first: &str) -> (res: String)
    ensures
        res@ == tag@ + first@,
{
    let mut out: String = tag.to_owned();
    out.append(first);
    out
}

fn tagged2(tag: &str, first: &str, second: &str) -> (res: String)
    ensures
        res@ == tag@ + first@ + ":"@ + second@,
{
    let mut out: String = tag.to_owned();
    out.append(first);
    out.append(":");
    out.append(second);
    out
}

/// What a click on a row opens in the preview.
#[derive(PartialEq, Eq, Debug)]
pub enum DocKey {
    Diff { root: String, path: String, kind: DiffKind },
    Show { root: String, spec: String, file: Option<String> },
}

/// Which diff of a file: against the index, against the last commit, or all of
/// an untracked file as one addition.
#[derive(Clone, Copy, PartialEq, Eq, Structural, Debug)]
pub enum DiffKind {
    Staged,
    Untracked,
    Worktree,
}

/// What a `DocKey` holds.
pub enum DocView {
    Diff { root: Seq<char>, path: Seq<char>, kind: DiffKind },
    Show { root: Seq<char>, spec: Seq<char>, file: Option<Seq<char>> },
}

impl View for DocKey {
    type V = DocView;

    open spec fn view(&self) -> DocView {
        match *self {
            DocKey::Diff { root, path, kind } => DocView::Diff { root: root@, path: path@, kind },
            DocKey::Show { root, spec, file } => DocView::Show {
                root: root@,
                spec: spec@,
                file: opt_view(file),
            },
        }
    }
}

pub open spec fn diff_kind_spec(letter: char, staged: bool) -> DiffKind {
    if staged {
        DiffKind::Staged
    } else if letter == 'U' {
        DiffKind::Untracked
    } else {
        DiffKind::Worktree
    }
}

/// The diff that a file's row shows: staged rows show the staged diff, and
/// untracked files render as one addition.
pub fn diff_kind(letter: char, staged: bool) -> (res: DiffKind)
    ensures
        res == diff_kind_spec(letter, staged),
{
    if staged {
        DiffKind::Staged
    } else if letter == 'U' {
        DiffKind::Untracked
    } else {
        DiffKind::Worktree
    }
}

fn opt_str_eq(a: &Option<String>, b: &Option<String>) -> (res: bool)
    ensures
        res == (opt_view(*a) == opt_view(*b)),
{
    match (a, b) {
        (Some(x), Some(y)) => str_eq(x.as_str(), y.as_str()),
        (None, None) => true,
        _ => false,
    }
}

/// Whether two keys name the same document.
pub fn same_doc(a: &DocKey, b: &DocKey) -> (res: bool)
    ensures
        res == (a@ == b@),
{
    match (a, b) {
        (
            DocKey::Diff { root: r1, path: p1, kind: k1 },
            DocKey::Diff { root: r2, path: p2, kind: k2 },
        ) => str_eq(r1.as_str(), r2.as_str()) && str_eq(p1.as_str(), p2.as_str()) && *k1 == *k2,
        (
            DocKey::Show { root: r1, spec: s1, file: p1 },
            DocKey::Show { root: r2, spec: s2, file: p2 },
        ) => str_eq(r1.as_str(), r2.as_str()) && str_eq(s1.as_str(), s2.as_str()) && opt_str_eq(
            p1,
            p2,
        ),
        _ => false,
    }
}

fn clone_opt(s: &Option<String>) -> (res: Option<String>)
    ensures
        res == *s,
{
    match s {
        Some(s) => Some(s.clone()),
        None => None,
    }
}

impl Panel {
    /// The document that a click on a row opens; `None` for rows without one.
    pub open spec fn doc_of(&self, row: Row) -> Option<DocView> {
        match row {
            Row::Staged(r, i) => Some(
                DocView::Diff {
                    root: self.repos@[r as int].git.root@,
                    path: self.repos@[r as int].status.staged@[i as int].path@,
                    kind: DiffKind::Staged,
                },
            ),
            Row::Unstaged(r, i) => Some(
                DocView::Diff {
                    root: self.repos@[r as int].git.root@,
                    path: self.repos@[r as int].status.unstaged@[i as int].path@,
                    kind: diff_kind_spec(
                        self.repos@[r as int].status.unstaged@[i as int].letter,
                        false,
                    ),
                },
            ),
            Row::DrawerLine(kind, i) => if self.active < self.repos@.len() {
                match show_target(self.drawers@[kind.index_spec()].refs@[i as int]@) {
                    Some(spec) => Some(
                        DocView::Show {
                            root: self.repos@[self.active as int].git.root@,
                            spec,
                            file: if kind == Drawer::FileHistory {
                                self.history()
                            } else {
                                None
                            },
                        },
                    ),
                    None => None,
                }
            } else {
                None
            },
            _ => None,
        }
    }

    /// The document key a click on `index` would open, for the rows that
    /// preview (changed files and drawer lines).
    pub fn doc_key_for_row(&self, index: usize) -> (res: Option<DocKey>)
        requires
            self.wf(),
        ensures
            index >= self.rows@.len() ==> res is None,
            index < self.rows@.len() ==> match res {
                Some(key) => self.doc_of(self.rows@[index as int]) == Some(key@),
                None => self.doc_of(self.rows@[index as int]) is None,
            },
    {
        if index >= self.rows.len() {
            return None;
        }
        let row: Row = self.rows[index];
        assert(row_exists(row, self.repos@, self.drawers@));
        match row {
            Row::Staged(r, i) => Some(
                DocKey::Diff {
                    root: self.repos[r].git.root.clone(),
                    path: self.repos[r].status.staged[i].path.clone(),
                    kind: DiffKind::Staged,
                },
            ),
            Row::Unstaged(r, i) => Some(
                DocKey::Diff {
                    root: self.repos[r].git.root.clone(),
                    path: self.repos[r].status.unstaged[i].path.clone(),
                    kind: diff_kind(self.repos[r].status.unstaged[i].letter, false),
                },
            ),
            Row::DrawerLine(kind, i) => {
                if self.active >= self.repos.len() {
                    return None;
                }
                let k: usize = kind.index();
                assert(self.drawers@[k as int].wf());
                match show_spec(&self.drawers[k].refs[i]) {
                    None => None,
                    Some(spec) => Some(
                        DocKey::Show {
                            root: self.repos[self.active].git.root.clone(),
                            spec,
                            file: if kind == Drawer::FileHistory {
                                clone_opt(&self.history_target)
                            } else {
                                None
                            },
                        },
                    ),
                }
            },
            _ => None,
        }
    }

    /// The name of the row at `index`, by which a fresh panel finds it again.
    pub fn row_stable_id(&self, index: usize) -> (res: Option<String>)
        requires
            self.wf(),
        ensures
            index >= self.rows@.len() ==> res is None,
            index < self.rows@.len() ==> match res {
                Some(id) => stable_id(self.repos@, self.drawers@, self.rows@[index as int])
                    == Some(id@),
                None => stable_id(self.repos@, self.drawers@, self.rows@[index as int]) is None,
            },
    {
        if index >= self.rows.len() {
            return None;
        }
        let row: Row = self.rows[index];
        assert(row_exists(row, self.repos@, self.drawers@));
        match row {
            Row::RepoHeader(r) => Some(tagged("repo:", self.repos[r].git.root.as_str())),
            Row::StagedHeader(r) => Some(tagged("staged-h:", self.repos[r].git.root.as_str())),
            Row::ChangesHeader(r) => Some(tagged("changes-h:", self.repos[r].git.root.as_str())),
            Row::Staged(r, i) => Some(
                tagged2(
                    "staged:",
                    self.repos[r].git.root.as_str(),
                    self.repos[r].status.staged[i].path.as_str(),
                ),
            ),
            Row::Unstaged(r, i) => Some(
                tagged2(
                    "unstaged:",
                    self.repos[r].git.root.as_str(),
                    self.repos[r].status.unstaged[i].path.as_str(),
                ),
            ),
            Row::DrawerHeader(kind) => Some(tagged("drawer-h:", kind.title())),
            Row::DrawerLine(kind, i) => {
                let k: usize = kind.index();
                assert(self.drawers@[k as int].wf());
                match drawer_spec(&self.drawers[k].refs[i]) {
                    Some(handle) => Some(tagged2("drawer:", kind.title(), handle.as_str())),
                    None => None,
                }
            },
            Row::Message(_) => None,
            Row::Commit(_) => None,
        }
    }

    /// The first row from `from` on whose name is `id`.
    pub open spec fn named_from(&self, id: Seq<char>, from: int) -> Option<usize>
        decreases self.rows@.len() - from,
    {
        if 0 <= from < self.rows@.len() {
            if stable_id(self.repos@, self.drawers@, self.rows@[from]) == Some(id) {
                Some(from as usize)
            } else {
                self.named_from(id, from + 1)
            }
        } else {
            None
        }
    }

    /// Inverse of `row_stable_id`: the first row whose name matches, if any.
    pub fn find_row_by_stable_id(&self, id: &str) -> (res: Option<usize>)
        requires
            self.wf(),
        ensures
            res == self.named_from(id@, 0),
    {
        let mut i: usize = 0;
        while i < self.rows.len()
            invariant
                i <= self.rows@.len(),
                self.wf(),
                self.named_from(id@, i as int) == self.named_from(id@, 0),
            decreases self.rows@.len() - i,
        {
            if let Some(own) = self.row_stable_id(i) {
                if str_eq(own.as_str(), id) {
                    return Some(i);
                }
            }
            i += 1;
        }
        None
    }
}

/// A row with a name is found again by it: the search returns a row of the
/// same name, at or before the one that was asked for.
pub proof fn law_named_rows_are_found_again(panel: Panel, index: int)
    requires
        panel.wf(),
        0 <= index < panel.rows@.len() <= usize::MAX,
        stable_id(panel.repos@, panel.drawers@, panel.rows@[index]) is Some,
    ensures
        ({
            let id = stable_id(panel.repos@, panel.drawers@, panel.rows@[index])->0;
            panel.named_from(id, 0) matches Some(found) && found <= index && stable_id(
                panel.repos@,
                panel.drawers@,
                panel.rows@[found as int],
            ) == Some(id)
        }),
{
    let id = stable_id(panel.repos@, panel.drawers@, panel.rows@[index])->0;
    lemma_named_from(panel, id, 0, index);
}

proof fn lemma_named_from(panel: Panel, id: Seq<char>, from: int, index: int)
    requires
        0 <= from <= index < panel.rows@.len() <= usize::MAX,
        stable_id(panel.repos@, panel.drawers@, panel.rows@[index]) == Some(id),
    ensures
        panel.named_from(id, from) matches Some(found) && from <= found <= index && stable_id(
            panel.repos@,
            panel.drawers@,
            panel.rows@[found as int],
        ) == Some(id),
    decreases index - from,
{
    if stable_id(panel.repos@, panel.drawers@, panel.rows@[from]) != Some(id) {
        lemma_named_from(panel, id, from + 1, index);
    }
}

// ---- Saved drafts ----

/// A commit message that was begun, and the repository it is for.
pub struct Draft {
    pub root: String,
    pub message: String,
}

pub open spec fn has_string(list: Seq<String>, wanted: Seq<char>) -> bool {
    exists|i: int| 0 <= i < list.len() && (#[trigger] list[i])@ == wanted
}

pub open spec fn has_draft(list: Seq<Draft>, root: Seq<char>) -> bool {
    exists|i: int| 0 <= i < list.len() && (#[trigger] list[i]).root@ == root
}

pub fn contains_string(list: &Vec<String>, wanted: &str) -> (res: bool)
    ensures
        res == has_string(list@, wanted@),
{
    let mut i: usize = 0;
    while i < list.len()
        invariant
            i <= list@.len(),
            forall|k: int| 0 <= k < i ==> (#[trigger] list@[k])@ != wanted@,
        decreases list@.len() - i,
    {
        if str_eq(list[i].as_str(), wanted) {
            assert(list@[i as int]@ == wanted@);
            return true;
        }
        i += 1;
    }
    false
}

pub fn contains_draft(list: &Vec<Draft>, root: &str) -> (res: bool)
    ensures
        res == has_draft(list@, root@),
{
    let mut i: usize = 0;
    while i < list.len()
        invariant
            i <= list@.len(),
            forall|k: int| 0 <= k < i ==> (#[trigger] list@[k]).root@ != root@,
        decreases list@.len() - i,
    {
        if str_eq(list[i].root.as_str(), root) {
            assert(list@[i as int].root@ == root@);
            return true;
        }
        i += 1;
    }
    false
}

/// The drafts of the first `n` repositories; `keys` holds the name under which
/// each repository's draft is saved.
pub open spec fn drafts_of(repos: Seq<Repo>, keys: Seq<String>, n: int) -> Seq<
    (Seq<char>, Seq<char>),
>
    decreases n,
{
    if n <= 0 {
        Seq::empty()
    } else if repos[n - 1].message@.len() > 0 {
        drafts_of(repos, keys, n - 1).push((keys[n - 1]@, repos[n - 1].message@))
    } else {
        drafts_of(repos, keys, n - 1)
    }
}

pub open spec fn draft_views(list: Seq<Draft>) -> Seq<(Seq<char>, Seq<char>)> {
    list.map(|i: int, d: Draft| (d.root@, d.message@))
}

/// The commit messages that are worth saving.
pub fn collect_drafts(repos: &Vec<Repo>, keys: &Vec<String>) -> (res: Vec<Draft>)
    requires
        keys@.len() == repos@.len(),
    ensures
        draft_views(res@) == drafts_of(repos@, keys@, repos@.len() as int),
{
    let mut out: Vec<Draft> = Vec::new();
    let mut i: usize = 0;
    assert(draft_views(out@) =~= drafts_of(repos@, keys@, 0));
    while i < repos.len()
        invariant
            i <= repos@.len(),
            keys@.len() == repos@.len(),
            draft_views(out@) == drafts_of(repos@, keys@, i as int),
        decreases repos@.len() - i,
    {
        if repos[i].message.len() > 0 {
            let ghost before: Seq<Draft> = out@;
            out.push(
                Draft {
                    root: keys[i].clone(),
                    message: from_chars(repos[i].message.as_slice()),
                },
            );
            assert(draft_views(out@) =~= draft_views(before).push(
                (keys@[i as int]@, repos@[i as int].message@),
            ));
        }
        i += 1;
    }
    out
}

/// The saved drafts that this panel clears: those it loaded or saved itself,
/// of repositories it shows, that are empty now.
pub open spec fn is_cleared(
    persisted: Seq<String>,
    visible: Seq<String>,
    drafts: Seq<Draft>,
    root: Seq<char>,
) -> bool {
    has_string(persisted, root) && has_string(visible, root) && !has_draft(drafts, root)
}

pub fn cleared_drafts(persisted: &Vec<String>, visible: &Vec<String>, drafts: &Vec<Draft>) -> (res:
    Vec<String>)
    ensures
        forall|root: Seq<char>|
            #![trigger has_string(res@, root)]
            has_string(res@, root) <==> is_cleared(persisted@, visible@, drafts@, root),
{
    let mut out: Vec<String> = Vec::new();
    let mut i: usize = 0;
    while i < persisted.len()
        invariant
            i <= persisted@.len(),
            forall|k: int|
                0 <= k < out@.len() ==> is_cleared(
                    persisted@,
                    visible@,
                    drafts@,
                    (#[trigger] out@[k])@,
                ),
            forall|k: int|
                0 <= k < i && is_cleared(persisted@, visible@, drafts@, persisted@[k]@)
                    ==> has_string(out@, (#[trigger] persisted@[k])@),
        decreases persisted@.len() - i,
    {
        let root: &String = &persisted[i];
        let ghost before: Seq<String> = out@;
        assert(has_string(persisted@, persisted@[i as int]@));
        if contains_string(visible, root.as_str()) && !contains_draft(drafts, root.as_str()) {
            out.push(root.clone());
            assert(out@[out@.len() - 1]@ == root@);
            assert forall|k: int|
                0 <= k < i + 1 && is_cleared(
                    persisted@,
                    visible@,
                    drafts@,
                    persisted@[k]@,
                ) implies has_string(out@, (#[trigger] persisted@[k])@) by {
                if k < i {
                    let j = choose|j: int|
                        0 <= j < before.len() && (#[trigger] before[j])@ == persisted@[k]@;
                    assert(out@[j]@ == persisted@[k]@);
                }
            }
        }
        i += 1;
    }
    assert forall|root: Seq<char>|
        #![trigger has_string(out@, root)]
        has_string(out@, root) <==> is_cleared(persisted@, visible@, drafts@, root) by {
        if is_cleared(persisted@, visible@, drafts@, root) {
            let k = choose|k: int| 0 <= k < persisted@.len() && (#[trigger] persisted@[k])@ == root;
            assert(has_string(out@, persisted@[k]@));
        }
    }
    out
}

/// The drafts that are known to be saved once a save succeeded: those before
/// it without the cleared ones, and the ones that were written.
pub fn persisted_after_save(
    persisted: &Vec<String>,
    cleared: &Vec<String>,
    drafts: &Vec<Draft>,
) -> (res: Vec<String>)
    ensures
        forall|root: Seq<char>|
            #![trigger has_string(res@, root)]
            has_string(res@, root) <==> (has_string(persisted@, root) && !has_string(
                cleared@,
                root,
            )) || has_draft(drafts@, root),
{
    let mut out: Vec<String> = Vec::new();
    let mut i: usize = 0;
    while i < persisted.len()
        invariant
            i <= persisted@.len(),
            forall|k: int|
                0 <= k < out@.len() ==> has_string(persisted@, (#[trigger] out@[k])@)
                    && !has_string(cleared@, out@[k]@),
            forall|k: int|
                0 <= k < i && !has_string(cleared@, persisted@[k]@) ==> has_string(
                    out@,
                    (#[trigger] persisted@[k])@,
                ),
        decreases persisted@.len() - i,
    {
        let root: &String = &persisted[i];
        let ghost before: Seq<String> = out@;
        assert(has_string(persisted@, persisted@[i as int]@));
        if !contains_string(cleared, root.as_str()) {
            out.push(root.clone());
            assert(out@[out@.len() - 1]@ == root@);
            assert forall|k: int|
                0 <= k < i + 1 && !has_string(cleared@, persisted@[k]@) implies has_string(
                out@,
                (#[trigger] persisted@[k])@,
            ) by {
                if k < i {
                    let j = choose|j: int|
                        0 <= j < before.len() && (#[trigger] before[j])@ == persisted@[k]@;
                    assert(out@[j]@ == persisted@[k]@);
                }
            }
        }
        i += 1;
    }
    let ghost kept: Seq<String> = out@;
    let mut d: usize = 0;
    while d < drafts.len()
        invariant
            d <= drafts@.len(),
            out@.len() == kept.len() + d,
            forall|k: int| 0 <= k < kept.len() ==> out@[k] == kept[k],
            forall|k: int| 0 <= k < d ==> (#[trigger] out@[kept.len() + k])@ == drafts@[k].root@,
        decreases drafts@.len() - d,
    {
        out.push(drafts[d].root.clone());
        d += 1;
    }
    assert forall|root: Seq<char>|
        #![trigger has_string(out@, root)]
        has_string(out@, root) <==> (has_string(persisted@, root) && !has_string(cleared@, root))
            || has_draft(drafts@, root) by {
        if has_string(out@, root) {
            let j = choose|j: int| 0 <= j < out@.len() && (#[trigger] out@[j])@ == root;
            if j < kept.len() {
                assert(kept[j]@ == root);
            } else {
                assert(out@[kept.len() + (j - kept.len())]@ == drafts@[j - kept.len()].root@);
            }
        }
        if has_string(persisted@, root) && !has_string(cleared@, root) {
            let k = choose|k: int| 0 <= k < persisted@.len() && (#[trigger] persisted@[k])@ == root;
            assert(has_string(kept, persisted@[k]@));
            let j = choose|j: int| 0 <= j < kept.len() && (#[trigger] kept[j])@ == persisted@[k]@;
            assert(out@[j]@ == root);
        }
        if has_draft(drafts@, root) {
            let k = choose|k: int| 0 <= k < drafts@.len() && (#[trigger] drafts@[k]).root@ == root;
            assert(out@[kept.len() + k]@ == root);
        }
    }
    out
}

/// A panel never clears a draft that it did not load or save itself, nor one
/// that it is just writing.
pub proof fn law_foreign_drafts_are_never_cleared(
    persisted: Seq<String>,
    visible: Seq<String>,
    drafts: Seq<Draft>,
    root: Seq<char>,
)
    ensures
        !has_string(persisted, root) ==> !is_cleared(persisted, visible, drafts, root),
        has_draft(drafts, root) ==> !is_cleared(persisted, visible, drafts, root),
{
}

/// The titles of the first `n` drawers that are expanded.
pub open spec fn open_titles(drawers: Seq<DrawerPanel>, n: int) -> Seq<Seq<char>>
    decreases n,
{
    if n <= 0 {
        Seq::empty()
    } else if drawers[n - 1].expanded {
        open_titles(drawers, n - 1).push(all_drawers()[n - 1].title_spec())
    } else {
        open_titles(drawers, n - 1)
    }
}

/// The view state worth mirroring into a new tab.
pub struct ScmState {
    pub drawers: Vec<String>,
    pub active_root: Option<String>,
    pub selected: Option<String>,
    pub history_target: Option<String>,
    pub scroll: usize,
    pub drafts: Vec<Draft>,
    pub cleared_drafts: Vec<String>,
}

impl Panel {
    pub open spec fn selected_id(&self) -> Option<Seq<char>> {
        match self.selected_row() {
            Some(row) => stable_id(self.repos@, self.drawers@, row),
            None => None,
        }
    }

    fn expanded_titles(&self) -> (res: Vec<String>)
        requires
            self.wf(),
        ensures
            string_views(res@) == open_titles(self.drawers@, DRAWERS as int),
    {
        let all: [Drawer; 8] = Drawer::all();
        let mut out: Vec<String> = Vec::new();
        let mut k: usize = 0;
        assert(string_views(out@) =~= open_titles(self.drawers@, 0));
        while k < DRAWERS
            invariant
                k <= DRAWERS,
                all@ == all_drawers(),
                self.drawers@.len() == DRAWERS,
                string_views(out@) == open_titles(self.drawers@, k as int),
            decreases DRAWERS - k,
        {
            if self.drawers[k].expanded {
                let ghost before: Seq<String> = out@;
                out.push(all[k].title().to_owned());
                assert(string_views(out@) =~= string_views(before).push(
                    all_drawers()[k as int].title_spec(),
                ));
            }
            k += 1;
        }
        out
    }

    /// `state` is the view state of this panel, whose repositories are known by
    /// `keys`; `persisted` are the keys with a saved draft.
    pub open spec fn saved_as(
        &self,
        keys: Seq<String>,
        persisted: Seq<String>,
        state: ScmState,
    ) -> bool {
        &&& string_views(state.drawers@) == open_titles(self.drawers@, DRAWERS as int)
        &&& opt_view(state.active_root) == (if self.active < self.repos@.len() {
            Some(keys[self.active as int]@)
        } else {
            None
        })
        &&& opt_view(state.selected) == self.selected_id()
        &&& state.history_target == self.history_target
        &&& state.scroll == self.scroll
        &&& draft_views(state.drafts@) == drafts_of(self.repos@, keys, self.repos@.len() as int)
        &&& forall|root: Seq<char>|
            #![trigger has_string(state.cleared_drafts@, root)]
            has_string(state.cleared_drafts@, root) <==> is_cleared(
                persisted,
                keys,
                state.drafts@,
                root,
            )
    }

    /// A snapshot of the view state worth mirroring into a new tab.
    pub fn snapshot_scm(&self, keys: &Vec<String>, persisted: &Vec<String>) -> (res: ScmState)
        requires
            self.wf(),
            keys@.len() == self.repos@.len(),
        ensures
            self.saved_as(keys@, persisted@, res),
    {
        let drafts: Vec<Draft> = collect_drafts(&self.repos, keys);
        let cleared: Vec<String> = cleared_drafts(persisted, keys, &drafts);
        let selected: Option<String> = match self.selected {
            Some(i) => self.row_stable_id(i),
            None => None,
        };
        ScmState {
            drawers: self.expanded_titles(),
            active_root: if self.active < self.repos.len() {
                Some(keys[self.active].clone())
            } else {
                None
            },
            selected,
            history_target: clone_opt(&self.history_target),
            scroll: self.scroll,
            drafts,
            cleared_drafts: cleared,
        }
    }
}

} // verus!
