//! When the status of repositories is read for the tree's decorations, and what
//! is kept of the ignored files between reads.

use crate::text::{str_eq, string_views};
use vstd::prelude::*;

verus! {

/// How often the status is read on its own, in milliseconds.
pub const DECO_REFRESH_MS: u64 = 2000;

/// How often the tree that all panes share is looked at, in milliseconds.
pub const TREE_SYNC_MS: u64 = 250;

/// How long a repository is left alone whose ignored files could not be listed,
/// in milliseconds.
pub const IGNORED_BACKOFF_MS: u64 = 60_000;

/// Ignored files are listed again once the time to leave the repository alone is
/// over.
pub fn ignored_scan_due(backoff_until: Option<u64>, now: u64) -> (res: bool)
    ensures
        res == !(backoff_until matches Some(until) && now < until),
{
    match backoff_until {
        Some(until) => now >= until,
        None => true,
    }
}

/// What to do when the status may be read.
#[derive(Clone, Copy, PartialEq, Eq, Structural, Debug)]
pub enum StatusStep {
    /// Nothing shows the status: drop what is known of it.
    Drop,
    /// Not now.
    Skip,
    Read,
}

/// Reads do not overlap; on its own only the focused pane reads.
pub fn status_step(
    decorations: bool,
    footer: bool,
    pending: bool,
    forced: bool,
    focused: bool,
) -> (res: StatusStep)
    ensures
        res == (if !decorations && !footer {
            StatusStep::Drop
        } else if pending || !(forced || focused) {
            StatusStep::Skip
        } else {
            StatusStep::Read
        }),
{
    if !decorations && !footer {
        StatusStep::Drop
    } else if pending || (!forced && !focused) {
        StatusStep::Skip
    } else {
        StatusStep::Read
    }
}

// ---- What is kept ----

/// What is kept of a repository's ignored files.
pub struct Kept {
    pub root: String,
    /// The ignored files when they were listed last.
    pub ignored: Option<Vec<String>>,
    /// Until when the repository is left alone.
    pub until: Option<u64>,
}

/// What is kept of all repositories, once for each.
pub struct IgnoredFiles {
    pub kept: Vec<Kept>,
}

/// What a read has brought of a repository's ignored files.
pub struct IgnoredRead {
    pub root: String,
    /// The ignored files, where they were listed.
    pub ignored: Option<Vec<String>>,
    /// They were to be listed.
    pub attempted: bool,
    /// They could not be listed.
    pub degraded: bool,
}

pub open spec fn opt_views(list: Option<Vec<String>>) -> Option<Seq<Seq<char>>> {
    match list {
        Some(list) => Some(string_views(list@)),
        None => None,
    }
}

/// The first entry from the `i`th on of a repository.
pub open spec fn kept_at(kept: Seq<Kept>, root: Seq<char>, i: int) -> Option<int>
    decreases kept.len() - i,
{
    if 0 <= i < kept.len() {
        if kept[i].root@ == root {
            Some(i)
        } else {
            kept_at(kept, root, i + 1)
        }
    } else {
        None
    }
}

proof fn lemma_kept_at(kept: Seq<Kept>, root: Seq<char>, i: int)
    requires
        0 <= i,
    ensures
        kept_at(kept, root, i) matches Some(k) ==> i <= k < kept.len() && kept[k].root@ == root,
        kept_at(kept, root, i) is None ==> forall|k: int|
            i <= k < kept.len() ==> (#[trigger] kept[k]).root@ != root,
    decreases kept.len() - i,
{
    if i < kept.len() && kept[i].root@ != root {
        lemma_kept_at(kept, root, i + 1);
    }
}

/// Entries with the same roots are found at the same places.
proof fn lemma_same_roots(a: Seq<Kept>, b: Seq<Kept>, root: Seq<char>, i: int)
    requires
        0 <= i,
        a.len() == b.len(),
        forall|k: int| 0 <= k < a.len() ==> (#[trigger] a[k]).root@ == b[k].root@,
    ensures
        kept_at(a, root, i) == kept_at(b, root, i),
    decreases a.len() - i,
{
    if i < a.len() {
        lemma_same_roots(a, b, root, i + 1);
    }
}

/// An entry at the end is found where there was none before.
proof fn lemma_added(a: Seq<Kept>, entry: Kept, root: Seq<char>, i: int)
    requires
        0 <= i <= a.len(),
    ensures
        kept_at(a.push(entry), root, i) == (match kept_at(a, root, i) {
            Some(k) => Some(k),
            None => if entry.root@ == root {
                Some(a.len() as int)
            } else {
                None
            },
        }),
    decreases a.len() - i,
{
    if i < a.len() {
        lemma_added(a, entry, root, i + 1);
        assert(a.push(entry)[i] == a[i]);
    } else {
        assert(kept_at(a.push(entry), root, i + 1) is None);
        assert(a.push(entry)[i] == entry);
    }
}

fn find_kept(kept: &Vec<Kept>, root: &str) -> (res: Option<usize>)
    ensures
        match res {
            Some(i) => i < kept@.len() && kept_at(kept@, root@, 0) == Some(i as int),
            None => kept_at(kept@, root@, 0) is None,
        },
{
    let mut i: usize = 0;
    while i < kept.len()
        invariant
            i <= kept@.len(),
            kept_at(kept@, root@, i as int) == kept_at(kept@, root@, 0),
        decreases kept@.len() - i,
    {
        if str_eq(kept[i].root.as_str(), root) {
            return Some(i);
        }
        i += 1;
    }
    None
}

fn copy_list(list: &Vec<String>) -> (res: Vec<String>)
    ensures
        string_views(res@) == string_views(list@),
{
    let mut out: Vec<String> = Vec::new();
    let mut i: usize = 0;
    while i < list.len()
        invariant
            i <= list@.len(),
            out@.len() == i,
            forall|k: int| 0 <= k < i ==> (#[trigger] out@[k])@ == list@[k]@,
        decreases list@.len() - i,
    {
        out.push(list[i].clone());
        i += 1;
    }
    assert(string_views(out@) =~= string_views(list@));
    out
}

impl IgnoredFiles {
    /// The ignored files of a repository when they were listed last.
    pub open spec fn ignored_of(&self, root: Seq<char>) -> Option<Seq<Seq<char>>> {
        match kept_at(self.kept@, root, 0) {
            Some(k) => opt_views(self.kept@[k].ignored),
            None => None,
        }
    }

    /// Until when a repository is left alone.
    pub open spec fn until(&self, root: Seq<char>) -> Option<u64> {
        match kept_at(self.kept@, root, 0) {
            Some(k) => self.kept@[k].until,
            None => None,
        }
    }

    pub fn new() -> (res: IgnoredFiles)
        ensures
            forall|root: Seq<char>| #[trigger] res.ignored_of(root) is None,
            forall|root: Seq<char>| #[trigger] res.until(root) is None,
    {
        IgnoredFiles { kept: Vec::new() }
    }

    /// Whether the ignored files of a repository are to be listed.
    pub fn is_due(&self, root: &str, now: u64) -> (res: bool)
        ensures
            res == !(self.until(root@) matches Some(until) && now < until),
    {
        match find_kept(&self.kept, root) {
            Some(i) => ignored_scan_due(self.kept[i].until, now),
            None => true,
        }
    }

    /// Until when a repository is left alone after a read.
    pub open spec fn until_after(&self, read: IgnoredRead, now: u64) -> Option<u64> {
        if !read.attempted {
            self.until(read.root@)
        } else if read.degraded {
            Some(
                if now + IGNORED_BACKOFF_MS > u64::MAX {
                    u64::MAX
                } else {
                    (now + IGNORED_BACKOFF_MS) as u64
                },
            )
        } else {
            None
        }
    }

    /// The ignored files of a repository after a read: those that were listed,
    /// else those that are kept.
    pub open spec fn ignored_after(&self, read: IgnoredRead) -> Option<Seq<Seq<char>>> {
        match read.ignored {
            Some(list) => Some(string_views(list@)),
            None => self.ignored_of(read.root@),
        }
    }

    /// Take what a read has brought. The result is the repository's ignored
    /// files as far as they are known; other repositories are not touched.
    pub fn take(&mut self, read: IgnoredRead, now: u64) -> (res: Vec<String>)
        ensures
            final(self).ignored_of(read.root@) == old(self).ignored_after(read),
            final(self).until(read.root@) == old(self).until_after(read, now),
            forall|root: Seq<char>|
                root != read.root@ ==> #[trigger] final(self).ignored_of(root) == old(
                    self,
                ).ignored_of(root),
            forall|root: Seq<char>|
                root != read.root@ ==> #[trigger] final(self).until(root) == old(self).until(root),
            string_views(res@) == match old(self).ignored_after(read) {
                Some(list) => list,
                None => Seq::empty(),
            },
    {
        let ghost before: Seq<Kept> = self.kept@;
        let found: Option<usize> = find_kept(&self.kept, read.root.as_str());
        let until: Option<u64> = if !read.attempted {
            match found {
                Some(i) => self.kept[i].until,
                None => None,
            }
        } else if read.degraded {
            Some(now.saturating_add(IGNORED_BACKOFF_MS))
        } else {
            None
        };
        let listed: Option<Vec<String>> = match &read.ignored {
            Some(list) => Some(copy_list(list)),
            None => match found {
                Some(i) => match &self.kept[i].ignored {
                    Some(list) => Some(copy_list(list)),
                    None => None,
                },
                None => None,
            },
        };
        let result: Vec<String> = match &listed {
            Some(list) => copy_list(list),
            None => Vec::new(),
        };
        assert(listed is None ==> string_views(result@) =~= Seq::<Seq<char>>::empty());
        let ghost root: Seq<char> = read.root@;
        let entry: Kept = Kept { root: read.root, ignored: listed, until };
        match found {
            Some(i) => {
                proof {
                    lemma_kept_at(before, root, 0);
                }
                self.kept.set(i, entry);
                proof {
                    assert forall|other: Seq<char>| true implies kept_at(
                        self.kept@,
                        other,
                        0,
                    ) == #[trigger] kept_at(before, other, 0) by {
                        lemma_same_roots(self.kept@, before, other, 0);
                        lemma_kept_at(before, other, 0);
                    }
                    assert forall|other: Seq<char>| other != root implies #[trigger] self.ignored_of(
                        other,
                    ) == old(self).ignored_of(other) by {
                        lemma_kept_at(before, other, 0);
                        assert(kept_at(self.kept@, other, 0) == kept_at(before, other, 0));
                    }
                    assert forall|other: Seq<char>| other != root implies #[trigger] self.until(
                        other,
                    ) == old(self).until(other) by {
                        lemma_kept_at(before, other, 0);
                        assert(kept_at(self.kept@, other, 0) == kept_at(before, other, 0));
                    }
                    assert(kept_at(self.kept@, root, 0) == kept_at(before, root, 0));
                }
            },
            None => {
                self.kept.push(entry);
                proof {
                    lemma_added(before, entry, root, 0);
                    assert forall|other: Seq<char>| other != root implies #[trigger] self.ignored_of(
                        other,
                    ) == old(self).ignored_of(other) by {
                        lemma_added(before, entry, other, 0);
                        lemma_kept_at(before, other, 0);
                    }
                    assert forall|other: Seq<char>| other != root implies #[trigger] self.until(
                        other,
                    ) == old(self).until(other) by {
                        lemma_added(before, entry, other, 0);
                        lemma_kept_at(before, other, 0);
                    }
                }
            },
        }
        result
    }
}

} // verus!
