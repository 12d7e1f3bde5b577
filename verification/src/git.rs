//! What the sidebar knows of a git repository.

use vstd::prelude::*;

verus! {

/// A repository: where it is and what it is called.
pub struct Git {
    pub root: String,
    pub name: String,
}

/// One changed file, as `git status` lists it.
#[derive(PartialEq, Eq, Debug)]
pub struct FileEntry {
    /// Relative to the repository root, with `/` between its components.
    pub path: String,
    /// Where a renamed file came from.
    pub orig: Option<String>,
    /// The status letter: `M`, `A`, `D`, `R`, `U` for untracked, and so on.
    pub letter: char,
}

impl Clone for FileEntry {
    fn clone(&self) -> (res: Self)
        ensures
            res == *self,
    {
        FileEntry {
            path: self.path.clone(),
            orig: match &self.orig {
                Some(orig) => Some(orig.clone()),
                None => None,
            },
            letter: self.letter,
        }
    }
}

/// The state of a working tree and of its branch.
pub struct Status {
    pub branch: String,
    pub staged: Vec<FileEntry>,
    pub unstaged: Vec<FileEntry>,
    /// Commits that the upstream branch does not have.
    pub ahead: u32,
    /// Commits of the upstream branch that are not here.
    pub behind: u32,
    pub has_upstream: bool,
}

impl Default for Status {
    fn default() -> (res: Self)
        ensures
            res.branch@.len() == 0,
            res.staged@.len() == 0,
            res.unstaged@.len() == 0,
            res.ahead == 0,
            res.behind == 0,
            !res.has_upstream,
    {
        Status {
            branch: String::new(),
            staged: Vec::new(),
            unstaged: Vec::new(),
            ahead: 0,
            behind: 0,
            has_upstream: false,
        }
    }
}

impl Status {
    /// Nothing is staged and nothing is changed.
    pub open spec fn clean(&self) -> bool {
        self.staged@.len() == 0 && self.unstaged@.len() == 0
    }

    /// The branch and its upstream differ.
    pub open spec fn diverged(&self) -> bool {
        self.ahead + self.behind > 0
    }

    pub fn is_clean(&self) -> (res: bool)
        ensures
            res == self.clean(),
    {
        self.staged.len() == 0 && self.unstaged.len() == 0
    }

    pub fn is_diverged(&self) -> (res: bool)
        ensures
            res == self.diverged(),
    {
        self.ahead > 0 || self.behind > 0
    }
}

} // verus!
