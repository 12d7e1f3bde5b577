//! Quick open: a list of files that a query narrows down.

use crate::columns::{columns_left, left_over, tail_of, truncate_path_tail};
use crate::explorer_app::panel::{type_key, typed};
use crate::explorer_app::quick::{
    are_answers, lemma_answers_are_files, quick_matches, QuickFile, QUICK_OPEN_FILE_LIMIT,
};
use crate::geometry::{area_at, capped, place, plus, Area};
use crate::input::{Key, KeyCode};
use crate::popup::{inner_area, inside_border};
use crate::text::{decimal, push_decimal};
use std::sync::Arc;
use vstd::prelude::*;

verus! {

/// The files below a root.
pub struct QuickIndex {
    pub root: String,
    pub show_hidden: bool,
    pub files: Arc<Vec<QuickFile>>,
    /// There are more files than were listed.
    pub truncated: bool,
}

pub struct QuickOpen {
    pub query: String,
    pub files: Arc<Vec<QuickFile>>,
    /// The files that answer the query.
    pub matches: Vec<usize>,
    pub selected: usize,
    pub truncated: bool,
    /// The files are still being listed.
    pub loading: bool,
}

/// What a key in quick open asks for.
pub enum QuickCommand {
    Nothing,
    Close,
    /// Show this file.
    Open(String),
}

impl QuickOpen {
    pub open spec fn wf(&self) -> bool {
        are_answers(self.files@, self.query@, self.matches@)
    }

    /// Quick open as it is first shown.
    pub fn new(files: Arc<Vec<QuickFile>>, truncated: bool, loading: bool) -> (res: QuickOpen)
        ensures
            res.wf(),
            res.query@.len() == 0,
            res.files == files,
            res.selected == 0,
            res.truncated == truncated,
            res.loading == loading,
    {
        let matches: Vec<usize> = quick_matches(files.as_slice(), "");
        proof {
            reveal_strlit("");
        }
        let query: String = String::new();
        assert(query@ =~= ""@);
        QuickOpen { query, files, matches, selected: 0, truncated, loading }
    }

    /// The files of another listing.
    pub open spec fn indexed_rel(
        &self,
        files: Arc<Vec<QuickFile>>,
        truncated: bool,
        post: &QuickOpen,
    ) -> bool {
        &&& *post == (QuickOpen {
            files,
            matches: post.matches,
            selected: 0,
            truncated,
            loading: false,
            ..*self
        })
        &&& post.wf()
    }

    /// The files have been listed.
    pub fn indexed(&mut self, files: Arc<Vec<QuickFile>>, truncated: bool)
        ensures
            old(self).indexed_rel(files, truncated, final(self)),
    {
        self.matches = quick_matches(files.as_slice(), self.query.as_str());
        self.files = files;
        self.selected = 0;
        self.truncated = truncated;
        self.loading = false;
    }

    /// What a key does in quick open.
    pub open spec fn key_rel(&self, key: Key, post: &QuickOpen, command: QuickCommand) -> bool {
        match key.code {
            KeyCode::Esc => command is Close && *post == *self,
            KeyCode::Up => command is Nothing && *post == (QuickOpen {
                selected: if self.selected == 0 {
                    0
                } else {
                    (self.selected - 1) as usize
                },
                ..*self
            }),
            KeyCode::Down => command is Nothing && *post == (QuickOpen {
                selected: if self.matches@.len() == 0 {
                    0
                } else if self.selected + 1 < self.matches@.len() {
                    (self.selected + 1) as usize
                } else {
                    (self.matches@.len() - 1) as usize
                },
                ..*self
            }),
            KeyCode::Enter => *post == *self && if self.selected < self.matches@.len() {
                command matches QuickCommand::Open(path) && path@
                    == self.files@[self.matches@[self.selected as int] as int].path@
            } else {
                command is Nothing
            },
            _ => command is Nothing && match typed(self.query@, key) {
                Some(text) => {
                    &&& *post == (QuickOpen {
                        query: post.query,
                        matches: post.matches,
                        selected: 0,
                        ..*self
                    })
                    &&& post.query@ == text
                    &&& post.wf()
                },
                None => *post == *self,
            },
        }
    }

    pub fn on_key(&mut self, key: Key) -> (res: QuickCommand)
        requires
            old(self).wf(),
        ensures
            final(self).wf(),
            old(self).key_rel(key, final(self), res),
    {
        match key.code {
            KeyCode::Esc => QuickCommand::Close,
            KeyCode::Up => {
                self.selected = self.selected.saturating_sub(1);
                QuickCommand::Nothing
            },
            KeyCode::Down => {
                let count: usize = self.matches.len();
                self.selected = if count == 0 {
                    0
                } else if self.selected < count - 1 {
                    self.selected + 1
                } else {
                    count - 1
                };
                QuickCommand::Nothing
            },
            KeyCode::Enter => {
                if self.selected < self.matches.len() {
                    let index: usize = self.matches[self.selected];
                    let count: usize = self.files.len();
                    proof {
                        lemma_answers_are_files(self.files@, self.query@, self.matches@);
                    }
                    QuickCommand::Open(self.files[index].path.clone())
                } else {
                    QuickCommand::Nothing
                }
            },
            _ => {
                if type_key(&mut self.query, key) {
                    self.matches = quick_matches(self.files.as_slice(), self.query.as_str());
                    self.selected = 0;
                }
                QuickCommand::Nothing
            },
        }
    }

    // ---- How it looks ----

    /// What the bottom line says.
    pub open spec fn status_spec(&self) -> Seq<char> {
        if self.loading {
            "indexing files…"@
        } else if self.matches@.len() == 0 {
            "no matching files"@
        } else if self.truncated {
            decimal(self.matches@.len()) + " matches · first "@ + decimal(
                QUICK_OPEN_FILE_LIMIT as nat,
            ) + " files indexed"@
        } else {
            decimal(self.matches@.len()) + " matches"@
        }
    }

    pub fn status(&self) -> (res: String)
        ensures
            res@ == self.status_spec(),
    {
        if self.loading {
            return "indexing files…".to_owned();
        }
        let count: usize = self.matches.len();
        if count == 0 {
            return "no matching files".to_owned();
        }
        let mut text: String = String::new();
        push_decimal(&mut text, count);
        assert(text@ =~= decimal(count as nat));
        if self.truncated {
            text.append(" matches · first ");
            push_decimal(&mut text, QUICK_OPEN_FILE_LIMIT);
            text.append(" files indexed");
        } else {
            text.append(" matches");
        }
        text
    }
}

/// A file in the list: as much of the end of its path as there is room for.
pub open spec fn file_line(label: Seq<char>, width: u16) -> Seq<char> {
    " "@ + tail_of(label, left_over(width as int, 1) as usize)
}

pub fn quick_line(label: &str, width: u16) -> (res: String)
    ensures
        res@ == file_line(label@, width),
{
    let mut line: String = " ".to_owned();
    line.append(
        truncate_path_tail(label, columns_left(width as usize, 1, 0, 0, 0)).as_str(),
    );
    line
}

/// Where quick open stands.
#[derive(Clone, Copy, Debug)]
pub struct QuickLayout {
    pub popup: Area,
    pub query: Area,
    pub list: Area,
    /// Without cells where there is no room for it.
    pub status: Area,
    /// The first of the found files that is shown.
    pub start: usize,
}

/// Quick open is centred, a quarter of the free lines above it; it is as high as
/// its files ask for, and its window follows the selection.
pub open spec fn quick_layout_spec(
    width: u16,
    height: u16,
    matches: nat,
    selected: usize,
) -> QuickLayout {
    let w: int = if width < 1 {
        1
    } else if width > 82 {
        82
    } else {
        width as int
    };
    let room = left_over(height as int, 5) as int;
    let rows = if matches < room {
        matches as int
    } else {
        room
    };
    let visible: int = if rows < 1 {
        1
    } else {
        rows
    };
    let h: int = if height == 0 {
        1
    } else if visible + 5 < height {
        visible + 5
    } else {
        height as int
    };
    let popup = area_at(
        (left_over(width as int, w) / 2) as u16,
        (left_over(height as int, h) / 4) as u16,
        w as u16,
        h as u16,
    );
    let inner = inner_area(popup);
    let list = area_at(
        inner.x,
        capped(inner.y + 2),
        inner.width,
        left_over(inner.height as int, 3) as u16,
    );
    QuickLayout {
        popup,
        query: area_at(
            inner.x,
            inner.y,
            inner.width,
            if inner.height < 1 {
                inner.height
            } else {
                1
            },
        ),
        list,
        status: if inner.height > 1 {
            area_at(inner.x, capped(inner.y + (inner.height - 1)), inner.width, 1)
        } else {
            Area::empty_spec()
        },
        start: left_over(selected as int, left_over(list.height as int, 1) as int) as usize,
    }
}

pub fn quick_layout(width: u16, height: u16, matches: usize, selected: usize) -> (res: QuickLayout)
    ensures
        res == quick_layout_spec(width, height, matches as nat, selected),
{
    let w: u16 = if width < 1 {
        1
    } else if width > 82 {
        82
    } else {
        width
    };
    let room: u16 = height.saturating_sub(5);
    let rows: u16 = if matches < room as usize {
        matches as u16
    } else {
        room
    };
    let visible: u16 = if rows < 1 {
        1
    } else {
        rows
    };
    let h: u16 = if height == 0 {
        1
    } else if height > 5 && visible < height - 5 {
        visible + 5
    } else {
        height
    };
    let popup: Area = place(width.saturating_sub(w) / 2, height.saturating_sub(h) / 4, w, h);
    let inner: Area = inside_border(popup);
    let list: Area = place(
        inner.x,
        plus(inner.y, 2),
        inner.width,
        inner.height.saturating_sub(3),
    );
    QuickLayout {
        popup,
        query: place(
            inner.x,
            inner.y,
            inner.width,
            if inner.height < 1 {
                inner.height
            } else {
                1
            },
        ),
        list,
        status: if inner.height > 1 {
            place(inner.x, plus(inner.y, inner.height - 1), inner.width, 1)
        } else {
            Area::empty()
        },
        start: selected.saturating_sub((list.height as usize).saturating_sub(1)),
    }
}

/// The selected file is on the screen, as soon as there is a line for it.
pub proof fn law_quick_open_shows_the_selection(
    width: u16,
    height: u16,
    matches: nat,
    selected: usize,
)
    ensures
        ({
            let layout = quick_layout_spec(width, height, matches, selected);
            layout.list.height > 0 ==> layout.start <= selected < layout.start
                + layout.list.height
        }),
{
}

/// Whatever is typed, the list holds the files that answer it, and the best of
/// them is selected.
pub proof fn law_typing_starts_at_the_best(
    quick: QuickOpen,
    key: Key,
    post: QuickOpen,
    command: QuickCommand,
)
    requires
        quick.wf(),
        quick.key_rel(key, &post, command),
    ensures
        are_answers(post.files@, post.query@, post.matches@),
        post.query@ != quick.query@ ==> post.selected == 0,
        post.files == quick.files,
{
}

} // verus!
