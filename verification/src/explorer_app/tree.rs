//! The rows of the file tree: what is selected, what is on the screen and what
//! a row looks like.

use crate::columns::{columns, columns_left, left_over, repeat, repeated, text_width, truncate_to, truncated};
use crate::explorer_app::paths::{is_under, lies_under};
use crate::ranking::{insert_text, texts_in_order};
use crate::scm_app::rows::BodyGeom;
use crate::spans::{empty_line, line_view, piece, put, Span, SpanView, Tone};
use crate::text::{str_eq, string_views};
use vstd::prelude::*;

verus! {

/// A visible file or folder.
#[derive(Debug)]
pub struct Row {
    pub path: String,
    pub name: String,
    /// The folder that it lies in.
    pub folder: String,
    pub is_dir: bool,
    pub depth: usize,
    pub expanded: bool,
}

// ---- Clicks ----

/// The two cells behind the indentation of a row.
pub open spec fn on_chevron(column: u16, depth: nat) -> bool {
    2 * depth <= column < 2 * depth + 2
}

pub fn hits_chevron(column: u16, depth: usize) -> (res: bool)
    ensures
        res == on_chevron(column, depth as nat),
{
    (column as usize) / 2 == depth
}

/// A click on a folder opens or closes it, but the second click of a double
/// click on its name does not undo the first.
pub fn folder_click_toggles(on_chevron: bool, double: bool) -> (res: bool)
    ensures
        res == (on_chevron || !double),
{
    on_chevron || !double
}

/// The row under a mouse row.
pub open spec fn row_under(body: BodyGeom, count: nat, mouse_row: u16) -> Option<usize> {
    let index = body.offset + (mouse_row - body.top);
    if body.top <= mouse_row < body.top + body.height && index < count {
        Some(index as usize)
    } else {
        None
    }
}

pub fn row_index_at(body: BodyGeom, row_count: usize, mouse_row: u16) -> (res: Option<usize>)
    ensures
        res == row_under(body, row_count as nat, mouse_row),
{
    if mouse_row < body.top || mouse_row - body.top >= body.height {
        return None;
    }
    let line: usize = (mouse_row - body.top) as usize;
    if body.offset < row_count && line < row_count - body.offset {
        Some(body.offset + line)
    } else {
        None
    }
}

// ---- Where new files go ----

/// The folder that something new is put in: a selected folder, the folder of a
/// selected file, or the root.
pub open spec fn target_dir(selected: Option<Row>, root: Seq<char>) -> Seq<char> {
    match selected {
        Some(row) => if row.is_dir {
            row.path@
        } else {
            row.folder@
        },
        None => root,
    }
}

pub fn create_target_dir(selected: Option<&Row>, root: &str) -> (res: String)
    ensures
        res@ == target_dir(
            match selected {
                Some(row) => Some(*row),
                None => None,
            },
            root@,
        ),
{
    match selected {
        Some(row) => if row.is_dir {
            row.path.clone()
        } else {
            row.folder.clone()
        },
        None => root.to_owned(),
    }
}

// ---- Decorations ----

/// What stands at the right of a row with a status letter: the letter of a file,
/// a dot for a folder with changes in it, nothing where it is ignored.
pub open spec fn marker_of(letter: char, is_dir: bool) -> Option<Seq<char>> {
    if letter == 'I' {
        None
    } else if is_dir {
        Some("●"@)
    } else {
        Some(seq![letter])
    }
}

pub fn deco_marker(letter: char, is_dir: bool) -> (res: Option<String>)
    ensures
        crate::json::opt_text(res) == marker_of(letter, is_dir),
{
    if letter == 'I' {
        None
    } else if is_dir {
        Some("●".to_owned())
    } else {
        let mut out: String = String::new();
        out.push(letter);
        assert(out@ =~= seq![letter]);
        Some(out)
    }
}

/// How a row's name looks: dim where it is ignored, else in the colour of its
/// status.
pub open spec fn name_tone(deco: Option<char>) -> Tone {
    match deco {
        Some(letter) => if letter == 'I' {
            Tone::Dim
        } else {
            Tone::Status(letter)
        },
        None => Tone::Plain,
    }
}

pub fn deco_name_style(deco: Option<char>) -> (res: Tone)
    ensures
        res == name_tone(deco),
{
    match deco {
        Some(letter) => if letter == 'I' {
            Tone::Dim
        } else {
            Tone::Status(letter)
        },
        None => Tone::Plain,
    }
}

/// What lies behind a row.
#[derive(Clone, Copy, PartialEq, Eq, Structural, Debug)]
pub enum RowBack {
    Selected,
    Hovered,
    Bare,
}

pub fn row_bg(hovered: bool, selected: bool) -> (res: RowBack)
    ensures
        res == (if selected {
            RowBack::Selected
        } else if hovered {
            RowBack::Hovered
        } else {
            RowBack::Bare
        }),
{
    if selected {
        RowBack::Selected
    } else if hovered {
        RowBack::Hovered
    } else {
        RowBack::Bare
    }
}

pub open spec fn arrow(row: Row) -> Seq<char> {
    if !row.is_dir {
        "  "@
    } else if row.expanded {
        "▾ "@
    } else {
        "▸ "@
    }
}

/// The indentation and the arrow of a row.
pub open spec fn row_lead(row: Row) -> Seq<char> {
    repeated(' ', 2 * row.depth as nat) + arrow(row)
}

/// A row: its indentation and arrow, its icon, its name and at the right what
/// marks its status. The name is cut so that the mark stays in sight; behind the
/// mark two cells are left for the scroll bar.
pub open spec fn row_pieces(row: Row, glyph: Seq<char>, deco: Option<char>, width: u16) -> Seq<
    SpanView,
> {
    let lead = row_lead(row);
    let icon = glyph + " "@;
    let used = columns(lead) + columns(icon);
    let marker = match deco {
        Some(letter) => marker_of(letter, row.is_dir),
        None => None,
    };
    let tail: int = if marker is Some {
        4
    } else {
        0
    };
    let name = truncated(row.name@, left_over(width as int, used + tail) as usize);
    let head = seq![
        piece(lead, Tone::Dim),
        piece(icon, Tone::Icon),
        piece(name, name_tone(deco)),
    ];
    match marker {
        Some(marker) => head.push(
            piece(
                repeated(' ', left_over(width as int, used + columns(name) + 3)),
                Tone::Plain,
            ),
        ).push(piece(marker, Tone::Letter(deco->0))).push(piece("  "@, Tone::Plain)),
        None => head,
    }
}

/// Twice `depth` spaces.
fn indentation(depth: usize) -> (res: String)
    ensures
        res@ == repeated(' ', 2 * depth as nat),
{
    let mut out: String = String::new();
    let mut i: usize = 0;
    assert(out@ =~= repeated(' ', 0));
    while i < depth
        invariant
            i <= depth,
            out@ == repeated(' ', 2 * i as nat),
        decreases depth - i,
    {
        out.push(' ');
        out.push(' ');
        i += 1;
        assert(out@ =~= repeated(' ', 2 * i as nat));
    }
    out
}

/// Put what marks a row's status at its right.
fn put_marker(line: &mut Vec<Span>, pad: usize, mark: String, letter: char)
    ensures
        line_view(final(line)@) == line_view(old(line)@).push(
            piece(repeated(' ', pad as nat), Tone::Plain),
        ).push(piece(mark@, Tone::Letter(letter))).push(piece("  "@, Tone::Plain)),
{
    put(line, repeat(' ', pad), Tone::Plain);
    put(line, mark, Tone::Letter(letter));
    put(line, "  ".to_owned(), Tone::Plain);
}

/// The content of a row. `glyph` is its icon.
pub fn row_line(row: &Row, glyph: &str, deco: Option<char>, width: u16) -> (res: Vec<Span>)
    ensures
        line_view(res@) == row_pieces(*row, glyph@, deco, width),
{
    let mut lead: String = indentation(row.depth);
    lead.append(
        if !row.is_dir {
            "  "
        } else if row.expanded {
            "▾ "
        } else {
            "▸ "
        },
    );
    let mut icon: String = glyph.to_owned();
    icon.append(" ");
    let lead_width: usize = text_width(lead.as_str());
    let icon_width: usize = text_width(icon.as_str());
    let marker: Option<String> = match deco {
        Some(letter) => deco_marker(letter, row.is_dir),
        None => None,
    };
    let ghost used: int = columns(lead@) + columns(icon@);
    let tail: usize = if marker.is_some() {
        4
    } else {
        0
    };
    let room: usize = columns_left(width as usize, lead_width, icon_width, tail, 0);
    let name: String = truncate_to(row.name.as_str(), room);
    let name_width: usize = text_width(name.as_str());
    let mut line: Vec<Span> = empty_line();
    put(&mut line, lead, Tone::Dim);
    put(&mut line, icon, Tone::Icon);
    put(&mut line, name, deco_name_style(deco));
    let ghost head: Seq<SpanView> = seq![
        piece(row_lead(*row), Tone::Dim),
        piece(glyph@ + " "@, Tone::Icon),
        piece(name@, name_tone(deco)),
    ];
    assert(line_view(line@) =~= head);
    match marker {
        Some(mark) => {
            let pad: usize = columns_left(width as usize, lead_width, icon_width, name_width, 3);
            assert(pad as nat == left_over(width as int, used + columns(name@) + 3));
            let letter: char = match deco {
                Some(letter) => letter,
                None => ' ',
            };
            put_marker(&mut line, pad, mark, letter);
        },
        None => {},
    }
    line
}

// ---- The list ----

/// The visible rows, which of them is selected and which are on the screen.
pub struct TreeList {
    pub rows: Vec<Row>,
    /// The user's own selection; none until something was picked.
    pub selected: Option<usize>,
    /// The first row on the screen. The wheel moves this alone.
    pub scroll: usize,
    /// Bring the selection onto the screen at the next draw.
    pub snap: bool,
    pub hovered: Option<usize>,
    pub body: BodyGeom,
}

/// The first row from the `i`th on with a path.
pub open spec fn row_at_path(rows: Seq<Row>, path: Seq<char>, i: int) -> Option<int>
    decreases rows.len() - i,
{
    if 0 <= i < rows.len() {
        if rows[i].path@ == path {
            Some(i)
        } else {
            row_at_path(rows, path, i + 1)
        }
    } else {
        None
    }
}

pub proof fn lemma_row_at_path(rows: Seq<Row>, path: Seq<char>, i: int)
    requires
        0 <= i,
    ensures
        row_at_path(rows, path, i) matches Some(k) ==> i <= k < rows.len() && rows[k].path@ == path,
        row_at_path(rows, path, i) is None ==> forall|k: int|
            i <= k < rows.len() ==> (#[trigger] rows[k]).path@ != path,
    decreases rows.len() - i,
{
    if i < rows.len() && rows[i].path@ != path {
        lemma_row_at_path(rows, path, i + 1);
    }
}

pub fn find_path(rows: &Vec<Row>, path: &str) -> (res: Option<usize>)
    ensures
        match res {
            Some(i) => i < rows@.len() && row_at_path(rows@, path@, 0) == Some(i as int),
            None => row_at_path(rows@, path@, 0) is None,
        },
{
    let mut i: usize = 0;
    while i < rows.len()
        invariant
            i <= rows@.len(),
            row_at_path(rows@, path@, i as int) == row_at_path(rows@, path@, 0),
        decreases rows@.len() - i,
    {
        if str_eq(rows[i].path.as_str(), path) {
            return Some(i);
        }
        i += 1;
    }
    None
}

/// The smaller of an index and the last one of a list.
pub open spec fn at_most_last(index: int, count: nat) -> int {
    if index < count {
        index
    } else {
        count - 1
    }
}

/// The row of a list after a move by `delta`.
pub open spec fn moved_to(current: int, delta: int, count: nat) -> int {
    if current + delta < 0 {
        0
    } else if current + delta >= count {
        count - 1
    } else {
        current + delta
    }
}

/// The last row above `index` that stands one level higher than `depth`.
pub open spec fn parent_above(rows: Seq<Row>, index: int, depth: nat) -> Option<int>
    decreases index,
{
    if index <= 0 || index > rows.len() {
        None
    } else if rows[index - 1].depth + 1 == depth {
        Some(index - 1)
    } else {
        parent_above(rows, index - 1, depth)
    }
}

impl TreeList {
    /// The path of the selected row.
    pub open spec fn selected_path(&self) -> Option<Seq<char>> {
        match self.selected {
            Some(i) => if i < self.rows@.len() {
                Some(self.rows@[i as int].path@)
            } else {
                None
            },
            None => None,
        }
    }

    pub open spec fn selected_row_spec(&self) -> Option<Row> {
        match self.selected {
            Some(i) => if i < self.rows@.len() {
                Some(self.rows@[i as int])
            } else {
                None
            },
            None => None,
        }
    }

    pub fn selected_row(&self) -> (res: Option<&Row>)
        ensures
            (match res {
                Some(row) => Some(*row),
                None => None,
            }) == self.selected_row_spec(),
    {
        match self.selected {
            Some(i) => if i < self.rows.len() {
                Some(&self.rows[i])
            } else {
                None
            },
            None => None,
        }
    }

    /// The row under a mouse row.
    pub fn row_at(&self, mouse_row: u16) -> (res: Option<usize>)
        ensures
            res == row_under(self.body, self.rows@.len(), mouse_row),
            res matches Some(i) ==> i < self.rows@.len(),
    {
        row_index_at(self.body, self.rows.len(), mouse_row)
    }

    /// The list with a row selected, or the last one where there are fewer.
    pub open spec fn selecting(&self, index: int) -> TreeList {
        if self.rows@.len() == 0 {
            *self
        } else {
            TreeList {
                selected: Some(at_most_last(index, self.rows@.len()) as usize),
                snap: true,
                ..*self
            }
        }
    }

    /// Select a row. The result tells whether there is one.
    pub fn select(&mut self, index: usize) -> (res: bool)
        ensures
            *final(self) == old(self).selecting(index as int),
            res == (old(self).rows@.len() > 0),
    {
        let count: usize = self.rows.len();
        if count == 0 {
            return false;
        }
        self.selected = Some(
            if index < count {
                index
            } else {
                count - 1
            },
        );
        self.snap = true;
        true
    }

    /// Give up the selection. The result tells whether there was one.
    pub fn clear_selection(&mut self) -> (res: bool)
        ensures
            res == (old(self).selected is Some),
            *final(self) == (if old(self).selected is Some {
                TreeList { selected: None, hovered: None, ..*old(self) }
            } else {
                *old(self)
            }),
    {
        if self.selected.is_some() {
            self.selected = None;
            self.hovered = None;
            true
        } else {
            false
        }
    }

    /// The list after the selection has moved; the first step selects the first
    /// row.
    pub open spec fn moving(&self, delta: int) -> TreeList {
        match self.selected {
            Some(current) => self.selecting(moved_to(current as int, delta, self.rows@.len())),
            None => self.selecting(0),
        }
    }

    /// Move the selection. The result tells whether there is a row.
    pub fn move_by(&mut self, delta: isize) -> (res: bool)
        ensures
            *final(self) == old(self).moving(delta as int),
            res == (old(self).rows@.len() > 0),
    {
        let count: usize = self.rows.len();
        if count == 0 {
            return false;
        }
        let current: usize = match self.selected {
            Some(current) => current,
            None => {
                return self.select(0);
            },
        };
        let target: i128 = current as i128 + delta as i128;
        let next: usize = if target < 0 {
            0
        } else if target >= count as i128 {
            count - 1
        } else {
            target as usize
        };
        self.select(next)
    }

    /// The list after the wheel has turned.
    pub open spec fn scrolled(&self, delta: int) -> TreeList {
        let last = if self.rows@.len() == 0 {
            0
        } else {
            self.rows@.len() - 1
        };
        let to = self.scroll + delta;
        TreeList {
            scroll: (if to < 0 {
                0
            } else if to > last {
                last
            } else {
                to
            }) as usize,
            ..*self
        }
    }

    /// The wheel moves what is on the screen; the selection stays.
    pub fn scroll_view(&mut self, delta: isize)
        ensures
            *final(self) == old(self).scrolled(delta as int),
    {
        let count: usize = self.rows.len();
        let last: usize = if count == 0 {
            0
        } else {
            count - 1
        };
        let to: i128 = self.scroll as i128 + delta as i128;
        self.scroll = if to < 0 {
            0
        } else if to > last as i128 {
            last
        } else {
            to as usize
        };
    }

    /// The row below the selected one, where it is its first child.
    pub open spec fn first_child_spec(&self) -> Option<int> {
        match self.selected_row_spec() {
            Some(row) => {
                let next = self.selected->0 + 1;
                if next < self.rows@.len() && self.rows@[next].depth == row.depth + 1 {
                    Some(next)
                } else {
                    None
                }
            },
            None => None,
        }
    }

    pub fn first_child(&self) -> (res: Option<usize>)
        ensures
            match res {
                Some(i) => self.first_child_spec() == Some(i as int),
                None => self.first_child_spec() is None,
            },
    {
        match self.selected {
            Some(i) => {
                let count: usize = self.rows.len();
                if i < count && i + 1 < count {
                    let depth: usize = self.rows[i].depth;
                    let next: usize = self.rows[i + 1].depth;
                    if next > 0 && next - 1 == depth {
                        return Some(i + 1);
                    }
                }
                None
            },
            None => None,
        }
    }

    /// The row of the folder that the selected row lies in.
    pub open spec fn parent_spec(&self) -> Option<int> {
        match self.selected_row_spec() {
            Some(row) => if row.depth == 0 {
                None
            } else {
                parent_above(self.rows@, self.selected->0 as int, row.depth as nat)
            },
            None => None,
        }
    }

    pub fn parent_row(&self) -> (res: Option<usize>)
        ensures
            match res {
                Some(i) => self.parent_spec() == Some(i as int),
                None => self.parent_spec() is None,
            },
    {
        let index: usize = match self.selected {
            Some(i) => i,
            None => {
                return None;
            },
        };
        if index >= self.rows.len() {
            return None;
        }
        let depth: usize = self.rows[index].depth;
        if depth == 0 {
            return None;
        }
        let mut i: usize = index;
        while i > 0
            invariant
                i <= index < self.rows@.len(),
                depth > 0,
                parent_above(self.rows@, i as int, depth as nat) == parent_above(
                    self.rows@,
                    index as int,
                    depth as nat,
                ),
                self.parent_spec() == parent_above(self.rows@, index as int, depth as nat),
            decreases i,
        {
            if self.rows[i - 1].depth == depth - 1 {
                return Some(i - 1);
            }
            i -= 1;
        }
        None
    }

    /// The list with other rows. The selection stays on its path, else on its
    /// place as far as there are rows.
    pub open spec fn rebuilt(&self, rows: Vec<Row>) -> TreeList {
        let count = rows@.len();
        if count == 0 {
            TreeList { rows, selected: None, scroll: 0, hovered: None, ..*self }
        } else {
            let selected = match (self.selected_path(), self.selected) {
                (Some(path), _) => match row_at_path(rows@, path, 0) {
                    Some(i) => Some(i as usize),
                    None => Some(at_most_last(self.selected->0 as int, count) as usize),
                },
                (None, Some(i)) => Some(at_most_last(i as int, count) as usize),
                (None, None) => None,
            };
            TreeList {
                rows,
                selected,
                scroll: at_most_last(self.scroll as int, count) as usize,
                hovered: None,
                ..*self
            }
        }
    }

    /// Take other rows.
    pub fn rebuild(&mut self, rows: Vec<Row>)
        ensures
            *final(self) == old(self).rebuilt(rows),
    {
        let ghost before: TreeList = *self;
        let count: usize = rows.len();
        self.hovered = None;
        if count == 0 {
            self.rows = rows;
            self.selected = None;
            self.scroll = 0;
            return;
        }
        let place: Option<usize> = match self.selected {
            Some(i) => Some(
                if i < count {
                    i
                } else {
                    count - 1
                },
            ),
            None => None,
        };
        let found: Option<usize> = match self.selected {
            Some(i) => if i < self.rows.len() {
                find_path(&rows, self.rows[i].path.as_str())
            } else {
                None
            },
            None => None,
        };
        self.selected = match found {
            Some(i) => Some(i),
            None => place,
        };
        self.scroll = if self.scroll < count {
            self.scroll
        } else {
            count - 1
        };
        self.rows = rows;
    }

    /// The row that a shared selection asks for: the one it names, else the one
    /// that was selected, where they are there. None where it asks for none.
    pub open spec fn shared_row(&self, rows: Seq<Row>, wanted: Option<Seq<char>>) -> Option<int> {
        match wanted {
            Some(path) => match row_at_path(rows, path, 0) {
                Some(i) => Some(i),
                None => match self.selected_path() {
                    Some(own) => row_at_path(rows, own, 0),
                    None => None,
                },
            },
            None => None,
        }
    }

    /// What a shared tree makes of the list, and whether that changes anything.
    /// `rows` are the rows of the shared expansion where that is another one.
    pub open spec fn shared_rel(
        &self,
        rows: Option<Vec<Row>>,
        wanted: Option<Seq<char>>,
        post: &TreeList,
        changed: bool,
    ) -> bool {
        let now = match rows {
            Some(rows) => rows,
            None => self.rows,
        };
        let row = self.shared_row(now@, wanted);
        let path = match row {
            Some(i) => Some(now@[i].path@),
            None => None,
        };
        let moves = self.selected_path() != path;
        &&& changed == (rows is Some || moves)
        &&& *post == if !changed {
            *self
        } else {
            let selected = match row {
                Some(i) => Some(i as usize),
                None => None,
            };
            TreeList {
                rows: now,
                selected,
                scroll: (if now@.len() == 0 {
                    0
                } else {
                    at_most_last(self.scroll as int, now@.len())
                }) as usize,
                hovered: None,
                snap: selected is Some,
                ..*self
            }
        }
    }

    /// Adopt the tree that another sidebar shows. The result tells whether that
    /// changes anything.
    pub fn apply_shared_tree_state(&mut self, rows: Option<Vec<Row>>, wanted: Option<&str>) -> (res:
        bool)
        ensures
            old(self).shared_rel(
                rows,
                match wanted {
                    Some(path) => Some(path@),
                    None => None,
                },
                final(self),
                res,
            ),
    {
        let ghost before: TreeList = *self;
        let own: Option<String> = match self.selected_row() {
            Some(row) => Some(row.path.clone()),
            None => None,
        };
        let other_rows: bool = rows.is_some();
        match rows {
            Some(rows) => {
                self.rows = rows;
            },
            None => {},
        }
        let row: Option<usize> = match wanted {
            Some(path) => match find_path(&self.rows, path) {
                Some(i) => Some(i),
                None => match &own {
                    Some(own) => find_path(&self.rows, own.as_str()),
                    None => None,
                },
            },
            None => None,
        };
        let moves: bool = match (&own, row) {
            (Some(own), Some(i)) => !str_eq(own.as_str(), self.rows[i].path.as_str()),
            (None, None) => false,
            _ => true,
        };
        if !other_rows && !moves {
            return false;
        }
        self.selected = row;
        let count: usize = self.rows.len();
        self.scroll = if count == 0 {
            0
        } else if self.scroll < count {
            self.scroll
        } else {
            count - 1
        };
        self.hovered = None;
        self.snap = self.selected.is_some();
        true
    }

    /// Where the list scrolls to for a draw of `height` rows.
    pub open spec fn drawn_scroll(&self, height: int) -> int {
        let count = self.rows@.len() as int;
        let most = if count > height {
            count - height
        } else {
            0
        };
        let scroll = if self.scroll > most {
            most
        } else {
            self.scroll as int
        };
        match self.selected {
            Some(sel) => if self.snap && sel < scroll {
                sel as int
            } else if self.snap && sel >= scroll + height {
                sel + 1 - height
            } else {
                scroll
            },
            None => scroll,
        }
    }

    /// Get the list ready for a draw of `height` rows.
    pub fn prepare(&mut self, height: u16)
        ensures
            *final(self) == (if old(self).rows@.len() == 0 {
                *old(self)
            } else {
                TreeList {
                    scroll: old(self).drawn_scroll(
                        if height == 0 {
                            1
                        } else {
                            height as int
                        },
                    ) as usize,
                    snap: false,
                    ..*old(self)
                }
            }),
    {
        let count: usize = self.rows.len();
        if count == 0 {
            return;
        }
        let h: usize = if height == 0 {
            1
        } else {
            height as usize
        };
        let most: usize = count.saturating_sub(h);
        let mut scroll: usize = if self.scroll > most {
            most
        } else {
            self.scroll
        };
        if self.snap {
            match self.selected {
                Some(sel) => {
                    if sel < scroll {
                        scroll = sel;
                    } else if sel - scroll >= h {
                        scroll = sel - h + 1;
                    }
                },
                None => {},
            }
            self.snap = false;
        }
        self.scroll = scroll;
    }

    /// Where a popup for the selection opens: on its row where that is on the
    /// screen, else at the top.
    pub open spec fn anchor(&self, width: u16) -> (int, int) {
        match self.selected {
            None => (0, self.body.top as int),
            Some(index) => {
                let y = if self.body.offset <= index < self.body.offset + self.body.height {
                    self.body.top + (index - self.body.offset)
                } else {
                    self.body.top as int
                };
                let depth = if index < self.rows@.len() {
                    self.rows@[index as int].depth as int
                } else {
                    0
                };
                let last = if width == 0 {
                    0
                } else {
                    width - 1
                };
                (
                    if 2 * depth < last {
                        2 * depth
                    } else {
                        last
                    },
                    if y > u16::MAX {
                        u16::MAX as int
                    } else {
                        y
                    },
                )
            },
        }
    }

    pub fn selection_anchor(&self, width: u16) -> (res: (u16, u16))
        ensures
            (res.0 as int, res.1 as int) == self.anchor(width),
    {
        let index: usize = match self.selected {
            Some(index) => index,
            None => {
                return (0, self.body.top);
            },
        };
        let y: u16 = if index >= self.body.offset && index - self.body.offset
            < self.body.height as usize {
            self.body.top.saturating_add((index - self.body.offset) as u16)
        } else {
            self.body.top
        };
        let depth: usize = if index < self.rows.len() {
            self.rows[index].depth
        } else {
            0
        };
        let last: u16 = width.saturating_sub(1);
        let x: u16 = if depth < last as usize && depth * 2 < last as usize {
            (depth * 2) as u16
        } else {
            last
        };
        (x, y)
    }
}

// ---- What the list promises ----

/// A rebuild keeps the selection on the same file or folder as long as it is
/// there, and never leaves it off the list.
pub proof fn law_rebuilds_keep_the_selection(list: TreeList, rows: Vec<Row>)
    ensures
        ({
            let after = list.rebuilt(rows);
            &&& after.selected matches Some(i) ==> i < rows@.len()
            &&& after.selected is Some <==> list.selected is Some && rows@.len() > 0
            &&& (list.selected_path() matches Some(path) && row_at_path(rows@, path, 0) is Some
                ==> after.selected_path() == list.selected_path())
            &&& rows@.len() > 0 ==> after.scroll < rows@.len()
        }),
{
    let count: usize = rows.len();
    match list.selected_path() {
        Some(path) => {
            lemma_row_at_path(rows@, path, 0);
        },
        None => {},
    }
}

/// What is drawn starts at a row and shows the selection where that was asked
/// for.
pub proof fn law_draws_show_the_selection(list: TreeList, height: int)
    requires
        height > 0,
        list.rows@.len() > 0,
    ensures
        0 <= list.drawn_scroll(height),
        list.selected matches Some(sel) ==> list.snap ==> list.drawn_scroll(height) <= sel
            < list.drawn_scroll(height) + height,
        !list.snap ==> list.drawn_scroll(height) + height <= list.rows@.len() || list.drawn_scroll(
            height,
        ) == 0,
{
}

/// The keys move the selection along the list, one end to the other.
pub proof fn law_moves_stay_on_the_list(list: TreeList, delta: int)
    requires
        list.rows@.len() > 0,
    ensures
        list.moving(delta).selected matches Some(i) && i < list.rows@.len(),
        list.moving(delta).rows == list.rows,
        list.moving(delta).scroll == list.scroll,
{
    let count: usize = list.rows.len();
}

/// The wheel leaves the selection where it is.
pub proof fn law_wheel_keeps_the_selection(list: TreeList, delta: int)
    ensures
        list.scrolled(delta).selected == list.selected,
        list.scrolled(delta).rows == list.rows,
{
}

/// Adopting the selection that is there changes nothing: two sidebars that show
/// the same do not answer each other.
pub proof fn law_sharing_settles(list: TreeList, post: TreeList, changed: bool)
    requires
        list.shared_rel(None, list.selected_path(), &post, changed),
    ensures
        !changed,
        post == list,
{
    match list.selected_path() {
        Some(path) => {
            lemma_row_at_path(list.rows@, path, 0);
            assert(list.rows@[list.selected->0 as int].path@ == path);
        },
        None => {},
    }
}

/// A sidebar that adopts a shared tree shows its rows and selects its selection:
/// the row that it names where that is there, and none where it has none.
pub proof fn law_shared_trees_are_adopted(
    list: TreeList,
    rows: Option<Vec<Row>>,
    wanted: Option<Seq<char>>,
    post: TreeList,
    changed: bool,
)
    requires
        list.shared_rel(rows, wanted, &post, changed),
    ensures
        post.rows == (match rows {
            Some(rows) => rows,
            None => list.rows,
        }),
        wanted is None ==> post.selected_path() is None,
        wanted matches Some(path) ==> (row_at_path(post.rows@, path, 0) is Some
            ==> post.selected_path() == Some(path)),
{
    let count: usize = post.rows.len();
    if let Some(path) = wanted {
        lemma_row_at_path(post.rows@, path, 0);
    }
}

// ---- Shared expansion ----

/// Whether `path` is one of the shared folders below the root.
pub open spec fn is_shared(
    root: Seq<char>,
    backslash: bool,
    shared: Seq<Seq<char>>,
    path: Seq<char>,
) -> bool {
    shared.contains(path) && lies_under(root, path, backslash)
}

fn sorted_under(root: &str, backslash: bool, list: &Vec<String>) -> (res: Vec<String>)
    ensures
        texts_in_order(string_views(res@)),
        forall|p: Seq<char>|
            #[trigger] string_views(res@).contains(p) <==> is_shared(
                root@,
                backslash,
                string_views(list@),
                p,
            ),
{
    let ghost all: Seq<Seq<char>> = string_views(list@);
    let mut out: Vec<String> = Vec::new();
    let mut i: usize = 0;
    while i < list.len()
        invariant
            i <= list@.len(),
            all == string_views(list@),
            texts_in_order(string_views(out@)),
            forall|p: Seq<char>|
                #[trigger] string_views(out@).contains(p) <==> is_shared(
                    root@,
                    backslash,
                    all.take(i as int),
                    p,
                ),
        decreases list@.len() - i,
    {
        let ghost before: Seq<Seq<char>> = string_views(out@);
        let ghost done: Seq<Seq<char>> = all.take(i as int);
        assert(all[i as int] == list@[i as int]@);
        if is_under(root, list[i].as_str(), backslash) {
            insert_text(&mut out, list[i].clone());
        }
        assert forall|p: Seq<char>| #[trigger]
            string_views(out@).contains(p) <==> is_shared(root@, backslash, all.take(i + 1), p) by {
            assert(before.contains(p) <==> is_shared(root@, backslash, done, p));
            let more = all.take(i + 1);
            if done.contains(p) {
                let k = choose|k: int| 0 <= k < done.len() && done[k] == p;
                assert(more[k] == p);
            }
            if more.contains(p) {
                let k = choose|k: int| 0 <= k < more.len() && more[k] == p;
                if k < i {
                    assert(done[k] == p);
                }
            }
            assert(more[i as int] == all[i as int]);
        }
        i += 1;
    }
    assert(all.take(i as int) =~= all);
    out
}

/// The folders to expand so that the tree is expanded like a shared one; `None`
/// where it is already. Folders outside the root do not count.
pub fn shared_expansion(
    root: &str,
    backslash: bool,
    expanded: &Vec<String>,
    shared: &Vec<String>,
) -> (res: Option<Vec<String>>)
    ensures
        match res {
            Some(list) => {
                &&& texts_in_order(string_views(list@))
                &&& forall|p: Seq<char>|
                    #[trigger] string_views(list@).contains(p) <==> is_shared(
                        root@,
                        backslash,
                        string_views(shared@),
                        p,
                    )
                &&& !(forall|p: Seq<char>|
                    #[trigger] string_views(expanded@).contains(p) <==> is_shared(
                        root@,
                        backslash,
                        string_views(shared@),
                        p,
                    ))
            },
            None => forall|p: Seq<char>|
                #[trigger] string_views(expanded@).contains(p) <==> is_shared(
                    root@,
                    backslash,
                    string_views(shared@),
                    p,
                ),
        },
{
    let wanted: Vec<String> = sorted_under(root, backslash, shared);
    let ghost now: Seq<Seq<char>> = string_views(expanded@);
    let ghost want: Seq<Seq<char>> = string_views(wanted@);
    let same: bool = all_in(expanded, &wanted) && all_in(&wanted, expanded);
    if same {
        assert forall|p: Seq<char>| #[trigger] now.contains(p) <==> is_shared(
            root@,
            backslash,
            string_views(shared@),
            p,
        ) by {
            assert(want.contains(p) <==> is_shared(root@, backslash, string_views(shared@), p));
            if now.contains(p) {
                let k = choose|k: int| 0 <= k < now.len() && now[k] == p;
                assert(want.contains(now[k]));
            }
            if want.contains(p) {
                let k = choose|k: int| 0 <= k < want.len() && want[k] == p;
                assert(now.contains(want[k]));
            }
        }
        return None;
    }
    assert(!(forall|p: Seq<char>|
        #[trigger] now.contains(p) <==> is_shared(root@, backslash, string_views(shared@), p))) by {
        if forall|p: Seq<char>| #[trigger] now.contains(p) <==> is_shared(
            root@,
            backslash,
            string_views(shared@),
            p,
        ) {
            assert forall|k: int| 0 <= k < now.len() implies want.contains(#[trigger] now[k]) by {
                assert(now.contains(now[k]));
            }
            assert forall|k: int| 0 <= k < want.len() implies now.contains(#[trigger] want[k]) by {
                assert(want.contains(want[k]));
            }
        }
    }
    Some(wanted)
}

/// Whether every text of `a` is one of `b`.
fn all_in(a: &Vec<String>, b: &Vec<String>) -> (res: bool)
    ensures
        res == (forall|k: int|
            0 <= k < a@.len() ==> string_views(b@).contains(#[trigger] string_views(a@)[k])),
{
    let ghost x: Seq<Seq<char>> = string_views(a@);
    let ghost y: Seq<Seq<char>> = string_views(b@);
    let mut i: usize = 0;
    while i < a.len()
        invariant
            i <= a@.len(),
            x == string_views(a@),
            y == string_views(b@),
            forall|k: int| 0 <= k < i ==> y.contains(#[trigger] x[k]),
        decreases a@.len() - i,
    {
        assert(x[i as int] == a@[i as int]@);
        let mut found: bool = false;
        let mut j: usize = 0;
        while j < b.len() && !found
            invariant
                j <= b@.len(),
                i < a@.len(),
                x == string_views(a@),
                y == string_views(b@),
                found ==> y.contains(x[i as int]),
                !found ==> forall|k: int| 0 <= k < j ==> #[trigger] y[k] != x[i as int],
            decreases b@.len() - j,
        {
            assert(x[i as int] == a@[i as int]@);
            assert(y[j as int] == b@[j as int]@);
            if str_eq(a[i].as_str(), b[j].as_str()) {
                found = true;
            }
            j += 1;
        }
        if !found {
            assert(!y.contains(x[i as int]));
            return false;
        }
        i += 1;
    }
    true
}

} // verus!
