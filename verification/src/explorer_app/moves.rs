//! Moving through the tree, and showing what is in it.

use crate::explorer_app::app::{
    asked, just, nothing, one, pair, says, three, triple, two, App, Effect, EffectView, Folder,
};
use crate::explorer_app::tree::{find_path, row_at_path, Row, TreeList};
use vstd::prelude::*;

verus! {

impl App {
    // ---- The selection ----

    /// The selection with the tree published, where there is a row to select.
    pub open spec fn published(&self) -> Seq<EffectView> {
        if self.list.rows@.len() > 0 {
            just(EffectView::Persist)
        } else {
            Seq::empty()
        }
    }

    pub open spec fn select_rel(&self, index: int, post: &App, out: Seq<EffectView>) -> bool {
        &&& *post == (App { list: self.list.selecting(index), ..*self })
        &&& out == self.published()
    }

    pub fn select(&mut self, index: usize) -> (res: Vec<Effect>)
        requires
            old(self).wf(),
        ensures
            final(self).wf(),
            old(self).select_rel(index as int, final(self), asked(res@)),
    {
        if self.list.select(index) {
            one(Effect::Persist)
        } else {
            nothing()
        }
    }

    pub open spec fn move_rel(&self, delta: int, post: &App, out: Seq<EffectView>) -> bool {
        &&& *post == (App { list: self.list.moving(delta), ..*self })
        &&& out == self.published()
    }

    pub fn move_by(&mut self, delta: isize) -> (res: Vec<Effect>)
        requires
            old(self).wf(),
        ensures
            final(self).wf(),
            old(self).move_rel(delta as int, final(self), asked(res@)),
    {
        if self.list.move_by(delta) {
            one(Effect::Persist)
        } else {
            nothing()
        }
    }

    /// A selection that was given up; nothing where there was none.
    pub open spec fn clear_rel(&self, post: &App, out: Seq<EffectView>) -> bool {
        if self.list.selected is Some {
            &&& *post == (App {
                list: TreeList { selected: None, hovered: None, ..self.list },
                last_click: None,
                ..*self
            })
            &&& out == just(EffectView::Persist)
        } else {
            *post == *self && out.len() == 0
        }
    }

    pub fn clear_selection(&mut self) -> (res: Vec<Effect>)
        requires
            old(self).wf(),
        ensures
            final(self).wf(),
            old(self).clear_rel(final(self), asked(res@)),
    {
        if self.list.clear_selection() {
            self.last_click = None;
            one(Effect::Persist)
        } else {
            nothing()
        }
    }

    /// Select the row with a path, where there is one.
    pub fn select_path(&mut self, path: &str) -> (res: Vec<Effect>)
        requires
            old(self).wf(),
        ensures
            final(self).wf(),
            match row_at_path(old(self).list.rows@, path@, 0) {
                Some(i) => old(self).select_rel(i, final(self), asked(res@)),
                None => *final(self) == *old(self) && asked(res@).len() == 0,
            },
    {
        match find_path(&self.list.rows, path) {
            Some(i) => self.select(i),
            None => nothing(),
        }
    }

    // ---- Other rows ----

    /// Take the rows that were listed anew.
    pub fn rebuilt(&mut self, rows: Vec<Row>) -> (res: Vec<Effect>)
        requires
            old(self).wf(),
        ensures
            final(self).wf(),
            *final(self) == (App { list: old(self).list.rebuilt(rows), ..*old(self) }),
            asked(res@) == just(EffectView::Persist),
    {
        self.list.rebuild(rows);
        one(Effect::Persist)
    }

    /// Everything is read anew; what quick open lists is out of date.
    pub open spec fn refresh_rel(&self, post: &App, out: Seq<EffectView>) -> bool {
        &&& *post == (App { index: None, indexing: false, ..*self })
        &&& out == triple(EffectView::Reread, EffectView::Rediscover, EffectView::ListRows)
    }

    pub fn refresh_tree(&mut self) -> (res: Vec<Effect>)
        requires
            old(self).wf(),
        ensures
            final(self).wf(),
            old(self).refresh_rel(final(self), asked(res@)),
    {
        self.index = None;
        self.indexing = false;
        three(Effect::Reread, Effect::Rediscover, Effect::ListRows)
    }

    /// Hidden files shown or not; what quick open lists is out of date.
    pub open spec fn hidden_rel(&self, post: &App, out: Seq<EffectView>) -> bool {
        &&& *post == (App {
            folder: Folder { show_hidden: !self.folder.show_hidden, ..self.folder },
            index: None,
            indexing: false,
            ..*self
        })
        &&& out == just(EffectView::ListRows)
    }

    pub fn toggle_hidden(&mut self) -> (res: Vec<Effect>)
        requires
            old(self).wf(),
        ensures
            final(self).wf(),
            old(self).hidden_rel(final(self), asked(res@)),
    {
        self.folder.show_hidden = !self.folder.show_hidden;
        self.index = None;
        self.indexing = false;
        one(Effect::ListRows)
    }

    pub open spec fn collapse_all_rel(&self, post: &App, out: Seq<EffectView>) -> bool {
        &&& *post == (App { list: TreeList { scroll: 0, ..self.list }, ..*self })
        &&& out == pair(EffectView::CollapseAll, EffectView::ListRows)
    }

    pub fn collapse_all(&mut self) -> (res: Vec<Effect>)
        requires
            old(self).wf(),
        ensures
            final(self).wf(),
            old(self).collapse_all_rel(final(self), asked(res@)),
    {
        self.list.scroll = 0;
        two(Effect::CollapseAll, Effect::ListRows)
    }

    // ---- Previews ----

    /// A file is shown beside the sidebar; without a pane there is no place for
    /// it.
    pub open spec fn preview_rel(
        &self,
        path: Seq<char>,
        line: Option<usize>,
        post: &App,
        out: Seq<EffectView>,
    ) -> bool {
        if self.mode.in_pane {
            *post == *self && out == just(EffectView::Preview { path, line })
        } else {
            &&& *post == (App { notice: post.notice, ..*self })
            &&& says(post.notice, "preview needs a herdr pane"@)
            &&& out.len() == 0
        }
    }

    pub fn open_preview_at(&mut self, path: String, line: Option<usize>) -> (res: Vec<Effect>)
        requires
            old(self).wf(),
        ensures
            final(self).wf(),
            old(self).preview_rel(path@, line, final(self), asked(res@)),
    {
        if self.mode.in_pane {
            one(Effect::Preview { path, line })
        } else {
            self.notice = Some("preview needs a herdr pane".to_owned());
            nothing()
        }
    }

    /// The preview is there, or could not be shown.
    pub fn previewed(&mut self, path: String, outcome: Result<(), String>)
        requires
            old(self).wf(),
        ensures
            final(self).wf(),
            *final(self) == match outcome {
                Ok(()) => App { last_preview: Some(path), ..*old(self) },
                Err(error) => App { notice: Some(error), ..*old(self) },
            },
    {
        match outcome {
            Ok(()) => {
                self.last_preview = Some(path);
            },
            Err(error) => {
                self.notice = Some(error);
            },
        }
    }

    /// The preview was kept, or could not be.
    pub fn pinned(&mut self, done: bool)
        requires
            old(self).wf(),
        ensures
            final(self).wf(),
            *final(self) == (App { notice: final(self).notice, ..*old(self) }),
            if done {
                final(self).notice == old(self).notice
            } else {
                says(
                    final(self).notice,
                    "preview switch blocked; resolve unsaved changes in its tab"@,
                )
            },
    {
        if !done {
            self.notice = Some(
                "preview switch blocked; resolve unsaved changes in its tab".to_owned(),
            );
        }
    }

    // ---- Folders ----

    /// A folder is expanded or collapsed, a file is shown.
    pub open spec fn toggle_rel(&self, post: &App, out: Seq<EffectView>) -> bool {
        match self.list.selected_row_spec() {
            Some(row) => if row.is_dir {
                *post == *self && out == pair(EffectView::Toggle(row.path@), EffectView::ListRows)
            } else {
                self.preview_rel(row.path@, None, post, out)
            },
            None => *post == *self && out.len() == 0,
        }
    }

    pub fn toggle(&mut self) -> (res: Vec<Effect>)
        requires
            old(self).wf(),
        ensures
            final(self).wf(),
            old(self).toggle_rel(final(self), asked(res@)),
    {
        let (path, is_dir): (String, bool) = match self.list.selected_row() {
            Some(row) => (row.path.clone(), row.is_dir),
            None => {
                return nothing();
            },
        };
        if is_dir {
            two(Effect::Toggle(path), Effect::ListRows)
        } else {
            self.open_preview_at(path, None)
        }
    }

    /// A collapsed folder is expanded; in an expanded one its first row is
    /// selected.
    pub open spec fn enter_rel(&self, post: &App, out: Seq<EffectView>) -> bool {
        match self.list.selected_row_spec() {
            Some(row) => if !row.is_dir {
                *post == *self && out.len() == 0
            } else if row.expanded {
                match self.list.first_child_spec() {
                    Some(i) => self.select_rel(i, post, out),
                    None => *post == *self && out.len() == 0,
                }
            } else {
                *post == *self && out == pair(EffectView::Expand(row.path@), EffectView::ListRows)
            },
            None => *post == *self && out.len() == 0,
        }
    }

    pub fn expand_or_enter(&mut self) -> (res: Vec<Effect>)
        requires
            old(self).wf(),
        ensures
            final(self).wf(),
            old(self).enter_rel(final(self), asked(res@)),
    {
        let (path, is_dir, expanded): (String, bool, bool) = match self.list.selected_row() {
            Some(row) => (row.path.clone(), row.is_dir, row.expanded),
            None => {
                return nothing();
            },
        };
        if !is_dir {
            return nothing();
        }
        if !expanded {
            return two(Effect::Expand(path), Effect::ListRows);
        }
        match self.list.first_child() {
            Some(i) => self.select(i),
            None => nothing(),
        }
    }

    /// An expanded folder is collapsed; from another row the folder that it
    /// lies in is selected.
    pub open spec fn leave_rel(&self, post: &App, out: Seq<EffectView>) -> bool {
        match self.list.selected_row_spec() {
            Some(row) => if row.is_dir && row.expanded {
                *post == *self && out == pair(
                    EffectView::Collapse(row.path@),
                    EffectView::ListRows)
            } else {
                match self.list.parent_spec() {
                    Some(i) => self.select_rel(i, post, out),
                    None => *post == *self && out.len() == 0,
                }
            },
            None => *post == *self && out.len() == 0,
        }
    }

    pub fn collapse_or_parent(&mut self) -> (res: Vec<Effect>)
        requires
            old(self).wf(),
        ensures
            final(self).wf(),
            old(self).leave_rel(final(self), asked(res@)),
    {
        let (path, expanded): (String, bool) = match self.list.selected_row() {
            Some(row) => (row.path.clone(), row.is_dir && row.expanded),
            None => {
                return nothing();
            },
        };
        if expanded {
            return two(Effect::Collapse(path), Effect::ListRows);
        }
        match self.list.parent_row() {
            Some(i) => self.select(i),
            None => nothing(),
        }
    }
}

/// From the first row of a folder, leaving it comes back to the folder.
pub proof fn law_leaving_undoes_entering(list: TreeList)
    requires
        list.first_child_spec() is Some,
        !(list.rows@[list.first_child_spec()->0].is_dir
            && list.rows@[list.first_child_spec()->0].expanded),
    ensures
        ({
            let inside = list.selecting(list.first_child_spec()->0);
            let folder = list.selected->0;
            &&& inside.parent_spec() == Some(folder as int)
            &&& inside.selecting(folder as int).selected == list.selected
        }),
{
    let count: usize = list.rows.len();
    let inside = list.selecting(list.first_child_spec()->0);
    let folder = list.selected->0;
    assert(inside.selected == Some((folder + 1) as usize));
}

} // verus!
