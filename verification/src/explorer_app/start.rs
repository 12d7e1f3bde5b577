//! The Explorer as it starts.

use crate::explorer_app::app::{says, App, ClickZones, Folder, Mode, RepoState, Screen};
use crate::explorer_app::panel::SearchZones;
use crate::explorer_app::tree::{find_path, row_at_path, Row, TreeList};
use crate::geometry::Area;
use crate::scm_app::rows::BodyGeom;
use crate::text::text_pair;
use vstd::prelude::*;

verus! {

impl ClickZones {
    /// Nothing was drawn; no row of the screen is the bar's.
    pub open spec fn nowhere_spec() -> ClickZones {
        ClickZones {
            activity_row: u16::MAX,
            explorer: (0, 0),
            search: (0, 0),
            source_control: (0, 0),
            gear: Area::empty_spec(),
            footer_branch: Area::empty_spec(),
            footer_sync: Area::empty_spec(),
        }
    }

    pub fn nowhere() -> (res: ClickZones)
        ensures
            res == ClickZones::nowhere_spec(),
    {
        ClickZones {
            activity_row: u16::MAX,
            explorer: (0, 0),
            search: (0, 0),
            source_control: (0, 0),
            gear: Area::empty(),
            footer_branch: Area::empty(),
            footer_sync: Area::empty(),
        }
    }
}

impl App {
    /// The Explorer as it starts on `rows`, in a pane of `width` columns, but for
    /// its notice. The row that was selected before is selected and will be
    /// brought into view, where it is still there.
    pub open spec fn is_fresh(
        &self,
        folder: Folder,
        mode: Mode,
        in_repository: bool,
        rows: Vec<Row>,
        saved: Option<&str>,
        width: u16,
    ) -> bool {
        &&& self.folder == folder
        &&& self.mode == mode
        &&& self.repo == (RepoState { present: in_repository, upstream: None, syncing: false })
        &&& self.list.rows == rows
        &&& match self.list.selected {
            Some(i) => saved matches Some(path) && row_at_path(rows@, path@, 0) == Some(i as int)
                && self.list.snap,
            None => (saved matches Some(path) ==> row_at_path(rows@, path@, 0) is None)
                && !self.list.snap,
        }
        &&& self.list.scroll == 0
        &&& self.list.hovered is None
        &&& self.list.body == (BodyGeom { top: 0, height: 0, offset: 0 })
        &&& self.overlay is None
        &&& self.suspended is None
        &&& self.screen.width == width
        &&& self.screen.height == 24
        &&& self.screen.page == 20
        &&& self.screen.mouse_pos is None
        &&& self.screen.zones == ClickZones::nowhere_spec()
        &&& self.screen.title_zones@.len() == 0
        &&& self.screen.result_rows@.len() == 0
        &&& self.screen.search_zones == SearchZones::nowhere_spec()
        &&& self.last_click is None
        &&& self.last_preview is None
        &&& self.index is None
        &&& !self.picking && !self.indexing && !self.searching
        &&& self.search_scroll == 0
        &&& !self.search_snap
    }

    pub fn new(
        folder: Folder,
        mode: Mode,
        in_repository: bool,
        rows: Vec<Row>,
        saved: Option<&str>,
        width: u16,
    ) -> (res: App)
        ensures
            res.wf(),
            res.is_fresh(folder, mode, in_repository, rows, saved, width),
            res.notice is None,
    {
        let selected: Option<usize> = match saved {
            Some(path) => find_path(&rows, path),
            None => None,
        };
        App {
            list: TreeList {
                rows,
                selected,
                scroll: 0,
                snap: selected.is_some(),
                hovered: None,
                body: BodyGeom::default(),
            },
            folder,
            overlay: None,
            suspended: None,
            notice: None,
            mode,
            repo: RepoState { present: in_repository, upstream: None, syncing: false },
            screen: Screen {
                page: 20,
                width,
                height: 24,
                zones: ClickZones::nowhere(),
                title_zones: Vec::new(),
                search_zones: SearchZones::nowhere(),
                result_rows: Vec::new(),
                mouse_pos: None,
            },
            picking: false,
            last_click: None,
            last_preview: None,
            index: None,
            indexing: false,
            searching: false,
            search_scroll: 0,
            search_snap: false,
        }
    }

    /// Another folder is shown: the Explorer starts anew on it, with the tree
    /// that was saved of it. Nothing lies over the tree any more, and what was
    /// being searched, listed or picked is forgotten. A folder that was asked for
    /// is announced, one that was only followed to is not.
    pub fn folder_changed(
        &mut self,
        folder: Folder,
        in_repository: bool,
        rows: Vec<Row>,
        saved: Option<&str>,
        width: u16,
        manual: bool,
    )
        ensures
            final(self).wf(),
            final(self).is_fresh(folder, old(self).mode, in_repository, rows, saved, width),
            if manual {
                says(final(self).notice, "folder: "@ + folder.root_name@)
            } else {
                final(self).notice is None
            },
    {
        let mode: Mode = self.mode;
        *self = App::new(folder, mode, in_repository, rows, saved, width);
        if manual {
            let text: String = text_pair("folder: ", self.folder.root_name.as_str());
            self.notice = Some(text);
        }
    }
}

} // verus!
