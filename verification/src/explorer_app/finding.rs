//! Opening quick open and the search, and taking what was found.

use crate::explorer_app::app::{asked, nothing, one, App, Effect, EffectView, Overlay, just};
use crate::explorer_app::hits::hits_are_clean;
use crate::explorer_app::panel::{SearchFocus, SearchPanel, SearchResult};
use crate::explorer_app::quick::QuickFile;
use crate::explorer_app::quick_open::{QuickIndex, QuickOpen};
use crate::text::str_eq;
use crate::view::ViewKind;
use std::sync::Arc;
use vstd::prelude::*;

verus! {

impl App {
    // ---- Quick open ----

    /// The files of an index are those of the folder that is shown.
    pub open spec fn is_current(&self, index: QuickIndex) -> bool {
        index.root@ == self.folder.root@ && index.show_hidden == self.folder.show_hidden
    }

    /// The files that are already listed.
    pub open spec fn listed(&self) -> Option<QuickIndex> {
        match self.index {
            Some(index) => if self.is_current(index) {
                Some(index)
            } else {
                None
            },
            None => None,
        }
    }

    /// Quick open is shown with the files that are listed; where there are none
    /// they are listed first, one listing at a time.
    pub open spec fn quick_open_rel(&self, post: &App, out: Seq<EffectView>) -> bool {
        &&& *post == (App {
            overlay: post.overlay,
            indexing: self.indexing || self.listed() is None,
            ..*self
        })
        &&& post.overlay matches Some(Overlay::QuickOpen(quick)) && quick.wf()
            && quick.query@.len() == 0 && quick.selected == 0 && match self.listed() {
            Some(index) => quick.files == index.files && quick.truncated == index.truncated
                && !quick.loading,
            None => quick.files@.len() == 0 && !quick.truncated && quick.loading,
        }
        &&& out == (if self.listed() is None && !self.indexing {
            just(EffectView::ListFiles)
        } else {
            Seq::empty()
        })
    }

    pub fn open_quick_open(&mut self) -> (res: Vec<Effect>)
        requires
            old(self).wf(),
        ensures
            final(self).wf(),
            old(self).quick_open_rel(final(self), asked(res@)),
    {
        let listed: Option<(Arc<Vec<QuickFile>>, bool)> = match &self.index {
            Some(index) => if str_eq(index.root.as_str(), self.folder.root.as_str())
                && index.show_hidden == self.folder.show_hidden {
                Some((Arc::clone(&index.files), index.truncated))
            } else {
                None
            },
            None => None,
        };
        match listed {
            Some((files, truncated)) => {
                self.overlay = Some(Overlay::QuickOpen(QuickOpen::new(files, truncated, false)));
                nothing()
            },
            None => {
                let out: Vec<Effect> = if self.indexing {
                    nothing()
                } else {
                    one(Effect::ListFiles)
                };
                self.indexing = true;
                self.overlay = Some(
                    Overlay::QuickOpen(QuickOpen::new(Arc::new(Vec::new()), false, true)),
                );
                out
            },
        }
    }

    /// What lies over the tree, with quick open no longer waiting.
    pub open spec fn not_loading(&self) -> Option<Overlay> {
        match self.overlay {
            Some(Overlay::QuickOpen(quick)) => Some(
                Overlay::QuickOpen(QuickOpen { loading: false, ..quick }),
            ),
            other => other,
        }
    }

    /// A listing has ended: quick open shows its files, unless they are those of
    /// another folder. A listing that was given up is not waited for.
    pub open spec fn index_rel(&self, index: QuickIndex, post: &App) -> bool {
        if !self.indexing {
            *post == *self
        } else if self.is_current(index) {
            &&& *post == (App {
                overlay: post.overlay,
                index: Some(index),
                indexing: false,
                ..*self
            })
            &&& self.files_rel(index.files, index.truncated, post)
        } else {
            *post == (App { overlay: self.not_loading(), indexing: false, ..*self })
        }
    }

    /// Quick open, where it is shown, shows other files.
    pub open spec fn files_rel(
        &self,
        files: Arc<Vec<QuickFile>>,
        truncated: bool,
        post: &App,
    ) -> bool {
        match self.overlay {
            Some(Overlay::QuickOpen(quick)) => post.overlay matches Some(Overlay::QuickOpen(now))
                && quick.indexed_rel(files, truncated, &now),
            other => post.overlay == other,
        }
    }

    /// Quick open no longer waits.
    fn stop_waiting(&mut self)
        requires
            old(self).wf(),
        ensures
            final(self).wf(),
            *final(self) == (App { overlay: old(self).not_loading(), ..*old(self) }),
    {
        let taken: Option<Overlay> = self.overlay.take();
        match taken {
            Some(Overlay::QuickOpen(quick)) => {
                let mut now: QuickOpen = quick;
                now.loading = false;
                self.overlay = Some(Overlay::QuickOpen(now));
            },
            other => {
                self.overlay = other;
            },
        }
    }

    /// Quick open, where it is shown, shows other files.
    fn show_files(&mut self, files: Arc<Vec<QuickFile>>, truncated: bool)
        requires
            old(self).wf(),
        ensures
            final(self).wf(),
            *final(self) == (App { overlay: final(self).overlay, ..*old(self) }),
            old(self).files_rel(files, truncated, final(self)),
    {
        let taken: Option<Overlay> = self.overlay.take();
        match taken {
            Some(Overlay::QuickOpen(quick)) => {
                let mut now: QuickOpen = quick;
                now.indexed(files, truncated);
                self.overlay = Some(Overlay::QuickOpen(now));
            },
            other => {
                self.overlay = other;
            },
        }
    }

    /// Take a listing that has ended.
    pub fn collect_quick_index(&mut self, index: QuickIndex)
        requires
            old(self).wf(),
        ensures
            final(self).wf(),
            old(self).index_rel(index, final(self)),
    {
        if !self.indexing {
            return;
        }
        self.indexing = false;
        if str_eq(index.root.as_str(), self.folder.root.as_str()) && index.show_hidden
            == self.folder.show_hidden {
            self.show_files(Arc::clone(&index.files), index.truncated);
            self.index = Some(index);
        } else {
            self.stop_waiting();
        }
    }

    /// A listing has failed.
    pub fn lose_quick_index(&mut self)
        requires
            old(self).wf(),
        ensures
            final(self).wf(),
            *final(self) == (if old(self).indexing {
                App { overlay: old(self).not_loading(), indexing: false, ..*old(self) }
            } else {
                *old(self)
            }),
    {
        if self.indexing {
            self.indexing = false;
            self.stop_waiting();
        }
    }

    // ---- The search ----

    /// The search is shown, empty; the query has the focus where it is to be
    /// typed at once. A search that is shown already stays as it is.
    pub open spec fn open_search_rel(
        &self,
        focus_query: bool,
        post: &App,
        out: Seq<EffectView>,
    ) -> bool {
        if self.in_search() {
            *post == *self && out.len() == 0
        } else {
            &&& *post == (App {
                overlay: post.overlay,
                search_scroll: 0,
                search_snap: false,
                ..*self
            })
            &&& post.overlay matches Some(Overlay::Search(panel)) && panel.wf() && panel.is_fresh(
                if focus_query {
                    SearchFocus::Query
                } else {
                    SearchFocus::Results
                },
            )
            &&& out == (if self.mode.merged {
                just(EffectView::ShareView { view: ViewKind::Explorer, search: true })
            } else {
                Seq::empty()
            })
        }
    }

    pub fn open_content_search(&mut self, focus_query: bool) -> (res: Vec<Effect>)
        requires
            old(self).wf(),
        ensures
            final(self).wf(),
            old(self).open_search_rel(focus_query, final(self), asked(res@)),
    {
        if self.is_searching() {
            return nothing();
        }
        self.overlay = Some(Overlay::Search(SearchPanel::new(focus_query)));
        self.search_scroll = 0;
        self.search_snap = false;
        if self.mode.merged {
            one(Effect::ShareView { view: ViewKind::Explorer, search: true })
        } else {
            nothing()
        }
    }

    /// What the panel asks is searched, unless it asks nothing or a search is
    /// running.
    pub open spec fn start_rel(&self, post: &App, out: Seq<EffectView>) -> bool {
        match self.overlay {
            Some(Overlay::Search(panel)) => if panel.query@.len() == 0 || self.searching {
                *post == *self && out.len() == 0
            } else {
                &&& *post == (App {
                    overlay: post.overlay,
                    searching: true,
                    search_scroll: 0,
                    search_snap: true,
                    ..*self
                })
                &&& post.overlay matches Some(Overlay::Search(now)) && now.hits@.len() == 0 && now
                    == panel.begun(now.hits)
                &&& out == just(
                    EffectView::Search {
                        query: panel.query@,
                        files_in: panel.files_in@,
                        files_out: panel.files_out@,
                        options: panel.options,
                    })
            },
            _ => *post == *self && out.len() == 0,
        }
    }

    pub fn start_content_search(&mut self) -> (res: Vec<Effect>)
        requires
            old(self).wf(),
        ensures
            final(self).wf(),
            old(self).start_rel(final(self), asked(res@)),
    {
        let taken: Option<Overlay> = self.overlay.take();
        match taken {
            Some(Overlay::Search(panel)) => {
                let mut now: SearchPanel = panel;
                if now.query.as_str().is_empty() || self.searching {
                    self.overlay = Some(Overlay::Search(now));
                    return nothing();
                }
                now.begin();
                let out: Vec<Effect> = one(
                    Effect::Search {
                        query: now.query.clone(),
                        files_in: now.files_in.clone(),
                        files_out: now.files_out.clone(),
                        options: now.options,
                    },
                );
                self.overlay = Some(Overlay::Search(now));
                self.searching = true;
                self.search_scroll = 0;
                self.search_snap = true;
                out
            },
            other => {
                self.overlay = other;
                nothing()
            },
        }
    }

    /// What was typed has waited long enough, and no search is running.
    pub open spec fn search_due(&self, now: u64) -> bool {
        (self.overlay matches Some(Overlay::Search(panel)) && panel.due(now)) && !self.searching
    }

    pub fn start_content_search_if_due(&mut self, now: u64) -> (res: Vec<Effect>)
        requires
            old(self).wf(),
        ensures
            final(self).wf(),
            if old(self).search_due(now) {
                old(self).start_rel(final(self), asked(res@))
            } else {
                *final(self) == *old(self) && asked(res@).len() == 0
            },
    {
        let due: bool = match &self.overlay {
            Some(Overlay::Search(panel)) => panel.is_due(now),
            _ => false,
        };
        if due && !self.searching {
            self.start_content_search()
        } else {
            nothing()
        }
    }

    /// A search has ended. Its results are shown where they are those of the
    /// folder that is shown and of what is asked now.
    pub open spec fn found_rel(&self, result: Option<SearchResult>, post: &App) -> bool {
        if !self.searching {
            *post == *self
        } else {
            *post == (App {
                overlay: match (self.overlay, result) {
                    (Some(Overlay::Search(panel)), Some(result)) => if result.root@ == self.folder.root@
                        && result.show_hidden == self.folder.show_hidden {
                        Some(Overlay::Search(panel.answered(result)))
                    } else {
                        self.overlay
                    },
                    (Some(Overlay::Search(panel)), None) => Some(
                        Overlay::Search(SearchPanel { loading: false, ..panel }),
                    ),
                    (other, _) => other,
                },
                searching: false,
                ..*self
            })
        }
    }

    /// Take what a search has found; `None` where it failed.
    pub fn collect_content_search(&mut self, result: Option<SearchResult>)
        requires
            old(self).wf(),
            result matches Some(r) ==> hits_are_clean(r.hits@),
        ensures
            final(self).wf(),
            old(self).found_rel(result, final(self)),
    {
        if !self.searching {
            return;
        }
        self.searching = false;
        let taken: Option<Overlay> = self.overlay.take();
        match taken {
            Some(Overlay::Search(panel)) => {
                let mut now: SearchPanel = panel;
                match result {
                    Some(result) => {
                        if str_eq(result.root.as_str(), self.folder.root.as_str()) && result.show_hidden
                            == self.folder.show_hidden {
                            now.accept(result);
                        }
                    },
                    None => {
                        now.loading = false;
                    },
                }
                self.overlay = Some(Overlay::Search(now));
            },
            other => {
                self.overlay = other;
            },
        }
    }

    // ---- A search under a modal ----

    /// A search that is shown is parked, so that a modal can lie over it.
    pub open spec fn parked(&self) -> Option<SearchPanel> {
        match self.overlay {
            Some(Overlay::Search(panel)) => Some(panel),
            _ => self.suspended,
        }
    }

    /// Show a modal; a search that was shown is parked.
    pub(crate) fn cover(&mut self, modal: Overlay)
        requires
            old(self).wf(),
            !(modal is Search) && !(modal is QuickOpen),
        ensures
            final(self).wf(),
            *final(self) == (App {
                overlay: Some(modal),
                suspended: old(self).parked(),
                ..*old(self)
            }),
    {
        let taken: Option<Overlay> = self.overlay.take();
        match taken {
            Some(Overlay::Search(panel)) => {
                self.suspended = Some(panel);
            },
            _ => {},
        }
        self.overlay = Some(modal);
    }

    /// The search that was parked is shown again, else the tree.
    pub open spec fn resumed(&self) -> App {
        App {
            overlay: match self.suspended {
                Some(panel) => Some(Overlay::Search(panel)),
                None => None,
            },
            suspended: None,
            ..*self
        }
    }

    pub(crate) fn resume(&mut self)
        requires
            old(self).wf(),
        ensures
            final(self).wf(),
            *final(self) == old(self).resumed(),
    {
        let parked: Option<SearchPanel> = self.suspended.take();
        self.overlay = match parked {
            Some(panel) => Some(Overlay::Search(panel)),
            None => None,
        };
    }
}

/// A search that was begun for one folder never shows its results in another.
pub proof fn law_results_stay_in_their_folder(app: App, result: SearchResult, post: App)
    requires
        app.found_rel(Some(result), &post),
        result.root@ != app.folder.root@ || result.show_hidden != app.folder.show_hidden,
    ensures
        post.overlay == app.overlay,
{
}

} // verus!
