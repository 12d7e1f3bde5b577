//! What git reports, and what the Source Control panel makes of it.

use crate::git::Status;
use crate::scm_app::app::{App, Effect};
use crate::scm_app::drawer::{
    all_drawers, fetched_lines, fetched_view, law_drawer_index_is_its_place, Drawer, DrawerPanel,
    DRAWERS,
};
use crate::scm_app::panel::{followed, min, Panel};
use crate::scm_app::rows::{nearest_stop, Repo};
use vstd::prelude::*;

verus! {

/// What git printed for a drawer, or its complaint.
pub struct Fetch {
    pub kind: Drawer,
    pub lines: Result<Vec<String>, String>,
}

/// The repository with the status that git reported; it keeps the one it had
/// where git failed.
pub open spec fn with_status(repo: Repo, report: Result<Status, String>) -> Repo {
    match report {
        Ok(status) => Repo { status, ..repo },
        Err(_) => repo,
    }
}

/// The complaint about the last repository that git failed on.
pub open spec fn last_error(reports: Seq<Result<Status, String>>) -> Option<Seq<char>>
    decreases reports.len(),
{
    if reports.len() == 0 {
        None
    } else {
        match reports.last() {
            Err(e) => Some(e@),
            Ok(_) => last_error(reports.drop_last()),
        }
    }
}

/// The first fetch for the drawer at place `k`.
pub open spec fn fetch_for(fetches: Seq<Fetch>, k: int) -> Option<Fetch>
    decreases fetches.len(),
{
    if fetches.len() == 0 {
        None
    } else if fetches[0].kind.index_spec() == k {
        Some(fetches[0])
    } else {
        fetch_for(fetches.drop_first(), k)
    }
}

/// The drawer at place `k` shows what was fetched for it, and is as it was
/// where nothing was.
pub open spec fn shows_fetched(
    before: DrawerPanel,
    fetch: Option<Fetch>,
    post: DrawerPanel,
) -> bool {
    match fetch {
        Some(fetch) => {
            &&& post.expanded == before.expanded
            &&& post.shows(fetch.kind, fetched_lines(fetched_view(fetch.lines)))
        },
        None => post == before,
    }
}

pub open spec fn drawers_show(
    before: Seq<DrawerPanel>,
    fetches: Seq<Fetch>,
    post: Seq<DrawerPanel>,
) -> bool {
    &&& post.len() == before.len()
    &&& forall|k: int|
        0 <= k < DRAWERS ==> shows_fetched(
            before[k],
            fetch_for(fetches, k),
            #[trigger] post[k],
        )
}

impl Panel {
    /// Those of the first `n` drawers that are expanded.
    pub open spec fn expanded_among(&self, n: int) -> Seq<Drawer>
        decreases n,
    {
        if n <= 0 {
            Seq::empty()
        } else {
            let before = self.expanded_among(n - 1);
            let kind = all_drawers()[n - 1];
            if self.drawers@[kind.index_spec()].expanded {
                before.push(kind)
            } else {
                before
            }
        }
    }

    /// The drawers whose lines a refresh fetches: the expanded ones, and none
    /// without a repository to ask.
    pub open spec fn stale_drawers(&self) -> Seq<Drawer> {
        if self.active < self.repos@.len() {
            self.expanded_among(DRAWERS as int)
        } else {
            Seq::empty()
        }
    }

    pub fn drawers_to_fetch(&self) -> (res: Vec<Drawer>)
        requires
            self.sound(),
        ensures
            res@ == self.stale_drawers(),
    {
        let mut out: Vec<Drawer> = Vec::new();
        if self.active >= self.repos.len() {
            assert(out@ =~= self.stale_drawers());
            return out;
        }
        let kinds: [Drawer; 8] = Drawer::all();
        let mut k: usize = 0;
        while k < 8
            invariant
                k <= 8,
                kinds@ == all_drawers(),
                self.sound(),
                out@ == self.expanded_among(k as int),
            decreases 8 - k,
        {
            let kind: Drawer = kinds[k];
            proof {
                law_drawer_index_is_its_place(k as int);
            }
            if self.drawers[kind.index()].expanded {
                out.push(kind);
            }
            k += 1;
            assert(out@ =~= self.expanded_among(k as int));
        }
        out
    }

    fn take_statuses(&mut self, reports: Vec<Result<Status, String>>) -> (res: Option<String>)
        requires
            old(self).sound(),
            reports@.len() == old(self).repos@.len(),
        ensures
            final(self).sound(),
            *final(self) == (Panel { repos: final(self).repos, ..*old(self) }),
            final(self).repos@.len() == old(self).repos@.len(),
            forall|r: int|
                0 <= r < old(self).repos@.len() ==> (#[trigger] final(self).repos@[r])
                    == with_status(old(self).repos@[r], reports@[r]),
            match res {
                Some(e) => last_error(reports@) == Some(e@),
                None => last_error(reports@) is None,
            },
    {
        let ghost all: Seq<Result<Status, String>> = reports@;
        let ghost start: Panel = *self;
        let mut left: Vec<Result<Status, String>> = reports;
        let mut error: Option<String> = None;
        while left.len() > 0
            invariant
                start.sound(),
                self.repos@.len() == start.repos@.len(),
                all.len() == start.repos@.len(),
                left@.len() <= all.len(),
                left@ == all.take(left@.len() as int),
                *self == (Panel { repos: self.repos, ..start }),
                forall|r: int|
                    0 <= r < left@.len() ==> (#[trigger] self.repos@[r]) == start.repos@[r],
                forall|r: int|
                    left@.len() <= r < all.len() ==> (#[trigger] self.repos@[r]) == with_status(
                        start.repos@[r],
                        all[r],
                    ),
                match error {
                    Some(e) => last_error(all) == Some(e@),
                    None => last_error(all) == last_error(left@),
                },
            decreases left@.len(),
        {
            let ghost before: Seq<Result<Status, String>> = left@;
            let report: Result<Status, String> = left.pop().unwrap();
            let r: usize = left.len();
            assert(left@ =~= before.drop_last());
            assert(left@ =~= all.take(r as int));
            assert(report == all[r as int]);
            match report {
                Ok(status) => {
                    self.repos[r].status = status;
                },
                Err(e) => {
                    if error.is_none() {
                        error = Some(e);
                    }
                },
            }
            assert(self.repos@[r as int] == with_status(start.repos@[r as int], all[r as int]));
        }
        assert(self.sound()) by {
            assert forall|r: int| 0 <= r < self.repos@.len() implies (
            #[trigger] self.repos@[r]).wf() by {
                assert(start.repos@[r].wf());
            }
        }
        error
    }

    fn take_fetches(&mut self, fetches: Vec<Fetch>)
        requires
            old(self).sound(),
        ensures
            final(self).sound(),
            *final(self) == (Panel { drawers: final(self).drawers, ..*old(self) }),
            drawers_show(old(self).drawers@, fetches@, final(self).drawers@),
    {
        let ghost all: Seq<Fetch> = fetches@;
        let ghost start: Panel = *self;
        let mut left: Vec<Fetch> = fetches;
        assert(all.skip(all.len() as int) =~= Seq::<Fetch>::empty());
        while left.len() > 0
            invariant
                start.sound(),
                self.sound(),
                left@.len() <= all.len(),
                left@ == all.take(left@.len() as int),
                *self == (Panel { drawers: self.drawers, ..start }),
                drawers_show(start.drawers@, all.skip(left@.len() as int), self.drawers@),
            decreases left@.len(),
        {
            let ghost before: Seq<Fetch> = left@;
            let fetch: Fetch = left.pop().unwrap();
            let ghost n: int = left@.len() as int;
            let ghost middle: Panel = *self;
            assert(left@ =~= all.take(n));
            assert(fetch == all[n]);
            assert(all.skip(n).drop_first() =~= all.skip(n + 1));
            self.load_drawer(fetch.kind, fetch.lines);
            assert forall|k: int| 0 <= k < DRAWERS implies shows_fetched(
                start.drawers@[k],
                fetch_for(all.skip(n), k),
                #[trigger] self.drawers@[k],
            ) by {
                assert(shows_fetched(
                    start.drawers@[k],
                    fetch_for(all.skip(n + 1), k),
                    middle.drawers@[k],
                ));
            }
        }
        assert(all.skip(0) =~= all);
    }

    /// The list was built anew over what the panel holds now: the selection
    /// stays as near as it can, and what follows it still does.
    pub open spec fn relisted(&self, post: &Panel, reload: bool) -> bool {
        &&& post.wf()
        &&& post.width == self.width
        &&& post.snap == self.snap
        &&& post.scroll == min(self.scroll as int, post.rows@.len() - 1)
        &&& (match self.selected {
            None => post.selected is None,
            Some(i) => post.selected matches Some(j) && j == nearest_stop(
                post.rows@,
                min(i as int, post.rows@.len() - 1),
            ),
        })
        &&& ({
            let f = followed(
                post.repos@,
                post.selected_row(),
                self.active,
                self.history(),
                post.history_open(),
            );
            post.follows(f) && reload == f.reload
        })
    }
}

impl App {
    /// Repositories were found where there was none before. What they hold is
    /// listed by the refresh that follows.
    pub fn discovered(&mut self, repos: Vec<Repo>)
        requires
            old(self).wf(),
            forall|r: int| 0 <= r < repos@.len() ==> (#[trigger] repos@[r]).wf(),
        ensures
            final(self).panel.sound(),
            *final(self) == (if old(self).panel.repos@.len() == 0 {
                App { panel: Panel { repos, ..old(self).panel }, ..*old(self) }
            } else {
                *old(self)
            }),
    {
        if self.panel.repos.len() == 0 {
            self.panel.repos = repos;
        }
    }

    /// What git reported of every repository and for the drawers. A drawer that
    /// shows something else because of it is to be fetched once more.
    pub open spec fn refreshed_rel(
        &self,
        reports: Seq<Result<Status, String>>,
        fetches: Seq<Fetch>,
        post: &App,
        out: Seq<Effect>,
    ) -> bool {
        &&& *post == (App { panel: post.panel, flash: post.flash, ..*self })
        &&& post.panel.repos@.len() == self.panel.repos@.len()
        &&& forall|r: int|
            0 <= r < self.panel.repos@.len() ==> (#[trigger] post.panel.repos@[r]) == with_status(
                self.panel.repos@[r],
                reports[r],
            )
        &&& drawers_show(self.panel.drawers@, fetches, post.panel.drawers@)
        &&& self.panel.relisted(&post.panel, out.len() > 0)
        &&& out.len() > 0 ==> out == seq![Effect::ReloadDrawers]
        &&& match last_error(reports) {
            Some(e) => crate::scm_app::app::flash_is(post.flash, e, true),
            None => post.flash == self.flash,
        }
    }

    pub fn refreshed(&mut self, reports: Vec<Result<Status, String>>, fetches: Vec<Fetch>) -> (res:
        Vec<Effect>)
        requires
            old(self).panel.sound(),
            reports@.len() == old(self).panel.repos@.len(),
        ensures
            final(self).wf(),
            old(self).refreshed_rel(reports@, fetches@, final(self), res@),
    {
        if let Some(e) = self.panel.take_statuses(reports) {
            self.flash = Some((e, true));
        }
        self.panel.take_fetches(fetches);
        let reload: bool = self.panel.rebuild();
        let mut out: Vec<Effect> = Vec::new();
        if reload {
            out.push(Effect::ReloadDrawers);
            assert(out@ =~= seq![Effect::ReloadDrawers]);
        }
        out
    }

    /// What git printed for drawers that were asked for. The selection stays at
    /// its place as far as the list still reaches.
    pub fn drawers_fetched(&mut self, fetches: Vec<Fetch>)
        requires
            old(self).wf(),
        ensures
            final(self).wf(),
            *final(self) == (App { panel: final(self).panel, ..*old(self) }),
            final(self).panel.repos == old(self).panel.repos,
            drawers_show(old(self).panel.drawers@, fetches@, final(self).panel.drawers@),
            final(self).panel.active == old(self).panel.active,
            final(self).panel.history_target == old(self).panel.history_target,
            final(self).panel.snap == old(self).panel.snap,
            final(self).panel.width == old(self).panel.width,
            final(self).panel.scroll == min(
                old(self).panel.scroll as int,
                final(self).panel.rows@.len() - 1,
            ),
            match old(self).panel.selected {
                None => final(self).panel.selected is None,
                Some(i) => final(self).panel.selected matches Some(j) && j == min(
                    i as int,
                    final(self).panel.rows@.len() - 1,
                ),
            },
    {
        self.panel.take_fetches(fetches);
        self.panel.relist();
    }

    /// A refresh loses no draft: every repository keeps its message and cursor,
    /// whatever git reports.
    pub proof fn law_refreshes_keep_drafts(
        &self,
        reports: Seq<Result<Status, String>>,
        fetches: Seq<Fetch>,
        post: &App,
        out: Seq<Effect>,
        r: int,
    )
        requires
            self.refreshed_rel(reports, fetches, post, out),
            0 <= r < self.panel.repos@.len(),
        ensures
            post.panel.repos@[r].message == self.panel.repos@[r].message,
            post.panel.repos@[r].cursor == self.panel.repos@[r].cursor,
            post.panel.repos@[r].collapsed == self.panel.repos@[r].collapsed,
            post.focus == self.focus,
    {
        assert(post.panel.repos@[r] == with_status(self.panel.repos@[r], reports[r]));
    }
}

} // verus!
