//! Starting a panel where another one left off: the same drawers open, the
//! same repository active, the same drafts and the same row selected.

use vstd::prelude::*;

use crate::geometry::Area;
use crate::scm_app::app::{App, ClickZones, Focus};
use crate::scm_app::drawer::{
    all_drawers, law_drawer_titles_are_distinct, Drawer, DrawerPanel, DRAWERS,
};
use crate::scm_app::panel::{min, opt_view, Panel};
use crate::scm_app::rows::{BodyGeom, Repo};
use crate::scm_app::snapshot::{
    contains_string, draft_views, drafts_of, has_string, law_named_rows_are_found_again,
    open_titles, stable_id, Draft, ScmState,
};
use crate::text::{str_eq, string_views, to_chars};

verus! {

/// The message that is saved under `key`; `None` where there is none.
pub open spec fn saved_message(drafts: Seq<(Seq<char>, Seq<char>)>, key: Seq<char>, from: int) -> Option<
    Seq<char>,
>
    decreases drafts.len() - from,
{
    if 0 <= from < drafts.len() {
        if drafts[from].0 == key {
            Some(drafts[from].1)
        } else {
            saved_message(drafts, key, from + 1)
        }
    } else {
        None
    }
}

fn find_message(drafts: &Vec<Draft>, key: &str) -> (res: Option<Vec<char>>)
    ensures
        match res {
            Some(m) => saved_message(draft_views(drafts@), key@, 0) == Some(m@),
            None => saved_message(draft_views(drafts@), key@, 0) is None,
        },
{
    let ghost all: Seq<(Seq<char>, Seq<char>)> = draft_views(drafts@);
    let mut i: usize = 0;
    while i < drafts.len()
        invariant
            i <= drafts@.len(),
            all == draft_views(drafts@),
            saved_message(all, key@, i as int) == saved_message(all, key@, 0),
        decreases drafts@.len() - i,
    {
        assert(all[i as int] == (drafts@[i as int].root@, drafts@[i as int].message@));
        if str_eq(drafts[i].root.as_str(), key) {
            return Some(to_chars(drafts[i].message.as_str()));
        }
        i += 1;
    }
    None
}

/// A repository with the draft that was saved for it, and the cursor behind it.
pub open spec fn with_draft(repo: Repo, saved: Option<Seq<char>>, after: Repo) -> bool {
    match saved {
        None => after == repo,
        Some(message) => {
            &&& after.message@ == message
            &&& after.cursor == message.len()
            &&& after.git == repo.git
            &&& after.status == repo.status
            &&& after.collapsed == repo.collapsed
            &&& after.staged_collapsed == repo.staged_collapsed
            &&& after.changes_collapsed == repo.changes_collapsed
        },
    }
}

/// The place of `wanted` in `keys` from `from` on; 0 where it is not there.
pub open spec fn place_of(keys: Seq<String>, wanted: Seq<char>, from: int) -> usize
    decreases keys.len() - from,
{
    if 0 <= from < keys.len() {
        if keys[from]@ == wanted {
            from as usize
        } else {
            place_of(keys, wanted, from + 1)
        }
    } else {
        0
    }
}

fn find_place(keys: &Vec<String>, wanted: &str) -> (res: usize)
    ensures
        res == place_of(keys@, wanted@, 0),
{
    let mut i: usize = 0;
    while i < keys.len()
        invariant
            i <= keys@.len(),
            place_of(keys@, wanted@, i as int) == place_of(keys@, wanted@, 0),
        decreases keys@.len() - i,
    {
        if str_eq(keys[i].as_str(), wanted) {
            return i;
        }
        i += 1;
    }
    0
}

fn closed_drawers() -> (res: Vec<DrawerPanel>)
    ensures
        res@.len() == DRAWERS,
        forall|k: int|
            0 <= k < DRAWERS ==> (#[trigger] res@[k]).wf() && !res@[k].expanded
                && res@[k].lines@.len() == 0,
{
    let mut out: Vec<DrawerPanel> = Vec::new();
    let mut k: usize = 0;
    while k < DRAWERS
        invariant
            k <= DRAWERS,
            out@.len() == k,
            forall|i: int|
                0 <= i < k ==> (#[trigger] out@[i]).wf() && !out@[i].expanded
                    && out@[i].lines@.len() == 0,
        decreases DRAWERS - k,
    {
        out.push(DrawerPanel::new());
        k += 1;
    }
    out
}

impl Panel {
    /// A panel for freshly discovered repositories, nothing unfolded or
    /// selected; its rows are not built yet.
    pub fn new(repos: Vec<Repo>, width: u16) -> (res: Panel)
        requires
            forall|r: int| 0 <= r < repos@.len() ==> (#[trigger] repos@[r]).wf(),
        ensures
            res.sound(),
            res.repos == repos,
            res.active == 0,
            res.history_target is None,
            res.selected is None,
            res.scroll == 0,
            !res.snap,
            res.width == width,
            forall|k: int| 0 <= k < DRAWERS ==> !(#[trigger] res.drawers@[k]).expanded,
    {
        Panel {
            repos,
            active: 0,
            drawers: closed_drawers(),
            history_target: None,
            rows: Vec::new(),
            selected: None,
            scroll: 0,
            snap: false,
            width,
        }
    }

    fn restore_drawers(&mut self, titles: &Vec<String>)
        requires
            old(self).sound(),
        ensures
            final(self).sound(),
            final(self).repos == old(self).repos,
            final(self).active == old(self).active,
            final(self).history_target == old(self).history_target,
            final(self).selected == old(self).selected,
            final(self).scroll == old(self).scroll,
            final(self).snap == old(self).snap,
            final(self).width == old(self).width,
            forall|k: int|
                0 <= k < DRAWERS ==> (#[trigger] final(self).drawers@[k]).expanded == has_string(
                    titles@,
                    all_drawers()[k].title_spec(),
                ),
    {
        let all: [Drawer; 8] = Drawer::all();
        let mut k: usize = 0;
        while k < DRAWERS
            invariant
                k <= DRAWERS,
                all@ == all_drawers(),
                self.sound(),
                self.repos == old(self).repos,
                self.active == old(self).active,
                self.history_target == old(self).history_target,
                self.selected == old(self).selected,
                self.scroll == old(self).scroll,
                self.snap == old(self).snap,
                self.width == old(self).width,
                forall|i: int|
                    0 <= i < k ==> (#[trigger] self.drawers@[i]).expanded == has_string(
                        titles@,
                        all_drawers()[i].title_spec(),
                    ),
            decreases DRAWERS - k,
        {
            let open: bool = contains_string(titles, all[k].title());
            let ghost before: Seq<DrawerPanel> = self.drawers@;
            self.drawers[k].expanded = open;
            assert(self.sound()) by {
                assert forall|i: int| 0 <= i < DRAWERS implies (
                #[trigger] self.drawers@[i]).wf() by {
                    assert(before[i].wf());
                }
            }
            k += 1;
        }
    }

    fn restore_messages(&mut self, keys: &Vec<String>, drafts: &Vec<Draft>)
        requires
            old(self).sound(),
            keys@.len() == old(self).repos@.len(),
        ensures
            final(self).sound(),
            final(self).drawers == old(self).drawers,
            final(self).active == old(self).active,
            final(self).history_target == old(self).history_target,
            final(self).selected == old(self).selected,
            final(self).scroll == old(self).scroll,
            final(self).snap == old(self).snap,
            final(self).width == old(self).width,
            final(self).repos@.len() == old(self).repos@.len(),
            forall|r: int|
                0 <= r < old(self).repos@.len() ==> with_draft(
                    old(self).repos@[r],
                    saved_message(draft_views(drafts@), keys@[r]@, 0),
                    #[trigger] final(self).repos@[r],
                ),
    {
        let ghost start: Seq<Repo> = self.repos@;
        let ghost saved: Seq<(Seq<char>, Seq<char>)> = draft_views(drafts@);
        let mut r: usize = 0;
        while r < self.repos.len()
            invariant
                r <= self.repos@.len(),
                start == old(self).repos@,
                saved == draft_views(drafts@),
                self.repos@.len() == start.len(),
                keys@.len() == start.len(),
                self.sound(),
                self.drawers == old(self).drawers,
                self.active == old(self).active,
                self.history_target == old(self).history_target,
                self.selected == old(self).selected,
                self.scroll == old(self).scroll,
                self.snap == old(self).snap,
                self.width == old(self).width,
                forall|k: int|
                    0 <= k < r ==> with_draft(
                        start[k],
                        saved_message(saved, keys@[k]@, 0),
                        #[trigger] self.repos@[k],
                    ),
                forall|k: int| r <= k < start.len() ==> (#[trigger] self.repos@[k]) == start[k],
            decreases self.repos@.len() - r,
        {
            let ghost before: Seq<Repo> = self.repos@;
            if let Some(message) = find_message(drafts, keys[r].as_str()) {
                self.repos[r].cursor = message.len();
                self.repos[r].message = message;
            }
            assert(self.sound()) by {
                assert forall|i: int| 0 <= i < self.repos@.len() implies (
                #[trigger] self.repos@[i]).wf() by {
                    assert(before[i].wf());
                }
            }
            assert(with_draft(
                start[r as int],
                saved_message(saved, keys@[r as int]@, 0),
                self.repos@[r as int],
            ));
            r += 1;
        }
    }

    /// Take over the drawers, the active repository, the followed file and the
    /// drafts that were saved; the rows are not built yet.
    pub fn restore(&mut self, keys: &Vec<String>, saved: &ScmState)
        requires
            old(self).sound(),
            keys@.len() == old(self).repos@.len(),
        ensures
            final(self).sound(),
            final(self).selected == old(self).selected,
            final(self).scroll == old(self).scroll,
            final(self).snap == old(self).snap,
            final(self).width == old(self).width,
            final(self).active == (match opt_view(saved.active_root) {
                Some(root) => place_of(keys@, root, 0),
                None => 0,
            }),
            final(self).history_target == saved.history_target,
            forall|k: int|
                0 <= k < DRAWERS ==> (#[trigger] final(self).drawers@[k]).expanded == has_string(
                    saved.drawers@,
                    all_drawers()[k].title_spec(),
                ),
            final(self).repos@.len() == old(self).repos@.len(),
            forall|r: int|
                0 <= r < old(self).repos@.len() ==> with_draft(
                    old(self).repos@[r],
                    saved_message(draft_views(saved.drafts@), keys@[r]@, 0),
                    #[trigger] final(self).repos@[r],
                ),
    {
        self.restore_drawers(&saved.drawers);
        self.restore_messages(keys, &saved.drafts);
        self.active = match &saved.active_root {
            Some(root) => find_place(keys, root.as_str()),
            None => 0,
        };
        self.history_target = match &saved.history_target {
            Some(path) => Some(path.clone()),
            None => None,
        };
    }

    /// With the rows built, take over the saved selection and scroll offset.
    pub fn restore_selection(&mut self, saved: &ScmState)
        requires
            old(self).wf(),
        ensures
            final(self).wf(),
            final(self).same_contents(old(self)),
            final(self).rows == old(self).rows,
            final(self).active == old(self).active,
            final(self).history_target == old(self).history_target,
            final(self).snap == old(self).snap,
            final(self).scroll == min(saved.scroll as int, old(self).rows@.len() - 1),
            final(self).selected == old(self).found_again(*saved),
    {
        let last: usize = self.rows.len() - 1;
        if let Some(id) = &saved.selected {
            if let Some(i) = self.find_row_by_stable_id(id.as_str()) {
                proof {
                    lemma_named_in_range(*self, id@, 0);
                }
                self.selected = Some(i);
            }
        }
        self.scroll = if saved.scroll > last {
            last
        } else {
            saved.scroll
        };
    }
}

proof fn lemma_named_in_range(panel: Panel, id: Seq<char>, from: int)
    requires
        0 <= from,
        panel.rows@.len() <= usize::MAX,
    ensures
        panel.named_from(id, from) matches Some(i) ==> i < panel.rows@.len(),
    decreases panel.rows@.len() - from,
{
    if from < panel.rows@.len() {
        lemma_named_in_range(panel, id, from + 1);
    }
}

impl Panel {
    /// The panel on `repos`, known by `keys`, with what was saved: the drawers
    /// that were open, the active repository, the followed file, the drafts.
    pub open spec fn opened_from(
        &self,
        repos: Seq<Repo>,
        keys: Seq<String>,
        saved: ScmState,
    ) -> bool {
        &&& self.repos@.len() == repos.len()
        &&& forall|r: int|
            0 <= r < repos.len() ==> with_draft(
                repos[r],
                saved_message(draft_views(saved.drafts@), keys[r]@, 0),
                #[trigger] self.repos@[r],
            )
        &&& forall|k: int|
            0 <= k < DRAWERS ==> (#[trigger] self.drawers@[k]).expanded == has_string(
                saved.drawers@,
                all_drawers()[k].title_spec(),
            )
        &&& self.active == (match opt_view(saved.active_root) {
            Some(root) => place_of(keys, root, 0),
            None => 0,
        })
        &&& self.history_target == saved.history_target
    }

    /// The selection with the saved row found again, where it is still there.
    pub open spec fn found_again(&self, saved: ScmState) -> Option<usize> {
        match opt_view(saved.selected) {
            Some(id) => match self.named_from(id, 0) {
                Some(i) => Some(i),
                None => self.selected,
            },
            None => self.selected,
        }
    }
}

// ---- A saved panel comes back ----

proof fn lemma_open_titles(drawers: Seq<DrawerPanel>, n: int, k: int)
    requires
        0 <= n <= DRAWERS,
        0 <= k < DRAWERS,
        drawers.len() == DRAWERS,
    ensures
        open_titles(drawers, n).contains(all_drawers()[k].title_spec()) <==> (k < n
            && drawers[k].expanded),
    decreases n,
{
    if n > 0 {
        lemma_open_titles(drawers, n - 1, k);
        let before = open_titles(drawers, n - 1);
        let title = all_drawers()[k].title_spec();
        if drawers[n - 1].expanded {
            let own = all_drawers()[n - 1].title_spec();
            assert(open_titles(drawers, n) == before.push(own));
            if own == title {
                law_drawer_titles_are_distinct(all_drawers()[n - 1], all_drawers()[k]);
                assert(all_drawers()[k].index_spec() == k);
                assert(all_drawers()[n - 1].index_spec() == n - 1);
                assert(open_titles(drawers, n)[before.len() as int] == title);
            } else {
                if before.contains(title) {
                    let j = choose|j: int| 0 <= j < before.len() && before[j] == title;
                    assert(open_titles(drawers, n)[j] == title);
                }
                if open_titles(drawers, n).contains(title) {
                    let j = choose|j: int|
                        0 <= j < open_titles(drawers, n).len() && open_titles(drawers, n)[j]
                            == title;
                    assert(j < before.len());
                    assert(before[j] == title);
                }
            }
        }
    }
}

/// The drawers that were open when the state was saved are the ones that are
/// open after it is restored.
pub proof fn law_saved_drawers_come_back(drawers: Seq<DrawerPanel>, titles: Seq<String>, k: int)
    requires
        drawers.len() == DRAWERS,
        0 <= k < DRAWERS,
        string_views(titles) == open_titles(drawers, DRAWERS as int),
    ensures
        has_string(titles, all_drawers()[k].title_spec()) == drawers[k].expanded,
{
    lemma_open_titles(drawers, DRAWERS as int, k);
    let views = string_views(titles);
    let title = all_drawers()[k].title_spec();
    if has_string(titles, title) {
        let i = choose|i: int| 0 <= i < titles.len() && (#[trigger] titles[i])@ == title;
        assert(views[i] == title);
    }
    if views.contains(title) {
        let i = choose|i: int| 0 <= i < views.len() && views[i] == title;
        assert(titles[i]@ == title);
    }
}

pub open spec fn distinct_keys(keys: Seq<String>) -> bool {
    forall|i: int, j: int|
        0 <= i < j < keys.len() ==> (#[trigger] keys[i])@ != (#[trigger] keys[j])@
}

/// The repository that was active when the state was saved is active again.
pub proof fn law_saved_active_repo_comes_back(keys: Seq<String>, active: int)
    requires
        distinct_keys(keys),
        0 <= active < keys.len() <= usize::MAX,
    ensures
        place_of(keys, keys[active]@, 0) == active,
{
    lemma_place_of(keys, active, 0);
}

proof fn lemma_place_of(keys: Seq<String>, active: int, from: int)
    requires
        distinct_keys(keys),
        0 <= from <= active < keys.len() <= usize::MAX,
    ensures
        place_of(keys, keys[active]@, from) == active,
    decreases active - from,
{
    if from < active {
        assert(keys[from]@ != keys[active]@);
        lemma_place_of(keys, active, from + 1);
    }
}

/// A panel that is opened on the same repositories with what another one saved
/// has the same drawers open, the same repository active, the same file followed
/// and the same messages begun.
pub proof fn law_a_saved_panel_comes_back(
    before: Panel,
    keys: Seq<String>,
    persisted: Seq<String>,
    saved: ScmState,
    repos: Seq<Repo>,
    after: Panel,
)
    requires
        before.wf(),
        before.active < before.repos@.len(),
        before.saved_as(keys, persisted, saved),
        keys.len() == before.repos@.len() == repos.len(),
        keys.len() <= usize::MAX,
        distinct_keys(keys),
        forall|r: int| 0 <= r < repos.len() ==> (#[trigger] repos[r]).message@.len() == 0,
        after.opened_from(repos, keys, saved),
    ensures
        after.active == before.active,
        after.history_target == before.history_target,
        forall|k: int|
            0 <= k < DRAWERS ==> (#[trigger] after.drawers@[k]).expanded
                == before.drawers@[k].expanded,
        forall|r: int|
            0 <= r < repos.len() ==> (#[trigger] after.repos@[r]).message@
                == before.repos@[r].message@,
{
    law_saved_active_repo_comes_back(keys, before.active as int);
    assert forall|k: int| 0 <= k < DRAWERS implies (#[trigger] after.drawers@[k]).expanded
        == before.drawers@[k].expanded by {
        law_saved_drawers_come_back(before.drawers@, saved.drawers@, k);
    }
    assert forall|r: int| 0 <= r < repos.len() implies (#[trigger] after.repos@[r]).message@
        == before.repos@[r].message@ by {
        law_saved_messages_come_back(before.repos@, keys, r);
        assert(repos[r].message@.len() == 0);
        if before.repos@[r].message@.len() == 0 {
            assert(after.repos@[r].message@ =~= before.repos@[r].message@);
        }
    }
}

/// The row that was selected when the state was saved is selected again in a
/// panel that still has a row of its name.
pub proof fn law_a_saved_selection_comes_back(
    before: Panel,
    keys: Seq<String>,
    persisted: Seq<String>,
    saved: ScmState,
    after: Panel,
    i: int,
)
    requires
        before.saved_as(keys, persisted, saved),
        before.selected_id() is Some,
        after.wf(),
        0 <= i < after.rows@.len() <= usize::MAX,
        stable_id(after.repos@, after.drawers@, after.rows@[i]) == before.selected_id(),
    ensures
        after.found_again(saved) matches Some(found) && found < after.rows@.len() && stable_id(
            after.repos@,
            after.drawers@,
            after.rows@[found as int],
        ) == before.selected_id(),
{
    law_named_rows_are_found_again(after, i);
}

/// The commit message of a repository comes back as it was saved: a begun one
/// with its text, an empty one as none.
pub proof fn law_saved_messages_come_back(repos: Seq<Repo>, keys: Seq<String>, r: int)
    requires
        keys.len() == repos.len(),
        distinct_keys(keys),
        0 <= r < repos.len(),
    ensures
        saved_message(drafts_of(repos, keys, repos.len() as int), keys[r]@, 0) == (if repos[r].message@.len()
            > 0 {
            Some(repos[r].message@)
        } else {
            None
        }),
{
    lemma_saved_message(repos, keys, repos.len() as int, r);
}

proof fn lemma_saved_message_append(
    list: Seq<(Seq<char>, Seq<char>)>,
    last: (Seq<char>, Seq<char>),
    key: Seq<char>,
    from: int,
)
    requires
        0 <= from <= list.len(),
    ensures
        saved_message(list.push(last), key, from) == (match saved_message(list, key, from) {
            Some(m) => Some(m),
            None => if last.0 == key {
                Some(last.1)
            } else {
                None
            },
        }),
    decreases list.len() - from,
{
    let all = list.push(last);
    if from < list.len() {
        assert(all[from] == list[from]);
        lemma_saved_message_append(list, last, key, from + 1);
    } else {
        assert(all[from] == last);
        assert(saved_message(all, key, from + 1) is None);
    }
}

proof fn lemma_saved_message(repos: Seq<Repo>, keys: Seq<String>, n: int, r: int)
    requires
        keys.len() == repos.len(),
        distinct_keys(keys),
        0 <= r < repos.len(),
        0 <= n <= repos.len(),
    ensures
        saved_message(drafts_of(repos, keys, n), keys[r]@, 0) == (if r < n
            && repos[r].message@.len() > 0 {
            Some(repos[r].message@)
        } else {
            None
        }),
    decreases n,
{
    if n > 0 {
        lemma_saved_message(repos, keys, n - 1, r);
        if r < n - 1 {
            assert(keys[r]@ != keys[n - 1]@);
        } else if r > n - 1 {
            assert(keys[n - 1]@ != keys[r]@);
        }
        lemma_saved_message_append(
            drafts_of(repos, keys, n - 1),
            (keys[n - 1]@, repos[n - 1].message@),
            keys[r]@,
            0,
        );
    }
}

impl ClickZones {
    /// Nothing was drawn.
    pub open spec fn nowhere_spec() -> ClickZones {
        ClickZones {
            activity_row: 0,
            explorer: (0, 0),
            search: (0, 0),
            source_control: (0, 0),
            gear: Area::empty_spec(),
            message: Area::empty_spec(),
            sparkle: Area::empty_spec(),
            button: Area::empty_spec(),
            sync: Area::empty_spec(),
            header_branch: Area::empty_spec(),
            footer_branch: Area::empty_spec(),
            footer_sync: Area::empty_spec(),
        }
    }

    pub fn nowhere() -> (res: ClickZones)
        ensures
            res == ClickZones::nowhere_spec(),
    {
        ClickZones {
            activity_row: 0,
            explorer: (0, 0),
            search: (0, 0),
            source_control: (0, 0),
            gear: Area::empty(),
            message: Area::empty(),
            sparkle: Area::empty(),
            button: Area::empty(),
            sync: Area::empty(),
            header_branch: Area::empty(),
            footer_branch: Area::empty(),
            footer_sync: Area::empty(),
        }
    }
}

impl App {
    /// The panel on freshly discovered repositories, with what was saved of an
    /// earlier one: its drawers, its active repository, its drafts. The row that
    /// was selected is found once git has reported.
    pub fn new(
        repos: Vec<Repo>,
        keys: &Vec<String>,
        saved: &ScmState,
        width: u16,
        merged: bool,
        in_pane: bool,
    ) -> (res: App)
        requires
            forall|r: int| 0 <= r < repos@.len() ==> (#[trigger] repos@[r]).wf(),
            keys@.len() == repos@.len(),
        ensures
            res.wf(),
            res.panel.opened_from(repos@, keys@, *saved),
            res.panel.selected is None,
            res.panel.scroll == 0,
            res.panel.width == width,
            !res.panel.snap,
            res.focus == Focus::List,
            res.flash is None,
            res.overlay is None,
            res.hovered is None,
            res.mouse_pos is None,
            res.body == (BodyGeom { top: 0, height: 0, offset: 0 }),
            res.zones == ClickZones::nowhere_spec(),
            res.title_zones@.len() == 0,
            res.last_click is None,
            res.last_preview is None,
            res.page == 20,
            res.height == 24,
            res.merged == merged,
            res.in_pane == in_pane,
            res.syncing is None,
            !res.suggesting,
    {
        let mut panel: Panel = Panel::new(repos, width);
        panel.restore(keys, saved);
        panel.relist();
        App {
            panel,
            focus: Focus::List,
            flash: None,
            overlay: None,
            hovered: None,
            mouse_pos: None,
            body: BodyGeom::default(),
            zones: ClickZones::nowhere(),
            title_zones: Vec::new(),
            last_click: None,
            last_preview: None,
            page: 20,
            height: 24,
            merged,
            in_pane,
            syncing: None,
            suggesting: false,
        }
    }
}

} // verus!
