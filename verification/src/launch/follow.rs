//! Following the folder that the panes beside the sidebar work in.

use crate::json::opt_text;
use crate::launch::panes::{
    find, find_id, flag_safe, has_id, is_flag_safe, is_plugin_pane, is_text, lemma_find,
    listed_panes, pane_views, plain_path, read_panes, same_text, strip_verbatim, Pane, PaneView,
};
use crate::ranking::{
    goes_before, lemma_text_order_is_transitive, lemma_texts_are_ordered, text_before,
};
use crate::text::{str_eq, to_chars};
use vstd::prelude::*;

verus! {

/// A pane beside the sidebar, with the folder it works in.
#[derive(Debug)]
pub struct SiblingCwd {
    pub pane_id: String,
    pub cwd: String,
    pub focused: bool,
}

/// What a `SiblingCwd` holds.
#[verifier::ext_equal]
pub struct SiblingView {
    pub pane_id: Seq<char>,
    pub cwd: Seq<char>,
    pub focused: bool,
}

impl View for SiblingCwd {
    type V = SiblingView;

    open spec fn view(&self) -> SiblingView {
        SiblingView { pane_id: self.pane_id@, cwd: self.cwd@, focused: self.focused }
    }
}

pub open spec fn sibling_views(siblings: Seq<SiblingCwd>) -> Seq<SiblingView> {
    siblings.map(|i: int, s: SiblingCwd| s@)
}

// ---- The panes beside the sidebar ----

/// The sibling that a pane is to the pane `my_id` in `tab`: one of the user's
/// own, in the same tab, whose process reports the folder it works in.
pub open spec fn sibling(
    pane: PaneView,
    tab: Option<Seq<char>>,
    my_id: Seq<char>,
) -> Option<SiblingView> {
    if pane.tab_id == tab && pane.pane_id != Some(my_id) && !is_plugin_pane(pane) {
        match (pane.pane_id, pane.foreground_cwd) {
            (Some(id), Some(cwd)) => if flag_safe(id) && plain_path(cwd).len() > 0 {
                Some(SiblingView { pane_id: id, cwd: plain_path(cwd), focused: pane.focused })
            } else {
                None
            },
            _ => None,
        }
    } else {
        None
    }
}

/// How many of the first `n` have an id that does not come after `id`, counted
/// from the start without a gap.
pub open spec fn place_for(list: Seq<SiblingView>, id: Seq<char>, n: int) -> int
    decreases n,
{
    if 0 < n <= list.len() && text_before(id, list[n - 1].pane_id) {
        place_for(list, id, n - 1)
    } else {
        n
    }
}

/// One more sibling, behind those whose ids do not come after its own.
pub open spec fn placed(list: Seq<SiblingView>, one: SiblingView) -> Seq<SiblingView> {
    list.insert(place_for(list, one.pane_id, list.len() as int), one)
}

/// The siblings among the first `n` panes, in the order of their ids.
pub open spec fn siblings_of(
    panes: Seq<PaneView>,
    tab: Option<Seq<char>>,
    my_id: Seq<char>,
    n: int,
) -> Seq<SiblingView>
    decreases n,
{
    if n <= 0 {
        Seq::empty()
    } else {
        let before = siblings_of(panes, tab, my_id, n - 1);
        match sibling(panes[n - 1], tab, my_id) {
            Some(one) => placed(before, one),
            None => before,
        }
    }
}

/// The siblings of the pane `my_id`; none where there is no such pane.
pub open spec fn siblings(panes: Seq<PaneView>, my_id: Seq<char>) -> Seq<SiblingView> {
    match find(panes, has_id(my_id), 0) {
        Some(me) => siblings_of(panes, panes[me].tab_id, my_id, panes.len() as int),
        None => Seq::empty(),
    }
}

/// The ids never step back.
pub open spec fn ids_in_order(list: Seq<SiblingView>) -> bool {
    forall|i: int, j: int|
        0 <= i < j < list.len() ==> !text_before(
            (#[trigger] list[j]).pane_id,
            (#[trigger] list[i]).pane_id,
        )
}

proof fn lemma_place_for(list: Seq<SiblingView>, id: Seq<char>, n: int)
    requires
        0 <= n <= list.len(),
    ensures
        0 <= place_for(list, id, n) <= n,
        forall|k: int|
            place_for(list, id, n) <= k < n ==> text_before(id, (#[trigger] list[k]).pane_id),
        place_for(list, id, n) > 0 ==> !text_before(
            id,
            list[place_for(list, id, n) - 1].pane_id,
        ),
    decreases n,
{
    if 0 < n && text_before(id, list[n - 1].pane_id) {
        lemma_place_for(list, id, n - 1);
    }
}

proof fn lemma_placed_in_order(list: Seq<SiblingView>, one: SiblingView)
    requires
        ids_in_order(list),
    ensures
        ids_in_order(placed(list, one)),
{
    let at = place_for(list, one.pane_id, list.len() as int);
    lemma_place_for(list, one.pane_id, list.len() as int);
    let all = placed(list, one);
    assert forall|i: int, j: int| 0 <= i < j < all.len() implies !text_before(
        (#[trigger] all[j]).pane_id,
        (#[trigger] all[i]).pane_id,
    ) by {
        let x = if i < at {
            i
        } else {
            i - 1
        };
        let y = if j < at {
            j
        } else {
            j - 1
        };
        if i == at {
            // What stands behind comes after.
            assert(all[j] == list[y]);
            lemma_texts_are_ordered(one.pane_id, list[y].pane_id);
        } else if j == at {
            // What stands before does not come after: it is not after the last
            // one before, which is not after the new one.
            assert(all[i] == list[x]);
            if text_before(one.pane_id, list[x].pane_id) {
                let last = list[at - 1].pane_id;
                lemma_texts_are_ordered(list[x].pane_id, last);
                if list[x].pane_id != last {
                    assert(!text_before(last, list[x].pane_id) || x == at - 1);
                    lemma_text_order_is_transitive(one.pane_id, list[x].pane_id, last);
                }
            }
        } else {
            assert(all[i] == list[x]);
            assert(all[j] == list[y]);
        }
    }
}

/// The siblings stand in the order of their ids, whatever the order in which
/// the panes were reported.
pub proof fn law_siblings_are_in_order(
    panes: Seq<PaneView>,
    tab: Option<Seq<char>>,
    my_id: Seq<char>,
    n: int,
)
    ensures
        ids_in_order(siblings_of(panes, tab, my_id, n)),
    decreases n,
{
    if n > 0 {
        law_siblings_are_in_order(panes, tab, my_id, n - 1);
        match sibling(panes[n - 1], tab, my_id) {
            Some(one) => {
                lemma_placed_in_order(siblings_of(panes, tab, my_id, n - 1), one);
            },
            None => {},
        }
    }
}

fn read_sibling(pane: &Pane, tab: &Option<String>, my_id: &str) -> (res: Option<SiblingCwd>)
    ensures
        match res {
            Some(one) => sibling(pane@, opt_text(*tab), my_id@) == Some(one@),
            None => sibling(pane@, opt_text(*tab), my_id@) is None,
        },
{
    if !same_text(&pane.tab_id, tab) || is_text(&pane.pane_id, my_id) || pane.is_plugin_pane() {
        return None;
    }
    match (&pane.pane_id, &pane.foreground_cwd) {
        (Some(id), Some(cwd)) => {
            let folder: String = strip_verbatim(cwd.as_str());
            if is_flag_safe(id.as_str()) && !folder.as_str().is_empty() {
                Some(SiblingCwd { pane_id: id.clone(), cwd: folder, focused: pane.focused })
            } else {
                None
            }
        },
        _ => None,
    }
}

fn place(list: &mut Vec<SiblingCwd>, one: SiblingCwd)
    ensures
        sibling_views(final(list)@) == placed(sibling_views(old(list)@), one@),
{
    let ghost before: Seq<SiblingView> = sibling_views(list@);
    let id: Vec<char> = to_chars(one.pane_id.as_str());
    let mut at: usize = list.len();
    while at > 0 && goes_before(id.as_slice(), to_chars(list[at - 1].pane_id.as_str()).as_slice())
        invariant
            at <= list@.len(),
            before == sibling_views(list@),
            id@ == one.pane_id@,
            place_for(before, one@.pane_id, at as int) == place_for(
                before,
                one@.pane_id,
                before.len() as int,
            ),
        decreases at,
    {
        assert(before[at - 1] == list@[at - 1]@);
        at -= 1;
    }
    proof {
        if at > 0 {
            assert(before[at - 1] == list@[at - 1]@);
        }
    }
    list.insert(at, one);
    assert(sibling_views(list@) =~= before.insert(at as int, one@));
}

/// The panes beside the pane `my_pane_id`, in the order of their ids.
pub fn siblings_among(panes: &[Pane], my_pane_id: &str) -> (res: Vec<SiblingCwd>)
    ensures
        sibling_views(res@) == siblings(pane_views(panes@), my_pane_id@),
{
    let ghost views: Seq<PaneView> = pane_views(panes@);
    let mut out: Vec<SiblingCwd> = Vec::new();
    assert(sibling_views(out@) =~= Seq::empty());
    match find_id(panes, my_pane_id) {
        None => out,
        Some(me) => {
            let tab: &Option<String> = &panes[me].tab_id;
            assert(views[me as int] == panes@[me as int]@);
            let mut i: usize = 0;
            while i < panes.len()
                invariant
                    i <= panes@.len(),
                    views == pane_views(panes@),
                    sibling_views(out@) == siblings_of(
                        views,
                        opt_text(*tab),
                        my_pane_id@,
                        i as int,
                    ),
                decreases panes@.len() - i,
            {
                assert(views[i as int] == panes@[i as int]@);
                match read_sibling(&panes[i], tab, my_pane_id) {
                    Some(one) => {
                        place(&mut out, one);
                    },
                    None => {},
                }
                i += 1;
            }
            out
        },
    }
}

// ---- The follower ----

/// The first sibling from the `i`th on that is focused.
pub open spec fn first_focused(list: Seq<SiblingView>, i: int) -> Option<int>
    decreases list.len() - i,
{
    if 0 <= i < list.len() {
        if list[i].focused {
            Some(i)
        } else {
            first_focused(list, i + 1)
        }
    } else {
        None
    }
}

/// The first sibling from the `i`th on with an id.
pub open spec fn first_with_id(list: Seq<SiblingView>, id: Option<Seq<char>>, i: int) -> Option<int>
    decreases list.len() - i,
{
    if 0 <= i < list.len() {
        if Some(list[i].pane_id) == id {
            Some(i)
        } else {
            first_with_id(list, id, i + 1)
        }
    } else {
        None
    }
}

/// The sibling to follow: the focused one, else the one followed before, else
/// the first.
pub open spec fn picked(list: Seq<SiblingView>, selected: Option<Seq<char>>) -> Option<int> {
    match (first_focused(list, 0), first_with_id(list, selected, 0)) {
        (Some(i), _) => Some(i),
        (None, Some(i)) => Some(i),
        (None, None) => if list.len() > 0 {
            Some(0)
        } else {
            None
        },
    }
}

/// What a follower knows.
#[verifier::ext_equal]
pub struct FollowerView {
    /// The folder of each sibling when it was last seen.
    pub seen: Map<Seq<char>, Seq<char>>,
    pub selected: Option<Seq<char>>,
    pub initialized: bool,
    /// The user has chosen a folder.
    pub manual_override: bool,
}

/// The folders of the first `n` siblings by their ids.
pub open spec fn folders(list: Seq<SiblingView>, n: int) -> Map<Seq<char>, Seq<char>>
    decreases n,
{
    if n <= 0 {
        Map::empty()
    } else {
        folders(list, n - 1).insert(list[n - 1].pane_id, list[n - 1].cwd)
    }
}

/// A sibling that was seen before in another folder.
pub open spec fn has_moved(seen: Map<Seq<char>, Seq<char>>, one: SiblingView) -> bool {
    seen.dom().contains(one.pane_id) && seen[one.pane_id] != one.cwd
}

/// The siblings among the first `n` that have moved.
pub open spec fn moved(
    seen: Map<Seq<char>, Seq<char>>,
    list: Seq<SiblingView>,
    n: int,
) -> Seq<SiblingView>
    decreases n,
{
    if n <= 0 {
        Seq::empty()
    } else if has_moved(seen, list[n - 1]) {
        moved(seen, list, n - 1).push(list[n - 1])
    } else {
        moved(seen, list, n - 1)
    }
}

/// The folder that the selected sibling was last seen in.
pub open spec fn last_folder(follower: FollowerView) -> Option<Seq<char>> {
    match follower.selected {
        Some(id) => if follower.seen.dom().contains(id) {
            Some(follower.seen[id])
        } else {
            None
        },
        None => None,
    }
}

/// The follower after it has seen siblings, and the folder to go to, if any.
/// After the user has chosen a folder it goes nowhere until a sibling that it
/// knows moves; else it goes where the picked sibling is, if that is another one
/// or somewhere else than before.
pub open spec fn followed(follower: FollowerView, list: Seq<SiblingView>) -> (
    FollowerView,
    Option<Seq<char>>,
) {
    let now = FollowerView {
        seen: folders(list, list.len() as int),
        initialized: true,
        ..follower
    };
    if follower.manual_override {
        let changed = moved(follower.seen, list, list.len() as int);
        match picked(changed, follower.selected) {
            Some(i) => if follower.initialized {
                (
                    FollowerView {
                        selected: Some(changed[i].pane_id),
                        manual_override: false,
                        ..now
                    },
                    Some(changed[i].cwd),
                )
            } else {
                (now, None)
            },
            None => (now, None),
        }
    } else {
        match picked(list, follower.selected) {
            Some(i) => (
                FollowerView { selected: Some(list[i].pane_id), ..now },
                if follower.selected != Some(list[i].pane_id) || last_folder(follower) != Some(
                    list[i].cwd,
                ) {
                    Some(list[i].cwd)
                } else {
                    None
                },
            ),
            None => (now, None),
        }
    }
}

/// Which folder the sidebar follows.
#[derive(Debug)]
pub struct CwdFollower {
    seen: Vec<SiblingCwd>,
    selected: Option<String>,
    initialized: bool,
    manual_override: bool,
}

impl View for CwdFollower {
    type V = FollowerView;

    closed spec fn view(&self) -> FollowerView {
        FollowerView {
            seen: folders(sibling_views(self.seen@), self.seen@.len() as int),
            selected: opt_text(self.selected),
            initialized: self.initialized,
            manual_override: self.manual_override,
        }
    }
}

pub open spec fn fresh_follower() -> FollowerView {
    FollowerView {
        seen: Map::empty(),
        selected: None,
        initialized: false,
        manual_override: false,
    }
}

impl Default for CwdFollower {
    fn default() -> (res: CwdFollower)
        ensures
            res@ == fresh_follower(),
    {
        let res: CwdFollower = CwdFollower {
            seen: Vec::new(),
            selected: None,
            initialized: false,
            manual_override: false,
        };
        assert(res@ =~= fresh_follower());
        res
    }
}

fn pick_sibling(list: &Vec<SiblingCwd>, selected: &Option<String>) -> (res: Option<usize>)
    ensures
        match res {
            Some(i) => i < list@.len() && picked(sibling_views(list@), opt_text(*selected)) == Some(
                i as int,
            ),
            None => picked(sibling_views(list@), opt_text(*selected)) is None,
        },
{
    let ghost views: Seq<SiblingView> = sibling_views(list@);
    let mut i: usize = 0;
    while i < list.len()
        invariant
            i <= list@.len(),
            views == sibling_views(list@),
            first_focused(views, i as int) == first_focused(views, 0),
        decreases list@.len() - i,
    {
        assert(views[i as int] == list@[i as int]@);
        if list[i].focused {
            return Some(i);
        }
        i += 1;
    }
    match selected {
        Some(id) => {
            let mut k: usize = 0;
            while k < list.len()
                invariant
                    k <= list@.len(),
                    views == sibling_views(list@),
                    first_focused(views, 0) is None,
                    first_with_id(views, Some(id@), k as int) == first_with_id(views, Some(id@), 0),
                    opt_text(*selected) == Some(id@),
                decreases list@.len() - k,
            {
                assert(views[k as int] == list@[k as int]@);
                if str_eq(list[k].pane_id.as_str(), id.as_str()) {
                    return Some(k);
                }
                k += 1;
            }
        },
        None => {
            proof {
                lemma_no_id(views, 0);
            }
        },
    }
    if list.len() > 0 {
        Some(0)
    } else {
        None
    }
}

proof fn lemma_no_id(list: Seq<SiblingView>, i: int)
    ensures
        first_with_id(list, None, i) is None,
    decreases list.len() - i,
{
    if 0 <= i < list.len() {
        lemma_no_id(list, i + 1);
    }
}

/// The folder that an id has in a list, of which the last entry counts.
fn folder_of(list: &Vec<SiblingCwd>, id: &str) -> (res: Option<usize>)
    ensures
        match res {
            Some(i) => i < list@.len() && folders(
                sibling_views(list@),
                list@.len() as int,
            ).dom().contains(id@) && folders(sibling_views(list@), list@.len() as int)[id@]
                == list@[i as int].cwd@,
            None => !folders(sibling_views(list@), list@.len() as int).dom().contains(id@),
        },
{
    let ghost views: Seq<SiblingView> = sibling_views(list@);
    let ghost all: Map<Seq<char>, Seq<char>> = folders(views, list@.len() as int);
    let mut i: usize = list.len();
    while i > 0
        invariant
            i <= list@.len(),
            views == sibling_views(list@),
            all == folders(views, list@.len() as int),
            all.dom().contains(id@) == folders(views, i as int).dom().contains(id@),
            all.dom().contains(id@) ==> all[id@] == folders(views, i as int)[id@],
        decreases i,
    {
        assert(views[i - 1] == list@[i - 1]@);
        if str_eq(list[i - 1].pane_id.as_str(), id) {
            return Some(i - 1);
        }
        i -= 1;
    }
    None
}

fn copy_sibling(one: &SiblingCwd) -> (res: SiblingCwd)
    ensures
        res@ == one@,
{
    SiblingCwd { pane_id: one.pane_id.clone(), cwd: one.cwd.clone(), focused: one.focused }
}

impl CwdFollower {
    /// Remember that the user has chosen a folder.
    pub fn mark_manual_folder(&mut self)
        ensures
            final(self)@ == (FollowerView { manual_override: true, ..old(self)@ }),
    {
        self.manual_override = true;
    }

    /// Start afresh.
    pub fn reset(&mut self)
        ensures
            final(self)@ == fresh_follower(),
    {
        *self = CwdFollower::default();
    }

    /// The siblings that were seen before in another folder.
    fn moved_siblings(&self, siblings: &Vec<SiblingCwd>) -> (res: Vec<SiblingCwd>)
        ensures
            sibling_views(res@) == moved(
                self@.seen,
                sibling_views(siblings@),
                siblings@.len() as int,
            ),
    {
        let ghost views: Seq<SiblingView> = sibling_views(siblings@);
        let mut out: Vec<SiblingCwd> = Vec::new();
        let mut i: usize = 0;
        assert(sibling_views(out@) =~= Seq::empty());
        while i < siblings.len()
            invariant
                i <= siblings@.len(),
                views == sibling_views(siblings@),
                sibling_views(out@) == moved(self@.seen, views, i as int),
            decreases siblings@.len() - i,
        {
            let one: &SiblingCwd = &siblings[i];
            assert(views[i as int] == one@);
            let ghost before: Seq<SiblingCwd> = out@;
            let is_elsewhere: bool = match folder_of(&self.seen, one.pane_id.as_str()) {
                Some(k) => !str_eq(self.seen[k].cwd.as_str(), one.cwd.as_str()),
                None => false,
            };
            assert(is_elsewhere == has_moved(self@.seen, one@));
            if is_elsewhere {
                out.push(copy_sibling(one));
                assert(sibling_views(out@) =~= sibling_views(before).push(one@));
            }
            i += 1;
        }
        out
    }

    /// Whether the sibling is another than before, or somewhere else.
    fn is_news(&self, one: &SiblingCwd) -> (res: bool)
        ensures
            res == (self@.selected != Some(one@.pane_id) || last_folder(self@) != Some(one@.cwd)),
    {
        match &self.selected {
            Some(id) => if str_eq(id.as_str(), one.pane_id.as_str()) {
                match folder_of(&self.seen, id.as_str()) {
                    Some(k) => !str_eq(self.seen[k].cwd.as_str(), one.cwd.as_str()),
                    None => true,
                }
            } else {
                true
            },
            None => true,
        }
    }

    /// Take note of where the siblings work, and say where to go, if anywhere.
    pub fn follow(&mut self, siblings: Vec<SiblingCwd>) -> (res: Option<String>)
        ensures
            (final(self)@, opt_text(res)) == followed(old(self)@, sibling_views(siblings@)),
    {
        let was_initialized: bool = self.initialized;
        let ghost before: FollowerView = self@;
        let ghost views: Seq<SiblingView> = sibling_views(siblings@);
        if self.manual_override {
            let changed: Vec<SiblingCwd> = self.moved_siblings(&siblings);
            let choice: Option<usize> = pick_sibling(&changed, &self.selected);
            self.initialized = true;
            self.seen = siblings;
            match choice {
                Some(i) => {
                    assert(sibling_views(changed@)[i as int] == changed@[i as int]@);
                    if was_initialized {
                        self.selected = Some(changed[i].pane_id.clone());
                        self.manual_override = false;
                        return Some(changed[i].cwd.clone());
                    }
                    None
                },
                None => None,
            }
        } else {
            match pick_sibling(&siblings, &self.selected) {
                Some(i) => {
                    assert(views[i as int] == siblings@[i as int]@);
                    let news: bool = self.is_news(&siblings[i]);
                    let cwd: String = siblings[i].cwd.clone();
                    self.selected = Some(siblings[i].pane_id.clone());
                    self.initialized = true;
                    self.seen = siblings;
                    if news {
                        Some(cwd)
                    } else {
                        None
                    }
                },
                None => {
                    self.initialized = true;
                    self.seen = siblings;
                    None
                },
            }
        }
    }

    /// Where to go after a `pane list` message, if anywhere. A message that
    /// cannot be read shows no siblings.
    pub fn next_cwd(&mut self, pane_list_json: &str, my_pane_id: &str) -> (res: Option<String>)
        ensures
            (final(self)@, opt_text(res)) == followed(
                old(self)@,
                match listed_panes(pane_list_json@) {
                    Some(panes) => siblings(panes, my_pane_id@),
                    None => Seq::empty(),
                },
            ),
    {
        let list: Vec<SiblingCwd> = match read_panes(pane_list_json) {
            Some(panes) => siblings_among(panes.as_slice(), my_pane_id),
            None => {
                let none: Vec<SiblingCwd> = Vec::new();
                assert(sibling_views(none@) =~= Seq::empty());
                none
            },
        };
        self.follow(list)
    }
}

// ---- The order of the panes ----

/// No two panes share an id.
pub open spec fn ids_are_unique(panes: Seq<PaneView>) -> bool {
    forall|i: int, j: int|
        0 <= i < j < panes.len() && (#[trigger] panes[i]).pane_id is Some ==> panes[i].pane_id != (
        #[trigger] panes[j]).pane_id
}

/// The same panes, in whatever order.
pub open spec fn same_panes(a: Seq<PaneView>, b: Seq<PaneView>) -> bool {
    forall|p: PaneView| #[trigger] a.contains(p) <==> b.contains(p)
}

/// A sibling that one of the first `n` panes is.
pub open spec fn is_sibling_among(
    panes: Seq<PaneView>,
    tab: Option<Seq<char>>,
    my_id: Seq<char>,
    n: int,
    one: SiblingView,
) -> bool {
    exists|k: int| 0 <= k < n && sibling(#[trigger] panes[k], tab, my_id) == Some(one)
}

/// Each id comes before those behind it.
pub open spec fn ids_step_up(list: Seq<SiblingView>) -> bool {
    forall|i: int, j: int|
        0 <= i < j < list.len() ==> text_before(
            (#[trigger] list[i]).pane_id,
            (#[trigger] list[j]).pane_id,
        )
}

proof fn lemma_siblings_of(
    panes: Seq<PaneView>,
    tab: Option<Seq<char>>,
    my_id: Seq<char>,
    n: int,
)
    requires
        0 <= n <= panes.len(),
        ids_are_unique(panes),
    ensures
        forall|one: SiblingView| #[trigger]
            siblings_of(panes, tab, my_id, n).contains(one) <==> is_sibling_among(
                panes,
                tab,
                my_id,
                n,
                one,
            ),
        ids_step_up(siblings_of(panes, tab, my_id, n)),
    decreases n,
{
    let all = siblings_of(panes, tab, my_id, n);
    if n > 0 {
        let before = siblings_of(panes, tab, my_id, n - 1);
        lemma_siblings_of(panes, tab, my_id, n - 1);
        assert forall|one: SiblingView| #[trigger] all.contains(one) <==> is_sibling_among(
            panes,
            tab,
            my_id,
            n,
            one,
        ) by {
            assert(before.contains(one) <==> is_sibling_among(panes, tab, my_id, n - 1, one));
            if let Some(last) = sibling(panes[n - 1], tab, my_id) {
                lemma_place_for(before, last.pane_id, before.len() as int);
                let at = place_for(before, last.pane_id, before.len() as int);
                assert(all[at] == last);
                if before.contains(one) {
                    let k = choose|k: int| 0 <= k < before.len() && before[k] == one;
                    assert(all[if k < at { k } else { k + 1 }] == one);
                }
                if all.contains(one) && one != last {
                    let k = choose|k: int| 0 <= k < all.len() && all[k] == one;
                    assert(before[if k < at { k } else { k - 1 }] == one);
                }
            }
        }
        if let Some(last) = sibling(panes[n - 1], tab, my_id) {
            lemma_place_for(before, last.pane_id, before.len() as int);
            assert forall|k: int| 0 <= k < before.len() implies (#[trigger] before[k]).pane_id
                != last.pane_id by {
                assert(before.contains(before[k]));
                let from = choose|m: int|
                    0 <= m < n - 1 && sibling(#[trigger] panes[m], tab, my_id) == Some(before[k]);
                assert(panes[from].pane_id != panes[n - 1].pane_id);
            }
            lemma_siblings_step_up(before, last);
        }
    }
}

proof fn lemma_siblings_step_up(list: Seq<SiblingView>, one: SiblingView)
    requires
        ids_step_up(list),
        forall|k: int| 0 <= k < list.len() ==> (#[trigger] list[k]).pane_id != one.pane_id,
    ensures
        ids_step_up(placed(list, one)),
{
    let at = place_for(list, one.pane_id, list.len() as int);
    lemma_place_for(list, one.pane_id, list.len() as int);
    let all = placed(list, one);
    assert forall|i: int, j: int| 0 <= i < j < all.len() implies text_before(
        (#[trigger] all[i]).pane_id,
        (#[trigger] all[j]).pane_id,
    ) by {
        if i == at {
            assert(all[j] == list[j - 1]);
        } else if j == at {
            assert(all[i] == list[i]);
            let last = list[at - 1];
            lemma_texts_are_ordered(one.pane_id, last.pane_id);
            assert(text_before(last.pane_id, one.pane_id));
            if i < at - 1 {
                lemma_text_order_is_transitive(list[i].pane_id, last.pane_id, one.pane_id);
            }
        } else {
            assert(all[i] == list[if i < at { i } else { i - 1 }]);
            assert(all[j] == list[if j < at { j } else { j - 1 }]);
        }
    }
}

/// A list that steps up is given by what it holds.
proof fn lemma_same_when_sorted(a: Seq<SiblingView>, b: Seq<SiblingView>)
    requires
        ids_step_up(a),
        ids_step_up(b),
        forall|one: SiblingView| #[trigger] a.contains(one) <==> b.contains(one),
    ensures
        a == b,
    decreases a.len(),
{
    if a.len() == 0 {
        if b.len() > 0 {
            assert(b.contains(b[0]));
            assert(a.contains(b[0]));
        }
        assert(a =~= b);
    } else {
        let x = a.last();
        assert(a.contains(x));
        assert(b.contains(x));
        let y = b.last();
        assert(b.contains(y));
        assert(a.contains(y));
        if x != y {
            let i = choose|i: int| 0 <= i < b.len() && b[i] == x;
            let j = choose|j: int| 0 <= j < a.len() && a[j] == y;
            assert(text_before(b[i].pane_id, b[b.len() - 1].pane_id));
            assert(text_before(a[j].pane_id, a[a.len() - 1].pane_id));
            lemma_texts_are_ordered(x.pane_id, y.pane_id);
            assert(false);
        }
        let (c, d) = (a.drop_last(), b.drop_last());
        assert forall|one: SiblingView| #[trigger] c.contains(one) <==> d.contains(one) by {
            if c.contains(one) {
                let i = choose|i: int| 0 <= i < c.len() && c[i] == one;
                assert(a[i] == one);
                assert(a.contains(one));
                let j = choose|j: int| 0 <= j < b.len() && b[j] == one;
                lemma_texts_are_ordered(a[i].pane_id, a[a.len() - 1].pane_id);
                assert(text_before(a[i].pane_id, a[a.len() - 1].pane_id));
                assert(j < d.len());
                assert(d[j] == one);
            }
            if d.contains(one) {
                let j = choose|j: int| 0 <= j < d.len() && d[j] == one;
                assert(b[j] == one);
                assert(b.contains(one));
                assert(a.contains(one));
                let i = choose|i: int| 0 <= i < a.len() && a[i] == one;
                lemma_texts_are_ordered(b[j].pane_id, b[b.len() - 1].pane_id);
                assert(text_before(b[j].pane_id, b[b.len() - 1].pane_id));
                assert(i < c.len());
                assert(c[i] == one);
            }
        }
        lemma_same_when_sorted(c, d);
        assert(a =~= c.push(x));
        assert(b =~= d.push(x));
    }
}

/// The order in which the panes are reported never matters: the same panes in
/// another order lead to the same folder and leave the same follower.
pub proof fn law_the_order_of_panes_never_matters(
    follower: FollowerView,
    a: Seq<PaneView>,
    b: Seq<PaneView>,
    my_id: Seq<char>,
)
    requires
        ids_are_unique(a),
        ids_are_unique(b),
        same_panes(a, b),
    ensures
        siblings(a, my_id) == siblings(b, my_id),
        followed(follower, siblings(a, my_id)) == followed(follower, siblings(b, my_id)),
{
    lemma_find(a, has_id(my_id), 0);
    lemma_find(b, has_id(my_id), 0);
    match (find(a, has_id(my_id), 0), find(b, has_id(my_id), 0)) {
        (Some(i), Some(j)) => {
            assert(a.contains(a[i]));
            assert(b.contains(a[i]));
            let k = choose|k: int| 0 <= k < b.len() && b[k] == a[i];
            assert(b[k].pane_id == b[j].pane_id);
            assert(k == j);
            let tab = a[i].tab_id;
            lemma_siblings_of(a, tab, my_id, a.len() as int);
            lemma_siblings_of(b, tab, my_id, b.len() as int);
            let (x, y) = (
                siblings_of(a, tab, my_id, a.len() as int),
                siblings_of(b, tab, my_id, b.len() as int),
            );
            assert forall|one: SiblingView| #[trigger] x.contains(one) <==> y.contains(one) by {
                if x.contains(one) {
                    let m = choose|m: int|
                        0 <= m < a.len() && sibling(#[trigger] a[m], tab, my_id) == Some(one);
                    assert(a.contains(a[m]));
                    assert(b.contains(a[m]));
                    let n = choose|n: int| 0 <= n < b.len() && b[n] == a[m];
                    assert(sibling(b[n], tab, my_id) == Some(one));
                    assert(y.contains(one) <==> is_sibling_among(
                        b,
                        tab,
                        my_id,
                        b.len() as int,
                        one,
                    ));
                }
                if y.contains(one) {
                    let m = choose|m: int|
                        0 <= m < b.len() && sibling(#[trigger] b[m], tab, my_id) == Some(one);
                    assert(b.contains(b[m]));
                    assert(a.contains(b[m]));
                    let n = choose|n: int| 0 <= n < a.len() && a[n] == b[m];
                    assert(sibling(a[n], tab, my_id) == Some(one));
                    assert(x.contains(one) <==> is_sibling_among(
                        a,
                        tab,
                        my_id,
                        a.len() as int,
                        one,
                    ));
                }
            }
            lemma_same_when_sorted(x, y);
        },
        (Some(i), None) => {
            assert(a.contains(a[i]));
            assert(b.contains(a[i]));
            let k = choose|k: int| 0 <= k < b.len() && b[k] == a[i];
            assert(!has_id(my_id)(b[k]));
        },
        (None, Some(j)) => {
            assert(b.contains(b[j]));
            assert(a.contains(b[j]));
            let k = choose|k: int| 0 <= k < a.len() && a[k] == b[j];
            assert(!has_id(my_id)(a[k]));
        },
        (None, None) => {},
    }
}

// ---- What following means ----

proof fn lemma_picked_in_range(list: Seq<SiblingView>, selected: Option<Seq<char>>)
    ensures
        picked(list, selected) matches Some(i) ==> 0 <= i < list.len(),
        list.len() > 0 ==> picked(list, selected) is Some,
{
    lemma_first_focused_in_range(list, 0);
    lemma_first_with_id_in_range(list, selected, 0);
}

proof fn lemma_first_focused_in_range(list: Seq<SiblingView>, i: int)
    ensures
        first_focused(list, i) matches Some(k) ==> 0 <= k < list.len() && list[k].focused,
    decreases list.len() - i,
{
    if 0 <= i < list.len() && !list[i].focused {
        lemma_first_focused_in_range(list, i + 1);
    }
}

proof fn lemma_first_with_id_in_range(list: Seq<SiblingView>, id: Option<Seq<char>>, i: int)
    ensures
        first_with_id(list, id, i) matches Some(k) ==> 0 <= k < list.len() && Some(list[k].pane_id)
            == id,
    decreases list.len() - i,
{
    if 0 <= i < list.len() && Some(list[i].pane_id) != id {
        lemma_first_with_id_in_range(list, id, i + 1);
    }
}

proof fn lemma_nothing_moved(seen: Map<Seq<char>, Seq<char>>, list: Seq<SiblingView>, n: int)
    requires
        0 <= n <= list.len(),
        forall|i: int| 0 <= i < list.len() ==> !has_moved(seen, #[trigger] list[i]),
    ensures
        moved(seen, list, n) =~= Seq::empty(),
    decreases n,
{
    if n > 0 {
        lemma_nothing_moved(seen, list, n - 1);
    }
}

/// Once the user has chosen a folder, neither a change of focus nor a new pane
/// leads elsewhere: only a pane that was seen before and has moved does.
pub proof fn law_a_chosen_folder_stays(follower: FollowerView, list: Seq<SiblingView>)
    requires
        follower.manual_override,
        forall|i: int| 0 <= i < list.len() ==> !has_moved(follower.seen, #[trigger] list[i]),
    ensures
        ({
            let (after, target) = followed(follower, list);
            &&& target is None
            &&& after.manual_override
            &&& after.selected == follower.selected
        }),
{
    lemma_nothing_moved(follower.seen, list, list.len() as int);
    lemma_first_focused_in_range(Seq::empty(), 0);
    lemma_first_with_id_in_range(Seq::empty(), follower.selected, 0);
}

/// A pane that was seen before and has moved leads away from a chosen folder:
/// the follower goes where such a pane is, and follows again from then on.
pub proof fn law_a_moving_pane_ends_the_choice(
    follower: FollowerView,
    list: Seq<SiblingView>,
    i: int,
)
    requires
        follower.manual_override,
        follower.initialized,
        0 <= i < list.len(),
        has_moved(follower.seen, list[i]),
    ensures
        ({
            let (after, target) = followed(follower, list);
            &&& target is Some
            &&& !after.manual_override
            &&& exists|k: int|
                0 <= k < list.len() && has_moved(follower.seen, #[trigger] list[k]) && target
                    == Some(list[k].cwd)
        }),
{
    let n = list.len() as int;
    let changed = moved(follower.seen, list, n);
    lemma_moved_are_found(follower.seen, list, n, i);
    lemma_picked_in_range(changed, follower.selected);
    lemma_moved_are_siblings(follower.seen, list, n, picked(changed, follower.selected)->0);
}

proof fn lemma_moved_are_found(
    seen: Map<Seq<char>, Seq<char>>,
    list: Seq<SiblingView>,
    n: int,
    i: int,
)
    requires
        0 <= i < n <= list.len(),
        has_moved(seen, list[i]),
    ensures
        moved(seen, list, n).len() > 0,
    decreases n,
{
    if i < n - 1 {
        lemma_moved_are_found(seen, list, n - 1, i);
    }
}

/// Where a follower goes, a sibling works.
pub proof fn law_followed_folders_are_siblings(follower: FollowerView, list: Seq<SiblingView>)
    ensures
        followed(follower, list).1 matches Some(cwd) ==> exists|i: int|
            0 <= i < list.len() && (#[trigger] list[i]).cwd == cwd,
{
    let changed = moved(follower.seen, list, list.len() as int);
    lemma_picked_in_range(list, follower.selected);
    lemma_picked_in_range(changed, follower.selected);
    if followed(follower, list).1 is Some && follower.manual_override {
        let i = picked(changed, follower.selected)->0;
        lemma_moved_are_siblings(follower.seen, list, list.len() as int, i);
    }
}

proof fn lemma_moved_are_siblings(
    seen: Map<Seq<char>, Seq<char>>,
    list: Seq<SiblingView>,
    n: int,
    i: int,
)
    requires
        0 <= n <= list.len(),
        0 <= i < moved(seen, list, n).len(),
    ensures
        exists|k: int|
            0 <= k < list.len() && has_moved(seen, #[trigger] list[k]) && moved(seen, list, n)[i]
                == list[k],
    decreases n,
{
    if n > 0 {
        let before = moved(seen, list, n - 1);
        if i < before.len() {
            lemma_moved_are_siblings(seen, list, n - 1, i);
        } else {
            assert(moved(seen, list, n)[i] == list[n - 1]);
        }
    }
}

/// No two siblings have one id.
pub open spec fn ids_differ(list: Seq<SiblingView>) -> bool {
    forall|i: int, j: int|
        0 <= i < j < list.len() ==> (#[trigger] list[i]).pane_id != (#[trigger] list[j]).pane_id
}

proof fn lemma_folders(list: Seq<SiblingView>, n: int, i: int)
    requires
        0 <= i < n <= list.len(),
        ids_differ(list),
    ensures
        folders(list, n).dom().contains(list[i].pane_id),
        folders(list, n)[list[i].pane_id] == list[i].cwd,
    decreases n,
{
    if i < n - 1 {
        lemma_folders(list, n - 1, i);
        assert(list[i].pane_id != list[n - 1].pane_id);
    }
}

/// A follower that goes after a pane that has moved, though another is focused.
pub open spec fn leaves_the_focus(follower: FollowerView, list: Seq<SiblingView>) -> bool {
    let first = followed(follower, list).0;
    &&& follower.manual_override && !first.manual_override
    &&& first_focused(list, 0) matches Some(k)
    &&& Some(list[k].pane_id) != first.selected
}

/// The same panes in the same folders lead nowhere the second time. Two panes
/// with one id are left out: of their two folders only one is remembered. So is
/// a follower that has just left a chosen folder after a pane that is not
/// focused while another is: next it goes to the focused one.
pub proof fn law_the_same_panes_lead_nowhere_twice(follower: FollowerView, list: Seq<SiblingView>)
    requires
        ids_differ(list),
        !leaves_the_focus(follower, list),
    ensures
        followed(followed(follower, list).0, list).1 is None,
{
    let first = followed(follower, list).0;
    let n = list.len() as int;
    assert(first.seen == folders(list, n));
    if first.manual_override {
        assert forall|i: int| 0 <= i < list.len() implies !has_moved(
            first.seen,
            #[trigger] list[i],
        ) by {
            lemma_folders(list, n, i);
        }
        law_a_chosen_folder_stays(first, list);
    } else {
        lemma_picked_in_range(list, first.selected);
        if list.len() > 0 {
            let i = picked(list, first.selected)->0;
            lemma_folders(list, n, i);
            lemma_same_choice(follower, list);
        }
    }
}

/// Asked again about the same siblings, a follower picks the one it has
/// selected.
proof fn lemma_same_choice(follower: FollowerView, list: Seq<SiblingView>)
    requires
        ids_differ(list),
        list.len() > 0,
        !followed(follower, list).0.manual_override,
        !leaves_the_focus(follower, list),
    ensures
        ({
            let first = followed(follower, list).0;
            picked(list, first.selected) matches Some(i) && first.selected == Some(
                list[i].pane_id,
            )
        }),
{
    let first = followed(follower, list).0;
    lemma_first_focused_in_range(list, 0);
    let i = if follower.manual_override {
        let changed = moved(follower.seen, list, list.len() as int);
        lemma_picked_in_range(changed, follower.selected);
        let c = picked(changed, follower.selected)->0;
        lemma_moved_are_siblings(follower.seen, list, list.len() as int, c);
        choose|k: int|
            0 <= k < list.len() && has_moved(follower.seen, #[trigger] list[k]) && changed[c]
                == list[k]
    } else {
        lemma_picked_in_range(list, follower.selected);
        picked(list, follower.selected)->0
    };
    assert(first.selected == Some(list[i].pane_id));
    if first_focused(list, 0) is None {
        lemma_id_is_found(list, i, 0);
    }
}

proof fn lemma_id_is_found(list: Seq<SiblingView>, at: int, i: int)
    requires
        ids_differ(list),
        0 <= i <= at < list.len(),
    ensures
        first_with_id(list, Some(list[at].pane_id), i) == Some(at),
    decreases at - i,
{
    if i < at {
        assert(list[i].pane_id != list[at].pane_id);
        lemma_id_is_found(list, at, i + 1);
    }
}

} // verus!
