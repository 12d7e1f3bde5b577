//! The header rows of the list: their buttons, where those lie, and what the
//! footer says about them.

use vstd::prelude::*;

use crate::columns::{columns, text_width};
use crate::geometry::{in_zone, within};
use crate::git::Status;
use crate::scm_app::rows::Repo;
use crate::text::{decimal, push_decimal};

verus! {

/// The action icons at the right edge of a repository's row.
pub const REPO_HEADER_ACTIONS: &'static str = " ⇅  ✓ ";

/// Columns that one hover action takes.
pub const ACTION_WIDTH: u16 = 3;

/// Columns that the name of a hovered file keeps.
pub const MIN_FILE_CONTENT: u16 = 8;

// ---- Synchronising ----

/// The glyph before the sync label.
pub fn sync_glyph(syncing: bool) -> (res: &'static str)
    ensures
        res@ == "⟳"@,
{
    "⟳"
}

/// With nothing to commit and commits to exchange, the main button syncs.
pub open spec fn primary_is_sync(status: Status) -> bool {
    status.clean() && status.has_upstream && status.diverged()
}

pub fn sync_is_primary(status: &Status) -> (res: bool)
    ensures
        res == primary_is_sync(*status),
{
    status.is_clean() && status.has_upstream && status.is_diverged()
}

/// The counts of a label: outgoing and incoming commits, zero counts left out.
pub open spec fn sync_counts(ahead: nat, behind: nat) -> Seq<char> {
    if ahead > 0 && behind > 0 {
        decimal(ahead) + "↑"@ + " "@ + decimal(behind) + "↓"@
    } else if ahead > 0 {
        decimal(ahead) + "↑"@
    } else {
        decimal(behind) + "↓"@
    }
}

/// The Sync Changes label; `None` where there is nothing to sync.
pub open spec fn sync_label_spec(status: Status, syncing: bool) -> Option<Seq<char>> {
    if syncing {
        Some("⟳"@ + " Syncing…"@)
    } else if !status.has_upstream || !status.diverged() {
        None
    } else {
        Some("⟳ Sync Changes "@ + sync_counts(status.ahead as nat, status.behind as nat))
    }
}

pub fn sync_label_for_status(status: &Status, syncing: bool) -> (res: Option<String>)
    ensures
        match res {
            Some(label) => sync_label_spec(*status, syncing) == Some(label@),
            None => sync_label_spec(*status, syncing) is None,
        },
{
    if syncing {
        let mut label: String = sync_glyph(true).to_owned();
        label.append(" Syncing…");
        return Some(label);
    }
    if !status.has_upstream || !status.is_diverged() {
        return None;
    }
    let mut label: String = "⟳ Sync Changes ".to_owned();
    if status.ahead > 0 {
        push_decimal(&mut label, status.ahead as usize);
        label.append("↑");
    }
    if status.ahead > 0 && status.behind > 0 {
        label.append(" ");
    }
    if status.behind > 0 {
        push_decimal(&mut label, status.behind as usize);
        label.append("↓");
    }
    assert(label@ =~= "⟳ Sync Changes "@ + sync_counts(status.ahead as nat, status.behind as nat));
    Some(label)
}

/// Whenever the main button syncs there is a label for it.
pub proof fn law_primary_sync_has_a_label(status: Status, syncing: bool)
    requires
        primary_is_sync(status),
    ensures
        sync_label_spec(status, syncing) is Some,
{
}

/// The ahead and behind counts as a header shows them: both, or nothing.
pub open spec fn header_counts(status: Status) -> Seq<char> {
    if status.diverged() {
        " "@ + decimal(status.ahead as nat) + "↑ "@ + decimal(status.behind as nat) + "↓"@
    } else {
        Seq::empty()
    }
}

pub fn append_header_counts(out: &mut String, status: &Status)
    ensures
        final(out)@ == old(out)@ + header_counts(*status),
{
    if status.is_diverged() {
        out.append(" ");
        push_decimal(out, status.ahead as usize);
        out.append("↑ ");
        push_decimal(out, status.behind as usize);
        out.append("↓");
    }
    assert(out@ =~= old(out)@ + header_counts(*status));
}

// ---- The row of a repository ----

/// The sync and the commit zone at the right edge, each half of the icons;
/// both empty where the icons do not fit.
pub open spec fn action_zones(width: u16, actions_width: u16) -> ((u16, u16), (u16, u16)) {
    if width < actions_width {
        ((0, 0), (0, 0))
    } else {
        let start = (width - actions_width) as u16;
        let midpoint = (start + actions_width / 2) as u16;
        ((start, midpoint), (midpoint, width))
    }
}

pub fn zones_for(width: u16, actions_width: u16) -> (res: ((u16, u16), (u16, u16)))
    ensures
        res == action_zones(width, actions_width),
{
    if width < actions_width {
        return ((0, 0), (0, 0));
    }
    let start: u16 = width - actions_width;
    let midpoint: u16 = start + actions_width / 2;
    ((start, midpoint), (midpoint, width))
}

pub fn repo_header_action_zones(width: u16) -> (res: ((u16, u16), (u16, u16)))
    ensures
        res == action_zones(width, columns(REPO_HEADER_ACTIONS@) as u16),
{
    let actions_width: u16 = text_width(REPO_HEADER_ACTIONS) as u16;
    zones_for(width, actions_width)
}

/// The two action zones of a repository's row never overlap, and lie in the row.
pub proof fn law_action_zones_are_disjoint(width: u16, actions_width: u16, x: u16)
    ensures
        ({
            let (sync, commit) = action_zones(width, actions_width);
            &&& !(in_zone(x, sync) && in_zone(x, commit))
            &&& in_zone(x, sync) || in_zone(x, commit) ==> x < width
        }),
{
}

/// The branch text of a repository's row.
pub open spec fn branch_text_spec(icon: Seq<char>, repo: Repo) -> Seq<char> {
    icon + " "@ + repo.branch_decor_spec() + header_counts(repo.status)
}

pub fn branch_text(icon: &str, repo: &Repo) -> (res: String)
    ensures
        res@ == branch_text_spec(icon@, *repo),
{
    let mut out: String = icon.to_owned();
    out.append(" ");
    out.append(repo.branch_decor().as_str());
    append_header_counts(&mut out, &repo.status);
    out
}

/// How the columns of a repository's row are shared: what the name and the
/// branch have, and of that the branch's part, at most half of it.
pub open spec fn header_split(width: nat, icons: nat, branch: nat) -> (nat, nat) {
    let content = if width >= icons {
        (width - icons) as nat
    } else {
        width
    };
    (content, if branch <= content / 2 {
        branch
    } else {
        content / 2
    })
}

pub fn split_header(width: usize, icons: usize, branch: usize) -> (res: (usize, usize))
    ensures
        (res.0 as nat, res.1 as nat) == header_split(width as nat, icons as nat, branch as nat),
        res.1 <= res.0 <= width,
{
    let content: usize = if width >= icons {
        width - icons
    } else {
        width
    };
    let half: usize = content / 2;
    (content, if branch <= half {
        branch
    } else {
        half
    })
}

/// The columns of the branch text in a repository's row.
pub open spec fn branch_zone(width: u16, icons: nat, branch: nat) -> (u16, u16) {
    let (content, part) = header_split(width as nat, icons, branch);
    ((content - part) as u16, content as u16)
}

pub fn repo_header_branch_zone(repo: &Repo, icon: &str, width: u16) -> (res: (u16, u16))
    ensures
        res == branch_zone(
            width,
            columns(REPO_HEADER_ACTIONS@) as nat,
            columns(branch_text_spec(icon@, *repo)) as nat,
        ),
{
    let icons: usize = text_width(REPO_HEADER_ACTIONS);
    let branch: usize = text_width(branch_text(icon, repo).as_str());
    let (content, part): (usize, usize) = split_header(width as usize, icons, branch);
    ((content - part) as u16, content as u16)
}

/// A click on the branch text of a repository's row is no click on its icons.
pub proof fn law_branch_zone_is_left_of_the_actions(width: u16, icons: u16, branch: nat, x: u16)
    requires
        in_zone(x, branch_zone(width, icons as nat, branch)),
    ensures
        !in_zone(x, action_zones(width, icons).0),
        !in_zone(x, action_zones(width, icons).1),
{
}

// ---- The Changes header ----

#[derive(Clone, Copy, PartialEq, Eq, Structural, Debug)]
pub enum ChangesHeaderAction {
    Discard,
    Stash,
    Stage,
}

impl ChangesHeaderAction {
    pub open spec fn hint(self) -> Seq<char> {
        match self {
            ChangesHeaderAction::Discard => "↶ Discard All Changes"@,
            ChangesHeaderAction::Stash => "⇩ Stash Changes"@,
            ChangesHeaderAction::Stage => "+ Stage All Changes"@,
        }
    }

    pub fn footer_hint(self) -> (res: &'static str)
        ensures
            res@ == self.hint(),
    {
        match self {
            ChangesHeaderAction::Discard => "↶ Discard All Changes",
            ChangesHeaderAction::Stash => "⇩ Stash Changes",
            ChangesHeaderAction::Stage => "+ Stage All Changes",
        }
    }

    pub open spec fn glyph_spec(self) -> Seq<char> {
        match self {
            ChangesHeaderAction::Discard => "↶"@,
            ChangesHeaderAction::Stash => "⇩"@,
            ChangesHeaderAction::Stage => "+"@,
        }
    }

    pub fn glyph(self) -> (res: &'static str)
        ensures
            res@ == self.glyph_spec(),
    {
        match self {
            ChangesHeaderAction::Discard => "↶",
            ChangesHeaderAction::Stash => "⇩",
            ChangesHeaderAction::Stage => "+",
        }
    }
}

/// The badge that shows a count.
pub open spec fn badge_spec(count: nat) -> Seq<char> {
    " "@ + decimal(count) + " "@
}

pub fn badge_text(count: usize) -> (res: String)
    ensures
        res@ == badge_spec(count as nat),
{
    let mut out: String = " ".to_owned();
    push_decimal(&mut out, count);
    out.append(" ");
    out
}

/// The first column of the three actions of the Changes header, which stand
/// before the badge and the margin; `None` where they do not fit behind the
/// title and a gap.
pub open spec fn changes_start(width: u16, title: u16, badge: u16) -> Option<u16> {
    if width < title + 1 + 3 * ACTION_WIDTH + badge + 1 {
        None
    } else {
        Some((width - badge - 1 - 3 * ACTION_WIDTH) as u16)
    }
}

pub open spec fn changes_zones(start: u16) -> Seq<(ChangesHeaderAction, (u16, u16))> {
    seq![
        (ChangesHeaderAction::Discard, (start, (start + ACTION_WIDTH) as u16)),
        (
            ChangesHeaderAction::Stash,
            ((start + ACTION_WIDTH) as u16, (start + 2 * ACTION_WIDTH) as u16),
        ),
        (
            ChangesHeaderAction::Stage,
            ((start + 2 * ACTION_WIDTH) as u16, (start + 3 * ACTION_WIDTH) as u16),
        ),
    ]
}

pub fn changes_zones_for(width: u16, title: u16, badge: u16) -> (res: Option<
    [(ChangesHeaderAction, (u16, u16)); 3],
>)
    ensures
        match res {
            Some(zones) => changes_start(width, title, badge) matches Some(start) && zones@
                == changes_zones(start) && start + 3 * ACTION_WIDTH < width,
            None => changes_start(width, title, badge) is None,
        },
{
    let needed: u32 = title as u32 + badge as u32 + 11;
    if (width as u32) < needed {
        return None;
    }
    let start: u16 = width - badge - 10;
    let zones: [(ChangesHeaderAction, (u16, u16)); 3] = [
        (ChangesHeaderAction::Discard, (start, start + ACTION_WIDTH)),
        (ChangesHeaderAction::Stash, (start + ACTION_WIDTH, start + 2 * ACTION_WIDTH)),
        (ChangesHeaderAction::Stage, (start + 2 * ACTION_WIDTH, start + 3 * ACTION_WIDTH)),
    ];
    assert(zones@ =~= changes_zones(start));
    Some(zones)
}

/// The three actions of a hovered Changes header with their columns; `None`
/// where the pane is too narrow for them.
pub fn changes_header_action_zones(width: u16, count: usize) -> (res: Option<
    [(ChangesHeaderAction, (u16, u16)); 3],
>)
    ensures
        ({
            let title = columns(" ▾ Changes"@) as u16;
            let badge = columns(badge_spec(count as nat)) as u16;
            match res {
                Some(zones) => changes_start(width, title, badge) matches Some(start) && zones@
                    == changes_zones(start) && start + 3 * ACTION_WIDTH < width,
                None => changes_start(width, title, badge) is None,
            }
        }),
{
    let title: u16 = text_width(" ▾ Changes") as u16;
    let badge: u16 = text_width(badge_text(count).as_str()) as u16;
    changes_zones_for(width, title, badge)
}

/// The action whose columns hold `x`, when the actions start at `start`.
pub open spec fn changes_action_at(x: u16, start: Option<u16>) -> Option<ChangesHeaderAction> {
    match start {
        None => None,
        Some(start) => if x < start {
            None
        } else if x < start + ACTION_WIDTH {
            Some(ChangesHeaderAction::Discard)
        } else if x < start + 2 * ACTION_WIDTH {
            Some(ChangesHeaderAction::Stash)
        } else if x < start + 3 * ACTION_WIDTH {
            Some(ChangesHeaderAction::Stage)
        } else {
            None
        },
    }
}

pub fn changes_header_action_at(x: u16, width: u16, count: usize) -> (res: Option<
    ChangesHeaderAction,
>)
    ensures
        res == changes_action_at(
            x,
            changes_start(
                width,
                columns(" ▾ Changes"@) as u16,
                columns(badge_spec(count as nat)) as u16,
            ),
        ),
{
    match changes_header_action_zones(width, count) {
        None => None,
        Some(zones) => {
            if within(x, zones[0].1) {
                Some(zones[0].0)
            } else if within(x, zones[1].1) {
                Some(zones[1].0)
            } else if within(x, zones[2].1) {
                Some(zones[2].0)
            } else {
                None
            }
        },
    }
}

/// The action at a column is the one whose zone holds that column.
pub proof fn law_changes_actions_match_their_zones(x: u16, start: u16, i: int)
    requires
        0 <= i < 3,
        start + 3 * ACTION_WIDTH <= u16::MAX,
    ensures
        in_zone(x, changes_zones(start)[i].1) <==> changes_action_at(x, Some(start)) == Some(
            changes_zones(start)[i].0,
        ),
{
}

// ---- Hovered files ----

#[derive(Clone, Copy, PartialEq, Eq, Structural, Debug)]
pub enum FileHoverAction {
    Open,
    Discard,
    Stage,
    Unstage,
}

impl FileHoverAction {
    pub open spec fn glyph_spec(self) -> Seq<char> {
        match self {
            FileHoverAction::Open => "↗"@,
            FileHoverAction::Discard => "↶"@,
            FileHoverAction::Stage => "+"@,
            FileHoverAction::Unstage => "−"@,
        }
    }

    pub fn glyph(self) -> (res: &'static str)
        ensures
            res@ == self.glyph_spec(),
    {
        match self {
            FileHoverAction::Open => "↗",
            FileHoverAction::Discard => "↶",
            FileHoverAction::Stage => "+",
            FileHoverAction::Unstage => "−",
        }
    }

    pub open spec fn hint(self) -> Seq<char> {
        match self {
            FileHoverAction::Open => "↗ Open Changes"@,
            FileHoverAction::Discard => "↶ Discard Changes"@,
            FileHoverAction::Stage => "+ Stage Changes"@,
            FileHoverAction::Unstage => "− Unstage Changes"@,
        }
    }

    pub fn footer_hint(self) -> (res: &'static str)
        ensures
            res@ == self.hint(),
    {
        match self {
            FileHoverAction::Open => "↗ Open Changes",
            FileHoverAction::Discard => "↶ Discard Changes",
            FileHoverAction::Stage => "+ Stage Changes",
            FileHoverAction::Unstage => "− Unstage Changes",
        }
    }
}

/// The actions of a hovered file, from left to right.
pub open spec fn hover_actions(staged: bool) -> Seq<FileHoverAction> {
    if staged {
        seq![FileHoverAction::Open, FileHoverAction::Unstage]
    } else {
        seq![FileHoverAction::Open, FileHoverAction::Discard, FileHoverAction::Stage]
    }
}

pub fn file_hover_actions(staged: bool) -> (res: Vec<FileHoverAction>)
    ensures
        res@ == hover_actions(staged),
{
    if staged {
        let res: Vec<FileHoverAction> = vec![FileHoverAction::Open, FileHoverAction::Unstage];
        assert(res@ =~= hover_actions(staged));
        res
    } else {
        let res: Vec<FileHoverAction> = vec![
            FileHoverAction::Open,
            FileHoverAction::Discard,
            FileHoverAction::Stage,
        ];
        assert(res@ =~= hover_actions(staged));
        res
    }
}

/// The first column of a hovered file's actions, which stand before the status
/// letter and the margin; `None` where they would leave the name too little.
pub open spec fn hover_start(width: u16, staged: bool) -> Option<u16> {
    let actions = hover_actions(staged).len() * ACTION_WIDTH;
    if width >= MIN_FILE_CONTENT + actions + 2 {
        Some((width - actions - 2) as u16)
    } else {
        None
    }
}

pub fn file_hover_action_start(width: u16, staged: bool) -> (res: Option<u16>)
    ensures
        res == hover_start(width, staged),
{
    let actions: u16 = if staged {
        2 * ACTION_WIDTH
    } else {
        3 * ACTION_WIDTH
    };
    if width >= MIN_FILE_CONTENT + actions + 2 {
        Some(width - actions - 2)
    } else {
        None
    }
}

/// The action of a hovered file at column `x`.
pub open spec fn hover_action_at(x: u16, width: u16, staged: bool) -> Option<FileHoverAction> {
    match hover_start(width, staged) {
        None => None,
        Some(start) => {
            let index = (x - start) / 3;
            if x >= start && index < hover_actions(staged).len() {
                Some(hover_actions(staged)[index])
            } else {
                None
            }
        },
    }
}

pub fn file_hover_action_at(x: u16, width: u16, staged: bool) -> (res: Option<FileHoverAction>)
    ensures
        res == hover_action_at(x, width, staged),
{
    match file_hover_action_start(width, staged) {
        None => None,
        Some(start) => {
            if x < start {
                return None;
            }
            let index: usize = ((x - start) / ACTION_WIDTH) as usize;
            let actions: Vec<FileHoverAction> = file_hover_actions(staged);
            if index < actions.len() {
                Some(actions[index])
            } else {
                None
            }
        },
    }
}

/// A staged file is never offered to be staged or discarded, an unstaged one
/// never to be unstaged.
pub proof fn law_hover_actions_fit_the_file(x: u16, width: u16, staged: bool)
    ensures
        hover_action_at(x, width, staged) matches Some(action) ==> (if staged {
            action != FileHoverAction::Stage && action != FileHoverAction::Discard
        } else {
            action != FileHoverAction::Unstage
        }),
{
}

// ---- Drafts ----

pub open spec fn any_draft(messages: Seq<&[char]>) -> bool {
    exists|i: int| 0 <= i < messages.len() && (#[trigger] messages[i])@.len() > 0
}

/// Whether any of the commit messages is begun.
pub fn commit_draft_present(messages: &[&[char]]) -> (res: bool)
    ensures
        res == any_draft(messages@),
{
    let mut i: usize = 0;
    while i < messages.len()
        invariant
            i <= messages@.len(),
            forall|k: int| 0 <= k < i ==> (#[trigger] messages@[k])@.len() == 0,
        decreases messages@.len() - i,
    {
        if messages[i].len() > 0 {
            assert(messages@[i as int]@.len() > 0);
            return true;
        }
        i += 1;
    }
    false
}

} // verus!
