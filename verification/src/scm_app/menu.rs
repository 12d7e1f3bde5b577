//! The context menus of the Source Control panel, and what their entries do.

use vstd::prelude::*;

use crate::menu_nav::{step_over, stepped};
use crate::scm_app::drawer::{drawer_spec, spec_of, DrawerRef, RefView};
use crate::text::string_views;

verus! {

/// Context-menu actions for file rows and drawer lines.
#[derive(Clone, Copy, PartialEq, Eq, Structural, Debug)]
pub enum MenuAction {
    OpenDiff,
    StageOrUnstage,
    Discard,
    CopyPath,
    CopyRelativePath,
    OpenExternal,
    Reveal,
    // Drawer-line actions (commits, branches, stashes, remotes, tags).
    ShowRef,
    Checkout,
    MergeInto,
    DeleteBranch,
    CherryPick,
    Revert,
    ResetHere,
    StashApply,
    StashPop,
    StashDrop,
    FetchRemote,
    CopyRef,
    DeleteTag,
    RemoveWorktree,
}

#[derive(Clone, Copy, PartialEq, Eq, Debug)]
pub enum MenuEntry {
    Action(MenuAction, &'static str),
    Separator,
}

/// What a `MenuEntry` holds.
pub enum EntryView {
    Action(MenuAction, Seq<char>),
    Separator,
}

impl View for MenuEntry {
    type V = EntryView;

    open spec fn view(&self) -> EntryView {
        match *self {
            MenuEntry::Action(action, label) => EntryView::Action(action, label@),
            MenuEntry::Separator => EntryView::Separator,
        }
    }
}

pub open spec fn entry_views(entries: Seq<MenuEntry>) -> Seq<EntryView> {
    entries.map(|i: int, e: MenuEntry| e@)
}

pub open spec fn action_flags(entries: Seq<MenuEntry>) -> Seq<bool> {
    entries.map(|i: int, e: MenuEntry| e is Action)
}

/// Next selectable (non-separator) menu index in `direction`, staying put at
/// the ends.
pub fn step_menu(entries: &[MenuEntry], from: usize, direction: isize) -> (res: usize)
    requires
        direction != 0,
    ensures
        res == stepped(action_flags(entries@), from as int, direction as int),
{
    let mut flags: Vec<bool> = Vec::new();
    let mut i: usize = 0;
    while i < entries.len()
        invariant
            i <= entries@.len(),
            flags@.len() == i,
            forall|k: int| 0 <= k < i ==> flags@[k] == (entries@[k] is Action),
        decreases entries@.len() - i,
    {
        flags.push(matches!(entries[i], MenuEntry::Action(..)));
        i += 1;
    }
    assert(flags@ =~= action_flags(entries@));
    step_over(&flags, from, direction)
}

/// The menu of a changed file. A deleted file has nothing left on disk to hand
/// to another program, and only unstaged changes can be discarded.
pub open spec fn file_menu(letter: char, staged: bool) -> Seq<EntryView> {
    seq![EntryView::Action(MenuAction::OpenDiff, "Open Diff"@)] + (if letter != 'D' {
        seq![EntryView::Action(MenuAction::OpenExternal, "Open with Default App"@)]
    } else {
        Seq::empty()
    }) + seq![
        EntryView::Action(
            MenuAction::StageOrUnstage,
            if staged {
                "Unstage Changes"@
            } else {
                "Stage Changes"@
            },
        ),
    ] + (if !staged {
        seq![EntryView::Action(MenuAction::Discard, "Discard Changes…"@)]
    } else {
        Seq::empty()
    }) + seq![
        EntryView::Separator,
        EntryView::Action(MenuAction::CopyPath, "Copy Path"@),
        EntryView::Action(MenuAction::CopyRelativePath, "Copy Relative Path"@),
        EntryView::Separator,
        EntryView::Action(MenuAction::Reveal, "Reveal in File Explorer"@),
    ]
}

pub fn file_menu_entries(letter: char, staged: bool) -> (res: Vec<MenuEntry>)
    ensures
        entry_views(res@) == file_menu(letter, staged),
{
    let mut entries: Vec<MenuEntry> = vec![MenuEntry::Action(MenuAction::OpenDiff, "Open Diff")];
    if letter != 'D' {
        entries.push(MenuEntry::Action(MenuAction::OpenExternal, "Open with Default App"));
    }
    entries.push(
        MenuEntry::Action(
            MenuAction::StageOrUnstage,
            if staged {
                "Unstage Changes"
            } else {
                "Stage Changes"
            },
        ),
    );
    if !staged {
        entries.push(MenuEntry::Action(MenuAction::Discard, "Discard Changes…"));
    }
    entries.push(MenuEntry::Separator);
    entries.push(MenuEntry::Action(MenuAction::CopyPath, "Copy Path"));
    entries.push(MenuEntry::Action(MenuAction::CopyRelativePath, "Copy Relative Path"));
    entries.push(MenuEntry::Separator);
    entries.push(MenuEntry::Action(MenuAction::Reveal, "Reveal in File Explorer"));
    assert(entry_views(entries@) =~= file_menu(letter, staged));
    entries
}

/// The menu of a commit, branch, stash, remote, tag or worktree.
pub open spec fn drawer_menu(r: RefView) -> Seq<EntryView> {
    match r {
        RefView::Nothing => Seq::empty(),
        RefView::Commit(_) => seq![
            EntryView::Action(MenuAction::ShowRef, "Show Changes"@),
            EntryView::Separator,
            EntryView::Action(MenuAction::Checkout, "Checkout (Detached)"@),
            EntryView::Action(MenuAction::CherryPick, "Cherry-Pick"@),
            EntryView::Action(MenuAction::Revert, "Revert"@),
            EntryView::Action(MenuAction::ResetHere, "Reset Current Branch Here…"@),
            EntryView::Separator,
            EntryView::Action(MenuAction::CopyRef, "Copy Hash"@),
        ],
        RefView::Branch { current, .. } => if current {
            seq![
                EntryView::Action(MenuAction::ShowRef, "Show Tip Commit"@),
                EntryView::Action(MenuAction::CopyRef, "Copy Branch Name"@),
            ]
        } else {
            seq![
                EntryView::Action(MenuAction::Checkout, "Checkout Branch"@),
                EntryView::Action(MenuAction::MergeInto, "Merge into Current Branch"@),
                EntryView::Separator,
                EntryView::Action(MenuAction::DeleteBranch, "Delete Branch…"@),
                EntryView::Separator,
                EntryView::Action(MenuAction::CopyRef, "Copy Branch Name"@),
            ]
        },
        RefView::Stash(_) => seq![
            EntryView::Action(MenuAction::ShowRef, "Show Changes"@),
            EntryView::Separator,
            EntryView::Action(MenuAction::StashApply, "Apply Stash"@),
            EntryView::Action(MenuAction::StashPop, "Pop Stash"@),
            EntryView::Separator,
            EntryView::Action(MenuAction::StashDrop, "Drop Stash…"@),
        ],
        RefView::Remote { .. } => seq![
            EntryView::Action(MenuAction::FetchRemote, "Fetch"@),
            EntryView::Action(MenuAction::CopyRef, "Copy URL"@),
        ],
        RefView::Tag(_) => seq![
            EntryView::Action(MenuAction::ShowRef, "Show Changes"@),
            EntryView::Action(MenuAction::Checkout, "Checkout Tag"@),
            EntryView::Separator,
            EntryView::Action(MenuAction::DeleteTag, "Delete Tag…"@),
            EntryView::Separator,
            EntryView::Action(MenuAction::CopyRef, "Copy Tag Name"@),
        ],
        RefView::Worktree(_) => seq![
            EntryView::Action(MenuAction::Reveal, "Reveal in File Explorer"@),
            EntryView::Action(MenuAction::CopyRef, "Copy Path"@),
            EntryView::Separator,
            EntryView::Action(MenuAction::RemoveWorktree, "Remove Worktree…"@),
        ],
    }
}

/// The context menu for a commit / branch / stash / remote / tag / worktree;
/// empty for a line that points at nothing.
pub fn drawer_menu_entries(dref: &DrawerRef) -> (res: Vec<MenuEntry>)
    ensures
        entry_views(res@) == drawer_menu(dref@),
{
    let entries: Vec<MenuEntry> = match dref {
        DrawerRef::Nothing => Vec::new(),
        DrawerRef::Commit(_) => vec![
            MenuEntry::Action(MenuAction::ShowRef, "Show Changes"),
            MenuEntry::Separator,
            MenuEntry::Action(MenuAction::Checkout, "Checkout (Detached)"),
            MenuEntry::Action(MenuAction::CherryPick, "Cherry-Pick"),
            MenuEntry::Action(MenuAction::Revert, "Revert"),
            MenuEntry::Action(MenuAction::ResetHere, "Reset Current Branch Here…"),
            MenuEntry::Separator,
            MenuEntry::Action(MenuAction::CopyRef, "Copy Hash"),
        ],
        DrawerRef::Branch { current, .. } => if *current {
            vec![
                MenuEntry::Action(MenuAction::ShowRef, "Show Tip Commit"),
                MenuEntry::Action(MenuAction::CopyRef, "Copy Branch Name"),
            ]
        } else {
            vec![
                MenuEntry::Action(MenuAction::Checkout, "Checkout Branch"),
                MenuEntry::Action(MenuAction::MergeInto, "Merge into Current Branch"),
                MenuEntry::Separator,
                MenuEntry::Action(MenuAction::DeleteBranch, "Delete Branch…"),
                MenuEntry::Separator,
                MenuEntry::Action(MenuAction::CopyRef, "Copy Branch Name"),
            ]
        },
        DrawerRef::Stash(_) => vec![
            MenuEntry::Action(MenuAction::ShowRef, "Show Changes"),
            MenuEntry::Separator,
            MenuEntry::Action(MenuAction::StashApply, "Apply Stash"),
            MenuEntry::Action(MenuAction::StashPop, "Pop Stash"),
            MenuEntry::Separator,
            MenuEntry::Action(MenuAction::StashDrop, "Drop Stash…"),
        ],
        DrawerRef::Remote { .. } => vec![
            MenuEntry::Action(MenuAction::FetchRemote, "Fetch"),
            MenuEntry::Action(MenuAction::CopyRef, "Copy URL"),
        ],
        DrawerRef::Tag(_) => vec![
            MenuEntry::Action(MenuAction::ShowRef, "Show Changes"),
            MenuEntry::Action(MenuAction::Checkout, "Checkout Tag"),
            MenuEntry::Separator,
            MenuEntry::Action(MenuAction::DeleteTag, "Delete Tag…"),
            MenuEntry::Separator,
            MenuEntry::Action(MenuAction::CopyRef, "Copy Tag Name"),
        ],
        DrawerRef::Worktree(_) => vec![
            MenuEntry::Action(MenuAction::Reveal, "Reveal in File Explorer"),
            MenuEntry::Action(MenuAction::CopyRef, "Copy Path"),
            MenuEntry::Separator,
            MenuEntry::Action(MenuAction::RemoveWorktree, "Remove Worktree…"),
        ],
    };
    assert(entry_views(entries@) =~= drawer_menu(dref@));
    entries
}

/// What an action on a drawer line asks for.
pub enum DrawerCommand {
    /// The action has no meaning for this line.
    Ignore,
    /// Show the reference in the preview.
    Show,
    /// Reveal this folder in the system's file manager.
    Reveal(String),
    /// Put this text on the clipboard.
    Copy(String),
    /// Run git with these arguments.
    Run(Vec<String>),
    /// Ask first, then run git with these arguments.
    Confirm { prompt: String, args: Vec<String> },
}

/// What a `DrawerCommand` holds.
pub enum DrawerCommandView {
    Ignore,
    Show,
    Reveal(Seq<char>),
    Copy(Seq<char>),
    Run(Seq<Seq<char>>),
    Confirm { prompt: Seq<char>, args: Seq<Seq<char>> },
}

impl View for DrawerCommand {
    type V = DrawerCommandView;

    open spec fn view(&self) -> DrawerCommandView {
        match *self {
            DrawerCommand::Ignore => DrawerCommandView::Ignore,
            DrawerCommand::Show => DrawerCommandView::Show,
            DrawerCommand::Reveal(p) => DrawerCommandView::Reveal(p@),
            DrawerCommand::Copy(t) => DrawerCommandView::Copy(t@),
            DrawerCommand::Run(args) => DrawerCommandView::Run(string_views(args@)),
            DrawerCommand::Confirm { prompt, args } => DrawerCommandView::Confirm {
                prompt: prompt@,
                args: string_views(args@),
            },
        }
    }
}

/// What `action` does to the reference `r`. Commands that lose work ask first.
pub open spec fn drawer_command(action: MenuAction, r: RefView) -> DrawerCommandView {
    match spec_of(r) {
        None => DrawerCommandView::Ignore,
        Some(spec) => match action {
            MenuAction::ShowRef => DrawerCommandView::Show,
            MenuAction::Reveal => DrawerCommandView::Reveal(spec),
            MenuAction::CopyRef => match r {
                RefView::Remote { url, .. } => if url.len() > 0 {
                    DrawerCommandView::Copy(url)
                } else {
                    DrawerCommandView::Copy(spec)
                },
                _ => DrawerCommandView::Copy(spec),
            },
            MenuAction::Checkout => DrawerCommandView::Run(seq!["checkout"@, spec]),
            MenuAction::MergeInto => DrawerCommandView::Run(seq!["merge"@, "--no-edit"@, spec]),
            MenuAction::CherryPick => DrawerCommandView::Run(seq!["cherry-pick"@, spec]),
            MenuAction::Revert => DrawerCommandView::Run(seq!["revert"@, "--no-edit"@, spec]),
            MenuAction::StashApply => DrawerCommandView::Run(seq!["stash"@, "apply"@, spec]),
            MenuAction::StashPop => DrawerCommandView::Run(seq!["stash"@, "pop"@, spec]),
            MenuAction::FetchRemote => DrawerCommandView::Run(seq!["fetch"@, spec]),
            MenuAction::RemoveWorktree => DrawerCommandView::Confirm {
                prompt: "Remove worktree '"@ + spec + "'? (y/N)"@,
                args: seq!["worktree"@, "remove"@, spec],
            },
            MenuAction::ResetHere => DrawerCommandView::Confirm {
                prompt: "Reset current branch to "@ + spec + " (mixed)? (y/N)"@,
                args: seq!["reset"@, "--mixed"@, spec],
            },
            MenuAction::DeleteBranch => DrawerCommandView::Confirm {
                prompt: "Delete branch '"@ + spec + "'? (y/N)"@,
                args: seq!["branch"@, "-D"@, spec],
            },
            MenuAction::StashDrop => DrawerCommandView::Confirm {
                prompt: "Drop "@ + spec + "? (y/N)"@,
                args: seq!["stash"@, "drop"@, spec],
            },
            MenuAction::DeleteTag => DrawerCommandView::Confirm {
                prompt: "Delete tag '"@ + spec + "'? (y/N)"@,
                args: seq!["tag"@, "-d"@, spec],
            },
            _ => DrawerCommandView::Ignore,
        },
    }
}

fn joined(before: &str, spec: &String, after: &str) -> (res: String)
    ensures
        res@ == before@ + spec@ + after@,
{
    let mut out: String = before.to_owned();
    out.append(spec.as_str());
    out.append(after);
    out
}

fn args2(first: &str, spec: String) -> (res: Vec<String>)
    ensures
        string_views(res@) == seq![first@, spec@],
{
    let res: Vec<String> = vec![first.to_owned(), spec];
    assert(string_views(res@) =~= seq![first@, spec@]);
    res
}

fn args3(first: &str, second: &str, spec: String) -> (res: Vec<String>)
    ensures
        string_views(res@) == seq![first@, second@, spec@],
{
    let res: Vec<String> = vec![first.to_owned(), second.to_owned(), spec];
    assert(string_views(res@) =~= seq![first@, second@, spec@]);
    res
}

/// What a menu action on a drawer line asks for.
pub fn drawer_menu_action(action: MenuAction, dref: &DrawerRef) -> (res: DrawerCommand)
    ensures
        res@ == drawer_command(action, dref@),
{
    let spec: String = match drawer_spec(dref) {
        Some(spec) => spec,
        None => {
            return DrawerCommand::Ignore;
        },
    };
    match action {
        MenuAction::ShowRef => DrawerCommand::Show,
        MenuAction::Reveal => DrawerCommand::Reveal(spec),
        MenuAction::CopyRef => match dref {
            DrawerRef::Remote { url, .. } => if !url.as_str().is_empty() {
                DrawerCommand::Copy(url.clone())
            } else {
                DrawerCommand::Copy(spec)
            },
            _ => DrawerCommand::Copy(spec),
        },
        MenuAction::Checkout => DrawerCommand::Run(args2("checkout", spec)),
        MenuAction::MergeInto => DrawerCommand::Run(args3("merge", "--no-edit", spec)),
        MenuAction::CherryPick => DrawerCommand::Run(args2("cherry-pick", spec)),
        MenuAction::Revert => DrawerCommand::Run(args3("revert", "--no-edit", spec)),
        MenuAction::StashApply => DrawerCommand::Run(args3("stash", "apply", spec)),
        MenuAction::StashPop => DrawerCommand::Run(args3("stash", "pop", spec)),
        MenuAction::FetchRemote => DrawerCommand::Run(args2("fetch", spec)),
        MenuAction::RemoveWorktree => DrawerCommand::Confirm {
            prompt: joined("Remove worktree '", &spec, "'? (y/N)"),
            args: args3("worktree", "remove", spec),
        },
        MenuAction::ResetHere => DrawerCommand::Confirm {
            prompt: joined("Reset current branch to ", &spec, " (mixed)? (y/N)"),
            args: args3("reset", "--mixed", spec),
        },
        MenuAction::DeleteBranch => DrawerCommand::Confirm {
            prompt: joined("Delete branch '", &spec, "'? (y/N)"),
            args: args3("branch", "-D", spec),
        },
        MenuAction::StashDrop => DrawerCommand::Confirm {
            prompt: joined("Drop ", &spec, "? (y/N)"),
            args: args3("stash", "drop", spec),
        },
        MenuAction::DeleteTag => DrawerCommand::Confirm {
            prompt: joined("Delete tag '", &spec, "'? (y/N)"),
            args: args3("tag", "-d", spec),
        },
        _ => DrawerCommand::Ignore,
    }
}

/// The actions that throw work away.
pub open spec fn is_destructive(action: MenuAction) -> bool {
    ||| action == MenuAction::RemoveWorktree
    ||| action == MenuAction::ResetHere
    ||| action == MenuAction::DeleteBranch
    ||| action == MenuAction::StashDrop
    ||| action == MenuAction::DeleteTag
}

/// A destructive action on a drawer line runs nothing by itself: it asks.
pub proof fn law_destructive_actions_ask_first(action: MenuAction, r: RefView)
    requires
        is_destructive(action),
    ensures
        !(r is Nothing) ==> drawer_command(action, r) is Confirm,
        r is Nothing ==> drawer_command(action, r) is Ignore,
{
}

/// Every entry of a drawer line's menu does something.
pub proof fn law_drawer_menus_offer_no_dead_entries(r: RefView, i: int)
    requires
        0 <= i < drawer_menu(r).len(),
    ensures
        drawer_menu(r)[i] matches EntryView::Action(action, _) ==> !(drawer_command(
            action,
            r,
        ) is Ignore),
{
}

} // verus!
