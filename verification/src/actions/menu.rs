//! Which entries the file menu offers, and which names it accepts.

use crate::text::{slice_to_string, to_chars, trim, trim_bounds};
use vstd::prelude::*;

verus! {

#[derive(Clone, Copy, PartialEq, Eq, Structural, Debug)]
pub enum MenuAction {
    NewFile,
    NewFolder,
    CopyPath,
    CopyRelativePath,
    Rename,
    Delete,
    /// Stage the target in its repository.
    Stage,
    OpenExternal,
    Reveal,
    ChangeFolder,
    ChangeFolderTyped,
}

#[derive(Clone, Copy, Debug)]
pub enum MenuEntry {
    Action(MenuAction, &'static str),
    Separator,
}

/// An action and its label, or `None` for a separator.
pub open spec fn entry(e: MenuEntry) -> Option<(MenuAction, Seq<char>)> {
    match e {
        MenuEntry::Action(action, label) => Some((action, label@)),
        MenuEntry::Separator => None,
    }
}

pub open spec fn entry_views(entries: Seq<MenuEntry>) -> Seq<Option<(MenuAction, Seq<char>)>> {
    entries.map(|i: int, e: MenuEntry| entry(e))
}

/// The entries for a file (`Some(false)`), a folder (`Some(true)`) or empty
/// space (`None`), which stands for the root.
pub open spec fn offered(target: Option<bool>, in_repo: bool) -> Seq<
    Option<(MenuAction, Seq<char>)>,
> {
    seq![
        Some((MenuAction::NewFile, "New File…"@)),
        Some((MenuAction::NewFolder, "New Folder…"@)),
    ] + (if target == Some(false) {
        seq![None, Some((MenuAction::OpenExternal, "Open with Default App"@))]
    } else {
        Seq::empty()
    }) + (if target is Some && in_repo {
        seq![None, Some((MenuAction::Stage, "Stage Changes"@))]
    } else {
        Seq::empty()
    }) + (if target is Some {
        seq![
            None,
            Some((MenuAction::CopyPath, "Copy Path"@)),
            Some((MenuAction::CopyRelativePath, "Copy Relative Path"@)),
            None,
            Some((MenuAction::Rename, "Rename…"@)),
            Some((MenuAction::Delete, "Delete"@)),
        ]
    } else {
        Seq::empty()
    }) + seq![
        None,
        Some((MenuAction::Reveal, "Reveal in File Explorer"@)),
        None,
        Some((MenuAction::ChangeFolder, "Change Folder…"@)),
        Some((MenuAction::ChangeFolderTyped, "Change Folder (Type Path)…"@)),
    ]
}

/// The file menu of a row, or of empty space. What can be opened from outside is
/// a file, and what can be staged lies in a repository.
pub fn menu_entries(target: Option<bool>, in_repo: bool) -> (res: Vec<MenuEntry>)
    ensures
        entry_views(res@) == offered(target, in_repo),
{
    let mut entries: Vec<MenuEntry> = Vec::new();
    entries.push(MenuEntry::Action(MenuAction::NewFile, "New File…"));
    entries.push(MenuEntry::Action(MenuAction::NewFolder, "New Folder…"));
    let is_file: bool = match target {
        Some(is_dir) => !is_dir,
        None => false,
    };
    if is_file {
        entries.push(MenuEntry::Separator);
        entries.push(MenuEntry::Action(MenuAction::OpenExternal, "Open with Default App"));
    }
    if target.is_some() && in_repo {
        entries.push(MenuEntry::Separator);
        entries.push(MenuEntry::Action(MenuAction::Stage, "Stage Changes"));
    }
    if target.is_some() {
        entries.push(MenuEntry::Separator);
        entries.push(MenuEntry::Action(MenuAction::CopyPath, "Copy Path"));
        entries.push(MenuEntry::Action(MenuAction::CopyRelativePath, "Copy Relative Path"));
        entries.push(MenuEntry::Separator);
        entries.push(MenuEntry::Action(MenuAction::Rename, "Rename…"));
        entries.push(MenuEntry::Action(MenuAction::Delete, "Delete"));
    }
    entries.push(MenuEntry::Separator);
    entries.push(MenuEntry::Action(MenuAction::Reveal, "Reveal in File Explorer"));
    entries.push(MenuEntry::Separator);
    entries.push(MenuEntry::Action(MenuAction::ChangeFolder, "Change Folder…"));
    entries.push(MenuEntry::Action(MenuAction::ChangeFolderTyped, "Change Folder (Type Path)…"));
    assert(entry_views(entries@) =~= offered(target, in_repo));
    entries
}

/// Whether a menu holds an action.
pub open spec fn offers(
    entries: Seq<Option<(MenuAction, Seq<char>)>>,
    action: MenuAction,
) -> bool {
    exists|i: int|
        0 <= i < entries.len() && (#[trigger] entries[i] matches Some(e) && e.0 == action)
}

/// What needs a file is offered for files only, what needs a repository inside
/// one only, and what needs a row on rows only; the rest is always there.
pub proof fn law_menus_offer_what_can_be_done(target: Option<bool>, in_repo: bool)
    ensures
        ({
            let menu = offered(target, in_repo);
            &&& offers(menu, MenuAction::OpenExternal) <==> target == Some(false)
            &&& offers(menu, MenuAction::Stage) <==> target is Some && in_repo
            &&& offers(menu, MenuAction::Rename) <==> target is Some
            &&& offers(menu, MenuAction::Delete) <==> target is Some
            &&& offers(menu, MenuAction::CopyPath) <==> target is Some
            &&& offers(menu, MenuAction::CopyRelativePath) <==> target is Some
            &&& offers(menu, MenuAction::NewFile)
            &&& offers(menu, MenuAction::NewFolder)
            &&& offers(menu, MenuAction::Reveal)
            &&& offers(menu, MenuAction::ChangeFolder)
            &&& offers(menu, MenuAction::ChangeFolderTyped)
        }),
{
    let menu = offered(target, in_repo);
    let n = menu.len() as int;
    assert(menu[0] == Some((MenuAction::NewFile, "New File…"@)));
    assert(menu[1] == Some((MenuAction::NewFolder, "New Folder…"@)));
    assert(menu[n - 4] == Some((MenuAction::Reveal, "Reveal in File Explorer"@)));
    assert(menu[n - 2] == Some((MenuAction::ChangeFolder, "Change Folder…"@)));
    assert(menu[n - 1] == Some((MenuAction::ChangeFolderTyped, "Change Folder (Type Path)…"@)));
    if target is Some {
        assert(menu[n - 6] == Some((MenuAction::Delete, "Delete"@)));
        assert(menu[n - 7] == Some((MenuAction::Rename, "Rename…"@)));
        assert(menu[n - 9] == Some((MenuAction::CopyRelativePath, "Copy Relative Path"@)));
        assert(menu[n - 10] == Some((MenuAction::CopyPath, "Copy Path"@)));
        if in_repo {
            assert(menu[n - 12] == Some((MenuAction::Stage, "Stage Changes"@)));
        }
        if target == Some(false) {
            assert(menu[3] == Some((MenuAction::OpenExternal, "Open with Default App"@)));
        }
    }
}

/// A menu starts and ends with an action, and no two separators meet.
pub proof fn law_separators_stand_between_actions(target: Option<bool>, in_repo: bool)
    ensures
        ({
            let menu = offered(target, in_repo);
            &&& menu.first() is Some
            &&& menu.last() is Some
            &&& forall|i: int|
                0 < i < menu.len() && #[trigger] menu[i] is None ==> menu[i - 1] is Some
        }),
{
}

// ---- Names ----

pub open spec fn is_name_char(c: char) -> bool {
    c != '/' && c != '\\' && c != ':'
}

/// A name, as opposed to a path: not empty, without separators or colons, and
/// not one of the two names that stand for folders.
pub open spec fn is_name(name: Seq<char>) -> bool {
    &&& name.len() > 0
    &&& forall|i: int| 0 <= i < name.len() ==> is_name_char(#[trigger] name[i])
    &&& name != "."@
    &&& name != ".."@
}

/// The name that was typed, without white space around it; `None` where it is
/// no name.
pub open spec fn valid_name(input: Seq<char>) -> Option<Seq<char>> {
    if is_name(trim(input)) {
        Some(trim(input))
    } else {
        None
    }
}

pub fn validate_name(input: &str) -> (res: Option<String>)
    ensures
        crate::json::opt_text(res) == valid_name(input@),
{
    let chars: Vec<char> = to_chars(input);
    let (from, to): (usize, usize) = trim_bounds(chars.as_slice());
    if from >= to {
        return None;
    }
    let ghost name: Seq<char> = trim(input@);
    let mut i: usize = from;
    while i < to
        invariant
            from <= i <= to <= chars@.len(),
            name == chars@.subrange(from as int, to as int),
            name == trim(input@),
            forall|k: int| 0 <= k < i - from ==> is_name_char(#[trigger] name[k]),
        decreases to - i,
    {
        let c: char = chars[i];
        assert(c == name[i - from]);
        if c == '/' || c == '\\' || c == ':' {
            assert(!is_name_char(name[i - from]));
            return None;
        }
        i += 1;
    }
    let text: String = slice_to_string(chars.as_slice(), from, to);
    if crate::text::str_eq(text.as_str(), ".") || crate::text::str_eq(text.as_str(), "..") {
        return None;
    }
    Some(text)
}

/// What is said of a name that is taken.
pub fn taken_message(name: &str) -> (res: String)
    ensures
        res@ == name@ + " already exists"@,
{
    let mut out: String = name.to_owned();
    out.append(" already exists");
    out
}

} // verus!
