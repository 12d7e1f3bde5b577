//! What the Source Control panel makes of how things outside of it went.

use crate::scm_app::app::{flash_is, App, Effect};
use crate::scm_app::snapshot::{has_draft, has_string, persisted_after_save, DocKey, ScmState};
use crate::text::{decimal, join, joined, push_decimal, string_views, text_pair, to_chars};
use vstd::prelude::*;

verus! {

/// A file whose changes were to be discarded, and git's complaint where it
/// failed.
pub struct Attempt {
    pub path: String,
    pub error: Option<String>,
}

/// What went wrong with the first `n` files, each complaint behind its path.
pub open spec fn complaints(attempts: Seq<Attempt>, n: int) -> Seq<Seq<char>>
    decreases n,
{
    if n <= 0 {
        Seq::empty()
    } else {
        let before = complaints(attempts, n - 1);
        match attempts[n - 1].error {
            Some(error) => before.push(attempts[n - 1].path@ + ": "@ + error@),
            None => before,
        }
    }
}

fn complaints_of(attempts: &Vec<Attempt>) -> (res: Vec<String>)
    ensures
        string_views(res@) == complaints(attempts@, attempts@.len() as int),
{
    let mut out: Vec<String> = Vec::new();
    let mut i: usize = 0;
    assert(string_views(out@) =~= complaints(attempts@, 0));
    while i < attempts.len()
        invariant
            i <= attempts@.len(),
            string_views(out@) == complaints(attempts@, i as int),
        decreases attempts@.len() - i,
    {
        let ghost before: Seq<String> = out@;
        if let Some(error) = &attempts[i].error {
            let head: String = text_pair(attempts[i].path.as_str(), ": ");
            let text: String = text_pair(head.as_str(), error.as_str());
            out.push(text);
            assert(string_views(out@) =~= string_views(before).push(text@));
        }
        i += 1;
    }
    out
}

/// A path of git with the separators of the platform.
pub open spec fn with_separators(path: Seq<char>, separator: char) -> Seq<char> {
    path.map(|i: int, c: char| if c == '/' { separator } else { c })
}

pub fn native_path(path: &str, separator: char) -> (res: String)
    ensures
        res@ == with_separators(path@, separator),
{
    let chars: Vec<char> = to_chars(path);
    let mut out: String = String::new();
    let mut i: usize = 0;
    while i < chars.len()
        invariant
            i <= chars@.len(),
            chars@ == path@,
            out@ == with_separators(path@, separator).take(i as int),
        decreases chars@.len() - i,
    {
        let c: char = chars[i];
        out.push(if c == '/' {
            separator
        } else {
            c
        });
        i += 1;
        assert(out@ =~= with_separators(path@, separator).take(i as int));
    }
    assert(out@ =~= with_separators(path@, separator));
    out
}

impl App {
    /// Nothing but the flash has changed.
    pub open spec fn flashed(&self, text: Seq<char>, error: bool, post: &App) -> bool {
        &&& *post == (App { flash: post.flash, ..*self })
        &&& flash_is(post.flash, text, error)
    }

    fn say(&mut self, text: String, error: bool)
        ensures
            old(self).flashed(text@, error, final(self)),
    {
        self.flash = Some((text, error));
    }

    // ---- Git ----

    /// How staging, or its contrary, went.
    pub open spec fn staged_rel(&self, outcome: Result<(), String>, post: &App) -> bool {
        match outcome {
            Ok(_) => *post == *self,
            Err(e) => self.flashed(e@, true, post),
        }
    }

    /// A file was staged or unstaged, or could not be.
    pub fn staged(&mut self, outcome: Result<(), String>)
        ensures
            old(self).staged_rel(outcome, final(self)),
    {
        if let Err(e) = outcome {
            self.say(e, true);
        }
    }

    /// How the loss of a file's changes is told.
    pub open spec fn discarded_rel(
        &self,
        path: Seq<char>,
        outcome: Result<(), String>,
        post: &App,
    ) -> bool {
        match outcome {
            Ok(_) => self.flashed("discarded "@ + path, false, post),
            Err(e) => self.flashed(e@, true, post),
        }
    }

    /// What happened to a discarded file.
    pub fn discarded(&mut self, path: &str, outcome: Result<(), String>)
        ensures
            old(self).discarded_rel(path@, outcome, final(self)),
    {
        match outcome {
            Ok(_) => self.say(text_pair("discarded ", path), false),
            Err(e) => self.say(e, true),
        }
    }

    /// What happened to all unstaged files: how many there were, or the
    /// complaints about those that could not be discarded. `None` where their
    /// repository is gone.
    pub open spec fn discarded_all_rel(
        &self,
        attempts: Option<Vec<Attempt>>,
        post: &App,
        out: Seq<Effect>,
    ) -> bool {
        match attempts {
            None => self.flashed("repository is gone"@, true, post) && out.len() == 0,
            Some(attempts) => {
                let errors = complaints(attempts@, attempts@.len() as int);
                &&& out == seq![Effect::Refresh]
                &&& if errors.len() == 0 {
                    self.flashed(
                        "discarded "@ + decimal(attempts@.len()) + " changes"@,
                        false,
                        post,
                    )
                } else {
                    self.flashed(joined(errors, "; "@, errors.len() as int), true, post)
                }
            },
        }
    }

    pub fn discarded_all(&mut self, attempts: Option<Vec<Attempt>>) -> (res: Vec<Effect>)
        ensures
            old(self).discarded_all_rel(attempts, final(self), res@),
    {
        match attempts {
            None => {
                self.say("repository is gone".to_owned(), true);
                Vec::new()
            },
            Some(attempts) => {
                let errors: Vec<String> = complaints_of(&attempts);
                assert(string_views(errors@).len() == errors@.len());
                if errors.len() == 0 {
                    let mut text: String = "discarded ".to_owned();
                    push_decimal(&mut text, attempts.len());
                    text.append(" changes");
                    self.say(text, false);
                } else {
                    self.say(join(&errors, "; "), true);
                }
                let out: Vec<Effect> = vec![Effect::Refresh];
                assert(out@ =~= seq![Effect::Refresh]);
                out
            },
        }
    }

    /// How a command of git went.
    pub open spec fn git_done_rel(
        &self,
        args: Seq<Seq<char>>,
        outcome: Result<(), String>,
        post: &App,
        out: Seq<Effect>,
    ) -> bool {
        &&& out == seq![Effect::Refresh]
        &&& match outcome {
            Ok(_) => self.flashed(
                "git "@ + joined(args, " "@, args.len() as int) + " ✓"@,
                false,
                post,
            ),
            Err(e) => self.flashed(e@, true, post),
        }
    }

    /// What happened to a git command; either way everything is read anew.
    pub fn git_done(&mut self, args: &Vec<String>, outcome: Result<(), String>) -> (res: Vec<
        Effect,
    >)
        ensures
            old(self).git_done_rel(string_views(args@), outcome, final(self), res@),
    {
        match outcome {
            Ok(_) => {
                let mut text: String = text_pair("git ", join(args, " ").as_str());
                text.append(" ✓");
                self.say(text, false);
            },
            Err(e) => self.say(e, true),
        }
        let out: Vec<Effect> = vec![Effect::Refresh];
        assert(out@ =~= seq![Effect::Refresh]);
        out
    }

    // ---- The branch picker ----

    pub fn picker_closed(&mut self)
        ensures
            *final(self) == (App { overlay: None, ..*old(self) }),
    {
        self.overlay = None;
    }

    /// How a change of branches went.
    pub open spec fn checked_out_rel(
        &self,
        branch: Seq<char>,
        outcome: Result<(), String>,
        post: &App,
        out: Seq<Effect>,
    ) -> bool {
        let closed = App { overlay: None, ..*self };
        match outcome {
            Ok(_) => closed.flashed("switched to "@ + branch, false, post) && out == seq![
                Effect::Refresh,
            ],
            Err(e) => closed.flashed(e@, true, post) && out.len() == 0,
        }
    }

    /// A branch was checked out, or could not be; the picker is gone either way.
    pub fn checked_out(&mut self, branch: &str, outcome: Result<(), String>) -> (res: Vec<Effect>)
        ensures
            old(self).checked_out_rel(branch@, outcome, final(self), res@),
    {
        self.overlay = None;
        match outcome {
            Ok(_) => {
                self.say(text_pair("switched to ", branch), false);
                let out: Vec<Effect> = vec![Effect::Refresh];
                assert(out@ =~= seq![Effect::Refresh]);
                out
            },
            Err(e) => {
                self.say(e, true);
                Vec::new()
            },
        }
    }

    // ---- Other programs ----

    /// How a copy to the clipboard went.
    pub open spec fn copied_rel(
        &self,
        text: Seq<char>,
        outcome: Result<(), String>,
        post: &App,
    ) -> bool {
        match outcome {
            Ok(_) => self.flashed("copied: "@ + text, false, post),
            Err(e) => self.flashed("copy failed: "@ + e@, true, post),
        }
    }

    pub fn copied(&mut self, text: &str, outcome: Result<(), String>)
        ensures
            old(self).copied_rel(text@, outcome, final(self)),
    {
        match outcome {
            Ok(_) => self.say(text_pair("copied: ", text), false),
            Err(e) => self.say(text_pair("copy failed: ", e.as_str()), true),
        }
    }

    /// How opening a file with its own application went.
    pub open spec fn opened_rel(
        &self,
        path: Seq<char>,
        outcome: Result<(), String>,
        post: &App,
    ) -> bool {
        match outcome {
            Ok(_) => self.flashed("opened: "@ + path, false, post),
            Err(e) => self.flashed("open failed: "@ + e@, true, post),
        }
    }

    /// A file was opened in its default application, or could not be.
    pub fn opened(&mut self, path: &str, outcome: Result<(), String>)
        ensures
            old(self).opened_rel(path@, outcome, final(self)),
    {
        match outcome {
            Ok(_) => self.say(text_pair("opened: ", path), false),
            Err(e) => self.say(text_pair("open failed: ", e.as_str()), true),
        }
    }

    /// How a preview went: it is remembered where it was shown.
    pub open spec fn previewed_rel(
        &self,
        document: DocKey,
        outcome: Result<(), String>,
        post: &App,
    ) -> bool {
        match outcome {
            Ok(_) => *post == (App { last_preview: Some(document), ..*self }),
            Err(e) => self.flashed(e@, true, post),
        }
    }

    /// A preview shows `document` now, or git or the pane refused.
    pub fn previewed(&mut self, document: DocKey, outcome: Result<(), String>)
        ensures
            old(self).previewed_rel(document, outcome, final(self)),
    {
        match outcome {
            Ok(_) => {
                self.last_preview = Some(document);
            },
            Err(e) => self.say(e, true),
        }
    }

    // ---- The folder ----

    /// Choosing another folder takes the system's dialog, once at a time; where
    /// there is none the Explorer asks for a path. Returns whether to open it.
    pub fn change_folder_dialog(&mut self, native: bool, picking: bool) -> (res: bool)
        ensures
            if !native {
                !res && old(self).flashed(
                    "no native picker here — use c in the Files view"@,
                    true,
                    final(self),
                )
            } else if picking {
                !res && *final(self) == *old(self)
            } else {
                res && old(self).flashed(
                    "folder picker open… (check your other windows)"@,
                    false,
                    final(self),
                )
            },
    {
        if !native {
            self.say("no native picker here — use c in the Files view".to_owned(), true);
            return false;
        }
        if picking {
            return false;
        }
        self.say("folder picker open… (check your other windows)".to_owned(), false);
        true
    }

    /// The dialog was dismissed without a choice.
    pub fn picker_dismissed(&mut self)
        ensures
            *final(self) == (App { flash: None, ..*old(self) }),
    {
        self.flash = None;
    }

    pub fn folder_refused(&mut self, path: &str)
        ensures
            old(self).flashed("cannot open "@ + path@, true, final(self)),
    {
        self.say(text_pair("cannot open ", path), true);
    }

    // ---- The unified sidebar ----

    /// The sidebar could not be unified: with an error, or because the other
    /// pane stayed open.
    pub fn unify_failed(&mut self, error: Option<&str>)
        ensures
            old(self).flashed(
                match error {
                    Some(error) => "unified mode cancelled: "@ + error@,
                    None => "Explorer stayed open; unified mode cancelled"@,
                },
                true,
                final(self),
            ),
    {
        match error {
            Some(error) => self.say(text_pair("unified mode cancelled: ", error), true),
            None => self.say("Explorer stayed open; unified mode cancelled".to_owned(), true),
        }
    }

    // ---- What is saved ----

    /// `state` was saved, or could not be: what goes on then is not to go on.
    /// Returns the repositories whose drafts are known to be saved.
    pub fn state_saved(&mut self, saved: bool, state: &ScmState, persisted: Vec<String>) -> (res:
        Vec<String>)
        ensures
            if saved {
                &&& *final(self) == *old(self)
                &&& forall|root: Seq<char>|
                    #![trigger has_string(res@, root)]
                    has_string(res@, root) <==> (has_string(persisted@, root) && !has_string(
                        state.cleared_drafts@,
                        root,
                    )) || has_draft(state.drafts@, root)
            } else {
                &&& res == persisted
                &&& old(self).flashed(
                    "Could not save Source Control state; action cancelled."@,
                    true,
                    final(self),
                )
            },
    {
        if !saved {
            self.say("Could not save Source Control state; action cancelled.".to_owned(), true);
            return persisted;
        }
        persisted_after_save(&persisted, &state.cleared_drafts, &state.drafts)
    }
}

} // verus!
