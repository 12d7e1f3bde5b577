//! What the Explorer makes of how things outside of it went, and what its
//! footer says.

use crate::columns::{columns, columns_left, input_end, input_tail, left_over, text_width};
use crate::explorer_app::app::{
    asked, join_effects, just, nothing, one, says, triple, App, Effect, EffectView, Overlay,
    RepoState,
};
use crate::spans::{empty_line, line_view, piece, put, Span, SpanView, Tone};
use crate::text::{decimal, push_decimal, text_pair};
use vstd::prelude::*;

verus! {

/// What staging has done.
pub struct Staged {
    pub count: usize,
    /// Paths that belong to a repository inside.
    pub skipped: usize,
    /// The name of the repository.
    pub repo: String,
}

/// What is said of a staging of `name`.
pub open spec fn stage_text(name: Seq<char>, outcome: Result<Staged, String>) -> Seq<char> {
    match outcome {
        Ok(done) => if done.count == 0 && done.skipped > 0 {
            name + ": nothing staged — "@ + decimal(done.skipped as nat)
                + " path(s) belong to a nested repo"@
        } else if done.count == 0 {
            "nothing to stage in "@ + name
        } else if done.count == 1 {
            "staged "@ + name + " in "@ + done.repo@
        } else {
            "staged "@ + decimal(done.count as nat) + " paths under "@ + name + " in "@
                + done.repo@
        },
        Err(error) => "stage failed: "@ + error@,
    }
}

pub fn stage_notice(name: &str, outcome: &Result<Staged, String>) -> (res: String)
    ensures
        res@ == stage_text(name@, *outcome),
{
    match outcome {
        Ok(done) => if done.count == 0 && done.skipped > 0 {
            let mut out: String = text_pair(name, ": nothing staged — ");
            push_decimal(&mut out, done.skipped);
            out.append(" path(s) belong to a nested repo");
            out
        } else if done.count == 0 {
            text_pair("nothing to stage in ", name)
        } else if done.count == 1 {
            let mut out: String = text_pair("staged ", name);
            out.append(" in ");
            out.append(done.repo.as_str());
            out
        } else {
            let mut out: String = "staged ".to_owned();
            push_decimal(&mut out, done.count);
            out.append(" paths under ");
            out.append(name);
            out.append(" in ");
            out.append(done.repo.as_str());
            out
        },
        Err(error) => text_pair("stage failed: ", error.as_str()),
    }
}

impl App {
    /// Nothing but the footer's line is another.
    pub open spec fn noticed(&self, text: Seq<char>, post: &App) -> bool {
        &&& *post == (App { notice: post.notice, ..*self })
        &&& says(post.notice, text)
    }

    fn notify(&mut self, text: String)
        requires
            old(self).wf(),
        ensures
            final(self).wf(),
            old(self).noticed(text@, final(self)),
    {
        self.notice = Some(text);
    }

    // ---- Files ----

    /// Something was created or renamed: the tree is read anew, with the folder
    /// of something new expanded, and the new path is selected.
    pub open spec fn created_rel(
        &self,
        folder: Option<String>,
        outcome: Result<String, String>,
        post: &App,
        out: Seq<EffectView>,
    ) -> bool {
        match outcome {
            Ok(path) => {
                let refresh = triple(
                    EffectView::Reread,
                    EffectView::Rediscover,
                    EffectView::ListRows,
                );
                &&& *post == (App { index: None, indexing: false, ..*self })
                &&& out == match folder {
                    Some(folder) => just(EffectView::Expand(folder@)) + refresh + just(
                        EffectView::SelectPath(path@),
                    ),
                    None => refresh + just(EffectView::SelectPath(path@)),
                }
            },
            Err(error) => self.noticed("failed: "@ + error@, post) && out.len() == 0,
        }
    }

    /// Something was created in `folder`, or renamed; or could not be.
    pub fn created(&mut self, folder: Option<String>, outcome: Result<String, String>) -> (res: Vec<
        Effect,
    >)
        requires
            old(self).wf(),
        ensures
            final(self).wf(),
            old(self).created_rel(folder, outcome, final(self), asked(res@)),
    {
        match outcome {
            Ok(path) => {
                let refresh: Vec<Effect> = self.refresh_tree();
                let select: Vec<Effect> = one(Effect::SelectPath(path));
                match folder {
                    Some(dir) => join_effects(
                        join_effects(one(Effect::Expand(dir)), refresh),
                        select,
                    ),
                    None => join_effects(refresh, select),
                }
            },
            Err(error) => {
                self.notify(text_pair("failed: ", error.as_str()));
                nothing()
            },
        }
    }

    /// How a deletion went.
    pub open spec fn deleted_rel(
        &self,
        outcome: Result<(), String>,
        post: &App,
        out: Seq<EffectView>,
    ) -> bool {
        match outcome {
            Ok(()) => self.refresh_rel(post, out),
            Err(error) => self.noticed("delete failed: "@ + error@, post) && out.len() == 0,
        }
    }

    /// Something was deleted, or could not be.
    pub fn deleted(&mut self, outcome: Result<(), String>) -> (res: Vec<Effect>)
        requires
            old(self).wf(),
        ensures
            final(self).wf(),
            old(self).deleted_rel(outcome, final(self), asked(res@)),
    {
        match outcome {
            Ok(()) => self.refresh_tree(),
            Err(error) => {
                self.notify(text_pair("delete failed: ", error.as_str()));
                nothing()
            },
        }
    }

    pub fn copied(&mut self, text: &str, outcome: Result<(), String>)
        requires
            old(self).wf(),
        ensures
            final(self).wf(),
            old(self).noticed(
                match outcome {
                    Ok(()) => "copied: "@ + text@,
                    Err(error) => "copy failed: "@ + error@,
                },
                final(self),
            ),
    {
        match outcome {
            Ok(()) => self.notify(text_pair("copied: ", text)),
            Err(error) => self.notify(text_pair("copy failed: ", error.as_str())),
        }
    }

    /// A file was opened in its default application, or could not be.
    pub fn opened(&mut self, name: &str, outcome: Result<(), String>)
        requires
            old(self).wf(),
        ensures
            final(self).wf(),
            old(self).noticed(
                match outcome {
                    Ok(()) => "opened: "@ + name@,
                    Err(error) => "open failed: "@ + error@,
                },
                final(self),
            ),
    {
        match outcome {
            Ok(()) => self.notify(text_pair("opened: ", name)),
            Err(error) => self.notify(text_pair("open failed: ", error.as_str())),
        }
    }

    /// Something was staged, or could not be; either way the status is read
    /// anew.
    pub fn staged(&mut self, name: &str, outcome: Result<Staged, String>) -> (res: Vec<Effect>)
        requires
            old(self).wf(),
        ensures
            final(self).wf(),
            old(self).noticed(stage_text(name@, outcome), final(self)),
            asked(res@) == just(EffectView::ReadStatus),
    {
        let text: String = stage_notice(name, &outcome);
        self.notify(text);
        one(Effect::ReadStatus)
    }

    // ---- The editor ----

    /// A file is opened in the configured editor; without a pane there is no
    /// place for it.
    pub open spec fn editor_rel(&self, path: Seq<char>, post: &App, out: Seq<EffectView>) -> bool {
        if self.mode.in_pane {
            *post == *self && out == just(EffectView::OpenEditor(path))
        } else {
            self.noticed("custom editor needs a herdr pane"@, post) && out.len() == 0
        }
    }

    pub fn open_custom_editor(&mut self, path: String) -> (res: Vec<Effect>)
        requires
            old(self).wf(),
        ensures
            final(self).wf(),
            old(self).editor_rel(path@, final(self), asked(res@)),
    {
        if self.mode.in_pane {
            one(Effect::OpenEditor(path))
        } else {
            self.notify("custom editor needs a herdr pane".to_owned());
            nothing()
        }
    }

    pub fn editor_opened(&mut self, name: &str, outcome: Result<(), String>)
        requires
            old(self).wf(),
        ensures
            final(self).wf(),
            old(self).noticed(
                match outcome {
                    Ok(()) => "opened in custom editor: "@ + name@,
                    Err(error) => "custom editor failed: "@ + error@,
                },
                final(self),
            ),
    {
        match outcome {
            Ok(()) => self.notify(text_pair("opened in custom editor: ", name)),
            Err(error) => self.notify(text_pair("custom editor failed: ", error.as_str())),
        }
    }

    pub fn editor_saved(&mut self, done: bool)
        requires
            old(self).wf(),
        ensures
            final(self).wf(),
            old(self).noticed(
                if done {
                    "custom editor saved; Enter still previews files"@
                } else {
                    "custom editor command must be one non-empty line"@
                },
                final(self),
            ),
    {
        if done {
            self.notify("custom editor saved; Enter still previews files".to_owned());
        } else {
            self.notify("custom editor command must be one non-empty line".to_owned());
        }
    }

    // ---- Folders ----

    /// What was asked for is no folder.
    pub fn folder_refused(&mut self, raw: &str)
        requires
            old(self).wf(),
        ensures
            final(self).wf(),
            old(self).noticed("not a folder: "@ + raw@, final(self)),
    {
        self.notify(text_pair("not a folder: ", raw));
    }

    /// Whether the sidebar may follow another pane's folder now: not while
    /// something lies over the tree or a folder is being picked.
    pub fn may_follow(&self, follow_cwd: bool) -> (res: bool)
        ensures
            res == (follow_cwd && self.overlay is None && !self.picking),
    {
        follow_cwd && self.overlay.is_none() && !self.picking
    }

    // ---- The repository ----

    /// The branches are asked for, where there is a repository.
    pub fn open_branch_picker(&self) -> (res: Vec<Effect>)
        ensures
            asked(res@) == (if self.repo.present {
                just(EffectView::PickBranch)
            } else {
                Seq::empty()
            }),
    {
        if self.repo.present {
            one(Effect::PickBranch)
        } else {
            nothing()
        }
    }

    /// How the list of the branches went.
    pub open spec fn branches_rel(&self, outcome: Result<(), String>, post: &App) -> bool {
        *post == match outcome {
            Ok(()) => App {
                overlay: Some(Overlay::BranchPicker),
                suspended: self.parked(),
                ..*self
            },
            Err(error) => App { notice: Some(error), ..*self },
        }
    }

    /// The branches were listed, or could not be. A search that was shown is
    /// parked under the picker.
    pub fn branches_listed(&mut self, outcome: Result<(), String>)
        requires
            old(self).wf(),
        ensures
            final(self).wf(),
            old(self).branches_rel(outcome, final(self)),
    {
        match outcome {
            Ok(()) => {
                self.cover(Overlay::BranchPicker);
            },
            Err(error) => {
                self.notice = Some(error);
            },
        }
    }

    /// The branch picker was closed: a parked search is shown again.
    pub fn picker_closed(&mut self)
        requires
            old(self).wf(),
        ensures
            final(self).wf(),
            *final(self) == old(self).resumed(),
    {
        self.resume();
    }

    /// How a change of branches went.
    pub open spec fn checked_out_rel(
        &self,
        branch: Seq<char>,
        outcome: Result<(), String>,
        post: &App,
        out: Seq<EffectView>,
    ) -> bool {
        match outcome {
            Ok(()) => {
                &&& *post == (App {
                    notice: post.notice,
                    index: None,
                    indexing: false,
                    ..self.resumed()
                })
                &&& says(post.notice, "switched to "@ + branch)
                &&& out == triple(
                    EffectView::Reread,
                    EffectView::Rediscover,
                    EffectView::ListRows,
                )
            },
            Err(error) => {
                &&& *post == (App { notice: Some(error), ..self.resumed() })
                &&& out.len() == 0
            },
        }
    }

    /// A branch was checked out, or could not be; the picker is closed.
    pub fn checked_out(&mut self, branch: &str, outcome: Result<(), String>) -> (res: Vec<Effect>)
        requires
            old(self).wf(),
        ensures
            final(self).wf(),
            old(self).checked_out_rel(branch@, outcome, final(self), asked(res@)),
    {
        self.resume();
        match outcome {
            Ok(()) => {
                self.notice = Some(text_pair("switched to ", branch));
                self.refresh_tree()
            },
            Err(error) => {
                self.notice = Some(error);
                nothing()
            },
        }
    }

    /// The footer's sync button: one run at a time, and only with an upstream.
    pub open spec fn sync_rel(&self, post: &App, out: Seq<EffectView>) -> bool {
        if self.repo.syncing || self.repo.upstream is None {
            *post == *self && out.len() == 0
        } else if self.repo.upstream == Some(false) {
            self.noticed("no upstream to sync with"@, post) && out.len() == 0
        } else if !self.repo.present {
            *post == *self && out.len() == 0
        } else {
            &&& *post == (App { repo: RepoState { syncing: true, ..self.repo }, ..*self })
            &&& out == just(EffectView::Sync)
        }
    }

    pub fn sync_git_footer(&mut self) -> (res: Vec<Effect>)
        requires
            old(self).wf(),
        ensures
            final(self).wf(),
            old(self).sync_rel(final(self), asked(res@)),
    {
        if self.repo.syncing {
            return nothing();
        }
        match self.repo.upstream {
            None => nothing(),
            Some(false) => {
                self.notify("no upstream to sync with".to_owned());
                nothing()
            },
            Some(true) => {
                if !self.repo.present {
                    return nothing();
                }
                self.repo.syncing = true;
                one(Effect::Sync)
            },
        }
    }

    /// A sync has ended: with a summary, with an error, or without a word.
    pub open spec fn synced_rel(
        &self,
        outcome: Result<String, Option<String>>,
        post: &App,
        out: Seq<EffectView>,
    ) -> bool {
        if !self.repo.syncing {
            *post == *self && out.len() == 0
        } else {
            &&& *post == (App {
                repo: RepoState { syncing: false, ..self.repo },
                notice: post.notice,
                ..*self
            })
            &&& match outcome {
                Ok(summary) => post.notice == Some(summary) && out == just(
                    EffectView::ReadStatus,
                ),
                Err(Some(error)) => post.notice == Some(error) && out.len() == 0,
                Err(None) => says(post.notice, "sync failed"@) && out.len() == 0,
            }
        }
    }

    pub fn collect_git_sync(&mut self, outcome: Result<String, Option<String>>) -> (res: Vec<
        Effect,
    >)
        requires
            old(self).wf(),
        ensures
            final(self).wf(),
            old(self).synced_rel(outcome, final(self), asked(res@)),
    {
        if !self.repo.syncing {
            return nothing();
        }
        self.repo.syncing = false;
        match outcome {
            Ok(summary) => {
                self.notice = Some(summary);
                one(Effect::ReadStatus)
            },
            Err(Some(error)) => {
                self.notice = Some(error);
                nothing()
            },
            Err(None) => {
                self.notice = Some("sync failed".to_owned());
                nothing()
            },
        }
    }

    // ---- The unified sidebar ----

    /// The sidebar could not be unified: with an error, or because the other
    /// pane stayed open.
    pub fn unify_failed(&mut self, error: Option<&str>)
        requires
            old(self).wf(),
        ensures
            final(self).wf(),
            old(self).noticed(
                match error {
                    Some(error) => "unified mode cancelled: "@ + error@,
                    None => "Source Control stayed open; unified mode cancelled"@,
                },
                final(self),
            ),
    {
        match error {
            Some(error) => self.notify(text_pair("unified mode cancelled: ", error)),
            None => self.notify("Source Control stayed open; unified mode cancelled".to_owned()),
        }
    }

    // ---- The footer ----

    /// What the footer says, and whether it is a warning: a notice, or the
    /// question before a deletion.
    pub open spec fn message_spec(&self) -> Option<(Seq<char>, bool)> {
        match self.notice {
            Some(notice) => Some((notice@, false)),
            None => match self.overlay {
                Some(Overlay::ConfirmDelete { path, name, is_dir }) => Some(
                    ("Delete '"@ + name@ + "' permanently? (y/N)"@, true),
                ),
                _ => None,
            },
        }
    }

    pub fn footer_message(&self) -> (res: Option<(String, bool)>)
        ensures
            (match res {
                Some(message) => Some((message.0@, message.1)),
                None => None,
            }) == self.message_spec(),
    {
        if let Some(notice) = &self.notice {
            return Some((notice.clone(), false));
        }
        match &self.overlay {
            Some(Overlay::ConfirmDelete { name, .. }) => {
                let mut out: String = text_pair("Delete '", name.as_str());
                out.append("' permanently? (y/N)");
                Some((out, true))
            },
            _ => None,
        }
    }

    /// The lines of the footer. `message` are those of its message and `hints`
    /// those of the hotkeys, where they are to be shown; the git line stands
    /// below.
    pub open spec fn footer_lines(&self, message: int, hints: Option<u16>, git: bool) -> int {
        let own: int = if git {
            1
        } else {
            0
        };
        let content: int = if self.message_spec() is Some {
            message
        } else if self.overlay is Some && self.overlay->0 is Prompt {
            1
        } else if hints is Some {
            hints->0 as int
        } else if git {
            2
        } else {
            0
        };
        if content + own < 1 {
            1
        } else {
            content + own
        }
    }

    pub fn footer_height(&self, message: u16, hints: Option<u16>, git: bool) -> (res: u16)
        requires
            message < u16::MAX,
            hints matches Some(n) ==> n < u16::MAX,
        ensures
            res == self.footer_lines(message as int, hints, git),
    {
        let own: u16 = if git {
            1
        } else {
            0
        };
        let prompts: bool = matches!(self.overlay, Some(Overlay::Prompt { .. }));
        let content: u16 = if self.footer_message().is_some() {
            message
        } else if prompts {
            1
        } else {
            match hints {
                Some(n) => n,
                None => if git {
                    2
                } else {
                    0
                },
            }
        };
        if content + own < 1 {
            1
        } else {
            content + own
        }
    }
}

/// What is typed into a prompt: on one line, with a hint where it fits and the
/// end of a long input where it does not.
pub open spec fn prompt_pieces(title: Seq<char>, input: Seq<char>, width: u16) -> Seq<SpanView> {
    let head = " "@ + title + ": "@;
    let hint = "  (⏎ ok · esc cancel)"@;
    let fixed = columns(head) + 5;
    let fits = fixed + columns(hint) + columns(input) <= width;
    let room = left_over(
        width as int,
        fixed + if fits {
            columns(hint) as int
        } else {
            0
        },
    );
    let shown = if room < 4 {
        4nat
    } else {
        room
    };
    let line = Seq::empty().push(piece(head, Tone::Bold)).push(
        piece(input_end(input, shown as usize), Tone::Plain),
    ).push(piece("█"@, Tone::Dim));
    if fits {
        line.push(piece(hint, Tone::Dim))
    } else {
        line
    }
}

pub fn prompt_line(title: &str, input: &str, width: u16) -> (res: Vec<Span>)
    ensures
        line_view(res@) == prompt_pieces(title@, input@, width),
{
    let mut head: String = text_pair(" ", title);
    head.append(": ");
    let hint: &str = "  (⏎ ok · esc cancel)";
    let head_width: usize = text_width(head.as_str());
    let hint_width: usize = text_width(hint);
    let input_width: usize = text_width(input);
    let total: usize = width as usize;
    let left: usize = columns_left(total, head_width, 5, 0, 0);
    let fits: bool = head_width <= total && head_width + 5 <= total && hint_width <= left
        && input_width <= left - hint_width;
    let room: usize = columns_left(
        total,
        head_width,
        5,
        if fits {
            hint_width
        } else {
            0
        },
        0,
    );
    let shown: usize = if room < 4 {
        4
    } else {
        room
    };
    let mut line: Vec<Span> = empty_line();
    put(&mut line, head, Tone::Bold);
    put(&mut line, input_tail(input, shown), Tone::Plain);
    put(&mut line, "█".to_owned(), Tone::Dim);
    if fits {
        put(&mut line, hint.to_owned(), Tone::Dim);
    }
    line
}

} // verus!
