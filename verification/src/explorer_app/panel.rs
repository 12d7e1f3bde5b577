//! The search panel: its inputs, its results, and what keys and the mouse do in
//! it.

use crate::explorer_app::hits::{hits_are_clean, ContentHit};
use crate::explorer_app::search::SearchOptions;
use crate::geometry::{hits, in_area, Area};
use crate::input::{Key, KeyCode, Mouse, MouseKind};
use crate::text::{is_blank, shorten, shortened, str_eq, trim};
use vstd::prelude::*;

verus! {

/// Which part of the panel takes the keys.
#[derive(Clone, Copy, PartialEq, Eq, Structural, Debug)]
pub enum SearchFocus {
    Query,
    Replace,
    /// The files to search.
    Include,
    /// The files to leave out.
    Exclude,
    Results,
}

pub struct SearchPanel {
    pub query: String,
    pub replace: String,
    /// The files to search, all where it is blank.
    pub files_in: String,
    /// The files to leave out.
    pub files_out: String,
    pub hits: Vec<ContentHit>,
    pub selected: usize,
    /// There are more results than `hits` holds.
    pub truncated: bool,
    pub loading: bool,
    pub searched: bool,
    /// The two file filters are shown.
    pub details_expanded: bool,
    pub focus: SearchFocus,
    pub options: SearchOptions,
    pub error: Option<String>,
    /// Since when what was asked for waits to be searched, in milliseconds.
    pub dirty_since: Option<u64>,
}

/// What a key or a click in the panel asks for.
pub enum SearchCommand {
    Nothing,
    Close,
    /// Search now.
    Start,
    /// Show a line of a file.
    Open { path: String, line: usize },
    /// Move the results.
    Scroll(isize),
}

/// Where the parts of the panel were drawn last.
#[derive(Clone, Copy, Debug)]
pub struct SearchZones {
    pub query: Area,
    pub replace: Area,
    pub files_in: Area,
    pub files_out: Area,
    pub match_case: Area,
    pub whole_word: Area,
    pub regex: Area,
    pub refresh: Area,
    pub clear: Area,
    pub details: Area,
}

impl SearchZones {
    /// Nothing was drawn.
    pub open spec fn nowhere_spec() -> SearchZones {
        SearchZones {
            query: Area::empty_spec(),
            replace: Area::empty_spec(),
            files_in: Area::empty_spec(),
            files_out: Area::empty_spec(),
            match_case: Area::empty_spec(),
            whole_word: Area::empty_spec(),
            regex: Area::empty_spec(),
            refresh: Area::empty_spec(),
            clear: Area::empty_spec(),
            details: Area::empty_spec(),
        }
    }

    pub fn nowhere() -> (res: SearchZones)
        ensures
            res == SearchZones::nowhere_spec(),
    {
        SearchZones {
            query: Area::empty(),
            replace: Area::empty(),
            files_in: Area::empty(),
            files_out: Area::empty(),
            match_case: Area::empty(),
            whole_word: Area::empty(),
            regex: Area::empty(),
            refresh: Area::empty(),
            clear: Area::empty(),
            details: Area::empty(),
        }
    }
}

// ---- Keys ----

/// The part that `Tab` goes on to.
pub open spec fn focus_after(focus: SearchFocus, details: bool) -> SearchFocus {
    match focus {
        SearchFocus::Query => SearchFocus::Replace,
        SearchFocus::Replace => if details {
            SearchFocus::Include
        } else {
            SearchFocus::Results
        },
        SearchFocus::Include => SearchFocus::Exclude,
        SearchFocus::Exclude => SearchFocus::Results,
        SearchFocus::Results => SearchFocus::Query,
    }
}

pub fn next_focus(focus: SearchFocus, details: bool) -> (res: SearchFocus)
    ensures
        res == focus_after(focus, details),
{
    match focus {
        SearchFocus::Query => SearchFocus::Replace,
        SearchFocus::Replace => if details {
            SearchFocus::Include
        } else {
            SearchFocus::Results
        },
        SearchFocus::Include => SearchFocus::Exclude,
        SearchFocus::Exclude => SearchFocus::Results,
        SearchFocus::Results => SearchFocus::Query,
    }
}

/// The part that `Shift+Tab` goes back to.
pub open spec fn focus_before(focus: SearchFocus, details: bool) -> SearchFocus {
    match focus {
        SearchFocus::Query => SearchFocus::Results,
        SearchFocus::Replace => SearchFocus::Query,
        SearchFocus::Include => SearchFocus::Replace,
        SearchFocus::Exclude => SearchFocus::Include,
        SearchFocus::Results => if details {
            SearchFocus::Exclude
        } else {
            SearchFocus::Replace
        },
    }
}

pub fn previous_focus(focus: SearchFocus, details: bool) -> (res: SearchFocus)
    ensures
        res == focus_before(focus, details),
{
    match focus {
        SearchFocus::Query => SearchFocus::Results,
        SearchFocus::Replace => SearchFocus::Query,
        SearchFocus::Include => SearchFocus::Replace,
        SearchFocus::Exclude => SearchFocus::Include,
        SearchFocus::Results => if details {
            SearchFocus::Exclude
        } else {
            SearchFocus::Replace
        },
    }
}

/// `Shift+Tab` undoes `Tab`, as long as the focus is on a part that is shown.
pub proof fn law_tabs_go_round(focus: SearchFocus, details: bool)
    requires
        details || (focus != SearchFocus::Include && focus != SearchFocus::Exclude),
    ensures
        focus_before(focus_after(focus, details), details) == focus,
        focus_after(focus_before(focus, details), details) == focus,
        details || (focus_after(focus, details) != SearchFocus::Include && focus_after(
            focus,
            details,
        ) != SearchFocus::Exclude),
{
}

/// The options after one of the option keys.
pub open spec fn toggled_by(options: SearchOptions, code: KeyCode) -> Option<SearchOptions> {
    match code {
        KeyCode::Char(c) => if c == 'c' || c == 'C' {
            Some(SearchOptions { match_case: !options.match_case, ..options })
        } else if c == 'w' || c == 'W' {
            Some(SearchOptions { whole_word: !options.whole_word, ..options })
        } else if c == 'r' || c == 'R' {
            Some(SearchOptions { regex: !options.regex, ..options })
        } else {
            None
        },
        _ => None,
    }
}

pub fn option_key(options: SearchOptions, code: KeyCode) -> (res: Option<SearchOptions>)
    ensures
        res == toggled_by(options, code),
{
    let mut changed: SearchOptions = options;
    match code {
        KeyCode::Char(c) => {
            if c == 'c' || c == 'C' {
                changed.match_case = !options.match_case;
            } else if c == 'w' || c == 'W' {
                changed.whole_word = !options.whole_word;
            } else if c == 'r' || c == 'R' {
                changed.regex = !options.regex;
            } else {
                return None;
            }
        },
        _ => {
            return None;
        },
    }
    Some(changed)
}

/// What a line of text holds after a key; `None` where the key does not edit.
pub open spec fn typed(text: Seq<char>, key: Key) -> Option<Seq<char>> {
    match key.code {
        KeyCode::Backspace => Some(shortened(text)),
        KeyCode::Char(c) => if key.command() {
            None
        } else {
            Some(text.push(c))
        },
        _ => None,
    }
}

/// Type a key at the end of a line of text. The result tells whether it edits.
pub fn type_key(text: &mut String, key: Key) -> (res: bool)
    ensures
        match typed(old(text)@, key) {
            Some(after) => res && final(text)@ == after,
            None => !res && *final(text) == *old(text),
        },
{
    match key.code {
        KeyCode::Backspace => {
            *text = shorten(text.as_str());
            true
        },
        KeyCode::Char(c) => {
            if key.is_command() {
                return false;
            }
            text.push(c);
            true
        },
        _ => false,
    }
}

/// When a query that is typed now is due: a blank one never is.
pub open spec fn waiting(query: Seq<char>, now: u64) -> Option<u64> {
    if trim(query).len() > 0 {
        Some(now)
    } else {
        None
    }
}

impl SearchPanel {
    pub open spec fn wf(&self) -> bool {
        hits_are_clean(self.hits@)
    }

    /// A panel in which nothing was typed yet.
    pub open spec fn is_fresh(&self, focus: SearchFocus) -> bool {
        &&& self.query@.len() == 0
        &&& self.replace@.len() == 0
        &&& self.files_in@.len() == 0
        &&& self.files_out@.len() == 0
        &&& self.hits@.len() == 0
        &&& self.selected == 0
        &&& !self.truncated
        &&& !self.loading
        &&& !self.searched
        &&& !self.details_expanded
        &&& self.focus == focus
        &&& self.options == (SearchOptions { match_case: false, whole_word: false, regex: false })
        &&& self.error is None
        &&& self.dirty_since is None
    }

    pub fn new(focus_query: bool) -> (res: SearchPanel)
        ensures
            res.wf(),
            res.is_fresh(
                if focus_query {
                    SearchFocus::Query
                } else {
                    SearchFocus::Results
                },
            ),
    {
        SearchPanel {
            query: String::new(),
            replace: String::new(),
            files_in: String::new(),
            files_out: String::new(),
            hits: Vec::new(),
            selected: 0,
            truncated: false,
            loading: false,
            searched: false,
            details_expanded: false,
            focus: if focus_query {
                SearchFocus::Query
            } else {
                SearchFocus::Results
            },
            options: SearchOptions { match_case: false, whole_word: false, regex: false },
            error: None,
            dirty_since: None,
        }
    }

    /// What the part that takes the keys holds.
    pub open spec fn field(&self, focus: SearchFocus) -> Seq<char> {
        match focus {
            SearchFocus::Query => self.query@,
            SearchFocus::Replace => self.replace@,
            SearchFocus::Include => self.files_in@,
            SearchFocus::Exclude => self.files_out@,
            SearchFocus::Results => Seq::empty(),
        }
    }

    /// The panel without results, which are `hits`, that holds none.
    pub open spec fn without_results(&self, hits: Vec<ContentHit>, dirty: Option<u64>) -> SearchPanel {
        SearchPanel {
            hits,
            selected: 0,
            truncated: false,
            loading: false,
            searched: false,
            error: None,
            dirty_since: dirty,
            ..*self
        }
    }

    /// Drop the results; a query that is not blank waits to be searched.
    fn mark_dirty(&mut self, now: u64)
        ensures
            final(self).hits@.len() == 0,
            *final(self) == old(self).without_results(
                final(self).hits,
                waiting(old(self).query@, now),
            ),
            final(self).wf(),
    {
        self.hits = Vec::new();
        self.selected = 0;
        self.truncated = false;
        self.loading = false;
        self.searched = false;
        self.error = None;
        self.dirty_since = if is_blank(self.query.as_str()) {
            None
        } else {
            Some(now)
        };
    }

    /// The focused part holds `text` now. What changes the search drops its
    /// results.
    pub open spec fn edited_rel(&self, text: Seq<char>, now: u64, post: &SearchPanel) -> bool {
        &&& post.field(self.focus) == text
        &&& self.focus != SearchFocus::Replace ==> post.hits@.len() == 0
        &&& *post == match self.focus {
            SearchFocus::Query => (SearchPanel { query: post.query, ..*self }).without_results(
                post.hits,
                waiting(text, now),
            ),
            SearchFocus::Replace => SearchPanel { replace: post.replace, ..*self },
            SearchFocus::Include => (SearchPanel {
                files_in: post.files_in,
                ..*self
            }).without_results(post.hits, waiting(self.query@, now)),
            SearchFocus::Exclude => (SearchPanel {
                files_out: post.files_out,
                ..*self
            }).without_results(post.hits, waiting(self.query@, now)),
            SearchFocus::Results => *self,
        }
    }

    /// The file filters shown or hidden; the focus leaves those that are hidden.
    pub open spec fn flipped_details(&self) -> SearchPanel {
        SearchPanel {
            details_expanded: !self.details_expanded,
            focus: if self.details_expanded && (self.focus == SearchFocus::Include || self.focus
                == SearchFocus::Exclude) {
                SearchFocus::Query
            } else {
                self.focus
            },
            ..*self
        }
    }

    fn flip_details(&mut self)
        ensures
            *final(self) == old(self).flipped_details(),
    {
        self.details_expanded = !self.details_expanded;
        if !self.details_expanded && (self.focus == SearchFocus::Include || self.focus
            == SearchFocus::Exclude) {
            self.focus = SearchFocus::Query;
        }
    }

    /// The command that shows the `i`th result.
    pub open spec fn opens(&self, i: int, command: SearchCommand) -> bool {
        if 0 <= i < self.hits@.len() {
            command matches SearchCommand::Open { path, line } && path@ == self.hits@[i].path@
                && line == self.hits@[i].line
        } else {
            command is Nothing
        }
    }

    fn open_hit(&self, i: usize) -> (res: SearchCommand)
        ensures
            self.opens(i as int, res),
    {
        if i < self.hits.len() {
            let hit: &ContentHit = &self.hits[i];
            SearchCommand::Open { path: hit.path.clone(), line: hit.line }
        } else {
            SearchCommand::Nothing
        }
    }

    /// The result below the selected one, as far as there is one.
    pub open spec fn below_selected(&self) -> usize {
        if self.hits@.len() == 0 {
            0
        } else if self.selected + 1 < self.hits@.len() {
            (self.selected + 1) as usize
        } else {
            (self.hits@.len() - 1) as usize
        }
    }

    /// The result above the selected one.
    pub open spec fn above_selected(&self) -> usize {
        if self.selected == 0 {
            0
        } else {
            (self.selected - 1) as usize
        }
    }

    /// What a key does in the panel.
    pub open spec fn key_rel(
        &self,
        key: Key,
        now: u64,
        post: &SearchPanel,
        command: SearchCommand,
    ) -> bool {
        if key.alt && !key.control {
            &&& command is Nothing
            &&& match toggled_by(self.options, key.code) {
                Some(options) => post.hits@.len() == 0 && *post == (SearchPanel {
                    options,
                    ..*self
                }).without_results(post.hits, waiting(self.query@, now)),
                None => *post == *self,
            }
        } else if (key.code == KeyCode::Char('j') || key.code == KeyCode::Char('J')) && key.control
            && key.shift {
            command is Nothing && *post == self.flipped_details()
        } else {
            match key.code {
                KeyCode::Esc => command is Close && *post == *self,
                KeyCode::Tab => command is Nothing && *post == (SearchPanel {
                    focus: focus_after(self.focus, self.details_expanded),
                    ..*self
                }),
                KeyCode::BackTab => command is Nothing && *post == (SearchPanel {
                    focus: focus_before(self.focus, self.details_expanded),
                    ..*self
                }),
                KeyCode::Up => command is Nothing && *post == (if self.focus
                    == SearchFocus::Results {
                    SearchPanel { selected: self.above_selected(), ..*self }
                } else {
                    *self
                }),
                KeyCode::Down => command is Nothing && *post == (if self.focus
                    == SearchFocus::Results {
                    SearchPanel { selected: self.below_selected(), ..*self }
                } else if self.focus != SearchFocus::Replace && self.hits@.len() > 0 {
                    SearchPanel { focus: SearchFocus::Results, ..*self }
                } else {
                    *self
                }),
                KeyCode::Enter => *post == *self && if self.focus == SearchFocus::Results {
                    self.opens(self.selected as int, command)
                } else if self.focus != SearchFocus::Replace && !self.loading && trim(
                    self.query@,
                ).len() > 0 {
                    command is Start
                } else {
                    command is Nothing
                },
                _ => command is Nothing && match typed(self.field(self.focus), key) {
                    Some(text) => if self.focus == SearchFocus::Results {
                        *post == *self
                    } else {
                        self.edited_rel(text, now, post)
                    },
                    None => *post == *self,
                },
            }
        }
    }

    fn edit_key(&mut self, key: Key, now: u64)
        requires
            old(self).wf(),
        ensures
            final(self).wf(),
            match typed(old(self).field(old(self).focus), key) {
                Some(text) => if old(self).focus == SearchFocus::Results {
                    *final(self) == *old(self)
                } else {
                    old(self).edited_rel(text, now, final(self))
                },
                None => *final(self) == *old(self),
            },
    {
        match self.focus {
            SearchFocus::Query => {
                if type_key(&mut self.query, key) {
                    self.mark_dirty(now);
                }
            },
            SearchFocus::Replace => {
                let _ = type_key(&mut self.replace, key);
            },
            SearchFocus::Include => {
                if type_key(&mut self.files_in, key) {
                    self.mark_dirty(now);
                }
            },
            SearchFocus::Exclude => {
                if type_key(&mut self.files_out, key) {
                    self.mark_dirty(now);
                }
            },
            SearchFocus::Results => {},
        }
    }

    pub fn on_key(&mut self, key: Key, now: u64) -> (res: SearchCommand)
        requires
            old(self).wf(),
        ensures
            final(self).wf(),
            old(self).key_rel(key, now, final(self), res),
    {
        if key.alt && !key.control {
            if let Some(options) = option_key(self.options, key.code) {
                self.options = options;
                self.mark_dirty(now);
            }
            return SearchCommand::Nothing;
        }
        if (key.code == KeyCode::Char('j') || key.code == KeyCode::Char('J')) && key.control
            && key.shift {
            self.flip_details();
            return SearchCommand::Nothing;
        }
        match key.code {
            KeyCode::Esc => SearchCommand::Close,
            KeyCode::Tab => {
                self.focus = next_focus(self.focus, self.details_expanded);
                SearchCommand::Nothing
            },
            KeyCode::BackTab => {
                self.focus = previous_focus(self.focus, self.details_expanded);
                SearchCommand::Nothing
            },
            KeyCode::Up => {
                if self.focus == SearchFocus::Results {
                    self.selected = self.selected.saturating_sub(1);
                }
                SearchCommand::Nothing
            },
            KeyCode::Down => {
                let count: usize = self.hits.len();
                if self.focus == SearchFocus::Results {
                    self.selected = if count == 0 {
                        0
                    } else if self.selected < count - 1 {
                        self.selected + 1
                    } else {
                        count - 1
                    };
                } else if self.focus != SearchFocus::Replace && count > 0 {
                    self.focus = SearchFocus::Results;
                }
                SearchCommand::Nothing
            },
            KeyCode::Enter => if self.focus == SearchFocus::Results {
                self.open_hit(self.selected)
            } else if self.focus != SearchFocus::Replace && !self.loading && !is_blank(
                self.query.as_str(),
            ) {
                SearchCommand::Start
            } else {
                SearchCommand::Nothing
            },
            _ => {
                self.edit_key(key, now);
                SearchCommand::Nothing
            },
        }
    }
}

// ---- The mouse ----

/// What lies under a cell of the panel.
#[derive(Clone, Copy, PartialEq, Eq, Structural, Debug)]
pub enum SearchTarget {
    Refresh,
    Clear,
    Details,
    MatchCase,
    WholeWord,
    Regex,
    Query,
    Replace,
    Include,
    Exclude,
    Result(usize),
    Nowhere,
}

/// The first of the drawn results from the `i`th on that lies under a cell.
pub open spec fn result_under(rows: Seq<(Area, usize)>, x: u16, y: u16, i: int) -> Option<usize>
    decreases rows.len() - i,
{
    if 0 <= i < rows.len() {
        if in_area(rows[i].0, x, y) {
            Some(rows[i].1)
        } else {
            result_under(rows, x, y, i + 1)
        }
    } else {
        None
    }
}

fn result_at(rows: &Vec<(Area, usize)>, x: u16, y: u16) -> (res: Option<usize>)
    ensures
        res == result_under(rows@, x, y, 0),
{
    let mut i: usize = 0;
    while i < rows.len()
        invariant
            i <= rows@.len(),
            result_under(rows@, x, y, i as int) == result_under(rows@, x, y, 0),
        decreases rows@.len() - i,
    {
        if hits(rows[i].0, x, y) {
            return Some(rows[i].1);
        }
        i += 1;
    }
    None
}

pub open spec fn target_spec(
    zones: SearchZones,
    rows: Seq<(Area, usize)>,
    details: bool,
    x: u16,
    y: u16,
) -> SearchTarget {
    if in_area(zones.refresh, x, y) {
        SearchTarget::Refresh
    } else if in_area(zones.clear, x, y) {
        SearchTarget::Clear
    } else if in_area(zones.details, x, y) {
        SearchTarget::Details
    } else if in_area(zones.match_case, x, y) {
        SearchTarget::MatchCase
    } else if in_area(zones.whole_word, x, y) {
        SearchTarget::WholeWord
    } else if in_area(zones.regex, x, y) {
        SearchTarget::Regex
    } else if in_area(zones.query, x, y) {
        SearchTarget::Query
    } else if in_area(zones.replace, x, y) {
        SearchTarget::Replace
    } else if details && in_area(zones.files_in, x, y) {
        SearchTarget::Include
    } else if details && in_area(zones.files_out, x, y) {
        SearchTarget::Exclude
    } else {
        match result_under(rows, x, y, 0) {
            Some(index) => SearchTarget::Result(index),
            None => SearchTarget::Nowhere,
        }
    }
}

pub fn search_target(
    zones: SearchZones,
    rows: &Vec<(Area, usize)>,
    details: bool,
    x: u16,
    y: u16,
) -> (res: SearchTarget)
    ensures
        res == target_spec(zones, rows@, details, x, y),
{
    if hits(zones.refresh, x, y) {
        SearchTarget::Refresh
    } else if hits(zones.clear, x, y) {
        SearchTarget::Clear
    } else if hits(zones.details, x, y) {
        SearchTarget::Details
    } else if hits(zones.match_case, x, y) {
        SearchTarget::MatchCase
    } else if hits(zones.whole_word, x, y) {
        SearchTarget::WholeWord
    } else if hits(zones.regex, x, y) {
        SearchTarget::Regex
    } else if hits(zones.query, x, y) {
        SearchTarget::Query
    } else if hits(zones.replace, x, y) {
        SearchTarget::Replace
    } else if details && hits(zones.files_in, x, y) {
        SearchTarget::Include
    } else if details && hits(zones.files_out, x, y) {
        SearchTarget::Exclude
    } else {
        match result_at(rows, x, y) {
            Some(index) => SearchTarget::Result(index),
            None => SearchTarget::Nowhere,
        }
    }
}

impl SearchPanel {
    /// The panel with other options, its results dropped.
    pub open spec fn options_rel(&self, options: SearchOptions, now: u64, post: &SearchPanel) -> bool {
        &&& post.hits@.len() == 0
        &&& *post == (SearchPanel { options, ..*self }).without_results(
            post.hits,
            waiting(self.query@, now),
        )
    }

    /// The panel with nothing typed and nothing found.
    pub open spec fn emptied_rel(&self, post: &SearchPanel) -> bool {
        &&& post.query@.len() == 0
        &&& post.replace@.len() == 0
        &&& post.files_in@.len() == 0
        &&& post.files_out@.len() == 0
        &&& post.hits@.len() == 0
        &&& *post == (SearchPanel {
            query: post.query,
            replace: post.replace,
            files_in: post.files_in,
            files_out: post.files_out,
            focus: SearchFocus::Query,
            ..*self
        }).without_results(post.hits, None)
    }

    /// What a click on a part of the panel does.
    pub open spec fn click_rel(
        &self,
        target: SearchTarget,
        now: u64,
        post: &SearchPanel,
        command: SearchCommand,
    ) -> bool {
        match target {
            SearchTarget::Refresh => command is Start && *post == *self,
            SearchTarget::Clear => command is Nothing && self.emptied_rel(post),
            SearchTarget::Details => command is Nothing && *post == self.flipped_details(),
            SearchTarget::MatchCase => command is Nothing && self.options_rel(
                SearchOptions { match_case: !self.options.match_case, ..self.options },
                now,
                post,
            ),
            SearchTarget::WholeWord => command is Nothing && self.options_rel(
                SearchOptions { whole_word: !self.options.whole_word, ..self.options },
                now,
                post,
            ),
            SearchTarget::Regex => command is Nothing && self.options_rel(
                SearchOptions { regex: !self.options.regex, ..self.options },
                now,
                post,
            ),
            SearchTarget::Query => command is Nothing && *post == (SearchPanel {
                focus: SearchFocus::Query,
                ..*self
            }),
            SearchTarget::Replace => command is Nothing && *post == (SearchPanel {
                focus: SearchFocus::Replace,
                ..*self
            }),
            SearchTarget::Include => command is Nothing && *post == (SearchPanel {
                focus: SearchFocus::Include,
                ..*self
            }),
            SearchTarget::Exclude => command is Nothing && *post == (SearchPanel {
                focus: SearchFocus::Exclude,
                ..*self
            }),
            SearchTarget::Result(index) => self.opens(index as int, command) && *post == (
            SearchPanel { selected: index, focus: SearchFocus::Results, ..*self }),
            SearchTarget::Nowhere => command is Nothing && *post == *self,
        }
    }

    fn click(&mut self, target: SearchTarget, now: u64) -> (res: SearchCommand)
        requires
            old(self).wf(),
        ensures
            final(self).wf(),
            old(self).click_rel(target, now, final(self), res),
    {
        match target {
            SearchTarget::Refresh => SearchCommand::Start,
            SearchTarget::Clear => {
                self.query = String::new();
                self.replace = String::new();
                self.files_in = String::new();
                self.files_out = String::new();
                self.focus = SearchFocus::Query;
                self.mark_dirty(now);
                self.dirty_since = None;
                SearchCommand::Nothing
            },
            SearchTarget::Details => {
                self.flip_details();
                SearchCommand::Nothing
            },
            SearchTarget::MatchCase => {
                self.options.match_case = !self.options.match_case;
                self.mark_dirty(now);
                SearchCommand::Nothing
            },
            SearchTarget::WholeWord => {
                self.options.whole_word = !self.options.whole_word;
                self.mark_dirty(now);
                SearchCommand::Nothing
            },
            SearchTarget::Regex => {
                self.options.regex = !self.options.regex;
                self.mark_dirty(now);
                SearchCommand::Nothing
            },
            SearchTarget::Query => {
                self.focus = SearchFocus::Query;
                SearchCommand::Nothing
            },
            SearchTarget::Replace => {
                self.focus = SearchFocus::Replace;
                SearchCommand::Nothing
            },
            SearchTarget::Include => {
                self.focus = SearchFocus::Include;
                SearchCommand::Nothing
            },
            SearchTarget::Exclude => {
                self.focus = SearchFocus::Exclude;
                SearchCommand::Nothing
            },
            SearchTarget::Result(index) => {
                self.selected = index;
                self.focus = SearchFocus::Results;
                self.open_hit(index)
            },
            SearchTarget::Nowhere => SearchCommand::Nothing,
        }
    }

    /// What a mouse event does in the panel.
    pub open spec fn mouse_rel(
        &self,
        zones: SearchZones,
        rows: Seq<(Area, usize)>,
        mouse: Mouse,
        now: u64,
        post: &SearchPanel,
        command: SearchCommand,
    ) -> bool {
        match mouse.kind {
            MouseKind::ScrollUp => *post == *self && (command matches SearchCommand::Scroll(delta)
                && delta == -3),
            MouseKind::ScrollDown => *post == *self && (command matches SearchCommand::Scroll(delta)
                && delta == 3),
            MouseKind::LeftDown => self.click_rel(
                target_spec(zones, rows, self.details_expanded, mouse.column, mouse.row),
                now,
                post,
                command,
            ),
            _ => command is Nothing && *post == *self,
        }
    }

    pub fn on_mouse(
        &mut self,
        zones: SearchZones,
        rows: &Vec<(Area, usize)>,
        mouse: Mouse,
        now: u64,
    ) -> (res: SearchCommand)
        requires
            old(self).wf(),
        ensures
            final(self).wf(),
            old(self).mouse_rel(zones, rows@, mouse, now, final(self), res),
    {
        match mouse.kind {
            MouseKind::ScrollUp => SearchCommand::Scroll(-3),
            MouseKind::ScrollDown => SearchCommand::Scroll(3),
            MouseKind::LeftDown => {
                let target: SearchTarget = search_target(
                    zones,
                    rows,
                    self.details_expanded,
                    mouse.column,
                    mouse.row,
                );
                self.click(target, now)
            },
            _ => SearchCommand::Nothing,
        }
    }
}

// ---- Searching ----

/// How long what is typed waits for more before it is searched, in
/// milliseconds.
pub const SEARCH_DELAY_MS: u64 = 300;

/// What a finished search has found, and what was asked of it.
pub struct SearchResult {
    pub root: String,
    pub show_hidden: bool,
    pub query: String,
    pub files_in: String,
    pub files_out: String,
    pub options: SearchOptions,
    pub hits: Vec<ContentHit>,
    pub truncated: bool,
    pub error: Option<String>,
}

impl SearchPanel {
    /// What was typed last has waited long enough to be searched.
    pub open spec fn due(&self, now: u64) -> bool {
        self.dirty_since matches Some(since) && now - since >= SEARCH_DELAY_MS
    }

    pub fn is_due(&self, now: u64) -> (res: bool)
        ensures
            res == self.due(now),
    {
        match self.dirty_since {
            Some(since) => now >= since && now - since >= SEARCH_DELAY_MS,
            None => false,
        }
    }

    /// The panel while it is searched for; `hits` holds none.
    pub open spec fn begun(&self, hits: Vec<ContentHit>) -> SearchPanel {
        SearchPanel {
            hits,
            selected: 0,
            truncated: false,
            loading: true,
            searched: true,
            error: None,
            dirty_since: None,
            ..*self
        }
    }

    pub fn begin(&mut self)
        ensures
            final(self).wf(),
            final(self).hits@.len() == 0,
            *final(self) == old(self).begun(final(self).hits),
    {
        self.hits = Vec::new();
        self.selected = 0;
        self.truncated = false;
        self.loading = true;
        self.searched = true;
        self.error = None;
        self.dirty_since = None;
    }

    /// The result answers what the panel asks now.
    pub open spec fn answered_by(&self, result: SearchResult) -> bool {
        &&& self.query@ == result.query@
        &&& self.files_in@ == result.files_in@
        &&& self.files_out@ == result.files_out@
        &&& self.options == result.options
    }

    /// The panel once a result has come. One that answers something else than
    /// what is asked now is dropped.
    pub open spec fn answered(&self, result: SearchResult) -> SearchPanel {
        if self.answered_by(result) {
            SearchPanel {
                hits: result.hits,
                selected: 0,
                truncated: result.truncated,
                loading: false,
                searched: true,
                error: result.error,
                dirty_since: None,
                ..*self
            }
        } else {
            *self
        }
    }

    pub fn accept(&mut self, result: SearchResult)
        requires
            old(self).wf(),
            hits_are_clean(result.hits@),
        ensures
            final(self).wf(),
            *final(self) == old(self).answered(result),
    {
        if str_eq(self.query.as_str(), result.query.as_str()) && str_eq(
            self.files_in.as_str(),
            result.files_in.as_str(),
        ) && str_eq(self.files_out.as_str(), result.files_out.as_str()) && self.options
            == result.options {
            self.hits = result.hits;
            self.selected = 0;
            self.truncated = result.truncated;
            self.loading = false;
            self.searched = true;
            self.error = result.error;
            self.dirty_since = None;
        }
    }
}

// ---- What the panel promises ----

/// Results are shown only for what is asked: whatever changes the query, the
/// filters or the options drops them.
pub proof fn law_results_answer_the_query(
    panel: SearchPanel,
    key: Key,
    now: u64,
    post: SearchPanel,
    command: SearchCommand,
)
    requires
        panel.key_rel(key, now, &post, command),
        post.query@ != panel.query@ || post.files_in@ != panel.files_in@ || post.files_out@
            != panel.files_out@ || post.options != panel.options,
    ensures
        post.hits@.len() == 0,
        post.error is None,
        !post.loading,
{
}

/// A key that types is text while an input has the focus, digits and all.
pub proof fn law_inputs_take_what_is_typed(
    panel: SearchPanel,
    c: char,
    key: Key,
    now: u64,
    post: SearchPanel,
    command: SearchCommand,
)
    requires
        panel.key_rel(key, now, &post, command),
        key.code == KeyCode::Char(c),
        !key.control && !key.alt,
        panel.focus != SearchFocus::Results,
    ensures
        post.field(panel.focus) == panel.field(panel.focus).push(c),
        post.focus == panel.focus,
{
}

/// A search that was begun for what is typed now is shown when its result
/// comes; one that was overtaken is not.
pub proof fn law_late_results_are_dropped(panel: SearchPanel, result: SearchResult)
    ensures
        panel.query@ != result.query@ ==> panel.answered(result) == panel,
        panel.answered_by(result) ==> panel.answered(result).hits == result.hits
            && !panel.answered(result).loading,
{
}

/// An option that is pressed twice is as before.
pub proof fn law_options_toggle_back(options: SearchOptions, code: KeyCode)
    requires
        toggled_by(options, code) is Some,
    ensures
        toggled_by(toggled_by(options, code)->0, code) == Some(options),
{
}

} // verus!
