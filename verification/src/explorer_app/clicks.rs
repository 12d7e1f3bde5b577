//! What each mouse event does in the Explorer.

use crate::explorer_app::app::{
    asked, join_effects, just, nothing, one, App, Effect, EffectView, Overlay, Screen,
};
use crate::explorer_app::keys::{action_flags, flags_of};
use crate::explorer_app::panel::{SearchCommand, SearchPanel};
use crate::explorer_app::tree::{
    folder_click_toggles, hits_chevron, on_chevron, row_under, Row, TreeList,
};
use crate::geometry::{
    hits, hits_activity_button, hits_collapse_button, in_area, on_activity_button,
    on_collapse_button,
};
use crate::input::{Mouse, MouseKind};
use crate::popup::{
    menu_mouse, menu_mouse_spec, settings_mouse, settings_mouse_spec, MenuMouse, SettingsMouse,
};
use crate::scm_app::clicks::{title_at, title_hit};
use crate::text::str_eq;
use crate::view::{double_click, is_double, Exit, TitleAction, ViewKind};
use vstd::prelude::*;

verus! {

/// What a left click on the frame of the sidebar is for.
#[derive(Clone, Copy, PartialEq, Eq, Structural, Debug)]
pub enum FrameTarget {
    Explorer,
    Search,
    SourceControl,
    Settings,
    Branch,
    Sync,
    /// The part below the bar and above the footer.
    Body,
}

impl App {
    // ---- Modals ----

    /// What a mouse event does in the settings. A click beside them closes them;
    /// a search that was parked under them is shown again.
    pub open spec fn settings_mouse_rel(
        &self,
        step: SettingsMouse,
        post: &App,
        out: Seq<EffectView>,
    ) -> bool {
        match step {
            SettingsMouse::Nothing => *post == *self && out.len() == 0,
            SettingsMouse::Point(i) => *post == (App { overlay: self.overlay_at(i), ..*self })
                && out.len() == 0,
            SettingsMouse::Toggle(i) => *post == (App { overlay: self.overlay_at(i), ..*self })
                && out == just(EffectView::ToggleSetting(i)),
            SettingsMouse::Close => *post == self.resumed() && out.len() == 0,
        }
    }

    fn run_settings_mouse(&mut self, step: SettingsMouse) -> (res: Vec<Effect>)
        requires
            old(self).wf(),
        ensures
            final(self).wf(),
            old(self).settings_mouse_rel(step, final(self), asked(res@)),
    {
        match step {
            SettingsMouse::Nothing => nothing(),
            SettingsMouse::Point(i) => {
                self.select_line(i);
                nothing()
            },
            SettingsMouse::Toggle(i) => {
                self.select_line(i);
                one(Effect::ToggleSetting(i))
            },
            SettingsMouse::Close => {
                self.resume();
                nothing()
            },
        }
    }

    /// What a mouse event does in a menu. A click beside it closes it; with the
    /// right button it opens another.
    pub open spec fn menu_mouse_rel(
        &self,
        step: MenuMouse,
        post: &App,
        out: Seq<EffectView>,
    ) -> bool {
        match step {
            MenuMouse::Nothing => *post == *self && out.len() == 0,
            MenuMouse::Point(i) => *post == (App { overlay: self.overlay_at(i), ..*self })
                && out.len() == 0,
            MenuMouse::Activate(i) => (App {
                overlay: self.overlay_at(i),
                ..*self
            }).activate_rel(post, out),
            MenuMouse::Close => *post == self.resumed() && out.len() == 0,
            MenuMouse::Reopen(x, y) => (App { overlay: None, ..*self }).context_rel(
                x,
                y,
                post,
                out,
            ),
        }
    }

    fn run_menu_mouse(&mut self, step: MenuMouse) -> (res: Vec<Effect>)
        requires
            old(self).wf(),
        ensures
            final(self).wf(),
            old(self).menu_mouse_rel(step, final(self), asked(res@)),
    {
        match step {
            MenuMouse::Nothing => nothing(),
            MenuMouse::Point(i) => {
                self.select_line(i);
                nothing()
            },
            MenuMouse::Activate(i) => {
                self.select_line(i);
                self.activate_menu_entry()
            },
            MenuMouse::Close => {
                self.resume();
                nothing()
            },
            MenuMouse::Reopen(x, y) => {
                self.overlay = None;
                self.open_context_menu(x, y)
            },
        }
    }

    /// What a mouse event does while something other than the search lies over
    /// the tree; `rows` is the number of settings. Prompts and quick open take
    /// no clicks.
    pub open spec fn overlay_mouse_rel(
        &self,
        rows: usize,
        mouse: Mouse,
        post: &App,
        out: Seq<EffectView>,
    ) -> bool {
        match self.overlay {
            Some(Overlay::Settings { selected, rect, scroll }) => self.settings_mouse_rel(
                settings_mouse_spec(rect, scroll, rows, mouse),
                post,
                out,
            ),
            Some(Overlay::Menu { x, y, target, entries, selected, rect }) => self.menu_mouse_rel(
                menu_mouse_spec(rect, action_flags(entries@), mouse),
                post,
                out,
            ),
            Some(Overlay::BranchPicker) => *post == *self && out == just(EffectView::ToPicker),
            _ => *post == *self && out.len() == 0,
        }
    }

    pub fn overlay_mouse(&mut self, rows: usize, mouse: Mouse) -> (res: Vec<Effect>)
        requires
            old(self).wf(),
        ensures
            final(self).wf(),
            old(self).overlay_mouse_rel(rows, mouse, final(self), asked(res@)),
    {
        let (settings, menu): (Option<SettingsMouse>, Option<MenuMouse>) = match &self.overlay {
            Some(Overlay::Settings { rect, scroll, .. }) => (
                Some(settings_mouse(*rect, *scroll, rows, mouse)),
                None,
            ),
            Some(Overlay::Menu { entries, rect, .. }) => {
                let flags: Vec<bool> = flags_of(entries);
                (None, Some(menu_mouse(*rect, &flags, mouse)))
            },
            _ => (None, None),
        };
        if let Some(step) = settings {
            return self.run_settings_mouse(step);
        }
        if let Some(step) = menu {
            return self.run_menu_mouse(step);
        }
        if matches!(self.overlay, Some(Overlay::BranchPicker)) {
            one(Effect::ToPicker)
        } else {
            nothing()
        }
    }

    // ---- The frame ----

    pub open spec fn frame_target_spec(&self, x: u16, y: u16) -> FrameTarget {
        let zones = self.screen.zones;
        if self.mode.merged && on_activity_button(zones.explorer, zones.activity_row, x, y) {
            FrameTarget::Explorer
        } else if self.mode.merged && on_activity_button(zones.search, zones.activity_row, x, y) {
            FrameTarget::Search
        } else if self.mode.merged && on_activity_button(
            zones.source_control,
            zones.activity_row,
            x,
            y,
        ) {
            FrameTarget::SourceControl
        } else if in_area(zones.gear, x, y) {
            FrameTarget::Settings
        } else if in_area(zones.footer_branch, x, y) {
            FrameTarget::Branch
        } else if in_area(zones.footer_sync, x, y) {
            FrameTarget::Sync
        } else {
            FrameTarget::Body
        }
    }

    pub fn frame_target(&self, x: u16, y: u16) -> (res: FrameTarget)
        ensures
            res == self.frame_target_spec(x, y),
    {
        let zones = self.screen.zones;
        if self.mode.merged {
            if hits_activity_button(zones.explorer, zones.activity_row, x, y) {
                return FrameTarget::Explorer;
            }
            if hits_activity_button(zones.search, zones.activity_row, x, y) {
                return FrameTarget::Search;
            }
            if hits_activity_button(zones.source_control, zones.activity_row, x, y) {
                return FrameTarget::SourceControl;
            }
        }
        if hits(zones.gear, x, y) {
            FrameTarget::Settings
        } else if hits(zones.footer_branch, x, y) {
            FrameTarget::Branch
        } else if hits(zones.footer_sync, x, y) {
            FrameTarget::Sync
        } else {
            FrameTarget::Body
        }
    }

    /// What a left click on the frame does.
    pub open spec fn frame_rel(
        &self,
        target: FrameTarget,
        post: &App,
        out: Seq<EffectView>,
    ) -> bool {
        match target {
            FrameTarget::Explorer => *post == (App { overlay: None, ..*self }) && out == just(
                EffectView::ShareSearch(false),
            ),
            FrameTarget::Search => self.open_search_rel(false, post, out),
            FrameTarget::SourceControl => *post == *self && out == self.switch_spec(
                ViewKind::SourceControl,
            ).0,
            FrameTarget::Settings => *post == self.settings_opened() && out.len() == 0,
            FrameTarget::Branch => *post == *self && out == (if self.repo.present {
                just(EffectView::PickBranch)
            } else {
                Seq::empty()
            }),
            FrameTarget::Sync => self.sync_rel(post, out),
            FrameTarget::Body => *post == *self && out.len() == 0,
        }
    }

    fn click_frame(&mut self, target: FrameTarget) -> (res: Vec<Effect>)
        requires
            old(self).wf(),
        ensures
            final(self).wf(),
            old(self).frame_rel(target, final(self), asked(res@)),
    {
        match target {
            FrameTarget::Explorer => {
                self.overlay = None;
                one(Effect::ShareSearch(false))
            },
            FrameTarget::Search => self.open_content_search(false),
            FrameTarget::SourceControl => self.switch_to(ViewKind::SourceControl).0,
            FrameTarget::Settings => {
                self.open_settings();
                nothing()
            },
            FrameTarget::Branch => self.open_branch_picker(),
            FrameTarget::Sync => self.sync_git_footer(),
            FrameTarget::Body => nothing(),
        }
    }

    // ---- The title bar ----

    /// What a button of the title bar does.
    pub open spec fn title_rel(
        &self,
        action: TitleAction,
        post: &App,
        out: Seq<EffectView>,
    ) -> bool {
        match action {
            TitleAction::NewFile => self.create_rel(false, post) && out.len() == 0,
            TitleAction::NewFolder => self.create_rel(true, post) && out.len() == 0,
            TitleAction::Refresh => self.refresh_rel(post, out),
            TitleAction::CollapseAll => self.collapse_all_rel(post, out),
        }
    }

    pub fn title_action(&mut self, action: TitleAction) -> (res: Vec<Effect>)
        requires
            old(self).wf(),
        ensures
            final(self).wf(),
            old(self).title_rel(action, final(self), asked(res@)),
    {
        match action {
            TitleAction::NewFile => {
                self.open_create_prompt(false);
                nothing()
            },
            TitleAction::NewFolder => {
                self.open_create_prompt(true);
                nothing()
            },
            TitleAction::Refresh => self.refresh_tree(),
            TitleAction::CollapseAll => self.collapse_all(),
        }
    }

    // ---- Rows ----

    /// What a click on a row does once the row is selected. A folder is
    /// expanded or collapsed, but the second click of a double click on its name
    /// does not undo the first. A file is shown, or opened in the editor; a
    /// double click keeps the preview that the first click has opened.
    pub open spec fn row_rel(
        &self,
        row: Row,
        column: u16,
        double: bool,
        post: &App,
        out: Seq<EffectView>,
    ) -> bool {
        if row.is_dir {
            if on_chevron(column, row.depth as nat) || !double {
                self.toggle_rel(post, out)
            } else {
                *post == *self && out.len() == 0
            }
        } else if self.mode.editor_on_click {
            if double {
                *post == *self && out.len() == 0
            } else {
                self.editor_rel(row.path@, post, out)
            }
        } else if double && self.shows(row.path@) {
            *post == *self && out == just(EffectView::Pin(row.path@))
        } else {
            self.preview_rel(row.path@, None, post, out)
        }
    }

    /// The most recent preview shows this file.
    pub open spec fn shows(&self, path: Seq<char>) -> bool {
        self.last_preview matches Some(shown) && shown@ == path
    }

    /// The Explorer once the `i`th row was clicked: it is selected, and the
    /// click is remembered.
    pub open spec fn clicked(&self, i: usize, now: u64) -> App {
        App { list: self.list.selecting(i as int), last_click: Some((i, now)), ..*self }
    }

    /// What a left click on the `i`th row does: what selecting it publishes
    /// comes first.
    pub open spec fn click_row_rel(
        &self,
        i: usize,
        column: u16,
        now: u64,
        post: &App,
        out: Seq<EffectView>,
    ) -> bool {
        &&& out.len() > 0
        &&& out[0] == EffectView::Persist
        &&& self.clicked(i, now).row_rel(
            self.list.rows@[i as int],
            column,
            is_double(self.last_click, i, now),
            post,
            out.skip(1),
        )
    }

    fn run_row(&mut self, path: String, is_dir: bool, toggles: bool, double: bool) -> (res: Vec<
        Effect,
    >)
        requires
            old(self).wf(),
        ensures
            final(self).wf(),
            if is_dir {
                if toggles {
                    old(self).toggle_rel(final(self), asked(res@))
                } else {
                    *final(self) == *old(self) && asked(res@).len() == 0
                }
            } else if old(self).mode.editor_on_click {
                if double {
                    *final(self) == *old(self) && asked(res@).len() == 0
                } else {
                    old(self).editor_rel(path@, final(self), asked(res@))
                }
            } else if double && old(self).shows(path@) {
                *final(self) == *old(self) && asked(res@) == just(EffectView::Pin(path@))
            } else {
                old(self).preview_rel(path@, None, final(self), asked(res@))
            },
    {
        if is_dir {
            if toggles {
                return self.toggle();
            }
            return nothing();
        }
        if self.mode.editor_on_click {
            if double {
                return nothing();
            }
            return self.open_custom_editor(path);
        }
        let shown: bool = match &self.last_preview {
            Some(last) => str_eq(last.as_str(), path.as_str()),
            None => false,
        };
        if double && shown {
            return one(Effect::Pin(path));
        }
        self.open_preview_at(path, None)
    }

    pub fn click_row(&mut self, i: usize, column: u16, now: u64) -> (res: Vec<Effect>)
        requires
            old(self).wf(),
            i < old(self).list.rows@.len(),
        ensures
            final(self).wf(),
            old(self).click_row_rel(i, column, now, final(self), asked(res@)),
    {
        let double: bool = double_click(self.last_click, i, now);
        let row: &Row = &self.list.rows[i];
        let path: String = row.path.clone();
        let is_dir: bool = row.is_dir;
        let toggles: bool = folder_click_toggles(hits_chevron(column, row.depth), double);
        let first: Vec<Effect> = self.select(i);
        self.last_click = Some((i, now));
        assert(*self == old(self).clicked(i, now));
        let rest: Vec<Effect> = self.run_row(path, is_dir, toggles, double);
        let out: Vec<Effect> = join_effects(first, rest);
        assert(asked(out@).skip(1) =~= asked(rest@));
        out
    }

    // ---- The search ----

    /// What a mouse event does in the search: the panel takes it, and what the
    /// panel asks for is done.
    pub open spec fn search_mouse_rel(
        &self,
        panel: SearchPanel,
        mouse: Mouse,
        now: u64,
        post: &App,
        out: Seq<EffectView>,
    ) -> bool {
        exists|after: SearchPanel, command: SearchCommand|
            #[trigger] panel.mouse_rel(
                self.screen.search_zones,
                self.screen.result_rows@,
                mouse,
                now,
                &after,
                command,
            ) && (App { overlay: Some(Overlay::Search(after)), ..*self }).command_rel(
                command,
                post,
                out,
            )
    }

    fn search_mouse(&mut self, panel: SearchPanel, mouse: Mouse, now: u64) -> (res: Vec<Effect>)
        requires
            old(self).wf(),
            panel.wf(),
        ensures
            final(self).wf(),
            old(self).search_mouse_rel(panel, mouse, now, final(self), asked(res@)),
    {
        let mut after: SearchPanel = panel;
        let command: SearchCommand = after.on_mouse(
            self.screen.search_zones,
            &self.screen.result_rows,
            mouse,
            now,
        );
        self.overlay = Some(Overlay::Search(after));
        let ghost shown: App = *self;
        let out: Vec<Effect> = self.run_command(command);
        assert(panel.mouse_rel(
            old(self).screen.search_zones,
            old(self).screen.result_rows@,
            mouse,
            now,
            &after,
            command,
        ));
        assert(shown == (App { overlay: Some(Overlay::Search(after)), ..*old(self) }));
        out
    }

    // ---- Every mouse event ----

    /// What a left click on the tree does.
    pub open spec fn left_rel(
        &self,
        x: u16,
        y: u16,
        now: u64,
        post: &App,
        out: Seq<EffectView>,
    ) -> bool {
        match title_at(self.screen.title_zones@, 0, x, y) {
            Some(action) => self.title_rel(action, post, out),
            None => if on_collapse_button(x, y, self.screen.width, self.screen.height) {
                *post == *self && out == just(EffectView::Close { snooze: true })
            } else {
                match row_under(self.list.body, self.list.rows@.len(), y) {
                    Some(i) => self.click_row_rel(i, x, now, post, out),
                    None => self.clear_rel(post, out),
                }
            },
        }
    }

    fn left_click(&mut self, x: u16, y: u16, now: u64) -> (res: Vec<Effect>)
        requires
            old(self).wf(),
        ensures
            final(self).wf(),
            old(self).left_rel(x, y, now, final(self), asked(res@)),
    {
        if let Some(action) = title_hit(&self.screen.title_zones, x, y) {
            return self.title_action(action);
        }
        if hits_collapse_button(x, y, self.screen.width, self.screen.height) {
            return one(Effect::Close { snooze: true });
        }
        match self.list.row_at(y) {
            Some(i) => self.click_row(i, x, now),
            None => self.clear_selection(),
        }
    }

    /// What a mouse event does in the tree.
    pub open spec fn tree_mouse_rel(
        &self,
        mouse: Mouse,
        now: u64,
        post: &App,
        out: Seq<EffectView>,
    ) -> bool {
        match mouse.kind {
            MouseKind::Moved => {
                &&& *post == (App {
                    list: TreeList {
                        hovered: row_under(self.list.body, self.list.rows@.len(), mouse.row),
                        ..self.list
                    },
                    ..*self
                })
                &&& out.len() == 0
            },
            MouseKind::ScrollUp => *post == (App { list: self.list.scrolled(-3), ..*self })
                && out.len() == 0,
            MouseKind::ScrollDown => *post == (App { list: self.list.scrolled(3), ..*self })
                && out.len() == 0,
            MouseKind::LeftDown => self.left_rel(mouse.column, mouse.row, now, post, out),
            MouseKind::RightDown => (App { notice: None, ..*self }).context_rel(
                mouse.column,
                mouse.row,
                post,
                out,
            ),
            MouseKind::Other => *post == *self && out.len() == 0,
        }
    }

    fn tree_mouse(&mut self, mouse: Mouse, now: u64) -> (res: Vec<Effect>)
        requires
            old(self).wf(),
        ensures
            final(self).wf(),
            old(self).tree_mouse_rel(mouse, now, final(self), asked(res@)),
    {
        match mouse.kind {
            MouseKind::Moved => {
                self.list.hovered = self.list.row_at(mouse.row);
                nothing()
            },
            MouseKind::ScrollUp => {
                self.list.scroll_view(-3);
                nothing()
            },
            MouseKind::ScrollDown => {
                self.list.scroll_view(3);
                nothing()
            },
            MouseKind::LeftDown => self.left_click(mouse.column, mouse.row, now),
            MouseKind::RightDown => {
                self.notice = None;
                self.open_context_menu(mouse.column, mouse.row)
            },
            MouseKind::Other => nothing(),
        }
    }

    /// The Explorer as a mouse event finds it: it knows where the mouse is.
    pub open spec fn pointed(&self, mouse: Mouse) -> App {
        App {
            screen: Screen { mouse_pos: Some((mouse.column, mouse.row)), ..self.screen },
            ..*self
        }
    }

    /// Part of the frame is clicked.
    pub open spec fn on_frame(&self, mouse: Mouse) -> bool {
        mouse.kind == MouseKind::LeftDown && self.frame_target_spec(mouse.column, mouse.row)
            != FrameTarget::Body
    }

    /// What a mouse event does: a modal takes it first, then the frame, then the
    /// search or the tree.
    pub open spec fn mouse_rel(
        &self,
        rows: usize,
        mouse: Mouse,
        now: u64,
        post: &App,
        out: Seq<EffectView>,
    ) -> bool {
        let at = self.pointed(mouse);
        if self.overlay is Some && !self.in_search() {
            at.overlay_mouse_rel(rows, mouse, post, out)
        } else if at.on_frame(mouse) {
            at.frame_rel(at.frame_target_spec(mouse.column, mouse.row), post, out)
        } else {
            match self.overlay {
                Some(Overlay::Search(panel)) => if mouse.kind == MouseKind::LeftDown
                    && on_collapse_button(
                    mouse.column,
                    mouse.row,
                    self.screen.width,
                    self.screen.height,
                ) {
                    *post == at && out == just(EffectView::Close { snooze: true })
                } else {
                    (App { overlay: None, ..at }).search_mouse_rel(panel, mouse, now, post, out)
                },
                _ => at.tree_mouse_rel(mouse, now, post, out),
            }
        }
    }

    /// How the Explorer ends by a mouse event, if it does.
    pub open spec fn mouse_exit(&self, mouse: Mouse) -> Option<Exit> {
        if (self.overlay is Some && !self.in_search()) || !self.on_frame(mouse) {
            None
        } else if self.frame_target_spec(mouse.column, mouse.row) == FrameTarget::SourceControl {
            self.switch_spec(ViewKind::SourceControl).1
        } else {
            None
        }
    }

    /// Handle a mouse event; `rows` is the number of settings.
    pub fn on_mouse(&mut self, rows: usize, mouse: Mouse, now: u64) -> (res: (
        Vec<Effect>,
        Option<Exit>,
    ))
        requires
            old(self).wf(),
        ensures
            final(self).wf(),
            old(self).mouse_rel(rows, mouse, now, final(self), asked(res.0@)),
            res.1 == old(self).mouse_exit(mouse),
    {
        self.screen.mouse_pos = Some((mouse.column, mouse.row));
        let ghost at: App = *self;
        assert(at == old(self).pointed(mouse));
        let search: bool = self.is_searching();
        if self.overlay.is_some() && !search {
            return (self.overlay_mouse(rows, mouse), None);
        }
        if mouse.kind == MouseKind::LeftDown {
            let target: FrameTarget = self.frame_target(mouse.column, mouse.row);
            if target != FrameTarget::Body {
                let exit: Option<Exit> = if target == FrameTarget::SourceControl
                    && self.mode.merged {
                    Some(Exit::Switch)
                } else {
                    None
                };
                return (self.click_frame(target), exit);
            }
        }
        if !search {
            return (self.tree_mouse(mouse, now), None);
        }
        if mouse.kind == MouseKind::LeftDown && hits_collapse_button(
            mouse.column,
            mouse.row,
            self.screen.width,
            self.screen.height,
        ) {
            return (one(Effect::Close { snooze: true }), None);
        }
        let taken: Option<Overlay> = self.overlay.take();
        match taken {
            Some(Overlay::Search(panel)) => {
                return (self.search_mouse(panel, mouse, now), None);
            },
            other => {
                self.overlay = other;
                return (nothing(), None);
            },
        }
    }
}

// ---- What the mouse promises ----

/// A click that closes a modal gives back the search that it lay over: no click
/// on the settings, and none beside a menu, drops to the tree while a search is
/// parked.
pub proof fn law_clicks_beside_a_modal_resume_the_search(
    app: App,
    rows: usize,
    mouse: Mouse,
    panel: SearchPanel,
    post: App,
    out: Seq<EffectView>,
)
    requires
        app.suspended == Some(panel),
        app.overlay matches Some(Overlay::Settings { .. }) || (app.overlay matches Some(
            Overlay::Menu { rect, entries, .. },
        ) && menu_mouse_spec(rect, action_flags(entries@), mouse) is Close),
        app.overlay_mouse_rel(rows, mouse, &post, out),
        !(post.overlay matches Some(Overlay::Settings { .. })),
    ensures
        post.overlay == Some(Overlay::Search(panel)),
        post.suspended is None,
        out.len() == 0,
{
}

/// A double click on a folder's name leaves the folder as its first click has
/// made it; a click on its arrow always counts.
pub proof fn law_double_clicks_do_not_undo(
    app: App,
    row: Row,
    column: u16,
    post: App,
    out: Seq<EffectView>,
)
    requires
        row.is_dir,
        app.row_rel(row, column, true, &post, out),
        app.list.selected_row_spec() == Some(row),
    ensures
        out.len() > 0 <==> on_chevron(column, row.depth as nat),
{
}

/// A double click on a file that the first click shows keeps that preview and
/// opens no second one.
pub proof fn law_double_clicks_keep_the_preview(
    app: App,
    row: Row,
    column: u16,
    post: App,
    out: Seq<EffectView>,
)
    requires
        !row.is_dir,
        !app.mode.editor_on_click,
        app.shows(row.path@),
        app.row_rel(row, column, true, &post, out),
    ensures
        out == just(EffectView::Pin(row.path@)),
        post == app,
{
}

/// While a modal is open no click reaches what lies under it.
pub proof fn law_modals_take_every_click(
    app: App,
    rows: usize,
    mouse: Mouse,
    now: u64,
    post: App,
    out: Seq<EffectView>,
)
    requires
        app.mouse_rel(rows, mouse, now, &post, out),
        app.overlay matches Some(overlay) && (overlay is Prompt || overlay is ConfirmDelete
            || overlay is QuickOpen),
    ensures
        out.len() == 0,
        post == app.pointed(mouse),
{
}

} // verus!
