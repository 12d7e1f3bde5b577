//! Getting the Explorer ready for a draw: what is on the screen, and where.

use crate::columns::{columns, columns_left, left_over, text_width, truncate_to, truncated};
use crate::explorer_app::app::{App, Overlay, Screen};
use crate::explorer_app::panel::{SearchPanel, SearchZones};
use crate::explorer_app::panel_view::{
    first_shown, layout_spec, result_rows, result_views, result_zones, results_from,
    results_start, search_layout, zones_from, ResultRow, SearchLayout,
};
use crate::explorer_app::tree::TreeList;
use crate::geometry::{area_at, capped, place, plus, Area};
use crate::json::opt_text;
use crate::scm_app::rows::BodyGeom;
use crate::sections::{lies_in, split_rows, total};
use crate::text::{text_pair, to_uppercase, uppercase};
use vstd::prelude::*;

verus! {

/// The search as it is to be drawn.
pub struct SearchFrame {
    /// The first row, which the panel's name stands in.
    pub title: Area,
    pub layout: SearchLayout,
    /// There is room for the results and what is said above them.
    pub room: bool,
    /// What is said above the results.
    pub status: Option<String>,
    pub status_area: Area,
    /// Where the results stand.
    pub list: Area,
    pub rows: Vec<ResultRow>,
    /// The first of `rows` on the screen.
    pub start: usize,
}

/// Where the results stand in a panel.
pub open spec fn list_area(area: Area, results_y: u16, status: bool) -> Area {
    let y = if status {
        capped(results_y + 1)
    } else {
        results_y
    };
    area_at(
        area.x,
        y,
        area.width,
        left_over(capped(area.y + area.height) as int, y as int) as u16,
    )
}

impl SearchPanel {
    /// The panel in `area`, with its results from `scroll` on, or from where the
    /// selected one is shown.
    pub open spec fn frame_rel(
        &self,
        area: Area,
        snap: bool,
        scroll: usize,
        frame: SearchFrame,
    ) -> bool {
        let layout = layout_spec(area, self.details_expanded);
        let list = list_area(area, layout.results_y, self.status_spec() is Some);
        &&& frame.title == area_at(area.x, area.y, area.width, 1)
        &&& frame.layout == layout
        &&& frame.room == self.has_room(area)
        &&& opt_text(frame.status) == self.status_spec()
        &&& frame.status_area == area_at(
            capped(area.x + 1),
            layout.results_y,
            left_over(area.width as int, 2) as u16,
            1,
        )
        &&& frame.list == list
        &&& result_views(frame.rows@) == results_from(self.hits@, 0, list.width)
        &&& frame.start == first_shown(
            results_from(self.hits@, 0, list.width),
            self.selected,
            list.height as int,
            snap,
            scroll as int,
        )
    }

    /// The panel has room for its results.
    pub open spec fn has_room(&self, area: Area) -> bool {
        layout_spec(area, self.details_expanded).results_y < capped(area.y + area.height)
    }

    pub fn frame(&self, area: Area, snap: bool, scroll: usize) -> (res: SearchFrame)
        requires
            self.wf(),
        ensures
            self.frame_rel(area, snap, scroll, res),
    {
        let layout: SearchLayout = search_layout(area, self.details_expanded);
        let status: Option<String> = self.status();
        let y: u16 = if status.is_some() {
            plus(layout.results_y, 1)
        } else {
            layout.results_y
        };
        let bottom: u16 = plus(area.y, area.height);
        let list: Area = place(area.x, y, area.width, bottom.saturating_sub(y));
        let rows: Vec<ResultRow> = result_rows(&self.hits, list.width);
        let start: usize = results_start(
            &rows,
            self.selected,
            list.height as usize,
            snap,
            scroll,
        );
        SearchFrame {
            title: place(area.x, area.y, area.width, 1),
            layout,
            room: layout.results_y < bottom,
            status,
            status_area: place(
                plus(area.x, 1),
                layout.results_y,
                area.width.saturating_sub(2),
                1,
            ),
            list,
            rows,
            start,
        }
    }
}

/// The parts of the Explorer's pane, one below the other.
#[derive(Clone, Copy, PartialEq, Eq, Structural, Debug)]
pub struct FrameParts {
    /// The icons of the views.
    pub bar: Area,
    pub head: Area,
    pub body: Area,
    pub footer: Area,
}

/// The rows of the icon bar, which a unified sidebar has.
pub open spec fn bar_rows(merged: bool) -> u16 {
    if merged {
        3
    } else {
        0
    }
}

impl FrameParts {
    pub open spec fn lie_in(self, screen: Area) -> bool {
        &&& lies_in(self.bar, screen)
        &&& lies_in(self.head, screen)
        &&& lies_in(self.body, screen)
        &&& lies_in(self.footer, screen)
    }

    /// The parts where there is room: the bar, one row for the header, what is
    /// left for the tree, and the footer.
    pub open spec fn stacked(screen: Area, bar: u16, footer: u16) -> FrameParts {
        FrameParts {
            bar: Area { height: bar, ..screen },
            head: Area { y: (screen.y + bar) as u16, height: 1, ..screen },
            body: Area {
                y: (screen.y + bar + 1) as u16,
                height: (screen.height - bar - 1 - footer) as u16,
                ..screen
            },
            footer: Area {
                y: (screen.y + screen.height - footer) as u16,
                height: footer,
                ..screen
            },
        }
    }

    /// Where the search is drawn.
    pub open spec fn search_area(self) -> Area {
        area_at(
            self.head.x,
            self.head.y,
            self.head.width,
            capped(self.head.height + self.body.height),
        )
    }
}

impl App {
    // ---- The tree ----

    /// The tree as it is drawn in `body`.
    pub open spec fn tree_drawn(&self, width: u16, height: u16, body: Area) -> App {
        let list = if self.list.rows@.len() == 0 {
            self.list
        } else {
            TreeList {
                scroll: self.list.drawn_scroll(
                    if body.height == 0 {
                        1
                    } else {
                        body.height as int
                    },
                ) as usize,
                snap: false,
                ..self.list
            }
        };
        App {
            list: TreeList {
                body: BodyGeom { top: body.y, height: body.height, offset: list.scroll },
                ..list
            },
            screen: Screen { width, height, page: page_of(body.height), ..self.screen },
            ..*self
        }
    }

    /// Get the tree ready for a draw in `body` of a pane.
    pub fn prepare_tree(&mut self, width: u16, height: u16, body: Area)
        requires
            old(self).wf(),
        ensures
            final(self).wf(),
            *final(self) == old(self).tree_drawn(width, height, body),
    {
        self.screen.width = width;
        self.screen.height = height;
        self.screen.page = rows_per_page(body.height);
        self.list.prepare(body.height);
        self.list.body = BodyGeom {
            top: body.y,
            height: body.height,
            offset: self.list.scroll,
        };
    }

    // ---- The pane ----

    /// The pane as it is drawn with these parts. The search takes the place of the
    /// header and the tree; the tree keeps its scroll then, and clicks do not reach
    /// it.
    pub open spec fn frame_drawn_rel(
        &self,
        screen: Area,
        parts: FrameParts,
        post: &App,
        drawn: Option<SearchFrame>,
    ) -> bool {
        if self.in_search() {
            (App {
                list: TreeList { body: BodyGeom { top: 0, height: 0, offset: 0 }, ..self.list },
                screen: Screen {
                    width: screen.width,
                    height: screen.height,
                    page: page_of(parts.body.height),
                    ..self.screen
                },
                ..*self
            }).search_drawn_rel(parts.search_area(), post, drawn)
        } else {
            *post == self.tree_drawn(screen.width, screen.height, parts.body) && drawn is None
        }
    }

    /// Get the pane ready for a draw with these parts; returns the search where it
    /// is shown and there is a cell for it.
    pub fn prepare_frame(&mut self, screen: Area, parts: FrameParts) -> (res: Option<SearchFrame>)
        requires
            old(self).wf(),
        ensures
            final(self).wf(),
            old(self).frame_drawn_rel(screen, parts, final(self), res),
    {
        if !self.is_searching() {
            self.prepare_tree(screen.width, screen.height, parts.body);
            return None;
        }
        self.screen.width = screen.width;
        self.screen.height = screen.height;
        self.screen.page = rows_per_page(parts.body.height);
        self.list.body = BodyGeom { top: 0, height: 0, offset: 0 };
        let head: Area = parts.head;
        let rows: u16 = plus(head.height, parts.body.height);
        self.prepare_search(place(head.x, head.y, head.width, rows))
    }

    /// Cut the pane into its parts, with `footer` rows at its bottom, and get it
    /// ready for a draw with them. Where the rows do not suffice it is left open
    /// which parts go without.
    pub fn lay_out(&mut self, screen: Area, footer: u16) -> (res: (
        FrameParts,
        Option<SearchFrame>,
    ))
        requires
            old(self).wf(),
        ensures
            final(self).wf(),
            res.0.lie_in(screen),
            bar_rows(old(self).mode.merged) + 1 + footer <= screen.height && screen.y
                + screen.height <= u16::MAX ==> res.0 == FrameParts::stacked(
                screen,
                bar_rows(old(self).mode.merged),
                footer,
            ),
            old(self).frame_drawn_rel(screen, res.0, final(self), res.1),
    {
        let bar: u16 = if self.mode.merged {
            3
        } else {
            0
        };
        let above: Vec<u16> = vec![bar, 1];
        let cut: Vec<Area> = split_rows(screen, &above, footer);
        proof {
            assert(above@ =~= seq![bar, 1]);
            assert(above@.take(0) =~= Seq::<u16>::empty());
            assert(above@.take(1) =~= seq![bar]);
            assert(above@.take(1).drop_last() =~= Seq::<u16>::empty());
            assert(above@.drop_last() =~= above@.take(1));
            reveal_with_fuel(total, 3);
        }
        let parts: FrameParts = FrameParts { bar: cut[0], head: cut[1], body: cut[2], footer: cut[3] };
        let drawn: Option<SearchFrame> = self.prepare_frame(screen, parts);
        (parts, drawn)
    }

    // ---- The search ----

    /// The search as it is drawn in `area`: clicks reach what was drawn, and
    /// nothing else. Without a row or a column nothing is drawn, and without room
    /// for results none are.
    pub open spec fn search_drawn_rel(
        &self,
        area: Area,
        post: &App,
        drawn: Option<SearchFrame>,
    ) -> bool {
        match self.overlay {
            Some(Overlay::Search(panel)) => if area.width == 0 || area.height == 0 {
                &&& drawn is None
                &&& *post == (App { screen: post.screen, ..*self })
                &&& post.screen == (Screen {
                    search_zones: SearchZones::nowhere_spec(),
                    result_rows: post.screen.result_rows,
                    ..self.screen
                })
                &&& post.screen.result_rows@.len() == 0
            } else {
                &&& drawn matches Some(frame) && panel.frame_rel(
                    area,
                    self.search_snap,
                    self.search_scroll,
                    frame,
                ) && *post == (App {
                    screen: post.screen,
                    search_scroll: if panel.has_room(area) {
                        frame.start
                    } else {
                        self.search_scroll
                    },
                    search_snap: self.search_snap && !panel.has_room(area),
                    ..*self
                }) && post.screen == (Screen {
                    search_zones: frame.layout.zones,
                    result_rows: post.screen.result_rows,
                    ..self.screen
                }) && post.screen.result_rows@ == if panel.has_room(area) {
                    zones_from(result_views(frame.rows@), frame.list, frame.start as int, 0)
                } else {
                    Seq::empty()
                }
            },
            _ => *post == *self && drawn is None,
        }
    }

    /// Get the search ready for a draw in `area`.
    pub fn prepare_search(&mut self, area: Area) -> (res: Option<SearchFrame>)
        requires
            old(self).wf(),
        ensures
            final(self).wf(),
            old(self).search_drawn_rel(area, final(self), res),
    {
        let snap: bool = self.search_snap;
        let scroll: usize = self.search_scroll;
        let frame: SearchFrame = match &self.overlay {
            Some(Overlay::Search(panel)) => {
                if area.width == 0 || area.height == 0 {
                    self.screen.search_zones = SearchZones::nowhere();
                    self.screen.result_rows = Vec::new();
                    return None;
                }
                panel.frame(area, snap, scroll)
            },
            _ => {
                return None;
            },
        };
        self.screen.search_zones = frame.layout.zones;
        if frame.room {
            self.screen.result_rows = result_zones(&frame.rows, frame.list, frame.start);
            self.search_scroll = frame.start;
            self.search_snap = false;
        } else {
            let none: Vec<(Area, usize)> = Vec::new();
            assert(none@ =~= Seq::empty());
            self.screen.result_rows = none;
        }
        Some(frame)
    }
}

/// The rows that a page key moves by: one less than are on the screen.
pub open spec fn page_of(height: u16) -> u16 {
    if height < 2 {
        1
    } else {
        (height - 1) as u16
    }
}

pub(crate) fn rows_per_page(height: u16) -> (res: u16)
    ensures
        res == page_of(height),
{
    if height < 2 {
        1
    } else {
        height - 1
    }
}

/// The folder's name in the header, in capitals and cut where the buttons need
/// the room, and the space between them.
pub open spec fn header_spec(name: Seq<char>, width: u16, gear: u16, actions: u16) -> (
    Seq<char>,
    nat,
) {
    let label = truncated(
        " "@ + uppercase(name),
        left_over(width as int, gear + actions) as usize,
    );
    (label, left_over(width as int, columns(label) + actions + gear))
}

pub fn header(name: &str, width: u16, gear: u16, actions: u16) -> (res: (String, usize))
    ensures
        (res.0@, res.1 as nat) == header_spec(name@, width, gear, actions),
{
    let text: String = text_pair(" ", to_uppercase(name).as_str());
    let room: usize = columns_left(width as usize, gear as usize, actions as usize, 0, 0);
    let label: String = truncate_to(text.as_str(), room);
    let label_width: usize = text_width(label.as_str());
    let pad: usize = columns_left(
        width as usize,
        label_width,
        actions as usize,
        gear as usize,
        0,
    );
    (label, pad)
}

/// The keys that the footer explains.
pub fn hints(merged: bool) -> (res: Vec<(&'static str, &'static str)>)
    ensures
        res@.len() == if merged {
            15nat
        } else {
            12
        },
        forall|i: int|
            0 <= i < res@.len() ==> (#[trigger] res@[i]).0@ == hint_spec(i).0 && res@[i].1@
                == hint_spec(i).1,
{
    let mut hints: Vec<(&'static str, &'static str)> = vec![
        ("↑↓", "move"),
        ("←→", "fold"),
        ("⏎", "toggle"),
        ("r", "refresh"),
        (".", "dotfiles"),
        ("c", "folder"),
        ("ctrl+p", "files"),
        ("ctrl+f", "text"),
        ("m", "menu"),
        ("s", "settings"),
        ("b", "hide"),
        ("q", "quit"),
    ];
    if merged {
        hints.push(("1", "files"));
        hints.push(("2", "search"));
        hints.push(("3", "git"));
    }
    hints
}

/// The `i`th key that the footer explains, and what it does. The last three are
/// there in a unified sidebar only.
pub open spec fn hint_spec(i: int) -> (Seq<char>, Seq<char>) {
    if i == 0 {
        ("↑↓"@, "move"@)
    } else if i == 1 {
        ("←→"@, "fold"@)
    } else if i == 2 {
        ("⏎"@, "toggle"@)
    } else if i == 3 {
        ("r"@, "refresh"@)
    } else if i == 4 {
        ("."@, "dotfiles"@)
    } else if i == 5 {
        ("c"@, "folder"@)
    } else if i == 6 {
        ("ctrl+p"@, "files"@)
    } else if i == 7 {
        ("ctrl+f"@, "text"@)
    } else if i == 8 {
        ("m"@, "menu"@)
    } else if i == 9 {
        ("s"@, "settings"@)
    } else if i == 10 {
        ("b"@, "hide"@)
    } else if i == 11 {
        ("q"@, "quit"@)
    } else if i == 12 {
        ("1"@, "files"@)
    } else if i == 13 {
        ("2"@, "search"@)
    } else {
        ("3"@, "git"@)
    }
}

} // verus!
