//! The parts of the Source Control pane.

use crate::columns::columns;
use crate::explorer_app::frame::{page_of, rows_per_page};
use crate::geometry::Area;
use crate::scm_app::app::{App, ClickZones};
use crate::scm_app::frame::FrameHeights;
use crate::scm_app::panel::Panel;
use crate::sections::{lies_in, split_rows, total};
use vstd::prelude::*;

verus! {

/// The parts of the pane, one below the other.
#[derive(Clone, Copy, PartialEq, Eq, Structural, Debug)]
pub struct PanelParts {
    /// The icons of the views.
    pub bar: Area,
    pub head: Area,
    /// The message box.
    pub message: Area,
    /// The main button.
    pub button: Area,
    /// The Sync Changes row.
    pub sync: Area,
    pub list: Area,
    pub footer: Area,
}

impl PanelParts {
    pub open spec fn lie_in(self, screen: Area) -> bool {
        &&& lies_in(self.bar, screen)
        &&& lies_in(self.head, screen)
        &&& lies_in(self.message, screen)
        &&& lies_in(self.button, screen)
        &&& lies_in(self.sync, screen)
        &&& lies_in(self.list, screen)
        &&& lies_in(self.footer, screen)
    }

    /// The rows that the parts beside the list take.
    pub open spec fn rows(heights: FrameHeights, footer: u16) -> int {
        heights.activity + 1 + heights.message + heights.button + heights.sync + footer
    }

    /// The parts where there is room for all of them: each with its height, one
    /// below the other, and what is left for the list.
    pub open spec fn stacked(screen: Area, heights: FrameHeights, footer: u16) -> PanelParts {
        let head = screen.y + heights.activity;
        let message = head + 1;
        let button = message + heights.message;
        let sync = button + heights.button;
        let list = sync + heights.sync;
        PanelParts {
            bar: Area { height: heights.activity, ..screen },
            head: Area { y: head as u16, height: 1, ..screen },
            message: Area { y: message as u16, height: heights.message, ..screen },
            button: Area { y: button as u16, height: heights.button, ..screen },
            sync: Area { y: sync as u16, height: heights.sync, ..screen },
            list: Area {
                y: list as u16,
                height: (screen.height - PanelParts::rows(heights, footer)) as u16,
                ..screen
            },
            footer: Area {
                y: (screen.y + screen.height - footer) as u16,
                height: footer,
                ..screen
            },
        }
    }
}

/// The totals of five heights, one after the other.
proof fn lemma_five(a: u16, b: u16, c: u16, d: u16, e: u16)
    ensures
        ({
            let all = seq![a, b, c, d, e];
            &&& total(all.take(0)) == 0
            &&& total(all.take(1)) == a
            &&& total(all.take(2)) == a + b
            &&& total(all.take(3)) == a + b + c
            &&& total(all.take(4)) == a + b + c + d
            &&& total(all) == a + b + c + d + e
        }),
{
    let all = seq![a, b, c, d, e];
    reveal_with_fuel(total, 6);
    assert(all.take(5) =~= all);
    assert(all.take(5).drop_last() =~= all.take(4));
    assert(all.take(4).drop_last() =~= all.take(3));
    assert(all.take(3).drop_last() =~= all.take(2));
    assert(all.take(2).drop_last() =~= all.take(1));
    assert(all.take(1).drop_last() =~= all.take(0));
    assert(all.take(0) =~= Seq::<u16>::empty());
}

impl App {
    /// The parts that the pane is cut into, with `footer` rows at its bottom. Where
    /// the rows do not suffice it is left open which parts go without.
    pub open spec fn is_cut_into(
        &self,
        screen: Area,
        sparkle: nat,
        footer: u16,
        parts: PanelParts,
    ) -> bool {
        let heights = self.heights_spec(screen.width, sparkle);
        &&& parts.lie_in(screen)
        &&& PanelParts::rows(heights, footer) <= screen.height && screen.y + screen.height
            <= u16::MAX ==> parts == PanelParts::stacked(screen, heights, footer)
    }

    pub fn sections(&self, screen: Area, sparkle: &str, footer: u16) -> (res: PanelParts)
        requires
            self.wf(),
        ensures
            self.is_cut_into(screen, columns(sparkle@) as nat, footer, res),
    {
        let heights: FrameHeights = self.heights(screen.width, sparkle);
        let above: Vec<u16> = vec![
            heights.activity,
            1,
            heights.message,
            heights.button,
            heights.sync,
        ];
        let cut: Vec<Area> = split_rows(screen, &above, footer);
        proof {
            assert(above@ =~= seq![
                heights.activity,
                1,
                heights.message,
                heights.button,
                heights.sync,
            ]);
            lemma_five(heights.activity, 1, heights.message, heights.button, heights.sync);
        }
        PanelParts {
            bar: cut[0],
            head: cut[1],
            message: cut[2],
            button: cut[3],
            sync: cut[4],
            list: cut[5],
            footer: cut[6],
        }
    }

    /// The hint for the button under the mouse takes the footer.
    pub open spec fn hint_takes_footer(&self) -> bool {
        self.hint_spec() is Some && self.overlay is None && self.flash is None
    }

    /// The panel as it is drawn with these parts. With several repositories the
    /// boxes and buttons stand in the list, and there is nothing above it to click.
    pub open spec fn framed(&self, parts: PanelParts) -> App {
        let none = Area::empty_spec();
        App {
            page: page_of(parts.list.height),
            zones: if self.multi() {
                ClickZones { message: none, sparkle: none, button: none, sync: none, ..self.zones }
            } else {
                self.zones
            },
            ..*self
        }
    }

    /// The panel as it is drawn on a screen, below which the footer has `lines`
    /// lines to say. The list is laid out with them first; where the button that
    /// the mouse is then on has a hint, that takes their place, and the list is
    /// laid out once more.
    pub open spec fn laid_out_rel(
        &self,
        screen: Area,
        sparkle: nat,
        lines: u16,
        git: bool,
        parts: PanelParts,
        kept: bool,
        post: &App,
    ) -> bool {
        let sized = App {
            panel: Panel { width: screen.width, ..self.panel },
            height: screen.height,
            ..*self
        };
        exists|first: PanelParts| #[trigger]
            sized.is_cut_into(screen, sparkle, App::footer_rows(lines, git), first) && ({
                let laid = sized.list_laid(first.list);
                if laid.hint_takes_footer() {
                    &&& !kept
                    &&& laid.is_cut_into(screen, sparkle, App::footer_rows(0, git), parts)
                    &&& *post == laid.list_laid(parts.list).framed(parts)
                } else {
                    kept && parts == first && *post == laid.framed(parts)
                }
            })
    }

    /// Get the panel ready for a draw: cut the pane, and lay the list out. Returns
    /// the parts, and whether the footer keeps its lines.
    pub fn lay_out(&mut self, screen: Area, sparkle: &str, lines: u16, git: bool) -> (res: (
        PanelParts,
        bool,
    ))
        requires
            old(self).wf(),
            lines < u16::MAX - 3,
        ensures
            final(self).wf(),
            old(self).laid_out_rel(
                screen,
                columns(sparkle@) as nat,
                lines,
                git,
                res.0,
                res.1,
                final(self),
            ),
    {
        self.panel.width = screen.width;
        self.height = screen.height;
        let footer: u16 = App::footer_height(lines, git);
        let mut parts: PanelParts = self.sections(screen, sparkle, footer);
        self.prepare_list(parts.list);
        let kept: bool = !self.hint_replaces_keys();
        if !kept {
            let bare: u16 = App::footer_height(0, git);
            parts = self.sections(screen, sparkle, bare);
            self.prepare_list(parts.list);
        }
        self.page = rows_per_page(parts.list.height);
        if self.panel.repos.len() > 1 {
            self.zones.message = Area::empty();
            self.zones.sparkle = Area::empty();
            self.zones.button = Area::empty();
            self.zones.sync = Area::empty();
        }
        (parts, kept)
    }
}

} // verus!
