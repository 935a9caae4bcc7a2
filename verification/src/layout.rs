//! Where the parts of the screen are drawn.

use ratatui::layout::{Constraint, Direction, Flex, Layout, Rect};
use vstd::prelude::*;

use crate::app::App;
use crate::buffer::{lemma_updated_wf, EndpointBuffer};
use crate::mode::Mode;
use crate::pane::{LeftPane, Pane, ZoomPane};
use crate::response::Geometry;

verus! {

/// A rectangle of cells.
#[derive(Debug, Clone, Copy, PartialEq, Eq, Structural)]
pub struct Area {
    /// The leftmost column.
    pub x: u16,
    /// The topmost row.
    pub y: u16,
    /// How many columns.
    pub width: u16,
    /// How many rows.
    pub height: u16,
}

/// A part of an area that is split.
#[derive(Debug, Clone, Copy, PartialEq, Eq, Structural)]
pub enum Part {
    /// It takes what the others leave.
    Fill,
    /// It takes so many cells.
    Length(u16),
}

/// Which way an area is split.
#[derive(Debug, Clone, Copy, PartialEq, Eq, Structural)]
pub enum Axis {
    /// One part below the other.
    Rows,
    /// One part beside the other.
    Columns,
}

/// Where parts stand that do not take the whole area.
#[derive(Debug, Clone, Copy, PartialEq, Eq, Structural)]
pub enum Side {
    /// At the start of it.
    Start,
    /// At the end of it.
    End,
}

impl Area {
    /// Its far edges can be counted.
    pub open spec fn wf(self) -> bool {
        &&& self.x + self.width <= u16::MAX
        &&& self.y + self.height <= u16::MAX
    }

    /// Whether the area lies in another.
    pub open spec fn inside(self, other: Area) -> bool {
        &&& other.x <= self.x
        &&& self.x + self.width <= other.x + other.width
        &&& other.y <= self.y
        &&& self.y + self.height <= other.y + other.height
    }

    /// How far it reaches along an axis.
    pub open spec fn extent(self, axis: Axis) -> int {
        match axis {
            Axis::Rows => self.height as int,
            Axis::Columns => self.width as int,
        }
    }

    /// The piece of it that begins `from` cells along an axis and takes `size` of them.
    pub open spec fn piece(self, axis: Axis, from: int, size: int) -> Area {
        match axis {
            Axis::Rows => Area { y: (self.y + from) as u16, height: size as u16, ..self },
            Axis::Columns => Area { x: (self.x + from) as u16, width: size as u16, ..self },
        }
    }
}

/// How many cells the parts with a length take.
pub open spec fn total(parts: Seq<Part>) -> int
    decreases parts.len(),
{
    if parts.len() == 0 {
        0
    } else {
        total(parts.drop_last()) + match parts.last() {
            Part::Length(n) => n as int,
            Part::Fill => 0,
        }
    }
}

/// How many parts take what the others leave.
pub open spec fn fills(parts: Seq<Part>) -> nat
    decreases parts.len(),
{
    if parts.len() == 0 {
        0
    } else {
        fills(parts.drop_last()) + if parts.last() is Fill {
            1nat
        } else {
            0nat
        }
    }
}

/// Where the first `n` parts end, with `rest` cells for one that fills.
pub open spec fn offset(parts: Seq<Part>, n: int, rest: int) -> int
    decreases n,
{
    if n <= 0 {
        0
    } else {
        offset(parts, n - 1, rest) + match parts[n - 1] {
            Part::Length(k) => k as int,
            Part::Fill => rest,
        }
    }
}

/// An area split where there is room for all its parts: each gets its length, one that
/// fills what is left, and without one the parts stand at one side.
pub open spec fn laid_out(area: Area, axis: Axis, side: Side, parts: Seq<Part>) -> Seq<Area> {
    let rest = area.extent(axis) - total(parts);
    let lead = if fills(parts) == 0 && side == Side::End {
        rest
    } else {
        0
    };
    Seq::new(
        parts.len(),
        |i: int|
            area.piece(
                axis,
                lead + offset(parts, i, rest),
                offset(parts, i + 1, rest) - offset(parts, i, rest),
            ),
    )
}

/// Trusted: `Layout::split` of ratatui, with `Constraint::Length` and
/// `Constraint::Fill(1)`, and `Flex::Start` or `Flex::End`. It gives an area for each
/// part, each within the area that is split. Where there is room for the lengths and at
/// most one part fills, each part gets its length, the one that fills the rest, and
/// without one the parts stand at the start or at the end. A single part that is too
/// long gets the whole area. How several parts share an area that is too small for
/// them is not said.
#[verifier::external_body]
fn split(area: Area, axis: Axis, side: Side, parts: &Vec<Part>) -> (r: Vec<Area>)
    requires
        area.wf(),
    ensures
        r@.len() == parts@.len(),
        forall|i: int| 0 <= i < r@.len() ==> (#[trigger] r@[i]).inside(area),
        fills(parts@) <= 1 && total(parts@) <= area.extent(axis) ==> r@ == laid_out(
            area,
            axis,
            side,
            parts@,
        ),
        parts@.len() == 1 && total(parts@) > area.extent(axis) ==> r@ == seq![area],
{
    let direction = match axis {
        Axis::Rows => Direction::Vertical,
        Axis::Columns => Direction::Horizontal,
    };
    let flex = match side {
        Side::Start => Flex::Start,
        Side::End => Flex::End,
    };
    let constraints = parts.iter().map(|p| match p {
        Part::Fill => Constraint::Fill(1),
        Part::Length(n) => Constraint::Length(*n),
    });
    let whole = Rect::new(area.x, area.y, area.width, area.height);
    let rects = Layout::new(direction, constraints).flex(flex).split(whole);
    rects.iter().map(|r| Area { x: r.x, y: r.y, width: r.width, height: r.height }).collect()
}

/// The cells that a part gets, where `rest` are left for one that fills.
pub open spec fn size_of(part: Part, rest: int) -> int {
    match part {
        Part::Length(n) => n as int,
        Part::Fill => rest,
    }
}

/// The cells that a part takes in any case.
pub open spec fn needs(part: Part) -> int {
    size_of(part, 0)
}

fn split_in_two(area: Area, axis: Axis, a: Part, b: Part) -> (r: (Area, Area))
    requires
        area.wf(),
        !(a is Fill && b is Fill),
    ensures
        r.0.inside(area),
        r.1.inside(area),
        ({
            let rest = area.extent(axis) - needs(a) - needs(b);
            rest >= 0 ==> {
                &&& r.0 == area.piece(axis, 0, size_of(a, rest))
                &&& r.1 == area.piece(axis, size_of(a, rest), size_of(b, rest))
            }
        }),
{
    let parts = vec![a, b];
    proof {
        assert(parts@ =~= seq![a, b]);
        reveal_with_fuel(total, 3);
        reveal_with_fuel(fills, 3);
        reveal_with_fuel(offset, 4);
        assert(parts@.drop_last() =~= seq![a]);
        assert(seq![a].drop_last() =~= Seq::empty());
    }
    let r = split(area, axis, Side::Start, &parts);
    assert(r@[0].inside(area) && r@[1].inside(area));
    (r[0], r[1])
}

fn split_in_three(area: Area, axis: Axis, a: Part, b: Part, c: Part) -> (r: (Area, Area, Area))
    requires
        area.wf(),
        !(a is Fill && b is Fill),
        !(a is Fill && c is Fill),
        !(b is Fill && c is Fill),
    ensures
        r.0.inside(area),
        r.1.inside(area),
        r.2.inside(area),
        ({
            let rest = area.extent(axis) - needs(a) - needs(b) - needs(c);
            rest >= 0 ==> {
                &&& r.0 == area.piece(axis, 0, size_of(a, rest))
                &&& r.1 == area.piece(axis, size_of(a, rest), size_of(b, rest))
                &&& r.2 == area.piece(
                    axis,
                    size_of(a, rest) + size_of(b, rest),
                    size_of(c, rest),
                )
            }
        }),
{
    let parts = vec![a, b, c];
    proof {
        assert(parts@ =~= seq![a, b, c]);
        reveal_with_fuel(total, 4);
        reveal_with_fuel(fills, 4);
        reveal_with_fuel(offset, 5);
        assert(parts@.drop_last() =~= seq![a, b]);
        assert(seq![a, b].drop_last() =~= seq![a]);
        assert(seq![a].drop_last() =~= Seq::empty());
    }
    let r = split(area, axis, Side::Start, &parts);
    assert(r@[0].inside(area) && r@[1].inside(area) && r@[2].inside(area));
    (r[0], r[1], r[2])
}

/// So many cells at the end of an area, or all of it where it has fewer.
pub open spec fn at_end(area: Area, axis: Axis, size: u16) -> Area {
    if size <= area.extent(axis) {
        area.piece(axis, area.extent(axis) - size, size as int)
    } else {
        area
    }
}

fn take_end(area: Area, axis: Axis, size: u16) -> (r: Area)
    requires
        area.wf(),
    ensures
        r == at_end(area, axis, size),
        r.inside(area),
{
    let parts = vec![Part::Length(size)];
    proof {
        assert(parts@ =~= seq![Part::Length(size)]);
        reveal_with_fuel(total, 2);
        reveal_with_fuel(fills, 2);
        reveal_with_fuel(offset, 3);
        assert(parts@.drop_last() =~= Seq::empty());
    }
    let r = split(area, axis, Side::End, &parts);
    assert(r@[0].inside(area));
    r[0]
}

/// Where a popup of a size is drawn: in the lower right corner of an area.
pub fn popup_area(area: Area, width: u16, height: u16) -> (r: Area)
    requires
        area.wf(),
    ensures
        r == at_end(at_end(area, Axis::Columns, width), Axis::Rows, height),
        r.inside(area),
{
    let column = take_end(area, Axis::Columns, width);
    take_end(column, Axis::Rows, height)
}

/// The rows of the URL bar.
pub const URL_BAR_HEIGHT: u16 = 3;

/// The rows of a pane that is collapsed.
pub const COLLAPSED_HEIGHT: u16 = 3;

/// The columns of the left column.
pub const EXPLORER_WIDTH: u16 = 30;

/// A number less another, and never less than none.
pub open spec fn less(a: u16, b: u16) -> u16 {
    if a >= b {
        (a - b) as u16
    } else {
        0
    }
}

/// The rows of the request pane and of the response pane, out of those that the URL bar
/// leaves: half each, or all but those of a stub for the one that is zoomed.
pub open spec fn pane_heights(left: u16, zoom: Option<ZoomPane>) -> (u16, u16) {
    match zoom {
        Some(ZoomPane::Request) => (less(left, COLLAPSED_HEIGHT), COLLAPSED_HEIGHT),
        Some(ZoomPane::Response) => (COLLAPSED_HEIGHT, less(left, COLLAPSED_HEIGHT)),
        None => (left / 2, (left - left / 2) as u16),
    }
}

fn heights_of(left: u16, zoom: Option<ZoomPane>) -> (r: (u16, u16))
    ensures
        r == pane_heights(left, zoom),
{
    let rest: u16 = if left >= COLLAPSED_HEIGHT {
        left - COLLAPSED_HEIGHT
    } else {
        0
    };
    match zoom {
        Some(ZoomPane::Request) => (rest, COLLAPSED_HEIGHT),
        Some(ZoomPane::Response) => (COLLAPSED_HEIGHT, rest),
        None => (left / 2, left - left / 2),
    }
}

/// The parts of the screen.
#[derive(Debug, Clone, Copy, PartialEq, Eq, Structural)]
pub struct Screen {
    /// All but the rows at the bottom.
    pub main: Area,
    /// The row of the message, where there is one.
    pub message: Option<Area>,
    /// The status line.
    pub status: Area,
    /// The tree, unless the left column is hidden.
    pub tree: Option<Area>,
    /// The list of sequences, where it is shown.
    pub sequences: Option<Area>,
    /// The URL bar.
    pub url_bar: Area,
    /// The request pane.
    pub request: Area,
    /// The response pane.
    pub response: Area,
}

impl Screen {
    /// Every part lies in an area.
    pub open spec fn inside(self, area: Area) -> bool {
        &&& self.main.inside(area)
        &&& (self.message matches Some(a) ==> a.inside(area))
        &&& self.status.inside(area)
        &&& (self.tree matches Some(a) ==> a.inside(area))
        &&& (self.sequences matches Some(a) ==> a.inside(area))
        &&& self.url_bar.inside(area)
        &&& self.request.inside(area)
        &&& self.response.inside(area)
    }
}

impl App {
    /// Whether an area has room for all parts of the screen.
    pub open spec fn fits(&self, area: Area, message: bool) -> bool {
        let bottom: int = if message {
            2
        } else {
            1
        };
        &&& bottom + (if self.panes.zoom is Some {
            URL_BAR_HEIGHT + COLLAPSED_HEIGHT
        } else {
            URL_BAR_HEIGHT as int
        }) <= area.height
        &&& !self.panes.explorer_hidden ==> EXPLORER_WIDTH <= area.width
    }

    /// Where the parts of the screen are drawn, where there is room for them. The status
    /// line is at the bottom, and a message has the row above it. The left column has
    /// its own width; where the sequences are shown, the half that is not active is
    /// collapsed. The other column holds the URL bar, the request and the response.
    pub open spec fn spec_screen(&self, area: Area, message: bool) -> Screen {
        let bottom: int = if message {
            2
        } else {
            1
        };
        let main = area.piece(Axis::Rows, 0, area.height - bottom);
        let shown = !self.panes.explorer_hidden;
        let left = main.piece(Axis::Columns, 0, EXPLORER_WIDTH as int);
        let right = if shown {
            main.piece(Axis::Columns, EXPLORER_WIDTH as int, main.width - EXPLORER_WIDTH)
        } else {
            main
        };
        let halves = self.panes.sequences_shown;
        let tree_rows: int = if self.panes.left_active == LeftPane::Sequences {
            COLLAPSED_HEIGHT as int
        } else {
            left.height - COLLAPSED_HEIGHT
        };
        let heights = pane_heights((right.height - URL_BAR_HEIGHT) as u16, self.panes.zoom);
        Screen {
            main,
            message: if message {
                Some(area.piece(Axis::Rows, area.height - 2, 1))
            } else {
                None
            },
            status: area.piece(Axis::Rows, area.height - 1, 1),
            tree: if !shown {
                None
            } else if halves {
                Some(left.piece(Axis::Rows, 0, tree_rows))
            } else {
                Some(left)
            },
            sequences: if shown && halves {
                Some(left.piece(Axis::Rows, tree_rows, left.height - tree_rows))
            } else {
                None
            },
            url_bar: right.piece(Axis::Rows, 0, URL_BAR_HEIGHT as int),
            request: right.piece(Axis::Rows, URL_BAR_HEIGHT as int, heights.0 as int),
            response: right.piece(
                Axis::Rows,
                URL_BAR_HEIGHT + heights.0,
                heights.1 as int,
            ),
        }
    }
}

impl App {
    fn split_left(&self, left: Area) -> (r: (Area, Option<Area>))
        requires
            left.wf(),
        ensures
            r.0.inside(left),
            r.1 matches Some(a) ==> a.inside(left),
            r.1 is Some == self.panes.sequences_shown,
            !self.panes.sequences_shown ==> r.0 == left,
            self.panes.sequences_shown && left.height >= COLLAPSED_HEIGHT ==> ({
                let tree_rows: int = if self.panes.left_active == LeftPane::Sequences {
                    COLLAPSED_HEIGHT as int
                } else {
                    left.height - COLLAPSED_HEIGHT
                };
                &&& r.0 == left.piece(Axis::Rows, 0, tree_rows)
                &&& r.1 == Some(left.piece(Axis::Rows, tree_rows, left.height - tree_rows))
            }),
    {
        if !self.panes.sequences_shown {
            return (left, None);
        }
        let stub = Part::Length(COLLAPSED_HEIGHT);
        let (tree, sequences) = if self.panes.left_active == LeftPane::Sequences {
            split_in_two(left, Axis::Rows, stub, Part::Fill)
        } else {
            split_in_two(left, Axis::Rows, Part::Fill, stub)
        };
        (tree, Some(sequences))
    }

    fn split_right(&self, right: Area) -> (r: (Area, Area, Area))
        requires
            right.wf(),
        ensures
            r.0.inside(right),
            r.1.inside(right),
            r.2.inside(right),
            URL_BAR_HEIGHT + (if self.panes.zoom is Some {
                COLLAPSED_HEIGHT as int
            } else {
                0
            }) <= right.height ==> ({
                let heights = pane_heights(
                    (right.height - URL_BAR_HEIGHT) as u16,
                    self.panes.zoom,
                );
                &&& r.0 == right.piece(Axis::Rows, 0, URL_BAR_HEIGHT as int)
                &&& r.1 == right.piece(Axis::Rows, URL_BAR_HEIGHT as int, heights.0 as int)
                &&& r.2 == right.piece(Axis::Rows, URL_BAR_HEIGHT + heights.0, heights.1 as int)
            }),
    {
        let left: u16 = if right.height >= URL_BAR_HEIGHT {
            right.height - URL_BAR_HEIGHT
        } else {
            0
        };
        let (request, response) = heights_of(left, self.panes.zoom);
        split_in_three(
            right,
            Axis::Rows,
            Part::Length(URL_BAR_HEIGHT),
            Part::Length(request),
            Part::Length(response),
        )
    }

    /// Where the parts of the screen are drawn. `message` is whether there is a message.
    pub fn screen(&self, area: Area, message: bool) -> (r: Screen)
        requires
            area.wf(),
        ensures
            r.inside(area),
            r.message is Some == message,
            r.tree is Some == !self.panes.explorer_hidden,
            r.sequences is Some == (!self.panes.explorer_hidden && self.panes.sequences_shown),
            self.fits(area, message) ==> r == self.spec_screen(area, message),
    {
        let row = Part::Length(1);
        let (main, message, status) = if message {
            let (main, above, status) = split_in_three(area, Axis::Rows, Part::Fill, row, row);
            (main, Some(above), status)
        } else {
            let (main, status) = split_in_two(area, Axis::Rows, Part::Fill, row);
            (main, None, status)
        };
        let (tree, sequences, right) = if self.panes.explorer_hidden {
            (None, None, main)
        } else {
            let (left, right) = split_in_two(
                main,
                Axis::Columns,
                Part::Length(EXPLORER_WIDTH),
                Part::Fill,
            );
            let (tree, sequences) = self.split_left(left);
            (Some(tree), sequences, right)
        };
        let (url_bar, request, response) = self.split_right(right);
        Screen { main, message, status, tree, sequences, url_bar, request, response }
    }

    /// Whether a pane is drawn as the one with the focus: only in the normal mode, and
    /// the response also while it is searched.
    pub open spec fn spec_shows_focus(&self, pane: Pane) -> bool {
        self.panes.focus == pane && (self.mode == Mode::Normal || (pane == Pane::Response
            && self.mode == Mode::BodySearch))
    }

    /// Whether a pane is drawn as the one with the focus.
    pub fn shows_focus(&self, pane: Pane) -> (r: bool)
        ensures
            r == self.spec_shows_focus(pane),
    {
        self.panes.focus == pane && (self.mode == Mode::Normal || (pane == Pane::Response
            && self.mode == Mode::BodySearch))
    }

    /// The file of the open endpoint while it has unsaved changes, which its row in the
    /// tree shows.
    pub fn dirty_file(&self) -> (r: Option<String>)
        requires
            self.wf(),
        ensures
            r == (if self.buffers.loaded() && self.buffers.current().dirty() {
                Some(self.buffers.current().endpoint.file)
            } else {
                None
            }),
    {
        if !self.buffers.is_dirty() {
            return None;
        }
        match self.selected() {
            Some(s) => Some(s.file.clone()),
            None => None,
        }
    }

    /// The state after the response was drawn: the open buffer knows its cursor and
    /// window as they were drawn.
    pub open spec fn response_drawn(self, after: App, geometry: Geometry) -> bool {
        if self.buffers.loaded() {
            self.buffer_changed(
                after,
                EndpointBuffer { geometry, ..self.buffers.current() },
            )
        } else {
            after == self
        }
    }

    /// Takes in how the response was drawn.
    pub fn drew_response(&mut self, geometry: Geometry)
        requires
            old(self).wf(),
        ensures
            old(self).response_drawn(*final(self), geometry),
            final(self).wf(),
    {
        let i = self.buffers.active;
        if i < self.buffers.list.len() {
            self.buffers.list[i].geometry = geometry;
            proof {
                assert(self.buffers.list@ =~= old(self).buffers.list@.update(
                    i as int,
                    self.buffers.list@[i as int],
                ));
                lemma_updated_wf(old(self).buffers, self.buffers);
            }
        }
    }

    /// Whether lines are still to be highlighted: not while the same lines are being
    /// highlighted.
    pub fn wants_highlight(&self, hash: u64) -> (r: bool)
        ensures
            r == !(self.buffers.loaded() && self.buffers.current().pending_highlight == Some(hash)),
    {
        let i = self.buffers.active;
        if i < self.buffers.list.len() {
            match self.buffers.list[i].pending_highlight {
                Some(h) => h != hash,
                None => true,
            }
        } else {
            true
        }
    }

    /// Takes in that lines are being highlighted.
    pub fn highlight_sent(&mut self, hash: u64)
        requires
            old(self).wf(),
        ensures
            if old(self).buffers.loaded() {
                old(self).buffer_changed(
                    *final(self),
                    (EndpointBuffer {
                        pending_highlight: Some(hash),
                        ..old(self).buffers.current()
                    }),
                )
            } else {
                *final(self) == *old(self)
            },
            final(self).wf(),
    {
        let i = self.buffers.active;
        if i < self.buffers.list.len() {
            self.buffers.list[i].pending_highlight = Some(hash);
            proof {
                assert(self.buffers.list@ =~= old(self).buffers.list@.update(
                    i as int,
                    self.buffers.list@[i as int],
                ));
                lemma_updated_wf(old(self).buffers, self.buffers);
            }
        }
    }
}

/// The status line does not move when a message comes or goes.
pub proof fn law_status_line_stays(a: App, area: Area)
    requires
        area.wf(),
        a.fits(area, true),
    ensures
        a.fits(area, false),
        a.spec_screen(area, true).status == a.spec_screen(area, false).status,
{
}

/// The message covers nothing: it has the row between the panes and the status line.
pub proof fn law_message_covers_nothing(a: App, area: Area)
    requires
        area.wf(),
        a.fits(area, true),
    ensures
        a.spec_screen(area, true).message matches Some(m) && ({
            let s = a.spec_screen(area, true);
            &&& m.height == 1
            &&& s.main.y + s.main.height == m.y
            &&& m.y + 1 == s.status.y
        }),
{
}

/// The URL bar, the request and the response stand one below the other and take all the
/// rows; a pane that is collapsed keeps those of a stub.
pub proof fn law_panes_share_the_rows(a: App, area: Area, message: bool)
    requires
        area.wf(),
        a.fits(area, message),
    ensures
        ({
            let s = a.spec_screen(area, message);
            &&& s.url_bar.y == s.main.y
            &&& s.url_bar.y + s.url_bar.height == s.request.y
            &&& s.request.y + s.request.height == s.response.y
            &&& s.response.y + s.response.height == s.main.y + s.main.height
            &&& a.panes.collapsed(Pane::Request) ==> s.request.height == COLLAPSED_HEIGHT
            &&& a.panes.collapsed(Pane::Response) ==> s.response.height == COLLAPSED_HEIGHT
        }),
{
}

/// With the left column hidden the other takes the full width.
pub proof fn law_hidden_column_leaves_its_width(a: App, area: Area, message: bool)
    requires
        area.wf(),
        a.fits(area, message),
    ensures
        ({
            let s = a.spec_screen(area, message);
            &&& a.panes.explorer_hidden ==> s.tree is None && s.sequences is None
                && s.request.width == area.width
            &&& !a.panes.explorer_hidden ==> s.request.width + EXPLORER_WIDTH == area.width
        }),
{
}

/// The parts of the screen have their sizes: the status and a message take a line each at the
/// bottom, the URL three rows, the explorer thirty columns at the left, and the request and the
/// response share the rest in halves; a zoomed one leaves the other three rows.
pub proof fn law_screen_parts_have_their_sizes(a: App, area: Area, message: bool)
    requires
        area.wf(),
        a.fits(area, message),
    ensures
        ({
            let s = a.spec_screen(area, message);
            let rows = area.height - (if message {
                5int
            } else {
                4
            });
            &&& s.status.height == 1 && s.status.y == area.y + area.height - 1
            &&& s.message is Some <==> message
            &&& s.main.y == area.y && s.main.height == rows + 3
            &&& s.url_bar.height == 3
            &&& !a.panes.explorer_hidden ==> s.url_bar.x == area.x + 30
            &&& a.panes.explorer_hidden ==> s.url_bar.x == area.x
            &&& a.panes.zoom is None ==> s.request.height == rows / 2 && s.response.height == rows
                - rows / 2
            &&& a.panes.zoom == Some(ZoomPane::Request) && rows >= 3 ==> s.response.height == 3
                && s.request.height == rows - 3
            &&& a.panes.zoom == Some(ZoomPane::Response) && rows >= 3 ==> s.request.height == 3
                && s.response.height == rows - 3
            &&& !a.panes.explorer_hidden ==> (s.tree matches Some(t) && t.x == area.x && t.width
                == 30 && t.y == area.y)
            &&& !a.panes.explorer_hidden && !a.panes.sequences_shown ==> s.sequences is None
        }),
{
}

} // verus!
