//! The response viewer: its cursor, its toggles, its search and what it copies.

use vstd::prelude::*;
use vstd::string::*;

use crate::keymap::{Action, KeyMap};
use crate::keys::{Key, KeyEvent};
use crate::meta::ResponseMeta;
use crate::notice::Notice;
use crate::pane::PaneCtx;
use crate::text::decimal_text;

verus! {

/// What the viewer shows.
#[derive(Debug, Clone, Copy, PartialEq, Eq, Structural)]
pub enum ViewMode {
    /// The body.
    Body,
    /// The headers.
    Headers,
}

/// The language that a body is written in.
#[derive(Debug, Clone, Copy, PartialEq, Eq, Structural)]
pub enum Syntax {
    /// JSON.
    Json,
    /// Any other.
    Other,
}

/// A search in the shown text.
#[derive(Debug)]
pub struct BodySearch {
    /// What is searched.
    pub query: String,
    /// How many matches there are.
    pub matches: usize,
    /// The current match, counted from 0.
    pub current: Option<usize>,
}

/// A response that arrived, and how it is shown.
#[derive(Debug)]
pub struct ResponseView {
    /// The generation of the request that it answers.
    pub generation: u64,
    /// Whether the body or the headers are shown.
    pub mode: ViewMode,
    /// The language of the body.
    pub syntax: Syntax,
    /// Whether a JSON body is reformatted.
    pub pretty: bool,
    /// Whether the keys of a reformatted JSON body are sorted.
    pub sort_keys: bool,
    /// Whether long lines wrap.
    pub wrap: bool,
    /// Whether line numbers are shown.
    pub line_numbers: bool,
    /// How many columns the window is panned to the right.
    pub h_offset: usize,
    /// The search, if one is live.
    pub search: Option<BodySearch>,
    /// Whether the shown text was cut.
    pub truncated: bool,
    /// Whether the body was cut.
    pub body_truncated: bool,
    /// The text as it is copied.
    pub text: String,
    /// The bytes of the body.
    pub raw: Vec<u8>,
    /// The extension that a saved body gets.
    pub extension: String,
}

/// What the response pane holds.
#[derive(Debug)]
pub enum ResponseState {
    /// Nothing was sent yet.
    Idle,
    /// A request is in flight.
    InFlight {
        /// When it was sent, in milliseconds.
        started_ms: u64,
    },
    /// A response arrived.
    Done {
        /// The response and how it is shown.
        view: ResponseView,
    },
    /// The request failed.
    Failed {
        /// Why.
        error: String,
        /// What was asked.
        meta: ResponseMeta,
    },
    /// The request was cancelled.
    Cancelled,
    /// The response was dropped to save memory.
    Dropped,
}

/// The viewer's cursor and window.
#[derive(Debug, Clone, Copy, PartialEq, Eq, Structural)]
pub struct Geometry {
    /// The first row that is shown.
    pub scroll: usize,
    /// The row of the cursor.
    pub cursor: usize,
    /// How many rows there were at the last drawing.
    pub total_rows: usize,
    /// How many rows fit at the last drawing.
    pub viewport_height: usize,
    /// How many columns fit at the last drawing.
    pub viewport_width: usize,
}

impl Geometry {
    /// A viewer that was not drawn yet.
    pub open spec fn spec_new() -> Geometry {
        Geometry { scroll: 0, cursor: 0, total_rows: 0, viewport_height: 0, viewport_width: 0 }
    }

    /// A viewer that was not drawn yet.
    pub fn new() -> (r: Geometry)
        ensures
            r == Geometry::spec_new(),
    {
        Geometry { scroll: 0, cursor: 0, total_rows: 0, viewport_height: 0, viewport_width: 0 }
    }

    /// The last row that the cursor can be on, as of the last drawing.
    pub open spec fn spec_max_cursor(self) -> nat {
        if self.total_rows == 0 {
            0
        } else {
            (self.total_rows - 1) as nat
        }
    }

    /// The last row that the cursor can be on, as of the last drawing.
    pub fn response_max_cursor(&self) -> (r: usize)
        ensures
            r == self.spec_max_cursor(),
    {
        if self.total_rows == 0 {
            0
        } else {
            self.total_rows - 1
        }
    }

    /// The cursor and the window back at the start.
    pub open spec fn at_start(self) -> Geometry {
        Geometry { scroll: 0, cursor: 0, ..self }
    }

    /// The cursor after a movement by rows.
    pub open spec fn scrolled(self, action: Action) -> Geometry {
        let max = self.spec_max_cursor();
        match action {
            Action::Up => Geometry {
                cursor: (if self.cursor > 0 { self.cursor - 1 } else { 0 }) as usize,
                ..self
            },
            Action::Down => Geometry {
                cursor: (if self.cursor + 1 <= max { self.cursor + 1 } else { max as int }) as usize,
                ..self
            },
            Action::Top => Geometry { cursor: 0, ..self },
            Action::Bottom => Geometry { cursor: max as usize, ..self },
            _ => self,
        }
    }

    /// Half the height of the window, and one row at least.
    pub open spec fn half(self) -> nat {
        if self.viewport_height / 2 >= 1 {
            (self.viewport_height / 2) as nat
        } else {
            1
        }
    }

    /// The cursor after half a page.
    pub open spec fn half_paged(self, down: bool) -> Geometry {
        let max = self.spec_max_cursor();
        Geometry {
            cursor: (if down {
                if self.cursor + self.half() <= max {
                    self.cursor + self.half()
                } else {
                    max as int
                }
            } else {
                if self.cursor >= self.half() {
                    self.cursor - self.half()
                } else {
                    0
                }
            }) as usize,
            ..self
        }
    }
}

/// Moves the cursor by a navigation action; only a response that arrived has a
/// cursor.
pub fn response_scroll(state: &ResponseState, g: &mut Geometry, action: Action)
    ensures
        *final(g) == (if *state is Done {
            old(g).scrolled(action)
        } else {
            *old(g)
        }),
{
    let max = g.response_max_cursor();
    if let ResponseState::Done { .. } = state {
        match action {
            Action::Up => {
                g.cursor = if g.cursor > 0 {
                    g.cursor - 1
                } else {
                    0
                };
            },
            Action::Down => {
                g.cursor = if g.cursor < max {
                    g.cursor + 1
                } else {
                    max
                };
            },
            Action::Top => {
                g.cursor = 0;
            },
            Action::Bottom => {
                g.cursor = max;
            },
            _ => {},
        }
    }
}

/// Moves the cursor by half the height of the window.
pub fn response_half_page(state: &ResponseState, g: &mut Geometry, down: bool)
    ensures
        *final(g) == (if *state is Done {
            old(g).half_paged(down)
        } else {
            *old(g)
        }),
{
    let max = g.response_max_cursor();
    if let ResponseState::Done { .. } = state {
        let half: usize = if g.viewport_height / 2 >= 1 {
            g.viewport_height / 2
        } else {
            1
        };
        g.cursor = if down {
            if max >= half && g.cursor <= max - half {
                g.cursor + half
            } else {
                max
            }
        } else {
            if g.cursor >= half {
                g.cursor - half
            } else {
                0
            }
        };
    }
}

/// Moving down and up stays within the rows that were drawn.
pub proof fn law_cursor_stays_within(g: Geometry, action: Action, down: bool)
    requires
        g.cursor <= g.spec_max_cursor(),
    ensures
        g.scrolled(action).cursor <= g.spec_max_cursor(),
        g.half_paged(down).cursor <= g.spec_max_cursor(),
        g.half_paged(down).spec_max_cursor() == g.spec_max_cursor(),
{
}

/// What a toggle of the viewer does to what is cached of it.
#[derive(Debug, Clone, Copy, PartialEq, Eq, Structural)]
pub enum Redraw {
    /// Nothing changed.
    Nothing,
    /// The rows changed, and the highlighted text did not.
    Rows,
    /// The highlighted text changed.
    Text,
}

impl ResponseState {
    /// The response and how it is shown, if one arrived.
    pub open spec fn shown(self) -> Option<ResponseView> {
        match self {
            ResponseState::Done { view } => Some(view),
            _ => None,
        }
    }

    /// Whether this is a response whose JSON body is shown.
    pub open spec fn on_json_body(self) -> bool {
        self matches ResponseState::Done { view } && view.mode == ViewMode::Body && view.syntax
            == Syntax::Json
    }

    /// Whether this is a response whose JSON body is shown.
    pub fn is_json_body(&self) -> (r: bool)
        ensures
            r == self.on_json_body(),
    {
        match self {
            ResponseState::Done { view } => view.mode == ViewMode::Body && view.syntax
                == Syntax::Json,
            _ => false,
        }
    }

    /// Whether this is a response whose JSON body is shown reformatted.
    pub open spec fn on_pretty_json_body(self) -> bool {
        self.on_json_body() && self->view.pretty
    }

    /// Why nothing can be folded here, if nothing can.
    pub open spec fn spec_fold_notice(self) -> Option<Notice> {
        match self {
            ResponseState::Done { view } => if view.mode == ViewMode::Headers {
                Some(Notice::FoldBodyOnly)
            } else if view.syntax != Syntax::Json {
                Some(Notice::FoldJsonOnly)
            } else {
                None
            },
            _ => Some(Notice::FoldNoResponse),
        }
    }

    /// Why nothing can be folded here, if nothing can.
    pub fn fold_unsupported_notice(&self) -> (r: Option<Notice>)
        ensures
            r == self.spec_fold_notice(),
            r is None == self.on_json_body(),
    {
        match self {
            ResponseState::Done { view } => if view.mode == ViewMode::Headers {
                Some(Notice::FoldBodyOnly)
            } else if view.syntax != Syntax::Json {
                Some(Notice::FoldJsonOnly)
            } else {
                None
            },
            _ => Some(Notice::FoldNoResponse),
        }
    }
}

/// Switches between the body and the headers, and drops the search.
pub fn response_toggle_headers(state: &mut ResponseState) -> (r: Redraw)
    ensures
        match *old(state) {
            ResponseState::Done { view } => r == Redraw::Text && *final(state)
                == (ResponseState::Done {
                view: ResponseView {
                    mode: match view.mode {
                        ViewMode::Body => ViewMode::Headers,
                        ViewMode::Headers => ViewMode::Body,
                    },
                    search: None,
                    ..view
                },
            }),
            _ => r == Redraw::Nothing && *final(state) == *old(state),
        },
{
    match state {
        ResponseState::Done { view } => {
            view.mode = match view.mode {
                ViewMode::Body => ViewMode::Headers,
                ViewMode::Headers => ViewMode::Body,
            };
            view.search = None;
            Redraw::Text
        },
        _ => Redraw::Nothing,
    }
}

/// Toggles whether long lines wrap.
pub fn response_toggle_wrap(state: &mut ResponseState) -> (r: Redraw)
    ensures
        match *old(state) {
            ResponseState::Done { view } => r == Redraw::Rows && *final(state)
                == (ResponseState::Done { view: ResponseView { wrap: !view.wrap, ..view } }),
            _ => r == Redraw::Nothing && *final(state) == *old(state),
        },
{
    match state {
        ResponseState::Done { view } => {
            view.wrap = !view.wrap;
            Redraw::Rows
        },
        _ => Redraw::Nothing,
    }
}

/// Toggles the line numbers.
pub fn response_toggle_line_numbers(state: &mut ResponseState) -> (r: Redraw)
    ensures
        match *old(state) {
            ResponseState::Done { view } => r == Redraw::Rows && *final(state)
                == (ResponseState::Done {
                view: ResponseView { line_numbers: !view.line_numbers, ..view },
            }),
            _ => r == Redraw::Nothing && *final(state) == *old(state),
        },
{
    match state {
        ResponseState::Done { view } => {
            view.line_numbers = !view.line_numbers;
            Redraw::Rows
        },
        _ => Redraw::Nothing,
    }
}

/// Toggles whether a JSON body is reformatted; anything else is refused.
pub fn response_toggle_pretty(state: &mut ResponseState) -> (r: Result<Redraw, Notice>)
    ensures
        old(state).on_json_body() ==> r == Ok::<Redraw, Notice>(Redraw::Text) && *final(state)
            == (ResponseState::Done {
            view: ResponseView { pretty: !old(state)->view.pretty, ..old(state)->view },
        }),
        !old(state).on_json_body() ==> r == Err::<Redraw, Notice>(Notice::PrettyJsonOnly)
            && *final(state) == *old(state),
{
    if let ResponseState::Done { view } = state {
        if view.mode == ViewMode::Body && view.syntax == Syntax::Json {
            view.pretty = !view.pretty;
            return Ok(Redraw::Text);
        }
    }
    Err(Notice::PrettyJsonOnly)
}

/// Toggles whether the keys of a reformatted JSON body are sorted; anything else
/// is refused.
pub fn response_toggle_sort_keys(state: &mut ResponseState) -> (r: Result<Redraw, Notice>)
    ensures
        old(state).on_pretty_json_body() ==> r == Ok::<Redraw, Notice>(Redraw::Text)
            && *final(state) == (ResponseState::Done {
            view: ResponseView { sort_keys: !old(state)->view.sort_keys, ..old(state)->view },
        }),
        !old(state).on_pretty_json_body() ==> r == Err::<Redraw, Notice>(Notice::SortPrettyOnly)
            && *final(state) == *old(state),
{
    if let ResponseState::Done { view } = state {
        if view.mode == ViewMode::Body && view.syntax == Syntax::Json && view.pretty {
            view.sort_keys = !view.sort_keys;
            return Ok(Redraw::Text);
        }
    }
    Err(Notice::SortPrettyOnly)
}

/// How many columns one key pans.
pub const H_STEP: usize = 8;

/// The column offset after one pan.
pub open spec fn panned(offset: usize, right: bool) -> usize {
    (if right {
        if offset + H_STEP <= usize::MAX {
            offset + H_STEP
        } else {
            usize::MAX as int
        }
    } else if offset >= H_STEP {
        offset - H_STEP
    } else {
        0
    }) as usize
}

/// Pans the window of lines that do not wrap.
pub fn response_scroll_h(state: &mut ResponseState, right: bool)
    ensures
        match *old(state) {
            ResponseState::Done { view } => if view.wrap {
                *final(state) == *old(state)
            } else {
                *final(state) == (ResponseState::Done {
                    view: ResponseView { h_offset: panned(view.h_offset, right), ..view },
                })
            },
            _ => *final(state) == *old(state),
        },
{
    if let ResponseState::Done { view } = state {
        if !view.wrap {
            view.h_offset = if right {
                if view.h_offset <= usize::MAX - H_STEP {
                    view.h_offset + H_STEP
                } else {
                    usize::MAX
                }
            } else if view.h_offset >= H_STEP {
                view.h_offset - H_STEP
            } else {
                0
            };
        }
    }
}

/// The match after or before the current one, round the end. Without a current
/// match it is the first or the last.
pub open spec fn stepped(matches: nat, current: Option<usize>, forward: bool) -> Option<nat> {
    if matches == 0 {
        None
    } else {
        Some(
            match current {
                None => if forward {
                    0
                } else {
                    (matches - 1) as nat
                },
                Some(i) => if forward {
                    if i + 1 < matches {
                        (i + 1) as nat
                    } else {
                        0
                    }
                } else if 0 < i <= matches {
                    (i - 1) as nat
                } else {
                    (matches - 1) as nat
                },
            },
        )
    }
}

fn step(matches: usize, current: Option<usize>, forward: bool) -> (r: Option<usize>)
    ensures
        match r {
            Some(i) => stepped(matches as nat, current, forward) == Some(i as nat) && i < matches,
            None => matches == 0,
        },
{
    if matches == 0 {
        return None;
    }
    Some(
        match current {
            None => if forward {
                0
            } else {
                matches - 1
            },
            Some(i) => if forward {
                if i < matches - 1 {
                    i + 1
                } else {
                    0
                }
            } else if 0 < i && i <= matches {
                i - 1
            } else {
                matches - 1
            },
        },
    )
}

/// What a step of the search says.
pub open spec fn search_step_notice(search: BodySearch, forward: bool) -> Notice {
    match stepped(search.matches as nat, search.current, forward) {
        Some(i) => Notice::Match { ordinal: (i + 1) as u64, total: search.matches as u64 },
        None => Notice::NoMatches,
    }
}

/// Steps to the next or the previous match, round the end, and says which it is.
/// Without a search nothing happens.
pub fn response_search_step(state: &mut ResponseState, forward: bool) -> (r: Option<Notice>)
    ensures
        match *old(state) {
            ResponseState::Done { view } => match view.search {
                Some(search) => {
                    &&& r == Some(search_step_notice(search, forward))
                    &&& *final(state) == (ResponseState::Done {
                        view: ResponseView {
                            search: Some(
                                BodySearch {
                                    current: (if search.matches == 0 {
                                        search.current
                                    } else {
                                        Some(
                                            stepped(search.matches as nat, search.current, forward)->0 as usize,
                                        )
                                    }),
                                    ..search
                                },
                            ),
                            ..view
                        },
                    })
                },
                None => r is None && *final(state) == *old(state),
            },
            _ => r is None && *final(state) == *old(state),
        },
{
    if let ResponseState::Done { view } = state {
        if let Some(search) = &mut view.search {
            return match step(search.matches, search.current, forward) {
                Some(i) => {
                    search.current = Some(i);
                    Some(
                        Notice::Match { ordinal: i as u64 + 1, total: search.matches as u64 },
                    )
                },
                None => Some(Notice::NoMatches),
            };
        }
    }
    None
}

/// Stepping forward and back returns to the same match.
pub proof fn law_search_steps_undo(matches: nat, current: usize)
    requires
        current < matches <= usize::MAX,
    ensures
        stepped(
            matches,
            Some(stepped(matches, Some(current), true)->0 as usize),
            false,
        ) == Some(current as nat),
        stepped(
            matches,
            Some(stepped(matches, Some(current), false)->0 as usize),
            true,
        ) == Some(current as nat),
{
}

/// Puts a new query into the viewer; `matches` is how often the shown text holds
/// it. The first match becomes the current one.
pub fn set_search(state: &mut ResponseState, query: String, matches: usize)
    ensures
        match *old(state) {
            ResponseState::Done { view } => *final(state) == (ResponseState::Done {
                view: ResponseView {
                    search: Some(
                        BodySearch {
                            query,
                            matches,
                            current: (if matches == 0 {
                                None
                            } else {
                                Some(0)
                            }),
                        },
                    ),
                    ..view
                },
            }),
            _ => *final(state) == *old(state),
        },
{
    if let ResponseState::Done { view } = state {
        let current: Option<usize> = if matches == 0 {
            None
        } else {
            Some(0)
        };
        view.search = Some(BodySearch { query, matches, current });
    }
}

/// Drops the search.
pub fn clear_search(state: &mut ResponseState)
    ensures
        match *old(state) {
            ResponseState::Done { view } => *final(state) == (ResponseState::Done {
                view: ResponseView { search: None, ..view },
            }),
            _ => *final(state) == *old(state),
        },
{
    if let ResponseState::Done { view } = state {
        view.search = None;
    }
}

/// The line of the search input: the query, and how many matches there are.
pub open spec fn search_line(query: Seq<char>, matches: nat) -> Seq<char> {
    if query.len() == 0 {
        "/"@
    } else if matches == 0 {
        "/"@ + query + "    no matches"@
    } else {
        "/"@ + query + "    "@ + crate::text::decimal(matches) + " matches"@
    }
}

/// How many matches the viewer's search has.
pub open spec fn match_count(state: ResponseState) -> nat {
    match state {
        ResponseState::Done { view } => match view.search {
            Some(s) => s.matches as nat,
            None => 0,
        },
        _ => 0,
    }
}

/// The line of the search input while it is open.
pub fn body_search_line(state: &ResponseState, query: &str) -> (r: String)
    ensures
        r@ == search_line(query@, match_count(*state)),
{
    let matches: usize = match state {
        ResponseState::Done { view } => match &view.search {
            Some(s) => s.matches,
            None => 0,
        },
        _ => 0,
    };
    let mut out = "/".to_owned();
    if !query.is_empty() {
        out.append(query);
        if matches == 0 {
            out.append("    no matches");
        } else {
            out.append("    ");
            out.append(decimal_text(matches as u64).as_str());
            out.append(" matches");
        }
    }
    out
}

/// The actions that the viewer takes wherever it is shown.
pub open spec fn is_response_action(action: Action) -> bool {
    match action {
        Action::Up
        | Action::Down
        | Action::Top
        | Action::Bottom
        | Action::HalfPageDown
        | Action::HalfPageUp
        | Action::ToggleHeadersView
        | Action::ToggleWrap
        | Action::TogglePretty
        | Action::ToggleSortKeys
        | Action::ToggleLineNumbers
        | Action::OpenBodySearch
        | Action::SearchNext
        | Action::SearchPrev
        | Action::ToggleFold
        | Action::ToggleAllFolds
        | Action::CopyResponse
        | Action::CopyLine
        | Action::ScrollBodyLeft
        | Action::ScrollBodyRight => true,
        _ => false,
    }
}

fn response_action(action: Action) -> (r: bool)
    ensures
        r == is_response_action(action),
{
    match action {
        Action::Up
        | Action::Down
        | Action::Top
        | Action::Bottom
        | Action::HalfPageDown
        | Action::HalfPageUp
        | Action::ToggleHeadersView
        | Action::ToggleWrap
        | Action::TogglePretty
        | Action::ToggleSortKeys
        | Action::ToggleLineNumbers
        | Action::OpenBodySearch
        | Action::SearchNext
        | Action::SearchPrev
        | Action::ToggleFold
        | Action::ToggleAllFolds
        | Action::CopyResponse
        | Action::CopyLine
        | Action::ScrollBodyLeft
        | Action::ScrollBodyRight => true,
        _ => false,
    }
}

/// The action that a key asks of a runner's response, if the runner's response
/// has the keyboard and the key is one of the viewer's. Any other key is the
/// runner's own.
pub fn try_route_runner_response_key(keymap: &KeyMap, on_runner_response: bool, key: KeyEvent) -> (r:
    Option<Action>)
    ensures
        r == (match keymap.spec_lookup_ctx(key, PaneCtx::Response) {
            Some(action) if on_runner_response && is_response_action(action) => Some(action),
            _ => None,
        }),
{
    if !on_runner_response {
        return None;
    }
    match keymap.lookup_ctx(key, PaneCtx::Response) {
        Some(action) => if response_action(action) {
            Some(action)
        } else {
            None
        },
        None => None,
    }
}

/// What a key asks for while the body of a request is browsed.
#[derive(Debug, Clone, Copy, PartialEq, Eq, Structural)]
pub enum BrowseKey {
    /// Edit the body, typing at once.
    EditInsert,
    /// Edit the body, moving first.
    EditNormal,
    /// An action of the viewer.
    View(Action),
}

/// What a key asks for while the body of a request is browsed, if it is one of
/// the browsing keys.
pub open spec fn spec_browse_key(key: KeyEvent) -> Option<BrowseKey> {
    match key.code {
        Key::Enter if key.modifiers.empty() => Some(BrowseKey::EditNormal),
        Key::Left if key.modifiers.empty() => Some(BrowseKey::View(Action::ScrollBodyLeft)),
        Key::Right if key.modifiers.empty() => Some(BrowseKey::View(Action::ScrollBodyRight)),
        Key::Char(c) if key.spec_plain_char() is Some => if c == 'i' || c == 'a' {
            Some(BrowseKey::EditInsert)
        } else if c == 'y' {
            Some(BrowseKey::View(Action::CopyResponse))
        } else if c == 'Y' {
            Some(BrowseKey::View(Action::CopyLine))
        } else if c == 'S' {
            Some(BrowseKey::View(Action::SaveResponseBody))
        } else if c == '/' {
            Some(BrowseKey::View(Action::OpenBodySearch))
        } else if c == 'n' {
            Some(BrowseKey::View(Action::SearchNext))
        } else if c == 'N' {
            Some(BrowseKey::View(Action::SearchPrev))
        } else if c == 'W' {
            Some(BrowseKey::View(Action::ToggleWrap))
        } else if c == 'p' {
            Some(BrowseKey::View(Action::TogglePretty))
        } else if c == 'o' {
            Some(BrowseKey::View(Action::ToggleFold))
        } else if c == 'O' {
            Some(BrowseKey::View(Action::ToggleAllFolds))
        } else if c == 'J' {
            Some(BrowseKey::View(Action::StructuralNext))
        } else if c == 'K' {
            Some(BrowseKey::View(Action::StructuralPrev))
        } else if c == 'H' {
            Some(BrowseKey::View(Action::ScrollBodyLeft))
        } else if c == 'L' {
            Some(BrowseKey::View(Action::ScrollBodyRight))
        } else {
            None
        },
        _ => None,
    }
}

/// What a key asks for while the body of a request is browsed. A key that is not
/// claimed here goes on to the keymap.
pub fn browse_key(key: KeyEvent) -> (r: Option<BrowseKey>)
    ensures
        r == spec_browse_key(key),
{
    match key.code {
        Key::Enter if key.modifiers.is_empty() => {
            return Some(BrowseKey::EditNormal);
        },
        Key::Left if key.modifiers.is_empty() => {
            return Some(BrowseKey::View(Action::ScrollBodyLeft));
        },
        Key::Right if key.modifiers.is_empty() => {
            return Some(BrowseKey::View(Action::ScrollBodyRight));
        },
        _ => {},
    }
    let c = match key.plain_char() {
        Some(c) => c,
        None => {
            return None;
        },
    };
    if c == 'i' || c == 'a' {
        Some(BrowseKey::EditInsert)
    } else if c == 'y' {
        Some(BrowseKey::View(Action::CopyResponse))
    } else if c == 'Y' {
        Some(BrowseKey::View(Action::CopyLine))
    } else if c == 'S' {
        Some(BrowseKey::View(Action::SaveResponseBody))
    } else if c == '/' {
        Some(BrowseKey::View(Action::OpenBodySearch))
    } else if c == 'n' {
        Some(BrowseKey::View(Action::SearchNext))
    } else if c == 'N' {
        Some(BrowseKey::View(Action::SearchPrev))
    } else if c == 'W' {
        Some(BrowseKey::View(Action::ToggleWrap))
    } else if c == 'p' {
        Some(BrowseKey::View(Action::TogglePretty))
    } else if c == 'o' {
        Some(BrowseKey::View(Action::ToggleFold))
    } else if c == 'O' {
        Some(BrowseKey::View(Action::ToggleAllFolds))
    } else if c == 'J' {
        Some(BrowseKey::View(Action::StructuralNext))
    } else if c == 'K' {
        Some(BrowseKey::View(Action::StructuralPrev))
    } else if c == 'H' {
        Some(BrowseKey::View(Action::ScrollBodyLeft))
    } else if c == 'L' {
        Some(BrowseKey::View(Action::ScrollBodyRight))
    } else {
        None
    }
}

/// What is done to a viewer.
#[derive(Debug)]
pub enum ViewerOp {
    /// The cursor moves by rows.
    Scroll(Action),
    /// The cursor moves half a page.
    HalfPage {
        /// Whether down.
        down: bool,
    },
    /// The body or the headers are shown.
    ToggleHeaders,
    /// Long lines wrap or not.
    ToggleWrap,
    /// Line numbers are shown or not.
    ToggleLineNumbers,
    /// A JSON body is reformatted or not.
    TogglePretty,
    /// The keys of a reformatted JSON body are sorted or not.
    ToggleSortKeys,
    /// The window pans.
    Pan {
        /// Whether to the right.
        right: bool,
    },
    /// The next or the previous match is shown.
    SearchStep {
        /// Whether the next.
        forward: bool,
    },
    /// A new query is searched.
    SetSearch {
        /// The query.
        query: String,
        /// How often the shown text holds it.
        matches: usize,
    },
    /// The search is dropped.
    ClearSearch,
    /// The region at a line is folded or unfolded; without a line under the
    /// cursor nothing happens.
    Fold {
        /// The line under the cursor.
        line: Option<usize>,
    },
    /// All regions are folded or unfolded.
    FoldAll,
    /// The cursor leaps to the next or the previous region.
    Leap {
        /// The line under the cursor.
        line: Option<usize>,
        /// Whether to the next.
        forward: bool,
    },
    /// The cursor is put on a row, and the window is panned.
    Place {
        /// The row, if there is one.
        row: Option<usize>,
        /// How many columns the window is panned to the right.
        h_offset: usize,
    },
}

/// What an operation on a viewer asks of the one who holds its text.
#[derive(Debug, Clone, Copy, PartialEq, Eq, Structural)]
pub enum ViewerAsk {
    /// Nothing.
    Nothing,
    /// The region at a line is to be folded or unfolded.
    FoldAt(usize),
    /// All regions are to be folded or unfolded.
    FoldAll,
    /// The current match is to be found on the screen.
    Center,
    /// The region after or before a line is to be found on the screen.
    Leap {
        /// The line.
        from: usize,
        /// Whether the region after it.
        forward: bool,
    },
}

/// What an operation on a viewer leaves.
pub struct Viewed {
    /// The response.
    pub state: ResponseState,
    /// The cursor and the window.
    pub geometry: Geometry,
    /// What of the highlighted text is stale.
    pub redraw: Redraw,
    /// What is said.
    pub notice: Option<Notice>,
    /// What is asked of the one who holds the text.
    pub ask: ViewerAsk,
}

/// A viewer on which nothing was done.
pub open spec fn unviewed(state: ResponseState, geometry: Geometry) -> Viewed {
    Viewed {
        state,
        geometry,
        redraw: Redraw::Nothing,
        notice: None,
        ask: ViewerAsk::Nothing,
    }
}

/// A viewer over a view that changed.
pub open spec fn with_view(v: Viewed, view: ResponseView) -> Viewed {
    Viewed { state: ResponseState::Done { view }, ..v }
}

/// What an operation leaves of a response that arrived.
#[verifier::opaque]
pub open spec fn viewed_done(view: ResponseView, g: Geometry, op: ViewerOp) -> Viewed {
    let v = unviewed(ResponseState::Done { view }, g);
    let fold = (ResponseState::Done { view }).spec_fold_notice();
    match op {
        ViewerOp::Scroll(action) => Viewed { geometry: g.scrolled(action), ..v },
        ViewerOp::HalfPage { down } => Viewed { geometry: g.half_paged(down), ..v },
        ViewerOp::ToggleHeaders => with_view(
            Viewed { geometry: g.at_start(), redraw: Redraw::Text, ..v },
            ResponseView {
                mode: match view.mode {
                    ViewMode::Body => ViewMode::Headers,
                    ViewMode::Headers => ViewMode::Body,
                },
                search: None,
                ..view
            },
        ),
        ViewerOp::ToggleWrap => with_view(
            Viewed { geometry: g.at_start(), redraw: Redraw::Rows, ..v },
            ResponseView { wrap: !view.wrap, ..view },
        ),
        ViewerOp::ToggleLineNumbers => with_view(
            Viewed { geometry: g.at_start(), redraw: Redraw::Rows, ..v },
            ResponseView { line_numbers: !view.line_numbers, ..view },
        ),
        ViewerOp::TogglePretty => if v.state.on_json_body() {
            with_view(
                Viewed { geometry: g.at_start(), redraw: Redraw::Text, ..v },
                ResponseView { pretty: !view.pretty, ..view },
            )
        } else {
            Viewed { notice: Some(Notice::PrettyJsonOnly), ..v }
        },
        ViewerOp::ToggleSortKeys => if v.state.on_pretty_json_body() {
            with_view(
                Viewed { geometry: g.at_start(), redraw: Redraw::Text, ..v },
                ResponseView { sort_keys: !view.sort_keys, ..view },
            )
        } else {
            Viewed { notice: Some(Notice::SortPrettyOnly), ..v }
        },
        ViewerOp::Pan { right } => if view.wrap {
            v
        } else {
            with_view(v, ResponseView { h_offset: panned(view.h_offset, right), ..view })
        },
        ViewerOp::SearchStep { forward } => match view.search {
            Some(search) => match stepped(search.matches as nat, search.current, forward) {
                Some(i) => with_view(
                    Viewed {
                        redraw: Redraw::Text,
                        notice: Some(
                            Notice::Match { ordinal: (i + 1) as u64, total: search.matches as u64 },
                        ),
                        ask: ViewerAsk::Center,
                        ..v
                    },
                    ResponseView {
                        search: Some(BodySearch { current: Some(i as usize), ..search }),
                        ..view
                    },
                ),
                None => Viewed { notice: Some(Notice::NoMatches), ..v },
            },
            None => v,
        },
        ViewerOp::SetSearch { query, matches } => with_view(
            Viewed { ask: ViewerAsk::Center, ..v },
            ResponseView {
                search: Some(
                    BodySearch {
                        query,
                        matches,
                        current: if matches == 0 {
                            None
                        } else {
                            Some(0)
                        },
                    },
                ),
                ..view
            },
        ),
        ViewerOp::ClearSearch => with_view(v, ResponseView { search: None, ..view }),
        ViewerOp::Fold { line } => match line {
            Some(line) => if fold is Some {
                Viewed { notice: fold, ..v }
            } else {
                Viewed { redraw: Redraw::Text, ask: ViewerAsk::FoldAt(line), ..v }
            },
            None => v,
        },
        ViewerOp::FoldAll => if fold is Some {
            Viewed { notice: fold, ..v }
        } else {
            Viewed {
                geometry: g.at_start(),
                redraw: Redraw::Text,
                ask: ViewerAsk::FoldAll,
                ..v
            }
        },
        ViewerOp::Leap { line, forward } => match line {
            Some(from) => if fold is Some {
                Viewed { notice: fold, ..v }
            } else {
                Viewed { ask: ViewerAsk::Leap { from, forward }, ..v }
            },
            None => v,
        },
        ViewerOp::Place { row, h_offset } => with_view(
            Viewed {
                geometry: match row {
                    Some(row) => Geometry { cursor: row, ..g },
                    None => g,
                },
                ..v
            },
            ResponseView { h_offset, ..view },
        ),
    }
}

/// What an operation leaves where no response arrived: the toggles that only a
/// JSON body has say so, and nothing changes.
pub open spec fn viewed_nothing(state: ResponseState, g: Geometry, op: ViewerOp) -> Viewed {
    let v = unviewed(state, g);
    match op {
        ViewerOp::TogglePretty => Viewed { notice: Some(Notice::PrettyJsonOnly), ..v },
        ViewerOp::ToggleSortKeys => Viewed { notice: Some(Notice::SortPrettyOnly), ..v },
        ViewerOp::FoldAll => Viewed { notice: Some(Notice::FoldNoResponse), ..v },
        _ => v,
    }
}

/// What an operation on a viewer leaves.
#[verifier::opaque]
pub open spec fn viewed(state: ResponseState, g: Geometry, op: ViewerOp) -> Viewed {
    match state {
        ResponseState::Done { view } => viewed_done(view, g, op),
        _ => viewed_nothing(state, g, op),
    }
}

/// What is to be done once a viewer changed.
#[derive(Debug)]
pub struct ViewerWork {
    /// What of the highlighted text is stale.
    pub redraw: Redraw,
    /// What is said.
    pub notice: Option<Notice>,
    /// What is asked of the one who holds the text.
    pub ask: ViewerAsk,
}

fn work(redraw: Redraw, notice: Option<Notice>, ask: ViewerAsk) -> (r: ViewerWork)
    ensures
        r == (ViewerWork { redraw, notice, ask }),
{
    ViewerWork { redraw, notice, ask }
}

/// Whether an operation was done as it is stated.
pub open spec fn done_as(
    state: ResponseState,
    g: Geometry,
    op: ViewerOp,
    after: ResponseState,
    after_g: Geometry,
    w: ViewerWork,
) -> bool {
    let v = viewed(state, g, op);
    &&& after == v.state
    &&& after_g == v.geometry
    &&& w == (ViewerWork { redraw: v.redraw, notice: v.notice, ask: v.ask })
}

fn do_toggle(state: &mut ResponseState, g: &mut Geometry, op: ViewerOp) -> (w: ViewerWork)
    requires
        op is ToggleHeaders || op is ToggleWrap || op is ToggleLineNumbers || op is TogglePretty
            || op is ToggleSortKeys,
    ensures
        done_as(*old(state), *old(g), op, *final(state), *final(g), w),
{
    reveal(viewed_done);
    reveal(viewed);
    let (redraw, notice) = match op {
        ViewerOp::ToggleHeaders => (response_toggle_headers(state), None),
        ViewerOp::ToggleWrap => (response_toggle_wrap(state), None),
        ViewerOp::ToggleLineNumbers => (response_toggle_line_numbers(state), None),
        ViewerOp::TogglePretty => match response_toggle_pretty(state) {
            Ok(r) => (r, None),
            Err(n) => (Redraw::Nothing, Some(n)),
        },
        _ => match response_toggle_sort_keys(state) {
            Ok(r) => (r, None),
            Err(n) => (Redraw::Nothing, Some(n)),
        },
    };
    if redraw != Redraw::Nothing {
        g.cursor = 0;
        g.scroll = 0;
    }
    work(redraw, notice, ViewerAsk::Nothing)
}

fn do_search(state: &mut ResponseState, g: &mut Geometry, op: ViewerOp) -> (w: ViewerWork)
    requires
        op is SearchStep || op is SetSearch || op is ClearSearch,
    ensures
        done_as(*old(state), *old(g), op, *final(state), *final(g), w),
{
    reveal(viewed_done);
    reveal(viewed);
    let done = match state {
        ResponseState::Done { .. } => true,
        _ => false,
    };
    match op {
        ViewerOp::SearchStep { forward } => match response_search_step(state, forward) {
            Some(Notice::Match { ordinal, total }) => work(
                Redraw::Text,
                Some(Notice::Match { ordinal, total }),
                ViewerAsk::Center,
            ),
            n => work(Redraw::Nothing, n, ViewerAsk::Nothing),
        },
        ViewerOp::SetSearch { query, matches } => {
            set_search(state, query, matches);
            work(
                Redraw::Nothing,
                None,
                if done {
                    ViewerAsk::Center
                } else {
                    ViewerAsk::Nothing
                },
            )
        },
        _ => {
            clear_search(state);
            work(Redraw::Nothing, None, ViewerAsk::Nothing)
        },
    }
}

fn do_fold(state: &ResponseState, g: &mut Geometry, op: ViewerOp) -> (w: ViewerWork)
    requires
        op is Fold || op is FoldAll || op is Leap,
    ensures
        done_as(*state, *old(g), op, *state, *final(g), w),
{
    reveal(viewed_done);
    reveal(viewed);
    let done = match state {
        ResponseState::Done { .. } => true,
        _ => false,
    };
    let fold = state.fold_unsupported_notice();
    match op {
        ViewerOp::Fold { line } => match line {
            Some(line) if done => if fold.is_some() {
                work(Redraw::Nothing, fold, ViewerAsk::Nothing)
            } else {
                work(Redraw::Text, None, ViewerAsk::FoldAt(line))
            },
            _ => work(Redraw::Nothing, None, ViewerAsk::Nothing),
        },
        ViewerOp::Leap { line, forward } => match line {
            Some(from) if done => if fold.is_some() {
                work(Redraw::Nothing, fold, ViewerAsk::Nothing)
            } else {
                work(Redraw::Nothing, None, ViewerAsk::Leap { from, forward })
            },
            _ => work(Redraw::Nothing, None, ViewerAsk::Nothing),
        },
        _ => if fold.is_some() {
            work(Redraw::Nothing, fold, ViewerAsk::Nothing)
        } else {
            g.cursor = 0;
            g.scroll = 0;
            work(Redraw::Text, None, ViewerAsk::FoldAll)
        },
    }
}

/// Does an operation on a viewer.
pub fn do_viewer(state: &mut ResponseState, g: &mut Geometry, op: ViewerOp) -> (w: ViewerWork)
    ensures
        done_as(*old(state), *old(g), op, *final(state), *final(g), w),
{
    match op {
        ViewerOp::Scroll(action) => {
            reveal(viewed_done);
            reveal(viewed);
            response_scroll(state, g, action);
            work(Redraw::Nothing, None, ViewerAsk::Nothing)
        },
        ViewerOp::HalfPage { down } => {
            reveal(viewed_done);
            reveal(viewed);
            response_half_page(state, g, down);
            work(Redraw::Nothing, None, ViewerAsk::Nothing)
        },
        ViewerOp::Pan { right } => {
            reveal(viewed_done);
            reveal(viewed);
            response_scroll_h(state, right);
            work(Redraw::Nothing, None, ViewerAsk::Nothing)
        },
        ViewerOp::Place { row, h_offset } => {
            reveal(viewed_done);
            reveal(viewed);
            if let ResponseState::Done { view } = state {
                view.h_offset = h_offset;
                if let Some(row) = row {
                    g.cursor = row;
                }
            }
            work(Redraw::Nothing, None, ViewerAsk::Nothing)
        },
        ViewerOp::ToggleHeaders | ViewerOp::ToggleWrap | ViewerOp::ToggleLineNumbers
        | ViewerOp::TogglePretty | ViewerOp::ToggleSortKeys => do_toggle(state, g, op),
        ViewerOp::SearchStep { .. } | ViewerOp::SetSearch { .. } | ViewerOp::ClearSearch => {
            do_search(state, g, op)
        },
        ViewerOp::Fold { .. } | ViewerOp::FoldAll | ViewerOp::Leap { .. } => do_fold(state, g, op),
    }
}

/// Nothing that is done to a viewer changes what the response is: its text, its
/// bytes and the request that it answers stay.
pub proof fn law_viewing_keeps_the_response(view: ResponseView, g: Geometry, op: ViewerOp)
    ensures
        viewed_done(view, g, op).state is Done,
        viewed_done(view, g, op).state->view.text == view.text,
        viewed_done(view, g, op).state->view.raw == view.raw,
        viewed_done(view, g, op).state->view.generation == view.generation,
        viewed_done(view, g, op).state->view.body_truncated == view.body_truncated,
{
    reveal(viewed_done);
}

/// A toggle of a viewer, done twice, shows what was shown.
pub proof fn law_view_toggles_undo(view: ResponseView, g: Geometry)
    ensures
        viewed_done(
            viewed_done(view, g, ViewerOp::ToggleWrap).state->view,
            g,
            ViewerOp::ToggleWrap,
        ).state == (ResponseState::Done { view }),
        viewed_done(
            viewed_done(view, g, ViewerOp::ToggleLineNumbers).state->view,
            g,
            ViewerOp::ToggleLineNumbers,
        ).state == (ResponseState::Done { view }),
        viewed_done(
            viewed_done(view, g, ViewerOp::TogglePretty).state->view,
            g,
            ViewerOp::TogglePretty,
        ).state == (ResponseState::Done { view }),
{
    reveal(viewed_done);
}

/// Up and Down move the cursor of the viewer by one row and stop at the ends, Top and Bottom go
/// to the first and the last row, and a half page is half the height of the window and one row
/// at least.
pub proof fn law_viewer_cursor_moves(g: Geometry)
    requires
        g.total_rows > 0,
        g.cursor < g.total_rows,
    ensures
        g.cursor > 0 ==> g.scrolled(Action::Up).cursor == g.cursor - 1,
        g.cursor == 0 ==> g.scrolled(Action::Up).cursor == 0,
        g.cursor + 1 < g.total_rows ==> g.scrolled(Action::Down).cursor == g.cursor + 1,
        g.cursor + 1 == g.total_rows ==> g.scrolled(Action::Down).cursor == g.cursor,
        g.scrolled(Action::Top).cursor == 0,
        g.scrolled(Action::Bottom).cursor == g.total_rows - 1,
        g.viewport_height >= 2 && g.cursor + g.viewport_height / 2 < g.total_rows ==> g.half_paged(
            true,
        ).cursor == g.cursor + g.viewport_height / 2,
        g.viewport_height >= 2 && g.cursor + g.viewport_height / 2 >= g.total_rows ==> g.half_paged(
            true,
        ).cursor == g.total_rows - 1,
        g.viewport_height >= 2 && g.cursor >= g.viewport_height / 2 ==> g.half_paged(false).cursor
            == g.cursor - g.viewport_height / 2,
        g.viewport_height >= 2 && g.cursor < g.viewport_height / 2 ==> g.half_paged(false).cursor
            == 0,
        g.viewport_height < 2 && g.cursor > 0 ==> g.half_paged(false).cursor == g.cursor - 1,
        g.viewport_height < 2 && g.cursor + 1 < g.total_rows ==> g.half_paged(true).cursor
            == g.cursor + 1,
{
}

/// A search goes from a match to the next and from the last to the first, and back from a match
/// to the one before and from the first to the last; without a current match it begins at the
/// first or, going back, at the last.
pub proof fn law_search_goes_round(matches: nat, current: usize)
    requires
        current < matches <= usize::MAX,
    ensures
        current + 1 < matches ==> stepped(matches, Some(current), true) == Some(
            (current + 1) as nat,
        ),
        current + 1 == matches ==> stepped(matches, Some(current), true) == Some(0nat),
        current > 0 ==> stepped(matches, Some(current), false) == Some((current - 1) as nat),
        current == 0 ==> stepped(matches, Some(current), false) == Some((matches - 1) as nat),
        stepped(matches, None, true) == Some(0nat),
        stepped(matches, None, false) == Some((matches - 1) as nat),
        stepped(0, Some(current), true) is None,
{
}

/// Each switch of the viewer turns over what it is named after and nothing else of how the
/// response is shown; a view that is laid out anew starts at its first row.
pub proof fn law_view_switches_flip_their_own(view: ResponseView, g: Geometry)
    ensures
        ({
            let wrap = viewed_done(view, g, ViewerOp::ToggleWrap);
            let numbers = viewed_done(view, g, ViewerOp::ToggleLineNumbers);
            let headers = viewed_done(view, g, ViewerOp::ToggleHeaders);
            let pretty = viewed_done(view, g, ViewerOp::TogglePretty);
            let sorted = viewed_done(view, g, ViewerOp::ToggleSortKeys);
            let json = view.mode is Body && view.syntax is Json;
            &&& wrap.state == (ResponseState::Done {
                view: ResponseView { wrap: !view.wrap, ..view },
            })
            &&& wrap.geometry.cursor == 0 && wrap.geometry.scroll == 0
            &&& numbers.state == (ResponseState::Done {
                view: ResponseView { line_numbers: !view.line_numbers, ..view },
            })
            &&& view.mode is Body ==> headers.state->view.mode is Headers
            &&& view.mode is Headers ==> headers.state->view.mode is Body
            &&& headers.state->view.search is None
            &&& headers.geometry.cursor == 0 && headers.geometry.scroll == 0
            &&& json ==> pretty.state->view.pretty != view.pretty && pretty.notice is None
            &&& !json ==> pretty.state == (ResponseState::Done { view }) && pretty.notice == Some(
                Notice::PrettyJsonOnly,
            )
            &&& json && view.pretty ==> sorted.state->view.sort_keys != view.sort_keys
            &&& !(json && view.pretty) ==> sorted.state == (ResponseState::Done { view })
                && sorted.notice == Some(Notice::SortPrettyOnly)
        }),
{
    reveal(viewed_done);
}

/// The window pans by eight columns and not beyond the first; where lines wrap there is nothing
/// to pan.
pub proof fn law_window_pans_by_steps(view: ResponseView, g: Geometry)
    requires
        view.h_offset + 8 <= usize::MAX,
    ensures
        ({
            let right = viewed_done(view, g, ViewerOp::Pan { right: true }).state;
            let left = viewed_done(view, g, ViewerOp::Pan { right: false }).state;
            &&& !view.wrap ==> right->view.h_offset == view.h_offset + 8
            &&& !view.wrap && view.h_offset >= 8 ==> left->view.h_offset == view.h_offset - 8
            &&& !view.wrap && view.h_offset < 8 ==> left->view.h_offset == 0
            &&& view.wrap ==> right == (ResponseState::Done { view }) && left
                == (ResponseState::Done { view })
        }),
{
    reveal(viewed_done);
}

/// A search starts at its first match, and without one it has none; its steps are told with the
/// number of the match, counted from one, and of how many.
pub proof fn law_search_starts_and_counts(
    view: ResponseView,
    g: Geometry,
    query: String,
    matches: usize,
)
    ensures
        ({
            let set = viewed_done(view, g, ViewerOp::SetSearch { query, matches });
            let search = set.state->view.search;
            &&& search matches Some(s) && s.query == query && s.matches == matches
            &&& matches == 0 ==> search->0.current is None
            &&& matches > 0 ==> search->0.current == Some(0usize)
            &&& viewed_done(view, g, ViewerOp::ClearSearch).state->view.search is None
        }),
        ({
            let next = viewed_done(view, g, ViewerOp::SearchStep { forward: true });
            view.search matches Some(s) ==> {
                &&& s.matches == 0 ==> next.notice == Some(Notice::NoMatches)
                &&& s.current matches Some(i) ==> (i + 1 < s.matches ==> {
                    &&& next.notice == Some(
                        Notice::Match { ordinal: (i + 2) as u64, total: s.matches as u64 },
                    )
                    &&& next.state->view.search matches Some(t) && t.current == Some(
                        (i + 1) as usize,
                    )
                })
            }
        }),
{
    reveal(viewed_done);
}

/// A fold asks for the line under the cursor where a JSON body is shown; in the headers and of
/// another body it says why it cannot be.
pub proof fn law_folds_are_for_json_bodies(view: ResponseView, g: Geometry, line: usize)
    ensures
        ({
            let fold = viewed_done(view, g, ViewerOp::Fold { line: Some(line) });
            let all = viewed_done(view, g, ViewerOp::FoldAll);
            &&& view.mode is Body && view.syntax is Json ==> fold.ask == ViewerAsk::FoldAt(line)
                && all.ask == ViewerAsk::FoldAll && fold.notice is None
            &&& view.mode is Headers ==> fold.notice == Some(Notice::FoldBodyOnly) && all.notice
                == Some(Notice::FoldBodyOnly) && fold.ask == ViewerAsk::Nothing
            &&& view.mode is Body && !(view.syntax is Json) ==> fold.notice == Some(
                Notice::FoldJsonOnly,
            ) && all.notice == Some(Notice::FoldJsonOnly)
        }),
{
    reveal(viewed_done);
}

/// The line of a search shows what is typed behind a slash, and how many matches there are.
pub proof fn law_search_line_counts(query: Seq<char>, matches: nat)
    ensures
        search_line(Seq::<char>::empty(), matches) == "/"@,
        query.len() > 0 && matches == 0 ==> search_line(query, matches) == "/"@ + query
            + "    no matches"@,
        query.len() > 0 && matches > 0 ==> search_line(query, matches) == "/"@ + query + "    "@
            + crate::text::decimal(matches) + " matches"@,
{
}

/// The keys while a body is browsed: `i` and `a` go on to type in it, Enter to edit it, and the
/// others do what they do in the response viewer.
pub proof fn law_browse_keys(c: char)
    ensures
        c == 'i' || c == 'a' ==> spec_browse_key(KeyEvent::spec_char(c)) == Some(
            BrowseKey::EditInsert,
        ),
        spec_browse_key(KeyEvent::spec_key(Key::Enter)) == Some(BrowseKey::EditNormal),
        spec_browse_key(KeyEvent::spec_char('y')) == Some(BrowseKey::View(Action::CopyResponse)),
        spec_browse_key(KeyEvent::spec_char('Y')) == Some(BrowseKey::View(Action::CopyLine)),
        spec_browse_key(KeyEvent::spec_char('/')) == Some(BrowseKey::View(Action::OpenBodySearch)),
        spec_browse_key(KeyEvent::spec_char('n')) == Some(BrowseKey::View(Action::SearchNext)),
        spec_browse_key(KeyEvent::spec_char('N')) == Some(BrowseKey::View(Action::SearchPrev)),
        spec_browse_key(KeyEvent::spec_char('p')) == Some(BrowseKey::View(Action::TogglePretty)),
        spec_browse_key(KeyEvent::spec_char('W')) == Some(BrowseKey::View(Action::ToggleWrap)),
        spec_browse_key(KeyEvent::spec_char('o')) == Some(BrowseKey::View(Action::ToggleFold)),
        spec_browse_key(KeyEvent::spec_char('q')) is None,
{
}

} // verus!
