//! Open endpoints: each has its edits, its response and its editors, and one of
//! them is active.

use std::collections::HashMap;
use std::collections::VecDeque;

use edtui::EditorEventHandler;

use vstd::prelude::*;
use vstd::std_specs::hash::*;

use crate::body::{body_folded, body_text, fold_body_text, text_of_body};
use crate::editor::{lf_lines, vim_keys, EditorMode, ModalEditor};
use crate::line_editor::LineEditor;
use crate::meta::ResponseMeta;
use crate::model::{BodyKind, BodyView, Content, Endpoint, EndpointView, RequestView};
use crate::notice::Notice;
use crate::request_pane::{RequestTabs, TabsView};
use crate::response::{Geometry, ResponseState};

verus! {

/// A highlighted line of text.
#[verifier::external_type_specification]
#[verifier::external_body]
pub struct ExLine<'a>(ratatui::text::Line<'a>);

/// An endpoint and where it was loaded from.
#[derive(Debug)]
pub struct SelectedEndpoint {
    /// The label of its tab.
    pub display_path: String,
    /// Its file.
    pub file: String,
    /// The index of its collection.
    pub collection: usize,
    /// The endpoint with its edits.
    pub endpoint: Endpoint,
}

/// A request in flight.
#[derive(Debug)]
pub struct InFlight {
    /// The generation that it was sent under.
    pub generation: u64,
    /// What was asked.
    pub meta: ResponseMeta,
}

/// How many viewports of highlighted text a buffer keeps.
pub const HIGHLIGHT_CAP: usize = 64;

/// One open endpoint.
pub struct EndpointBuffer {
    /// The endpoint with its edits.
    pub endpoint: SelectedEndpoint,
    /// The endpoint as it was loaded or last saved.
    pub loaded_snapshot: Endpoint,
    /// The editor of the body.
    pub editor: ModalEditor,
    /// The tabs of the request pane.
    pub tabs: RequestTabs,
    /// The URL editor in the bar, while it is open.
    pub url_editor: Option<LineEditor>,
    /// The URL editor in a popup, while it is open.
    pub url_popup: Option<ModalEditor>,
    /// The key handler of the popup, while the popup is closed after it was open.
    pub popup_events: Option<EditorEventHandler>,
    /// The response pane.
    pub response: ResponseState,
    /// The response pane's cursor and window.
    pub geometry: Geometry,
    /// The body as it is browsed.
    pub browsed: ResponseState,
    /// The cursor and the window of the body that is browsed.
    pub browse_geometry: Geometry,
    /// The viewport that is being highlighted.
    pub pending_highlight: Option<u64>,
    /// Highlighted viewports by their hash.
    pub highlight_cache: HashMap<u64, Vec<ratatui::text::Line<'static>>>,
    /// The request in flight.
    pub in_flight: Option<InFlight>,
}

impl EndpointBuffer {
    /// The editors in the buffer have their cursors within their lines.
    pub open spec fn wf(&self) -> bool {
        &&& self.tabs.wf()
        &&& (self.url_editor matches Some(e) ==> e.wf())
        &&& self.editor.wf()
        &&& (self.url_popup matches Some(e) ==> e.wf())
        &&& (self.popup_events matches Some(events) ==> vim_keys(events))
    }

    /// The endpoint with the editor's text folded into its body.
    pub open spec fn live(&self) -> EndpointView {
        EndpointView {
            request: RequestView {
                body: body_folded(self.endpoint.endpoint.request@.body, self.editor.spec_text()),
                ..self.endpoint.endpoint.request@
            },
            ..self.endpoint.endpoint@
        }
    }

    /// Whether the endpoint differs from the snapshot.
    pub open spec fn dirty(&self) -> bool {
        self.live() != self.loaded_snapshot@
    }

    /// A buffer that was just opened: the editor holds the body's text, nothing
    /// was sent, and nothing is edited.
    pub fn new(selected: SelectedEndpoint) -> (r: EndpointBuffer)
        ensures
            r.endpoint == selected,
            r.loaded_snapshot@ == selected.endpoint@,
            r.editor.fresh(body_text(selected.endpoint@.request.body)),
            r.editor.spec_text() == lf_lines(body_text(selected.endpoint@.request.body)),
            r.editor.spec_mode() == EditorMode::Normal,
            r.tabs@ == TabsView::fresh(),
            r.url_editor is None,
            r.url_popup is None,
            r.popup_events is None,
            r.response == ResponseState::Idle,
            r.geometry == Geometry::spec_new(),
            r.browsed == ResponseState::Idle,
            r.browse_geometry == Geometry::spec_new(),
            r.pending_highlight is None,
            r.highlight_cache@ == Map::<u64, Vec<ratatui::text::Line<'static>>>::empty(),
            r.in_flight is None,
            r.wf(),
    {
        let snapshot = selected.endpoint.copy();
        let text = text_of_body(&selected.endpoint.request.body);
        EndpointBuffer {
            endpoint: selected,
            loaded_snapshot: snapshot,
            editor: ModalEditor::new(text.as_str()),
            tabs: RequestTabs::new(),
            url_editor: None,
            url_popup: None,
            popup_events: None,
            response: ResponseState::Idle,
            geometry: Geometry::new(),
            browsed: ResponseState::Idle,
            browse_geometry: Geometry::new(),
            pending_highlight: None,
            highlight_cache: HashMap::new(),
            in_flight: None,
        }
    }

    /// Whether the endpoint, with the editor's text, differs from the snapshot.
    pub fn is_dirty(&self) -> (r: bool)
        ensures
            r == self.dirty(),
    {
        let mut live = self.endpoint.endpoint.copy();
        fold_body_text(&mut live.request, self.editor.text());
        !live.same(&self.loaded_snapshot)
    }

    /// The buffer once the editor's text is folded into the request.
    pub open spec fn synced(&self, after: EndpointBuffer) -> bool {
        &&& after.endpoint.endpoint@ == self.live()
        &&& after == (EndpointBuffer {
            endpoint: SelectedEndpoint {
                endpoint: Endpoint {
                    request: crate::model::Request {
                        body: after.endpoint.endpoint.request.body,
                        ..self.endpoint.endpoint.request
                    },
                    ..self.endpoint.endpoint
                },
                ..self.endpoint
            },
            ..*self
        })
    }

    /// Folds the editor's text into the request.
    pub fn sync_body(&mut self)
        ensures
            old(self).synced(*final(self)),
    {
        let text = self.editor.text();
        fold_body_text(&mut self.endpoint.endpoint.request, text);
    }

    /// The buffer with what was highlighted of it dropped.
    pub open spec fn unhighlighted(self, after: EndpointBuffer) -> bool {
        &&& after.highlight_cache@ == Map::<u64, Vec<ratatui::text::Line<'static>>>::empty()
        &&& after == (EndpointBuffer {
            highlight_cache: after.highlight_cache,
            pending_highlight: None,
            ..self
        })
    }

    /// Drops what was highlighted.
    pub fn clear_highlight(&mut self)
        ensures
            old(self).unhighlighted(*final(self)),
    {
        self.highlight_cache.clear();
        self.pending_highlight = None;
    }

    /// The highlighted viewports once another one is kept: a full cache is
    /// emptied first.
    pub open spec fn cached(
        cache: Map<u64, Vec<ratatui::text::Line<'static>>>,
        hash: u64,
        lines: Vec<ratatui::text::Line<'static>>,
    ) -> Map<u64, Vec<ratatui::text::Line<'static>>> {
        if cache.dom().len() >= HIGHLIGHT_CAP {
            Map::empty().insert(hash, lines)
        } else {
            cache.insert(hash, lines)
        }
    }

    /// Keeps a highlighted viewport. The viewport is no longer pending.
    pub fn cache_highlighted(&mut self, hash: u64, lines: Vec<ratatui::text::Line<'static>>)
        ensures
            final(self).highlight_cache@ == EndpointBuffer::cached(
                old(self).highlight_cache@,
                hash,
                lines,
            ),
            *final(self) == (EndpointBuffer {
                highlight_cache: final(self).highlight_cache,
                pending_highlight: (if old(self).pending_highlight == Some(hash) {
                    None
                } else {
                    old(self).pending_highlight
                }),
                ..*old(self)
            }),
    {
        broadcast use vstd::std_specs::hash::group_hash_axioms;

        if self.highlight_cache.len() >= HIGHLIGHT_CAP {
            self.highlight_cache.clear();
        }
        let pending = match self.pending_highlight {
            Some(h) => h == hash,
            None => false,
        };
        if pending {
            self.pending_highlight = None;
        }
        self.highlight_cache.insert(hash, lines);
    }
}

/// A cache of highlighted viewports that starts within its bound stays within it.
pub proof fn law_highlight_cache_is_bounded(
    cache: Map<u64, Vec<ratatui::text::Line<'static>>>,
    hash: u64,
    lines: Vec<ratatui::text::Line<'static>>,
)
    requires
        cache.dom().finite(),
        cache.dom().len() <= HIGHLIGHT_CAP,
    ensures
        EndpointBuffer::cached(cache, hash, lines).dom().len() <= HIGHLIGHT_CAP,
        EndpointBuffer::cached(cache, hash, lines)[hash] == lines,
{
    broadcast use vstd::set::group_set_axioms;

    let empty: Map<u64, Vec<ratatui::text::Line<'static>>> = Map::empty();
    assert(empty.insert(hash, lines).dom() =~= Set::empty().insert(hash));
}

/// How many of the flags are set.
pub open spec fn count_set(keep: Seq<bool>) -> nat
    decreases keep.len(),
{
    if keep.len() == 0 {
        0
    } else {
        count_set(keep.drop_last()) + if keep.last() {
            1nat
        } else {
            0
        }
    }
}

/// The items whose flag is set, in order.
pub open spec fn kept<T>(s: Seq<T>, keep: Seq<bool>) -> Seq<T>
    decreases s.len(),
{
    if s.len() == 0 {
        Seq::empty()
    } else {
        let before = kept(s.drop_last(), keep.drop_last());
        if keep.last() {
            before.push(s.last())
        } else {
            before
        }
    }
}

/// The active place once only the flagged items are left: the item itself, or
/// the next one that is left, or else the last.
pub open spec fn active_left(keep: Seq<bool>, active: int) -> int {
    let before = count_set(keep.take(active));
    let total = count_set(keep);
    if total == 0 {
        0
    } else if before < total {
        before as int
    } else {
        total - 1
    }
}

proof fn lemma_kept_len<T>(s: Seq<T>, keep: Seq<bool>)
    requires
        s.len() == keep.len(),
    ensures
        kept(s, keep).len() == count_set(keep),
        count_set(keep) <= keep.len(),
    decreases s.len(),
{
    if s.len() > 0 {
        lemma_kept_len(s.drop_last(), keep.drop_last());
    }
}

proof fn lemma_count_monotone(keep: Seq<bool>, a: int, b: int)
    requires
        0 <= a <= b <= keep.len(),
    ensures
        count_set(keep.take(a)) <= count_set(keep.take(b)),
        count_set(keep.take(b)) - count_set(keep.take(a)) <= b - a,
    decreases b - a,
{
    if a < b {
        lemma_count_monotone(keep, a, b - 1);
        assert(keep.take(b).drop_last() =~= keep.take(b - 1));
    }
}

/// The place of the first buffer of a file, or the number of buffers.
pub open spec fn buffer_at(list: Seq<EndpointBuffer>, path: Seq<char>) -> int
    decreases list.len(),
{
    if list.len() == 0 || list[0].endpoint.file@ == path {
        0
    } else {
        1 + buffer_at(list.skip(1), path)
    }
}

/// [`buffer_at`] is the first buffer of the file.
pub proof fn lemma_buffer_at(list: Seq<EndpointBuffer>, path: Seq<char>)
    ensures
        0 <= buffer_at(list, path) <= list.len(),
        buffer_at(list, path) < list.len() ==> list[buffer_at(list, path)].endpoint.file@ == path,
        forall|i: int|
            0 <= i < buffer_at(list, path) ==> (#[trigger] list[i]).endpoint.file@ != path,
    decreases list.len(),
{
    if list.len() > 0 && list[0].endpoint.file@ != path {
        lemma_buffer_at(list.skip(1), path);
        assert forall|i: int| 0 <= i < buffer_at(list, path) implies (#[trigger] list[i]).endpoint.file@
            != path by {
            if i > 0 {
                assert(list[i] == list.skip(1)[i - 1]);
            }
        }
    }
}

/// The flags of the buffers with unsaved changes.
pub open spec fn dirty_flags(list: Seq<EndpointBuffer>) -> Seq<bool> {
    list.map_values(|b: EndpointBuffer| b.dirty())
}

/// The files of buffers.
pub open spec fn files(list: Seq<EndpointBuffer>) -> Seq<Seq<char>> {
    list.map_values(|b: EndpointBuffer| b.endpoint.file@)
}

/// The open buffers and the active one.
pub struct Buffers {
    /// The buffers in tab order.
    pub list: Vec<EndpointBuffer>,
    /// The place of the active buffer, and 0 when there is none.
    pub active: usize,
}

/// What is found on disk of a buffer's file.
#[derive(Debug, Clone, Copy, PartialEq, Eq, Structural)]
pub struct BufferPlace {
    /// Whether the file exists.
    pub exists: bool,
    /// The index of its collection, where it lies in one.
    pub collection: Option<usize>,
}

/// What closing a buffer led to.
#[derive(Debug)]
pub enum CloseOutcome {
    /// There is no such buffer.
    Nothing,
    /// The buffer has unsaved changes: its file is asked about first.
    Deferred {
        /// The buffer's file.
        path: String,
    },
    /// The buffer is gone.
    Closed {
        /// The request in flight that is to be aborted.
        abort: Option<u64>,
    },
}

/// The generation of the request in flight.
pub open spec fn flight_of(b: EndpointBuffer) -> Option<u64> {
    match b.in_flight {
        Some(f) => Some(f.generation),
        None => None,
    }
}

/// The generations of the requests in flight, in order.
pub open spec fn flights(list: Seq<EndpointBuffer>) -> Seq<u64>
    decreases list.len(),
{
    if list.len() == 0 {
        Seq::empty()
    } else {
        let before = flights(list.drop_last());
        match flight_of(list.last()) {
            Some(g) => before.push(g),
            None => before,
        }
    }
}

impl Buffers {
    /// The active place is one of the buffers, or 0 when there are none, and the
    /// buffers are well formed.
    pub open spec fn wf(&self) -> bool {
        &&& (self.list@.len() == 0 ==> self.active == 0)
        &&& (self.list@.len() > 0 ==> self.active < self.list@.len())
        &&& forall|i: int| 0 <= i < self.list@.len() ==> (#[trigger] self.list@[i]).wf()
    }

    /// No file is open twice.
    pub open spec fn distinct(&self) -> bool {
        forall|i: int, j: int|
            0 <= i < j < self.list@.len() ==> self.list@[i].endpoint.file@
                != self.list@[j].endpoint.file@
    }

    /// Whether some endpoint is open.
    pub open spec fn loaded(&self) -> bool {
        self.active < self.list@.len()
    }

    /// The active buffer.
    pub open spec fn current(&self) -> EndpointBuffer {
        self.list@[self.active as int]
    }

    /// Whether the active buffer has unsaved changes.
    pub open spec fn current_dirty(&self) -> bool {
        self.loaded() && self.current().dirty()
    }

    /// Whether any buffer has unsaved changes.
    pub open spec fn some_dirty(&self) -> bool {
        exists|i: int| 0 <= i < self.list@.len() && (#[trigger] self.list@[i]).dirty()
    }

    /// Only the active buffer changed.
    pub open spec fn current_changed(&self, after: Buffers, b: EndpointBuffer) -> bool {
        &&& after.list@ == self.list@.update(self.active as int, b)
        &&& after.active == self.active
    }

    /// No buffer.
    pub fn new() -> (r: Buffers)
        ensures
            r.list@.len() == 0,
            r.active == 0,
            r.wf(),
            r.distinct(),
    {
        Buffers { list: Vec::new(), active: 0 }
    }

    /// The place of the first buffer of a file.
    pub fn buffer_index_for_path(&self, path: &String) -> (r: Option<usize>)
        ensures
            match r {
                Some(i) => i == buffer_at(self.list@, path@) && i < self.list@.len(),
                None => buffer_at(self.list@, path@) == self.list@.len(),
            },
    {
        let mut i: usize = 0;
        assert(self.list@.skip(0) =~= self.list@);
        while i < self.list.len()
            invariant
                i <= self.list.len(),
                buffer_at(self.list@, path@) == i + buffer_at(self.list@.skip(i as int), path@),
            decreases self.list.len() - i,
        {
            assert(self.list@.skip(i as int).skip(1) =~= self.list@.skip(i + 1));
            if self.list[i].endpoint.file == *path {
                return Some(i);
            }
            i = i + 1;
        }
        None
    }

    /// The buffers once another one is active: what was highlighted of the one
    /// that is left is dropped.
    pub open spec fn switched(&self, idx: int, after: Buffers) -> bool {
        &&& after.active == idx
        &&& if idx == self.active || !self.loaded() {
            after.list@ == self.list@
        } else {
            &&& after.list@.len() == self.list@.len()
            &&& self.current().unhighlighted(after.list@[self.active as int])
            &&& forall|i: int|
                0 <= i < self.list@.len() && i != self.active ==> #[trigger] after.list@[i]
                    == self.list@[i]
        }
    }

    /// Makes another buffer active and drops what was highlighted of the one that
    /// is left.
    pub fn set_active_buffer(&mut self, idx: usize)
        ensures
            old(self).switched(idx as int, *final(self)),
    {
        if idx == self.active {
            return ;
        }
        if self.active < self.list.len() {
            self.list[self.active].clear_highlight();
        }
        self.active = idx;
    }

    /// The buffers once an endpoint is opened: its buffer is made active, and is
    /// added when there is none.
    pub open spec fn opened(&self, selected: SelectedEndpoint, after: Buffers) -> bool {
        let at = buffer_at(self.list@, selected.file@);
        if at < self.list@.len() {
            self.switched(at, after)
        } else {
            &&& after.active == self.list@.len()
            &&& after.list@.len() == self.list@.len() + 1
            &&& after.list@.last().endpoint == selected
            &&& after.list@.last().loaded_snapshot@ == selected.endpoint@
            &&& after.list@.last().editor.fresh(body_text(selected.endpoint@.request.body))
            &&& after.list@.last().editor.spec_text() == lf_lines(
                body_text(selected.endpoint@.request.body),
            )
            &&& after.list@.last().editor.spec_mode() == EditorMode::Normal
            &&& after.list@.last().tabs@ == TabsView::fresh()
            &&& after.list@.last().url_editor is None
            &&& after.list@.last().url_popup is None
            &&& after.list@.last().popup_events is None
            &&& after.list@.last().response == ResponseState::Idle
            &&& after.list@.last().geometry == Geometry::spec_new()
            &&& after.list@.last().browsed == ResponseState::Idle
            &&& after.list@.last().browse_geometry == Geometry::spec_new()
            &&& after.list@.last().in_flight is None
            &&& forall|i: int|
                0 <= i < self.list@.len() ==> {
                    if i == self.active {
                        self.list@[i].unhighlighted(#[trigger] after.list@[i])
                    } else {
                        after.list@[i] == self.list@[i]
                    }
                }
        }
    }

    /// Makes the buffer of an endpoint active, with its edits and its response, or
    /// adds one. Another endpoint's buffer is never replaced.
    pub fn open_or_focus_buffer(&mut self, selected: SelectedEndpoint)
        requires
            old(self).wf(),
        ensures
            old(self).opened(selected, *final(self)),
            final(self).wf(),
            final(self).loaded(),
            final(self).current().endpoint.file@ == selected.file@,
            old(self).distinct() ==> final(self).distinct(),
    {
        proof {
            lemma_buffer_at(self.list@, selected.file@);
        }
        match self.buffer_index_for_path(&selected.file) {
            Some(i) => {
                self.set_active_buffer(i);
            },
            None => {
                let ghost before = *self;
                self.list.push(EndpointBuffer::new(selected));
                let last: usize = self.list.len() - 1;
                let ghost mid = *self;
                assert(forall|i: int| 0 <= i < before.list@.len() ==> mid.list@[i] == before.list@[i]);
                self.set_active_buffer(last);
            },
        }
    }

    /// Whether the active buffer has unsaved changes.
    pub fn is_dirty(&self) -> (r: bool)
        ensures
            r == self.current_dirty(),
    {
        self.active < self.list.len() && self.list[self.active].is_dirty()
    }

    /// Whether any buffer has unsaved changes.
    pub fn any_buffer_dirty(&self) -> (r: bool)
        ensures
            r == self.some_dirty(),
    {
        let mut i: usize = 0;
        while i < self.list.len()
            invariant
                i <= self.list.len(),
                forall|j: int| 0 <= j < i ==> !(#[trigger] self.list@[j]).dirty(),
            decreases self.list.len() - i,
        {
            if self.list[i].is_dirty() {
                assert(self.list@[i as int].dirty());
                return true;
            }
            i = i + 1;
        }
        false
    }

    /// The place after or before the active one, round the end.
    pub open spec fn cycle_target(&self, forward: bool) -> int {
        if forward {
            if self.active + 1 < self.list@.len() {
                self.active + 1
            } else {
                0
            }
        } else {
            if self.active > 0 {
                self.active - 1
            } else {
                self.list@.len() - 1
            }
        }
    }

    /// Makes the next or the previous buffer active, round the end. Without
    /// buffers nothing happens.
    pub fn buffer_cycle(&mut self, forward: bool)
        requires
            old(self).wf(),
        ensures
            old(self).list@.len() == 0 ==> *final(self) == *old(self),
            old(self).list@.len() > 0 ==> old(self).switched(
                old(self).cycle_target(forward),
                *final(self),
            ),
            final(self).wf(),
    {
        let len = self.list.len();
        if len == 0 {
            return ;
        }
        let next: usize = if forward {
            if self.active < len - 1 {
                self.active + 1
            } else {
                0
            }
        } else if self.active > 0 {
            self.active - 1
        } else {
            len - 1
        };
        self.set_active_buffer(next);
    }

    /// Makes the `n`th buffer active, counted from 1; there may be none.
    pub fn focus_buffer_index(&mut self, n: usize) -> (r: Option<Notice>)
        requires
            old(self).wf(),
        ensures
            1 <= n <= old(self).list@.len() ==> r is None && old(self).switched(
                n - 1,
                *final(self),
            ),
            !(1 <= n <= old(self).list@.len()) ==> r == Some(
                Notice::NoTab { number: n as u64 },
            ) && *final(self) == *old(self),
            final(self).wf(),
    {
        let len = self.list.len();
        if n == 0 || n > len {
            return Some(Notice::NoTab { number: n as u64 });
        }
        self.set_active_buffer(n - 1);
        None
    }

    /// The active place once the buffer at `closed` is gone, where `left` buffers
    /// are left: a buffer before the active one moves it to the left, and after
    /// the active one its right neighbour follows, or the last.
    pub open spec fn active_after_close(active: int, closed: int, left: nat) -> int {
        if left == 0 {
            0
        } else if closed < active {
            active - 1
        } else if closed == active {
            if closed < left {
                closed
            } else {
                left - 1
            }
        } else {
            active
        }
    }

    /// The active place once the buffer at `closed` is gone.
    pub fn new_active_after_close(&self, closed: usize) -> (r: usize)
        ensures
            r == Buffers::active_after_close(
                self.active as int,
                closed as int,
                self.list@.len(),
            ),
    {
        let len = self.list.len();
        if len == 0 {
            return 0;
        }
        if closed < self.active {
            self.active - 1
        } else if closed == self.active {
            if closed < len {
                closed
            } else {
                len - 1
            }
        } else {
            self.active
        }
    }

    /// Removes a buffer and hands out the request in flight that is to be aborted.
    pub fn remove_buffer_at(&mut self, i: usize) -> (abort: Option<u64>)
        requires
            old(self).wf(),
            i < old(self).list@.len(),
        ensures
            abort == flight_of(old(self).list@[i as int]),
            final(self).list@ == old(self).list@.remove(i as int),
            final(self).active == Buffers::active_after_close(
                old(self).active as int,
                i as int,
                (old(self).list@.len() - 1) as nat,
            ),
            final(self).wf(),
            old(self).distinct() ==> final(self).distinct(),
    {
        let gone = self.list.remove(i);
        self.active = self.new_active_after_close(i);
        match gone.in_flight {
            Some(f) => Some(f.generation),
            None => None,
        }
    }

    /// Closes a buffer. One with unsaved changes stays, and its file is to be
    /// asked about.
    pub fn close_buffer(&mut self, i: usize) -> (r: CloseOutcome)
        requires
            old(self).wf(),
        ensures
            i >= old(self).list@.len() ==> r == CloseOutcome::Nothing && *final(self) == *old(self),
            i < old(self).list@.len() && old(self).list@[i as int].dirty() ==> r
                == (CloseOutcome::Deferred { path: old(self).list@[i as int].endpoint.file })
                && *final(self) == *old(self),
            i < old(self).list@.len() && !old(self).list@[i as int].dirty() ==> {
                &&& r == (CloseOutcome::Closed { abort: flight_of(old(self).list@[i as int]) })
                &&& final(self).list@ == old(self).list@.remove(i as int)
                &&& final(self).active == Buffers::active_after_close(
                    old(self).active as int,
                    i as int,
                    (old(self).list@.len() - 1) as nat,
                )
            },
            final(self).wf(),
    {
        if i >= self.list.len() {
            return CloseOutcome::Nothing;
        }
        if self.list[i].is_dirty() {
            return CloseOutcome::Deferred { path: self.list[i].endpoint.file.clone() };
        }
        CloseOutcome::Closed { abort: self.remove_buffer_at(i) }
    }

    /// The buffers and what is asked once all are closed: the ones with unsaved
    /// changes stay, and their files are asked about in order.
    pub open spec fn closed_all(
        &self,
        after: Buffers,
        queue: Seq<String>,
        aborts: Seq<u64>,
    ) -> bool {
        let keep = dirty_flags(self.list@);
        &&& after.list@ == kept(self.list@, keep)
        &&& after.active == active_left(keep, self.active as int)
        &&& crate::text::texts(queue) == files(after.list@)
        &&& aborts == flights(kept(self.list@, keep.map_values(|d: bool| !d)))
    }

    /// Closes every buffer without unsaved changes, hands out the files of the
    /// others in order, and pushes the requests in flight that are to be aborted.
    pub fn close_all_buffers(&mut self, aborts: &mut Vec<u64>) -> (queue: VecDeque<String>)
        requires
            old(self).wf(),
        ensures
            final(aborts)@.len() >= old(aborts)@.len(),
            final(aborts)@.take(old(aborts)@.len() as int) == old(aborts)@,
            old(self).closed_all(
                *final(self),
                queue@,
                final(aborts)@.skip(old(aborts)@.len() as int),
            ),
            final(self).wf(),
            forall|i: int| 0 <= i < final(self).list@.len() ==> (#[trigger] final(self).list@[i]).dirty(),
    {
        let ghost list0 = self.list@;
        let ghost active0 = self.active as int;
        let ghost keep = dirty_flags(list0);
        let ghost drop = keep.map_values(|d: bool| !d);
        let ghost aborts0 = aborts@;
        let mut queue: VecDeque<String> = VecDeque::new();
        let mut i: usize = 0;
        let ghost mut k: int = 0;
        proof {
            assert(list0.take(0) =~= Seq::empty());
            assert(list0.skip(0) =~= list0);
            assert(keep.take(0) =~= Seq::empty());
            assert(kept(list0.take(0), keep.take(0)) + list0.skip(0) =~= list0);
            assert(flights(kept(list0.take(0), drop.take(0))) =~= Seq::empty());
            assert(aborts0 + Seq::<u64>::empty() =~= aborts0);
            assert(crate::text::texts(queue@) =~= files(kept(list0.take(0), keep.take(0))));
        }
        while i < self.list.len()
            invariant
                0 <= k <= list0.len(),
                keep == dirty_flags(list0),
                drop == keep.map_values(|d: bool| !d),
                self.wf(),
                i == count_set(keep.take(k)),
                self.list@ == kept(list0.take(k), keep.take(k)) + list0.skip(k),
                crate::text::texts(queue@) == files(kept(list0.take(k), keep.take(k))),
                aborts@ == aborts0 + flights(kept(list0.take(k), drop.take(k))),
                0 <= active0,
                list0.len() > 0 ==> active0 < list0.len(),
                list0.len() == 0 ==> active0 == 0,
                k <= active0 ==> self.active == i + active0 - k,
                k > active0 ==> ({
                    let d = count_set(keep.take(active0));
                    if self.list@.len() == 0 {
                        self.active == 0
                    } else if d < self.list@.len() {
                        self.active == d
                    } else {
                        self.active == self.list@.len() - 1
                    }
                }),
                forall|j: int| 0 <= j < i ==> (#[trigger] self.list@[j]).dirty(),
            decreases list0.len() - k,
        {
            proof {
                lemma_kept_len(list0.take(k), keep.take(k));
                assert(k < list0.len());
                assert(self.list@[i as int] == list0[k]);
                assert(keep.take(k + 1).drop_last() =~= keep.take(k));
                assert(list0.take(k + 1).drop_last() =~= list0.take(k));
                assert(drop.take(k + 1).drop_last() =~= drop.take(k));
                assert(keep.take(k + 1).last() == list0[k].dirty());
                assert(drop.take(k + 1).last() == !list0[k].dirty());
                if active0 <= k {
                    lemma_count_monotone(keep, active0, k);
                }
            }
            let ghost head = kept(list0.take(k), keep.take(k));
            if self.list[i].is_dirty() {
                let ghost before = queue@;
                queue.push_back(self.list[i].endpoint.file.clone());
                proof {
                    let next = kept(list0.take(k + 1), keep.take(k + 1));
                    assert(next == head.push(list0[k]));
                    assert(self.list@ =~= next + list0.skip(k + 1));
                    assert(crate::text::texts(queue@) =~= crate::text::texts(before).push(
                        list0[k].endpoint.file@,
                    ));
                    assert(files(next) =~= files(head).push(list0[k].endpoint.file@));
                }
                i = i + 1;
            } else {
                let ghost before = self.list@;
                let ghost flown = kept(list0.take(k), drop.take(k));
                let abort = self.remove_buffer_at(i);
                proof {
                    assert(self.list@ =~= head + list0.skip(k + 1));
                    let next = kept(list0.take(k + 1), drop.take(k + 1));
                    assert(next == flown.push(list0[k]));
                    assert(next.drop_last() =~= flown);
                }
                let ghost done = aborts@;
                if let Some(g) = abort {
                    aborts.push(g);
                    assert(aborts@ =~= aborts0 + flights(flown).push(g));
                }
            }
            proof {
                k = k + 1;
            }
        }
        proof {
            lemma_kept_len(list0.take(k), keep.take(k));
            assert(list0.skip(k).len() == 0);
            assert(list0.take(k) =~= list0);
            assert(keep.take(k) =~= keep);
            assert(drop.take(k) =~= drop);
            assert(self.list@ =~= kept(list0, keep));
            assert(aborts@.skip(aborts0.len() as int) =~= flights(kept(list0, drop)));
            assert(aborts@.take(aborts0.len() as int) =~= aborts0);
            if list0.len() > 0 {
                lemma_count_monotone(keep, active0, keep.len() as int);
                assert(keep.take(keep.len() as int) =~= keep);
            }
        }
        queue
    }

    /// Whether the file of a path is open with unsaved changes.
    pub open spec fn open_dirty(&self, path: Seq<char>) -> bool {
        let at = buffer_at(self.list@, path);
        at < self.list@.len() && self.list@[at].dirty()
    }

    /// How many paths at the front are not open with unsaved changes.
    pub open spec fn settled(&self, queue: Seq<String>) -> int
        decreases queue.len(),
    {
        if queue.len() == 0 || self.open_dirty(queue[0]@) {
            0
        } else {
            1 + self.settled(queue.skip(1))
        }
    }

    /// Drops the paths at the front that need no question any more, and says
    /// whether one is left that does.
    pub fn skip_settled(&self, queue: &mut VecDeque<String>) -> (ask: bool)
        ensures
            0 <= self.settled(old(queue)@) <= old(queue)@.len(),
            final(queue)@ == old(queue)@.skip(self.settled(old(queue)@)),
            ask == (final(queue)@.len() > 0),
            ask ==> self.open_dirty(final(queue)@[0]@),
    {
        let ghost start = queue@;
        let ghost mut n: int = 0;
        assert(start.skip(0) =~= start);
        while queue.len() > 0
            invariant
                0 <= n <= start.len(),
                start == old(queue)@,
                queue@ == start.skip(n),
                self.settled(start) == n + self.settled(queue@),
            decreases queue.len(),
        {
            proof {
                lemma_buffer_at(self.list@, queue@[0]@);
            }
            let dirty = match self.buffer_index_for_path(&queue[0]) {
                Some(idx) => self.list[idx].is_dirty(),
                None => false,
            };
            if dirty {
                return true;
            }
            assert(queue@.skip(1) =~= start.skip(n + 1));
            let gone = queue.pop_front();
            assert(queue@ =~= start.skip(n + 1));
            proof {
                n = n + 1;
            }
        }
        false
    }

    /// A buffer at its place on disk.
    pub open spec fn placed(b: EndpointBuffer, place: BufferPlace) -> EndpointBuffer {
        match place.collection {
            Some(c) => EndpointBuffer {
                endpoint: SelectedEndpoint { collection: c, ..b.endpoint },
                ..b
            },
            None => b,
        }
    }

    /// The buffers once the tree was read again: a buffer whose file is gone is
    /// dropped, and the others know the index of their collection.
    pub open spec fn remapped(&self, places: Seq<BufferPlace>, after: Buffers) -> bool {
        let keep = places.map_values(|p: BufferPlace| p.exists);
        let moved = Seq::new(
            self.list@.len(),
            |i: int| Buffers::placed(self.list@[i], places[i]),
        );
        &&& after.list@ == kept(moved, keep)
        &&& after.active == active_left(keep, self.active as int)
    }

    /// Drops the buffers whose files are gone and updates the others' collection
    /// index; `places` tells of each buffer in order.
    pub fn remap_buffers(&mut self, places: &Vec<BufferPlace>)
        requires
            old(self).wf(),
            places@.len() == old(self).list@.len(),
        ensures
            old(self).remapped(places@, *final(self)),
            final(self).wf(),
    {
        let ghost list0 = self.list@;
        let ghost active0 = self.active as int;
        let ghost keep = places@.map_values(|p: BufferPlace| p.exists);
        let ghost moved = Seq::new(list0.len(), |i: int| Buffers::placed(list0[i], places@[i]));
        let mut i: usize = 0;
        let mut k: usize = 0;
        let total = places.len();
        proof {
            assert(moved.take(0) =~= Seq::empty());
            assert(keep.take(0) =~= Seq::empty());
            assert(kept(moved.take(0), keep.take(0)) + list0.skip(0) =~= list0);
        }
        while i < self.list.len()
            invariant
                0 <= k <= list0.len(),
                total == places@.len() == list0.len(),
                keep == places@.map_values(|p: BufferPlace| p.exists),
                moved == Seq::new(list0.len(), |i: int| Buffers::placed(list0[i], places@[i])),
                self.wf(),
                i == count_set(keep.take(k as int)),
                self.list@ == kept(moved.take(k as int), keep.take(k as int)) + list0.skip(
                    k as int,
                ),
                0 <= active0,
                list0.len() > 0 ==> active0 < list0.len(),
                list0.len() == 0 ==> active0 == 0,
                k <= active0 ==> self.active == i + active0 - k,
                k > active0 ==> ({
                    let d = count_set(keep.take(active0));
                    if self.list@.len() == 0 {
                        self.active == 0
                    } else if d < self.list@.len() {
                        self.active == d
                    } else {
                        self.active == self.list@.len() - 1
                    }
                }),
            decreases list0.len() - k,
        {
            proof {
                lemma_kept_len(moved.take(k as int), keep.take(k as int));
                assert(k < list0.len());
                assert(self.list@[i as int] == list0[k as int]);
                assert(keep.take(k + 1).drop_last() =~= keep.take(k as int));
                assert(moved.take(k + 1).drop_last() =~= moved.take(k as int));
                if active0 <= k {
                    lemma_count_monotone(keep, active0, k as int);
                }
            }
            let ghost head = kept(moved.take(k as int), keep.take(k as int));
            let ghost now = *self;
            if !places[k].exists {
                let gone = self.list.remove(i);
                proof {
                    assert(self.list@ =~= head + list0.skip(k + 1));
                    assert forall|j: int| 0 <= j < self.list@.len() implies (
                    #[trigger] self.list@[j]).wf() by {
                        if j < i {
                            assert(now.list@[j].wf());
                        } else {
                            assert(now.list@[j + 1].wf());
                        }
                    }
                }
                if self.active > i || self.active >= self.list.len() {
                    self.active = if self.active > 0 {
                        self.active - 1
                    } else {
                        0
                    };
                }
            } else {
                if let Some(c) = places[k].collection {
                    self.list[i].endpoint.collection = c;
                }
                proof {
                    assert(kept(moved.take(k + 1), keep.take(k + 1)) == head.push(moved[k as int]));
                    assert(self.list@ =~= head.push(moved[k as int]) + list0.skip(k + 1));
                    assert forall|j: int| 0 <= j < self.list@.len() implies (
                    #[trigger] self.list@[j]).wf() by {
                        assert(now.list@[j].wf());
                    }
                }
                i = i + 1;
            }
            k = k + 1;
        }
        proof {
            lemma_kept_len(moved.take(k as int), keep.take(k as int));
            assert(list0.skip(k as int).len() == 0);
            assert(moved.take(k as int) =~= moved);
            assert(keep.take(k as int) =~= keep);
            assert(self.list@ =~= kept(moved, keep));
            if list0.len() > 0 {
                lemma_count_monotone(keep, active0, keep.len() as int);
                assert(keep.take(keep.len() as int) =~= keep);
            }
        }
    }

    /// The requests in flight of all buffers, in order.
    pub fn all_flights(&self) -> (r: Vec<u64>)
        ensures
            r@ == flights(self.list@),
    {
        let mut out: Vec<u64> = Vec::new();
        let mut i: usize = 0;
        while i < self.list.len()
            invariant
                i <= self.list.len(),
                out@ == flights(self.list@.take(i as int)),
            decreases self.list.len() - i,
        {
            assert(self.list@.take(i + 1).drop_last() =~= self.list@.take(i as int));
            if let Some(f) = &self.list[i].in_flight {
                out.push(f.generation);
            }
            i = i + 1;
        }
        assert(self.list@.take(self.list@.len() as int) =~= self.list@);
        out
    }

    /// The place of the first buffer whose request in flight has a generation, or
    /// the number of buffers.
    pub open spec fn awaiting(list: Seq<EndpointBuffer>, generation: u64) -> int
        decreases list.len(),
    {
        if list.len() == 0 || flight_of(list[0]) == Some(generation) {
            0
        } else {
            1 + Buffers::awaiting(list.skip(1), generation)
        }
    }

    /// The place of the first buffer that awaits a generation.
    pub fn index_awaiting(&self, generation: u64) -> (r: Option<usize>)
        ensures
            match r {
                Some(i) => i == Buffers::awaiting(self.list@, generation) && i < self.list@.len()
                    && flight_of(self.list@[i as int]) == Some(generation),
                None => Buffers::awaiting(self.list@, generation) == self.list@.len() && forall|
                    i: int,
                |
                    0 <= i < self.list@.len() ==> flight_of(#[trigger] self.list@[i]) != Some(
                        generation,
                    ),
            },
    {
        let mut i: usize = 0;
        assert(self.list@.skip(0) =~= self.list@);
        while i < self.list.len()
            invariant
                i <= self.list.len(),
                Buffers::awaiting(self.list@, generation) == i + Buffers::awaiting(
                    self.list@.skip(i as int),
                    generation,
                ),
                forall|j: int|
                    0 <= j < i ==> flight_of(#[trigger] self.list@[j]) != Some(generation),
            decreases self.list.len() - i,
        {
            assert(self.list@.skip(i as int).skip(1) =~= self.list@.skip(i + 1));
            let hit = match &self.list[i].in_flight {
                Some(f) => f.generation == generation,
                None => false,
            };
            if hit {
                return Some(i);
            }
            i = i + 1;
        }
        None
    }

    /// Drops every buffer.
    pub fn clear(&mut self)
        ensures
            final(self).list@.len() == 0,
            final(self).active == 0,
            final(self).wf(),
            final(self).distinct(),
    {
        self.list.clear();
        self.active = 0;
    }
}

/// Going to the next buffer and back, or back and forth, ends where it started.
pub proof fn law_buffer_cycle_undoes(a: Buffers, b: Buffers, c: Buffers, forward: bool)
    requires
        a.wf(),
        a.list@.len() > 0,
        a.switched(a.cycle_target(forward), b),
        b.switched(b.cycle_target(!forward), c),
    ensures
        c.active == a.active,
        c.list@.len() == a.list@.len(),
{
}

/// Switching to another buffer changes no request, no snapshot, no response and
/// no editor of any buffer, so no buffer becomes dirty or clean by it.
pub proof fn law_switching_keeps_edits(a: Buffers, idx: int, b: Buffers, i: int)
    requires
        a.switched(idx, b),
        0 <= i < a.list@.len(),
    ensures
        b.list@[i].dirty() == a.list@[i].dirty(),
        b.list@[i].endpoint == a.list@[i].endpoint,
        b.list@[i].response == a.list@[i].response,
        b.list@[i].in_flight == a.list@[i].in_flight,
{
}

/// A buffer that was just opened is not dirty, unless its body is an empty text,
/// which saving would drop.
pub proof fn law_fresh_buffer_is_clean(b: EndpointBuffer)
    requires
        b.loaded_snapshot@ == b.endpoint.endpoint@,
        b.editor.spec_text() == body_text(b.endpoint.endpoint@.request.body),
        b.endpoint.endpoint@.request.body matches Some(crate::model::BodyView::Simple {
            content,
            ..
        }) ==> content.len() > 0,
    ensures
        !b.dirty(),
{
}

/// Opening an endpoint twice in a row is opening it once.
pub proof fn law_open_twice_is_once(
    a: Buffers,
    s: SelectedEndpoint,
    b: Buffers,
    t: SelectedEndpoint,
    c: Buffers,
)
    requires
        a.wf(),
        a.distinct(),
        t.file@ == s.file@,
        a.opened(s, b),
        b.opened(t, c),
        b.distinct(),
    ensures
        c.active == b.active,
        c.list@ == b.list@,
{
    lemma_buffer_at(a.list@, s.file@);
    lemma_buffer_at(b.list@, t.file@);
    let at = buffer_at(b.list@, t.file@);
    assert(b.list@[b.active as int].endpoint.file@ == s.file@);
    if at > b.active {
        assert(b.list@[b.active as int].endpoint.file@ != t.file@);
    }
    assert(at <= b.active);
    if at < b.active {
        assert(b.list@[at].endpoint.file@ != b.list@[b.active as int].endpoint.file@);
    }
}

/// Closing all buffers leaves exactly the ones with unsaved changes, and asks
/// about each of them once.
pub proof fn law_close_all_keeps_dirty(a: Buffers, b: Buffers, queue: Seq<String>, aborts: Seq<u64>)
    requires
        a.wf(),
        a.closed_all(b, queue, aborts),
    ensures
        queue.len() == b.list@.len(),
        b.list@.len() == count_set(dirty_flags(a.list@)),
        !a.some_dirty() ==> b.list@.len() == 0,
        forall|i: int| 0 <= i < queue.len() ==> (#[trigger] queue[i])@ == b.list@[i].endpoint.file@,
{
    lemma_kept_len(a.list@, dirty_flags(a.list@));
    assert(crate::text::texts(queue).len() == files(b.list@).len());
    assert forall|i: int| 0 <= i < queue.len() implies (#[trigger] queue[i])@
        == b.list@[i].endpoint.file@ by {
        assert(crate::text::texts(queue)[i] == files(b.list@)[i]);
    }
    if !a.some_dirty() {
        lemma_no_flags(dirty_flags(a.list@));
    }
}

proof fn lemma_no_flags(keep: Seq<bool>)
    requires
        forall|i: int| 0 <= i < keep.len() ==> !keep[i],
    ensures
        count_set(keep) == 0,
    decreases keep.len(),
{
    if keep.len() > 0 {
        lemma_no_flags(keep.drop_last());
    }
}

/// A buffer whose file lies elsewhere.
pub open spec fn at_file(b: EndpointBuffer, file: String) -> EndpointBuffer {
    EndpointBuffer { endpoint: SelectedEndpoint { file, ..b.endpoint }, ..b }
}

/// Buffers of which those at or below a path lie below another.
pub open spec fn repointed_all(
    before: Seq<EndpointBuffer>,
    after: Seq<EndpointBuffer>,
    from: Seq<char>,
    to: Seq<char>,
) -> bool {
    &&& after.len() == before.len()
    &&& forall|i: int|
        #![trigger after[i]]
        0 <= i < before.len() ==> {
            let file = before[i].endpoint.file@;
            if crate::paths::within(crate::paths::parsed(file), crate::paths::parsed(from)) {
                &&& after[i] == at_file(before[i], after[i].endpoint.file)
                &&& after[i].endpoint.file@ == crate::paths::moved(file, from, to)
            } else {
                after[i] == before[i]
            }
        }
}

/// Buffers of which those of a file are of another.
pub open spec fn refiled(
    before: Seq<EndpointBuffer>,
    after: Seq<EndpointBuffer>,
    from: Seq<char>,
    to: String,
) -> bool {
    &&& after.len() == before.len()
    &&& forall|i: int|
        #![trigger after[i]]
        0 <= i < before.len() ==> after[i] == (if before[i].endpoint.file@ == from {
            at_file(before[i], to)
        } else {
            before[i]
        })
}

impl Buffers {
    /// Follows a directory that moved: the buffers of files in it keep their edits
    /// and lie below the new one.
    pub fn repoint_dir(&mut self, from: &str, to: &str)
        requires
            old(self).wf(),
        ensures
            repointed_all(old(self).list@, final(self).list@, from@, to@),
            final(self).active == old(self).active,
            final(self).wf(),
    {
        let ghost before = self.list@;
        let total = self.list.len();
        let mut i: usize = 0;
        while i < total
            invariant
                i <= total,
                total == before.len(),
                before == old(self).list@,
                self.list@.len() == total,
                self.active == old(self).active,
                self.wf(),
                forall|j: int| i <= j < total ==> self.list@[j] == before[j],
                repointed_all(before.take(i as int), self.list@.take(i as int), from@, to@),
            decreases total - i,
        {
            let ghost mid = self.list@;
            if let Some(file) = crate::paths::repointed(
                self.list[i].endpoint.file.as_str(),
                from,
                to,
            ) {
                self.list[i].endpoint.file = file;
            }
            proof {
                let a = self.list@.take(i + 1);
                let b = before.take(i + 1);
                assert forall|j: int| #![trigger a[j]] 0 <= j < b.len() implies ({
                    let file = b[j].endpoint.file@;
                    if crate::paths::within(
                        crate::paths::parsed(file),
                        crate::paths::parsed(from@),
                    ) {
                        &&& a[j] == at_file(b[j], a[j].endpoint.file)
                        &&& a[j].endpoint.file@ == crate::paths::moved(file, from@, to@)
                    } else {
                        a[j] == b[j]
                    }
                }) by {
                    if j < i {
                        assert(a[j] == mid.take(i as int)[j]);
                        assert(b[j] == before.take(i as int)[j]);
                    }
                }
                assert forall|j: int| 0 <= j < self.list@.len() implies (
                #[trigger] self.list@[j]).wf() by {
                    assert(mid[j].wf());
                }
            }
            i = i + 1;
        }
        assert(before.take(total as int) =~= before);
        assert(self.list@.take(total as int) =~= self.list@);
    }

    /// Follows a file that moved: its buffers keep their edits.
    pub fn repoint_file(&mut self, from: &String, to: &String)
        requires
            old(self).wf(),
        ensures
            refiled(old(self).list@, final(self).list@, from@, *to),
            final(self).active == old(self).active,
            final(self).wf(),
    {
        let ghost before = self.list@;
        let total = self.list.len();
        let mut i: usize = 0;
        while i < total
            invariant
                i <= total,
                total == before.len(),
                before == old(self).list@,
                self.list@.len() == total,
                self.active == old(self).active,
                self.wf(),
                forall|j: int|
                    #![trigger self.list@[j]]
                    0 <= j < total ==> self.list@[j] == (if j < i && before[j].endpoint.file@
                        == from@ {
                        at_file(before[j], *to)
                    } else {
                        before[j]
                    }),
            decreases total - i,
        {
            let ghost mid = self.list@;
            if self.list[i].endpoint.file == *from {
                self.list[i].endpoint.file = to.clone();
            }
            proof {
                assert forall|j: int| 0 <= j < self.list@.len() implies (
                #[trigger] self.list@[j]).wf() by {
                    assert(mid[j].wf());
                }
            }
            i = i + 1;
        }
    }
}

/// Following a file or a directory keeps what was edited: no request, no editor
/// and no snapshot of any buffer changes.
pub proof fn law_repointing_keeps_edits(
    before: Seq<EndpointBuffer>,
    after: Seq<EndpointBuffer>,
    from: Seq<char>,
    to: Seq<char>,
    i: int,
)
    requires
        repointed_all(before, after, from, to),
        0 <= i < before.len(),
    ensures
        after[i].dirty() == before[i].dirty(),
        after[i].editor == before[i].editor,
        after[i].endpoint.endpoint == before[i].endpoint.endpoint,
        after[i].response == before[i].response,
{
}

/// Buffers stay well formed when the open one changes and is well formed.
pub proof fn lemma_updated_wf(a: Buffers, b: Buffers)
    requires
        a.wf(),
        a.loaded(),
        b.active == a.active,
        b.list@ == a.list@.update(a.active as int, b.list@[a.active as int]),
        b.list@[a.active as int].wf(),
    ensures
        b.wf(),
{
    assert forall|j: int| 0 <= j < b.list@.len() implies (#[trigger] b.list@[j]).wf() by {
        if j != a.active {
            assert(b.list@[j] == a.list@[j]);
        }
    }
}

/// What is saved of a buffer is its endpoint with the text of its editor as the body: a
/// text body keeps its kind, an emptied one is no body any more, a request without one gets
/// one where the editor holds a text, and nothing else differs.
pub proof fn law_saved_form_has_the_edited_body(b: EndpointBuffer)
    ensures
        ({
            let held = b.endpoint.endpoint@;
            let text = b.editor.spec_text();
            let body = b.live().request.body;
            &&& text.len() > 0 ==> (held.request.body matches Some(BodyView::Simple { kind, .. })
                ==> body == Some(BodyView::Simple { kind, content: text }))
            &&& held.request.body is None && text.len() > 0 ==> body == Some(
                BodyView::Simple { kind: BodyKind::Text, content: text },
            )
            &&& !(held.request.body matches Some(BodyView::Multipart(_))) && text.len() == 0
                ==> body is None
            &&& held.request.body matches Some(BodyView::Multipart(_)) ==> body
                == held.request.body
            &&& b.live().name == held.name
            &&& b.live().seq == held.seq
            &&& b.live().request.method == held.request.method
            &&& b.live().request.url == held.request.url
            &&& b.live().request.headers == held.request.headers
            &&& b.live().request.params == held.request.params
            &&& b.live().request.auth == held.request.auth
            &&& b.live().request.insecure == held.request.insecure
        }),
{
}

/// A buffer has unsaved changes where anything of its endpoint differs from what was loaded
/// or saved last, or where its editor holds another text than the body did.
pub proof fn law_any_edit_is_unsaved(b: EndpointBuffer)
    ensures
        ({
            let held = b.endpoint.endpoint@;
            let saved = b.loaded_snapshot@;
            let text = b.editor.spec_text();
            &&& held.name != saved.name ==> b.dirty()
            &&& held.request.method != saved.request.method ==> b.dirty()
            &&& held.request.url != saved.request.url ==> b.dirty()
            &&& held.request.headers != saved.request.headers ==> b.dirty()
            &&& held.request.params != saved.request.params ==> b.dirty()
            &&& held.request.auth != saved.request.auth ==> b.dirty()
            &&& held.request.insecure != saved.request.insecure ==> b.dirty()
            &&& text.len() > 0 ==> (held.request.body matches Some(BodyView::Simple { kind, .. })
                ==> saved.request.body != Some(BodyView::Simple { kind, content: text })
                ==> b.dirty())
            &&& held.request.body is None && saved.request.body is None && text.len() > 0
                ==> b.dirty()
            &&& text.len() > 0 ==> (held.request.body matches Some(BodyView::Simple { kind, .. })
                ==> saved == (EndpointView {
                request: RequestView {
                    body: Some(BodyView::Simple { kind, content: text }),
                    ..held.request
                },
                ..held
            }) ==> !b.dirty())
            &&& held.request.body is None && text.len() == 0 && saved == held ==> !b.dirty()
        }),
{
}

/// After a buffer was closed the same buffer is active as before; where it was the active
/// one that was closed, it is the one behind it, or the last one where there is none.
pub proof fn law_close_keeps_or_passes_on_the_focus(
    list: Seq<EndpointBuffer>,
    active: int,
    closed: int,
)
    requires
        0 <= active < list.len(),
        0 <= closed < list.len(),
    ensures
        ({
            let left = list.remove(closed);
            let now = Buffers::active_after_close(active, closed, (list.len() - 1) as nat);
            &&& closed != active ==> 0 <= now < left.len() && left[now] == list[active]
            &&& closed == active && closed + 1 < list.len() ==> 0 <= now < left.len() && left[now]
                == list[closed + 1]
            &&& closed == active && closed + 1 == list.len() && closed > 0 ==> now == left.len() - 1
            &&& list.len() == 1 ==> now == 0
        }),
{
}

/// Of two lists in a row those items are kept that are kept of the first, and then those of
/// the second; of one item it is kept or it is not.
pub proof fn law_kept_items_add_up<T>(s: Seq<T>, k: Seq<bool>, t: Seq<T>, l: Seq<bool>, x: T)
    requires
        s.len() == k.len(),
        t.len() == l.len(),
    ensures
        kept(s + t, k + l) == kept(s, k) + kept(t, l),
        kept(seq![x], seq![true]) == seq![x],
        kept(seq![x], seq![false]) == Seq::<T>::empty(),
    decreases t.len(),
{
    assert(seq![x].drop_last() =~= Seq::<T>::empty());
    assert(seq![true].drop_last() =~= Seq::<bool>::empty());
    assert(seq![false].drop_last() =~= Seq::<bool>::empty());
    assert(kept(Seq::<T>::empty(), Seq::<bool>::empty()) =~= Seq::<T>::empty());
    assert(kept(seq![x], seq![true]) =~= seq![x]);
    if t.len() == 0 {
        assert(s + t =~= s);
        assert(k + l =~= k);
        assert(kept(s, k) + kept(t, l) =~= kept(s, k));
    } else {
        law_kept_items_add_up(s, k, t.drop_last(), l.drop_last(), x);
        assert((s + t).drop_last() =~= s + t.drop_last());
        assert((k + l).drop_last() =~= k + l.drop_last());
        assert((s + t).last() == t.last());
        assert((k + l).last() == l.last());
        assert(kept(s + t, k + l) =~= kept(s, k) + kept(t, l));
    }
}

/// The buffers that stay open when all are closed are the ones with unsaved changes, in
/// their order, and the sends of the others are aborted.
pub proof fn law_close_all_closes_the_clean_ones(
    a: Buffers,
    b: Buffers,
    queue: Seq<String>,
    aborts: Seq<u64>,
    i: int,
)
    requires
        a.closed_all(b, queue, aborts),
        0 <= i < a.list@.len(),
    ensures
        a.list@[i].dirty() ==> b.list@.contains(a.list@[i]),
        !a.list@[i].dirty() ==> (flight_of(a.list@[i]) matches Some(g) ==> aborts.contains(g)),
        forall|j: int|
            0 <= j < b.list@.len() ==> (#[trigger] b.list@[j]).dirty() && a.list@.contains(
                b.list@[j],
            ),
        forall|g: u64| #[trigger]
            aborts.contains(g) ==> exists|j: int|
                0 <= j < a.list@.len() && !(#[trigger] a.list@[j]).dirty() && flight_of(a.list@[j])
                    == Some(g),
{
    let keep = dirty_flags(a.list@);
    let drop = keep.map_values(|d: bool| !d);
    lemma_kept_members(a.list@, keep);
    lemma_kept_members(a.list@, drop);
    let gone = kept(a.list@, drop);
    lemma_flights_members(gone);
    if !a.list@[i].dirty() {
        assert(drop[i]);
        assert(gone.contains(a.list@[i]));
    } else {
        assert(keep[i]);
    }
    assert forall|j: int| 0 <= j < b.list@.len() implies (#[trigger] b.list@[j]).dirty()
        && a.list@.contains(b.list@[j]) by {
        assert(b.list@.contains(b.list@[j]));
    }
    assert forall|g: u64| #[trigger] aborts.contains(g) implies exists|j: int|
        0 <= j < a.list@.len() && !(#[trigger] a.list@[j]).dirty() && flight_of(a.list@[j]) == Some(
            g,
        ) by {
        let m = choose|m: int| 0 <= m < gone.len() && flight_of(#[trigger] gone[m]) == Some(g);
        assert(gone.contains(gone[m]));
    }
}

/// The items that are kept are those whose flag is set.
pub proof fn lemma_kept_members<T>(s: Seq<T>, keep: Seq<bool>)
    requires
        s.len() == keep.len(),
    ensures
        forall|i: int| 0 <= i < s.len() && #[trigger] keep[i] ==> kept(s, keep).contains(s[i]),
        forall|x: T| #[trigger]
            kept(s, keep).contains(x) ==> exists|i: int| 0 <= i < s.len() && keep[i] && s[i] == x,
    decreases s.len(),
{
    if s.len() > 0 {
        let p = s.drop_last();
        let q = keep.drop_last();
        lemma_kept_members(p, q);
        let before = kept(p, q);
        let all = kept(s, keep);
        assert forall|i: int| 0 <= i < s.len() && #[trigger] keep[i] implies all.contains(s[i]) by {
            if i < p.len() {
                assert(q[i]);
                assert(before.contains(p[i]));
                let m = choose|m: int| 0 <= m < before.len() && before[m] == p[i];
                assert(all[m] == s[i]);
            } else {
                assert(all[before.len() as int] == s[i]);
            }
        }
        assert forall|x: T| #[trigger] all.contains(x) implies exists|i: int|
            0 <= i < s.len() && keep[i] && s[i] == x by {
            let m = choose|m: int| 0 <= m < all.len() && all[m] == x;
            if m < before.len() {
                assert(before[m] == x);
                assert(before.contains(x));
                let i = choose|i: int| 0 <= i < p.len() && q[i] && p[i] == x;
                assert(keep[i] && s[i] == x);
            } else {
                assert(keep[s.len() - 1] && s[s.len() - 1] == x);
            }
        }
    }
}

proof fn lemma_flights_members(list: Seq<EndpointBuffer>)
    ensures
        forall|i: int|
            0 <= i < list.len() ==> (flight_of(#[trigger] list[i]) matches Some(g) ==> flights(
                list,
            ).contains(g)),
        forall|g: u64| #[trigger]
            flights(list).contains(g) ==> exists|i: int|
                0 <= i < list.len() && flight_of(#[trigger] list[i]) == Some(g),
    decreases list.len(),
{
    if list.len() > 0 {
        let p = list.drop_last();
        lemma_flights_members(p);
        let before = flights(p);
        let all = flights(list);
        assert forall|i: int| 0 <= i < list.len() implies (flight_of(
            #[trigger] list[i],
        ) matches Some(g) ==> all.contains(g)) by {
            if let Some(g) = flight_of(list[i]) {
                if i < p.len() {
                    assert(p[i] == list[i]);
                    assert(before.contains(g));
                    let m = choose|m: int| 0 <= m < before.len() && before[m] == g;
                    assert(all[m] == g);
                } else {
                    assert(all[before.len() as int] == g);
                }
            }
        }
        assert forall|g: u64| #[trigger] all.contains(g) implies exists|i: int|
            0 <= i < list.len() && flight_of(#[trigger] list[i]) == Some(g) by {
            let m = choose|m: int| 0 <= m < all.len() && all[m] == g;
            if m < before.len() {
                assert(before[m] == g);
                assert(before.contains(g));
                let i = choose|i: int| 0 <= i < p.len() && flight_of(#[trigger] p[i]) == Some(g);
                assert(list[i] == p[i]);
            } else {
                assert(flight_of(list[list.len() - 1]) == Some(g));
            }
        }
    }
}

/// A buffer that stays open when others are closed stays the active one.
pub proof fn law_kept_active_buffer_stays_active<T>(s: Seq<T>, keep: Seq<bool>, active: int)
    requires
        s.len() == keep.len(),
        0 <= active < s.len(),
        keep[active],
    ensures
        0 <= active_left(keep, active) < kept(s, keep).len(),
        kept(s, keep)[active_left(keep, active)] == s[active],
{
    let (h, t) = (s.take(active), s.skip(active + 1));
    let (j, k) = (keep.take(active), keep.skip(active + 1));
    let one: Seq<T> = seq![s[active]];
    assert(s =~= (h + one) + t);
    assert(keep =~= (j + seq![true]) + k);
    law_kept_items_add_up(h + one, j + seq![true], t, k, s[active]);
    law_kept_items_add_up(h, j, one, seq![true], s[active]);
    lemma_kept_len(h, j);
    lemma_kept_len(s, keep);
}

/// An endpoint that is opened is the active buffer: the one that is open on its file where
/// there is one, and else a new one behind the others.
pub proof fn law_opened_endpoint_is_active(a: Buffers, s: SelectedEndpoint, b: Buffers)
    requires
        a.opened(s, b),
    ensures
        b.active < b.list@.len(),
        b.list@[b.active as int].endpoint.file@ == s.file@,
        (exists|i: int|
            0 <= i < a.list@.len() && (#[trigger] a.list@[i]).endpoint.file@ == s.file@)
            ==> b.list@.len() == a.list@.len(),
        (forall|i: int|
            0 <= i < a.list@.len() ==> (#[trigger] a.list@[i]).endpoint.file@ != s.file@)
            ==> b.list@.len() == a.list@.len() + 1 && b.active == a.list@.len()
            && b.list@[b.active as int].endpoint == s,
{
    lemma_buffer_at(a.list@, s.file@);
    let at = buffer_at(a.list@, s.file@);
    if at < a.list@.len() {
        assert(b.active == at);
        assert(a.list@[at].endpoint.file@ == s.file@);
    }
}

/// The cycle goes to the next buffer or the one before, and round at the ends.
pub proof fn law_cycle_goes_round(a: Buffers)
    requires
        a.wf(),
        a.list@.len() > 0,
    ensures
        a.active + 1 < a.list@.len() ==> a.cycle_target(true) == a.active + 1,
        a.active + 1 == a.list@.len() ==> a.cycle_target(true) == 0,
        a.active > 0 ==> a.cycle_target(false) == a.active - 1,
        a.active == 0 ==> a.cycle_target(false) == a.list@.len() - 1,
{
}

/// The question about unsaved changes is asked of the first file of the queue that is still
/// open with unsaved changes; those before it need none.
pub proof fn law_settled_files_are_skipped(a: Buffers, queue: Seq<String>)
    ensures
        0 <= a.settled(queue) <= queue.len(),
        a.settled(queue) < queue.len() ==> ({
            let path = queue[a.settled(queue)]@;
            exists|i: int|
                0 <= i < a.list@.len() && (#[trigger] a.list@[i]).endpoint.file@ == path
                    && a.list@[i].dirty()
        }),
        forall|n: int, i: int|
            #![trigger queue[n], a.list@[i]]
            a.distinct() && 0 <= n < a.settled(queue) && 0 <= i < a.list@.len()
                && a.list@[i].endpoint.file@ == queue[n]@ ==> !a.list@[i].dirty(),
    decreases queue.len(),
{
    if queue.len() > 0 {
        lemma_buffer_at(a.list@, queue[0]@);
        if !a.open_dirty(queue[0]@) {
            law_settled_files_are_skipped(a, queue.skip(1));
            assert forall|n: int, i: int|
                #![trigger queue[n], a.list@[i]]
                a.distinct() && 0 <= n < a.settled(queue) && 0 <= i < a.list@.len()
                    && a.list@[i].endpoint.file@ == queue[n]@ implies !a.list@[i].dirty() by {
                if n == 0 {
                    let at = buffer_at(a.list@, queue[0]@);
                    if at < i {
                        assert(a.list@[at].endpoint.file@ != a.list@[i].endpoint.file@);
                    }
                } else {
                    assert(queue.skip(1)[n - 1] == queue[n]);
                }
            }
        }
    }
}

/// The buffer that awaits a response is the first whose send has its number.
pub proof fn law_awaiting_buffer_has_the_number(list: Seq<EndpointBuffer>, generation: u64)
    ensures
        ({
            let at = Buffers::awaiting(list, generation);
            &&& 0 <= at <= list.len()
            &&& at < list.len() ==> (list[at].in_flight matches Some(f) && f.generation
                == generation)
            &&& forall|i: int|
                0 <= i < at ==> !((#[trigger] list[i]).in_flight matches Some(f) && f.generation
                    == generation)
        }),
    decreases list.len(),
{
    if list.len() > 0 && flight_of(list[0]) != Some(generation) {
        law_awaiting_buffer_has_the_number(list.skip(1), generation);
        let at = Buffers::awaiting(list, generation);
        assert forall|i: int| 0 <= i < at implies !((#[trigger] list[i]).in_flight matches Some(f)
            && f.generation == generation) by {
            if i > 0 {
                assert(list[i] == list.skip(1)[i - 1]);
            }
        }
    }
}

/// A buffer whose file is still there when the tree is read again stays open with its edits, and
/// in the collection that its file is in now; one whose file is gone is closed.
pub proof fn law_reload_keeps_the_buffers_of_files(
    a: Buffers,
    places: Seq<BufferPlace>,
    b: Buffers,
    i: int,
)
    requires
        a.remapped(places, b),
        places.len() == a.list@.len(),
        0 <= i < a.list@.len(),
    ensures
        places[i].exists ==> exists|j: int|
            0 <= j < b.list@.len() && (#[trigger] b.list@[j]).endpoint.file
                == a.list@[i].endpoint.file && b.list@[j].endpoint.endpoint
                == a.list@[i].endpoint.endpoint && b.list@[j].editor == a.list@[i].editor
                && b.list@[j].response == a.list@[i].response && b.list@[j].endpoint.collection == (
            match places[i].collection {
                Some(c) => c,
                None => a.list@[i].endpoint.collection,
            }),
        forall|j: int|
            0 <= j < b.list@.len() ==> exists|k: int|
                0 <= k < a.list@.len() && places[k].exists && (
                #[trigger] a.list@[k]).endpoint.file == (#[trigger] b.list@[j]).endpoint.file,
        i == a.active && places[i].exists ==> b.active < b.list@.len()
            && b.list@[b.active as int].endpoint.file == a.list@[i].endpoint.file,
{
    let keep = places.map_values(|p: BufferPlace| p.exists);
    let moved = Seq::new(a.list@.len(), |i: int| Buffers::placed(a.list@[i], places[i]));
    lemma_kept_members(moved, keep);
    if places[i].exists {
        assert(keep[i]);
        assert(b.list@.contains(moved[i]));
        let j = choose|j: int| 0 <= j < b.list@.len() && b.list@[j] == moved[i];
        assert(b.list@[j].endpoint.file == a.list@[i].endpoint.file);
        if i == a.active {
            law_kept_active_buffer_stays_active(moved, keep, i);
            assert(b.list.len() <= usize::MAX);
        }
    }
    assert forall|j: int| 0 <= j < b.list@.len() implies exists|k: int|
        0 <= k < a.list@.len() && places[k].exists && (#[trigger] a.list@[k]).endpoint.file == (
        #[trigger] b.list@[j]).endpoint.file by {
        assert(b.list@.contains(b.list@[j]));
        let k = choose|k: int| 0 <= k < moved.len() && keep[k] && moved[k] == b.list@[j];
        assert(a.list@[k].endpoint.file == b.list@[j].endpoint.file);
    }
}

/// A file that moved is the file of the buffer that was open on it, and of no other; a directory
/// that moved takes the buffers of its files along.
pub proof fn law_moved_file_takes_its_buffer(
    before: Seq<EndpointBuffer>,
    after: Seq<EndpointBuffer>,
    from: Seq<char>,
    to: String,
    i: int,
)
    requires
        refiled(before, after, from, to),
        0 <= i < before.len(),
    ensures
        after.len() == before.len(),
        before[i].endpoint.file@ == from ==> after[i].endpoint.file == to,
        before[i].endpoint.file@ != from ==> after[i] == before[i],
        after[i].endpoint.endpoint == before[i].endpoint.endpoint,
        after[i].editor == before[i].editor,
{
}

/// The lines that are highlighted are kept under their number; a store of sixty-four is emptied
/// first.
pub proof fn law_highlighted_lines_are_kept(
    cache: Map<u64, Vec<ratatui::text::Line<'static>>>,
    hash: u64,
    lines: Vec<ratatui::text::Line<'static>>,
    other: u64,
)
    requires
        other != hash,
    ensures
        EndpointBuffer::cached(cache, hash, lines).dom().contains(hash),
        EndpointBuffer::cached(cache, hash, lines)[hash] == lines,
        cache.dom().len() < 64 && cache.dom().contains(other) ==> EndpointBuffer::cached(
            cache,
            hash,
            lines,
        ).dom().contains(other) && EndpointBuffer::cached(cache, hash, lines)[other]
            == cache[other],
        cache.dom().len() >= 64 ==> !EndpointBuffer::cached(
            cache,
            hash,
            lines,
        ).dom().contains(other),
{
}

/// A buffer that is opened holds the body of its endpoint in its editor and has no unsaved
/// changes, where the body has no carriage return and is not an empty text.
pub proof fn law_opened_buffer_is_clean(a: Buffers, s: SelectedEndpoint, b: Buffers, i: int)
    requires
        a.opened(s, b),
        forall|i: int| 0 <= i < a.list@.len() ==> (#[trigger] a.list@[i]).endpoint.file@ != s.file@,
        s.endpoint@.request.body matches Some(BodyView::Simple { content, .. }) ==> content.len()
            > 0 && !content.contains('\r'),
        0 <= i < a.list@.len(),
    ensures
        ({
            let new = b.list@[b.active as int];
            &&& !new.dirty()
            &&& new.endpoint == s
            &&& s.endpoint@.request.body matches Some(BodyView::Simple { content, .. })
                ==> new.editor.spec_text() == content
            &&& new.response is Idle
            &&& new.in_flight is None
            &&& new.tabs@.active is Params
            &&& new.tabs@.editing is None
        }),
        b.list@[i].endpoint == a.list@[i].endpoint,
        b.list@[i].editor == a.list@[i].editor,
        b.list@[i].response == a.list@[i].response,
{
    lemma_buffer_at(a.list@, s.file@);
    let at = buffer_at(a.list@, s.file@);
    if at < a.list@.len() {
        assert(a.list@[at].endpoint.file@ == s.file@);
    }
    let text = body_text(s.endpoint@.request.body);
    assert forall|k: int| 0 <= k < text.len() implies text[k] != '\r' by {
        if text[k] == '\r' {
            assert(text.contains('\r'));
        }
    }
    crate::editor::law_plain_text_opens_unchanged(text);
}

} // verus!
