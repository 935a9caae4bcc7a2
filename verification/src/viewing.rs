//! The response viewer in the application, wherever a response is shown.

use vstd::prelude::*;

use crate::app::{App, DiskWork, Effect, Surface};
use crate::buffer::{lemma_updated_wf, Buffers, EndpointBuffer};
use crate::editor::{EditorMode, Page};
use crate::keymap::Action;
use crate::keys::{Key, KeyEvent};
use crate::line_editor::{LineEditor, LineView};
use crate::load::{LoadRow, LoadRunner, LoadSurface};
use crate::mode::{Mode, PromptPurpose};
use crate::notice::Notice;
use crate::response::{
    body_search_line, browse_key, do_viewer, match_count, search_line, spec_browse_key, viewed,
    BodySearch, BrowseKey, Geometry, Redraw, ResponseState, ResponseView, Viewed, ViewerAsk,
    ViewerOp, ViewerWork,
};
use crate::settings::text_of;
use crate::sequence::{SequenceRunner, SequenceSurface, StepRow};

verus! {

/// A buffer once some of its highlighted text is stale.
pub open spec fn redrawn(b: EndpointBuffer, after: EndpointBuffer, redraw: Redraw) -> bool {
    match redraw {
        Redraw::Nothing => after == b,
        Redraw::Rows => after == (EndpointBuffer { pending_highlight: None, ..b }),
        Redraw::Text => b.unhighlighted(after),
    }
}

/// The buffers once some of the open one's highlighted text is stale.
pub open spec fn buffers_redrawn(a: Buffers, b: Buffers, redraw: Redraw) -> bool {
    if a.loaded() {
        &&& b.active == a.active
        &&& b.list@ == a.list@.update(a.active as int, b.list@[a.active as int])
        &&& redrawn(a.current(), b.list@[a.active as int], redraw)
    } else {
        b == a
    }
}

/// Marks highlighted text of the open buffer as stale.
fn redraw_active(buffers: &mut Buffers, redraw: Redraw)
    requires
        old(buffers).wf(),
    ensures
        buffers_redrawn(*old(buffers), *final(buffers), redraw),
        final(buffers).wf(),
{
    let i = buffers.active;
    if i < buffers.list.len() {
        let ghost before = buffers.list@;
        match redraw {
            Redraw::Nothing => {},
            Redraw::Rows => {
                buffers.list[i].pending_highlight = None;
            },
            Redraw::Text => {
                buffers.list[i].clear_highlight();
            },
        }
        proof {
            assert(buffers.list@ =~= before.update(i as int, buffers.list@[i as int]));
            assert forall|j: int| 0 <= j < buffers.list@.len() implies (
            #[trigger] buffers.list@[j]).wf() by {
                assert(before[j].wf());
            }
        }
    }
}

/// Does an operation on the viewer of a buffer.
fn view_buffer(b: &mut EndpointBuffer, op: ViewerOp) -> (w: ViewerWork)
    requires
        old(b).wf(),
    ensures
        ({
            let v = viewed(old(b).response, old(b).geometry, op);
            &&& redrawn(
                EndpointBuffer { response: v.state, geometry: v.geometry, ..*old(b) },
                *final(b),
                v.redraw,
            )
            &&& w == (ViewerWork { redraw: v.redraw, notice: v.notice, ask: v.ask })
        }),
        final(b).wf(),
{
    let w = do_viewer(&mut b.response, &mut b.geometry, op);
    match w.redraw {
        Redraw::Nothing => {},
        Redraw::Rows => {
            b.pending_highlight = None;
        },
        Redraw::Text => {
            b.clear_highlight();
        },
    }
    w
}

/// Does an operation on the viewer of the open buffer.
fn view_open(buffers: &mut Buffers, op: ViewerOp) -> (w: ViewerWork)
    requires
        old(buffers).wf(),
        old(buffers).loaded(),
    ensures
        ({
            let b = old(buffers).current();
            let v = viewed(b.response, b.geometry, op);
            let after = final(buffers).list@[old(buffers).active as int];
            &&& redrawn(
                EndpointBuffer { response: v.state, geometry: v.geometry, ..b },
                after,
                v.redraw,
            )
            &&& final(buffers).list@ == old(buffers).list@.update(
                old(buffers).active as int,
                after,
            )
            &&& w == (ViewerWork { redraw: v.redraw, notice: v.notice, ask: v.ask })
        }),
        final(buffers).active == old(buffers).active,
        final(buffers).wf(),
{
    let i = buffers.active;
    let ghost before = buffers.list@;
    let w = view_buffer(&mut buffers.list[i], op);
    proof {
        assert(buffers.list@ =~= before.update(i as int, buffers.list@[i as int]));
        assert forall|j: int| 0 <= j < buffers.list@.len() implies (
        #[trigger] buffers.list@[j]).wf() by {
            assert(before[j].wf());
        }
    }
    w
}

/// Does an operation on the viewer of the body that the open buffer browses.
fn view_browsed(buffers: &mut Buffers, op: ViewerOp) -> (w: ViewerWork)
    requires
        old(buffers).wf(),
        old(buffers).loaded(),
    ensures
        ({
            let b = old(buffers).current();
            let v = viewed(b.browsed, b.browse_geometry, op);
            let after = final(buffers).list@[old(buffers).active as int];
            &&& redrawn(
                EndpointBuffer { browsed: v.state, browse_geometry: v.geometry, ..b },
                after,
                v.redraw,
            )
            &&& final(buffers).list@ == old(buffers).list@.update(
                old(buffers).active as int,
                after,
            )
            &&& w == (ViewerWork { redraw: v.redraw, notice: v.notice, ask: v.ask })
        }),
        final(buffers).active == old(buffers).active,
        final(buffers).wf(),
{
    let i = buffers.active;
    let ghost before = buffers.list@;
    let mut g = buffers.list[i].browse_geometry;
    let w = do_viewer(&mut buffers.list[i].browsed, &mut g, op);
    buffers.list[i].browse_geometry = g;
    match w.redraw {
        Redraw::Nothing => {},
        Redraw::Rows => {
            buffers.list[i].pending_highlight = None;
        },
        Redraw::Text => {
            buffers.list[i].clear_highlight();
        },
    }
    proof {
        assert(buffers.list@ =~= before.update(i as int, buffers.list@[i as int]));
        assert forall|j: int| 0 <= j < buffers.list@.len() implies (
        #[trigger] buffers.list@[j]).wf() by {
            assert(before[j].wf());
        }
    }
    w
}

/// Does an operation on the viewer of the copy that a load run shows.
fn view_load(run: &mut LoadRunner, op: ViewerOp) -> (w: ViewerWork)
    requires
        old(run).wf(),
        old(run).selected < old(run).results@.len(),
    ensures
        ({
            let k = old(run).selected as int;
            let v = viewed(old(run).results@[k].response, old(run).geometry, op);
            &&& final(run).results@ == old(run).results@.update(
                k,
                LoadRow { response: v.state, ..old(run).results@[k] },
            )
            &&& *final(run) == (LoadRunner {
                results: final(run).results,
                geometry: v.geometry,
                ..*old(run)
            })
            &&& w == (ViewerWork { redraw: v.redraw, notice: v.notice, ask: v.ask })
        }),
        final(run).wf(),
{
    let k = run.selected;
    let ghost before = run.results@;
    let mut g = run.geometry;
    let w = do_viewer(&mut run.results[k].response, &mut g, op);
    run.geometry = g;
    proof {
        assert(run.results@ =~= before.update(k as int, run.results@[k as int]));
        crate::load::lemma_same_counts(before, run.results@);
    }
    w
}

/// Does an operation on the viewer of the step that a run shows.
fn view_run(run: &mut SequenceRunner, op: ViewerOp) -> (w: ViewerWork)
    requires
        old(run).wf(),
        old(run).selected < old(run).steps@.len(),
    ensures
        ({
            let k = old(run).selected as int;
            let v = viewed(old(run).steps@[k].response, old(run).geometry, op);
            &&& final(run).steps@ == old(run).steps@.update(
                k,
                StepRow { response: v.state, ..old(run).steps@[k] },
            )
            &&& *final(run) == (SequenceRunner {
                steps: final(run).steps,
                geometry: v.geometry,
                ..*old(run)
            })
            &&& w == (ViewerWork { redraw: v.redraw, notice: v.notice, ask: v.ask })
        }),
        final(run).wf(),
{
    let k = run.selected;
    let ghost before = run.steps@;
    let mut g = run.geometry;
    let w = do_viewer(&mut run.steps[k].response, &mut g, op);
    run.geometry = g;
    assert(run.steps@ =~= before.update(k as int, run.steps@[k as int]));
    w
}

/// What is asked of the one who holds the text of a response.
pub open spec fn ask_effect(surface: Surface, ask: ViewerAsk) -> Seq<Effect> {
    if ask == ViewerAsk::Nothing {
        Seq::empty()
    } else {
        seq![Effect::Viewer(surface, ask)]
    }
}

fn ask_of(surface: Surface, ask: ViewerAsk) -> (fx: Vec<Effect>)
    ensures
        fx@ == ask_effect(surface, ask),
{
    let mut fx: Vec<Effect> = Vec::new();
    if ask != ViewerAsk::Nothing {
        fx.push(Effect::Viewer(surface, ask));
    }
    assert(fx@ =~= ask_effect(surface, ask));
    fx
}

impl App {
    /// The response on a surface, and its cursor and window; without an open
    /// endpoint the response pane has none of its own.
    pub open spec fn shown_on(&self, surface: Surface) -> Option<(ResponseState, Geometry)> {
        match surface {
            Surface::Main => if self.buffers.loaded() {
                Some((self.buffers.current().response, self.buffers.current().geometry))
            } else {
                Some((self.orphan_response, Geometry::spec_new()))
            },
            Surface::Step => match self.sequence.runner {
                Some(run) if run.selected < run.steps@.len() => Some(
                    (run.steps@[run.selected as int].response, run.geometry),
                ),
                _ => None,
            },
            Surface::Copy => match self.load.runner {
                Some(run) if run.selected < run.results@.len() => Some(
                    (run.results@[run.selected as int].response, run.geometry),
                ),
                _ => None,
            },
            Surface::Body => if self.buffers.loaded() {
                Some((self.buffers.current().browsed, self.buffers.current().browse_geometry))
            } else {
                None
            },
        }
    }

    /// The state once a viewer changed as it is stated.
    pub open spec fn view_changed(self, after: App, surface: Surface, v: Viewed) -> bool {
        match surface {
            Surface::Main => if self.buffers.loaded() {
                let b = after.buffers.list@[self.buffers.active as int];
                &&& redrawn(
                    EndpointBuffer {
                        response: v.state,
                        geometry: v.geometry,
                        ..self.buffers.current()
                    },
                    b,
                    v.redraw,
                )
                &&& self.told_if(v.notice).buffer_changed(after, b)
            } else {
                after == App { orphan_response: v.state, ..self }.told_if(v.notice)
            },
            Surface::Step => {
                let run = self.sequence.runner->0;
                let new = after.sequence.runner->0;
                &&& after.sequence.runner is Some
                &&& new.steps@ == run.steps@.update(
                    run.selected as int,
                    StepRow { response: v.state, ..run.steps@[run.selected as int] },
                )
                &&& new == (SequenceRunner { steps: new.steps, geometry: v.geometry, ..run })
                &&& buffers_redrawn(self.buffers, after.buffers, v.redraw)
                &&& after == App {
                    sequence: SequenceSurface { runner: after.sequence.runner, ..self.sequence },
                    buffers: after.buffers,
                    ..self
                }.told_if(v.notice)
            },
            Surface::Copy => {
                let run = self.load.runner->0;
                let new = after.load.runner->0;
                &&& after.load.runner is Some
                &&& new.results@ == run.results@.update(
                    run.selected as int,
                    LoadRow { response: v.state, ..run.results@[run.selected as int] },
                )
                &&& new == (LoadRunner { results: new.results, geometry: v.geometry, ..run })
                &&& buffers_redrawn(self.buffers, after.buffers, v.redraw)
                &&& after == App {
                    load: LoadSurface { runner: after.load.runner, ..self.load },
                    buffers: after.buffers,
                    ..self
                }.told_if(v.notice)
            },
            Surface::Body => {
                let b = after.buffers.list@[self.buffers.active as int];
                &&& redrawn(
                    EndpointBuffer {
                        browsed: v.state,
                        browse_geometry: v.geometry,
                        ..self.buffers.current()
                    },
                    b,
                    v.redraw,
                )
                &&& self.told_if(v.notice).buffer_changed(after, b)
            },
        }
    }

    /// What an operation on the viewer of a surface does; where no response is
    /// shown nothing changes.
    #[verifier::opaque]
    pub open spec fn views(
        self,
        after: App,
        surface: Surface,
        op: ViewerOp,
        fx: Seq<Effect>,
    ) -> bool {
        match self.shown_on(surface) {
            Some((state, g)) => {
                let v = viewed(state, g, op);
                &&& self.view_changed(after, surface, v)
                &&& fx == ask_effect(surface, v.ask)
            },
            None => after == self && fx.len() == 0,
        }
    }

    fn view_loaded(&mut self, op: ViewerOp) -> (fx: Vec<Effect>)
        requires
            old(self).wf(),
            old(self).buffers.loaded(),
        ensures
            old(self).views(*final(self), Surface::Main, op, fx@),
            final(self).wf(),
    {
        reveal(App::views);
        let w = view_open(&mut self.buffers, op);
        self.notify_if(w.notice);
        ask_of(Surface::Main, w.ask)
    }

    fn view_orphan(&mut self, op: ViewerOp) -> (fx: Vec<Effect>)
        requires
            old(self).wf(),
            !old(self).buffers.loaded(),
        ensures
            old(self).views(*final(self), Surface::Main, op, fx@),
            final(self).wf(),
    {
        reveal(App::views);
        let mut g = Geometry::new();
        let w = do_viewer(&mut self.orphan_response, &mut g, op);
        self.notify_if(w.notice);
        ask_of(Surface::Main, w.ask)
    }

    fn view_step(&mut self, op: ViewerOp) -> (fx: Vec<Effect>)
        requires
            old(self).wf(),
        ensures
            old(self).views(*final(self), Surface::Step, op, fx@),
            final(self).wf(),
    {
        reveal(App::views);
        let mut done: Option<ViewerWork> = None;
        if let Some(run) = self.sequence.runner.as_mut() {
            if run.selected < run.steps.len() {
                let w = view_run(run, op);
                done = Some(w);
            }
        }
        match done {
            Some(w) => {
                redraw_active(&mut self.buffers, w.redraw);
                self.notify_if(w.notice);
                ask_of(Surface::Step, w.ask)
            },
            None => Vec::new(),
        }
    }

    fn view_copy(&mut self, op: ViewerOp) -> (fx: Vec<Effect>)
        requires
            old(self).wf(),
        ensures
            old(self).views(*final(self), Surface::Copy, op, fx@),
            final(self).wf(),
    {
        reveal(App::views);
        let mut done: Option<ViewerWork> = None;
        if let Some(run) = self.load.runner.as_mut() {
            if run.selected < run.results.len() {
                let w = view_load(run, op);
                done = Some(w);
            }
        }
        match done {
            Some(w) => {
                redraw_active(&mut self.buffers, w.redraw);
                self.notify_if(w.notice);
                ask_of(Surface::Copy, w.ask)
            },
            None => Vec::new(),
        }
    }

    fn view_body(&mut self, op: ViewerOp) -> (fx: Vec<Effect>)
        requires
            old(self).wf(),
        ensures
            old(self).views(*final(self), Surface::Body, op, fx@),
            final(self).wf(),
    {
        reveal(App::views);
        if self.buffers.active >= self.buffers.list.len() {
            return Vec::new();
        }
        let w = view_browsed(&mut self.buffers, op);
        self.notify_if(w.notice);
        ask_of(Surface::Body, w.ask)
    }

    /// Does an operation on the viewer of a surface.
    pub fn view(&mut self, surface: Surface, op: ViewerOp) -> (fx: Vec<Effect>)
        requires
            old(self).wf(),
        ensures
            old(self).views(*final(self), surface, op, fx@),
            final(self).wf(),
    {
        match surface {
            Surface::Main => if self.buffers.active < self.buffers.list.len() {
                self.view_loaded(op)
            } else {
                self.view_orphan(op)
            },
            Surface::Step => self.view_step(op),
            Surface::Copy => self.view_copy(op),
            Surface::Body => self.view_body(op),
        }
    }

    /// Whether a response that arrived is shown on a surface.
    pub open spec fn arrived_on(&self, surface: Surface) -> bool {
        self.shown_on(surface) matches Some((state, g)) && state is Done
    }

    fn response_on(&self, surface: Surface) -> (r: Option<&ResponseState>)
        ensures
            match r {
                Some(s) => self.shown_on(surface) matches Some((state, g)) && *s == state,
                None => self.shown_on(surface) is None,
            },
    {
        match surface {
            Surface::Main => Some(self.response()),
            Surface::Step => match &self.sequence.runner {
                Some(run) => if run.selected < run.steps.len() {
                    Some(&run.steps[run.selected].response)
                } else {
                    None
                },
                None => None,
            },
            Surface::Copy => match &self.load.runner {
                Some(run) => if run.selected < run.results.len() {
                    Some(&run.results[run.selected].response)
                } else {
                    None
                },
                None => None,
            },
            Surface::Body => if self.buffers.active < self.buffers.list.len() {
                Some(&self.buffers.list[self.buffers.active].browsed)
            } else {
                None
            },
        }
    }

    /// What copying the text of a response asks for: the text of one that arrived,
    /// what is known of one that failed, and else that it be said that there is
    /// nothing to copy.
    pub open spec fn copies(self, surface: Surface) -> Seq<Effect> {
        match self.shown_on(surface) {
            Some((ResponseState::Done { view }, g)) => seq![
                Effect::CopyText { text: view.text, truncated: view.truncated },
            ],
            Some((ResponseState::Failed { error, meta }, g)) => seq![
                Effect::CopyFailure { error, meta },
            ],
            _ => seq![Effect::NothingToCopy(surface)],
        }
    }

    /// Copies the text of a response.
    pub fn response_copy_view(&self, surface: Surface) -> (fx: Vec<Effect>)
        ensures
            fx@ == self.copies(surface),
    {
        let mut fx: Vec<Effect> = Vec::new();
        match self.response_on(surface) {
            Some(ResponseState::Done { view }) => {
                fx.push(Effect::CopyText { text: view.text.clone(), truncated: view.truncated });
            },
            Some(ResponseState::Failed { error, meta }) => {
                fx.push(Effect::CopyFailure { error: error.clone(), meta: meta.copy() });
            },
            _ => {
                fx.push(Effect::NothingToCopy(surface));
            },
        }
        assert(fx@ =~= self.copies(surface));
        fx
    }

    /// What copying the line under the cursor asks for.
    pub open spec fn copies_line(self, surface: Surface, line: Option<usize>) -> Seq<Effect> {
        if !self.arrived_on(surface) {
            seq![Effect::NothingToCopy(surface)]
        } else {
            match line {
                Some(line) => seq![Effect::CopyLine(surface, line)],
                None => Seq::empty(),
            }
        }
    }

    /// Copies the line or the region under the cursor of a response.
    pub fn response_copy_line(&self, surface: Surface, line: Option<usize>) -> (fx: Vec<Effect>)
        ensures
            fx@ == self.copies_line(surface, line),
    {
        let mut fx: Vec<Effect> = Vec::new();
        let done = match self.response_on(surface) {
            Some(ResponseState::Done { .. }) => true,
            _ => false,
        };
        if !done {
            fx.push(Effect::NothingToCopy(surface));
        } else if let Some(line) = line {
            fx.push(Effect::CopyLine(surface, line));
        }
        assert(fx@ =~= self.copies_line(surface, line));
        fx
    }

    /// What opening the search in a response does.
    #[verifier::opaque]
    pub open spec fn opens_search(self, after: App, surface: Surface) -> bool {
        if !self.arrived_on(surface) {
            after == self.told(Notice::NoResponseToSearch)
        } else {
            exists|mid: App, query: String|
                {
                    &&& query@.len() == 0
                    &&& #[trigger] self.views(
                        mid,
                        surface,
                        ViewerOp::SetSearch { query, matches: 0 },
                        ask_effect(surface, ViewerAsk::Center),
                    )
                    &&& after.body_search_editor@ == LineView::seeded(Seq::empty())
                    &&& after == (App {
                        body_search_editor: after.body_search_editor,
                        body_search_return: self.mode,
                        body_searched: surface == Surface::Body,
                        mode: Mode::BodySearch,
                        ..mid
                    })
                }
        }
    }

    /// Opens the search in a response, with an empty query; the mode is kept to
    /// come back to.
    #[verifier::rlimit(60)]
    pub fn open_body_search(&mut self, surface: Surface)
        requires
            old(self).wf(),
        ensures
            old(self).opens_search(*final(self), surface),
            final(self).wf(),
    {
        reveal(App::opens_search);
        let done = match self.response_on(surface) {
            Some(ResponseState::Done { .. }) => true,
            _ => false,
        };
        if !done {
            self.message = Some(Notice::NoResponseToSearch);
            return;
        }
        proof {
            reveal_strlit("");
            assert(""@ =~= Seq::empty());
            reveal(App::views);
            reveal(crate::response::viewed_done);
            reveal(crate::response::viewed);
        }
        let query = String::new();
        let fx = self.view(surface, ViewerOp::SetSearch { query, matches: 0 });
        let ghost mid = *self;
        self.body_search_editor = LineEditor::new("");
        self.body_search_return = self.mode;
        self.body_searched = surface == Surface::Body;
        self.mode = Mode::BodySearch;
    }

    /// The surface that is searched: the body of the request, or else the one of the mode
    /// to come back to.
    pub open spec fn searched_surface(&self) -> Surface {
        if self.body_searched {
            Surface::Body
        } else {
            match self.body_search_return {
                Mode::Sequence => Surface::Step,
                Mode::LoadRunner => Surface::Copy,
                _ => Surface::Main,
            }
        }
    }

    fn search_surface(&self) -> (r: Surface)
        ensures
            r == self.searched_surface(),
    {
        if self.body_searched {
            return Surface::Body;
        }
        match self.body_search_return {
            Mode::Sequence => Surface::Step,
            Mode::LoadRunner => Surface::Copy,
            _ => Surface::Main,
        }
    }

    /// What the message row says: the input of the search while a response is searched,
    /// with how many matches it has there, and else the message.
    pub fn message_line(&self) -> (r: Option<String>)
        ensures
            if self.mode == Mode::BodySearch {
                r matches Some(t) && t@ == search_line(
                    self.body_search_editor@.text,
                    match self.shown_on(self.searched_surface()) {
                        Some((state, _)) => match_count(state),
                        None => 0,
                    },
                )
            } else {
                match self.message {
                    Some(n) => r matches Some(t) && t@ == n.spec_text(),
                    None => r is None,
                }
            },
    {
        if self.mode == Mode::BodySearch {
            let query = self.body_search_editor.text();
            let line = match self.response_on(self.search_surface()) {
                Some(state) => body_search_line(state, query.as_str()),
                None => body_search_line(&ResponseState::Idle, query.as_str()),
            };
            Some(line)
        } else {
            self.message_text()
        }
    }

    /// The state back from the search in a response.
    pub open spec fn search_left(self) -> App {
        App {
            mode: self.body_search_return,
            body_search_return: Mode::Normal,
            body_searched: false,
            ..self
        }
    }

    /// What a key does while a response is searched: Esc drops the search, Enter
    /// keeps it and goes to the match, and every other key types and searches.
    #[verifier::opaque]
    pub open spec fn searches(self, after: App, key: KeyEvent, fx: Seq<Effect>) -> bool {
        let surface = self.searched_surface();
        match key.code {
            Key::Esc => fx.len() == 0 && self.search_left().views(
                after,
                surface,
                ViewerOp::ClearSearch,
                Seq::empty(),
            ),
            Key::Enter => after == self.search_left() && fx == seq![
                Effect::Viewer(surface, ViewerAsk::Center),
            ],
            _ => {
                &&& after == (App { body_search_editor: after.body_search_editor, ..self })
                &&& after.body_search_editor@ == self.body_search_editor@.keyed(key)
                &&& fx.len() == 1
                &&& fx[0] matches Effect::SearchResponse { surface: s, query } && s == surface
                    && query@ == after.body_search_editor@.text
            },
        }
    }

    /// Handles a key while a response is searched.
    pub fn handle_body_search_key(&mut self, key: KeyEvent) -> (fx: Vec<Effect>)
        requires
            old(self).wf(),
        ensures
            old(self).searches(*final(self), key, fx@),
            final(self).wf(),
    {
        reveal(App::searches);
        let surface = self.search_surface();
        match key.code {
            Key::Esc => {
                self.mode = self.body_search_return;
                self.body_search_return = Mode::Normal;
                self.body_searched = false;
                let fx = self.view(surface, ViewerOp::ClearSearch);
                proof {
                    reveal(App::views);
                    reveal(crate::response::viewed_done);
                    reveal(crate::response::viewed);
                    assert(fx@ =~= Seq::empty());
                }
                fx
            },
            Key::Enter => {
                self.mode = self.body_search_return;
                self.body_search_return = Mode::Normal;
                self.body_searched = false;
                let fx = vec![Effect::Viewer(surface, ViewerAsk::Center)];
                assert(fx@ =~= seq![Effect::Viewer(surface, ViewerAsk::Center)]);
                fx
            },
            _ => {
                self.body_search_editor.handle_key(key);
                vec![Effect::SearchResponse { surface, query: self.body_search_editor.text() }]
            },
        }
    }

    /// What asking for a name to save a body under does.
    #[verifier::opaque]
    pub open spec fn saves_body_as(
        self,
        after: App,
        surface: Surface,
        slug: Option<Seq<char>>,
        fx: Seq<Effect>,
    ) -> bool {
        match self.shown_on(surface) {
            Some((ResponseState::Done { view }, g)) => {
                &&& fx.len() == 0
                &&& if view.raw@.len() == 0 {
                    after == self.told(Notice::EmptyBody)
                } else {
                    self.prompted(
                        after,
                        PromptPurpose::SaveResponseBody,
                        (match slug {
                            Some(slug) => slug,
                            None => "response"@,
                        }) + "."@ + view.extension@,
                    )
                }
            },
            _ => after == self && fx == seq![Effect::NothingToSave(surface)],
        }
    }

    /// Asks for a name to save the body of a response under; `slug` is what the
    /// endpoint's name comes to in a file name, where one is open.
    pub fn begin_save_response_body(&mut self, surface: Surface, slug: Option<String>) -> (fx: Vec<
        Effect,
    >)
        requires
            old(self).wf(),
        ensures
            old(self).saves_body_as(*final(self), surface, text_of(slug), fx@),
            final(self).wf(),
    {
        reveal(App::saves_body_as);
        let seed = match self.response_on(surface) {
            Some(ResponseState::Done { view }) => {
                if view.raw.len() == 0 {
                    self.message = Some(Notice::EmptyBody);
                    return Vec::new();
                }
                let stem = match slug {
                    Some(slug) => crate::text::join2(slug.as_str(), "."),
                    None => crate::text::join2("response", "."),
                };
                crate::text::join2(stem.as_str(), view.extension.as_str())
            },
            _ => {
                let fx = vec![Effect::NothingToSave(surface)];
                assert(fx@ =~= seq![Effect::NothingToSave(surface)]);
                return fx;
            },
        };
        self.open_prompt(PromptPurpose::SaveResponseBody, seed.as_str());
        Vec::new()
    }

    /// What saving the body of a response under a name does.
    #[verifier::opaque]
    pub open spec fn saves_body(
        self,
        after: App,
        surface: Surface,
        input: String,
        fx: Seq<Effect>,
    ) -> bool {
        match self.shown_on(surface) {
            Some((ResponseState::Done { view }, g)) => if view.raw@.len() == 0 {
                after == self.told(Notice::EmptyBody) && fx.len() == 0
            } else {
                &&& after == self
                &&& fx.len() == 1
                &&& fx[0] matches Effect::Disk(DiskWork::SaveBody { input: i, bytes, truncated })
                    && i == input && bytes@ == view.raw@ && truncated == view.body_truncated
            },
            _ => after == self && fx == seq![Effect::NothingToSave(surface)],
        }
    }

    /// Saves the body of a response, byte for byte.
    pub fn commit_save_response_body(&mut self, surface: Surface, input: String) -> (fx: Vec<
        Effect,
    >)
        requires
            old(self).wf(),
        ensures
            old(self).saves_body(*final(self), surface, input, fx@),
            final(self).wf(),
    {
        reveal(App::saves_body);
        match self.response_on(surface) {
            Some(ResponseState::Done { view }) => {
                if view.raw.len() == 0 {
                    self.message = Some(Notice::EmptyBody);
                    return Vec::new();
                }
                vec![
                    Effect::Disk(
                        DiskWork::SaveBody {
                            input,
                            bytes: view.raw.clone(),
                            truncated: view.body_truncated,
                        },
                    ),
                ]
            },
            _ => {
                let fx = vec![Effect::NothingToSave(surface)];
                assert(fx@ =~= seq![Effect::NothingToSave(surface)]);
                fx
            },
        }
    }

    /// Says what came of saving a body: how much was written, or why nothing was.
    pub fn body_saved(&mut self, saved: Result<(u64, String), String>, truncated: bool)
        ensures
            *final(self) == old(self).told(
                match saved {
                    Ok((bytes, path)) => Notice::BodySaved { bytes, path, truncated },
                    Err(err) => Notice::SaveFailed { err },
                },
            ),
    {
        self.message = Some(
            match saved {
                Ok((bytes, path)) => Notice::BodySaved { bytes, path, truncated },
                Err(err) => Notice::SaveFailed { err },
            },
        );
    }

    /// The operation on a viewer that an action is, if it is one.
    pub open spec fn action_op(action: Action, line: Option<usize>) -> Option<ViewerOp> {
        match action {
            Action::Up | Action::Down | Action::Top | Action::Bottom => Some(
                ViewerOp::Scroll(action),
            ),
            Action::HalfPageDown => Some(ViewerOp::HalfPage { down: true }),
            Action::HalfPageUp => Some(ViewerOp::HalfPage { down: false }),
            Action::ToggleHeadersView => Some(ViewerOp::ToggleHeaders),
            Action::ToggleWrap => Some(ViewerOp::ToggleWrap),
            Action::TogglePretty => Some(ViewerOp::TogglePretty),
            Action::ToggleSortKeys => Some(ViewerOp::ToggleSortKeys),
            Action::ToggleLineNumbers => Some(ViewerOp::ToggleLineNumbers),
            Action::SearchNext => Some(ViewerOp::SearchStep { forward: true }),
            Action::SearchPrev => Some(ViewerOp::SearchStep { forward: false }),
            Action::ToggleFold => Some(ViewerOp::Fold { line }),
            Action::ToggleAllFolds => Some(ViewerOp::FoldAll),
            Action::ScrollBodyLeft => Some(ViewerOp::Pan { right: false }),
            Action::ScrollBodyRight => Some(ViewerOp::Pan { right: true }),
            Action::StructuralNext => Some(ViewerOp::Leap { line, forward: true }),
            Action::StructuralPrev => Some(ViewerOp::Leap { line, forward: false }),
            _ => None,
        }
    }

    fn op_of(action: Action, line: Option<usize>) -> (r: Option<ViewerOp>)
        ensures
            r == App::action_op(action, line),
    {
        match action {
            Action::Up | Action::Down | Action::Top | Action::Bottom => Some(
                ViewerOp::Scroll(action),
            ),
            Action::HalfPageDown => Some(ViewerOp::HalfPage { down: true }),
            Action::HalfPageUp => Some(ViewerOp::HalfPage { down: false }),
            Action::ToggleHeadersView => Some(ViewerOp::ToggleHeaders),
            Action::ToggleWrap => Some(ViewerOp::ToggleWrap),
            Action::TogglePretty => Some(ViewerOp::TogglePretty),
            Action::ToggleSortKeys => Some(ViewerOp::ToggleSortKeys),
            Action::ToggleLineNumbers => Some(ViewerOp::ToggleLineNumbers),
            Action::SearchNext => Some(ViewerOp::SearchStep { forward: true }),
            Action::SearchPrev => Some(ViewerOp::SearchStep { forward: false }),
            Action::ToggleFold => Some(ViewerOp::Fold { line }),
            Action::ToggleAllFolds => Some(ViewerOp::FoldAll),
            Action::ScrollBodyLeft => Some(ViewerOp::Pan { right: false }),
            Action::ScrollBodyRight => Some(ViewerOp::Pan { right: true }),
            Action::StructuralNext => Some(ViewerOp::Leap { line, forward: true }),
            Action::StructuralPrev => Some(ViewerOp::Leap { line, forward: false }),
            _ => None,
        }
    }

    /// The name of the open endpoint.
    pub open spec fn open_name(&self) -> Option<String> {
        if self.buffers.loaded() {
            Some(self.buffers.current().endpoint.endpoint.name)
        } else {
            None
        }
    }

    /// What an action of the viewer does on a surface; `line` is the line under
    /// the cursor. Any other action does nothing.
    #[verifier::opaque]
    pub open spec fn acts_on_view(
        self,
        after: App,
        surface: Surface,
        action: Action,
        line: Option<usize>,
        fx: Seq<Effect>,
    ) -> bool {
        match App::action_op(action, line) {
            Some(op) => self.views(after, surface, op, fx),
            None => match action {
                Action::OpenBodySearch => self.opens_search(after, surface) && fx.len() == 0,
                Action::CopyResponse => after == self && fx == self.copies(surface),
                Action::CopyLine => after == self && fx == self.copies_line(surface, line),
                Action::SaveResponseBody => after == self && fx == seq![
                    Effect::NameBody { shown: surface, of: self.open_name() },
                ],
                _ => after == self && fx.len() == 0,
            },
        }
    }

    /// Does an action of the viewer on a surface.
    pub fn view_action(&mut self, surface: Surface, action: Action, line: Option<usize>) -> (fx: Vec<
        Effect,
    >)
        requires
            old(self).wf(),
        ensures
            old(self).acts_on_view(*final(self), surface, action, line, fx@),
            final(self).wf(),
    {
        reveal(App::acts_on_view);
        match App::op_of(action, line) {
            Some(op) => self.view(surface, op),
            None => match action {
                Action::OpenBodySearch => {
                    self.open_body_search(surface);
                    Vec::new()
                },
                Action::CopyResponse => self.response_copy_view(surface),
                Action::CopyLine => self.response_copy_line(surface, line),
                Action::SaveResponseBody => {
                    let of = match self.selected() {
                        Some(s) => Some(s.endpoint.name.clone()),
                        None => None,
                    };
                    let fx = vec![Effect::NameBody { shown: surface, of }];
                    assert(fx@ =~= seq![Effect::NameBody { shown: surface, of }]);
                    fx
                },
                _ => Vec::new(),
            },
        }
    }

    /// The state once the body that is browsed was built anew, where that was needed.
    pub open spec fn body_shown(self, after: App, built: Option<ResponseView>) -> bool {
        match built {
            Some(view) if self.buffers.loaded() => self.buffer_changed(
                after,
                EndpointBuffer {
                    browsed: ResponseState::Done { view },
                    ..self.buffers.current()
                },
            ),
            _ => after == self,
        }
    }

    fn show_body(&mut self, built: Option<ResponseView>)
        requires
            old(self).wf(),
        ensures
            old(self).body_shown(*final(self), built),
            final(self).wf(),
    {
        let i = self.buffers.active;
        if let Some(view) = built {
            if i < self.buffers.list.len() {
                self.buffers.list[i].browsed = ResponseState::Done { view };
                proof {
                    assert(self.buffers.list@ =~= old(self).buffers.list@.update(
                        i as int,
                        self.buffers.list@[i as int],
                    ));
                    lemma_updated_wf(old(self).buffers, self.buffers);
                }
            }
        }
    }

    /// The state once the body's editor was put into a mode; without an open endpoint
    /// nothing happens.
    pub open spec fn body_edited_in(self, after: App, mode: EditorMode) -> bool {
        if self.buffers.loaded() {
            let b = self.buffers.current();
            let new = after.buffers.list@[self.buffers.active as int];
            &&& self.buffer_changed(after, new)
            &&& new.editor.page() == (Page { mode, ..b.editor.page() })
            &&& new.editor.idle() == b.editor.idle()
            &&& new == (EndpointBuffer { editor: new.editor, ..b })
        } else {
            after == self
        }
    }

    /// Puts the body's editor into a mode.
    pub fn enter_body_edit(&mut self, mode: EditorMode)
        requires
            old(self).wf(),
        ensures
            old(self).body_edited_in(*final(self), mode),
            final(self).wf(),
    {
        let i = self.buffers.active;
        if i < self.buffers.list.len() {
            self.buffers.list[i].editor.set_mode(mode);
            proof {
                assert(self.buffers.list@ =~= old(self).buffers.list@.update(
                    i as int,
                    self.buffers.list@[i as int],
                ));
                lemma_updated_wf(old(self).buffers, self.buffers);
            }
        }
    }

    /// What a key does while the body of the request is browsed: a key that edits puts the
    /// editor into its mode, one of the viewer acts on the body, and any other is not taken.
    #[verifier::opaque]
    pub open spec fn browses(
        self,
        after: App,
        key: KeyEvent,
        line: Option<usize>,
        taken: bool,
        fx: Seq<Effect>,
    ) -> bool {
        match spec_browse_key(key) {
            Some(BrowseKey::EditInsert) => taken && fx.len() == 0 && self.body_edited_in(
                after,
                EditorMode::Insert,
            ),
            Some(BrowseKey::EditNormal) => taken && fx.len() == 0 && self.body_edited_in(
                after,
                EditorMode::Normal,
            ),
            Some(BrowseKey::View(action)) => taken && self.acts_on_view(
                after,
                Surface::Body,
                action,
                line,
                fx,
            ),
            None => !taken && fx.len() == 0 && after == self,
        }
    }

    /// Handles a key while the body of the request is browsed. `built` is how the body is
    /// shown, where it had to be built anew, and `line` the line under the cursor. Returns
    /// whether the key was taken; one that was not goes on to the keymap.
    pub fn body_browse_handle_key(
        &mut self,
        key: KeyEvent,
        line: Option<usize>,
        built: Option<ResponseView>,
    ) -> (r: (bool, Vec<Effect>))
        requires
            old(self).wf(),
        ensures
            exists|mid: App| #[trigger]
                old(self).body_shown(mid, built) && mid.browses(
                    *final(self),
                    key,
                    line,
                    r.0,
                    r.1@,
                ),
            final(self).wf(),
    {
        reveal(App::browses);
        self.show_body(built);
        let ghost mid = *self;
        assert(old(self).body_shown(mid, built));
        match browse_key(key) {
            Some(BrowseKey::EditInsert) => {
                self.enter_body_edit(EditorMode::Insert);
                (true, Vec::new())
            },
            Some(BrowseKey::EditNormal) => {
                self.enter_body_edit(EditorMode::Normal);
                (true, Vec::new())
            },
            Some(BrowseKey::View(action)) => {
                let fx = self.view_action(Surface::Body, action, line);
                (true, fx)
            },
            None => (false, Vec::new()),
        }
    }
}

/// Browsing a body changes no endpoint: what would be sent and what would be saved stay.
pub proof fn law_browsing_keeps_the_request(
    a: App,
    b: App,
    key: KeyEvent,
    line: Option<usize>,
    taken: bool,
    fx: Seq<Effect>,
)
    requires
        a.buffers.loaded(),
        a.browses(b, key, line, taken, fx),
    ensures
        b.buffers.loaded(),
        b.buffers.current().live() == a.buffers.current().live(),
        b.buffers.current().loaded_snapshot == a.buffers.current().loaded_snapshot,
{
    reveal(App::browses);
    reveal(App::acts_on_view);
    reveal(App::views);
    reveal(App::opens_search);
}

/// Searching a response and leaving the search comes back to the mode that it was
/// opened from.
pub proof fn law_search_returns_to_its_mode(
    a: App,
    surface: Surface,
    b: App,
    key: KeyEvent,
    c: App,
    fx: Seq<Effect>,
)
    requires
        a.arrived_on(surface),
        a.opens_search(b, surface),
        key.code == Key::Esc || key.code == Key::Enter,
        b.searches(c, key, fx),
    ensures
        c.mode == a.mode,
        b.mode == Mode::BodySearch,
{
    reveal(App::opens_search);
    reveal(App::searches);
    reveal(App::views);
}

/// Each surface shows its own response: the main one that of the open endpoint, the one of a
/// sequence that of the selected step, and the one of a load run that of the selected copy.
pub proof fn law_each_surface_shows_its_own(a: App)
    ensures
        a.buffers.loaded() ==> a.shown_on(Surface::Main) == Some(
            (
                a.buffers.list@[a.buffers.active as int].response,
                a.buffers.list@[a.buffers.active as int].geometry,
            ),
        ),
        a.sequence.runner matches Some(run) ==> run.selected < run.steps@.len() ==> a.shown_on(
            Surface::Step,
        ) == Some((run.steps@[run.selected as int].response, run.geometry)),
        a.load.runner matches Some(run) ==> run.selected < run.results@.len() ==> a.shown_on(
            Surface::Copy,
        ) == Some((run.results@[run.selected as int].response, run.geometry)),
        a.buffers.loaded() ==> a.shown_on(Surface::Body) == Some(
            (
                a.buffers.list@[a.buffers.active as int].browsed,
                a.buffers.list@[a.buffers.active as int].browse_geometry,
            ),
        ),
{
}

/// What is copied of a response is the text that is shown, of a failure the error, and where
/// there is neither that is said.
pub proof fn law_copied_response_is_the_shown_text(a: App)
    requires
        a.buffers.loaded(),
    ensures
        ({
            let shown = a.buffers.list@[a.buffers.active as int].response;
            let fx = a.copies(Surface::Main);
            &&& fx.len() == 1
            &&& shown matches ResponseState::Done { view } ==> (fx[0] matches Effect::CopyText {
                text,
                truncated,
            } && text == view.text && truncated == view.truncated)
            &&& shown matches ResponseState::Failed { error, meta } ==> fx[0]
                == (Effect::CopyFailure { error, meta })
            &&& shown is Idle || shown is Cancelled || shown is InFlight ==> fx[0]
                == Effect::NothingToCopy(Surface::Main)
        }),
{
}

/// What is saved of a response is its body as it came, under the path that was typed; an empty
/// body is not saved.
pub proof fn law_saved_body_is_the_raw_one(a: App, b: App, input: String, fx: Seq<Effect>)
    requires
        a.saves_body(b, Surface::Main, input, fx),
        a.buffers.loaded(),
        a.buffers.list@[a.buffers.active as int].response is Done,
    ensures
        ({
            let view = a.buffers.list@[a.buffers.active as int].response->view;
            &&& view.raw@.len() > 0 ==> fx.len() == 1 && b == a && (fx[0] matches Effect::Disk(
                DiskWork::SaveBody { input: i, bytes, truncated },
            ) && i == input && bytes@ == view.raw@ && truncated == view.body_truncated)
            &&& view.raw@.len() == 0 ==> fx.len() == 0 && b.message == Some(Notice::EmptyBody)
        }),
{
    reveal(App::saves_body);
}

/// A name for a saved body is offered: the slug of the endpoint, or `response`, and the extension
/// that goes with the body.
pub proof fn law_body_name_is_offered(
    a: App,
    b: App,
    slug: Option<Seq<char>>,
    fx: Seq<Effect>,
)
    requires
        a.saves_body_as(b, Surface::Main, slug, fx),
        a.buffers.loaded(),
        a.buffers.list@[a.buffers.active as int].response is Done,
        a.buffers.list@[a.buffers.active as int].response->view.raw@.len() > 0,
    ensures
        b.mode == Mode::Prompt(PromptPurpose::SaveResponseBody),
        fx.len() == 0,
        ({
            let ext = a.buffers.list@[a.buffers.active as int].response->view.extension@;
            &&& slug matches Some(s) ==> b.prompt_editor@.text == s + "."@ + ext
            &&& slug is None ==> b.prompt_editor@.text == "response"@ + "."@ + ext
        }),
{
    reveal(App::saves_body_as);
}

/// A key of the viewer does what its action is named after, on the response that is shown.
pub proof fn law_view_actions_are_as_named(line: Option<usize>)
    ensures
        App::action_op(Action::HalfPageDown, line) == Some(ViewerOp::HalfPage { down: true }),
        App::action_op(Action::HalfPageUp, line) == Some(ViewerOp::HalfPage { down: false }),
        App::action_op(Action::Up, line) == Some(ViewerOp::Scroll(Action::Up)),
        App::action_op(Action::Down, line) == Some(ViewerOp::Scroll(Action::Down)),
        App::action_op(Action::Top, line) == Some(ViewerOp::Scroll(Action::Top)),
        App::action_op(Action::Bottom, line) == Some(ViewerOp::Scroll(Action::Bottom)),
        App::action_op(Action::ToggleHeadersView, line) == Some(ViewerOp::ToggleHeaders),
        App::action_op(Action::ToggleWrap, line) == Some(ViewerOp::ToggleWrap),
        App::action_op(Action::TogglePretty, line) == Some(ViewerOp::TogglePretty),
        App::action_op(Action::ToggleSortKeys, line) == Some(ViewerOp::ToggleSortKeys),
        App::action_op(Action::ToggleLineNumbers, line) == Some(ViewerOp::ToggleLineNumbers),
        App::action_op(Action::SearchNext, line) == Some(ViewerOp::SearchStep { forward: true }),
        App::action_op(Action::SearchPrev, line) == Some(ViewerOp::SearchStep { forward: false }),
        App::action_op(Action::ToggleFold, line) == Some(ViewerOp::Fold { line }),
        App::action_op(Action::ToggleAllFolds, line) == Some(ViewerOp::FoldAll),
        App::action_op(Action::ScrollBodyLeft, line) == Some(ViewerOp::Pan { right: false }),
        App::action_op(Action::ScrollBodyRight, line) == Some(ViewerOp::Pan { right: true }),
        App::action_op(Action::StructuralNext, line) == Some(
            ViewerOp::Leap { line, forward: true },
        ),
        App::action_op(Action::StructuralPrev, line) == Some(
            ViewerOp::Leap { line, forward: false },
        ),
{
}

/// A search is typed into its line, and each key of it searches the response for the text of the
/// line; Enter keeps the search and Esc drops it, and both go back to where it was begun.
pub proof fn law_search_is_for_the_typed_text(a: App, b: App, key: KeyEvent, fx: Seq<Effect>)
    requires
        a.searches(b, key, fx),
        !a.body_searched,
        a.body_search_return == Mode::Normal,
        a.buffers.loaded(),
    ensures
        key.code is Enter ==> b.mode == Mode::Normal && b.buffers == a.buffers,
        key.code is Esc ==> b.mode == Mode::Normal && (
        a.buffers.list@[a.buffers.active as int].response is Done
            ==> b.buffers.list@[a.buffers.active as int].response->view.search is None),
        !(key.code is Enter || key.code is Esc) ==> b.mode == a.mode && fx.len() == 1 && (
        fx[0] matches Effect::SearchResponse { surface, query } && surface == Surface::Main
            && query@ == a.body_search_editor@.keyed(key).text),
{
    reveal(App::searches);
    reveal(App::views);
    reveal(viewed);
    reveal(crate::response::viewed_done);
}

/// An operation of the viewer on one surface leaves what the others show: the steps but the
/// selected one, the copies but the selected one, and the endpoints.
pub proof fn law_view_stays_on_its_surface(
    a: App,
    b: App,
    op: ViewerOp,
    fx: Seq<Effect>,
    i: int,
)
    ensures
        a.views(b, Surface::Step, op, fx) ==> (a.sequence.runner matches Some(run) ==> run.selected
            < run.steps@.len() ==> b.load == a.load && (b.sequence.runner matches Some(new)
            && new.steps@.len() == run.steps@.len() && (0 <= i < run.steps@.len() && i
            != run.selected ==> new.steps@[i] == run.steps@[i]) && new.steps@[run.selected as int].status
            == run.steps@[run.selected as int].status && new.extracted == run.extracted)),
        a.views(b, Surface::Copy, op, fx) ==> (a.load.runner matches Some(run) ==> run.selected
            < run.results@.len() ==> b.sequence == a.sequence && (b.load.runner matches Some(new)
            && new.results@.len() == run.results@.len() && (0 <= i < run.results@.len() && i
            != run.selected ==> new.results@[i] == run.results@[i]) && new.stats == run.stats)),
        a.views(b, Surface::Main, op, fx) && a.buffers.loaded() ==> b.load == a.load && b.sequence
            == a.sequence && b.buffers.list@.len() == a.buffers.list@.len() && (0 <= i
            < a.buffers.list@.len() ==> b.buffers.list@[i].endpoint == a.buffers.list@[i].endpoint
            && (i != a.buffers.active ==> b.buffers.list@[i] == a.buffers.list@[i])),
{
    reveal(App::views);
}

/// A body that is browsed is shown as it was built, and the response stays.
pub proof fn law_browsed_body_is_shown(a: App, b: App, view: ResponseView)
    requires
        a.body_shown(b, Some(view)),
        a.buffers.loaded(),
    ensures
        ({
            let before = a.buffers.list@[a.buffers.active as int];
            let after = b.buffers.list@[a.buffers.active as int];
            &&& after.browsed == (ResponseState::Done { view })
            &&& after.response == before.response
            &&& after.endpoint == before.endpoint
            &&& after.editor == before.editor
        }),
{
}

} // verus!
