//! Sending a request, and taking in what comes back.

use vstd::prelude::*;

use crate::app::{App, Effect, ResolveFor, RunScopes};
use crate::body::{body_overwritten, overwrite_body_text};
use crate::buffer::{flight_of, Buffers, EndpointBuffer, InFlight};
use crate::load::{Latency, LoadLanded};
use crate::meta::{now_ms, ResponseMeta};
use crate::model::{BodyKind, BodyView, Content, Request, RequestView};
use crate::notice::Notice;
use crate::paths::{parsed, strip_prefix, stripped, within};
use crate::response::{ResponseState, ResponseView};
use crate::sequence::{bump, bumped, StepLanded};
use crate::settings::text_of;
use crate::vars::{
    build_resolver, resolves, session_of, Resolver, ScopesView, Vars,
};

verus! {

/// A file relative to a root, where it lies at or below it.
pub open spec fn rel_path(root: Seq<char>, file: Seq<char>) -> Option<Seq<char>> {
    if within(parsed(file), parsed(root)) {
        Some(stripped(file, root))
    } else {
        None
    }
}

/// A response that arrived, and how it is shown.
#[derive(Debug)]
pub struct Landed {
    /// The status code.
    pub status: u16,
    /// How long the exchange took, in milliseconds.
    pub total_ms: u64,
    /// The response and how it is shown.
    pub view: ResponseView,
}

/// A message of the work in the background.
#[allow(inconsistent_fields)]
pub enum AppMsg {
    /// The screen is to be drawn again.
    Redraw,
    /// A send ended.
    Response {
        /// The number of the send.
        generation: u64,
        /// The response, or why there is none.
        outcome: Result<Landed, String>,
        /// What is shown and recorded of it.
        meta: ResponseMeta,
    },
    /// Lines were highlighted.
    Highlighted {
        /// What they are kept by.
        hash: u64,
        /// The lines.
        lines: Vec<ratatui::text::Line<'static>>,
    },
    /// A step of a sequence ended.
    SequenceStep {
        /// The number of the run.
        run_generation: u64,
        /// The number of the step.
        index: usize,
        /// The response, or why there is none.
        outcome: Result<StepLanded, String>,
    },
    /// A copy of a load run was sent.
    LoadStarted {
        /// The number of the run.
        run_generation: u64,
        /// The number of the copy.
        index: usize,
        /// When, in milliseconds.
        now_ms: u64,
    },
    /// A copy of a load run ended.
    LoadResult {
        /// The number of the run.
        run_generation: u64,
        /// The number of the copy.
        index: usize,
        /// The response, or why there is none.
        outcome: Result<LoadLanded, String>,
        /// What the latencies come to with it.
        latency: Latency,
    },
}

impl App {
    /// What was captured in this workspace.
    pub open spec fn spec_session(&self) -> Map<Seq<char>, Seq<char>> {
        match self.workspace {
            Some(ws) => session_of(self.sessions.list@, ws.key@),
            None => Map::empty(),
        }
    }

    /// What was captured in this workspace.
    pub fn session_vars(&self) -> (r: Vars)
        requires
            self.wf(),
        ensures
            r@ == self.spec_session(),
            r.wf(),
    {
        match &self.workspace {
            Some(ws) => self.sessions.get(&ws.key),
            None => Vars::new(),
        }
    }

    /// The state after values were captured.
    pub open spec fn captured(self, after: App, values: Map<Seq<char>, Seq<char>>) -> bool {
        &&& after == (App { sessions: after.sessions, ..self })
        &&& match self.workspace {
            Some(ws) => {
                &&& session_of(after.sessions.list@, ws.key@) == session_of(
                    self.sessions.list@,
                    ws.key@,
                ).union_prefer_right(values)
                &&& forall|k: Seq<char>|
                    k != ws.key@ ==> #[trigger] session_of(after.sessions.list@, k) == session_of(
                        self.sessions.list@,
                        k,
                    )
            },
            None => after == self,
        }
    }

    /// Keeps a captured value for this workspace, in place of any of its name.
    /// Without a workspace nothing is kept.
    pub fn write_session_var(&mut self, name: String, value: String)
        requires
            old(self).wf(),
        ensures
            old(self).captured(*final(self), Map::empty().insert(name@, value@)),
            final(self).wf(),
    {
        if let Some(ws) = &self.workspace {
            proof {
                let m = session_of(self.sessions.list@, ws.key@);
                assert(m.union_prefer_right(Map::empty().insert(name@, value@)) =~= m.insert(
                    name@,
                    value@,
                ));
            }
            let key = ws.key.clone();
            self.sessions.write(&key, name, value);
        }
    }

    /// Keeps captured values for this workspace.
    pub fn write_session_vars(&mut self, values: &Vars)
        requires
            old(self).wf(),
            values.wf(),
        ensures
            old(self).captured(*final(self), values@),
            final(self).wf(),
    {
        let ghost start = *self;
        let ghost all = values.pairs@;
        let mut i: usize = 0;
        proof {
            assert(all.take(0) =~= Seq::empty());
            let m = self.spec_session();
            assert(m.union_prefer_right(Map::empty()) =~= m);
        }
        while i < values.pairs.len()
            invariant
                i <= values.pairs.len(),
                all == values.pairs@,
                self.wf(),
                start.captured(*self, crate::vars::pairs_map(all.take(i as int))),
            decreases values.pairs.len() - i,
        {
            let name = values.pairs[i].0.clone();
            let value = values.pairs[i].1.clone();
            let ghost n = name@;
            let ghost v = value@;
            let ghost before = crate::vars::pairs_map(all.take(i as int));
            self.write_session_var(name, value);
            proof {
                assert(all.take(i + 1).drop_last() =~= all.take(i as int));
                assert(crate::vars::pairs_map(all.take(i + 1)) == before.insert(n, v));
                let m = start.spec_session();
                assert(m.union_prefer_right(before).union_prefer_right(Map::empty().insert(n, v))
                    =~= m.union_prefer_right(before.insert(n, v)));
            }
            i = i + 1;
        }
        assert(all.take(all.len() as int) =~= all);
    }

    /// The state without what was captured in this workspace; the others keep theirs.
    pub open spec fn session_cleared(self, after: App) -> bool {
        &&& after.spec_session() == Map::<Seq<char>, Seq<char>>::empty()
        &&& forall|k: Seq<char>|
            self.workspace matches Some(ws) && k == ws.key@ || #[trigger] session_of(
                after.sessions.list@,
                k,
            ) == session_of(self.sessions.list@, k)
        &&& after == (App { sessions: after.sessions, message: after.message, ..self })
    }

    /// Drops what was captured in this workspace. Returns whether there was
    /// anything.
    pub fn clear_session_vars(&mut self) -> (cleared: bool)
        requires
            old(self).wf(),
        ensures
            cleared == (old(self).spec_session() != Map::<Seq<char>, Seq<char>>::empty()),
            old(self).session_cleared(*final(self)),
            final(self).message == old(self).message,
            final(self).wf(),
    {
        match &self.workspace {
            Some(ws) => {
                let key = ws.key.clone();
                self.sessions.clear(&key)
            },
            None => false,
        }
    }

    /// The variables of the active profile; none without one.
    pub open spec fn spec_profile(&self) -> Map<Seq<char>, Seq<char>> {
        match (self.workspace, self.active_profile) {
            (Some(ws), Some(name)) => ws.profile_map(name@),
            _ => Map::empty(),
        }
    }

    /// The variables of the active profile.
    pub fn profile_vars(&self) -> (r: Vars)
        requires
            self.wf(),
        ensures
            r@ == self.spec_profile(),
            r.wf(),
    {
        match (&self.workspace, &self.active_profile) {
            (Some(ws), Some(name)) => ws.profile_vars(name),
            _ => Vars::new(),
        }
    }

    /// The variables of the workspace; none without one.
    pub open spec fn spec_workspace_vars(&self) -> Map<Seq<char>, Seq<char>> {
        match self.workspace {
            Some(ws) => ws.vars@,
            None => Map::empty(),
        }
    }

    /// The variables of the workspace.
    pub fn workspace_vars(&self) -> (r: Vars)
        requires
            self.wf(),
        ensures
            r@ == self.spec_workspace_vars(),
            r.wf(),
    {
        match &self.workspace {
            Some(ws) => ws.vars.copy(),
            None => Vars::new(),
        }
    }

    /// The variables of a send of an endpoint of a collection.
    pub open spec fn scopes(&self, collection: usize) -> ScopesView {
        ScopesView {
            session: self.spec_session(),
            cli: self.cli_vars@,
            profile: self.spec_profile(),
            collection: self.explorer.vars_of(collection),
            workspace: self.spec_workspace_vars(),
        }
    }

    /// Where the variables of a send are looked up: what was captured, the command
    /// line, the active profile, the endpoint's collection, and the workspace.
    pub fn build_resolver(&self, collection: usize) -> (r: Resolver)
        requires
            self.wf(),
        ensures
            resolves(r, self.scopes(collection)),
            r.wf(),
    {
        let session = self.session_vars();
        let profile = self.profile_vars();
        let collection = self.explorer.collection_vars(collection);
        let workspace = self.workspace_vars();
        build_resolver(&session, &self.cli_vars, &profile, &collection, &workspace)
    }

    /// Where the environments editor looks variables up: as a send does, but
    /// without a collection.
    pub fn build_env_resolver(&self) -> (r: Resolver)
        requires
            self.wf(),
        ensures
            crate::vars::resolves_env(
                r,
                ScopesView { collection: Map::empty(), ..self.scopes(0) },
            ),
            r.wf(),
    {
        let session = self.session_vars();
        let profile = self.profile_vars();
        let workspace = self.workspace_vars();
        crate::vars::build_env_resolver(&session, &self.cli_vars, &profile, &workspace)
    }

    /// The variables of a sequence run.
    pub open spec fn run_scopes(&self, r: RunScopes) -> bool {
        &&& r.session@ == self.spec_session()
        &&& r.cli@ == self.cli_vars@
        &&& r.profile@ == self.spec_profile()
        &&& r.workspace@ == self.spec_workspace_vars()
    }

    /// The variables of a sequence run; each step adds those of its collection.
    pub fn sequence_run_scopes(&self) -> (r: RunScopes)
        requires
            self.wf(),
        ensures
            self.run_scopes(r),
    {
        RunScopes {
            session: self.session_vars(),
            cli: self.cli_vars.copy(),
            profile: self.profile_vars(),
            workspace: self.workspace_vars(),
        }
    }

    /// A file relative to the workspace.
    pub open spec fn spec_rel_path(&self, file: Seq<char>) -> Option<Seq<char>> {
        match self.workspace {
            Some(ws) => rel_path(ws.root@, file),
            None => None,
        }
    }

    /// A file relative to the workspace, where one is open and the file is in it.
    pub fn endpoint_rel_path(&self, file: &String) -> (r: Option<String>)
        ensures
            text_of(r) == self.spec_rel_path(file@),
    {
        match &self.workspace {
            Some(ws) => strip_prefix(file.as_str(), ws.root.as_str()),
            None => None,
        }
    }

    /// Whether the open endpoint has a request in flight.
    pub open spec fn flying(&self) -> bool {
        self.buffers.loaded() && self.buffers.current().in_flight is Some
    }

    /// Whether the open endpoint has a request in flight.
    pub fn in_flight(&self) -> (r: bool)
        ensures
            r == self.flying(),
    {
        self.buffers.active < self.buffers.list.len()
            && self.buffers.list[self.buffers.active].in_flight.is_some()
    }

    /// A request as it is sent: with the text of the editor as its body.
    pub open spec fn outgoing(request: RequestView, text: Seq<char>) -> RequestView {
        RequestView { body: body_overwritten(request.body, text), ..request }
    }

    /// What a send of the open endpoint asks for: its variables are to be filled in.
    pub open spec fn asks_to_send(self, fx: Seq<Effect>) -> bool {
        let b = self.buffers.current();
        &&& fx.len() == 1
        &&& fx[0] matches Effect::Resolve { request, resolver, purpose } && purpose
            == ResolveFor::Send && request@ == App::outgoing(
            b.endpoint.endpoint.request@,
            b.editor.spec_text(),
        ) && resolves(resolver, self.scopes(b.endpoint.collection))
    }

    /// What a send does: with a request in flight, and without an open endpoint, it
    /// says so; else the request is to be filled in.
    #[verifier::opaque]
    pub open spec fn sends(self, after: App, fx: Seq<Effect>) -> bool {
        if self.flying() {
            after == self.told(Notice::RequestAlreadyInFlight) && fx.len() == 0
        } else if !self.buffers.loaded() {
            after == self.told(Notice::NothingToSend) && fx.len() == 0
        } else {
            after == self && self.asks_to_send(fx)
        }
    }

    /// Sends the open endpoint's request, with the text of the editor as its body.
    pub fn send_request(&mut self) -> (fx: Vec<Effect>)
        requires
            old(self).wf(),
        ensures
            old(self).sends(*final(self), fx@),
            final(self).wf(),
    {
        reveal(App::sends);
        if self.in_flight() {
            self.message = Some(Notice::RequestAlreadyInFlight);
            return Vec::new();
        }
        let i = self.buffers.active;
        if i >= self.buffers.list.len() {
            self.message = Some(Notice::NothingToSend);
            return Vec::new();
        }
        let mut request = self.buffers.list[i].endpoint.endpoint.request.copy();
        overwrite_body_text(&mut request, self.buffers.list[i].editor.text());
        let resolver = self.build_resolver(self.buffers.list[i].endpoint.collection);
        vec![Effect::Resolve { request, resolver, purpose: ResolveFor::Send }]
    }

    /// What is recorded of a send.
    pub open spec fn records(self, meta: ResponseMeta, request: Request, file: Seq<char>) -> bool {
        &&& meta.method@ == request.method.spec_name()
        &&& meta.url == request.url
        &&& text_of(meta.endpoint_path) == self.spec_rel_path(file)
    }

    /// The open buffer while its request is in flight.
    pub open spec fn sent_buffer(
        b: EndpointBuffer,
        after: EndpointBuffer,
        generation: u64,
        meta: ResponseMeta,
        started_ms: u64,
    ) -> bool {
        EndpointBuffer {
            in_flight: Some(InFlight { generation, meta }),
            response: ResponseState::InFlight { started_ms },
            geometry: b.geometry.at_start(),
            ..b
        }.unhighlighted(after)
    }

    /// What is left of a send once the variables were filled in: where some could
    /// not be, that is said and nothing is sent; else the request goes out under a
    /// new number.
    #[verifier::opaque]
    pub open spec fn sends_resolved(
        self,
        after: App,
        request: Request,
        unresolved: Option<String>,
        started_ms: u64,
        fx: Seq<Effect>,
    ) -> bool {
        if !self.buffers.loaded() {
            after == self && fx.len() == 0
        } else if let Some(text) = unresolved {
            after == self.told(Notice::Text { text }) && fx.len() == 0
        } else if !self.has_client {
            after == self && fx.len() == 0
        } else {
            let generation = bumped(self.generation);
            let b = after.buffers.list@[self.buffers.active as int];
            &&& fx.len() == 1
            &&& fx[0] matches Effect::Send { generation: g, request: q, meta } && g == generation
                && q == request && self.records(
                meta,
                request,
                self.buffers.current().endpoint.file@,
            ) && App::sent_buffer(self.buffers.current(), b, generation, meta, started_ms)
            &&& after.buffers.list@ == self.buffers.list@.update(self.buffers.active as int, b)
            &&& after == (App {
                buffers: Buffers { list: after.buffers.list, active: self.buffers.active },
                generation,
                message: None,
                ..self
            })
        }
    }

    /// Goes on with a send once the variables were filled in.
    pub fn send_resolved(
        &mut self,
        request: Request,
        unresolved: Option<String>,
        started_ms: u64,
    ) -> (fx: Vec<Effect>)
        requires
            old(self).wf(),
        ensures
            old(self).sends_resolved(*final(self), request, unresolved, started_ms, fx@),
            final(self).wf(),
    {
        let at_ms: i64 = now_ms();
        self.send_resolved_at(request, unresolved, started_ms, at_ms)
    }

    /// Goes on with a send once the variables were filled in; `at_ms` is recorded as the
    /// time of the send.
    pub fn send_resolved_at(
        &mut self,
        request: Request,
        unresolved: Option<String>,
        started_ms: u64,
        at_ms: i64,
    ) -> (fx: Vec<Effect>)
        requires
            old(self).wf(),
        ensures
            old(self).sends_resolved(*final(self), request, unresolved, started_ms, fx@),
            forall|i: int|
                0 <= i < fx@.len() ==> (#[trigger] fx@[i] matches Effect::Send { meta, .. }
                    && meta.executed_at_ms == at_ms),
            final(self).wf(),
    {
        reveal(App::sends_resolved);
        let i = self.buffers.active;
        if i >= self.buffers.list.len() {
            return Vec::new();
        }
        if let Some(text) = unresolved {
            self.message = Some(Notice::Text { text });
            return Vec::new();
        }
        if !self.has_client {
            return Vec::new();
        }
        self.generation = bump(self.generation);
        let generation: u64 = self.generation;
        let meta = ResponseMeta {
            method: request.method.name().to_owned(),
            url: request.url.clone(),
            endpoint_path: self.endpoint_rel_path(&self.buffers.list[i].endpoint.file),
            executed_at_ms: at_ms,
        };
        self.buffers.list[i].in_flight = Some(InFlight { generation, meta: meta.copy() });
        self.buffers.list[i].response = ResponseState::InFlight { started_ms };
        self.buffers.list[i].geometry.scroll = 0;
        self.buffers.list[i].geometry.cursor = 0;
        self.buffers.list[i].clear_highlight();
        self.message = None;
        proof {
            assert(self.buffers.list@ =~= old(self).buffers.list@.update(
                i as int,
                self.buffers.list@[i as int],
            ));
            assert forall|j: int| 0 <= j < self.buffers.list@.len() implies (
            #[trigger] self.buffers.list@[j]).wf() by {
                assert(old(self).buffers.list@[j].wf());
            }
        }
        vec![Effect::Send { generation, request, meta }]
    }

    /// What is asked of the record of exchanges.
    pub open spec fn history(
        self,
        meta: ResponseMeta,
        status: Option<u16>,
        duration_ms: Option<u64>,
    ) -> Seq<Effect> {
        if self.has_history {
            seq![Effect::WriteHistory { meta, status, duration_ms }]
        } else {
            Seq::empty()
        }
    }

    /// Records an exchange, where exchanges are recorded.
    pub fn write_history(
        &self,
        meta: &ResponseMeta,
        status: Option<u16>,
        duration_ms: Option<u64>,
    ) -> (fx: Vec<Effect>)
        ensures
            fx@ == self.history(*meta, status, duration_ms),
    {
        let mut fx: Vec<Effect> = Vec::new();
        if self.has_history {
            fx.push(Effect::WriteHistory { meta: meta.copy(), status, duration_ms });
        }
        assert(fx@ =~= self.history(*meta, status, duration_ms));
        fx
    }

    /// Says that an exchange could not be recorded.
    pub fn history_failed(&mut self, err: String)
        ensures
            *final(self) == old(self).told(Notice::HistoryFailed { err }),
    {
        self.message = Some(Notice::HistoryFailed { err });
    }

    /// What a cancel does: without a request in flight it says so; else the send is
    /// aborted and recorded without a status.
    #[verifier::opaque]
    pub open spec fn cancels(self, after: App, fx: Seq<Effect>) -> bool {
        if !self.flying() {
            after == self.told(Notice::NoRequestInFlight) && fx.len() == 0
        } else {
            let b = self.buffers.current();
            let flight = b.in_flight->0;
            &&& fx == seq![Effect::Abort(flight.generation)] + self.history(flight.meta, None, None)
            &&& App { message: Some(Notice::RequestCancelled), ..self }.buffer_changed(
                after,
                EndpointBuffer { in_flight: None, response: ResponseState::Cancelled, ..b },
            )
        }
    }

    /// Cancels the request in flight.
    pub fn cancel_request(&mut self) -> (fx: Vec<Effect>)
        requires
            old(self).wf(),
        ensures
            old(self).cancels(*final(self), fx@),
            final(self).wf(),
    {
        reveal(App::cancels);
        if !self.in_flight() {
            self.message = Some(Notice::NoRequestInFlight);
            return Vec::new();
        }
        let i = self.buffers.active;
        let mut fx: Vec<Effect> = Vec::new();
        if let Some(flight) = self.buffers.list[i].in_flight.take() {
            fx.push(Effect::Abort(flight.generation));
            let mut more = self.write_history(&flight.meta, None, None);
            fx.append(&mut more);
            assert(fx@ =~= seq![Effect::Abort(flight.generation)] + self.history(
                flight.meta,
                None,
                None,
            ));
        }
        self.buffers.list[i].response = ResponseState::Cancelled;
        self.message = Some(Notice::RequestCancelled);
        proof {
            assert(self.buffers.list@ =~= old(self).buffers.list@.update(
                i as int,
                self.buffers.list@[i as int],
            ));
            assert forall|j: int| 0 <= j < self.buffers.list@.len() implies (
            #[trigger] self.buffers.list@[j]).wf() by {
                assert(old(self).buffers.list@[j].wf());
            }
        }
        fx
    }

    /// What a response leaves in the buffer that awaited it.
    pub open spec fn landed_response(
        generation: u64,
        outcome: Result<Landed, String>,
        meta: ResponseMeta,
    ) -> ResponseState {
        match outcome {
            Ok(l) => ResponseState::Done { view: ResponseView { generation, ..l.view } },
            Err(error) => ResponseState::Failed { error, meta },
        }
    }

    /// The buffer that awaited a response, with it.
    pub open spec fn answered_buffer(
        b: EndpointBuffer,
        after: EndpointBuffer,
        response: ResponseState,
    ) -> bool {
        EndpointBuffer {
            in_flight: None,
            geometry: b.geometry.at_start(),
            response,
            ..b
        }.unhighlighted(after)
    }

    /// What a response does: it goes to the buffer that awaits it, which need not
    /// be the open one, and is recorded; without such a buffer nothing changes.
    #[verifier::opaque]
    pub open spec fn answers(
        self,
        after: App,
        generation: u64,
        outcome: Result<Landed, String>,
        meta: ResponseMeta,
        fx: Seq<Effect>,
    ) -> bool {
        let i = Buffers::awaiting(self.buffers.list@, generation);
        if i >= self.buffers.list@.len() {
            after == self && fx.len() == 0
        } else {
            &&& fx == self.history(
                meta,
                match outcome {
                    Ok(l) => Some(l.status),
                    Err(_) => None,
                },
                match outcome {
                    Ok(l) => Some(l.total_ms),
                    Err(_) => None,
                },
            ) + (if self.settings.cookies {
                seq![Effect::PersistCookies]
            } else {
                Seq::empty()
            })
            &&& after.buffers.list@ == self.buffers.list@.update(i, after.buffers.list@[i])
            &&& App::answered_buffer(
                self.buffers.list@[i],
                after.buffers.list@[i],
                App::landed_response(generation, outcome, meta),
            )
            &&& after == (App {
                buffers: Buffers { list: after.buffers.list, active: self.buffers.active },
                ..self
            })
        }
    }

    /// Takes in a response. One that no buffer awaits is dropped.
    pub fn on_response(
        &mut self,
        generation: u64,
        outcome: Result<Landed, String>,
        meta: ResponseMeta,
    ) -> (fx: Vec<Effect>)
        requires
            old(self).wf(),
        ensures
            old(self).answers(*final(self), generation, outcome, meta, fx@),
            final(self).wf(),
    {
        reveal(App::answers);
        let i: usize = match self.buffers.index_awaiting(generation) {
            Some(i) => i,
            None => {
                return Vec::new();
            },
        };
        let (status, duration_ms) = match &outcome {
            Ok(l) => (Some(l.status), Some(l.total_ms)),
            Err(_) => (None, None),
        };
        let mut fx = self.write_history(&meta, status, duration_ms);
        self.buffers.list[i].in_flight = None;
        self.buffers.list[i].clear_highlight();
        self.buffers.list[i].geometry.scroll = 0;
        self.buffers.list[i].geometry.cursor = 0;
        self.buffers.list[i].response = match outcome {
            Ok(l) => {
                let mut view = l.view;
                view.generation = generation;
                ResponseState::Done { view }
            },
            Err(error) => ResponseState::Failed { error, meta },
        };
        let ghost first = fx@;
        if self.settings.cookies {
            fx.push(Effect::PersistCookies);
        }
        proof {
            assert(fx@ =~= first + (if self.settings.cookies {
                seq![Effect::PersistCookies]
            } else {
                Seq::empty()
            }));
            assert(self.buffers.list@ =~= old(self).buffers.list@.update(
                i as int,
                self.buffers.list@[i as int],
            ));
            assert forall|j: int| 0 <= j < self.buffers.list@.len() implies (
            #[trigger] self.buffers.list@[j]).wf() by {
                assert(old(self).buffers.list@[j].wf());
            }
        }
        fx
    }

    /// The state after lines were highlighted: the open buffer keeps them.
    pub open spec fn highlighted(
        self,
        after: App,
        hash: u64,
        lines: Vec<ratatui::text::Line<'static>>,
    ) -> bool {
        if self.buffers.loaded() {
            let b = after.buffers.list@[self.buffers.active as int];
            let was = self.buffers.current();
            &&& self.buffer_changed(after, b)
            &&& b.highlight_cache@ == EndpointBuffer::cached(was.highlight_cache@, hash, lines)
            &&& b == (EndpointBuffer {
                highlight_cache: b.highlight_cache,
                pending_highlight: (if was.pending_highlight == Some(hash) {
                    None
                } else {
                    was.pending_highlight
                }),
                ..was
            })
        } else {
            after == self
        }
    }

    /// Keeps highlighted lines in the open buffer.
    pub fn cache_highlighted(&mut self, hash: u64, lines: Vec<ratatui::text::Line<'static>>)
        requires
            old(self).wf(),
        ensures
            old(self).highlighted(*final(self), hash, lines),
            final(self).wf(),
    {
        let i = self.buffers.active;
        if i < self.buffers.list.len() {
            self.buffers.list[i].cache_highlighted(hash, lines);
            proof {
                assert(self.buffers.list@ =~= old(self).buffers.list@.update(
                    i as int,
                    self.buffers.list@[i as int],
                ));
                assert forall|j: int| 0 <= j < self.buffers.list@.len() implies (
                #[trigger] self.buffers.list@[j]).wf() by {
                    assert(old(self).buffers.list@[j].wf());
                }
            }
        }
    }
}

/// A response that no buffer awaits, be it that the send was cancelled or that the
/// endpoint was closed, changes nothing and is not recorded.
pub proof fn law_stale_response_is_dropped(
    a: App,
    b: App,
    generation: u64,
    outcome: Result<Landed, String>,
    meta: ResponseMeta,
    fx: Seq<Effect>,
)
    requires
        a.answers(b, generation, outcome, meta, fx),
        forall|i: int|
            0 <= i < a.buffers.list@.len() ==> flight_of(#[trigger] a.buffers.list@[i]) != Some(
                generation,
            ),
    ensures
        b == a,
        fx.len() == 0,
{
    reveal(App::answers);
    lemma_not_awaited(a.buffers.list@, generation);
}

/// [`Buffers::awaiting`] is the place of a buffer, or the number of buffers.
pub proof fn lemma_awaiting(list: Seq<EndpointBuffer>, generation: u64)
    ensures
        0 <= Buffers::awaiting(list, generation) <= list.len(),
    decreases list.len(),
{
    if list.len() > 0 {
        lemma_awaiting(list.skip(1), generation);
    }
}

proof fn lemma_not_awaited(list: Seq<EndpointBuffer>, generation: u64)
    requires
        forall|i: int|
            0 <= i < list.len() ==> flight_of(#[trigger] list[i]) != Some(generation),
    ensures
        Buffers::awaiting(list, generation) == list.len(),
    decreases list.len(),
{
    if list.len() > 0 {
        assert(flight_of(list[0]) != Some(generation));
        assert forall|i: int| 0 <= i < list.skip(1).len() implies flight_of(
            #[trigger] list.skip(1)[i],
        ) != Some(generation) by {
            assert(flight_of(list[i + 1]) != Some(generation));
        }
        lemma_not_awaited(list.skip(1), generation);
    }
}

/// A response changes the buffer that awaited it and no other, and that buffer
/// awaits nothing any more.
pub proof fn law_response_goes_to_its_buffer(
    a: App,
    b: App,
    generation: u64,
    outcome: Result<Landed, String>,
    meta: ResponseMeta,
    fx: Seq<Effect>,
    i: int,
)
    requires
        a.answers(b, generation, outcome, meta, fx),
        0 <= i < a.buffers.list@.len(),
    ensures
        b.buffers.list@.len() == a.buffers.list@.len(),
        b.buffers.active == a.buffers.active,
        b.buffers.list@[i].endpoint == a.buffers.list@[i].endpoint,
        b.buffers.list@[i].dirty() == a.buffers.list@[i].dirty(),
        i != Buffers::awaiting(a.buffers.list@, generation) ==> b.buffers.list@[i]
            == a.buffers.list@[i],
        i == Buffers::awaiting(a.buffers.list@, generation) ==> b.buffers.list@[i].in_flight
            is None && b.buffers.list@[i].response == App::landed_response(
            generation,
            outcome,
            meta,
        ),
{
    reveal(App::answers);
    lemma_awaiting(a.buffers.list@, generation);
}

/// A cancelled send is awaited no more: its response is dropped when it comes.
pub proof fn law_cancelled_send_is_dropped(
    a: App,
    b: App,
    fx: Seq<Effect>,
    c: App,
    generation: u64,
    outcome: Result<Landed, String>,
    meta: ResponseMeta,
    more: Seq<Effect>,
)
    requires
        a.flying(),
        a.buffers.current().in_flight->0.generation == generation,
        forall|i: int|
            0 <= i < a.buffers.list@.len() && i != a.buffers.active ==> flight_of(
                #[trigger] a.buffers.list@[i],
            ) != Some(generation),
        a.cancels(b, fx),
        b.answers(c, generation, outcome, meta, more),
    ensures
        c == b,
        more.len() == 0,
        fx.len() > 0 && fx[0] == Effect::Abort(generation),
{
    reveal(App::cancels);
    assert forall|i: int| 0 <= i < b.buffers.list@.len() implies flight_of(
        #[trigger] b.buffers.list@[i],
    ) != Some(generation) by {
        if i != a.buffers.active {
            assert(flight_of(a.buffers.list@[i]) != Some(generation));
        }
    }
    law_stale_response_is_dropped(b, c, generation, outcome, meta, more);
}

/// A send while one is in flight sends nothing.
pub proof fn law_one_send_at_a_time(a: App, b: App, fx: Seq<Effect>)
    requires
        a.flying(),
        a.sends(b, fx),
    ensures
        fx.len() == 0,
        b.buffers == a.buffers,
        b.generation == a.generation,
{
    reveal(App::sends);
}

/// A captured value is what a send of its workspace uses for its name, over every other
/// scope, and no other workspace sees it.
pub proof fn law_captured_value_is_used(
    a: App,
    b: App,
    values: Map<Seq<char>, Seq<char>>,
    name: Seq<char>,
    collection: usize,
    other: Seq<char>,
)
    requires
        a.captured(b, values),
        a.workspace is Some,
        values.dom().contains(name),
        other != a.workspace->0.key@,
    ensures
        b.scopes(collection).session.dom().contains(name),
        b.scopes(collection).session[name] == values[name],
        session_of(b.sessions.list@, other) == session_of(a.sessions.list@, other),
{
}

/// What a send asks for is the request of the open endpoint with the text of the
/// editor as its body: a text body keeps its kind and holds the editor's text
/// whatever it held before, a request without a body gets one where the editor holds
/// a text, and everything else of the request is as it is in the buffer.
pub proof fn law_send_takes_the_edited_body(a: App, b: App, fx: Seq<Effect>)
    requires
        a.sends(b, fx),
        a.buffers.loaded(),
        !a.flying(),
    ensures
        b == a,
        fx.len() == 1,
        fx[0] matches Effect::Resolve { request, purpose, .. } && purpose == ResolveFor::Send && {
            let held = a.buffers.list@[a.buffers.active as int].endpoint.endpoint.request@;
            let text = a.buffers.list@[a.buffers.active as int].editor.spec_text();
            &&& held.body matches Some(BodyView::Simple { kind, .. }) ==> (request@.body matches Some(
                BodyView::Simple { kind: k, content },
            ) && k == kind && content == text)
            &&& held.body is None && text.len() > 0 ==> (request@.body matches Some(
                BodyView::Simple { kind: k, content },
            ) && k == BodyKind::Text && content == text)
            &&& held.body is None && text.len() == 0 ==> request@.body is None
            &&& held.body matches Some(BodyView::Multipart(_)) ==> request@.body == held.body
            &&& request@.method == held.method
            &&& request@.url == held.url
            &&& request@.headers == held.headers
            &&& request@.params == held.params
            &&& request@.auth == held.auth
            &&& request@.insecure == held.insecure
        },
{
    reveal(App::sends);
}

/// A request whose variables are all filled in goes out as it is under a new number, and the
/// open buffer awaits that number; one with a name that has no value is not sent, and that is
/// said.
pub proof fn law_filled_in_request_goes_out(
    a: App,
    b: App,
    request: Request,
    unresolved: Option<String>,
    started_ms: u64,
    fx: Seq<Effect>,
)
    requires
        a.sends_resolved(b, request, unresolved, started_ms, fx),
        a.buffers.loaded(),
    ensures
        unresolved matches Some(text) ==> fx.len() == 0 && b.buffers == a.buffers && b.generation
            == a.generation && b.message == Some(Notice::Text { text }),
        unresolved is None && a.has_client ==> {
            let sent = b.buffers.list@[a.buffers.active as int];
            &&& b.generation == (if a.generation == u64::MAX {
                0
            } else {
                a.generation + 1
            })
            &&& fx.len() == 1
            &&& fx[0] matches Effect::Send { generation, request: q, meta } && generation
                == b.generation && q == request && meta.url == request.url
            &&& b.message is None
            &&& sent.in_flight matches Some(f) && f.generation == b.generation
            &&& sent.response matches ResponseState::InFlight { started_ms: t } && t == started_ms
            &&& sent.endpoint == a.buffers.list@[a.buffers.active as int].endpoint
            &&& sent.editor == a.buffers.list@[a.buffers.active as int].editor
        },
{
    reveal(App::sends_resolved);
}

/// A response that a buffer awaits is shown there and starts at its first row; it is recorded
/// with its status and its time, and a failure without either.
pub proof fn law_awaited_response_is_shown_and_recorded(
    a: App,
    b: App,
    generation: u64,
    outcome: Result<Landed, String>,
    meta: ResponseMeta,
    fx: Seq<Effect>,
    i: int,
)
    requires
        a.answers(b, generation, outcome, meta, fx),
        0 <= i < a.buffers.list@.len(),
        a.buffers.list@[i].in_flight matches Some(f) && f.generation == generation,
        forall|j: int|
            0 <= j < i ==> !((#[trigger] a.buffers.list@[j]).in_flight matches Some(f)
                && f.generation == generation),
    ensures
        ({
            let shown = b.buffers.list@[i];
            &&& shown.in_flight is None
            &&& shown.geometry.cursor == 0 && shown.geometry.scroll == 0
            &&& shown.endpoint == a.buffers.list@[i].endpoint
            &&& match outcome {
                Ok(l) => shown.response matches ResponseState::Done { view } && view.generation
                    == generation && view.text == l.view.text && view.raw == l.view.raw,
                Err(e) => shown.response matches ResponseState::Failed { error, .. } && error == e,
            }
            &&& a.has_history ==> fx.len() > 0 && (fx[0] matches Effect::WriteHistory {
                meta: m,
                status,
                duration_ms,
            } && m == meta && match outcome {
                Ok(l) => status == Some(l.status) && duration_ms == Some(l.total_ms),
                Err(_) => status is None && duration_ms is None,
            })
            &&& a.settings.cookies ==> fx.len() > 0 && fx.last() == Effect::PersistCookies
            &&& !a.has_history && !a.settings.cookies ==> fx.len() == 0
        }),
{
    reveal(App::answers);
    crate::buffer::law_awaiting_buffer_has_the_number(a.buffers.list@, generation);
    let at = Buffers::awaiting(a.buffers.list@, generation);
    if at < i {
        assert(a.buffers.list@[at].in_flight matches Some(f) && f.generation == generation);
    }
    if i < at {
        assert(a.buffers.list@[i].in_flight matches Some(f) && f.generation == generation);
    }
}

/// A cancel aborts the send of the open buffer, shows it as cancelled and records it without a
/// status; without one in flight it says so.
pub proof fn law_cancel_aborts_and_records(a: App, b: App, fx: Seq<Effect>)
    requires
        a.cancels(b, fx),
        a.buffers.loaded(),
    ensures
        a.buffers.list@[a.buffers.active as int].in_flight is None ==> fx.len() == 0 && b.buffers
            == a.buffers && b.message == Some(Notice::NoRequestInFlight),
        a.buffers.list@[a.buffers.active as int].in_flight matches Some(f) ==> {
            let shown = b.buffers.list@[a.buffers.active as int];
            &&& fx.len() > 0 && fx[0] == Effect::Abort(f.generation)
            &&& a.has_history ==> fx.len() == 2 && fx[1] == (Effect::WriteHistory {
                meta: f.meta,
                status: None,
                duration_ms: None,
            })
            &&& !a.has_history ==> fx.len() == 1
            &&& shown.in_flight is None
            &&& shown.response is Cancelled
            &&& shown.endpoint == a.buffers.list@[a.buffers.active as int].endpoint
            &&& b.message == Some(Notice::RequestCancelled)
        },
{
    reveal(App::cancels);
}

/// The variables of a send are those of the workspace that is open: its session, the command
/// line, the active profile, the collection of the endpoint and the workspace itself.
pub proof fn law_send_uses_the_scopes_of_its_endpoint(a: App, b: App, fx: Seq<Effect>)
    requires
        a.sends(b, fx),
        a.buffers.loaded(),
        !a.flying(),
        a.workspace is Some,
    ensures
        fx.len() == 1,
        fx[0] matches Effect::Resolve { resolver, .. } && {
            let ws = a.workspace->0;
            let place = a.buffers.list@[a.buffers.active as int].endpoint.collection;
            let q = resolver.scopes@;
            &&& q.len() == 5
            &&& q[0].vars@ == session_of(a.sessions.list@, ws.key@)
            &&& q[1].vars@ == a.cli_vars@
            &&& a.active_profile matches Some(name) ==> q[2].vars@ == ws.profile_map(name@)
            &&& a.active_profile is None ==> q[2].vars@ =~= Map::<Seq<char>, Seq<char>>::empty()
            &&& place < a.explorer.collection_vars@.len() ==> q[3].vars@
                == a.explorer.collection_vars@[place as int]@
            &&& q[4].vars@ == ws.vars@
        },
{
    reveal(App::sends);
}

/// Cleared captures are gone from this workspace and stay in every other.
pub proof fn law_cleared_session_is_empty(a: App, b: App, name: Seq<char>, other: Seq<char>)
    requires
        a.session_cleared(b),
        a.workspace is Some,
        other != a.workspace->0.key@,
    ensures
        !session_of(b.sessions.list@, a.workspace->0.key@).dom().contains(name),
        session_of(b.sessions.list@, other) == session_of(a.sessions.list@, other),
        b.buffers == a.buffers,
        b.cli_vars == a.cli_vars,
{
    assert(b.workspace == a.workspace);
}

/// A file of the workspace is recorded by its path below the root, and a file outside of it is
/// recorded without one; the method and the URL are those of the request that goes out.
pub proof fn law_send_is_recorded_as_it_goes_out(
    a: App,
    meta: ResponseMeta,
    request: Request,
    file: Seq<char>,
)
    requires
        a.records(meta, request, file),
        a.workspace is Some,
    ensures
        meta.url == request.url,
        meta.method@ == request.method.spec_name(),
        within(parsed(file), parsed(a.workspace->0.root@)) ==> (meta.endpoint_path matches Some(p)
            && p@ == stripped(file, a.workspace->0.root@)),
        !within(parsed(file), parsed(a.workspace->0.root@)) ==> meta.endpoint_path is None,
{
}

/// What was captured before stays under every name that is not captured anew.
pub proof fn law_capture_keeps_the_other_names(
    a: App,
    b: App,
    values: Map<Seq<char>, Seq<char>>,
    name: Seq<char>,
)
    requires
        a.captured(b, values),
        a.workspace is Some,
        !values.dom().contains(name),
    ensures
        ({
            let before = session_of(a.sessions.list@, a.workspace->0.key@);
            let after = session_of(b.sessions.list@, a.workspace->0.key@);
            &&& after.dom().contains(name) <==> before.dom().contains(name)
            &&& before.dom().contains(name) ==> after[name] == before[name]
        }),
        b.buffers == a.buffers,
        b.workspace == a.workspace,
{
}

} // verus!
