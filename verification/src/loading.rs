//! Load runs in the application.

use vstd::prelude::*;

use crate::app::{App, Component, Effect, ResolveFor, Surface};
use crate::body::overwrite_body_text;
use crate::buffer::SelectedEndpoint;
use crate::keys::KeyEvent;
use crate::load::{
    no_stats, Interrupt, Latency, LoadCheck, LoadConfig, LoadLanded, LoadRunner, LoadStart,
    LoadStatus, LoadSummary, LoadSurface,
};
use crate::mode::Mode;
use crate::model::{BodyKind, BodyView, Content, Request};
use crate::notice::Notice;
use crate::response::{try_route_runner_response_key, Geometry, ResponseState};
use crate::settings::text_of;
use crate::vars::resolves;

verus! {

/// What the load runner answers to a key.
#[derive(Debug, Clone, Copy, PartialEq, Eq, Structural)]
pub enum LoadOutcome {
    /// It took the key.
    Consumed,
    /// The run is asked for.
    Run,
    /// The run was confirmed.
    ConfirmedRun,
    /// The run is to be cancelled.
    Cancel,
    /// The surface is to be closed.
    Close,
}

impl App {
    /// Whether an endpoint is what a load run or a copy is made of: the open one,
    /// or without one that under the cursor.
    pub open spec fn targets(&self, s: SelectedEndpoint) -> bool {
        if self.buffers.loaded() {
            let e = self.buffers.current().endpoint;
            s.endpoint@ == e.endpoint@ && s.file == e.file && s.collection == e.collection
                && s.display_path == e.display_path
        } else {
            self.explorer.cursor < self.explorer.rows@.len() && crate::explorer::row_selects(
                self.explorer.rows@[self.explorer.cursor as int],
                s,
            )
        }
    }

    /// Whether there is an endpoint to make a load run or a copy of.
    pub open spec fn has_target(&self) -> bool {
        self.buffers.loaded() || (self.explorer.cursor < self.explorer.rows@.len()
            && self.explorer.rows@[self.explorer.cursor as int].endpoint is Some)
    }

    /// The endpoint that a load run or a copy is made of.
    pub fn target_endpoint(&self) -> (r: Option<SelectedEndpoint>)
        ensures
            match r {
                Some(s) => self.has_target() && self.targets(s),
                None => !self.has_target(),
            },
    {
        match self.selected() {
            Some(s) => Some(
                SelectedEndpoint {
                    display_path: s.display_path.clone(),
                    file: s.file.clone(),
                    collection: s.collection,
                    endpoint: s.endpoint.copy(),
                },
            ),
            None => self.explorer.endpoint_at(self.explorer.cursor),
        }
    }

    /// The text of the body editor; none without an open endpoint.
    pub open spec fn editor_text(&self) -> Seq<char> {
        if self.buffers.loaded() {
            self.buffers.current().editor.spec_text()
        } else {
            Seq::empty()
        }
    }

    /// The text of the body editor.
    pub fn body_text(&self) -> (r: String)
        ensures
            r@ == self.editor_text(),
    {
        if self.buffers.active < self.buffers.list.len() {
            self.buffers.list[self.buffers.active].editor.text()
        } else {
            let r = String::new();
            assert(r@ =~= Seq::empty());
            r
        }
    }

    /// What opening the load runner does: the request is to be filled in once, as
    /// a send would be; without an endpoint that is said.
    #[verifier::opaque]
    pub open spec fn opens_load(self, after: App, fx: Seq<Effect>) -> bool {
        if !self.has_target() {
            after == self.told(Notice::NoEndpointToLoadTest) && fx.len() == 0
        } else {
            &&& after == self
            &&& fx.len() == 1
            &&& exists|s: SelectedEndpoint|
                {
                    &&& #[trigger] self.targets(s)
                    &&& fx[0] matches Effect::Resolve { request, resolver, purpose } && request@
                        == App::outgoing(s.endpoint@.request, self.editor_text()) && resolves(
                        resolver,
                        self.scopes(s.collection),
                    ) && (purpose matches ResolveFor::Load { name, endpoint_path } && name@
                        == s.endpoint@.name && text_of(endpoint_path) == self.spec_rel_path(
                        s.file@,
                    ))
                }
        }
    }

    /// Opens the load runner.
    pub fn open_load_runner(&mut self) -> (fx: Vec<Effect>)
        requires
            old(self).wf(),
        ensures
            old(self).opens_load(*final(self), fx@),
            final(self).wf(),
    {
        reveal(App::opens_load);
        let selected = match self.target_endpoint() {
            Some(s) => s,
            None => {
                self.message = Some(Notice::NoEndpointToLoadTest);
                return Vec::new();
            },
        };
        let mut request = selected.endpoint.request.copy();
        overwrite_body_text(&mut request, self.body_text());
        let resolver = self.build_resolver(selected.collection);
        let endpoint_path = self.endpoint_rel_path(&selected.file);
        let name = selected.endpoint.name.clone();
        let fx = vec![
            Effect::Resolve {
                request,
                resolver,
                purpose: ResolveFor::Load { name, endpoint_path },
            },
        ];
        proof {
            assert(self.targets(selected));
        }
        fx
    }

    /// A load run that was just opened: nothing is sent yet.
    pub open spec fn fresh_load(
        r: LoadRunner,
        name: String,
        url: Seq<char>,
        endpoint_path: Option<String>,
        cfg: LoadConfig,
    ) -> bool {
        &&& r.name == name
        &&& r.url@ == url
        &&& r.endpoint_path == endpoint_path
        &&& r.cfg == cfg
        &&& r.results@.len() == 0
        &&& r.completed == 0
        &&& r.stats == no_stats()
        &&& r.run_generation == 0
        &&& !r.running
        &&& !r.finished
        &&& !r.cancelled
        &&& !r.confirming_close
        &&& r.pending_confirm is None
        &&& r.selected == 0
        &&& r.geometry == Geometry::spec_new()
        &&& r.view_gen == 0
    }

    /// Goes on with opening the load runner once the variables were filled in:
    /// where some could not be, that is said and it stays closed.
    pub fn load_resolved(
        &mut self,
        request: Request,
        unresolved: Option<String>,
        name: String,
        endpoint_path: Option<String>,
        cfg: LoadConfig,
    )
        requires
            old(self).wf(),
        ensures
            final(self).wf(),
            match unresolved {
                Some(text) => *final(self) == old(self).told(Notice::Text { text }),
                None => {
                    &&& final(self).load.runner matches Some(run) && App::fresh_load(
                        run,
                        name,
                        request.url@,
                        endpoint_path,
                        cfg,
                    )
                    &&& *final(self) == (App {
                        load: LoadSurface {
                            runner: final(self).load.runner,
                            request: Some(request),
                            ..old(self).load
                        },
                        mode: Mode::LoadRunner,
                        ..*old(self)
                    })
                },
            },
    {
        if let Some(text) = unresolved {
            self.message = Some(Notice::Text { text });
            return;
        }
        let url = request.url.clone();
        self.load.request = Some(request);
        self.load.runner = Some(LoadRunner::new(name, url, endpoint_path, cfg));
        self.mode = Mode::LoadRunner;
    }

    /// What is asked of the record of load runs.
    pub open spec fn load_history(self, s: Option<LoadSummary>) -> Seq<Effect> {
        match s {
            Some(s) if self.has_history => seq![Effect::WriteLoadSummary(s)],
            _ => Seq::empty(),
        }
    }

    /// What an interrupt of a load run asks for.
    pub open spec fn interrupt_effects(self, i: Interrupt) -> Seq<Effect> {
        self.load_history(i.summary) + (if i.abort {
            seq![Effect::AbortLoad]
        } else {
            Seq::empty()
        })
    }

    fn effects_of(&self, i: Interrupt) -> (fx: Vec<Effect>)
        ensures
            fx@ == self.interrupt_effects(i),
    {
        let mut fx: Vec<Effect> = Vec::new();
        if let Some(s) = i.summary {
            if self.has_history {
                fx.push(Effect::WriteLoadSummary(s));
            }
        }
        let ghost first = fx@;
        assert(first =~= self.load_history(i.summary));
        if i.abort {
            fx.push(Effect::AbortLoad);
        }
        assert(fx@ =~= self.interrupt_effects(i));
        fx
    }

    /// How the copies are sent: at least one at a time.
    pub open spec fn launched(cfg: LoadConfig) -> LoadConfig {
        LoadConfig {
            concurrency: if cfg.concurrency >= 1 {
                cfg.concurrency
            } else {
                1
            },
            ..cfg
        }
    }

    fn launch_of(cfg: LoadConfig) -> (r: LoadConfig)
        ensures
            r == App::launched(cfg),
    {
        LoadConfig {
            concurrency: if cfg.concurrency >= 1 {
                cfg.concurrency
            } else {
                1
            },
            ..cfg
        }
    }

    /// What a start of the load run does: an earlier one that is under way is
    /// recorded as cut short and aborted, and the copies are to be sent where
    /// requests can be.
    #[verifier::opaque]
    pub open spec fn starts_load(self, after: App, fx: Seq<Effect>) -> bool {
        exists|i: Interrupt|
            {
                let first = self.interrupt_effects(i);
                &&& #[trigger] self.load.interrupt_asks(i)
                &&& match (self.load.interrupted().runner, self.load.request) {
                    (Some(run), Some(request)) => {
                        let sent = run.cfg.total > 0 && self.has_client;
                        &&& after.load.runner matches Some(new) && new.reset_from(run)
                        &&& after == (App {
                            load: LoadSurface {
                                runner: after.load.runner,
                                in_flight: sent,
                                ..self.load
                            },
                            ..self
                        })
                        &&& fx.len() == first.len() + (if sent {
                            1int
                        } else {
                            0
                        })
                        &&& fx.take(first.len() as int) == first
                        &&& sent ==> (fx.last() matches Effect::LaunchLoad {
                            run_generation,
                            request: q,
                            cfg,
                        } && run_generation == run.run_generation && q@ == request@ && cfg
                            == App::launched(run.cfg))
                    },
                    _ => after == (App { load: self.load.interrupted(), ..self }) && fx == first,
                }
            }
    }

    /// Starts the load run, or starts it again.
    pub fn start_load_run(&mut self) -> (fx: Vec<Effect>)
        requires
            old(self).wf(),
        ensures
            old(self).starts_load(*final(self), fx@),
            final(self).wf(),
    {
        reveal(App::starts_load);
        let (interrupt, drive) = self.load.start_load_run();
        let ghost i = interrupt;
        let mut fx = self.effects_of(interrupt);
        let ghost first = fx@;
        if drive && self.has_client {
            match (&self.load.runner, &self.load.request) {
                (Some(run), Some(request)) => {
                    fx.push(
                        Effect::LaunchLoad {
                            run_generation: run.run_generation,
                            request: request.copy(),
                            cfg: App::launch_of(run.cfg),
                        },
                    );
                    assert(fx@.take(first.len() as int) =~= first);
                },
                _ => {},
            }
            self.load.in_flight = true;
        }
        assert(first.take(first.len() as int) =~= first);
        assert(old(self).load.interrupt_asks(i));
        fx
    }

    /// What asking for the load run does: the limits are asked about it.
    pub open spec fn asks_load(self) -> Seq<Effect> {
        match self.load.runner {
            Some(run) => seq![Effect::CheckLoad(run.cfg)],
            None => Seq::empty(),
        }
    }

    /// Asks for the load run.
    pub fn request_load_run(&self) -> (fx: Vec<Effect>)
        ensures
            fx@ == self.asks_load(),
    {
        let mut fx: Vec<Effect> = Vec::new();
        if let Some(run) = &self.load.runner {
            fx.push(Effect::CheckLoad(run.cfg));
        }
        assert(fx@ =~= self.asks_load());
        fx
    }

    /// What the limits' verdict on the load run does: it is refused, asked about,
    /// or started.
    #[verifier::opaque]
    pub open spec fn load_judged(self, after: App, check: LoadCheck, fx: Seq<Effect>) -> bool {
        match self.load.runner {
            None => after == self && fx.len() == 0,
            Some(run) => match check {
                LoadCheck::Refuse(reason) => after == self.told(Notice::LoadRefused { reason })
                    && fx.len() == 0,
                LoadCheck::Warn(reason) => {
                    &&& fx.len() == 0
                    &&& after.load.runner matches Some(new) && new == (LoadRunner {
                        pending_confirm: new.pending_confirm,
                        ..run
                    }) && (new.pending_confirm matches Some(q) && q@
                        == crate::load::confirm_question(run.cfg, run.url@, reason@))
                    &&& after == (App {
                        load: LoadSurface { runner: after.load.runner, ..self.load },
                        ..self
                    })
                },
                LoadCheck::Fine => self.starts_load(after, fx),
            },
        }
    }

    /// Takes in the limits' verdict on the load run.
    pub fn load_checked(&mut self, check: LoadCheck) -> (fx: Vec<Effect>)
        requires
            old(self).wf(),
        ensures
            old(self).load_judged(*final(self), check, fx@),
            final(self).wf(),
    {
        reveal(App::load_judged);
        let mut start = LoadStart::Ask;
        if let Some(run) = self.load.runner.as_mut() {
            start = run.request_load_run(check);
        }
        match start {
            LoadStart::Start => self.start_load_run(),
            LoadStart::Ask => Vec::new(),
            LoadStart::Refused(n) => {
                self.message = Some(n);
                Vec::new()
            },
        }
    }

    /// What it does that a copy was sent: in the run that it belongs to, its row shows
    /// that it waits for its response.
    #[verifier::opaque]
    pub open spec fn copy_starts(
        self,
        after: App,
        run_generation: u64,
        index: usize,
        now_ms: u64,
    ) -> bool {
        match self.load.runner {
            None => after == self,
            Some(run) => {
                let new = after.load.runner->0;
                &&& after.load.runner is Some
                &&& if run_generation == run.run_generation && index < run.results@.len()
                    && run.results@[index as int].status is Pending {
                    &&& new.results@ == run.results@.update(
                        index as int,
                        crate::load::LoadRow {
                            status: crate::load::LoadStatus::Running,
                            response: crate::response::ResponseState::InFlight {
                                started_ms: now_ms,
                            },
                            ..run.results@[index as int]
                        },
                    )
                    &&& new == (LoadRunner { results: new.results, ..run })
                } else {
                    new == run
                }
                &&& after == (App {
                    load: LoadSurface { runner: after.load.runner, ..self.load },
                    ..self
                })
            },
        }
    }

    /// Takes in that a copy was sent.
    pub fn on_load_started(&mut self, run_generation: u64, index: usize, now_ms: u64)
        requires
            old(self).wf(),
        ensures
            final(self).wf(),
            old(self).copy_starts(*final(self), run_generation, index, now_ms),
    {
        reveal(App::copy_starts);
        if let Some(run) = self.load.runner.as_mut() {
            run.on_load_started(run_generation, index, now_ms);
        }
    }

    /// What the result of a copy does: one of another run changes nothing; with the
    /// last one the run is over and recorded.
    #[verifier::opaque]
    pub open spec fn copy_lands(
        self,
        after: App,
        run_generation: u64,
        index: usize,
        outcome: Result<LoadLanded, String>,
        latency: Latency,
        fx: Seq<Effect>,
    ) -> bool {
        match self.load.runner {
            None => after == self && fx.len() == 0,
            Some(run) => if run_generation == run.run_generation && index < run.results@.len() {
                let new = after.load.runner->0;
                let done = forall|i: int|
                    0 <= i < new.results@.len() ==> (#[trigger] new.results@[i]).status.completed();
                &&& after.load.runner is Some
                &&& run.landed(new, index, outcome, latency)
                &&& after == (App {
                    load: LoadSurface {
                        runner: after.load.runner,
                        in_flight: self.load.in_flight && !done,
                        ..self.load
                    },
                    ..self
                })
                &&& if done && self.has_history {
                    fx.len() == 1 && (fx[0] matches Effect::WriteLoadSummary(s)
                        && new.summarised(s, false))
                } else {
                    fx.len() == 0
                }
            } else {
                after == self && fx.len() == 0
            },
        }
    }

    /// Takes in the result of a copy; `latency` is what the latencies come to with
    /// it.
    pub fn on_load_result(
        &mut self,
        run_generation: u64,
        index: usize,
        outcome: Result<LoadLanded, String>,
        latency: Latency,
    ) -> (fx: Vec<Effect>)
        requires
            old(self).wf(),
        ensures
            old(self).copy_lands(
                *final(self),
                run_generation,
                index,
                outcome,
                latency,
                fx@,
            ),
            final(self).wf(),
    {
        reveal(App::copy_lands);
        let mut done = false;
        if let Some(run) = self.load.runner.as_mut() {
            done = run.on_load_result(run_generation, index, outcome, latency);
        }
        let mut fx: Vec<Effect> = Vec::new();
        if done {
            self.load.in_flight = false;
            if self.has_history {
                if let Some(run) = &self.load.runner {
                    fx.push(Effect::WriteLoadSummary(run.summary(false)));
                }
            }
        }
        fx
    }

    /// What a cancel of the load run does.
    #[verifier::opaque]
    pub open spec fn cancels_load(self, after: App, now_ms: u64, fx: Seq<Effect>) -> bool {
        exists|i: Interrupt|
            {
                &&& #[trigger] self.load.interrupt_asks(i)
                &&& fx == self.interrupt_effects(i)
                &&& match self.load.interrupted().runner {
                    Some(run) => {
                        &&& after.load.runner matches Some(new) && new.cancelled_from(run, now_ms)
                        &&& after == (App {
                            load: LoadSurface {
                                runner: after.load.runner,
                                ..self.load.interrupted()
                            },
                            message: Some(Notice::LoadRunCancelled),
                            ..self
                        })
                    },
                    None => after == (App { load: self.load.interrupted(), ..self }),
                }
            }
    }

    /// Cancels the load run.
    pub fn cancel_load_run(&mut self, now_ms: u64) -> (fx: Vec<Effect>)
        requires
            old(self).wf(),
        ensures
            old(self).cancels_load(*final(self), now_ms, fx@),
            final(self).wf(),
    {
        reveal(App::cancels_load);
        let (interrupt, said) = self.load.cancel_load_run(now_ms);
        let ghost i = interrupt;
        assert(old(self).load.interrupt_asks(i));
        self.notify_if(said);
        self.effects_of(interrupt)
    }

    /// What closing the load runner does: a run that is under way is recorded as
    /// cut short and aborted.
    #[verifier::opaque]
    pub open spec fn closes_load(self, after: App, fx: Seq<Effect>) -> bool {
        &&& after == (App { load: LoadSurface::closed(), mode: Mode::Normal, ..self })
        &&& exists|i: Interrupt|
            #[trigger] self.load.interrupt_asks(i) && fx == self.interrupt_effects(i)
    }

    /// Closes the load runner.
    pub fn close_load_runner(&mut self) -> (fx: Vec<Effect>)
        requires
            old(self).wf(),
        ensures
            old(self).closes_load(*final(self), fx@),
            final(self).wf(),
    {
        reveal(App::closes_load);
        let interrupt = self.load.close();
        let ghost i = interrupt;
        assert(old(self).load.interrupt_asks(i));
        self.mode = Mode::Normal;
        self.effects_of(interrupt)
    }

    /// What a key does on the load surface: the viewer takes it where the response
    /// has the keyboard, and else the runner. Without a run the mode is left.
    #[verifier::opaque]
    pub open spec fn load_keyed(
        self,
        after: App,
        key: KeyEvent,
        on_response: bool,
        line: Option<usize>,
        fx: Seq<Effect>,
    ) -> bool {
        if self.load.runner is None {
            after == self.in_mode(Mode::Normal) && fx.len() == 0
        } else {
            match self.keymap.spec_lookup_ctx(key, crate::pane::PaneCtx::Response) {
                Some(action) if on_response && crate::response::is_response_action(action) =>
                    self.acts_on_view(after, Surface::Copy, action, line, fx),
                _ => after == self && fx == seq![Effect::ComponentKey(Component::LoadRunner, key)],
            }
        }
    }

    /// Handles a key on the load surface. `on_response` is whether the response
    /// has the keyboard, and `line` the line under its cursor.
    pub fn handle_load_runner_key(
        &mut self,
        key: KeyEvent,
        on_response: bool,
        line: Option<usize>,
    ) -> (fx: Vec<Effect>)
        requires
            old(self).wf(),
        ensures
            old(self).load_keyed(*final(self), key, on_response, line, fx@),
            final(self).wf(),
    {
        reveal(App::load_keyed);
        if self.load.runner.is_none() {
            self.mode = Mode::Normal;
            return Vec::new();
        }
        match try_route_runner_response_key(&self.keymap, on_response, key) {
            Some(action) => self.view_action(Surface::Copy, action, line),
            None => {
                let fx = vec![Effect::ComponentKey(Component::LoadRunner, key)];
                assert(fx@ =~= seq![Effect::ComponentKey(Component::LoadRunner, key)]);
                fx
            },
        }
    }

    /// Acts on what the load runner answered to a key.
    pub fn load_runner_answered(&mut self, outcome: LoadOutcome, now_ms: u64) -> (fx: Vec<Effect>)
        requires
            old(self).wf(),
        ensures
            final(self).wf(),
            match outcome {
                LoadOutcome::Consumed => *final(self) == *old(self) && fx@.len() == 0,
                LoadOutcome::Run => *final(self) == *old(self) && fx@ == old(self).asks_load(),
                LoadOutcome::ConfirmedRun => old(self).starts_load(*final(self), fx@),
                LoadOutcome::Cancel => old(self).cancels_load(*final(self), now_ms, fx@),
                LoadOutcome::Close => old(self).closes_load(*final(self), fx@),
            },
    {
        match outcome {
            LoadOutcome::Consumed => Vec::new(),
            LoadOutcome::Run => self.request_load_run(),
            LoadOutcome::ConfirmedRun => self.start_load_run(),
            LoadOutcome::Cancel => self.cancel_load_run(now_ms),
            LoadOutcome::Close => self.close_load_runner(),
        }
    }
}

/// A result of a load run that was cancelled, started again or closed is dropped
/// when it comes.
pub proof fn law_stale_copy_is_dropped(
    a: App,
    b: App,
    run_generation: u64,
    index: usize,
    outcome: Result<LoadLanded, String>,
    latency: Latency,
    fx: Seq<Effect>,
)
    requires
        a.copy_lands(b, run_generation, index, outcome, latency, fx),
        a.load.runner matches Some(run) ==> run.run_generation != run_generation,
    ensures
        b == a,
        fx.len() == 0,
{
    reveal(App::copy_lands);
}

/// However a load run that is under way is cut short, it is recorded as that.
pub proof fn law_cut_short_run_is_recorded(a: App, b: App, now_ms: u64, fx: Seq<Effect>)
    requires
        a.has_history,
        a.load.runner is Some,
        a.load.runner->0.running,
        a.starts_load(b, fx) || a.cancels_load(b, now_ms, fx) || a.closes_load(b, fx),
    ensures
        fx.len() > 0,
        fx[0] matches Effect::WriteLoadSummary(s) && s.cancelled && s.url
            == a.load.runner->0.url && s.stats == a.load.runner->0.stats,
{
    reveal(App::starts_load);
    reveal(App::cancels_load);
    reveal(App::closes_load);
    if a.starts_load(b, fx) {
        let i = choose|i: Interrupt|
            {
                let first = a.interrupt_effects(i);
                &&& #[trigger] a.load.interrupt_asks(i)
                &&& match (a.load.interrupted().runner, a.load.request) {
                    (Some(run), Some(request)) => {
                        &&& fx.len() >= first.len()
                        &&& fx.take(first.len() as int) == first
                    },
                    _ => fx == first,
                }
            };
        assert(a.interrupt_effects(i)[0] is WriteLoadSummary);
        assert(fx[0] == fx.take(a.interrupt_effects(i).len() as int)[0]);
    }
}

/// A load run is of the request as it is edited: with the text of the editor as its body.
pub proof fn law_load_run_takes_the_edited_body(a: App, b: App, fx: Seq<Effect>)
    requires
        a.opens_load(b, fx),
        a.buffers.loaded(),
    ensures
        b == a,
        fx.len() == 1,
        fx[0] matches Effect::Resolve { request, purpose, .. } && {
            let held = a.buffers.list@[a.buffers.active as int];
            let text = held.editor.spec_text();
            &&& held.endpoint.endpoint@.request.body matches Some(BodyView::Simple { kind, .. })
                ==> request@.body == Some(BodyView::Simple { kind, content: text })
            &&& held.endpoint.endpoint@.request.body is None && text.len() > 0 ==> request@.body
                == Some(BodyView::Simple { kind: BodyKind::Text, content: text })
            &&& request@.url == held.endpoint.endpoint@.request.url
            &&& request@.method == held.endpoint.endpoint@.request.method
            &&& request@.headers == held.endpoint.endpoint@.request.headers
            &&& request@.params == held.endpoint.endpoint@.request.params
            &&& request@.auth == held.endpoint.endpoint@.request.auth
            &&& purpose matches ResolveFor::Load { name, .. } && name@
                == held.endpoint.endpoint@.name
        },
{
    reveal(App::opens_load);
}

/// A run that starts has as many copies as were asked for, none of them sent, and no counts; its
/// request goes out with the limits of the run, with one copy at a time at least.
pub proof fn law_started_run_has_its_copies(a: App, b: App, fx: Seq<Effect>, i: int)
    requires
        a.starts_load(b, fx),
        a.load.runner is Some,
        a.load.request is Some,
        a.has_client,
    ensures
        b.load.runner matches Some(run) && {
            let cfg = a.load.runner->0.cfg;
            &&& run.cfg == cfg
            &&& run.results@.len() == cfg.total
            &&& 0 <= i < cfg.total ==> run.results@[i].status is Pending && run.results@[i].total_ms
                is None
            &&& run.completed == 0 && run.stats.ok == 0 && run.stats.failed == 0
                && run.stats.errored == 0
            &&& run.running <==> cfg.total > 0
            &&& run.finished <==> cfg.total == 0
            &&& !run.cancelled
            &&& run.run_generation != a.load.runner->0.run_generation
            &&& cfg.total > 0 ==> fx.len() > 0 && (fx.last() matches Effect::LaunchLoad {
                run_generation,
                request,
                cfg: sent,
            } && run_generation == run.run_generation && request@ == a.load.request->0@
                && sent.total == cfg.total && sent.interval_ns == cfg.interval_ns
                && sent.concurrency == (if cfg.concurrency == 0 {
                1
            } else {
                cfg.concurrency
            }))
        },
{
    reveal(App::starts_load);
}

/// A run that the limits refuse does not start, and that is said; one that they warn of asks
/// first; any other starts.
pub proof fn law_limits_are_obeyed(a: App, b: App, check: LoadCheck, fx: Seq<Effect>)
    requires
        a.load_judged(b, check, fx),
        a.load.runner is Some,
    ensures
        check matches LoadCheck::Refuse(reason) ==> b.load == a.load && fx.len() == 0 && b.message
            == Some(Notice::LoadRefused { reason }),
        check is Warn ==> fx.len() == 0 && (b.load.runner matches Some(run) && run.pending_confirm
            is Some && run.running == a.load.runner->0.running && run.results
            == a.load.runner->0.results),
        check is Fine ==> a.starts_load(b, fx),
{
    reveal(App::load_judged);
}

/// A copy that was sent is shown as in flight where it was not yet; every other row stays.
pub proof fn law_sent_copy_is_in_flight(
    a: App,
    b: App,
    run_generation: u64,
    index: usize,
    now_ms: u64,
    i: int,
)
    requires
        a.copy_starts(b, run_generation, index, now_ms),
        a.load.runner is Some,
        0 <= i < a.load.runner->0.results@.len(),
    ensures
        b.load.runner matches Some(run) && {
            let before = a.load.runner->0;
            let starts = run_generation == before.run_generation && i == index
                && before.results@[i].status is Pending;
            &&& run.results@.len() == before.results@.len()
            &&& starts ==> run.results@[i].status is Running && (run.results@[i].response matches
                ResponseState::InFlight { started_ms } && started_ms == now_ms)
            &&& !starts ==> run.results@[i] == before.results@[i]
            &&& run.stats == before.stats
            &&& run.completed == before.completed
        },
{
    reveal(App::copy_starts);
}

/// The result of a copy of the run under way goes to its row: a response of 400 or more is a
/// failure, a lower one is not, and no response is an error. The other rows stay. A run whose
/// copies all have a result is over, and is recorded as one that was not cut short.
pub proof fn law_copy_result_is_judged_and_counted(
    a: App,
    b: App,
    index: usize,
    outcome: Result<LoadLanded, String>,
    latency: Latency,
    fx: Seq<Effect>,
    i: int,
)
    requires
        a.load.runner is Some,
        index < a.load.runner->0.results@.len(),
        a.copy_lands(b, a.load.runner->0.run_generation, index, outcome, latency, fx),
        0 <= i < a.load.runner->0.results@.len(),
    ensures
        b.load.runner matches Some(run) && {
            let before = a.load.runner->0;
            let row = run.results@[index as int];
            let over = forall|k: int|
                0 <= k < run.results@.len() ==> (#[trigger] run.results@[k]).status is Passed
                    || run.results@[k].status is Failed || run.results@[k].status is Error;
            &&& outcome matches Ok(l) ==> (l.status >= 400 ==> row.status == LoadStatus::Failed(
                l.status,
            )) && (l.status < 400 ==> row.status == LoadStatus::Passed(l.status)) && row.total_ms
                == Some(l.total_ms)
            &&& outcome matches Err(e) ==> row.status == LoadStatus::Error(e)
            &&& i != index ==> run.results@[i] == before.results@[i]
            &&& run.stats.latency == latency
            &&& over ==> run.finished && !run.running && !b.load.in_flight
            &&& !over ==> run.running == before.running && run.finished == before.finished
                && fx.len() == 0
            &&& over && a.has_history ==> fx.len() == 1 && (fx[0] matches Effect::WriteLoadSummary(
                s,
            ) && !s.cancelled && s.stats == run.stats && s.url == run.url && s.concurrency
                == run.cfg.concurrency)
        },
{
    reveal(App::copy_lands);
    let run = b.load.runner->0;
    crate::load::law_completed_rows(run.results@);
    crate::load::lemma_counts_bound(run.results@);
}

/// A cancelled run is over: the copies that had no result are shown as cancelled, with the time
/// that they took where they were in flight, its sends are aborted, and a run that was under way
/// is recorded as cut short.
pub proof fn law_cancelled_run_is_over(a: App, b: App, now_ms: u64, fx: Seq<Effect>, i: int)
    requires
        a.cancels_load(b, now_ms, fx),
        a.load.runner is Some,
        0 <= i < a.load.runner->0.results@.len(),
    ensures
        b.load.runner matches Some(run) && {
            let before = a.load.runner->0;
            let was = before.results@[i];
            let now = run.results@[i];
            &&& run.finished && run.cancelled && !run.running
            &&& run.run_generation != before.run_generation
            &&& was.status is Pending || was.status is Running ==> now.status is Cancelled
            &&& was.status is Passed || was.status is Failed || was.status is Error
                || was.status is Cancelled ==> now == was
            &&& was.status is Running ==> (was.response matches ResponseState::InFlight { started_ms }
                ==> now.total_ms == Some(
                (if now_ms >= started_ms {
                    now_ms - started_ms
                } else {
                    0
                }) as u64,
            ) && now.response is Cancelled)
            &&& a.load.in_flight ==> fx.len() > 0 && fx.last() == Effect::AbortLoad
            &&& !a.load.in_flight && !(before.running && a.has_history) ==> fx.len() == 0
            &&& before.running && a.has_history ==> fx.len() > 0 && (fx[0] matches
                Effect::WriteLoadSummary(s) && s.cancelled)
            &&& b.message == Some(Notice::LoadRunCancelled)
            &&& !b.load.in_flight
        },
{
    reveal(App::cancels_load);
}

/// A run that is closed leaves nothing behind: no run, no request, and the main screen.
pub proof fn law_closed_run_leaves_nothing(a: App, b: App, fx: Seq<Effect>)
    requires
        a.closes_load(b, fx),
    ensures
        b.load.runner is None,
        b.load.request is None,
        !b.load.in_flight,
        b.mode == Mode::Normal,
        b.buffers == a.buffers,
        a.load.in_flight ==> fx.len() > 0 && fx.last() == Effect::AbortLoad,
{
    reveal(App::closes_load);
}

/// A run that waits for an answer asks how many requests are to go out, how many at once, and
/// where to; the limits are asked about with what the run has.
pub proof fn law_load_question_names_the_run(
    a: App,
    cfg: LoadConfig,
    url: Seq<char>,
    reason: Seq<char>,
)
    ensures
        crate::load::confirm_question(cfg, url, reason) == "Fire "@ + crate::text::decimal(
            cfg.total as nat,
        ) + " requests at concurrency "@ + crate::text::decimal(cfg.concurrency as nat)
            + " against "@ + url + "?  ("@ + reason + ")"@,
        a.load.runner matches Some(run) ==> a.asks_load() == seq![Effect::CheckLoad(run.cfg)],
        a.load.runner is None ==> a.asks_load().len() == 0,
{
}

} // verus!
