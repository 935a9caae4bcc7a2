//! The sequence surface and the load surface in the application.

use vstd::prelude::*;

use crate::app::{App, Component, DiskWork, Effect, Surface};
use crate::keys::{Key, KeyEvent};
use crate::mode::{ConfirmPurpose, Mode, PromptPurpose, SeqView};
use crate::model::Content;
use crate::notice::Notice;
use crate::response::{try_route_runner_response_key, ResponseState};
use crate::sending::rel_path;
use crate::sequence::{
    failed_step, fresh_run, kept_captures, law_only_listed_captures_are_kept, next_step,
    outcome_captured, outcome_result, Flip, OnError, Prepared, Sequence, SequenceEditor,
    SequenceRunner, SequenceSurface, StepEffect, StepLanded, StepResult, StepStatus,
};
use crate::text::texts;
use crate::vars::session_of;

verus! {

impl App {
    /// What is asked for before a step of the run is sent: it is to be made ready,
    /// with the variables as they are now. Without a workspace, a run or such a
    /// step nothing is asked for.
    pub open spec fn drives(self, index: usize, fx: Seq<Effect>) -> bool {
        match (self.workspace, self.sequence.runner) {
            (Some(ws), Some(run)) => if index < run.steps@.len() {
                &&& fx.len() == 1
                &&& fx[0] matches Effect::PrepareStep {
                    run_generation,
                    index: i,
                    root,
                    step,
                    extracted,
                    scopes,
                } && run_generation == run.run_generation && i == index && root == ws.root
                    && step.same_step(run.steps@[index as int].step) && extracted@
                    == run.extracted@ && self.run_scopes(scopes)
            } else {
                fx.len() == 0
            },
            _ => fx.len() == 0,
        }
    }

    /// What is asked for after a step: the step that runs next, if any does.
    pub open spec fn drives_next(self, next: Option<usize>, fx: Seq<Effect>) -> bool {
        match next {
            Some(i) => self.drives(i, fx),
            None => fx.len() == 0,
        }
    }

    /// Asks for a step of the run to be made ready.
    pub fn drive_sequence_step(&self, index: usize) -> (fx: Vec<Effect>)
        requires
            self.wf(),
        ensures
            self.drives(index, fx@),
    {
        match (&self.workspace, &self.sequence.runner) {
            (Some(ws), Some(run)) => {
                if index >= run.steps.len() {
                    return Vec::new();
                }
                vec![
                    Effect::PrepareStep {
                        run_generation: run.run_generation,
                        index,
                        root: ws.root.clone(),
                        step: run.steps[index].step.copy(),
                        extracted: run.extracted.copy(),
                        scopes: self.sequence_run_scopes(),
                    },
                ]
            },
            _ => Vec::new(),
        }
    }

    fn drive_next(&self, next: Option<usize>) -> (fx: Vec<Effect>)
        requires
            self.wf(),
        ensures
            self.drives_next(next, fx@),
    {
        match next {
            Some(i) => self.drive_sequence_step(i),
            None => Vec::new(),
        }
    }

    /// The run after it was started anew.
    pub open spec fn run_restarted(before: SequenceRunner, after: SequenceRunner) -> bool {
        &&& after.steps@.len() == before.steps@.len()
        &&& forall|i: int|
            0 <= i < before.steps@.len() ==> (#[trigger] after.steps@[i]).step
                == before.steps@[i].step && after.steps@[i].method == before.steps@[i].method
                && after.steps@[i].url == before.steps@[i].url && crate::sequence::fresh_row(
                after.steps@[i],
            )
        &&& after == (SequenceRunner {
            steps: after.steps,
            extracted: after.extracted,
            current: if before.steps@.len() > 0 {
                Some(0)
            } else {
                None
            },
            selected: 0,
            run_generation: crate::sequence::bumped(before.run_generation),
            finished: before.steps@.len() == 0,
            confirming_close: false,
            geometry: before.geometry.at_start(),
            ..before
        })
        &&& after.extracted@ == Map::<Seq<char>, Seq<char>>::empty()
    }

    /// What a step in flight is asked.
    pub open spec fn abort_step(on: bool) -> Seq<Effect> {
        if on {
            seq![Effect::AbortStep]
        } else {
            Seq::empty()
        }
    }

    fn abort_step_if(on: bool) -> (fx: Vec<Effect>)
        ensures
            fx@ == App::abort_step(on),
    {
        let mut fx: Vec<Effect> = Vec::new();
        if on {
            fx.push(Effect::AbortStep);
        }
        assert(fx@ =~= App::abort_step(on));
        fx
    }

    /// What a start of the run does: a step in flight is aborted, the rows are as
    /// at first, and the first step is to be made ready.
    #[verifier::opaque]
    pub open spec fn starts_run(self, after: App, fx: Seq<Effect>) -> bool {
        let abort = App::abort_step(self.sequence.in_flight);
        &&& fx.len() >= abort.len()
        &&& fx.take(abort.len() as int) == abort
        &&& after == (App {
            sequence: SequenceSurface {
                runner: after.sequence.runner,
                in_flight: false,
                ..self.sequence
            },
            ..self
        })
        &&& match self.sequence.runner {
            Some(run) => {
                &&& after.sequence.runner matches Some(new) && App::run_restarted(run, new)
                &&& if run.steps@.len() > 0 {
                    after.drives(0, fx.skip(abort.len() as int))
                } else {
                    fx.len() == abort.len()
                }
            },
            None => after.sequence.runner is None && fx.len() == abort.len(),
        }
    }

    /// Starts the run from the top, or starts it again.
    pub fn start_sequence_run(&mut self) -> (fx: Vec<Effect>)
        requires
            old(self).wf(),
        ensures
            old(self).starts_run(*final(self), fx@),
            final(self).wf(),
    {
        reveal(App::starts_run);
        let abort = self.sequence.take_flight();
        let mut fx = App::abort_step_if(abort);
        let ghost first = fx@;
        let mut drive = false;
        if let Some(run) = self.sequence.runner.as_mut() {
            drive = run.restart();
        }
        if drive {
            let mut more = self.drive_sequence_step(0);
            let ghost m = more@;
            fx.append(&mut more);
            assert(fx@.skip(first.len() as int) =~= m);
        }
        assert(fx@.take(first.len() as int) =~= first);
        fx
    }

    /// What opening a run over a sequence does: the surface shows the run, which
    /// starts.
    pub open spec fn opens_runner(
        self,
        after: App,
        name: String,
        path: String,
        sequence: Sequence,
        fx: Seq<Effect>,
    ) -> bool {
        exists|mid: App|
            {
                &&& mid.sequence.runner matches Some(run) && fresh_run(run, name, path, sequence)
                &&& mid == (App {
                    sequence: SequenceSurface {
                        runner: mid.sequence.runner,
                        view: SeqView::Run,
                        ..self.sequence
                    },
                    mode: Mode::Sequence,
                    ..self
                })
                &&& #[trigger] mid.starts_run(after, fx)
            }
    }

    /// Opens a run over a sequence and starts it.
    pub fn open_sequence_runner(&mut self, name: String, path: String, sequence: Sequence) -> (fx:
        Vec<Effect>)
        requires
            old(self).wf(),
        ensures
            old(self).opens_runner(*final(self), name, path, sequence, fx@),
            final(self).wf(),
    {
        self.sequence.open_runner(name, path, sequence);
        self.mode = Mode::Sequence;
        let ghost mid = *self;
        self.start_sequence_run()
    }

    /// What running the sequence under the cursor does.
    #[verifier::opaque]
    pub open spec fn runs_selected(self, after: App, fx: Seq<Effect>) -> bool {
        match self.explorer.sequence() {
            None => after == self.told(Notice::SelectSequenceFirst) && fx.len() == 0,
            Some(item) => exists|s: Sequence|
                s.same_sequence(item.sequence) && #[trigger] self.opens_runner(
                    after,
                    item.name,
                    item.file,
                    s,
                    fx,
                ),
        }
    }

    /// Runs the sequence under the cursor.
    pub fn run_selected_sequence(&mut self) -> (fx: Vec<Effect>)
        requires
            old(self).wf(),
        ensures
            old(self).runs_selected(*final(self), fx@),
            final(self).wf(),
    {
        reveal(App::runs_selected);
        let (name, file, sequence) = match self.explorer.selected_sequence() {
            Some(item) => (item.name.clone(), item.file.clone(), item.sequence.copy()),
            None => {
                self.message = Some(Notice::SelectSequenceFirst);
                return Vec::new();
            },
        };
        self.open_sequence_runner(name, file, sequence)
    }

    /// What is left of making a step ready: where that failed the step ends as one
    /// that got no response; else it is shown as running, and sent where requests
    /// can be sent.
    #[verifier::opaque]
    pub open spec fn step_made_ready(
        self,
        after: App,
        index: usize,
        prepared: Result<Prepared, String>,
        now_ms: u64,
        fx: Seq<Effect>,
    ) -> bool {
        match self.sequence.runner {
            None => after == self && fx.len() == 0,
            Some(run) => if index >= run.steps@.len() {
                after == self && fx.len() == 0
            } else {
                &&& after.sequence.runner is Some
                &&& match prepared {
                    Err(error) => {
                        let new = after.sequence.runner->0;
                        let result = StepResult::HttpError(error);
                        &&& exists|mid: SequenceRunner|
                            {
                                &&& mid == (SequenceRunner { steps: mid.steps, ..run })
                                &&& mid.steps@ == run.steps@.update(
                                    index as int,
                                    crate::sequence::StepRow {
                                        response: new.steps@[index as int].response,
                                        ..run.steps@[index as int]
                                    },
                                )
                                &&& #[trigger] crate::sequence::step_finished(
                                    mid,
                                    new,
                                    index,
                                    result,
                                )
                            }
                        &&& failed_step(
                            new.steps@[index as int].response,
                            error,
                            run.steps@[index as int].step.endpoint@,
                        )
                        &&& after == (App {
                            sequence: SequenceSurface {
                                runner: after.sequence.runner,
                                ..self.sequence
                            },
                            ..self
                        })
                        &&& after.drives_next(
                            next_step(run.steps@.len(), index as int, result, run.on_error),
                            fx,
                        )
                    },
                    Ok(p) => {
                        let new = after.sequence.runner->0;
                        &&& new.steps@ == run.steps@.update(
                            index as int,
                            crate::sequence::StepRow {
                                method: p.method,
                                url: p.url,
                                status: crate::sequence::StepStatus::Running,
                                response: crate::response::ResponseState::InFlight {
                                    started_ms: now_ms,
                                },
                                ..run.steps@[index as int]
                            },
                        )
                        &&& new == (SequenceRunner {
                            steps: new.steps,
                            selected: index,
                            geometry: run.geometry.at_start(),
                            ..run
                        })
                        &&& after == (App {
                            sequence: SequenceSurface {
                                runner: after.sequence.runner,
                                in_flight: self.has_client || self.sequence.in_flight,
                                ..self.sequence
                            },
                            ..self
                        })
                        &&& fx == (if self.has_client {
                            seq![
                                Effect::SendStep {
                                    run_generation: run.run_generation,
                                    index,
                                },
                            ]
                        } else {
                            Seq::empty()
                        })
                    },
                }
            },
        }
    }

    /// Takes in whether a step could be made ready.
    pub fn step_prepared(
        &mut self,
        index: usize,
        prepared: Result<Prepared, String>,
        now_ms: u64,
    ) -> (fx: Vec<Effect>)
        requires
            old(self).wf(),
        ensures
            old(self).step_made_ready(*final(self), index, prepared, now_ms, fx@),
            final(self).wf(),
    {
        reveal(App::step_made_ready);
        let (known, run_generation) = match &self.sequence.runner {
            Some(run) => (index < run.steps.len(), run.run_generation),
            None => (false, 0),
        };
        if !known {
            return Vec::new();
        }
        match prepared {
            Err(error) => {
                let mut next: Option<usize> = None;
                if let Some(run) = self.sequence.runner.as_mut() {
                    next = run.prepare_failed(index, error);
                }
                self.drive_next(next)
            },
            Ok(p) => {
                if let Some(run) = self.sequence.runner.as_mut() {
                    run.step_prepared(index, p, now_ms);
                }
                let mut fx: Vec<Effect> = Vec::new();
                if self.has_client {
                    self.sequence.in_flight = true;
                    fx.push(Effect::SendStep { run_generation, index });
                }
                assert(fx@ =~= (if self.has_client {
                    seq![Effect::SendStep { run_generation, index }]
                } else {
                    Seq::empty()
                }));
                fx
            },
        }
    }

    /// What the result of a step does: a result of another run changes nothing;
    /// else it is taken in, the captured values that are kept go to the session,
    /// and the step that runs next is to be made ready.
    #[verifier::opaque]
    pub open spec fn step_lands(
        self,
        after: App,
        run_generation: u64,
        index: usize,
        outcome: Result<StepLanded, String>,
        fx: Seq<Effect>,
    ) -> bool {
        match self.sequence.runner {
            None => after == self && fx.len() == 0,
            Some(run) => if run_generation != run.run_generation {
                after == self && fx.len() == 0
            } else if index >= run.steps@.len() {
                &&& after == (App {
                    sequence: SequenceSurface { in_flight: false, ..self.sequence },
                    ..self
                })
                &&& fx.len() == 0
            } else {
                &&& after.sequence.runner matches Some(new) && run.landed(new, index, outcome)
                &&& after.sequence == (SequenceSurface {
                    runner: after.sequence.runner,
                    in_flight: false,
                    ..self.sequence
                })
                &&& App { sequence: after.sequence, ..self }.captured(
                    after,
                    kept_captures(
                        outcome_captured(outcome),
                        run.steps@[index as int].step.persist@,
                    ),
                )
                &&& after.drives_next(
                    next_step(
                        run.steps@.len(),
                        index as int,
                        outcome_result(outcome),
                        run.on_error,
                    ),
                    fx,
                )
            },
        }
    }

    /// Takes in the result of a step.
    #[verifier::rlimit(40)]
    pub fn on_sequence_step(
        &mut self,
        run_generation: u64,
        index: usize,
        outcome: Result<StepLanded, String>,
    ) -> (fx: Vec<Effect>)
        requires
            old(self).wf(),
            outcome matches Ok(l) ==> l.extracted.wf(),
        ensures
            old(self).step_lands(*final(self), run_generation, index, outcome, fx@),
            final(self).wf(),
    {
        reveal(App::step_lands);
        let mut effect = StepEffect::Stale;
        if let Some(run) = self.sequence.runner.as_mut() {
            effect = run.on_sequence_step(run_generation, index, outcome);
        }
        match effect {
            StepEffect::Stale => Vec::new(),
            StepEffect::NoStep => {
                self.sequence.in_flight = false;
                Vec::new()
            },
            StepEffect::Landed { session, next } => {
                self.sequence.in_flight = false;
                self.write_session_vars(&session);
                self.drive_next(next)
            },
        }
    }

    /// What a cancel of the run does.
    #[verifier::opaque]
    pub open spec fn cancels_run(self, after: App, fx: Seq<Effect>) -> bool {
        &&& fx == App::abort_step(self.sequence.in_flight)
        &&& match self.sequence.runner {
            Some(run) => {
                &&& after.sequence.runner matches Some(new) && crate::sequence::run_cancelled(
                    run,
                    new,
                )
                &&& after == (App {
                    sequence: SequenceSurface {
                        runner: after.sequence.runner,
                        in_flight: false,
                        ..self.sequence
                    },
                    message: Some(Notice::RunCancelled),
                    ..self
                })
            },
            None => after == (App {
                sequence: SequenceSurface { in_flight: false, ..self.sequence },
                ..self
            }),
        }
    }

    /// Cancels the run.
    pub fn cancel_sequence_run(&mut self) -> (fx: Vec<Effect>)
        requires
            old(self).wf(),
        ensures
            old(self).cancels_run(*final(self), fx@),
            final(self).wf(),
    {
        reveal(App::cancels_run);
        let abort = self.sequence.take_flight();
        let mut known = false;
        if let Some(run) = self.sequence.runner.as_mut() {
            run.cancel();
            known = true;
        }
        if known {
            self.message = Some(Notice::RunCancelled);
        }
        App::abort_step_if(abort)
    }

    /// The state with the sequence surface closed.
    pub open spec fn surface_closed(self) -> App {
        App { sequence: SequenceSurface::closed(), mode: Mode::Normal, ..self }
    }

    /// Closes the sequence surface; a step in flight is aborted.
    pub fn close_sequence_surface(&mut self) -> (fx: Vec<Effect>)
        ensures
            *final(self) == old(self).surface_closed(),
            fx@ == App::abort_step(old(self).sequence.in_flight),
            old(self).wf() ==> final(self).wf(),
    {
        let abort = self.sequence.close();
        self.mode = Mode::Normal;
        App::abort_step_if(abort)
    }

    /// What a flip of the faces of the surface does.
    #[verifier::opaque]
    pub open spec fn flips(
        self,
        after: App,
        checked: Result<Sequence, String>,
        fx: Seq<Effect>,
    ) -> bool {
        let s = self.sequence;
        if s.view == SeqView::Run {
            match (s.editor, s.runner) {
                (Some(_), _) => after == (App {
                    sequence: SequenceSurface { view: SeqView::Edit, ..s },
                    ..self
                }) && fx.len() == 0,
                (None, Some(run)) => after == self && fx == seq![
                    Effect::Disk(DiskWork::LoadSequenceForFlip(run.path)),
                ],
                (None, None) => after == self && fx.len() == 0,
            }
        } else {
            match s.editor {
                None => after == self && fx.len() == 0,
                Some(e) => if e.dirty {
                    after == self.told(Notice::SaveBeforeRunning) && fx.len() == 0
                } else {
                    match checked {
                        Err(text) => after == self.told(Notice::Text { text }) && fx.len() == 0,
                        Ok(q) => {
                            &&& fx == App::abort_step(s.in_flight)
                            &&& after.sequence.runner matches Some(run) && fresh_run(
                                run,
                                e.name,
                                e.path,
                                q,
                            )
                            &&& after == (App {
                                sequence: SequenceSurface {
                                    runner: after.sequence.runner,
                                    view: SeqView::Run,
                                    in_flight: false,
                                    ..s
                                },
                                ..self
                            })
                        },
                    }
                },
            }
        }
    }

    /// Flips the faces of the surface; `checked` is the sequence as the editor
    /// holds it, or why it does not hold.
    pub fn toggle_sequence_view(&mut self, checked: Result<Sequence, String>) -> (fx: Vec<Effect>)
        requires
            old(self).wf(),
        ensures
            old(self).flips(*final(self), checked, fx@),
            final(self).wf(),
    {
        reveal(App::flips);
        match self.sequence.toggle_sequence_view(checked) {
            Flip::Done => {
                let fx: Vec<Effect> = Vec::new();
                assert(fx@ =~= App::abort_step(false));
                fx
            },
            Flip::Abort => App::abort_step_if(true),
            Flip::Load(path) => {
                let fx = vec![Effect::Disk(DiskWork::LoadSequenceForFlip(path))];
                assert(fx@ =~= seq![Effect::Disk(DiskWork::LoadSequenceForFlip(path))]);
                fx
            },
            Flip::Refused(n) => {
                self.message = Some(n);
                Vec::new()
            },
        }
    }

    /// The endpoints' files relative to the workspace, those in it.
    pub open spec fn rel_files(root: Seq<char>, files: Seq<String>) -> Seq<Seq<char>>
        decreases files.len(),
    {
        if files.len() == 0 {
            Seq::empty()
        } else {
            let before = App::rel_files(root, files.drop_last());
            match rel_path(root, files.last()@) {
                Some(p) => before.push(p),
                None => before,
            }
        }
    }

    /// The endpoints that a step can be of.
    pub open spec fn step_choices(&self) -> Seq<Seq<char>> {
        match self.workspace {
            Some(ws) => App::rel_files(ws.root@, self.explorer.endpoint_files@),
            None => Seq::empty(),
        }
    }

    /// The endpoints that a step can be of: their files, relative to the workspace.
    pub fn endpoint_rel_paths(&self) -> (r: Vec<String>)
        ensures
            texts(r@) == self.step_choices(),
    {
        let mut out: Vec<String> = Vec::new();
        assert(texts(out@) =~= Seq::<Seq<char>>::empty());
        if let Some(ws) = &self.workspace {
            let ghost root = ws.root@;
            let ghost files = self.explorer.endpoint_files@;
            let mut i: usize = 0;
            assert(files.take(0) =~= Seq::empty());
            while i < self.explorer.endpoint_files.len()
                invariant
                    i <= self.explorer.endpoint_files.len(),
                    files == self.explorer.endpoint_files@,
                    root == ws.root@,
                    texts(out@) == App::rel_files(root, files.take(i as int)),
                decreases self.explorer.endpoint_files.len() - i,
            {
                assert(files.take(i + 1).drop_last() =~= files.take(i as int));
                let ghost before = out@;
                if let Some(p) = crate::paths::strip_prefix(
                    self.explorer.endpoint_files[i].as_str(),
                    ws.root.as_str(),
                ) {
                    out.push(p);
                    assert(texts(out@) =~= texts(before).push(p@));
                }
                i = i + 1;
            }
            assert(files.take(files.len() as int) =~= files);
        }
        out
    }

    /// What putting a sequence into the editor does.
    pub open spec fn opens_editor(
        self,
        after: App,
        name: String,
        path: String,
        fx: Seq<Effect>,
    ) -> bool {
        &&& after == (App {
            sequence: SequenceSurface {
                editor: Some(SequenceEditor { name, path, dirty: false }),
                runner: None,
                view: SeqView::Edit,
                ..self.sequence
            },
            mode: Mode::Sequence,
            ..self
        })
        &&& fx.len() == 1
        &&& fx[0] matches Effect::EditSequence { path: p, endpoints } && p == path && texts(
            endpoints@,
        ) == self.step_choices()
    }

    /// Puts a sequence into the editor, with no run built.
    pub fn open_sequence_editor(&mut self, name: String, path: String) -> (fx: Vec<Effect>)
        requires
            old(self).wf(),
        ensures
            old(self).opens_editor(*final(self), name, path, fx@),
            final(self).wf(),
    {
        let endpoints = self.endpoint_rel_paths();
        let fx = vec![Effect::EditSequence { path: path.clone(), endpoints }];
        self.sequence.open_editor(name, path);
        self.mode = Mode::Sequence;
        fx
    }

    /// Ends a flip that waited for the file of the run.
    pub fn sequence_loaded_for_flip(&mut self, loaded: Result<String, String>) -> (fx: Vec<Effect>)
        requires
            old(self).wf(),
        ensures
            final(self).wf(),
            match old(self).sequence.runner {
                None => *final(self) == *old(self) && fx@.len() == 0,
                Some(run) => match loaded {
                    Ok(name) => {
                        &&& *final(self) == (App {
                            sequence: SequenceSurface {
                                editor: Some(
                                    SequenceEditor { name, path: run.path, dirty: false },
                                ),
                                view: SeqView::Edit,
                                ..old(self).sequence
                            },
                            ..*old(self)
                        })
                        &&& fx@.len() == 1
                        &&& fx@[0] matches Effect::EditSequence { path, endpoints } && path
                            == run.path && texts(endpoints@) == old(self).step_choices()
                    },
                    Err(err) => *final(self) == old(self).told(Notice::CannotEditSequence { err })
                        && fx@.len() == 0,
                },
            },
    {
        let path = match &self.sequence.runner {
            Some(run) => run.path.clone(),
            None => {
                return Vec::new();
            },
        };
        match self.sequence.sequence_loaded(loaded) {
            Some(n) => {
                self.message = Some(n);
                Vec::new()
            },
            None => {
                let endpoints = self.endpoint_rel_paths();
                vec![Effect::EditSequence { path, endpoints }]
            },
        }
    }

    /// What the prompt for a new sequence does.
    pub open spec fn prompts_sequence(self, after: App) -> bool {
        if self.workspace is None {
            after == self.told(Notice::OpenWorkspaceFirst)
        } else {
            self.prompted(after, PromptPurpose::NewSequence, Seq::empty())
        }
    }

    /// Asks for the name of a new sequence.
    pub fn new_sequence_prompt(&mut self)
        requires
            old(self).wf(),
        ensures
            old(self).prompts_sequence(*final(self)),
            final(self).wf(),
    {
        if self.workspace.is_none() {
            self.message = Some(Notice::OpenWorkspaceFirst);
            return;
        }
        proof {
            reveal_strlit("");
            assert(""@ =~= Seq::empty());
        }
        self.open_prompt(PromptPurpose::NewSequence, "");
    }

    /// What editing the sequence under the cursor does; without one, a new one is
    /// asked for.
    #[verifier::opaque]
    pub open spec fn edits_selected(self, after: App, fx: Seq<Effect>) -> bool {
        if self.workspace is None {
            after == self.told(Notice::OpenWorkspaceFirst) && fx.len() == 0
        } else {
            match self.explorer.sequence() {
                Some(item) => self.opens_editor(after, item.name, item.file, fx),
                None => self.prompts_sequence(after) && fx.len() == 0,
            }
        }
    }

    /// Edits the sequence under the cursor.
    pub fn edit_selected_sequence(&mut self) -> (fx: Vec<Effect>)
        requires
            old(self).wf(),
        ensures
            old(self).edits_selected(*final(self), fx@),
            final(self).wf(),
    {
        reveal(App::edits_selected);
        if self.workspace.is_none() {
            self.message = Some(Notice::OpenWorkspaceFirst);
            return Vec::new();
        }
        let (name, file) = match self.explorer.selected_sequence() {
            Some(item) => (item.name.clone(), item.file.clone()),
            None => {
                self.new_sequence_prompt();
                return Vec::new();
            },
        };
        self.open_sequence_editor(name, file)
    }

    /// Takes in a sequence that was picked to be edited: the cursor goes to it.
    pub fn open_picked_sequence(&mut self, path: String, loaded: Result<String, String>) -> (fx: Vec<
        Effect,
    >)
        requires
            old(self).wf(),
        ensures
            final(self).wf(),
            match loaded {
                Ok(name) => old(self).on_sequence_file(path@).opens_editor(
                    *final(self),
                    name,
                    path,
                    fx@,
                ),
                Err(err) => *final(self) == old(self).told(Notice::CrudError { err }) && fx@.len()
                    == 0,
            },
    {
        match loaded {
            Ok(name) => {
                self.explorer.select_sequence_file(&path);
                self.open_sequence_editor(name, path)
            },
            Err(err) => {
                self.message = Some(Notice::CrudError { err });
                Vec::new()
            },
        }
    }

    /// The state with the cursor on the sequence of a file.
    pub open spec fn on_sequence_file(self, path: Seq<char>) -> App {
        App {
            explorer: crate::explorer::Explorer {
                seq_cursor: if crate::explorer::sequence_at(self.explorer.sequences@, path)
                    < self.explorer.sequences@.len() {
                    crate::explorer::sequence_at(self.explorer.sequences@, path) as usize
                } else {
                    self.explorer.seq_cursor
                },
                ..self.explorer
            },
            ..self
        }
    }

    /// Takes in a sequence that was picked to be run: the cursor goes to it.
    pub fn run_sequence_at(&mut self, path: String, loaded: Result<Sequence, String>) -> (fx: Vec<
        Effect,
    >)
        requires
            old(self).wf(),
        ensures
            final(self).wf(),
            match loaded {
                Ok(s) => old(self).on_sequence_file(path@).opens_runner(
                    *final(self),
                    s.name,
                    path,
                    s,
                    fx@,
                ),
                Err(err) => *final(self) == old(self).told(Notice::CrudError { err }) && fx@.len()
                    == 0,
            },
    {
        match loaded {
            Ok(sequence) => {
                self.explorer.select_sequence_file(&path);
                let name = sequence.name.clone();
                self.open_sequence_runner(name, path, sequence)
            },
            Err(err) => {
                self.message = Some(Notice::CrudError { err });
                Vec::new()
            },
        }
    }

    /// What asking to delete the sequence under the cursor does.
    pub open spec fn asks_delete_sequence(self) -> App {
        if self.explorer.sequence() is None {
            self.told(Notice::SelectSequenceFirst)
        } else {
            self.in_mode(Mode::Confirm(ConfirmPurpose::DeleteSequence))
        }
    }

    /// Asks whether the sequence under the cursor is to be deleted.
    pub fn begin_delete_sequence(&mut self)
        ensures
            *final(self) == old(self).asks_delete_sequence(),
            old(self).wf() ==> final(self).wf(),
    {
        if self.explorer.selected_sequence().is_none() {
            self.message = Some(Notice::SelectSequenceFirst);
            return;
        }
        self.mode = Mode::Confirm(ConfirmPurpose::DeleteSequence);
    }
}

/// What the editor of a sequence answers to a key.
#[derive(Debug, Clone, Copy, PartialEq, Eq, Structural)]
pub enum EditorOutcome {
    /// It took the key; there are now edits that were not saved, or not.
    Consumed {
        /// Whether there are edits that were not saved.
        dirty: bool,
    },
    /// The sequence is to be saved.
    Save,
    /// The sequence is to be saved and the surface closed.
    SaveAndClose,
    /// The surface is to be closed.
    Close,
}

/// What the list of a run answers to a key.
#[derive(Debug, Clone, Copy, PartialEq, Eq, Structural)]
pub enum RunnerOutcome {
    /// It took the key.
    Consumed,
    /// The run is to start again.
    Rerun,
    /// The run is to be cancelled.
    Cancel,
    /// The surface is to be closed.
    Close,
}

impl App {
    /// What a key does on the sequence surface: Control and `r` flips the faces;
    /// any other key goes to the face that is shown, and on the run face to the
    /// viewer first. Without what the face shows the surface closes.
    #[verifier::opaque]
    pub open spec fn sequence_keyed(
        self,
        after: App,
        key: KeyEvent,
        on_response: bool,
        line: Option<usize>,
        checked: Result<Sequence, String>,
        fx: Seq<Effect>,
    ) -> bool {
        if key.spec_is_ctrl('r') {
            self.flips(after, checked, fx)
        } else if self.sequence.view == SeqView::Edit {
            if self.sequence.editor is None {
                after == self.surface_closed() && fx == App::abort_step(self.sequence.in_flight)
            } else {
                after == self && fx == seq![Effect::ComponentKey(Component::SequenceEditor, key)]
            }
        } else if self.sequence.runner is None {
            after == self.surface_closed() && fx == App::abort_step(self.sequence.in_flight)
        } else {
            match self.keymap.spec_lookup_ctx(key, crate::pane::PaneCtx::Response) {
                Some(action) if on_response && crate::response::is_response_action(action) =>
                    self.acts_on_view(after, Surface::Step, action, line, fx),
                _ => after == self && fx == seq![
                    Effect::ComponentKey(Component::SequenceRunner, key),
                ],
            }
        }
    }

    /// Handles a key on the sequence surface. `on_response` is whether the
    /// response of the run has the keyboard, and `line` the line under its cursor;
    /// `checked` is the sequence as the editor holds it.
    pub fn handle_sequence_key(
        &mut self,
        key: KeyEvent,
        on_response: bool,
        line: Option<usize>,
        checked: Result<Sequence, String>,
    ) -> (fx: Vec<Effect>)
        requires
            old(self).wf(),
        ensures
            old(self).sequence_keyed(*final(self), key, on_response, line, checked, fx@),
            final(self).wf(),
    {
        reveal(App::sequence_keyed);
        if key.is_ctrl('r') {
            return self.toggle_sequence_view(checked);
        }
        match self.sequence.view {
            SeqView::Edit => {
                if self.sequence.editor.is_none() {
                    return self.close_sequence_surface();
                }
                let fx = vec![Effect::ComponentKey(Component::SequenceEditor, key)];
                assert(fx@ =~= seq![Effect::ComponentKey(Component::SequenceEditor, key)]);
                fx
            },
            SeqView::Run => {
                if self.sequence.runner.is_none() {
                    return self.close_sequence_surface();
                }
                match try_route_runner_response_key(&self.keymap, on_response, key) {
                    Some(action) => self.view_action(Surface::Step, action, line),
                    None => {
                        let fx = vec![Effect::ComponentKey(Component::SequenceRunner, key)];
                        assert(fx@ =~= seq![
                            Effect::ComponentKey(Component::SequenceRunner, key),
                        ]);
                        fx
                    },
                }
            },
        }
    }

    /// What saving the sequence in the editor asks for: it is to be checked and
    /// written. Without an editor nothing is.
    pub open spec fn saves_sequence(self, close: bool, fx: Seq<Effect>) -> bool {
        match self.sequence.editor {
            Some(e) => fx == seq![Effect::Disk(DiskWork::SaveSequence { path: e.path, close })],
            None => fx.len() == 0,
        }
    }

    /// Saves the sequence in the editor; `close` is whether the surface closes after it.
    pub fn save_sequence_editor(&self, close: bool) -> (fx: Vec<Effect>)
        ensures
            self.saves_sequence(close, fx@),
    {
        match &self.sequence.editor {
            Some(e) => {
                let fx = vec![
                    Effect::Disk(DiskWork::SaveSequence { path: e.path.clone(), close }),
                ];
                assert(fx@ =~= seq![Effect::Disk(DiskWork::SaveSequence { path: e.path, close })]);
                fx
            },
            None => Vec::new(),
        }
    }

    /// Acts on what the editor of a sequence answered to a key.
    pub fn sequence_editor_answered(&mut self, outcome: EditorOutcome) -> (fx: Vec<Effect>)
        requires
            old(self).wf(),
        ensures
            final(self).wf(),
            match outcome {
                EditorOutcome::Consumed { dirty } => {
                    &&& fx@.len() == 0
                    &&& *final(self) == (match old(self).sequence.editor {
                        Some(e) => App {
                            sequence: SequenceSurface {
                                editor: Some(SequenceEditor { dirty, ..e }),
                                ..old(self).sequence
                            },
                            ..*old(self)
                        },
                        None => *old(self),
                    })
                },
                EditorOutcome::Save => *final(self) == *old(self) && old(self).saves_sequence(
                    false,
                    fx@,
                ),
                EditorOutcome::SaveAndClose => *final(self) == *old(self)
                    && old(self).saves_sequence(true, fx@),
                EditorOutcome::Close => *final(self) == old(self).surface_closed() && fx@
                    == App::abort_step(old(self).sequence.in_flight),
            },
    {
        match outcome {
            EditorOutcome::Consumed { dirty } => {
                if let Some(e) = self.sequence.editor.as_mut() {
                    e.dirty = dirty;
                }
                Vec::new()
            },
            EditorOutcome::Save => self.save_sequence_editor(false),
            EditorOutcome::SaveAndClose => self.save_sequence_editor(true),
            EditorOutcome::Close => self.close_sequence_surface(),
        }
    }

    /// Acts on what the list of a run answered to a key.
    pub fn sequence_runner_answered(&mut self, outcome: RunnerOutcome) -> (fx: Vec<Effect>)
        requires
            old(self).wf(),
        ensures
            final(self).wf(),
            match outcome {
                RunnerOutcome::Consumed => *final(self) == *old(self) && fx@.len() == 0,
                RunnerOutcome::Rerun => old(self).starts_run(*final(self), fx@),
                RunnerOutcome::Cancel => old(self).cancels_run(*final(self), fx@),
                RunnerOutcome::Close => *final(self) == old(self).surface_closed() && fx@
                    == App::abort_step(old(self).sequence.in_flight),
            },
    {
        match outcome {
            RunnerOutcome::Consumed => Vec::new(),
            RunnerOutcome::Rerun => self.start_sequence_run(),
            RunnerOutcome::Cancel => self.cancel_sequence_run(),
            RunnerOutcome::Close => self.close_sequence_surface(),
        }
    }
}

/// A result of a run that was cancelled, started again or closed is dropped when
/// it comes.
pub proof fn law_stale_step_is_dropped(
    a: App,
    b: App,
    run_generation: u64,
    index: usize,
    outcome: Result<StepLanded, String>,
    fx: Seq<Effect>,
)
    requires
        a.step_lands(b, run_generation, index, outcome, fx),
        a.sequence.runner matches Some(run) ==> run.run_generation != run_generation,
    ensures
        b == a,
        fx.len() == 0,
{
    reveal(App::step_lands);
}

/// After a cancel, the result of the step that was in flight is dropped, and the
/// step in flight is aborted.
pub proof fn law_cancelled_run_takes_no_results(
    a: App,
    b: App,
    fx: Seq<Effect>,
    c: App,
    index: usize,
    outcome: Result<StepLanded, String>,
    more: Seq<Effect>,
)
    requires
        a.sequence.runner is Some,
        a.cancels_run(b, fx),
        b.step_lands(c, a.sequence.runner->0.run_generation, index, outcome, more),
    ensures
        c == b,
        more.len() == 0,
        a.sequence.in_flight ==> fx == seq![Effect::AbortStep],
        !b.sequence.in_flight,
{
    reveal(App::cancels_run);
    crate::sequence::law_bump_changes(a.sequence.runner->0.run_generation);
    law_stale_step_is_dropped(b, c, a.sequence.runner->0.run_generation, index, outcome, more);
}

/// Leaving the edit face for the run face never leaves a step of an earlier run in
/// flight.
pub proof fn law_flip_aborts_the_old_flight(
    a: App,
    b: App,
    checked: Result<Sequence, String>,
    fx: Seq<Effect>,
)
    requires
        a.sequence.view == SeqView::Edit,
        a.flips(b, checked, fx),
        b.sequence.view == SeqView::Run,
    ensures
        !b.sequence.in_flight,
        a.sequence.in_flight ==> fx == seq![Effect::AbortStep],
        b.sequence.runner matches Some(run) && run.current is None && !run.finished,
{
    reveal(App::flips);
}

/// What a step of the run under way captured goes to the session of the workspace where the
/// step's list of kept names holds the name, and only there: every other name has in the
/// session what it had before.
pub proof fn law_session_gets_the_listed_captures(
    a: App,
    b: App,
    index: usize,
    landed: StepLanded,
    fx: Seq<Effect>,
    name: Seq<char>,
)
    requires
        a.sequence.runner is Some,
        a.workspace is Some,
        index < a.sequence.runner->0.steps@.len(),
        a.step_lands(b, a.sequence.runner->0.run_generation, index, Ok(landed), fx),
    ensures
        ({
            let persist = a.sequence.runner->0.steps@[index as int].step.persist@;
            let kept = landed.extracted@.dom().contains(name) && exists|i: int|
                0 <= i < persist.len() && (#[trigger] persist[i])@ == name;
            let before = session_of(a.sessions.list@, a.workspace->0.key@);
            let after = session_of(b.sessions.list@, a.workspace->0.key@);
            &&& kept ==> after.dom().contains(name) && after[name] == landed.extracted@[name]
            &&& !kept ==> (after.dom().contains(name) <==> before.dom().contains(name))
            &&& !kept && before.dom().contains(name) ==> after[name] == before[name]
        }),
{
    reveal(App::step_lands);
    law_only_listed_captures_are_kept(
        landed.extracted@,
        a.sequence.runner->0.steps@[index as int].step.persist@,
        name,
    );
}

/// A step that failed to be sent leaves the sessions as they were.
pub proof fn law_failed_step_keeps_the_session(
    a: App,
    b: App,
    index: usize,
    error: String,
    fx: Seq<Effect>,
)
    requires
        a.sequence.runner is Some,
        a.workspace is Some,
        index < a.sequence.runner->0.steps@.len(),
        a.step_lands(b, a.sequence.runner->0.run_generation, index, Err(error), fx),
    ensures
        session_of(b.sessions.list@, a.workspace->0.key@) =~= session_of(
            a.sessions.list@,
            a.workspace->0.key@,
        ),
{
    reveal(App::step_lands);
}

/// A step that runs is made ready with what the steps before it captured in this run, and with
/// the variables of the workspace as they are now.
pub proof fn law_step_gets_what_was_captured(a: App, index: usize, fx: Seq<Effect>)
    requires
        a.drives(index, fx),
        a.workspace is Some,
        a.sequence.runner is Some,
        index < a.sequence.runner->0.steps@.len(),
    ensures
        fx.len() == 1,
        fx[0] matches Effect::PrepareStep { run_generation, index: i, root, step, extracted, scopes }
            && run_generation == a.sequence.runner->0.run_generation && i == index && root
            == a.workspace->0.root && step.endpoint@
            == a.sequence.runner->0.steps@[index as int].step.endpoint@ && extracted@
            == a.sequence.runner->0.extracted@ && scopes.session@ == session_of(
            a.sessions.list@,
            a.workspace->0.key@,
        ) && scopes.cli@ == a.cli_vars@ && scopes.workspace@ == a.workspace->0.vars@,
{
}

/// A run starts at its first step with every row as if it had not run, nothing captured, and a
/// number of its own.
pub proof fn law_run_starts_over(
    a: SequenceRunner,
    b: SequenceRunner,
    i: int,
    name: Seq<char>,
)
    requires
        App::run_restarted(a, b),
        0 <= i < a.steps@.len(),
    ensures
        b.steps@.len() == a.steps@.len(),
        b.current == Some(0usize),
        b.selected == 0,
        !b.finished,
        b.run_generation != a.run_generation,
        b.steps@[i].status is Pending,
        b.steps@[i].response is Idle,
        b.steps@[i].total_ms is None,
        b.steps@[i].step == a.steps@[i].step,
        !b.extracted@.dom().contains(name),
        b.on_error == a.on_error,
{
}

/// A step whose request could be made goes out under the number of the run, and its row shows
/// it; one whose request could not be made has failed and is not sent, and the run goes on to the
/// next step where failures do not end it.
pub proof fn law_ready_step_goes_out(
    a: App,
    b: App,
    index: usize,
    prepared: Result<Prepared, String>,
    now_ms: u64,
    fx: Seq<Effect>,
)
    requires
        a.step_made_ready(b, index, prepared, now_ms, fx),
        a.sequence.runner is Some,
        index < a.sequence.runner->0.steps@.len(),
    ensures
        b.sequence.runner is Some,
        b.sequence.runner->0.selected == index,
        prepared matches Ok(p) ==> {
            let row = b.sequence.runner->0.steps@[index as int];
            &&& row.status is Running
            &&& row.method == p.method
            &&& row.url == p.url
            &&& row.response matches ResponseState::InFlight { started_ms } && started_ms == now_ms
            &&& a.has_client ==> b.sequence.in_flight && fx == seq![
                Effect::SendStep { run_generation: a.sequence.runner->0.run_generation, index },
            ]
            &&& !a.has_client ==> fx.len() == 0
        },
        prepared matches Err(error) ==> {
            let run = b.sequence.runner->0;
            &&& run.steps@[index as int].status == StepStatus::HttpError(error)
            &&& run.on_error == OnError::Halt ==> run.finished && run.current is None && fx.len()
                == 0
            &&& run.on_error == OnError::Continue && index + 1 < run.steps@.len() ==> run.current
                == Some((index + 1) as usize)
        },
{
    reveal(App::step_made_ready);
}

/// A cancelled run is over, takes no more results, and the send of its step is aborted.
pub proof fn law_cancelled_sequence_is_over(a: App, b: App, fx: Seq<Effect>, i: int)
    requires
        a.cancels_run(b, fx),
        a.sequence.runner is Some,
        0 <= i < a.sequence.runner->0.steps@.len(),
    ensures
        a.sequence.in_flight ==> fx == seq![Effect::AbortStep],
        !a.sequence.in_flight ==> fx.len() == 0,
        !b.sequence.in_flight,
        b.message == Some(Notice::RunCancelled),
        b.sequence.runner matches Some(run) && run.finished && run.current is None
            && run.run_generation != a.sequence.runner->0.run_generation && {
            let was = a.sequence.runner->0.steps@[i];
            let now = run.steps@[i];
            &&& was.status is Pending || was.status is Running ==> now.status is Skipped
            &&& was.status is Running && was.response is InFlight ==> now.response is Cancelled
            &&& was.status is Passed || was.status is Failed ==> now == was
        },
{
    reveal(App::cancels_run);
    crate::sequence::law_cancel_leaves_no_open_step(
        a.sequence.runner->0,
        b.sequence.runner->0,
        i,
    );
}

/// A sequence whose editor has unsaved changes is not run: it is to be saved first.
pub proof fn law_unsaved_sequence_is_not_run(
    a: App,
    b: App,
    checked: Result<Sequence, String>,
    fx: Seq<Effect>,
)
    requires
        a.flips(b, checked, fx),
        !(a.sequence.view is Run),
        a.sequence.editor is Some,
    ensures
        a.sequence.editor->0.dirty ==> b.sequence == a.sequence && fx.len() == 0 && b.message
            == Some(Notice::SaveBeforeRunning),
        !a.sequence.editor->0.dirty && checked is Ok ==> b.sequence.view is Run && (
        b.sequence.runner matches Some(run) && run.name == a.sequence.editor->0.name && run.path
            == a.sequence.editor->0.path),
        !a.sequence.editor->0.dirty ==> (checked matches Err(text) ==> b.sequence == a.sequence
            && b.message == Some(Notice::Text { text })),
{
    reveal(App::flips);
}

/// The selected sequence is what is run, with its name, its file, its steps in order and what it
/// does on an error; without one that is said.
pub proof fn law_selected_sequence_is_run(a: App, b: App, fx: Seq<Effect>, i: int)
    requires
        a.runs_selected(b, fx),
    ensures
        a.explorer.seq_cursor >= a.explorer.sequences@.len() ==> fx.len() == 0 && b.message == Some(
            Notice::SelectSequenceFirst,
        ) && b.sequence == a.sequence,
        a.explorer.seq_cursor < a.explorer.sequences@.len() ==> {
            let item = a.explorer.sequences@[a.explorer.seq_cursor as int];
            &&& b.mode == Mode::Sequence
            &&& b.sequence.view is Run
            &&& b.sequence.runner matches Some(run) && run.name == item.name && run.path
                == item.file && run.on_error == item.sequence.on_error && run.steps@.len()
                == item.sequence.steps@.len() && (0 <= i < run.steps@.len()
                ==> run.steps@[i].step.endpoint == item.sequence.steps@[i].endpoint
                && run.steps@[i].step.persist@ == item.sequence.steps@[i].persist@
                && run.steps@[i].status is Pending)
        },
{
    reveal(App::runs_selected);
    reveal(App::starts_run);
    if a.explorer.seq_cursor < a.explorer.sequences@.len() {
        let item = a.explorer.sequences@[a.explorer.seq_cursor as int];
        let s = choose|s: Sequence|
            s.same_sequence(item.sequence) && #[trigger] a.opens_runner(
                b,
                item.name,
                item.file,
                s,
                fx,
            );
        let mid = choose|mid: App|
            {
                &&& mid.sequence.runner matches Some(run) && fresh_run(run, item.name, item.file, s)
                &&& mid == (App {
                    sequence: SequenceSurface {
                        runner: mid.sequence.runner,
                        view: SeqView::Run,
                        ..a.sequence
                    },
                    mode: Mode::Sequence,
                    ..a
                })
                &&& #[trigger] mid.starts_run(b, fx)
            };
        let run = mid.sequence.runner->0;
        let new = b.sequence.runner->0;
        if 0 <= i < new.steps@.len() {
            assert(new.steps@[i].step == run.steps@[i].step);
            assert(run.steps@[i].step.same_step(s.steps@[i]));
            assert(s.steps@[i].same_step(item.sequence.steps@[i]));
        }
    }
}

/// The selected sequence is what is edited, from its file and without unsaved changes; without
/// one a new one is asked for.
pub proof fn law_selected_sequence_is_edited(a: App, b: App, fx: Seq<Effect>)
    requires
        a.edits_selected(b, fx),
        a.workspace is Some,
    ensures
        a.explorer.seq_cursor < a.explorer.sequences@.len() ==> {
            let item = a.explorer.sequences@[a.explorer.seq_cursor as int];
            &&& b.mode == Mode::Sequence
            &&& b.sequence.view is Edit
            &&& b.sequence.editor matches Some(e) && e.name == item.name && e.path == item.file
                && !e.dirty
            &&& b.sequence.runner is None
            &&& fx.len() == 1
            &&& fx[0] matches Effect::EditSequence { path, .. } && path == item.file
        },
        a.explorer.seq_cursor >= a.explorer.sequences@.len() ==> b.mode == Mode::Prompt(
            PromptPurpose::NewSequence,
        ) && fx.len() == 0,
{
    reveal(App::edits_selected);
}

/// The cursor goes to the sequence of a file where there is one, and stays where there is none.
pub proof fn law_cursor_goes_to_the_sequence(a: App, path: Seq<char>)
    ensures
        ({
            let b = a.on_sequence_file(path);
            &&& b.explorer.sequences == a.explorer.sequences
            &&& b.explorer.cursor == a.explorer.cursor
            &&& (exists|i: int|
                0 <= i < a.explorer.sequences@.len() && (#[trigger] a.explorer.sequences@[i]).file@
                    == path) ==> b.explorer.seq_cursor < a.explorer.sequences@.len()
                && a.explorer.sequences@[b.explorer.seq_cursor as int].file@ == path
            &&& (forall|i: int|
                0 <= i < a.explorer.sequences@.len() ==> (
                #[trigger] a.explorer.sequences@[i]).file@ != path) ==> b.explorer.seq_cursor
                == a.explorer.seq_cursor
        }),
{
    crate::explorer::law_sequence_is_found_by_its_file(a.explorer.sequences@, path);
    assert(a.explorer.sequences.len() <= usize::MAX);
}

/// A delete of a sequence asks whether it is meant, and a save of one is to its own file.
pub proof fn law_sequence_is_asked_about_and_saved(a: App, close: bool, fx: Seq<Effect>)
    requires
        a.saves_sequence(close, fx),
    ensures
        a.explorer.seq_cursor < a.explorer.sequences@.len() ==> a.asks_delete_sequence().mode
            == Mode::Confirm(ConfirmPurpose::DeleteSequence),
        a.explorer.seq_cursor >= a.explorer.sequences@.len() ==> a.asks_delete_sequence().mode
            == a.mode,
        a.sequence.editor matches Some(e) ==> fx == seq![
            Effect::Disk(DiskWork::SaveSequence { path: e.path, close }),
        ],
        a.sequence.editor is None ==> fx.len() == 0,
{
}

/// In the surface of sequences Ctrl-R flips between the editor and the run, and any other key goes
/// to the one that is shown.
pub proof fn law_sequence_keys_go_to_what_is_shown(
    a: App,
    b: App,
    key: KeyEvent,
    line: Option<usize>,
    checked: Result<Sequence, String>,
    fx: Seq<Effect>,
)
    requires
        a.sequence_keyed(b, key, false, line, checked, fx),
    ensures
        key.code == Key::Char('r') && key.modifiers.control ==> a.flips(b, checked, fx),
        !key.modifiers.control && a.sequence.view is Edit && a.sequence.editor is Some ==> b == a
            && fx == seq![Effect::ComponentKey(Component::SequenceEditor, key)],
        !key.modifiers.control && a.sequence.view is Run && a.sequence.runner is Some ==> b == a
            && fx == seq![Effect::ComponentKey(Component::SequenceRunner, key)],
{
    reveal(App::sequence_keyed);
}

/// The step after one that passed is made ready with what that step captured, over what was
/// captured before it under the same name.
pub proof fn law_next_step_sees_the_captures(
    a: App,
    b: App,
    index: usize,
    landed: StepLanded,
    fx: Seq<Effect>,
    name: Seq<char>,
)
    requires
        a.sequence.runner is Some,
        a.workspace is Some,
        index + 1 < a.sequence.runner->0.steps@.len(),
        landed.result is Passed,
        a.step_lands(b, a.sequence.runner->0.run_generation, index, Ok(landed), fx),
    ensures
        fx.len() == 1,
        fx[0] matches Effect::PrepareStep { index: i, extracted, run_generation, .. } && i == index
            + 1 && run_generation == a.sequence.runner->0.run_generation && (
        landed.extracted@.dom().contains(name) ==> extracted@.dom().contains(name)
            && extracted@[name] == landed.extracted@[name]) && (
        !landed.extracted@.dom().contains(name) && a.sequence.runner->0.extracted@.dom().contains(
            name,
        ) ==> extracted@.dom().contains(name) && extracted@[name]
            == a.sequence.runner->0.extracted@[name]),
{
    reveal(App::step_lands);
    let run = b.sequence.runner->0;
    crate::sequence::law_captures_chain(a.sequence.runner->0, run, index, landed, name);
    crate::sequence::law_landed_step_is_shown_in_its_row(
        a.sequence.runner->0,
        run,
        index,
        Ok(landed),
        index as int,
    );
    assert(b.workspace == a.workspace);
    assert(a.sequence.runner->0.steps.len() <= usize::MAX);
}

/// A run ends with a step that did not pass where failures end it, and in no other case.
pub proof fn law_failure_ends_a_halting_run(result: StepResult)
    ensures
        crate::sequence::halts(result, OnError::Halt) <==> !(result is Passed),
        !crate::sequence::halts(result, OnError::Continue),
{
}

} // verus!
