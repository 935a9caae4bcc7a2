//! Sequences: lists of requests that run one after the other.

use vstd::prelude::*;

use crate::meta::sequence_step_meta;
use crate::mode::SeqView;
use crate::model::Method;
use crate::notice::Notice;
use crate::response::{Geometry, ResponseState, ResponseView};
use crate::vars::{pairs_map, Vars};

verus! {

/// What a run does after a step that failed.
#[derive(Debug, Clone, Copy, PartialEq, Eq, Structural)]
pub enum OnError {
    /// The run ends.
    Halt,
    /// The run goes on.
    Continue,
}

/// One step of a sequence.
#[derive(Debug)]
pub struct Step {
    /// Its place in the sequence.
    pub seq: u32,
    /// The endpoint's file, relative to the workspace.
    pub endpoint: String,
    /// What is captured from the response: a name and where it is found.
    pub extract: Vec<(String, String)>,
    /// The captured names that are kept for the session.
    pub persist: Vec<String>,
}

impl Step {
    /// A copy of `self`.
    pub fn copy(&self) -> (r: Step)
        ensures
            r.same_step(*self),
    {
        let mut extract: Vec<(String, String)> = Vec::new();
        let mut i: usize = 0;
        while i < self.extract.len()
            invariant
                i <= self.extract.len(),
                extract@ == self.extract@.take(i as int),
            decreases self.extract.len() - i,
        {
            extract.push((self.extract[i].0.clone(), self.extract[i].1.clone()));
            assert(extract@ =~= self.extract@.take(i + 1));
            i = i + 1;
        }
        assert(self.extract@.take(self.extract@.len() as int) =~= self.extract@);
        let mut persist: Vec<String> = Vec::new();
        let mut j: usize = 0;
        while j < self.persist.len()
            invariant
                j <= self.persist.len(),
                persist@ == self.persist@.take(j as int),
            decreases self.persist.len() - j,
        {
            persist.push(self.persist[j].clone());
            assert(persist@ =~= self.persist@.take(j + 1));
            j = j + 1;
        }
        assert(self.persist@.take(self.persist@.len() as int) =~= self.persist@);
        Step { seq: self.seq, endpoint: self.endpoint.clone(), extract, persist }
    }

    /// Whether two steps say the same.
    pub open spec fn same_step(self, other: Step) -> bool {
        &&& self.seq == other.seq
        &&& self.endpoint == other.endpoint
        &&& self.extract@ == other.extract@
        &&& self.persist@ == other.persist@
    }
}

/// A sequence, with its steps in the order in which they run.
#[derive(Debug)]
pub struct Sequence {
    /// Its name.
    pub name: String,
    /// What a run does after a step that failed.
    pub on_error: OnError,
    /// The steps in the order in which they run.
    pub steps: Vec<Step>,
}

impl Sequence {
    /// Whether two sequences say the same.
    pub open spec fn same_sequence(self, other: Sequence) -> bool {
        &&& self.name == other.name
        &&& self.on_error == other.on_error
        &&& self.steps@.len() == other.steps@.len()
        &&& forall|i: int|
            0 <= i < self.steps@.len() ==> (#[trigger] self.steps@[i]).same_step(other.steps@[i])
    }

    /// A copy of `self`.
    pub fn copy(&self) -> (r: Sequence)
        ensures
            r.same_sequence(*self),
    {
        let mut steps: Vec<Step> = Vec::new();
        let mut i: usize = 0;
        while i < self.steps.len()
            invariant
                i <= self.steps.len(),
                steps@.len() == i,
                forall|j: int| 0 <= j < i ==> (#[trigger] steps@[j]).same_step(self.steps@[j]),
            decreases self.steps.len() - i,
        {
            steps.push(self.steps[i].copy());
            i = i + 1;
        }
        Sequence { name: self.name.clone(), on_error: self.on_error, steps }
    }
}

/// How a step ended.
#[derive(Debug)]
pub enum StepResult {
    /// The response came, and what was asked of it was found.
    Passed {
        /// The status code.
        status: u16,
    },
    /// The response came with a status that counts as a failure.
    Failed {
        /// The status code.
        status: u16,
    },
    /// No response came.
    HttpError(String),
    /// What was to be captured was not found.
    ExtractError(String),
    /// The step did not run.
    Skipped,
}

/// What is shown of a step.
#[derive(Debug)]
pub enum StepStatus {
    /// It did not start yet.
    Pending,
    /// It runs.
    Running,
    /// The response came, and what was asked of it was found.
    Passed(u16),
    /// The response came with a status that counts as a failure.
    Failed(u16),
    /// No response came.
    HttpError(String),
    /// What was to be captured was not found.
    ExtractError(String),
    /// It did not run.
    Skipped,
}

impl StepStatus {
    /// What is shown of a step that ended.
    pub open spec fn of(result: StepResult) -> StepStatus {
        match result {
            StepResult::Passed { status } => StepStatus::Passed(status),
            StepResult::Failed { status } => StepStatus::Failed(status),
            StepResult::HttpError(e) => StepStatus::HttpError(e),
            StepResult::ExtractError(e) => StepStatus::ExtractError(e),
            StepResult::Skipped => StepStatus::Skipped,
        }
    }

    /// What is shown of a step that ended.
    pub fn from_result(result: &StepResult) -> (r: StepStatus)
        ensures
            r == StepStatus::of(*result),
    {
        match result {
            StepResult::Passed { status } => StepStatus::Passed(*status),
            StepResult::Failed { status } => StepStatus::Failed(*status),
            StepResult::HttpError(e) => StepStatus::HttpError(e.clone()),
            StepResult::ExtractError(e) => StepStatus::ExtractError(e.clone()),
            StepResult::Skipped => StepStatus::Skipped,
        }
    }

    /// Whether the step has yet to end.
    pub open spec fn open_ended(self) -> bool {
        self is Pending || self is Running
    }
}

/// Whether a run ends with this step: it failed, and failures end the run.
pub open spec fn halts(result: StepResult, on_error: OnError) -> bool {
    on_error == OnError::Halt && !(result is Passed)
}

/// Whether a run ends with this step.
pub fn should_halt(result: &StepResult, on_error: OnError) -> (r: bool)
    ensures
        r == halts(*result, on_error),
{
    on_error == OnError::Halt && !matches!(result, StepResult::Passed { .. })
}

/// One step of a run.
#[derive(Debug)]
pub struct StepRow {
    /// The step.
    pub step: Step,
    /// How far it is.
    pub status: StepStatus,
    /// The method of its request.
    pub method: Method,
    /// The URL of its request.
    pub url: String,
    /// How long the exchange took, in milliseconds.
    pub total_ms: Option<u64>,
    /// What was captured.
    pub extracted: Vars,
    /// The response and how it is shown.
    pub response: ResponseState,
}

/// A run of a sequence.
#[derive(Debug)]
pub struct SequenceRunner {
    /// The name of the sequence.
    pub name: String,
    /// The file of the sequence.
    pub path: String,
    /// What the run does after a step that failed.
    pub on_error: OnError,
    /// The steps.
    pub steps: Vec<StepRow>,
    /// The step that runs.
    pub current: Option<usize>,
    /// The step that is shown.
    pub selected: usize,
    /// Which run this is: a result of another run is dropped.
    pub run_generation: u64,
    /// Whether the run is over.
    pub finished: bool,
    /// Whether the user is asked if the run is to be closed.
    pub confirming_close: bool,
    /// What was captured in this run.
    pub extracted: Vars,
    /// The viewer's cursor and window.
    pub geometry: Geometry,
    /// The number of views that were built.
    pub view_gen: u64,
}

/// The number after another; the largest is followed by 0.
pub open spec fn bumped(n: u64) -> u64 {
    if n == u64::MAX {
        0
    } else {
        (n + 1) as u64
    }
}

/// The number after another; the largest is followed by 0.
pub fn bump(n: u64) -> (r: u64)
    ensures
        r == bumped(n),
{
    if n == u64::MAX {
        0
    } else {
        n + 1
    }
}

/// A request that is ready to be sent.
#[derive(Debug)]
pub struct Prepared {
    /// Its method.
    pub method: Method,
    /// Its URL.
    pub url: String,
}

/// A step's response, and what was found in it.
#[derive(Debug)]
pub struct StepLanded {
    /// How the step ended.
    pub result: StepResult,
    /// What was captured; nothing where the step failed.
    pub extracted: Vars,
    /// How long the exchange took, in milliseconds.
    pub total_ms: u64,
    /// The response and how it is shown.
    pub view: ResponseView,
}

/// What a result of a step did to the run.
#[derive(Debug)]
pub enum StepEffect {
    /// It was of another run, and was dropped.
    Stale,
    /// There is no such step.
    NoStep,
    /// It was taken in.
    Landed {
        /// What is kept for the session.
        session: Vars,
        /// The step that runs next.
        next: Option<usize>,
    },
}

/// The rows of a run that has not started.
pub open spec fn fresh_row(row: StepRow) -> bool {
    &&& row.status is Pending
    &&& row.total_ms is None
    &&& row.extracted@ == Map::<Seq<char>, Seq<char>>::empty()
    &&& row.extracted.wf()
    &&& row.response is Idle
}

/// The rows after a step ended: its status is shown, and where the run ends
/// with it the steps after it are skipped.
pub open spec fn rows_finished(
    rows: Seq<StepRow>,
    index: int,
    result: StepResult,
    on_error: OnError,
) -> Seq<StepRow> {
    Seq::new(
        rows.len(),
        |i: int|
            if i == index {
                StepRow { status: StepStatus::of(result), ..rows[i] }
            } else if i > index && halts(result, on_error) {
                StepRow { status: StepStatus::Skipped, ..rows[i] }
            } else {
                rows[i]
            },
    )
}

/// The step that runs after a step that ended, if any does.
pub open spec fn next_step(count: nat, index: int, result: StepResult, on_error: OnError) -> Option<
    usize,
> {
    if halts(result, on_error) || index + 1 >= count {
        None
    } else {
        Some((index + 1) as usize)
    }
}

/// The run after a step ended.
pub open spec fn step_finished(
    before: SequenceRunner,
    after: SequenceRunner,
    index: usize,
    result: StepResult,
) -> bool {
    let next = next_step(before.steps@.len(), index as int, result, before.on_error);
    &&& after.steps@ == rows_finished(before.steps@, index as int, result, before.on_error)
    &&& after == (SequenceRunner {
        steps: after.steps,
        selected: index,
        current: next,
        finished: next is None || before.finished,
        ..before
    })
}

/// What a response or a failure leaves in the row of its step.
pub open spec fn row_landed(
    row: StepRow,
    after: StepRow,
    outcome: Result<StepLanded, String>,
    view_gen: u64,
) -> bool {
    match outcome {
        Ok(l) => after == (StepRow {
            total_ms: Some(l.total_ms),
            extracted: l.extracted,
            response: ResponseState::Done {
                view: ResponseView { generation: view_gen, ..l.view },
            },
            ..row
        }),
        Err(e) => {
            &&& after == (StepRow {
                total_ms: None,
                extracted: after.extracted,
                response: after.response,
                ..row
            })
            &&& after.extracted@ == Map::<Seq<char>, Seq<char>>::empty()
            &&& failed_step(after.response, e, row.step.endpoint@)
        },
    }
}

/// A response that says that a step failed.
pub open spec fn failed_step(response: ResponseState, error: String, endpoint: Seq<char>) -> bool {
    response matches ResponseState::Failed { error: e, meta } && e == error && meta.method@.len()
        == 0 && meta.url@ == endpoint && (meta.endpoint_path matches Some(p) && p@ == endpoint)
}

/// How a step ended.
pub open spec fn outcome_result(outcome: Result<StepLanded, String>) -> StepResult {
    match outcome {
        Ok(l) => l.result,
        Err(e) => StepResult::HttpError(e),
    }
}

/// What was captured in a step.
pub open spec fn outcome_captured(outcome: Result<StepLanded, String>) -> Map<
    Seq<char>,
    Seq<char>,
> {
    match outcome {
        Ok(l) => l.extracted@,
        Err(_) => Map::empty(),
    }
}

/// Whether a name is in a list.
pub open spec fn listed(names: Seq<String>, name: Seq<char>) -> bool {
    exists|i: int| 0 <= i < names.len() && (#[trigger] names[i])@ == name
}

/// The captured values whose names are kept.
pub open spec fn kept_captures(captured: Map<Seq<char>, Seq<char>>, persist: Seq<String>) -> Map<
    Seq<char>,
    Seq<char>,
> {
    captured.restrict(captured.dom().filter(|n: Seq<char>| listed(persist, n)))
}

impl SequenceRunner {
    /// The captured values are well formed, and the current step is one of the
    /// steps.
    pub open spec fn wf(&self) -> bool {
        &&& self.extracted.wf()
        &&& self.current matches Some(i) ==> i < self.steps@.len()
    }

    /// A run that has not started.
    pub fn new(name: String, path: String, on_error: OnError, steps: Vec<Step>) -> (r:
        SequenceRunner)
        ensures
            r.name == name,
            r.path == path,
            r.on_error == on_error,
            r.steps@.len() == steps@.len(),
            forall|i: int|
                0 <= i < steps@.len() ==> (#[trigger] r.steps@[i]).step.same_step(steps@[i])
                    && fresh_row(r.steps@[i]),
            r.current is None,
            r.selected == 0,
            r.run_generation == 0,
            !r.finished,
            !r.confirming_close,
            r.extracted@ == Map::<Seq<char>, Seq<char>>::empty(),
            r.geometry == Geometry::spec_new(),
            r.view_gen == 0,
            r.wf(),
    {
        let mut rows: Vec<StepRow> = Vec::new();
        let mut i: usize = 0;
        while i < steps.len()
            invariant
                i <= steps.len(),
                rows@.len() == i,
                forall|j: int|
                    0 <= j < i ==> (#[trigger] rows@[j]).step.same_step(steps@[j]) && fresh_row(
                        rows@[j],
                    ),
            decreases steps.len() - i,
        {
            rows.push(
                StepRow {
                    step: steps[i].copy(),
                    status: StepStatus::Pending,
                    method: Method::Get,
                    url: String::new(),
                    total_ms: None,
                    extracted: Vars::new(),
                    response: ResponseState::Idle,
                },
            );
            i = i + 1;
        }
        SequenceRunner {
            name,
            path,
            on_error,
            steps: rows,
            current: None,
            selected: 0,
            run_generation: 0,
            finished: false,
            confirming_close: false,
            extracted: Vars::new(),
            geometry: Geometry::new(),
            view_gen: 0,
        }
    }

    /// Starts the run from the top, as a new run: what an earlier one left is
    /// gone. Returns whether there is a first step to prepare.
    pub fn restart(&mut self) -> (drive: bool)
        ensures
            final(self).steps@.len() == old(self).steps@.len(),
            forall|i: int|
                0 <= i < old(self).steps@.len() ==> (#[trigger] final(self).steps@[i]).step == old(
                    self,
                ).steps@[i].step && final(self).steps@[i].method == old(self).steps@[i].method
                    && final(self).steps@[i].url == old(self).steps@[i].url && fresh_row(
                    final(self).steps@[i],
                ),
            *final(self) == (SequenceRunner {
                steps: final(self).steps,
                extracted: final(self).extracted,
                current: if old(self).steps@.len() > 0 {
                    Some(0)
                } else {
                    None
                },
                selected: 0,
                run_generation: bumped(old(self).run_generation),
                finished: old(self).steps@.len() == 0,
                confirming_close: false,
                geometry: old(self).geometry.at_start(),
                ..*old(self)
            }),
            final(self).extracted@ == Map::<Seq<char>, Seq<char>>::empty(),
            drive == (old(self).steps@.len() > 0),
            final(self).wf(),
    {
        let ghost start = self.steps@;
        let mut i: usize = 0;
        let total = self.steps.len();
        while i < total
            invariant
                i <= total,
                total == start.len(),
                self.steps@.len() == start.len(),
                *self == (SequenceRunner { steps: self.steps, ..*old(self) }),
                forall|j: int| i <= j < start.len() ==> self.steps@[j] == start[j],
                forall|j: int|
                    0 <= j < i ==> (#[trigger] self.steps@[j]).step == start[j].step
                        && self.steps@[j].method == start[j].method && self.steps@[j].url
                        == start[j].url && fresh_row(self.steps@[j]),
            decreases total - i,
        {
            self.steps[i].status = StepStatus::Pending;
            self.steps[i].total_ms = None;
            self.steps[i].extracted = Vars::new();
            self.steps[i].response = ResponseState::Idle;
            i = i + 1;
        }
        self.extracted = Vars::new();
        self.selected = 0;
        self.finished = false;
        self.confirming_close = false;
        self.geometry.cursor = 0;
        self.geometry.scroll = 0;
        self.run_generation = bump(self.run_generation);
        if total == 0 {
            self.current = None;
            self.finished = true;
            return false;
        }
        self.current = Some(0);
        true
    }

    /// Ends a step: shows how it ended, and goes on to the step after it or ends
    /// the run. Returns the step that runs next.
    pub fn finish_sequence_step(&mut self, index: usize, result: StepResult) -> (next: Option<
        usize,
    >)
        requires
            index < old(self).steps@.len(),
        ensures
            step_finished(*old(self), *final(self), index, result),
            next == next_step(
                old(self).steps@.len(),
                index as int,
                result,
                old(self).on_error,
            ),
            old(self).wf() ==> final(self).wf(),
    {
        let ghost start = self.steps@;
        let total = self.steps.len();
        self.steps[index].status = StepStatus::from_result(&result);
        self.selected = index;
        if should_halt(&result, self.on_error) {
            let mut i: usize = index + 1;
            while i < total
                invariant
                    index < i <= total,
                    total == start.len(),
                    self.steps@.len() == total,
                    *self == (SequenceRunner { steps: self.steps, selected: index, ..*old(self) }),
                    forall|j: int|
                        #![trigger self.steps@[j]]
                        0 <= j < total ==> self.steps@[j] == (if j == index {
                            StepRow { status: StepStatus::of(result), ..start[j] }
                        } else if index < j < i {
                            StepRow { status: StepStatus::Skipped, ..start[j] }
                        } else {
                            start[j]
                        }),
                decreases total - i,
            {
                self.steps[i].status = StepStatus::Skipped;
                i = i + 1;
            }
            assert(self.steps@ =~= rows_finished(start, index as int, result, self.on_error));
            self.current = None;
            self.finished = true;
            return None;
        }
        assert(self.steps@ =~= rows_finished(start, index as int, result, self.on_error));
        self.advance_sequence(index)
    }

    /// Goes on to the step after `index`, or ends the run. Returns the step that
    /// runs next.
    pub fn advance_sequence(&mut self, index: usize) -> (next: Option<usize>)
        requires
            index < old(self).steps@.len(),
        ensures
            next == (if index + 1 >= old(self).steps@.len() {
                None::<usize>
            } else {
                Some((index + 1) as usize)
            }),
            *final(self) == (SequenceRunner {
                current: next,
                finished: next is None || old(self).finished,
                ..*old(self)
            }),
            old(self).wf() ==> final(self).wf(),
    {
        let total = self.steps.len();
        let next: usize = index + 1;
        if next >= total {
            self.current = None;
            self.finished = true;
            return None;
        }
        self.current = Some(next);
        Some(next)
    }

    /// Shows a step whose request is ready as running. Nothing changes where
    /// there is no such step.
    pub fn step_prepared(&mut self, index: usize, prepared: Prepared, now_ms: u64)
        ensures
            index >= old(self).steps@.len() ==> *final(self) == *old(self),
            index < old(self).steps@.len() ==> {
                &&& final(self).steps@ == old(self).steps@.update(
                    index as int,
                    StepRow {
                        method: prepared.method,
                        url: prepared.url,
                        status: StepStatus::Running,
                        response: ResponseState::InFlight { started_ms: now_ms },
                        ..old(self).steps@[index as int]
                    },
                )
                &&& *final(self) == (SequenceRunner {
                    steps: final(self).steps,
                    selected: index,
                    geometry: old(self).geometry.at_start(),
                    ..*old(self)
                })
            },
            old(self).wf() ==> final(self).wf(),
    {
        if index >= self.steps.len() {
            return;
        }
        self.steps[index].method = prepared.method;
        self.steps[index].url = prepared.url;
        self.steps[index].status = StepStatus::Running;
        self.steps[index].response = ResponseState::InFlight { started_ms: now_ms };
        self.selected = index;
        self.geometry.cursor = 0;
        self.geometry.scroll = 0;
    }

    /// Ends a step whose request could not be made ready, as one that got no
    /// response. Returns the step that runs next.
    pub fn prepare_failed(&mut self, index: usize, error: String) -> (next: Option<usize>)
        ensures
            index >= old(self).steps@.len() ==> *final(self) == *old(self) && next is None,
            index < old(self).steps@.len() ==> exists|mid: SequenceRunner|
                {
                    &&& mid == (SequenceRunner { steps: mid.steps, ..*old(self) })
                    &&& mid.steps@ == old(self).steps@.update(
                        index as int,
                        StepRow {
                            response: final(self).steps@[index as int].response,
                            ..old(self).steps@[index as int]
                        },
                    )
                    &&& #[trigger] step_finished(
                        mid,
                        *final(self),
                        index,
                        StepResult::HttpError(error),
                    )
                },
            index < old(self).steps@.len() ==> failed_step(
                final(self).steps@[index as int].response,
                error,
                old(self).steps@[index as int].step.endpoint@,
            ),
            index < old(self).steps@.len() ==> next == next_step(
                old(self).steps@.len(),
                index as int,
                StepResult::HttpError(error),
                old(self).on_error,
            ),
            old(self).wf() ==> final(self).wf(),
    {
        if index >= self.steps.len() {
            return None;
        }
        let meta = sequence_step_meta(self.steps[index].step.endpoint.as_str());
        self.steps[index].response = ResponseState::Failed { error: error.clone(), meta };
        let ghost mid = *self;
        assert(mid.steps@ =~= old(self).steps@.update(
            index as int,
            StepRow {
                response: mid.steps@[index as int].response,
                ..old(self).steps@[index as int]
            },
        ));
        self.finish_sequence_step(index, StepResult::HttpError(error))
    }

    /// The run after a result of one of its steps was taken in.
    pub open spec fn landed(
        self,
        after: SequenceRunner,
        index: usize,
        outcome: Result<StepLanded, String>,
    ) -> bool {
        exists|mid: SequenceRunner|
            {
                &&& mid == (SequenceRunner {
                    steps: mid.steps,
                    extracted: mid.extracted,
                    view_gen: bumped(self.view_gen),
                    ..self
                })
                &&& mid.extracted@ == self.extracted@.union_prefer_right(
                    outcome_captured(outcome),
                )
                &&& mid.steps@ == self.steps@.update(index as int, mid.steps@[index as int])
                &&& row_landed(
                    self.steps@[index as int],
                    mid.steps@[index as int],
                    outcome,
                    bumped(self.view_gen),
                )
                &&& #[trigger] step_finished(mid, after, index, outcome_result(outcome))
            }
    }

    /// Takes in the result of a step. A result of another run is dropped.
    pub fn on_sequence_step(
        &mut self,
        run_generation: u64,
        index: usize,
        outcome: Result<StepLanded, String>,
    ) -> (r: StepEffect)
        requires
            old(self).wf(),
            outcome matches Ok(l) ==> l.extracted.wf(),
        ensures
            final(self).wf(),
            match r {
                StepEffect::Stale => run_generation != old(self).run_generation && *final(self)
                    == *old(self),
                StepEffect::NoStep => run_generation == old(self).run_generation && index >= old(
                    self,
                ).steps@.len() && *final(self) == *old(self),
                StepEffect::Landed { session, next } => {
                    &&& run_generation == old(self).run_generation
                    &&& index < old(self).steps@.len()
                    &&& old(self).landed(*final(self), index, outcome)
                    &&& session.wf()
                    &&& session@ == kept_captures(
                        outcome_captured(outcome),
                        old(self).steps@[index as int].step.persist@,
                    )
                    &&& next == next_step(
                        old(self).steps@.len(),
                        index as int,
                        outcome_result(outcome),
                        old(self).on_error,
                    )
                },
            },
    {
        if run_generation != self.run_generation {
            return StepEffect::Stale;
        }
        if index >= self.steps.len() {
            return StepEffect::NoStep;
        }
        let ghost start = *self;
        self.view_gen = bump(self.view_gen);
        let view_gen: u64 = self.view_gen;
        let endpoint = self.steps[index].step.endpoint.clone();
        let session: Vars;
        let result: StepResult;
        let total_ms: Option<u64>;
        let extracted: Vars;
        let response: ResponseState;
        match outcome {
            Ok(landed) => {
                session = kept(&landed.extracted, &self.steps[index].step.persist);
                self.extracted.extend(&landed.extracted);
                let mut view = landed.view;
                view.generation = view_gen;
                result = landed.result;
                total_ms = Some(landed.total_ms);
                extracted = landed.extracted;
                response = ResponseState::Done { view };
            },
            Err(error) => {
                session = Vars::new();
                proof {
                    assert(self.extracted@.union_prefer_right(Map::empty())
                        =~= self.extracted@);
                    assert(kept_captures(
                        Map::empty(),
                        start.steps@[index as int].step.persist@,
                    ) =~= Map::<Seq<char>, Seq<char>>::empty());
                }
                result = StepResult::HttpError(error.clone());
                total_ms = None;
                extracted = Vars::new();
                response = ResponseState::Failed {
                    error,
                    meta: sequence_step_meta(endpoint.as_str()),
                };
            },
        }
        self.steps[index].total_ms = total_ms;
        self.steps[index].extracted = extracted;
        self.steps[index].response = response;
        let ghost mid = *self;
        proof {
            assert(result == outcome_result(outcome));
            assert(mid.steps@ =~= start.steps@.update(index as int, mid.steps@[index as int]));
        }
        let next = self.finish_sequence_step(index, result);
        StepEffect::Landed { session, next }
    }
}

/// A row after a cancel: a step that has not ended is skipped, and its request
/// counts as cancelled where it was in flight.
pub open spec fn row_cancelled(row: StepRow) -> StepRow {
    if row.status.open_ended() {
        StepRow {
            status: StepStatus::Skipped,
            response: if row.response is InFlight {
                ResponseState::Cancelled
            } else {
                row.response
            },
            ..row
        }
    } else {
        row
    }
}

/// The run after a cancel.
pub open spec fn run_cancelled(before: SequenceRunner, after: SequenceRunner) -> bool {
    &&& after.steps@ == before.steps@.map_values(|row: StepRow| row_cancelled(row))
    &&& after == (SequenceRunner {
        steps: after.steps,
        run_generation: bumped(before.run_generation),
        current: None,
        finished: true,
        confirming_close: false,
        ..before
    })
}

impl SequenceRunner {
    /// Cancels the run: a result that is still to come is dropped, and no step is
    /// left that has not ended.
    pub fn cancel(&mut self)
        ensures
            run_cancelled(*old(self), *final(self)),
            old(self).wf() ==> final(self).wf(),
    {
        self.run_generation = bump(self.run_generation);
        let ghost start = self.steps@;
        let total = self.steps.len();
        let mut i: usize = 0;
        while i < total
            invariant
                i <= total,
                total == start.len(),
                start == old(self).steps@,
                self.steps@.len() == total,
                *self == (SequenceRunner {
                    steps: self.steps,
                    run_generation: bumped(old(self).run_generation),
                    ..*old(self)
                }),
                forall|j: int|
                    #![trigger self.steps@[j]]
                    0 <= j < total ==> self.steps@[j] == (if j < i {
                        row_cancelled(start[j])
                    } else {
                        start[j]
                    }),
            decreases total - i,
        {
            let open = match self.steps[i].status {
                StepStatus::Pending | StepStatus::Running => true,
                _ => false,
            };
            if open {
                self.steps[i].status = StepStatus::Skipped;
                let flying = match self.steps[i].response {
                    ResponseState::InFlight { .. } => true,
                    _ => false,
                };
                if flying {
                    self.steps[i].response = ResponseState::Cancelled;
                }
            }
            i = i + 1;
        }
        assert(self.steps@ =~= start.map_values(|row: StepRow| row_cancelled(row)));
        self.current = None;
        self.finished = true;
        self.confirming_close = false;
    }
}

/// The edit face: what is asked of the step editor.
#[derive(Debug)]
pub struct SequenceEditor {
    /// The name of the sequence.
    pub name: String,
    /// The file of the sequence.
    pub path: String,
    /// Whether there are edits that were not saved.
    pub dirty: bool,
}

/// The modal surface of a sequence, with an edit face and a run face.
#[derive(Debug)]
pub struct SequenceSurface {
    /// The run, once one was built.
    pub runner: Option<SequenceRunner>,
    /// The editor, once one was built.
    pub editor: Option<SequenceEditor>,
    /// The face that is shown.
    pub view: SeqView,
    /// Whether a step's request is in flight.
    pub in_flight: bool,
}

/// What a flip of the surface asks for.
#[derive(Debug)]
pub enum Flip {
    /// Nothing more.
    Done,
    /// The flight of the earlier run's step is to be aborted.
    Abort,
    /// The sequence in this file is to be loaded for the editor.
    Load(String),
    /// The flip is refused.
    Refused(Notice),
}

/// A run of a sequence that has not started.
pub open spec fn fresh_run(r: SequenceRunner, name: String, path: String, s: Sequence) -> bool {
    &&& r.name == name
    &&& r.path == path
    &&& r.on_error == s.on_error
    &&& r.steps@.len() == s.steps@.len()
    &&& forall|i: int|
        0 <= i < s.steps@.len() ==> (#[trigger] r.steps@[i]).step.same_step(s.steps@[i])
            && fresh_row(r.steps@[i])
    &&& r.current is None
    &&& r.selected == 0
    &&& r.run_generation == 0
    &&& !r.finished
    &&& !r.confirming_close
    &&& r.extracted@ == Map::<Seq<char>, Seq<char>>::empty()
    &&& r.geometry == Geometry::spec_new()
    &&& r.view_gen == 0
}

impl SequenceSurface {
    /// The run is well formed.
    pub open spec fn wf(&self) -> bool {
        self.runner matches Some(r) ==> r.wf()
    }

    /// A closed surface.
    pub fn new() -> (r: SequenceSurface)
        ensures
            r == SequenceSurface::closed(),
            r.wf(),
    {
        SequenceSurface { runner: None, editor: None, view: SeqView::Edit, in_flight: false }
    }

    /// A closed surface.
    pub open spec fn closed() -> SequenceSurface {
        SequenceSurface { runner: None, editor: None, view: SeqView::Edit, in_flight: false }
    }

    /// Builds a run over a sequence and shows it. The editor stays.
    pub fn open_runner(&mut self, name: String, path: String, sequence: Sequence)
        ensures
            final(self).runner matches Some(r) && fresh_run(r, name, path, sequence),
            *final(self) == (SequenceSurface {
                runner: final(self).runner,
                view: SeqView::Run,
                ..*old(self)
            }),
            final(self).wf(),
    {
        self.runner = Some(SequenceRunner::new(name, path, sequence.on_error, sequence.steps));
        self.view = SeqView::Run;
    }

    /// Opens the editor over a sequence, with no run built.
    pub fn open_editor(&mut self, name: String, path: String)
        ensures
            *final(self) == (SequenceSurface {
                editor: Some(SequenceEditor { name, path, dirty: false }),
                runner: None,
                view: SeqView::Edit,
                ..*old(self)
            }),
            final(self).wf(),
    {
        self.editor = Some(SequenceEditor { name, path, dirty: false });
        self.runner = None;
        self.view = SeqView::Edit;
    }

    /// Whether the step in flight is to be aborted; none is in flight after.
    pub fn take_flight(&mut self) -> (abort: bool)
        ensures
            abort == old(self).in_flight,
            *final(self) == (SequenceSurface { in_flight: false, ..*old(self) }),
    {
        let abort = self.in_flight;
        self.in_flight = false;
        abort
    }

    /// Flips the face. The run face is left for the edit face at any time; where
    /// there is no editor yet, the file of the run is loaded for one first, and
    /// where there is no run either nothing changes. The edit face is left for
    /// the run face only where all edits are saved and the sequence holds: a new
    /// run is built from it, which does not start by itself, and a step of an
    /// earlier run that is in flight is aborted.
    pub fn toggle_sequence_view(&mut self, checked: Result<Sequence, String>) -> (r: Flip)
        requires
            old(self).wf(),
        ensures
            final(self).wf(),
            old(self).view == SeqView::Run ==> match (old(self).editor, old(self).runner) {
                (Some(_), _) => r is Done && *final(self) == (SequenceSurface {
                    view: SeqView::Edit,
                    ..*old(self)
                }),
                (None, Some(run)) => r == Flip::Load(run.path) && *final(self) == *old(self),
                (None, None) => r is Done && *final(self) == *old(self),
            },
            old(self).view == SeqView::Edit ==> match old(self).editor {
                None => r is Done && *final(self) == *old(self),
                Some(e) => if e.dirty {
                    r == Flip::Refused(Notice::SaveBeforeRunning) && *final(self) == *old(self)
                } else {
                    match checked {
                        Err(msg) => r == Flip::Refused(Notice::Text { text: msg }) && *final(self) == *old(
                            self,
                        ),
                        Ok(s) => {
                            &&& r == (if old(self).in_flight {
                                Flip::Abort
                            } else {
                                Flip::Done
                            })
                            &&& final(self).runner matches Some(run) && fresh_run(
                                run,
                                e.name,
                                e.path,
                                s,
                            )
                            &&& *final(self) == (SequenceSurface {
                                runner: final(self).runner,
                                view: SeqView::Run,
                                in_flight: false,
                                ..*old(self)
                            })
                        },
                    }
                },
            },
    {
        match self.view {
            SeqView::Run => {
                if self.editor.is_none() {
                    return match &self.runner {
                        Some(run) => Flip::Load(run.path.clone()),
                        None => Flip::Done,
                    };
                }
                self.view = SeqView::Edit;
                Flip::Done
            },
            SeqView::Edit => {
                let (name, path) = match &self.editor {
                    None => {
                        return Flip::Done;
                    },
                    Some(e) => {
                        if e.dirty {
                            return Flip::Refused(Notice::SaveBeforeRunning);
                        }
                        (e.name.clone(), e.path.clone())
                    },
                };
                match checked {
                    Err(msg) => Flip::Refused(Notice::Text { text: msg }),
                    Ok(sequence) => {
                        let abort = self.take_flight();
                        self.runner = Some(
                            SequenceRunner::new(name, path, sequence.on_error, sequence.steps),
                        );
                        self.view = SeqView::Run;
                        if abort {
                            Flip::Abort
                        } else {
                            Flip::Done
                        }
                    },
                }
            },
        }
    }

    /// Ends a flip that waited for the file of the run: with the sequence, the
    /// editor is built over it and shown; with an error, the run stays shown.
    pub fn sequence_loaded(&mut self, loaded: Result<String, String>) -> (r: Option<Notice>)
        ensures
            old(self).runner matches Some(run) ==> match loaded {
                Ok(name) => r is None && *final(self) == (SequenceSurface {
                    editor: Some(SequenceEditor { name, path: run.path, dirty: false }),
                    view: SeqView::Edit,
                    ..*old(self)
                }),
                Err(e) => r == Some(Notice::CannotEditSequence { err: e }) && *final(self) == *old(self),
            },
            old(self).runner is None ==> r is None && *final(self) == *old(self),
            old(self).wf() ==> final(self).wf(),
    {
        let path = match &self.runner {
            Some(run) => run.path.clone(),
            None => {
                return None;
            },
        };
        match loaded {
            Ok(name) => {
                self.editor = Some(SequenceEditor { name, path, dirty: false });
                self.view = SeqView::Edit;
                None
            },
            Err(e) => Some(Notice::CannotEditSequence { err: e }),
        }
    }

    /// Closes the surface. Returns whether a step in flight is to be aborted.
    pub fn close(&mut self) -> (abort: bool)
        ensures
            abort == old(self).in_flight,
            *final(self) == SequenceSurface::closed(),
            final(self).wf(),
    {
        let abort = self.take_flight();
        self.runner = None;
        self.editor = None;
        self.view = SeqView::Edit;
        abort
    }
}

/// After a cancel every step has ended, and a step that had ended before is as
/// it was.
pub proof fn law_cancel_leaves_no_open_step(before: SequenceRunner, after: SequenceRunner, i: int)
    requires
        run_cancelled(before, after),
        0 <= i < before.steps@.len(),
    ensures
        after.steps@.len() == before.steps@.len(),
        !after.steps@[i].status.open_ended(),
        !(after.steps@[i].response is InFlight) || !before.steps@[i].status.open_ended(),
        !before.steps@[i].status.open_ended() ==> after.steps@[i] == before.steps@[i],
        after.finished,
        after.current is None,
{
}

/// A cancelled run, and a run that was started again, no longer take the results
/// of the run before them.
pub proof fn law_bump_changes(n: u64)
    ensures
        bumped(n) != n,
{
}

/// Where failures end a run, no step after one that failed runs: it is shown as
/// skipped, and the run is over.
pub proof fn law_halt_skips_the_rest(
    before: SequenceRunner,
    after: SequenceRunner,
    index: usize,
    result: StepResult,
    i: int,
)
    requires
        step_finished(before, after, index, result),
        before.on_error == OnError::Halt,
        !(result is Passed),
        index < i < before.steps@.len(),
    ensures
        after.steps@[i].status is Skipped,
        after.finished,
        after.current is None,
{
}

/// Where failures do not end a run, every step gets its turn: after each step but
/// the last the next one is current, and the rows of the other steps are as they
/// were.
pub proof fn law_continue_runs_all(
    before: SequenceRunner,
    after: SequenceRunner,
    index: usize,
    result: StepResult,
    i: int,
)
    requires
        step_finished(before, after, index, result),
        before.on_error == OnError::Continue,
        0 <= i < before.steps@.len(),
        i != index,
    ensures
        index + 1 < before.steps@.len() ==> after.current == Some((index + 1) as usize),
        index + 1 >= before.steps@.len() ==> after.finished && after.current is None,
        after.steps@[i] == before.steps@[i],
{
}

/// A step that failed captures nothing, so what was captured before stays.
pub proof fn law_failure_keeps_captures(
    before: SequenceRunner,
    after: SequenceRunner,
    index: usize,
    error: String,
)
    requires
        before.landed(after, index, Err(error)),
    ensures
        after.extracted@ == before.extracted@,
{
    assert(before.extracted@.union_prefer_right(Map::empty()) =~= before.extracted@);
}

/// What a step captures is there for the steps after it, in place of an older
/// value of the same name; the other values stay.
pub proof fn law_captures_chain(
    before: SequenceRunner,
    after: SequenceRunner,
    index: usize,
    landed: StepLanded,
    name: Seq<char>,
)
    requires
        before.landed(after, index, Ok(landed)),
    ensures
        landed.extracted@.dom().contains(name) ==> after.extracted@.dom().contains(name)
            && after.extracted@[name] == landed.extracted@[name],
        !landed.extracted@.dom().contains(name) ==> (after.extracted@.dom().contains(name)
            <==> before.extracted@.dom().contains(name)) && (before.extracted@.dom().contains(name)
            ==> after.extracted@[name] == before.extracted@[name]),
{
}

/// The captured values whose names are kept.
pub fn kept(captured: &Vars, persist: &Vec<String>) -> (r: Vars)
    requires
        captured.wf(),
    ensures
        r@ == kept_captures(captured@, persist@),
        r.wf(),
{
    let mut out = Vars::new();
    let mut i: usize = 0;
    let ghost all = captured.pairs@;
    assert(all.take(0) =~= Seq::empty());
    assert(kept_captures(Map::empty(), persist@) =~= Map::<Seq<char>, Seq<char>>::empty());
    while i < captured.pairs.len()
        invariant
            i <= captured.pairs.len(),
            all == captured.pairs@,
            out@ == kept_captures(pairs_map(all.take(i as int)), persist@),
            out.wf(),
        decreases captured.pairs.len() - i,
    {
        let name = captured.pairs[i].0.clone();
        let value = captured.pairs[i].1.clone();
        let ghost n = name@;
        let ghost v = value@;
        let ghost before = pairs_map(all.take(i as int));
        let found = in_list(persist, &name);
        proof {
            assert(all.take(i + 1).drop_last() =~= all.take(i as int));
            assert(pairs_map(all.take(i + 1)) == before.insert(n, v));
            if found {
                assert(kept_captures(before.insert(n, v), persist@) =~= kept_captures(
                    before,
                    persist@,
                ).insert(n, v));
            } else {
                assert(kept_captures(before.insert(n, v), persist@) =~= kept_captures(
                    before,
                    persist@,
                ));
            }
        }
        if found {
            out.insert(name, value);
        }
        i = i + 1;
    }
    assert(all.take(all.len() as int) =~= all);
    out
}

fn in_list(names: &Vec<String>, name: &String) -> (r: bool)
    ensures
        r == listed(names@, name@),
{
    let mut i: usize = 0;
    while i < names.len()
        invariant
            i <= names.len(),
            forall|j: int| 0 <= j < i ==> (#[trigger] names@[j])@ != name@,
        decreases names.len() - i,
    {
        if names[i] == *name {
            assert(names@[i as int]@ == name@);
            return true;
        }
        i = i + 1;
    }
    false
}

/// Of what a step captured, the names that its list of kept names holds are kept, each with
/// the value that was captured, and no other name is.
pub proof fn law_only_listed_captures_are_kept(
    captured: Map<Seq<char>, Seq<char>>,
    persist: Seq<String>,
    name: Seq<char>,
)
    ensures
        kept_captures(captured, persist).dom().contains(name) <==> captured.dom().contains(name) && (
        exists|i: int| 0 <= i < persist.len() && (#[trigger] persist[i])@ == name),
        kept_captures(captured, persist).dom().contains(name) ==> kept_captures(
            captured,
            persist,
        )[name] == captured[name],
{
}

/// The row of a step that landed shows its result, its time, its captures and its response;
/// where it failed to be sent it shows the error, and no captures. The row of a step before
/// it stays, and so does that of one behind it where the run goes on.
pub proof fn law_landed_step_is_shown_in_its_row(
    a: SequenceRunner,
    b: SequenceRunner,
    index: usize,
    outcome: Result<StepLanded, String>,
    i: int,
)
    requires
        a.landed(b, index, outcome),
        index < a.steps@.len(),
        0 <= i < a.steps@.len(),
    ensures
        b.steps@.len() == a.steps@.len(),
        b.selected == index,
        ({
            let row = b.steps@[index as int];
            match outcome {
                Ok(l) => {
                    &&& l.result matches StepResult::Passed { status } ==> row.status
                        == StepStatus::Passed(status)
                    &&& l.result matches StepResult::Failed { status } ==> row.status
                        == StepStatus::Failed(status)
                    &&& l.result matches StepResult::HttpError(e) ==> row.status
                        == StepStatus::HttpError(e)
                    &&& l.result matches StepResult::ExtractError(e) ==> row.status
                        == StepStatus::ExtractError(e)
                    &&& row.total_ms == Some(l.total_ms)
                    &&& row.extracted == l.extracted
                    &&& row.response is Done
                },
                Err(e) => {
                    &&& row.status == StepStatus::HttpError(e)
                    &&& row.total_ms is None
                    &&& row.extracted@.dom() =~= Set::<Seq<char>>::empty()
                    &&& row.response matches ResponseState::Failed { error, .. } && error == e
                },
            }
        }),
        i < index ==> b.steps@[i] == a.steps@[i],
        i > index && a.on_error == OnError::Continue ==> b.steps@[i] == a.steps@[i],
        i > index && outcome is Ok && outcome->Ok_0.result is Passed ==> b.steps@[i] == a.steps@[i],
        i > index && a.on_error == OnError::Halt && (outcome is Err || !(outcome->Ok_0.result
            is Passed)) ==> b.steps@[i].status is Skipped,
{
}

/// After a step that landed the next step is current; the run is over where there is none, and
/// where the step did not pass and failures end the run.
pub proof fn law_run_goes_on_with_the_next_step(
    a: SequenceRunner,
    b: SequenceRunner,
    index: usize,
    outcome: Result<StepLanded, String>,
)
    requires
        a.landed(b, index, outcome),
        index < a.steps@.len(),
    ensures
        ({
            let passed = outcome is Ok && outcome->Ok_0.result is Passed;
            let goes_on = index + 1 < a.steps@.len() && (passed || a.on_error == OnError::Continue);
            &&& goes_on ==> b.current == Some((index + 1) as usize) && b.finished == a.finished
            &&& !goes_on ==> b.current is None && b.finished
        }),
{
}

} // verus!
