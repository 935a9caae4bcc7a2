//! Load runs: many copies of one request, sent at once.

use vstd::prelude::*;
use vstd::string::*;

use crate::meta::{load_result_meta, now_ms};
use crate::model::Request;
use crate::notice::Notice;
use crate::response::{Geometry, ResponseState, ResponseView};
use crate::sequence::{bump, bumped};
use crate::text::{decimal, decimal_text};

verus! {

/// How a load run is made.
#[derive(Debug, Clone, Copy, PartialEq, Eq, Structural)]
pub struct LoadConfig {
    /// How many copies are sent.
    pub total: usize,
    /// How many are in flight at once.
    pub concurrency: usize,
    /// The least time between the starts of two copies, in nanoseconds.
    pub interval_ns: u64,
}

/// What the limits say of a load run.
#[derive(Debug)]
pub enum LoadCheck {
    /// It may run.
    Fine,
    /// It may run once it is confirmed.
    Warn(String),
    /// It may not run.
    Refuse(String),
}

/// How far a copy is.
#[derive(Debug)]
pub enum LoadStatus {
    /// It was not sent yet.
    Pending,
    /// It is in flight.
    Running,
    /// A response came.
    Passed(u16),
    /// A response came with an error status.
    Failed(u16),
    /// No response came.
    Error(String),
    /// The run was cancelled first.
    Cancelled,
}

impl LoadStatus {
    /// Whether the copy has yet to end.
    pub open spec fn open_ended(self) -> bool {
        self is Pending || self is Running
    }

    /// Whether the copy was answered, or failed to be.
    pub open spec fn completed(self) -> bool {
        self is Passed || self is Failed || self is Error
    }
}

/// One copy of the request.
#[derive(Debug)]
pub struct LoadRow {
    /// How far it is.
    pub status: LoadStatus,
    /// How long it took, in milliseconds.
    pub total_ms: Option<u64>,
    /// The response and how it is shown.
    pub response: ResponseState,
}

/// The latencies of a run, in milliseconds.
#[derive(Debug, Clone, Copy, PartialEq, Eq, Structural)]
pub struct Latency {
    /// The least.
    pub min: Option<u64>,
    /// The median.
    pub median: Option<u64>,
    /// The 95th percentile.
    pub p95: Option<u64>,
    /// The largest.
    pub max: Option<u64>,
    /// The mean.
    pub mean: Option<u64>,
}

/// What a run comes to.
#[derive(Debug, Clone, Copy, PartialEq, Eq, Structural)]
pub struct LoadStats {
    /// How many copies got a response.
    pub ok: usize,
    /// How many got a response with an error status.
    pub failed: usize,
    /// How many got none.
    pub errored: usize,
    /// The latencies.
    pub latency: Latency,
}

/// No results.
pub open spec fn no_stats() -> LoadStats {
    LoadStats {
        ok: 0,
        failed: 0,
        errored: 0,
        latency: Latency { min: None, median: None, p95: None, max: None, mean: None },
    }
}

fn empty_stats() -> (r: LoadStats)
    ensures
        r == no_stats(),
{
    LoadStats {
        ok: 0,
        failed: 0,
        errored: 0,
        latency: Latency { min: None, median: None, p95: None, max: None, mean: None },
    }
}

/// A load run over one request.
#[derive(Debug)]
pub struct LoadRunner {
    /// The name of the endpoint.
    pub name: String,
    /// The URL of the request.
    pub url: String,
    /// The endpoint's file, relative to the workspace.
    pub endpoint_path: Option<String>,
    /// How the run is made.
    pub cfg: LoadConfig,
    /// The copies.
    pub results: Vec<LoadRow>,
    /// How many copies ended with a result.
    pub completed: usize,
    /// What the results come to.
    pub stats: LoadStats,
    /// Which run this is: a result of another run is dropped.
    pub run_generation: u64,
    /// Whether the run is under way.
    pub running: bool,
    /// Whether the run is over.
    pub finished: bool,
    /// Whether the run was cancelled.
    pub cancelled: bool,
    /// Whether the user is asked if the run is to be closed.
    pub confirming_close: bool,
    /// The question that is to be answered before the run starts.
    pub pending_confirm: Option<String>,
    /// The copy that is shown.
    pub selected: usize,
    /// The viewer's cursor and window.
    pub geometry: Geometry,
    /// The number of views that were built.
    pub view_gen: u64,
}

/// How many rows got a response.
pub open spec fn count_ok(rows: Seq<LoadRow>) -> nat
    decreases rows.len(),
{
    if rows.len() == 0 {
        0
    } else {
        count_ok(rows.drop_last()) + (if rows.last().status is Passed {
            1nat
        } else {
            0
        })
    }
}

/// How many rows got a response with an error status.
pub open spec fn count_failed(rows: Seq<LoadRow>) -> nat
    decreases rows.len(),
{
    if rows.len() == 0 {
        0
    } else {
        count_failed(rows.drop_last()) + (if rows.last().status is Failed {
            1nat
        } else {
            0
        })
    }
}

/// How many rows got no response.
pub open spec fn count_errored(rows: Seq<LoadRow>) -> nat
    decreases rows.len(),
{
    if rows.len() == 0 {
        0
    } else {
        count_errored(rows.drop_last()) + (if rows.last().status is Error {
            1nat
        } else {
            0
        })
    }
}

/// How many rows ended with a result.
pub open spec fn count_completed(rows: Seq<LoadRow>) -> nat {
    count_ok(rows) + count_failed(rows) + count_errored(rows)
}

/// No more rows have a result than there are, and all have one where as many do.
pub proof fn lemma_counts_bound(rows: Seq<LoadRow>)
    ensures
        count_completed(rows) <= rows.len(),
        (count_completed(rows) == rows.len()) <==> (forall|i: int|
            0 <= i < rows.len() ==> (#[trigger] rows[i]).status.completed()),
    decreases rows.len(),
{
    if rows.len() > 0 {
        lemma_counts_bound(rows.drop_last());
        let before = rows.drop_last();
        if count_completed(rows) == rows.len() {
            assert(rows.last().status.completed());
            assert forall|i: int| 0 <= i < rows.len() implies (
            #[trigger] rows[i]).status.completed() by {
                if i < before.len() {
                    assert(before[i] == rows[i]);
                }
            }
        }
        if forall|i: int| 0 <= i < rows.len() ==> (#[trigger] rows[i]).status.completed() {
            assert forall|i: int| 0 <= i < before.len() implies (
            #[trigger] before[i]).status.completed() by {
                assert(rows[i].status.completed());
            }
            assert(rows[rows.len() - 1].status.completed());
        }
    }
}

/// A copy that was not sent yet.
pub open spec fn fresh_copy(row: LoadRow) -> bool {
    row.status is Pending && row.total_ms is None && row.response is Idle
}

/// The question that is asked before a run that needs a confirmation.
pub open spec fn confirm_question(cfg: LoadConfig, url: Seq<char>, reason: Seq<char>) -> Seq<char> {
    "Fire "@ + decimal(cfg.total as nat) + " requests at concurrency "@ + decimal(
        cfg.concurrency as nat,
    ) + " against "@ + url + "?  ("@ + reason + ")"@
}

/// What the limits' verdict leads to.
#[derive(Debug)]
pub enum LoadStart {
    /// The run starts.
    Start,
    /// The question waits for an answer.
    Ask,
    /// The run is refused.
    Refused(Notice),
}

/// The row's status for a response or a failure: an error status is 400 or more.
pub open spec fn load_status_of(outcome: Result<LoadLanded, String>) -> LoadStatus {
    match outcome {
        Ok(l) => if l.status >= 400 {
            LoadStatus::Failed(l.status)
        } else {
            LoadStatus::Passed(l.status)
        },
        Err(e) => LoadStatus::Error(e),
    }
}

/// A copy's response.
#[derive(Debug)]
pub struct LoadLanded {
    /// The status code.
    pub status: u16,
    /// How long the exchange took, in milliseconds.
    pub total_ms: u64,
    /// The response and how it is shown.
    pub view: ResponseView,
}

/// What a response or a failure leaves in the row of its copy.
pub open spec fn copy_landed(
    after: LoadRow,
    outcome: Result<LoadLanded, String>,
    view_gen: u64,
    url: Seq<char>,
) -> bool {
    &&& after.status == load_status_of(outcome)
    &&& match outcome {
        Ok(l) => after.total_ms == Some(l.total_ms) && after.response == (ResponseState::Done {
            view: ResponseView { generation: view_gen, ..l.view },
        }),
        Err(e) => after.total_ms is None && (after.response matches ResponseState::Failed {
            error,
            meta,
        } && error == e && meta.method@.len() == 0 && meta.url@ == url && meta.endpoint_path
            is None),
    }
}

/// A record of a run.
#[derive(Debug)]
pub struct LoadSummary {
    /// When the run ended, in Unix milliseconds.
    pub executed_at_ms: i64,
    /// The URL.
    pub url: String,
    /// The endpoint's file, relative to the workspace.
    pub endpoint_path: Option<String>,
    /// How many copies there were.
    pub total: usize,
    /// How many were in flight at once.
    pub concurrency: usize,
    /// What the results come to.
    pub stats: LoadStats,
    /// Whether the run was cut short.
    pub cancelled: bool,
}

impl LoadRunner {
    /// The counts agree with the rows, and a run that is under way is not over.
    pub open spec fn wf(&self) -> bool {
        &&& self.completed == count_completed(self.results@)
        &&& self.stats.ok == count_ok(self.results@)
        &&& self.stats.failed == count_failed(self.results@)
        &&& self.stats.errored == count_errored(self.results@)
        &&& !(self.running && self.finished)
    }

    /// The run as it is opened: nothing is sent yet.
    pub fn new(name: String, url: String, endpoint_path: Option<String>, cfg: LoadConfig) -> (r:
        LoadRunner)
        ensures
            r.name == name,
            r.url == url,
            r.endpoint_path == endpoint_path,
            r.cfg == cfg,
            r.results@.len() == 0,
            r.completed == 0,
            r.stats == no_stats(),
            r.run_generation == 0,
            !r.running,
            !r.finished,
            !r.cancelled,
            !r.confirming_close,
            r.pending_confirm is None,
            r.selected == 0,
            r.geometry == Geometry::spec_new(),
            r.view_gen == 0,
            r.wf(),
    {
        LoadRunner {
            name,
            url,
            endpoint_path,
            cfg,
            results: Vec::new(),
            completed: 0,
            stats: empty_stats(),
            run_generation: 0,
            running: false,
            finished: false,
            cancelled: false,
            confirming_close: false,
            pending_confirm: None,
            selected: 0,
            geometry: Geometry::new(),
            view_gen: 0,
        }
    }

    /// Acts on what the limits say: refuses the run, asks for a confirmation
    /// that names the target, or lets it start.
    pub fn request_load_run(&mut self, check: LoadCheck) -> (r: LoadStart)
        ensures
            match check {
                LoadCheck::Refuse(reason) => r == LoadStart::Refused(
                    Notice::LoadRefused { reason },
                ) && *final(self) == *old(self),
                LoadCheck::Warn(reason) => r is Ask && *final(self) == (LoadRunner {
                    pending_confirm: final(self).pending_confirm,
                    ..*old(self)
                }) && (final(self).pending_confirm matches Some(q) && q@ == confirm_question(
                    old(self).cfg,
                    old(self).url@,
                    reason@,
                )),
                LoadCheck::Fine => r is Start && *final(self) == *old(self),
            },
            old(self).wf() ==> final(self).wf(),
    {
        match check {
            LoadCheck::Refuse(reason) => LoadStart::Refused(Notice::LoadRefused { reason }),
            LoadCheck::Warn(reason) => {
                let mut out = String::new();
                out.append("Fire ");
                out.append(decimal_text(self.cfg.total as u64).as_str());
                out.append(" requests at concurrency ");
                out.append(decimal_text(self.cfg.concurrency as u64).as_str());
                out.append(" against ");
                out.append(self.url.as_str());
                out.append("?  (");
                out.append(reason.as_str());
                out.append(")");
                assert(out@ =~= confirm_question(self.cfg, self.url@, reason@));
                self.pending_confirm = Some(out);
                LoadStart::Ask
            },
            LoadCheck::Fine => LoadStart::Start,
        }
    }

    /// The run after it was set up to start: as many copies as asked for, none
    /// of them sent, and what an earlier run left is gone.
    pub open spec fn reset_from(self, before: LoadRunner) -> bool {
        &&& self.results@.len() == before.cfg.total
        &&& forall|i: int| 0 <= i < self.results@.len() ==> fresh_copy(#[trigger] self.results@[i])
        &&& self == (LoadRunner {
            results: self.results,
            completed: 0,
            stats: no_stats(),
            running: before.cfg.total > 0,
            finished: before.cfg.total == 0,
            cancelled: false,
            confirming_close: false,
            pending_confirm: None,
            selected: 0,
            geometry: before.geometry.at_start(),
            ..before
        })
    }

    /// Sets the run up to start. A run of no copies is over at once. Returns
    /// whether there is anything to send.
    pub fn reset_for_run(&mut self) -> (r: bool)
        ensures
            final(self).reset_from(*old(self)),
            final(self).wf(),
            r == (old(self).cfg.total > 0),
    {
        let mut rows: Vec<LoadRow> = Vec::new();
        let mut i: usize = 0;
        while i < self.cfg.total
            invariant
                i <= self.cfg.total,
                rows@.len() == i,
                forall|j: int| 0 <= j < i ==> fresh_copy(#[trigger] rows@[j]),
                count_completed(rows@) == 0,
            decreases self.cfg.total - i,
        {
            let ghost before = rows@;
            rows.push(
                LoadRow {
                    status: LoadStatus::Pending,
                    total_ms: None,
                    response: ResponseState::Idle,
                },
            );
            assert(rows@.drop_last() =~= before);
            i = i + 1;
        }
        self.results = rows;
        self.completed = 0;
        self.stats = empty_stats();
        self.running = self.cfg.total > 0;
        self.finished = self.cfg.total == 0;
        self.cancelled = false;
        self.confirming_close = false;
        self.pending_confirm = None;
        self.selected = 0;
        self.geometry.cursor = 0;
        self.geometry.scroll = 0;
        self.running
    }

    /// Shows a copy that was sent as in flight. A signal of another run, and one
    /// of a copy that is further already, changes nothing.
    pub fn on_load_started(&mut self, run_generation: u64, index: usize, now_ms: u64)
        requires
            old(self).wf(),
        ensures
            final(self).wf(),
            if run_generation == old(self).run_generation && index < old(self).results@.len()
                && old(self).results@[index as int].status is Pending {
                &&& final(self).results@ == old(self).results@.update(
                    index as int,
                    LoadRow {
                        status: LoadStatus::Running,
                        response: ResponseState::InFlight { started_ms: now_ms },
                        ..old(self).results@[index as int]
                    },
                )
                &&& *final(self) == (LoadRunner { results: final(self).results, ..*old(self) })
            } else {
                *final(self) == *old(self)
            },
    {
        if run_generation != self.run_generation || index >= self.results.len() {
            return;
        }
        let pending = match self.results[index].status {
            LoadStatus::Pending => true,
            _ => false,
        };
        if pending {
            self.results[index].status = LoadStatus::Running;
            self.results[index].response = ResponseState::InFlight { started_ms: now_ms };
            assert(self.results@ =~= old(self).results@.update(
                index as int,
                self.results@[index as int],
            ));
            proof {
                lemma_counts_update(old(self).results@, index as int, self.results@[index as int]);
            }
        }
    }

    /// The run after the result of a copy was taken in; `latency` is what the
    /// latencies come to with it.
    pub open spec fn landed(
        self,
        after: LoadRunner,
        index: usize,
        outcome: Result<LoadLanded, String>,
        latency: Latency,
    ) -> bool {
        let done = count_completed(after.results@) == after.results@.len();
        &&& after.results@ == self.results@.update(index as int, after.results@[index as int])
        &&& copy_landed(after.results@[index as int], outcome, bumped(self.view_gen), self.url@)
        &&& after == (LoadRunner {
            results: after.results,
            completed: count_completed(after.results@) as usize,
            stats: LoadStats {
                ok: count_ok(after.results@) as usize,
                failed: count_failed(after.results@) as usize,
                errored: count_errored(after.results@) as usize,
                latency,
            },
            view_gen: bumped(self.view_gen),
            running: self.running && !done,
            finished: self.finished || done,
            ..self
        })
    }

    /// Takes in the result of a copy. A result of another run, and one of no copy
    /// of this run, is dropped. Returns whether the run is over with it.
    pub fn on_load_result(
        &mut self,
        run_generation: u64,
        index: usize,
        outcome: Result<LoadLanded, String>,
        latency: Latency,
    ) -> (done: bool)
        requires
            old(self).wf(),
        ensures
            final(self).wf(),
            if run_generation == old(self).run_generation && index < old(self).results@.len() {
                &&& old(self).landed(*final(self), index, outcome, latency)
                &&& done == (forall|i: int|
                    0 <= i < final(self).results@.len() ==> (
                    #[trigger] final(self).results@[i]).status.completed())
            } else {
                *final(self) == *old(self) && !done
            },
    {
        if run_generation != self.run_generation || index >= self.results.len() {
            return false;
        }
        self.view_gen = bump(self.view_gen);
        let status: LoadStatus;
        let total_ms: Option<u64>;
        let response: ResponseState;
        match outcome {
            Ok(landed) => {
                status = if landed.status >= 400 {
                    LoadStatus::Failed(landed.status)
                } else {
                    LoadStatus::Passed(landed.status)
                };
                total_ms = Some(landed.total_ms);
                let mut view = landed.view;
                view.generation = self.view_gen;
                response = ResponseState::Done { view };
            },
            Err(error) => {
                status = LoadStatus::Error(error.clone());
                total_ms = None;
                response = ResponseState::Failed {
                    error,
                    meta: load_result_meta(self.url.as_str()),
                };
            },
        }
        self.results[index].status = status;
        self.results[index].total_ms = total_ms;
        self.results[index].response = response;
        assert(self.results@ =~= old(self).results@.update(
            index as int,
            self.results@[index as int],
        ));
        self.recount(latency);
        proof {
            lemma_counts_bound(self.results@);
        }
        if self.completed == self.results.len() {
            self.running = false;
            self.finished = true;
            return true;
        }
        false
    }

    fn recount(&mut self, latency: Latency)
        ensures
            *final(self) == (LoadRunner {
                completed: count_completed(old(self).results@) as usize,
                stats: LoadStats {
                    ok: count_ok(old(self).results@) as usize,
                    failed: count_failed(old(self).results@) as usize,
                    errored: count_errored(old(self).results@) as usize,
                    latency,
                },
                ..*old(self)
            }),
            final(self).completed == count_completed(old(self).results@),
            final(self).stats.ok == count_ok(old(self).results@),
            final(self).stats.failed == count_failed(old(self).results@),
            final(self).stats.errored == count_errored(old(self).results@),
    {
        let mut ok: usize = 0;
        let mut failed: usize = 0;
        let mut errored: usize = 0;
        let mut i: usize = 0;
        let total = self.results.len();
        while i < total
            invariant
                i <= total,
                total == self.results@.len(),
                ok == count_ok(self.results@.take(i as int)),
                failed == count_failed(self.results@.take(i as int)),
                errored == count_errored(self.results@.take(i as int)),
                ok + failed + errored <= i,
            decreases total - i,
        {
            assert(self.results@.take(i + 1).drop_last() =~= self.results@.take(i as int));
            match self.results[i].status {
                LoadStatus::Passed(_) => {
                    ok = ok + 1;
                },
                LoadStatus::Failed(_) => {
                    failed = failed + 1;
                },
                LoadStatus::Error(_) => {
                    errored = errored + 1;
                },
                _ => {},
            }
            i = i + 1;
        }
        assert(self.results@.take(total as int) =~= self.results@);
        self.completed = ok + failed + errored;
        self.stats = LoadStats { ok, failed, errored, latency };
    }

    /// The record of the run as it stands now.
    pub fn summary(&self, cancelled: bool) -> (r: LoadSummary)
        ensures
            self.summarised(r, cancelled),
    {
        self.summary_at(cancelled, now_ms())
    }

    /// The record of the run as it stands at a time.
    pub fn summary_at(&self, cancelled: bool, at_ms: i64) -> (r: LoadSummary)
        ensures
            self.summarised(r, cancelled),
            r.executed_at_ms == at_ms,
    {
        LoadSummary {
            executed_at_ms: at_ms,
            url: self.url.clone(),
            endpoint_path: match &self.endpoint_path {
                Some(p) => Some(p.clone()),
                None => None,
            },
            total: self.results.len(),
            concurrency: self.cfg.concurrency,
            stats: self.stats,
            cancelled,
        }
    }

    /// A record of the run as it stands; its time is that of the clock.
    pub open spec fn summarised(self, r: LoadSummary, cancelled: bool) -> bool {
        r == (LoadSummary {
            executed_at_ms: r.executed_at_ms,
            url: self.url,
            endpoint_path: self.endpoint_path,
            total: self.results@.len() as usize,
            concurrency: self.cfg.concurrency,
            stats: self.stats,
            cancelled,
        })
    }

    /// The run after a cancel at a time: each copy that has not ended is
    /// cancelled, with the time that it was in flight where it was.
    pub open spec fn cancelled_from(self, before: LoadRunner, now_ms: u64) -> bool {
        &&& self.results@ == before.results@.map_values(
            |row: LoadRow| copy_cancelled(row, now_ms),
        )
        &&& self == (LoadRunner {
            results: self.results,
            running: false,
            finished: true,
            cancelled: true,
            confirming_close: false,
            ..before
        })
    }

    /// Cancels the run.
    pub fn cancel(&mut self, now_ms: u64)
        requires
            old(self).wf(),
        ensures
            final(self).cancelled_from(*old(self), now_ms),
            final(self).wf(),
    {
        let ghost start = self.results@;
        let total = self.results.len();
        let mut i: usize = 0;
        while i < total
            invariant
                i <= total,
                total == start.len(),
                start == old(self).results@,
                self.results@.len() == total,
                *self == (LoadRunner { results: self.results, ..*old(self) }),
                forall|j: int|
                    #![trigger self.results@[j]]
                    0 <= j < total ==> self.results@[j] == (if j < i {
                        copy_cancelled(start[j], now_ms)
                    } else {
                        start[j]
                    }),
            decreases total - i,
        {
            let open = match self.results[i].status {
                LoadStatus::Pending | LoadStatus::Running => true,
                _ => false,
            };
            if open {
                let started = match self.results[i].response {
                    ResponseState::InFlight { started_ms } => Some(started_ms),
                    _ => None,
                };
                if let Some(ms) = started {
                    self.results[i].total_ms = Some(
                        if now_ms >= ms {
                            now_ms - ms
                        } else {
                            0
                        },
                    );
                    self.results[i].response = ResponseState::Cancelled;
                }
                self.results[i].status = LoadStatus::Cancelled;
            }
            i = i + 1;
        }
        assert(self.results@ =~= start.map_values(|row: LoadRow| copy_cancelled(row, now_ms)));
        proof {
            lemma_cancel_counts(start, now_ms);
        }
        self.running = false;
        self.finished = true;
        self.cancelled = true;
        self.confirming_close = false;
    }
}

/// A copy after a cancel at a time.
pub open spec fn copy_cancelled(row: LoadRow, now_ms: u64) -> LoadRow {
    if row.status.open_ended() {
        match row.response {
            ResponseState::InFlight { started_ms } => LoadRow {
                status: LoadStatus::Cancelled,
                total_ms: Some(
                    (if now_ms >= started_ms {
                        now_ms - started_ms
                    } else {
                        0
                    }) as u64,
                ),
                response: ResponseState::Cancelled,
            },
            _ => LoadRow { status: LoadStatus::Cancelled, ..row },
        }
    } else {
        row
    }
}

proof fn lemma_counts_update(rows: Seq<LoadRow>, i: int, row: LoadRow)
    requires
        0 <= i < rows.len(),
        !rows[i].status.completed(),
        !row.status.completed(),
    ensures
        count_ok(rows.update(i, row)) == count_ok(rows),
        count_failed(rows.update(i, row)) == count_failed(rows),
        count_errored(rows.update(i, row)) == count_errored(rows),
    decreases rows.len(),
{
    if i < rows.len() - 1 {
        lemma_counts_update(rows.drop_last(), i, row);
        assert(rows.update(i, row).drop_last() =~= rows.drop_last().update(i, row));
    } else {
        assert(rows.update(i, row).drop_last() =~= rows.drop_last());
    }
}

/// Rows with the same statuses have the same counts.
pub proof fn lemma_same_counts(a: Seq<LoadRow>, b: Seq<LoadRow>)
    requires
        a.len() == b.len(),
        forall|i: int| 0 <= i < a.len() ==> (#[trigger] a[i]).status == b[i].status,
    ensures
        count_ok(a) == count_ok(b),
        count_failed(a) == count_failed(b),
        count_errored(a) == count_errored(b),
    decreases a.len(),
{
    if a.len() > 0 {
        assert forall|i: int| 0 <= i < a.drop_last().len() implies (
        #[trigger] a.drop_last()[i]).status == b.drop_last()[i].status by {
            assert(a[i].status == b[i].status);
        }
        assert(a[a.len() - 1].status == b[b.len() - 1].status);
        lemma_same_counts(a.drop_last(), b.drop_last());
    }
}

proof fn lemma_cancel_counts(rows: Seq<LoadRow>, now_ms: u64)
    ensures
        count_ok(rows.map_values(|row: LoadRow| copy_cancelled(row, now_ms))) == count_ok(rows),
        count_failed(rows.map_values(|row: LoadRow| copy_cancelled(row, now_ms))) == count_failed(
            rows,
        ),
        count_errored(rows.map_values(|row: LoadRow| copy_cancelled(row, now_ms)))
            == count_errored(rows),
    decreases rows.len(),
{
    let f = |row: LoadRow| copy_cancelled(row, now_ms);
    if rows.len() > 0 {
        lemma_cancel_counts(rows.drop_last(), now_ms);
        assert(rows.map_values(f).drop_last() =~= rows.drop_last().map_values(f));
    }
}

/// The longest time that std's `Duration` holds, in nanoseconds.
pub const LONGEST_NS: u128 = 18_446_744_073_709_551_615_999_999_999;

/// When copy `index` may be sent, in nanoseconds after the start of the run: its number
/// times the interval, as far as a time goes.
pub open spec fn launch_target(interval_ns: u64, index: usize) -> int {
    let target = interval_ns * (if index <= u32::MAX {
        index as int
    } else {
        u32::MAX as int
    });
    if target <= LONGEST_NS {
        target
    } else {
        LONGEST_NS as int
    }
}

/// How long copy `index` waits before it is sent, given the time since the run
/// started, in nanoseconds: no copy is sent earlier than its number times the
/// interval after the start.
pub open spec fn launch_wait(interval_ns: u64, index: usize, elapsed_ns: u128) -> u128 {
    let target = launch_target(interval_ns, index);
    if target > elapsed_ns {
        (target - elapsed_ns) as u128
    } else {
        0
    }
}

/// How long copy `index` waits before it is sent.
pub fn launch_delay(interval_ns: u64, index: usize, elapsed_ns: u128) -> (r: u128)
    ensures
        r == launch_wait(interval_ns, index, elapsed_ns),
{
    let n: u128 = if index <= u32::MAX as usize {
        index as u128
    } else {
        u32::MAX as u128
    };
    assert(interval_ns * n <= u64::MAX * (u32::MAX as int)) by (nonlinear_arith)
        requires
            interval_ns <= u64::MAX,
            n <= u32::MAX,
    ;
    let product: u128 = interval_ns as u128 * n;
    let target: u128 = if product <= LONGEST_NS {
        product
    } else {
        LONGEST_NS
    };
    if target > elapsed_ns {
        target - elapsed_ns
    } else {
        0
    }
}

/// The load surface: the run and the request that its copies are of.
#[derive(Debug)]
pub struct LoadSurface {
    /// The run, while the surface is open.
    pub runner: Option<LoadRunner>,
    /// The request with its variables filled in, which every copy is of.
    pub request: Option<Request>,
    /// Whether copies are being sent.
    pub in_flight: bool,
}

/// What an interrupt asks for: a record of the run that was cut short, and the
/// end of what is being sent.
#[derive(Debug)]
pub struct Interrupt {
    /// The record of the run, where one was under way.
    pub summary: Option<LoadSummary>,
    /// Whether what is being sent is to be aborted.
    pub abort: bool,
}

impl LoadSurface {
    /// The run is well formed.
    pub open spec fn wf(&self) -> bool {
        self.runner matches Some(r) ==> r.wf()
    }

    /// A closed surface.
    pub open spec fn closed() -> LoadSurface {
        LoadSurface { runner: None, request: None, in_flight: false }
    }

    /// A closed surface.
    pub fn new() -> (r: LoadSurface)
        ensures
            r == LoadSurface::closed(),
            r.wf(),
    {
        LoadSurface { runner: None, request: None, in_flight: false }
    }

    /// What an interrupt of the surface asks for.
    pub open spec fn interrupt_asks(self, i: Interrupt) -> bool {
        &&& i.abort == self.in_flight
        &&& match self.runner {
            Some(run) => if run.running {
                i.summary matches Some(s) && run.summarised(s, true)
            } else {
                i.summary is None
            },
            None => i.summary is None,
        }
    }

    /// The surface after an interrupt: nothing is being sent, and a result that
    /// is still to come is dropped.
    pub open spec fn interrupted(self) -> LoadSurface {
        LoadSurface {
            runner: match self.runner {
                Some(run) => Some(
                    LoadRunner { run_generation: bumped(run.run_generation), ..run },
                ),
                None => None,
            },
            in_flight: false,
            ..self
        }
    }

    /// Interrupts the run: a run that is under way is recorded as cut short, what
    /// is being sent is aborted, and the run is numbered anew.
    pub fn interrupt_running_batch(&mut self) -> (r: Interrupt)
        ensures
            *final(self) == old(self).interrupted(),
            old(self).interrupt_asks(r),
            old(self).wf() ==> final(self).wf(),
    {
        let summary = match &self.runner {
            Some(run) => if run.running {
                Some(run.summary(true))
            } else {
                None
            },
            None => None,
        };
        let abort = self.in_flight;
        self.in_flight = false;
        if let Some(run) = self.runner.as_mut() {
            run.run_generation = bump(run.run_generation);
        }
        Interrupt { summary, abort }
    }

    /// Starts the run, or starts it again: an earlier one is interrupted first.
    /// Returns what that asks for, and whether there are copies to be sent.
    pub fn start_load_run(&mut self) -> (r: (Interrupt, bool))
        ensures
            old(self).interrupt_asks(r.0),
            match (old(self).interrupted().runner, old(self).request) {
                (Some(run), Some(_)) => {
                    &&& r.1 == (run.cfg.total > 0)
                    &&& final(self).runner matches Some(new) && new.reset_from(run)
                    &&& *final(self) == (LoadSurface {
                        runner: final(self).runner,
                        ..old(self).interrupted()
                    })
                },
                _ => !r.1 && *final(self) == old(self).interrupted(),
            },
            old(self).wf() ==> final(self).wf(),
    {
        let interrupt = self.interrupt_running_batch();
        if self.request.is_none() {
            return (interrupt, false);
        }
        let mut drive = false;
        if let Some(run) = self.runner.as_mut() {
            drive = run.reset_for_run();
        }
        (interrupt, drive)
    }

    /// Cancels the run. Returns what the interrupt asks for, and what is said.
    pub fn cancel_load_run(&mut self, now_ms: u64) -> (r: (Interrupt, Option<Notice>))
        requires
            old(self).wf(),
        ensures
            old(self).interrupt_asks(r.0),
            match old(self).interrupted().runner {
                Some(run) => {
                    &&& r.1 == Some(Notice::LoadRunCancelled)
                    &&& final(self).runner matches Some(new) && new.cancelled_from(run, now_ms)
                    &&& *final(self) == (LoadSurface {
                        runner: final(self).runner,
                        ..old(self).interrupted()
                    })
                },
                None => r.1 is None && *final(self) == old(self).interrupted(),
            },
            final(self).wf(),
    {
        let interrupt = self.interrupt_running_batch();
        let mut said: Option<Notice> = None;
        if let Some(run) = self.runner.as_mut() {
            run.cancel(now_ms);
            said = Some(Notice::LoadRunCancelled);
        }
        (interrupt, said)
    }

    /// Closes the surface; a run that is under way is recorded as cut short.
    pub fn close(&mut self) -> (r: Interrupt)
        ensures
            old(self).interrupt_asks(r),
            *final(self) == LoadSurface::closed(),
            final(self).wf(),
    {
        let interrupt = self.interrupt_running_batch();
        self.runner = None;
        self.request = None;
        interrupt
    }
}

/// After a cancel no copy is left that has not ended, and a copy that had ended
/// is as it was.
pub proof fn law_load_cancel_ends_all(before: LoadRunner, after: LoadRunner, now_ms: u64, i: int)
    requires
        after.cancelled_from(before, now_ms),
        0 <= i < before.results@.len(),
    ensures
        after.results@.len() == before.results@.len(),
        !after.results@[i].status.open_ended(),
        before.results@[i].status.open_ended() ==> after.results@[i].status is Cancelled,
        !before.results@[i].status.open_ended() ==> after.results@[i] == before.results@[i],
        before.results@[i].status is Pending && !(before.results@[i].response is InFlight)
            ==> after.results@[i].total_ms == before.results@[i].total_ms,
{
}

/// A run that is under way is never lost: starting anew, cancelling and closing
/// each ask for a record of it that is marked as cut short.
pub proof fn law_interrupted_run_is_recorded(s: LoadSurface, i: Interrupt)
    requires
        s.interrupt_asks(i),
        s.runner is Some,
        s.runner->0.running,
    ensures
        i.summary is Some,
        i.summary->0.cancelled,
        i.summary->0.url == s.runner->0.url,
        i.summary->0.stats == s.runner->0.stats,
{
}

/// The results of a run come to the number of copies that ended with one, and
/// there are no more of them than copies.
pub proof fn law_load_counts_add_up(run: LoadRunner)
    requires
        run.wf(),
    ensures
        run.stats.ok + run.stats.failed + run.stats.errored == run.completed,
        run.completed <= run.results@.len(),
        run.completed == run.results@.len() <==> (forall|i: int|
            0 <= i < run.results@.len() ==> (#[trigger] run.results@[i]).status.completed()),
{
    lemma_counts_bound(run.results@);
}

/// A copy with a larger number never waits less, and with no interval no copy
/// waits.
pub proof fn law_launches_are_paced(interval_ns: u64, a: usize, b: usize, elapsed_ns: u128)
    requires
        a <= b,
    ensures
        launch_wait(interval_ns, a, elapsed_ns) <= launch_wait(interval_ns, b, elapsed_ns),
        launch_wait(0, b, elapsed_ns) == 0,
{
    let x = if a <= u32::MAX {
        a as int
    } else {
        u32::MAX as int
    };
    let y = if b <= u32::MAX {
        b as int
    } else {
        u32::MAX as int
    };
    assert(interval_ns * x <= interval_ns * y) by (nonlinear_arith)
        requires
            0 <= x <= y,
            interval_ns >= 0,
    ;
    assert(interval_ns * y <= u64::MAX * (u32::MAX as int)) by (nonlinear_arith)
        requires
            0 <= interval_ns <= u64::MAX,
            0 <= y <= u32::MAX,
    ;
}

/// The row of a copy that was answered says so with the status of its response: one of 400
/// or more is a failure and any lower one is not. The rows of the other copies stay.
pub proof fn law_answered_copy_is_judged_by_its_status(
    a: LoadRunner,
    b: LoadRunner,
    index: usize,
    landed: LoadLanded,
    latency: Latency,
    i: int,
)
    requires
        a.landed(b, index, Ok(landed), latency),
        index < a.results@.len(),
    ensures
        b.results@.len() == a.results@.len(),
        landed.status >= 400 ==> b.results@[index as int].status == LoadStatus::Failed(
            landed.status,
        ),
        landed.status < 400 ==> b.results@[index as int].status == LoadStatus::Passed(
            landed.status,
        ),
        b.results@[index as int].total_ms == Some(landed.total_ms),
        b.results@[index as int].response is Done,
        0 <= i < a.results@.len() && i != index ==> b.results@[i] == a.results@[i],
{
}

/// The row of a copy that got no response says why, and has no time.
pub proof fn law_unanswered_copy_keeps_its_error(
    a: LoadRunner,
    b: LoadRunner,
    index: usize,
    error: String,
    latency: Latency,
    i: int,
)
    requires
        a.landed(b, index, Err(error), latency),
        index < a.results@.len(),
    ensures
        b.results@[index as int].status == LoadStatus::Error(error),
        b.results@[index as int].total_ms is None,
        b.results@[index as int].response matches ResponseState::Failed { error: e, .. } && e
            == error,
        0 <= i < a.results@.len() && i != index ==> b.results@[i] == a.results@[i],
{
}

/// The counts of a run go up by the copy that landed: a response of 400 or more is one more
/// failed copy, a lower one is one more that is fine, and no response is one more error; the
/// other two counts stay.
pub proof fn law_landed_copy_is_counted_once(
    a: LoadRunner,
    b: LoadRunner,
    index: usize,
    outcome: Result<LoadLanded, String>,
    latency: Latency,
)
    requires
        a.wf(),
        a.landed(b, index, outcome, latency),
        index < a.results@.len(),
        a.results@[index as int].status is Pending || a.results@[index as int].status is Running,
    ensures
        b.completed == a.completed + 1,
        b.stats.ok + b.stats.failed + b.stats.errored == b.completed,
        b.stats.latency == latency,
        match outcome {
            Ok(l) => if l.status >= 400 {
                b.stats.failed == a.stats.failed + 1 && b.stats.ok == a.stats.ok && b.stats.errored
                    == a.stats.errored
            } else {
                b.stats.ok == a.stats.ok + 1 && b.stats.failed == a.stats.failed && b.stats.errored
                    == a.stats.errored
            },
            Err(_) => b.stats.errored == a.stats.errored + 1 && b.stats.ok == a.stats.ok
                && b.stats.failed == a.stats.failed,
        },
{
    lemma_counts_landed(a.results@, index as int, b.results@[index as int]);
    lemma_counts_bound(b.results@);
    assert(b.results.len() <= usize::MAX);
}

proof fn lemma_counts_landed(rows: Seq<LoadRow>, i: int, row: LoadRow)
    requires
        0 <= i < rows.len(),
        !rows[i].status.completed(),
    ensures
        count_ok(rows.update(i, row)) == count_ok(rows) + (if row.status is Passed {
            1int
        } else {
            0
        }),
        count_failed(rows.update(i, row)) == count_failed(rows) + (if row.status is Failed {
            1int
        } else {
            0
        }),
        count_errored(rows.update(i, row)) == count_errored(rows) + (if row.status is Error {
            1int
        } else {
            0
        }),
    decreases rows.len(),
{
    if i < rows.len() - 1 {
        lemma_counts_landed(rows.drop_last(), i, row);
        assert(rows.update(i, row).drop_last() =~= rows.drop_last().update(i, row));
    } else {
        assert(rows.update(i, row).drop_last() =~= rows.drop_last());
    }
}

/// A copy has a result where it was answered or failed to be, and in no other case.
pub proof fn law_completed_rows(rows: Seq<LoadRow>)
    ensures
        (forall|i: int| 0 <= i < rows.len() ==> (#[trigger] rows[i]).status.completed()) <==> (
        forall|i: int|
            0 <= i < rows.len() ==> (#[trigger] rows[i]).status is Passed || rows[i].status is Failed
                || rows[i].status is Error),
{
    if forall|i: int| 0 <= i < rows.len() ==> (#[trigger] rows[i]).status.completed() {
        assert forall|i: int| 0 <= i < rows.len() implies (#[trigger] rows[i]).status is Passed
            || rows[i].status is Failed || rows[i].status is Error by {
            assert(rows[i].status.completed());
        }
    }
    if forall|i: int|
        0 <= i < rows.len() ==> (#[trigger] rows[i]).status is Passed || rows[i].status is Failed
            || rows[i].status is Error {
        assert forall|i: int| 0 <= i < rows.len() implies (#[trigger] rows[i]).status.completed() by {
            assert(rows[i].status is Passed || rows[i].status is Failed || rows[i].status is Error);
        }
    }
}

/// Copy number `index` starts `index` intervals after the run: what is left of that time is
/// waited for, and nothing where it has passed.
pub proof fn law_copy_waits_for_its_turn(interval_ns: u64, index: usize, elapsed_ns: u128)
    requires
        index <= u32::MAX,
        interval_ns * index <= LONGEST_NS,
    ensures
        elapsed_ns <= interval_ns * index ==> launch_wait(interval_ns, index, elapsed_ns)
            == interval_ns * index - elapsed_ns,
        elapsed_ns >= interval_ns * index ==> launch_wait(interval_ns, index, elapsed_ns) == 0,
{
}

/// The counts of rows in a row are those of the first ones and of the rest together.
pub proof fn law_counts_add_up_over_parts(a: Seq<LoadRow>, b: Seq<LoadRow>, x: LoadRow)
    ensures
        count_ok(a + b) == count_ok(a) + count_ok(b),
        count_failed(a + b) == count_failed(a) + count_failed(b),
        count_errored(a + b) == count_errored(a) + count_errored(b),
        count_ok(seq![x]) == (if x.status is Passed {
            1int
        } else {
            0
        }),
        count_failed(seq![x]) == (if x.status is Failed {
            1int
        } else {
            0
        }),
        count_errored(seq![x]) == (if x.status is Error {
            1int
        } else {
            0
        }),
    decreases b.len(),
{
    assert(seq![x].drop_last() =~= Seq::<LoadRow>::empty());
    assert(count_ok(Seq::<LoadRow>::empty()) == 0);
    assert(count_failed(Seq::<LoadRow>::empty()) == 0);
    assert(count_errored(Seq::<LoadRow>::empty()) == 0);
    if b.len() == 0 {
        assert(a + b =~= a);
    } else {
        law_counts_add_up_over_parts(a, b.drop_last(), x);
        assert((a + b).drop_last() =~= a + b.drop_last());
        assert((a + b).last() == b.last());
    }
}

} // verus!
