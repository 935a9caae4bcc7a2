//! Opening, saving and closing endpoints, and switching between workspaces.


use vstd::prelude::*;

use crate::app::{
    App, DiskWork, Effect, PendingClose, PendingLoad, Resume, SaveError, TreeWork,
};
use crate::buffer::{
    dirty_flags, flight_of, flights, kept, lemma_buffer_at, lemma_updated_wf, BufferPlace, Buffers,
    CloseOutcome, EndpointBuffer, SelectedEndpoint,
};
use crate::explorer::{row_selects, rows_updated, Explorer};
use crate::keys::{Key, KeyEvent};
use crate::mode::{ConfirmPurpose, Mode};
use crate::model::{BodyKind, BodyView, Content, Endpoint};
use crate::notice::Notice;
use crate::workspace::Workspace;

verus! {

/// The tree as it was read again, and where the buffers' files are.
#[derive(Debug)]
pub struct Reload {
    /// The tree.
    pub explorer: Explorer,
    /// Of each buffer in order, whether its file is there, and in which collection.
    pub places: Vec<BufferPlace>,
}

/// The aborts of sends.
pub open spec fn aborts(generations: Seq<u64>) -> Seq<Effect> {
    generations.map_values(|g: u64| Effect::Abort(g))
}

/// The aborts of sends.
pub fn abort_all(generations: &Vec<u64>) -> (fx: Vec<Effect>)
    ensures
        fx@ == aborts(generations@),
{
    let mut fx: Vec<Effect> = Vec::new();
    let mut i: usize = 0;
    while i < generations.len()
        invariant
            i <= generations.len(),
            fx@ == aborts(generations@.take(i as int)),
        decreases generations.len() - i,
    {
        fx.push(Effect::Abort(generations[i]));
        assert(fx@ =~= aborts(generations@.take(i + 1)));
        i = i + 1;
    }
    assert(generations@.take(generations@.len() as int) =~= generations@);
    fx
}

/// The abort of a send that may be in flight.
pub open spec fn abort_of(generation: Option<u64>) -> Seq<Effect> {
    match generation {
        Some(g) => seq![Effect::Abort(g)],
        None => Seq::empty(),
    }
}

fn abort_if(generation: Option<u64>) -> (fx: Vec<Effect>)
    ensures
        fx@ == abort_of(generation),
{
    let mut fx: Vec<Effect> = Vec::new();
    if let Some(g) = generation {
        fx.push(Effect::Abort(g));
    }
    assert(fx@ =~= abort_of(generation));
    fx
}

impl App {
    /// The state with another tree, of which the files that could not be read are
    /// told.
    pub open spec fn tree_shown(self, after: App, explorer: Explorer) -> bool {
        &&& explorer.warns(
            if explorer.warnings@.len() == 0 {
                None
            } else {
                after.message
            },
        )
        &&& after.explorer == (Explorer { warnings: after.explorer.warnings, ..explorer })
        &&& after.explorer.warnings@.len() == 0
        &&& after == (App {
            explorer: after.explorer,
            message: if explorer.warnings@.len() == 0 {
                self.message
            } else {
                after.message
            },
            ..self
        })
    }

    /// Shows another tree, and tells of the files that could not be read.
    pub fn tree_changed(&mut self, explorer: Explorer)
        requires
            old(self).wf(),
            explorer.wf(),
        ensures
            old(self).tree_shown(*final(self), explorer),
            final(self).wf(),
    {
        self.explorer = explorer;
        self.surface_explorer_warnings();
    }

    /// Tells of the files that could not be read, where there are any.
    pub fn surface_explorer_warnings(&mut self)
        ensures
            old(self).tree_shown(*final(self), old(self).explorer),
            old(self).wf() ==> final(self).wf(),
    {
        let n = self.explorer.take_warnings();
        self.notify_if(n);
    }

    /// What reading the tree again does: the tree is shown, a buffer whose file is
    /// gone is dropped and the others know their collection, and the focus in the
    /// left column leaves a list of sequences that is empty.
    #[verifier::opaque]
    pub open spec fn reloaded(self, after: App, reload: Reload) -> bool {
        exists|mid: App|
            {
                &&& self.buffers.remapped(reload.places@, mid.buffers)
                &&& mid == (App { buffers: mid.buffers, ..self })
                &&& exists|shown: App|
                    {
                        &&& #[trigger] mid.tree_shown(shown, reload.explorer)
                        &&& after == (App {
                            panes: shown.panes.left_enforced(reload.explorer.sequences@.len()),
                            ..shown
                        })
                    }
            }
    }

    /// Takes in the tree as it was read again.
    pub fn reload_explorer(&mut self, reload: Reload)
        requires
            old(self).wf(),
            reload.explorer.wf(),
            reload.places@.len() == old(self).buffers.list@.len(),
        ensures
            old(self).reloaded(*final(self), reload),
            final(self).wf(),
    {
        reveal(App::reloaded);
        self.buffers.remap_buffers(&reload.places);
        let ghost mid = *self;
        self.tree_changed(reload.explorer);
        let ghost shown = *self;
        assert(mid.tree_shown(shown, reload.explorer));
        let n = self.explorer.sequences.len();
        self.panes.enforce_left_active_invariant(n);
    }

    /// The state with an endpoint opened, or its buffer shown.
    pub open spec fn opened(self, after: App, selected: SelectedEndpoint) -> bool {
        &&& self.buffers.opened(selected, after.buffers)
        &&& after == (App { buffers: after.buffers, ..self })
    }

    /// Opens an endpoint in a buffer of its own, or shows the buffer that it has.
    pub fn open_or_focus_buffer(&mut self, selected: SelectedEndpoint)
        requires
            old(self).wf(),
        ensures
            old(self).opened(*final(self), selected),
            final(self).wf(),
    {
        self.buffers.open_or_focus_buffer(selected);
    }

    /// Takes in the endpoint that the cursor was put on, to be opened.
    pub fn endpoint_selected(&mut self, selected: Option<SelectedEndpoint>)
        requires
            old(self).wf(),
        ensures
            match selected {
                Some(s) => old(self).opened(*final(self), s),
                None => *final(self) == *old(self),
            },
            final(self).wf(),
    {
        if let Some(s) = selected {
            self.open_or_focus_buffer(s);
        }
    }

    /// The state with the cursor of the tree on a row.
    pub open spec fn at_row(self, row: usize) -> App {
        App { explorer: Explorer { cursor: row, ..self.explorer }, ..self }
    }

    /// What a load does: the endpoint of a row is opened, or its collection folded or
    /// unfolded; a file and a workspace are to be found first.
    #[verifier::opaque]
    pub open spec fn loads(self, after: App, target: PendingLoad, fx: Seq<Effect>) -> bool {
        match target {
            PendingLoad::Row(row) => if row < self.explorer.rows@.len()
                && self.explorer.rows@[row as int].endpoint is Some {
                &&& fx.len() == 0
                &&& exists|s: SelectedEndpoint|
                    row_selects(self.explorer.rows@[row as int], s) && #[trigger] self.at_row(
                        row,
                    ).opened(after, s)
            } else {
                &&& after == self.at_row(row)
                &&& fx == seq![Effect::Tree(TreeWork::Toggle(row))]
            },
            PendingLoad::File(file) => after == self && fx == seq![
                Effect::Tree(TreeWork::OpenFile(file)),
            ],
            PendingLoad::Workspace(path) => after == self && fx == seq![
                Effect::Disk(DiskWork::OpenWorkspace(path)),
            ],
        }
    }

    /// Loads an endpoint or a workspace.
    pub fn perform_load(&mut self, target: PendingLoad) -> (fx: Vec<Effect>)
        requires
            old(self).wf(),
        ensures
            old(self).loads(*final(self), target, fx@),
            final(self).wf(),
    {
        reveal(App::loads);
        match target {
            PendingLoad::Row(row) => {
                self.explorer.cursor = row;
                let selected = self.explorer.endpoint_at(row);
                match selected {
                    Some(s) => {
                        self.open_or_focus_buffer(s);
                        Vec::new()
                    },
                    None => {
                        let fx = vec![Effect::Tree(TreeWork::Toggle(row))];
                        assert(fx@ =~= seq![Effect::Tree(TreeWork::Toggle(row))]);
                        fx
                    },
                }
            },
            PendingLoad::File(file) => {
                let fx = vec![Effect::Tree(TreeWork::OpenFile(file))];
                assert(fx@ =~= seq![Effect::Tree(TreeWork::OpenFile(file))]);
                fx
            },
            PendingLoad::Workspace(path) => {
                let fx = vec![Effect::Disk(DiskWork::OpenWorkspace(path))];
                assert(fx@ =~= seq![Effect::Disk(DiskWork::OpenWorkspace(path))]);
                fx
            },
        }
    }

    /// What a load that asks first does: a switch of the workspace, which drops every
    /// buffer, waits for an answer where one has unsaved changes; opening an
    /// endpoint drops nothing and never waits.
    #[verifier::opaque]
    pub open spec fn guards_load(self, after: App, target: PendingLoad, fx: Seq<Effect>) -> bool {
        if target is Workspace && self.buffers.some_dirty() {
            &&& after == (App {
                pending_load: Some(target),
                mode: Mode::Confirm(ConfirmPurpose::DiscardChanges),
                ..self
            })
            &&& fx.len() == 0
        } else {
            self.loads(after, target, fx)
        }
    }

    /// Loads an endpoint or a workspace, and asks first where unsaved changes would
    /// be lost.
    pub fn guarded_load(&mut self, target: PendingLoad) -> (fx: Vec<Effect>)
        requires
            old(self).wf(),
        ensures
            old(self).guards_load(*final(self), target, fx@),
            final(self).wf(),
    {
        reveal(App::guards_load);
        let switches = match target {
            PendingLoad::Workspace(_) => true,
            _ => false,
        };
        if switches && self.buffers.any_buffer_dirty() {
            self.pending_load = Some(target);
            self.mode = Mode::Confirm(ConfirmPurpose::DiscardChanges);
            return Vec::new();
        }
        self.perform_load(target)
    }

    /// Enter, or a jump label, on a row of the tree.
    pub fn activate_explorer_row(&mut self, row: usize) -> (fx: Vec<Effect>)
        requires
            old(self).wf(),
        ensures
            old(self).at_row(row).guards_load(*final(self), PendingLoad::Row(row), fx@),
            final(self).wf(),
    {
        self.explorer.cursor = row;
        self.guarded_load(PendingLoad::Row(row))
    }

    /// What opening another workspace does: where it could not be opened that is
    /// said and nothing changes; else nothing of the old one is left, and what was in
    /// flight is aborted.
    #[verifier::opaque]
    pub open spec fn switches(
        self,
        after: App,
        path: String,
        opened: Result<(Workspace, Explorer), String>,
        fx: Seq<Effect>,
    ) -> bool {
        match opened {
            Err(err) => after == self.told(Notice::OpenFailed { err }) && fx.len() == 0,
            Ok((ws, explorer)) => {
                &&& fx == aborts(flights(self.buffers.list@)) + (if self.has_history {
                    seq![Effect::TouchWorkspace(path)]
                } else {
                    Seq::empty()
                })
                &&& after.buffers.list@.len() == 0
                &&& after.buffers.active == 0
                &&& after == (App {
                    workspace: Some(ws),
                    explorer: Explorer { cursor: 0, ..explorer },
                    buffers: after.buffers,
                    active_profile: None,
                    pending_load: None,
                    panes: self.panes.workspace_reset(explorer.sequences@.len()),
                    message: Some(Notice::SwitchedTo { name: ws.name }),
                    ..self
                })
            },
        }
    }

    /// Takes in another workspace, or why it could not be opened.
    pub fn switch_workspace(
        &mut self,
        path: String,
        opened: Result<(Workspace, Explorer), String>,
    ) -> (fx: Vec<Effect>)
        requires
            old(self).wf(),
            opened matches Ok((ws, explorer)) ==> ws.wf() && explorer.wf(),
        ensures
            old(self).switches(*final(self), path, opened, fx@),
            final(self).wf(),
    {
        reveal(App::switches);
        let (ws, explorer) = match opened {
            Ok(o) => o,
            Err(err) => {
                self.message = Some(Notice::OpenFailed { err });
                return Vec::new();
            },
        };
        let generations = self.buffers.all_flights();
        let mut fx = abort_all(&generations);
        let ghost first = fx@;
        if self.has_history {
            fx.push(Effect::TouchWorkspace(path));
        }
        assert(fx@ =~= first + (if self.has_history {
            seq![Effect::TouchWorkspace(path)]
        } else {
            Seq::empty()
        }));
        let name = ws.name.clone();
        let n = explorer.sequences.len();
        self.workspace = Some(ws);
        self.explorer = explorer;
        self.explorer.cursor = 0;
        self.buffers.clear();
        self.active_profile = None;
        self.pending_load = None;
        self.panes.reset_for_workspace(n);
        self.message = Some(Notice::SwitchedTo { name });
        fx
    }

    /// What saving the open endpoint does: what was typed in the editor goes into
    /// the body, and the endpoint is to be written to its file.
    #[verifier::opaque]
    pub open spec fn saves(self, after: App, fx: Seq<Effect>) -> bool {
        if !self.buffers.loaded() {
            after == self.told(Notice::NoEndpointToSave) && fx.len() == 0
        } else {
            let b = self.buffers.current();
            let new = after.buffers.list@[self.buffers.active as int];
            &&& self.buffer_changed(after, new)
            &&& b.synced(new)
            &&& fx.len() == 1
            &&& asks_to_save(b, fx[0])
        }
    }

    /// Saves the open endpoint.
    pub fn save_request(&mut self) -> (fx: Vec<Effect>)
        requires
            old(self).wf(),
        ensures
            old(self).saves(*final(self), fx@),
            final(self).wf(),
    {
        reveal(App::saves);
        let i = self.buffers.active;
        if i >= self.buffers.list.len() {
            self.message = Some(Notice::NoEndpointToSave);
            return Vec::new();
        }
        self.buffers.list[i].sync_body();
        proof {
            assert(self.buffers.list@ =~= old(self).buffers.list@.update(
                i as int,
                self.buffers.list@[i as int],
            ));
            lemma_updated_wf(old(self).buffers, self.buffers);
        }
        let path = self.buffers.list[i].endpoint.file.clone();
        let endpoint = self.buffers.list[i].endpoint.endpoint.copy();
        vec![Effect::Disk(DiskWork::SaveEndpoint { path, endpoint })]
    }

    /// What a save of an endpoint does: where it was written, it is what the buffer
    /// of its file is measured against, and the tree shows it; where it was not,
    /// that is said and the buffer keeps its changes.
    #[verifier::opaque]
    pub open spec fn saved(
        self,
        after: App,
        path: String,
        endpoint: Endpoint,
        result: Result<(), SaveError>,
    ) -> bool {
        match result {
            Ok(_) => {
                let at = crate::buffer::buffer_at(self.buffers.list@, path@);
                &&& if at < self.buffers.list@.len() {
                    let b = self.buffers.list@[at];
                    let new = after.buffers.list@[at];
                    &&& after.buffers.list@ == self.buffers.list@.update(at, new)
                    &&& new.loaded_snapshot@ == endpoint@
                    &&& new == (EndpointBuffer { loaded_snapshot: new.loaded_snapshot, ..b })
                    &&& after.buffers.active == self.buffers.active
                } else {
                    after.buffers == self.buffers
                }
                &&& rows_updated(self.explorer.rows@, after.explorer.rows@, path@, endpoint@)
                &&& after == (App {
                    buffers: after.buffers,
                    explorer: Explorer { rows: after.explorer.rows, ..self.explorer },
                    message: Some(Notice::Saved { name: endpoint.name }),
                    ..self
                })
            },
            Err(SaveError::Secrets(names)) => after == self.told(
                Notice::SecretsRefused { names },
            ),
            Err(SaveError::Other(err)) => after == self.told(Notice::SaveFailed { err }),
        }
    }

    /// Takes in whether an endpoint could be saved.
    pub fn endpoint_saved(
        &mut self,
        path: String,
        endpoint: Endpoint,
        result: Result<(), SaveError>,
    )
        requires
            old(self).wf(),
        ensures
            old(self).saved(*final(self), path, endpoint, result),
            final(self).wf(),
    {
        reveal(App::saved);
        match result {
            Ok(_) => {
                proof {
                    lemma_buffer_at(self.buffers.list@, path@);
                }
                if let Some(i) = self.buffers.buffer_index_for_path(&path) {
                    self.buffers.list[i].loaded_snapshot = endpoint.copy();
                    proof {
                        assert(self.buffers.list@ =~= old(self).buffers.list@.update(
                            i as int,
                            self.buffers.list@[i as int],
                        ));
                        assert forall|j: int| 0 <= j < self.buffers.list@.len() implies (
                        #[trigger] self.buffers.list@[j]).wf() by {
                            assert(old(self).buffers.list@[j].wf());
                        }
                    }
                }
                self.explorer.update_endpoint(&path, &endpoint);
                self.message = Some(Notice::Saved { name: endpoint.name });
            },
            Err(SaveError::Secrets(names)) => {
                self.message = Some(Notice::SecretsRefused { names });
            },
            Err(SaveError::Other(err)) => {
                self.message = Some(Notice::SaveFailed { err });
            },
        }
    }
}

/// A save of a buffer: its endpoint, with what was typed, is to be written to its
/// file.
pub open spec fn asks_to_save(b: EndpointBuffer, e: Effect) -> bool {
    e matches Effect::Disk(DiskWork::SaveEndpoint { path, endpoint }) && path == b.endpoint.file
        && endpoint@ == b.live()
}

/// The buffers with unsaved changes, with what was typed in their bodies.
pub open spec fn all_synced(before: Seq<EndpointBuffer>, after: Seq<EndpointBuffer>) -> bool {
    &&& after.len() == before.len()
    &&& forall|i: int|
        #![trigger after[i]]
        0 <= i < before.len() ==> if before[i].dirty() {
            before[i].synced(after[i])
        } else {
            after[i] == before[i]
        }
}

/// A save of each of some buffers, in order.
pub open spec fn saves_each(list: Seq<EndpointBuffer>, fx: Seq<Effect>) -> bool {
    &&& fx.len() == list.len()
    &&& forall|i: int| 0 <= i < list.len() ==> asks_to_save(#[trigger] list[i], fx[i])
}

impl Buffers {
    /// Saves every buffer with unsaved changes.
    pub fn save_all_dirty_buffers(&mut self) -> (fx: Vec<Effect>)
        requires
            old(self).wf(),
        ensures
            all_synced(old(self).list@, final(self).list@),
            saves_each(kept(old(self).list@, dirty_flags(old(self).list@)), fx@),
            final(self).active == old(self).active,
            final(self).wf(),
    {
        let ghost before = self.list@;
        let ghost flags = dirty_flags(before);
        let mut fx: Vec<Effect> = Vec::new();
        let mut i: usize = 0;
        let total = self.list.len();
        assert(before.take(0) =~= Seq::empty());
        while i < total
            invariant
                i <= total,
                total == before.len(),
                before == old(self).list@,
                flags == dirty_flags(before),
                self.active == old(self).active,
                self.wf(),
                self.list@.len() == total,
                forall|j: int|
                    #![trigger self.list@[j]]
                    0 <= j < total ==> if j < i && before[j].dirty() {
                        before[j].synced(self.list@[j])
                    } else {
                        self.list@[j] == before[j]
                    },
                saves_each(kept(before.take(i as int), flags.take(i as int)), fx@),
            decreases total - i,
        {
            let ghost mid = self.list@;
            let ghost fx0 = fx@;
            proof {
                assert(before.take(i + 1).drop_last() =~= before.take(i as int));
                assert(flags.take(i + 1).drop_last() =~= flags.take(i as int));
                assert(flags.take(i + 1).last() == before[i as int].dirty());
                assert(mid[i as int] == before[i as int]);
            }
            if self.list[i].is_dirty() {
                self.list[i].sync_body();
                let path = self.list[i].endpoint.file.clone();
                let endpoint = self.list[i].endpoint.endpoint.copy();
                fx.push(Effect::Disk(DiskWork::SaveEndpoint { path, endpoint }));
                proof {
                    let k = kept(before.take(i as int), flags.take(i as int));
                    let n = kept(before.take(i + 1), flags.take(i + 1));
                    assert(n == k.push(before[i as int]));
                    assert(asks_to_save(before[i as int], fx@.last()));
                    assert forall|j: int| 0 <= j < n.len() implies asks_to_save(
                        #[trigger] n[j],
                        fx@[j],
                    ) by {
                        if j < k.len() {
                            assert(n[j] == k[j]);
                            assert(fx@[j] == fx0[j]);
                        }
                    }
                }
            }
            proof {
                assert forall|j: int| 0 <= j < self.list@.len() implies (
                #[trigger] self.list@[j]).wf() by {
                    assert(mid[j].wf());
                }
            }
            i = i + 1;
        }
        proof {
            assert(before.take(total as int) =~= before);
            assert(flags.take(total as int) =~= flags);
        }
        fx
    }
}

impl App {
    /// What closing a buffer does: one with unsaved changes waits for an answer, and
    /// another goes, with its send aborted.
    #[verifier::opaque]
    pub open spec fn closes(self, after: App, i: usize, fx: Seq<Effect>) -> bool {
        if i >= self.buffers.list@.len() {
            after == self && fx.len() == 0
        } else if self.buffers.list@[i as int].dirty() {
            &&& after == (App {
                pending_close: Some(PendingClose::One(self.buffers.list@[i as int].endpoint.file)),
                mode: Mode::Confirm(ConfirmPurpose::DiscardChanges),
                ..self
            })
            &&& fx.len() == 0
        } else {
            self.drops(after, i, fx)
        }
    }

    /// The state without a buffer, whose send is aborted.
    pub open spec fn drops(self, after: App, i: usize, fx: Seq<Effect>) -> bool {
        &&& fx == abort_of(flight_of(self.buffers.list@[i as int]))
        &&& after.buffers.list@ == self.buffers.list@.remove(i as int)
        &&& after.buffers.active == Buffers::active_after_close(
            self.buffers.active as int,
            i as int,
            (self.buffers.list@.len() - 1) as nat,
        )
        &&& after == (App { buffers: after.buffers, ..self })
    }

    /// Closes a buffer.
    pub fn close_buffer(&mut self, i: usize) -> (fx: Vec<Effect>)
        requires
            old(self).wf(),
        ensures
            old(self).closes(*final(self), i, fx@),
            final(self).wf(),
    {
        reveal(App::closes);
        match self.buffers.close_buffer(i) {
            CloseOutcome::Nothing => Vec::new(),
            CloseOutcome::Deferred { path } => {
                self.pending_close = Some(PendingClose::One(path));
                self.mode = Mode::Confirm(ConfirmPurpose::DiscardChanges);
                Vec::new()
            },
            CloseOutcome::Closed { abort } => abort_if(abort),
        }
    }

    /// The state with no buffers.
    pub open spec fn emptied(self, after: App) -> bool {
        &&& after.buffers.list@.len() == 0
        &&& after.buffers.active == 0
        &&& after == (App { buffers: after.buffers, ..self })
    }

    /// The state once the question about the next buffer is asked, or, where none is
    /// left, the close is over.
    pub open spec fn asks_next(self, after: App, queue: Seq<String>) -> bool {
        let n = self.buffers.settled(queue);
        if n < queue.len() {
            &&& after.pending_close matches Some(PendingClose::All(q)) && q@ == queue.skip(n)
            &&& after == (App {
                pending_close: after.pending_close,
                mode: Mode::Confirm(ConfirmPurpose::DiscardChanges),
                ..self
            })
        } else {
            App { pending_close: None, mode: Mode::Normal, ..self }.emptied(after)
        }
    }

    /// Asks about the next buffer of those that are to be closed.
    pub fn prompt_next_close_in_queue(&mut self)
        requires
            old(self).wf(),
        ensures
            match old(self).pending_close {
                Some(PendingClose::All(q)) => old(self).asks_next(*final(self), q@),
                _ => *final(self) == *old(self),
            },
            final(self).wf(),
    {
        let is_all = match &self.pending_close {
            Some(PendingClose::All(_)) => true,
            _ => false,
        };
        if !is_all {
            return;
        }
        let taken = self.pending_close.take();
        if let Some(PendingClose::All(q)) = taken {
            let mut queue = q;
            let ghost start = queue@;
            let ask = self.buffers.skip_settled(&mut queue);
            if ask {
                self.pending_close = Some(PendingClose::All(queue));
                self.mode = Mode::Confirm(ConfirmPurpose::DiscardChanges);
            } else {
                self.pending_close = None;
                self.buffers.clear();
                self.mode = Mode::Normal;
            }
        }
    }

    /// What closing all buffers does: those without unsaved changes go, with their
    /// sends aborted, and the others are asked about one after the other.
    #[verifier::opaque]
    pub open spec fn closes_all(self, after: App, fx: Seq<Effect>) -> bool {
        exists|mid: Buffers, queue: Seq<String>, generations: Seq<u64>|
            {
                &&& #[trigger] self.buffers.closed_all(mid, queue, generations)
                &&& fx == aborts(generations)
                &&& if queue.len() == 0 {
                    self.emptied(after)
                } else {
                    exists|mid_app: App|
                        {
                            &&& mid_app.pending_close matches Some(PendingClose::All(q)) && q@
                                == queue
                            &&& mid_app == (App {
                                buffers: mid,
                                pending_close: mid_app.pending_close,
                                ..self
                            })
                            &&& #[trigger] mid_app.asks_next(after, queue)
                        }
                }
            }
    }

    /// Closes all buffers.
    pub fn close_all_buffers(&mut self) -> (fx: Vec<Effect>)
        requires
            old(self).wf(),
        ensures
            old(self).closes_all(*final(self), fx@),
            final(self).wf(),
    {
        reveal(App::closes_all);
        let mut generations: Vec<u64> = Vec::new();
        let queue = self.buffers.close_all_buffers(&mut generations);
        let ghost mid = self.buffers;
        let ghost q = queue@;
        let fx = abort_all(&generations);
        proof {
            assert(generations@.skip(0) =~= generations@);
            assert(old(self).buffers.closed_all(mid, q, generations@));
        }
        if queue.len() == 0 {
            self.buffers.clear();
            return fx;
        }
        self.pending_close = Some(PendingClose::All(queue));
        let ghost mid_app = *self;
        self.prompt_next_close_in_queue();
        assert(mid_app.asks_next(*self, q));
        fx
    }

    /// The state once a question about a buffer is settled: the close is over, or the
    /// next buffer is asked about.
    #[verifier::opaque]
    pub open spec fn close_advanced(self, after: App) -> bool {
        match self.pending_close {
            Some(PendingClose::One(_)) => after == (App {
                pending_close: None,
                mode: Mode::Normal,
                ..self
            }),
            Some(PendingClose::All(q)) => self.asks_next(
                after,
                if q@.len() > 0 {
                    q@.skip(1)
                } else {
                    q@
                },
            ),
            None => after == self.in_mode(Mode::Normal),
        }
    }

    /// Goes on once a question about a buffer is settled.
    pub fn advance_close(&mut self)
        requires
            old(self).wf(),
        ensures
            old(self).close_advanced(*final(self)),
            final(self).wf(),
    {
        reveal(App::close_advanced);
        let taken = self.pending_close.take();
        match taken {
            Some(PendingClose::One(_)) => {
                self.mode = Mode::Normal;
            },
            Some(PendingClose::All(q)) => {
                let mut queue = q;
                let ghost start = queue@;
                if queue.len() > 0 {
                    let gone = queue.pop_front();
                    assert(queue@ =~= start.skip(1));
                }
                self.pending_close = Some(PendingClose::All(queue));
                self.prompt_next_close_in_queue();
            },
            None => {
                self.mode = Mode::Normal;
            },
        }
    }

    /// The file that is asked about.
    pub open spec fn asked_file(&self) -> Option<Seq<char>> {
        match self.pending_close {
            Some(PendingClose::One(p)) => Some(p@),
            Some(PendingClose::All(q)) => if q@.len() > 0 {
                Some(q@[0]@)
            } else {
                None
            },
            None => None,
        }
    }

    /// The state with the close given up; what was closed stays closed.
    pub open spec fn close_aborted(self) -> App {
        App { pending_close: None, mode: Mode::Normal, ..self }
    }

    /// What saving the buffer that is asked about does: it is shown and saved, and
    /// the close goes on after that.
    #[verifier::opaque]
    pub open spec fn saves_asked(self, after: App, at: usize, fx: Seq<Effect>) -> bool {
        &&& fx.len() == 2
        &&& App { buffers: Buffers { active: at, ..self.buffers }, ..self }.saves(
            after,
            seq![fx[0]],
        )
        &&& fx[1] == Effect::ThenResume(Resume::Close)
    }

    fn save_asked(&mut self, at: usize) -> (fx: Vec<Effect>)
        requires
            old(self).wf(),
            at < old(self).buffers.list@.len(),
        ensures
            old(self).saves_asked(*final(self), at, fx@),
            final(self).wf(),
    {
        reveal(App::saves_asked);
        self.buffers.active = at;
        let ghost focused = *self;
        let mut fx = self.save_request();
        proof {
            reveal(App::saves);
            assert(fx@ =~= seq![fx@[0]]);
        }
        let ghost first = fx@[0];
        fx.push(Effect::ThenResume(Resume::Close));
        assert(focused.saves(*self, seq![first]));
        fx
    }

    /// What dropping the buffer that is asked about does: it goes, and the close goes
    /// on.
    #[verifier::opaque]
    pub open spec fn drops_asked(self, after: App, at: usize, fx: Seq<Effect>) -> bool {
        exists|mid: App| #[trigger] self.drops(mid, at, fx) && mid.close_advanced(after)
    }

    fn drop_asked(&mut self, at: usize) -> (fx: Vec<Effect>)
        requires
            old(self).wf(),
            at < old(self).buffers.list@.len(),
        ensures
            old(self).drops_asked(*final(self), at, fx@),
            final(self).wf(),
    {
        reveal(App::drops_asked);
        let abort = self.buffers.remove_buffer_at(at);
        let fx = abort_if(abort);
        let ghost mid = *self;
        assert(old(self).drops(mid, at, fx@));
        self.advance_close();
        fx
    }

    /// What a key does while a buffer with unsaved changes is asked about: `s` saves
    /// it and goes on once it is saved, `d` drops its changes and goes on, and Esc
    /// gives the close up. A buffer that is gone is settled.
    #[verifier::opaque]
    pub open spec fn close_keyed(self, after: App, key: KeyEvent, fx: Seq<Effect>) -> bool {
        match self.pending_close {
            None => after == self && fx.len() == 0,
            Some(_) => match self.asked_file() {
                None => after == self.close_aborted() && fx.len() == 0,
                Some(path) => {
                    let at = crate::buffer::buffer_at(self.buffers.list@, path);
                    if at >= self.buffers.list@.len() {
                        self.close_advanced(after) && fx.len() == 0
                    } else {
                        match key.code {
                            Key::Esc => after == self.close_aborted() && fx.len() == 0,
                            Key::Char('s') => self.saves_asked(after, at as usize, fx),
                            Key::Char('d') => self.drops_asked(after, at as usize, fx),
                            _ => after == self && fx.len() == 0,
                        }
                    }
                },
            },
        }
    }

    /// Handles a key while a buffer with unsaved changes is asked about.
    pub fn handle_close_confirm_key(&mut self, key: KeyEvent) -> (fx: Vec<Effect>)
        requires
            old(self).wf(),
        ensures
            old(self).close_keyed(*final(self), key, fx@),
            final(self).wf(),
    {
        reveal(App::close_keyed);
        let path = match &self.pending_close {
            Some(PendingClose::One(p)) => p.clone(),
            Some(PendingClose::All(q)) => if q.len() > 0 {
                q[0].clone()
            } else {
                self.pending_close = None;
                self.mode = Mode::Normal;
                return Vec::new();
            },
            None => {
                return Vec::new();
            },
        };
        proof {
            lemma_buffer_at(self.buffers.list@, path@);
        }
        let idx: usize = match self.buffers.buffer_index_for_path(&path) {
            Some(i) => i,
            None => {
                self.advance_close();
                return Vec::new();
            },
        };
        match key.code {
            Key::Char('s') => self.save_asked(idx),
            Key::Char('d') => self.drop_asked(idx),
            Key::Esc => {
                self.pending_close = None;
                self.mode = Mode::Normal;
                Vec::new()
            },
            _ => Vec::new(),
        }
    }

    /// What goes on once the buffer that was asked about was to be saved: where it
    /// was, it goes and the next is asked about; where it was not, the close is given
    /// up and the buffer stays.
    #[verifier::opaque]
    pub open spec fn close_resumed(self, after: App, fx: Seq<Effect>) -> bool {
        if self.buffers.current_dirty() {
            after == self.close_aborted() && fx.len() == 0
        } else if self.buffers.loaded() {
            exists|mid: App| #[trigger] self.drops(mid, self.buffers.active, fx)
                && mid.close_advanced(after)
        } else {
            self.close_advanced(after) && fx.len() == 0
        }
    }

    /// Goes on once the buffer that was asked about was to be saved.
    pub fn resume_close(&mut self) -> (fx: Vec<Effect>)
        requires
            old(self).wf(),
        ensures
            old(self).close_resumed(*final(self), fx@),
            final(self).wf(),
    {
        reveal(App::close_resumed);
        if self.buffers.is_dirty() {
            self.pending_close = None;
            self.mode = Mode::Normal;
            return Vec::new();
        }
        let i = self.buffers.active;
        if i < self.buffers.list.len() {
            let abort = self.buffers.remove_buffer_at(i);
            let fx = abort_if(abort);
            let ghost mid = *self;
            assert(old(self).drops(mid, i, fx@));
            self.advance_close();
            return fx;
        }
        self.advance_close();
        Vec::new()
    }

    /// What goes on once the buffers with unsaved changes were to be saved: where all
    /// were, the load that waited is made; where one was not, it is given up.
    #[verifier::opaque]
    pub open spec fn load_resumed(self, after: App, fx: Seq<Effect>) -> bool {
        if self.buffers.some_dirty() {
            after == (App { pending_load: None, ..self }) && fx.len() == 0
        } else {
            match self.pending_load {
                Some(target) => App { pending_load: None, ..self }.loads(after, target, fx),
                None => after == self && fx.len() == 0,
            }
        }
    }

    /// Goes on once the buffers with unsaved changes were to be saved.
    pub fn resume_load(&mut self) -> (fx: Vec<Effect>)
        requires
            old(self).wf(),
        ensures
            old(self).load_resumed(*final(self), fx@),
            final(self).wf(),
    {
        reveal(App::load_resumed);
        if self.buffers.any_buffer_dirty() {
            self.pending_load = None;
            return Vec::new();
        }
        match self.pending_load.take() {
            Some(target) => self.perform_load(target),
            None => Vec::new(),
        }
    }

    /// What a key does while it is asked whether changes are to be dropped before a
    /// load: `s` saves them all first, `d` drops them, and Esc stays.
    #[verifier::opaque]
    pub open spec fn discard_keyed(self, after: App, key: KeyEvent, fx: Seq<Effect>) -> bool {
        match key.code {
            Key::Esc => after == (App { mode: Mode::Normal, pending_load: None, ..self })
                && fx.len() == 0,
            Key::Char('s') => {
                let dirty = kept(self.buffers.list@, dirty_flags(self.buffers.list@));
                &&& fx.len() == dirty.len() + 1
                &&& saves_each(dirty, fx.drop_last())
                &&& fx.last() == Effect::ThenResume(Resume::Load)
                &&& all_synced(self.buffers.list@, after.buffers.list@)
                &&& after == (App {
                    mode: Mode::Normal,
                    buffers: Buffers { list: after.buffers.list, active: self.buffers.active },
                    ..self
                })
            },
            Key::Char('d') => exists|mid: App|
                {
                    &&& #[trigger] self.in_mode(Mode::Normal).emptied(mid)
                    &&& match self.pending_load {
                        Some(target) => App { pending_load: None, ..mid }.loads(after, target, fx),
                        None => after == mid && fx.len() == 0,
                    }
                },
            _ => after == self && fx.len() == 0,
        }
    }

    fn discard_key(&mut self, key: KeyEvent) -> (fx: Vec<Effect>)
        requires
            old(self).wf(),
        ensures
            old(self).discard_keyed(*final(self), key, fx@),
            final(self).wf(),
    {
        reveal(App::discard_keyed);
        match key.code {
            Key::Char('s') => {
                self.mode = Mode::Normal;
                let mut fx = self.buffers.save_all_dirty_buffers();
                let ghost first = fx@;
                fx.push(Effect::ThenResume(Resume::Load));
                assert(fx@.drop_last() =~= first);
                fx
            },
            Key::Char('d') => {
                self.mode = Mode::Normal;
                self.buffers.clear();
                let ghost mid = *self;
                assert(old(self).in_mode(Mode::Normal).emptied(mid));
                match self.pending_load.take() {
                    Some(target) => self.perform_load(target),
                    None => Vec::new(),
                }
            },
            Key::Esc => {
                self.mode = Mode::Normal;
                self.pending_load = None;
                Vec::new()
            },
            _ => Vec::new(),
        }
    }

    /// What a key does in a question.
    #[verifier::opaque]
    pub open spec fn confirm_keyed(
        self,
        after: App,
        key: KeyEvent,
        purpose: ConfirmPurpose,
        fx: Seq<Effect>,
    ) -> bool {
        match purpose {
            ConfirmPurpose::DeleteEndpoint => match key.code {
                Key::Char('y') => {
                    &&& after == self.in_mode(Mode::Normal)
                    &&& fx == (match self.explorer.endpoint_file() {
                        Some(path) => seq![Effect::Disk(DiskWork::DeleteEndpoint(path))],
                        None => Seq::empty(),
                    })
                },
                Key::Char('n') | Key::Esc => after == self.in_mode(Mode::Normal) && fx.len() == 0,
                _ => after == self && fx.len() == 0,
            },
            ConfirmPurpose::DeleteSequence => match key.code {
                Key::Char('y') => {
                    &&& after == self.in_mode(Mode::Normal)
                    &&& fx == (match self.explorer.sequence() {
                        Some(item) => seq![Effect::Disk(DiskWork::DeleteSequence(item.file))],
                        None => Seq::empty(),
                    })
                },
                Key::Char('n') | Key::Esc => after == self.in_mode(Mode::Normal) && fx.len() == 0,
                _ => after == self && fx.len() == 0,
            },
            ConfirmPurpose::DiscardChanges => if self.pending_close is Some {
                self.close_keyed(after, key, fx)
            } else {
                self.discard_keyed(after, key, fx)
            },
        }
    }

    /// Handles a key in a question.
    pub fn handle_confirm_key(&mut self, key: KeyEvent, purpose: ConfirmPurpose) -> (fx: Vec<
        Effect,
    >)
        requires
            old(self).wf(),
        ensures
            old(self).confirm_keyed(*final(self), key, purpose, fx@),
            final(self).wf(),
    {
        reveal(App::confirm_keyed);
        match purpose {
            ConfirmPurpose::DeleteEndpoint => match key.code {
                Key::Char('y') => {
                    self.mode = Mode::Normal;
                    let mut fx: Vec<Effect> = Vec::new();
                    if let Some(path) = self.explorer.selected_endpoint_file() {
                        fx.push(Effect::Disk(DiskWork::DeleteEndpoint(path)));
                    }
                    assert(fx@ =~= (match self.explorer.endpoint_file() {
                        Some(path) => seq![Effect::Disk(DiskWork::DeleteEndpoint(path))],
                        None => Seq::empty(),
                    }));
                    fx
                },
                Key::Char('n') | Key::Esc => {
                    self.mode = Mode::Normal;
                    Vec::new()
                },
                _ => Vec::new(),
            },
            ConfirmPurpose::DeleteSequence => match key.code {
                Key::Char('y') => {
                    self.mode = Mode::Normal;
                    let mut fx: Vec<Effect> = Vec::new();
                    if let Some(item) = self.explorer.selected_sequence() {
                        fx.push(Effect::Disk(DiskWork::DeleteSequence(item.file.clone())));
                    }
                    assert(fx@ =~= (match self.explorer.sequence() {
                        Some(item) => seq![Effect::Disk(DiskWork::DeleteSequence(item.file))],
                        None => Seq::empty(),
                    }));
                    fx
                },
                Key::Char('n') | Key::Esc => {
                    self.mode = Mode::Normal;
                    Vec::new()
                },
                _ => Vec::new(),
            },
            ConfirmPurpose::DiscardChanges => if self.pending_close.is_some() {
                self.handle_close_confirm_key(key)
            } else {
                self.discard_key(key)
            },
        }
    }
}

/// A switch of the workspace never drops unsaved changes without an answer: where a
/// buffer has some, nothing is opened and no buffer changes.
pub proof fn law_dirty_switch_asks_first(a: App, b: App, path: String, fx: Seq<Effect>)
    requires
        a.buffers.some_dirty(),
        a.guards_load(b, PendingLoad::Workspace(path), fx),
    ensures
        fx.len() == 0,
        b.buffers == a.buffers,
        b.workspace == a.workspace,
        b.mode == Mode::Confirm(ConfirmPurpose::DiscardChanges),
        b.pending_load == Some(PendingLoad::Workspace(path)),
{
    reveal(App::guards_load);
}

/// Opening an endpoint never asks and changes no other endpoint.
pub proof fn law_opening_keeps_other_endpoints(
    a: App,
    b: App,
    row: usize,
    fx: Seq<Effect>,
    i: int,
)
    requires
        a.guards_load(b, PendingLoad::Row(row), fx),
        0 <= i < a.buffers.list@.len(),
    ensures
        b.mode == a.mode,
        i < b.buffers.list@.len(),
        b.buffers.list@[i].endpoint == a.buffers.list@[i].endpoint,
        b.buffers.list@[i].dirty() == a.buffers.list@[i].dirty(),
        b.buffers.list@[i].response == a.buffers.list@[i].response,
{
    reveal(App::guards_load);
    reveal(App::loads);
    if row < a.explorer.rows@.len() && a.explorer.rows@[row as int].endpoint is Some {
        let s = choose|s: SelectedEndpoint|
            row_selects(a.explorer.rows@[row as int], s) && #[trigger] a.at_row(row).opened(b, s);
        lemma_buffer_at(a.buffers.list@, s.file@);
        if i == a.buffers.active {
            assert(b.buffers.list@[i].endpoint == a.buffers.list@[i].endpoint);
        }
    }
}

/// After a switch of the workspace nothing of the old one is left: no buffer, no
/// profile, no tree, and every send is aborted.
pub proof fn law_switch_leaves_nothing(
    a: App,
    b: App,
    path: String,
    ws: Workspace,
    explorer: Explorer,
    fx: Seq<Effect>,
    g: u64,
)
    requires
        a.switches(b, path, Ok((ws, explorer)), fx),
        flights(a.buffers.list@).contains(g),
    ensures
        b.buffers.list@.len() == 0,
        b.active_profile is None,
        b.explorer.rows == explorer.rows,
        b.workspace == Some(ws),
        fx.contains(Effect::Abort(g)),
        b.panes.wf() || !a.panes.wf(),
{
    reveal(App::switches);
    let f = flights(a.buffers.list@);
    let i = choose|i: int| 0 <= i < f.len() && f[i] == g;
    assert(aborts(f)[i] == Effect::Abort(g));
    assert(fx[i] == Effect::Abort(g));
}

/// A workspace that cannot be opened leaves everything as it was, but for the
/// message.
pub proof fn law_failed_switch_keeps_everything(
    a: App,
    b: App,
    path: String,
    err: String,
    fx: Seq<Effect>,
)
    requires
        a.switches(b, path, Err(err), fx),
    ensures
        b == a.told(Notice::OpenFailed { err }),
        fx.len() == 0,
{
    reveal(App::switches);
}

/// A buffer that could not be saved is not closed: the close is given up, and the
/// buffer keeps its changes.
pub proof fn law_refused_save_keeps_the_buffer(a: App, b: App, fx: Seq<Effect>)
    requires
        a.buffers.current_dirty(),
        a.close_resumed(b, fx),
    ensures
        b.buffers == a.buffers,
        b.pending_close is None,
        fx.len() == 0,
{
    reveal(App::close_resumed);
}

/// Where a reload leaves no sequences, their list does not keep the focus.
pub proof fn law_emptied_list_loses_the_focus(a: App, b: App, reload: Reload)
    requires
        a.reloaded(b, reload),
        reload.explorer.sequences@.len() == 0,
    ensures
        b.panes.left_active == crate::pane::LeftPane::Endpoints,
        !b.panes.on_sequences(),
{
    reveal(App::reloaded);
}

/// A save writes the open endpoint to its own file, with the text of its editor as the body
/// and everything else as it is in the buffer.
pub proof fn law_save_writes_the_edited_body(a: App, b: App, fx: Seq<Effect>)
    requires
        a.saves(b, fx),
        a.buffers.loaded(),
    ensures
        fx.len() == 1,
        fx[0] matches Effect::Disk(DiskWork::SaveEndpoint { path, endpoint }) && {
            let held = a.buffers.list@[a.buffers.active as int];
            let text = held.editor.spec_text();
            &&& path == held.endpoint.file
            &&& endpoint@.name == held.endpoint.endpoint@.name
            &&& endpoint@.request.url == held.endpoint.endpoint@.request.url
            &&& endpoint@.request.method == held.endpoint.endpoint@.request.method
            &&& endpoint@.request.headers == held.endpoint.endpoint@.request.headers
            &&& endpoint@.request.params == held.endpoint.endpoint@.request.params
            &&& endpoint@.request.auth == held.endpoint.endpoint@.request.auth
            &&& text.len() > 0 ==> (held.endpoint.endpoint@.request.body matches Some(
                BodyView::Simple { kind, .. },
            ) ==> endpoint@.request.body == Some(BodyView::Simple { kind, content: text }))
            &&& held.endpoint.endpoint@.request.body is None && text.len() > 0
                ==> endpoint@.request.body == Some(
                BodyView::Simple { kind: BodyKind::Text, content: text },
            )
            &&& !(held.endpoint.endpoint@.request.body matches Some(BodyView::Multipart(_)))
                && text.len() == 0 ==> endpoint@.request.body is None
        },
        b.buffers.active == a.buffers.active,
        forall|i: int|
            0 <= i < a.buffers.list@.len() && i != a.buffers.active
                ==> #[trigger] b.buffers.list@[i] == a.buffers.list@[i],
{
    reveal(App::saves);
}

/// A buffer whose save came through has no unsaved changes; every other buffer is as it was,
/// and so is each of them where the save failed.
pub proof fn law_saved_buffer_is_clean(
    a: App,
    b: App,
    fx: Seq<Effect>,
    c: App,
    path: String,
    endpoint: Endpoint,
    result: Result<(), SaveError>,
)
    requires
        a.buffers.loaded(),
        a.buffers.distinct(),
        a.saves(b, fx),
        fx[0] == Effect::Disk(DiskWork::SaveEndpoint { path, endpoint }),
        b.saved(c, path, endpoint, result),
    ensures
        result is Ok ==> !c.buffers.list@[a.buffers.active as int].dirty(),
        result is Err ==> c.buffers == b.buffers,
        forall|i: int|
            0 <= i < a.buffers.list@.len() && i != a.buffers.active
                ==> #[trigger] c.buffers.list@[i] == a.buffers.list@[i],
{
    reveal(App::saves);
    reveal(App::saved);
    let n = a.buffers.active as int;
    crate::buffer::lemma_buffer_at(b.buffers.list@, path@);
    let at = crate::buffer::buffer_at(b.buffers.list@, path@);
    assert(b.buffers.list@[n].endpoint.file@ == path@);
    if at < n {
        assert(a.buffers.list@[at].endpoint.file@ != a.buffers.list@[n].endpoint.file@);
    }
    assert(at == n);
    let old_body = a.buffers.list@[n].endpoint.endpoint@.request.body;
    let text = a.buffers.list@[n].editor.spec_text();
    assert(crate::body::body_folded(crate::body::body_folded(old_body, text), text)
        == crate::body::body_folded(old_body, text));
}

/// A buffer without unsaved changes closes at once and its send is aborted; one with such
/// changes stays, and is asked about.
pub proof fn law_close_asks_about_unsaved_changes(a: App, b: App, i: usize, fx: Seq<Effect>, j: int)
    requires
        a.closes(b, i, fx),
        i < a.buffers.list@.len(),
    ensures
        a.buffers.list@[i as int].dirty() ==> b.buffers == a.buffers && fx.len() == 0 && b.mode
            == Mode::Confirm(ConfirmPurpose::DiscardChanges) && b.pending_close == Some(
            PendingClose::One(a.buffers.list@[i as int].endpoint.file),
        ),
        !a.buffers.list@[i as int].dirty() ==> {
            &&& b.buffers.list@.len() == a.buffers.list@.len() - 1
            &&& 0 <= j < i ==> b.buffers.list@[j] == a.buffers.list@[j]
            &&& i <= j < b.buffers.list@.len() ==> b.buffers.list@[j] == a.buffers.list@[j + 1]
            &&& a.buffers.list@[i as int].in_flight matches Some(f) ==> fx == seq![
                Effect::Abort(f.generation),
            ]
            &&& a.buffers.list@[i as int].in_flight is None ==> fx.len() == 0
            &&& b.mode == a.mode
        },
{
    reveal(App::closes);
}

/// The answer to the question about unsaved changes: Esc closes nothing, `d` closes the
/// buffer that was asked about without saving it, `s` saves it first, and any other key
/// answers nothing.
pub proof fn law_close_question_is_answered(a: App, b: App, key: KeyEvent, at: int, fx: Seq<Effect>)
    requires
        a.pending_close matches Some(PendingClose::One(p)) && 0 <= at < a.buffers.list@.len()
            && a.buffers.list@[at].endpoint.file@ == p@,
        a.buffers.distinct(),
        a.close_keyed(b, key, fx),
    ensures
        key.code is Esc ==> b.buffers == a.buffers && fx.len() == 0 && b.pending_close is None
            && b.mode == Mode::Normal,
        key.code == Key::Char('d') ==> b.buffers.list@ == a.buffers.list@.remove(at)
            && b.pending_close is None && b.mode == Mode::Normal,
        key.code == Key::Char('s') ==> b.buffers.list@.len() == a.buffers.list@.len() && fx.len()
            == 2 && (fx[0] matches Effect::Disk(DiskWork::SaveEndpoint { path, .. }) && path
            == a.buffers.list@[at].endpoint.file) && fx[1] == Effect::ThenResume(Resume::Close),
        !(key.code is Esc) && key.code != Key::Char('d') && key.code != Key::Char('s') ==> b == a
            && fx.len() == 0,
{
    reveal(App::close_keyed);
    reveal(App::close_advanced);
    reveal(App::saves_asked);
    reveal(App::drops_asked);
    reveal(App::saves);
    let path = a.pending_close->0->One_0@;
    crate::buffer::lemma_buffer_at(a.buffers.list@, path);
    let first = crate::buffer::buffer_at(a.buffers.list@, path);
    if first < at {
        assert(a.buffers.list@[first].endpoint.file@ != a.buffers.list@[at].endpoint.file@);
    }
    assert(first == at && at < a.buffers.list.len());
}

/// The answer to the question before another workspace is opened: Esc opens nothing and keeps
/// everything, `d` drops what is open and goes on, and `s` saves every buffer with unsaved
/// changes first.
pub proof fn law_discard_question_is_answered(
    a: App,
    b: App,
    key: KeyEvent,
    path: String,
    fx: Seq<Effect>,
)
    requires
        a.discard_keyed(b, key, fx),
        a.pending_load == Some(PendingLoad::Workspace(path)),
    ensures
        key.code is Esc ==> b.buffers == a.buffers && fx.len() == 0 && b.pending_load is None
            && b.mode == Mode::Normal,
        key.code == Key::Char('d') ==> b.buffers.list@.len() == 0 && b.pending_load is None && fx
            == seq![Effect::Disk(DiskWork::OpenWorkspace(path))],
        key.code == Key::Char('s') ==> b.buffers.list@.len() == a.buffers.list@.len()
            && b.pending_load == a.pending_load && fx.len() > 0 && fx.last() == Effect::ThenResume(
            Resume::Load,
        ),
        !(key.code is Esc) && key.code != Key::Char('d') && key.code != Key::Char('s') ==> b == a
            && fx.len() == 0,
{
    reveal(App::discard_keyed);
    reveal(App::loads);
}

/// Saving before another workspace is opened saves each buffer with unsaved changes, and those
/// only: each one to its own file.
pub proof fn law_save_all_saves_the_dirty_ones(list: Seq<EndpointBuffer>, fx: Seq<Effect>, i: int)
    requires
        saves_each(kept(list, dirty_flags(list)), fx),
    ensures
        0 <= i < list.len() && list[i].dirty() ==> exists|j: int|
            0 <= j < fx.len() && (#[trigger] fx[j] matches Effect::Disk(
                DiskWork::SaveEndpoint { path, endpoint },
            ) && path == list[i].endpoint.file && endpoint@ == list[i].live()),
        0 <= i < fx.len() ==> (fx[i] matches Effect::Disk(DiskWork::SaveEndpoint { path, .. })
            && exists|k: int|
            0 <= k < list.len() && (#[trigger] list[k]).dirty() && list[k].endpoint.file == path),
{
    let keep = dirty_flags(list);
    let dirty = kept(list, keep);
    crate::buffer::lemma_kept_members(list, keep);
    if 0 <= i < list.len() && list[i].dirty() {
        assert(keep[i]);
        assert(dirty.contains(list[i]));
        let j = choose|j: int| 0 <= j < dirty.len() && dirty[j] == list[i];
        assert(asks_to_save(dirty[j], fx[j]));
    }
    if 0 <= i < fx.len() {
        assert(asks_to_save(dirty[i], fx[i]));
        assert(dirty.contains(dirty[i]));
    }
}

/// A delete that is confirmed is of the selected endpoint, or of the selected sequence; `n` and
/// Esc delete nothing.
pub proof fn law_confirmed_delete_is_of_the_selected(
    a: App,
    b: App,
    key: KeyEvent,
    sequence: bool,
    fx: Seq<Effect>,
)
    requires
        a.confirm_keyed(
            b,
            key,
            if sequence {
                ConfirmPurpose::DeleteSequence
            } else {
                ConfirmPurpose::DeleteEndpoint
            },
            fx,
        ),
    ensures
        key.code == Key::Char('y') && !sequence && a.explorer.cursor < a.explorer.rows@.len()
            && a.explorer.rows@[a.explorer.cursor as int].kind is Endpoint ==> fx == seq![
            Effect::Disk(
                DiskWork::DeleteEndpoint(a.explorer.rows@[a.explorer.cursor as int].path),
            ),
        ] && b.mode == Mode::Normal,
        key.code == Key::Char('y') && sequence && a.explorer.seq_cursor
            < a.explorer.sequences@.len() ==> fx == seq![
            Effect::Disk(
                DiskWork::DeleteSequence(
                    a.explorer.sequences@[a.explorer.seq_cursor as int].file,
                ),
            ),
        ] && b.mode == Mode::Normal,
        key.code is Esc || key.code == Key::Char('n') ==> fx.len() == 0 && b.mode == Mode::Normal
            && b.buffers == a.buffers,
        !(key.code is Esc) && key.code != Key::Char('y') && key.code != Key::Char('n') ==> b == a
            && fx.len() == 0,
{
    reveal(App::confirm_keyed);
}

/// A workspace that was opened is the one that is worked in: its tree from the first row, no
/// profile, and nothing of the one before.
pub proof fn law_switched_workspace_is_shown(
    a: App,
    b: App,
    path: String,
    ws: Workspace,
    explorer: Explorer,
    fx: Seq<Effect>,
)
    requires
        a.switches(b, path, Ok((ws, explorer)), fx),
    ensures
        b.workspace == Some(ws),
        b.explorer.rows == explorer.rows,
        b.explorer.cursor == 0,
        b.active_profile is None,
        b.buffers.list@.len() == 0,
        b.pending_load is None,
        b.message == Some(Notice::SwitchedTo { name: ws.name }),
        a.has_history ==> fx.len() > 0 && fx.last() == Effect::TouchWorkspace(path),
{
    reveal(App::switches);
}

/// A row of the tree that is opened is shown in a buffer where it is an endpoint, and else is
/// opened or closed in the tree.
pub proof fn law_row_is_opened(a: App, b: App, row: usize, fx: Seq<Effect>)
    requires
        a.loads(b, PendingLoad::Row(row), fx),
        row < a.explorer.rows@.len(),
    ensures
        b.explorer.cursor == row,
        a.explorer.rows@[row as int].endpoint is None ==> fx == seq![
            Effect::Tree(TreeWork::Toggle(row)),
        ] && b.buffers == a.buffers,
        a.explorer.rows@[row as int].endpoint is Some ==> fx.len() == 0 && b.buffers.active
            < b.buffers.list@.len() && b.buffers.list@[b.buffers.active as int].endpoint.file@
            == a.explorer.rows@[row as int].path@,
{
    reveal(App::loads);
    if a.explorer.rows@[row as int].endpoint is Some {
        let s = choose|s: SelectedEndpoint|
            row_selects(a.explorer.rows@[row as int], s) && #[trigger] a.at_row(row).opened(b, s);
        crate::buffer::law_opened_endpoint_is_active(a.buffers, s, b.buffers);
    }
}

/// A load that waited for a save goes on where everything is saved, and is forgotten where
/// something is not.
pub proof fn law_waiting_load_goes_on_when_saved(a: App, b: App, path: String, fx: Seq<Effect>)
    requires
        a.load_resumed(b, fx),
        a.pending_load == Some(PendingLoad::Workspace(path)),
    ensures
        b.pending_load is None,
        b.buffers == a.buffers,
        a.buffers.some_dirty() ==> fx.len() == 0,
        !a.buffers.some_dirty() ==> fx == seq![Effect::Disk(DiskWork::OpenWorkspace(path))],
{
    reveal(App::load_resumed);
    reveal(App::loads);
}

} // verus!
