//! Creating, renaming, moving and deleting what the tree shows, and importing and
//! exporting it.

use vstd::prelude::*;

use crate::app::{App, DiskWork, Effect, ReorderDir, TreeWork};
use crate::body::overwrite_body_text;
use crate::buffer::{
    buffer_at, lemma_buffer_at, refiled, repointed_all, Buffers, EndpointBuffer, SelectedEndpoint,
};
use crate::explorer::RowKind;
use crate::keys::{Key, KeyEvent};
use crate::mode::{
    is_curl, looks_like_curl, ConfirmPurpose, JsonDialect, Mode, PromptPurpose,
};
use crate::model::{BodyKind, BodyView, Content, Endpoint};
use crate::notice::Notice;
use crate::paths::{
    ancestor, ancestor_count, ancestors, default_export_path, existing_ancestor_canonical,
    export_candidate, export_path, export_slug, export_target, file_name, join_path, parent, parsed,
    rendered, spec_file_name, spec_parent, within, ExportError,
};
use crate::picker::DestPurpose;
use crate::settings::text_of;
use crate::switching::Reload;
use crate::text::{trim, trimmed};
use crate::vars::{resolves, session_of, Vars};

verus! {

/// What a rename or a move on disk came to.
#[derive(Debug)]
pub struct Relocated {
    /// The new path.
    pub path: String,
    /// How many steps of sequences were rewritten, or why they were not.
    pub steps: Result<u64, String>,
    /// The tree as it was read again.
    pub reload: Reload,
}

/// What an import of a JSON file came to.
#[derive(Debug)]
pub struct ImportSummary {
    /// How many endpoints were written.
    pub endpoints: u64,
    /// How many collections were written.
    pub collections: u64,
    /// How many warnings there were.
    pub warnings: u64,
    /// The tree as it was read again.
    pub reload: Reload,
}

/// Why an import of a JSON file failed.
#[derive(Debug)]
pub enum ImportError {
    /// The file could not be read.
    Unreadable {
        /// The file.
        path: String,
        /// Why.
        err: String,
    },
    /// It could not be imported.
    Failed(String),
}

/// What an import of a curl command came to.
#[derive(Debug)]
pub struct CurlImport {
    /// The file of the endpoint.
    pub path: String,
    /// The name of the endpoint.
    pub name: String,
    /// The secrets that it held, by the names that stand in their place.
    pub captured: Vars,
    /// The names of the secrets in order.
    pub captured_names: Vec<String>,
    /// The warnings.
    pub warnings: Vec<String>,
    /// The tree as it was read again.
    pub reload: Reload,
}

/// Why an import of a curl command failed.
#[derive(Debug)]
pub enum CurlError {
    /// The command could not be read.
    Parse(String),
    /// The endpoint could not be written.
    Disk(String),
}

/// Where an item ended up among its neighbours.
#[derive(Debug, Clone, Copy, PartialEq, Eq, Structural)]
pub enum ReorderOutcome {
    /// It moved.
    Moved,
    /// It was the first.
    AlreadyFirst,
    /// It was the last.
    AlreadyLast,
}

/// What is said of a move among neighbours.
pub open spec fn reorder_notice(outcome: ReorderOutcome) -> Option<Notice> {
    match outcome {
        ReorderOutcome::Moved => None,
        ReorderOutcome::AlreadyFirst => Some(Notice::AlreadyFirst),
        ReorderOutcome::AlreadyLast => Some(Notice::AlreadyLast),
    }
}

/// A single effect.
pub open spec fn only(e: Effect) -> Seq<Effect> {
    seq![e]
}

/// A single effect.
pub fn just(e: Effect) -> (fx: Vec<Effect>)
    ensures
        fx@ == only(e),
{
    let fx = vec![e];
    assert(fx@ =~= seq![e]);
    fx
}

impl App {
    /// The directory that something is created in: that of the collection under the
    /// cursor, or the root.
    pub open spec fn create_dir(&self) -> Option<String> {
        match self.explorer.selected() {
            Some(row) => Some(row.collection_dir),
            None => match self.workspace {
                Some(ws) => Some(ws.root),
                None => None,
            },
        }
    }

    /// The directory that something is created in.
    pub fn cursor_collection_dir(&self) -> (r: Option<String>)
        ensures
            r == self.create_dir(),
    {
        match self.explorer.selected_collection_dir() {
            Some(dir) => Some(dir),
            None => match &self.workspace {
                Some(ws) => Some(ws.root.clone()),
                None => None,
            },
        }
    }

    /// What asking for the name of something new does.
    pub open spec fn prompts_new(self, after: App, purpose: PromptPurpose) -> bool {
        if self.create_dir() is None {
            after == self.told(Notice::NoWorkspaceOpen)
        } else {
            self.prompted(after, purpose, Seq::empty())
        }
    }

    fn prompt_new(&mut self, purpose: PromptPurpose)
        requires
            old(self).wf(),
        ensures
            old(self).prompts_new(*final(self), purpose),
            final(self).wf(),
    {
        if self.cursor_collection_dir().is_none() {
            self.message = Some(Notice::NoWorkspaceOpen);
            return;
        }
        proof {
            reveal_strlit("");
            assert(""@ =~= Seq::empty());
        }
        self.open_prompt(purpose, "");
    }

    /// Asks for the name of a new endpoint.
    pub fn begin_new_endpoint(&mut self)
        requires
            old(self).wf(),
        ensures
            old(self).prompts_new(*final(self), PromptPurpose::NewEndpoint),
            final(self).wf(),
    {
        self.prompt_new(PromptPurpose::NewEndpoint);
    }

    /// Asks for the name of a new collection.
    pub fn begin_new_collection(&mut self)
        requires
            old(self).wf(),
        ensures
            old(self).prompts_new(*final(self), PromptPurpose::NewCollection),
            final(self).wf(),
    {
        self.prompt_new(PromptPurpose::NewCollection);
    }

    /// What asking for a new name of the row under the cursor does.
    pub open spec fn prompts_rename(self, after: App) -> bool {
        match self.explorer.selected() {
            Some(row) => self.prompted(after, PromptPurpose::Rename, row.name@),
            None => after == self.told(Notice::NothingToRename),
        }
    }

    /// Asks for a new name of the row under the cursor.
    pub fn begin_rename(&mut self)
        requires
            old(self).wf(),
        ensures
            old(self).prompts_rename(*final(self)),
            final(self).wf(),
    {
        match self.explorer.selected_name() {
            Some(name) => self.open_prompt(PromptPurpose::Rename, name.as_str()),
            None => {
                self.message = Some(Notice::NothingToRename);
            },
        }
    }

    /// What asking to delete the row under the cursor does: for an endpoint a
    /// question, for a collection its name.
    pub open spec fn asks_delete(self, after: App) -> bool {
        match self.explorer.selected() {
            Some(row) => match row.kind {
                RowKind::Endpoint => after == self.in_mode(
                    Mode::Confirm(ConfirmPurpose::DeleteEndpoint),
                ),
                RowKind::Collection => self.prompted(
                    after,
                    PromptPurpose::DeleteCollectionConfirm,
                    Seq::empty(),
                ),
            },
            None => after == self.told(Notice::NothingToDelete),
        }
    }

    /// Asks whether the row under the cursor is to be deleted.
    pub fn begin_delete(&mut self)
        requires
            old(self).wf(),
        ensures
            old(self).asks_delete(*final(self)),
            final(self).wf(),
    {
        proof {
            reveal_strlit("");
            assert(""@ =~= Seq::empty());
        }
        match self.explorer.selected_kind() {
            Some(RowKind::Endpoint) => {
                self.mode = Mode::Confirm(ConfirmPurpose::DeleteEndpoint);
            },
            Some(RowKind::Collection) => {
                self.open_prompt(PromptPurpose::DeleteCollectionConfirm, "");
            },
            None => {
                self.message = Some(Notice::NothingToDelete);
            },
        }
    }

    /// What asking for a file to import does.
    pub open spec fn prompts_import(self, after: App) -> bool {
        if self.workspace is None {
            after == self.told(Notice::NoWorkspaceOpen)
        } else {
            self.prompted(after, PromptPurpose::ImportCollection, Seq::empty())
        }
    }

    /// Asks for a JSON file to import.
    pub fn begin_import_collection(&mut self)
        requires
            old(self).wf(),
        ensures
            old(self).prompts_import(*final(self)),
            final(self).wf(),
    {
        if self.workspace.is_none() {
            self.message = Some(Notice::NoWorkspaceOpen);
            return;
        }
        proof {
            reveal_strlit("");
            assert(""@ =~= Seq::empty());
        }
        self.open_prompt(PromptPurpose::ImportCollection, "");
    }

    /// The name of the collection under the cursor: that of its directory.
    pub open spec fn collection_name(&self) -> Option<Seq<char>> {
        match self.explorer.selected() {
            Some(row) => spec_file_name(parsed(row.collection_dir@)),
            None => None,
        }
    }

    /// The name of the collection under the cursor.
    pub fn selected_collection_name(&self) -> (r: Option<String>)
        ensures
            text_of(r) == self.collection_name(),
    {
        match self.explorer.selected_collection_dir() {
            Some(dir) => file_name(dir.as_str()),
            None => None,
        }
    }

    /// The destination that is proposed for an export.
    pub open spec fn export_seed(name: Seq<char>) -> Seq<char> {
        "exports/"@ + export_slug(name) + ".json"@
    }

    /// What asking where to export the collection under the cursor does.
    pub open spec fn prompts_export(self, after: App, dialect: JsonDialect) -> bool {
        match self.collection_name() {
            Some(name) => self.prompted(
                after,
                PromptPurpose::ExportCollection(dialect),
                App::export_seed(name),
            ),
            None => after == self.told(Notice::SelectCollectionFirst),
        }
    }

    /// Asks where to export the collection under the cursor.
    pub fn begin_export_collection(&mut self, dialect: JsonDialect)
        requires
            old(self).wf(),
        ensures
            old(self).prompts_export(*final(self), dialect),
            final(self).wf(),
    {
        match self.selected_collection_name() {
            Some(name) => {
                let seed = default_export_path(name.as_str());
                self.open_prompt(PromptPurpose::ExportCollection(dialect), seed.as_str());
            },
            None => {
                self.message = Some(Notice::SelectCollectionFirst);
            },
        }
    }

    /// What asking where to export the workspace does.
    pub open spec fn prompts_export_all(self, after: App, dialect: JsonDialect) -> bool {
        match self.workspace {
            Some(ws) => self.prompted(
                after,
                PromptPurpose::ExportWorkspace(dialect),
                App::export_seed(ws.name@),
            ),
            None => after == self.told(Notice::NoWorkspaceOpen),
        }
    }

    /// Asks where to export the workspace.
    pub fn begin_export_workspace(&mut self, dialect: JsonDialect)
        requires
            old(self).wf(),
        ensures
            old(self).prompts_export_all(*final(self), dialect),
            final(self).wf(),
    {
        let seed = match &self.workspace {
            Some(ws) => default_export_path(ws.name.as_str()),
            None => {
                self.message = Some(Notice::NoWorkspaceOpen);
                return;
            },
        };
        self.open_prompt(PromptPurpose::ExportWorkspace(dialect), seed.as_str());
    }

    /// What asking for a curl command does.
    pub open spec fn prompts_curl(self, after: App) -> bool {
        match self.explorer.selected() {
            Some(_) => self.prompted(after, PromptPurpose::PasteCurl, Seq::empty()),
            None => after == self.told(Notice::SelectCollectionFirst),
        }
    }

    /// Asks for a curl command to make an endpoint of.
    pub fn begin_paste_curl(&mut self)
        requires
            old(self).wf(),
        ensures
            old(self).prompts_curl(*final(self)),
            final(self).wf(),
    {
        if self.explorer.selected_collection_dir().is_none() {
            self.message = Some(Notice::SelectCollectionFirst);
            return;
        }
        proof {
            reveal_strlit("");
            assert(""@ =~= Seq::empty());
        }
        self.open_prompt(PromptPurpose::PasteCurl, "");
    }

    /// What copying a request as a curl command asks for: the request as it would be
    /// sent, with its variables filled in where that is asked for.
    #[verifier::opaque]
    pub open spec fn copies_curl(self, after: App, resolved: bool, fx: Seq<Effect>) -> bool {
        if !self.has_target() {
            after == self.told(Notice::NoEndpointSelected) && fx.len() == 0
        } else {
            &&& after == self
            &&& fx.len() == 1
            &&& exists|s: SelectedEndpoint|
                {
                    &&& #[trigger] self.targets(s)
                    &&& fx[0] matches Effect::ExportCurl { endpoint, fill_from } && endpoint@ == (
                    crate::model::EndpointView {
                        request: App::outgoing(s.endpoint@.request, self.editor_text()),
                        ..s.endpoint@
                    }) && (fill_from is Some == resolved) && (fill_from matches Some(r)
                        ==> resolves(r, self.scopes(s.collection)))
                }
        }
    }

    /// Copies a request as a curl command.
    pub fn copy_as_curl(&mut self, resolved: bool) -> (fx: Vec<Effect>)
        requires
            old(self).wf(),
        ensures
            old(self).copies_curl(*final(self), resolved, fx@),
            final(self).wf(),
    {
        reveal(App::copies_curl);
        let selected = match self.target_endpoint() {
            Some(s) => s,
            None => {
                self.message = Some(Notice::NoEndpointSelected);
                return Vec::new();
            },
        };
        let mut endpoint = selected.endpoint.copy();
        overwrite_body_text(&mut endpoint.request, self.body_text());
        let fill_from = if resolved {
            Some(self.build_resolver(selected.collection))
        } else {
            None
        };
        assert(self.targets(selected));
        vec![Effect::ExportCurl { endpoint, fill_from }]
    }

    /// Leaves a curl command to be copied; `payload` is as much of it as is copied.
    pub fn curl_exported(&mut self, payload: String, resolved: bool)
        ensures
            *final(self) == (App {
                pending_clipboard: Some(
                    crate::app::PendingCopy {
                        payload,
                        notice: if resolved {
                            Notice::CopiedResolvedCurl
                        } else {
                            Notice::CopiedCurl
                        },
                    },
                ),
                ..*old(self)
            }),
    {
        self.enqueue_clipboard(
            payload,
            if resolved {
                Notice::CopiedResolvedCurl
            } else {
                Notice::CopiedCurl
            },
        );
    }

    /// What importing a JSON file does.
    #[verifier::opaque]
    pub open spec fn imports(self, after: App, input: Seq<char>, fx: Seq<Effect>) -> bool {
        match self.workspace {
            None => after == self.told(Notice::NoWorkspaceOpen) && fx.len() == 0,
            Some(ws) => if trimmed(input).len() == 0 {
                after == self.told(Notice::NoPathGiven) && fx.len() == 0
            } else {
                &&& after == self
                &&& fx.len() == 1
                &&& fx[0] matches Effect::Disk(DiskWork::ImportCollection { root, path }) && root
                    == ws.root && path@ == trimmed(input)
            },
        }
    }

    /// Imports a JSON file.
    pub fn commit_import_collection(&mut self, input: &str) -> (fx: Vec<Effect>)
        requires
            old(self).wf(),
        ensures
            old(self).imports(*final(self), input@, fx@),
            final(self).wf(),
    {
        reveal(App::imports);
        let root = match &self.workspace {
            Some(ws) => ws.root.clone(),
            None => {
                self.message = Some(Notice::NoWorkspaceOpen);
                return Vec::new();
            },
        };
        let path = trim(input);
        if path.as_str().is_empty() {
            self.message = Some(Notice::NoPathGiven);
            return Vec::new();
        }
        vec![Effect::Disk(DiskWork::ImportCollection { root, path })]
    }

    /// The state after the tree was changed on disk and read again, and that was
    /// said; or why it was not changed.
    #[verifier::opaque]
    pub open spec fn tree_edited(
        self,
        after: App,
        result: Result<Reload, String>,
        notice: Option<Notice>,
    ) -> bool {
        match result {
            Ok(reload) => exists|mid: App|
                #[trigger] self.reloaded(mid, reload) && after == mid.told_if(notice),
            Err(err) => after == self.told(Notice::CrudError { err }),
        }
    }

    /// Takes in a change of the tree on disk, or why it was not made.
    pub fn tree_edit_done(&mut self, result: Result<Reload, String>, notice: Option<Notice>)
        requires
            old(self).wf(),
            result matches Ok(r) ==> r.explorer.wf() && r.places@.len() == old(
                self,
            ).buffers.list@.len(),
        ensures
            old(self).tree_edited(*final(self), result, notice),
            final(self).wf(),
    {
        reveal(App::tree_edited);
        match result {
            Ok(reload) => {
                self.reload_explorer(reload);
                let ghost mid = *self;
                assert(old(self).reloaded(mid, reload));
                self.notify_if(notice);
            },
            Err(err) => {
                self.message = Some(Notice::CrudError { err });
            },
        }
    }

    /// Takes in what an import of a JSON file came to.
    pub fn collection_imported(&mut self, result: Result<ImportSummary, ImportError>)
        requires
            old(self).wf(),
            result matches Ok(s) ==> s.reload.explorer.wf() && s.reload.places@.len() == old(
                self,
            ).buffers.list@.len(),
        ensures
            match result {
                Ok(s) => old(self).tree_edited(
                    *final(self),
                    Ok(s.reload),
                    Some(
                        Notice::Imported {
                            endpoints: s.endpoints,
                            collections: s.collections,
                            warnings: s.warnings,
                        },
                    ),
                ),
                Err(ImportError::Unreadable { path, err }) => *final(self) == old(self).told(
                    Notice::ImportUnreadable { path, err },
                ),
                Err(ImportError::Failed(err)) => *final(self) == old(self).told(
                    Notice::ImportFailed { err },
                ),
            },
            final(self).wf(),
    {
        match result {
            Ok(s) => {
                self.tree_edit_done(
                    Ok(s.reload),
                    Some(
                        Notice::Imported {
                            endpoints: s.endpoints,
                            collections: s.collections,
                            warnings: s.warnings,
                        },
                    ),
                );
            },
            Err(ImportError::Unreadable { path, err }) => {
                self.message = Some(Notice::ImportUnreadable { path, err });
            },
            Err(ImportError::Failed(err)) => {
                self.message = Some(Notice::ImportFailed { err });
            },
        }
    }

    /// What asking for an export does: a destination that leaves the workspace is
    /// refused, and for another it is to be found out where it leads on disk.
    #[verifier::opaque]
    pub open spec fn exports(
        self,
        after: App,
        purpose: PromptPurpose,
        input: String,
        fx: Seq<Effect>,
    ) -> bool {
        match self.workspace {
            None => after == self.told(Notice::NoWorkspaceOpen) && fx.len() == 0,
            Some(ws) => {
                let target = export_path(ws.key@, input@);
                if trimmed(input@).len() == 0 {
                    after == self.told(Notice::ExportRefused { why: ExportError::NoPath })
                        && fx.len() == 0
                } else if !within(target, parsed(ws.key@)) {
                    after == self.told(Notice::ExportRefused { why: ExportError::Escapes })
                        && fx.len() == 0
                } else {
                    let p = parsed(rendered(target));
                    &&& after == self
                    &&& fx.len() == 1
                    &&& fx[0] matches Effect::Disk(
                        DiskWork::ProbeExport { purpose: q, input: i, paths },
                    ) && q == purpose && i == input && paths@.len() == ancestor_count(p) && (
                    forall|k: int|
                        0 <= k < paths@.len() ==> (#[trigger] paths@[k])@ == rendered(
                            ancestor(p, k),
                        ))
                }
            },
        }
    }

    /// Asks for an export to a destination that was typed.
    pub fn commit_export(&mut self, purpose: PromptPurpose, input: String) -> (fx: Vec<Effect>)
        requires
            old(self).wf(),
        ensures
            old(self).exports(*final(self), purpose, input, fx@),
            final(self).wf(),
    {
        reveal(App::exports);
        let root = match &self.workspace {
            Some(ws) => ws.key.clone(),
            None => {
                self.message = Some(Notice::NoWorkspaceOpen);
                return Vec::new();
            },
        };
        match export_candidate(root.as_str(), input.as_str()) {
            Ok(candidate) => {
                let paths = ancestors(candidate.as_str());
                vec![Effect::Disk(DiskWork::ProbeExport { purpose, input, paths })]
            },
            Err(why) => {
                self.message = Some(Notice::ExportRefused { why });
                Vec::new()
            },
        }
    }

    /// Where a destination leads on disk: the first of the paths, from the deepest
    /// up, that exists.
    pub open spec fn leads_to(probes: Seq<Option<String>>, on_disk: Option<Seq<char>>) -> bool {
        match on_disk {
            Some(p) => exists|i: int|
                0 <= i < probes.len() && (#[trigger] probes[i] matches Some(t) && t@ == p)
                    && forall|j: int| 0 <= j < i ==> (#[trigger] probes[j]) is None,
            None => forall|i: int| 0 <= i < probes.len() ==> (#[trigger] probes[i]) is None,
        }
    }

    /// What is left of an export once it is known where the destination leads: one
    /// that leaves the workspace through a link is refused, and to another the
    /// collection or the workspace is to be written.
    #[verifier::opaque]
    pub open spec fn exports_to(
        self,
        after: App,
        purpose: PromptPurpose,
        input: Seq<char>,
        on_disk: Option<Seq<char>>,
        fx: Seq<Effect>,
    ) -> bool {
        match self.workspace {
            None => after == self.told(Notice::NoWorkspaceOpen) && fx.len() == 0,
            Some(ws) => {
                let target = export_path(ws.key@, input);
                let root = parsed(ws.key@);
                if trimmed(input).len() == 0 {
                    after == self.told(Notice::ExportRefused { why: ExportError::NoPath })
                        && fx.len() == 0
                } else if !within(target, root) {
                    after == self.told(Notice::ExportRefused { why: ExportError::Escapes })
                        && fx.len() == 0
                } else if on_disk matches Some(p) && !within(parsed(p), root) {
                    after == self.told(Notice::ExportRefused { why: ExportError::EscapesByLink })
                        && fx.len() == 0
                } else if purpose is ExportCollection && self.explorer.selected() is None {
                    after == self.told(Notice::SelectCollectionFirst) && fx.len() == 0
                } else if purpose is ExportCollection || purpose is ExportWorkspace {
                    &&& after == self
                    &&& fx.len() == 1
                    &&& fx[0] matches Effect::Disk(
                        DiskWork::Export { purpose: q, collection, target: t },
                    ) && q == purpose && t@ == rendered(target) && collection == (if purpose
                        is ExportCollection {
                        Some(self.explorer.selected()->0.collection_dir)
                    } else {
                        None
                    })
                } else {
                    after == self && fx.len() == 0
                }
            },
        }
    }

    /// Goes on with an export once it is known where the destination leads: `probes`
    /// are the paths that were asked about, freed of symbolic links where they
    /// exist.
    pub fn export_probed(
        &mut self,
        purpose: PromptPurpose,
        input: &str,
        probes: &Vec<Option<String>>,
    ) -> (fx: Vec<Effect>)
        requires
            old(self).wf(),
        ensures
            exists|on_disk: Option<Seq<char>>|
                App::leads_to(probes@, on_disk) && #[trigger] old(self).exports_to(
                    *final(self),
                    purpose,
                    input@,
                    on_disk,
                    fx@,
                ),
            final(self).wf(),
    {
        reveal(App::exports_to);
        let on_disk = existing_ancestor_canonical(probes);
        proof {
            if on_disk is Some {
                let p = on_disk->0;
                let i = choose|i: int|
                    0 <= i < probes.len() && #[trigger] probes@[i] == Some(p) && forall|j: int|
                        0 <= j < i ==> (#[trigger] probes@[j]) is None;
                assert(probes@[i] matches Some(t) && t@ == p@);
            }
            assert(App::leads_to(probes@, text_of(on_disk)));
        }
        let root = match &self.workspace {
            Some(ws) => ws.key.clone(),
            None => {
                self.message = Some(Notice::NoWorkspaceOpen);
                assert(old(self).exports_to(*self, purpose, input@, text_of(on_disk), seq![]));
                return Vec::new();
            },
        };
        let target = match export_target(root.as_str(), input, &on_disk) {
            Ok(t) => t,
            Err(why) => {
                self.message = Some(Notice::ExportRefused { why });
                assert(old(self).exports_to(*self, purpose, input@, text_of(on_disk), seq![]));
                return Vec::new();
            },
        };
        let fx = match purpose {
            PromptPurpose::ExportCollection(_) => match self.explorer.selected_collection_dir() {
                Some(dir) => just(
                    Effect::Disk(DiskWork::Export { purpose, collection: Some(dir), target }),
                ),
                None => {
                    self.message = Some(Notice::SelectCollectionFirst);
                    Vec::new()
                },
            },
            PromptPurpose::ExportWorkspace(_) => just(
                Effect::Disk(DiskWork::Export { purpose, collection: None, target }),
            ),
            _ => Vec::new(),
        };
        assert(old(self).exports_to(*self, purpose, input@, text_of(on_disk), fx@));
        fx
    }

    /// Says what an export came to.
    pub fn exported(&mut self, target: String, result: Result<(), String>)
        requires
            old(self).wf(),
        ensures
            match result {
                Ok(_) => {
                    &&& final(self).message matches Some(Notice::ExportedTo { path }) && path@ == (
                    match old(self).spec_rel_path(target@) {
                        Some(rest) => rest,
                        None => target@,
                    })
                    &&& *final(self) == (App { message: final(self).message, ..*old(self) })
                },
                Err(err) => *final(self) == old(self).told(Notice::ExportFailed { err }),
            },
            final(self).wf(),
    {
        match result {
            Ok(_) => {
                let shown = match self.endpoint_rel_path(&target) {
                    Some(rest) => rest,
                    None => target,
                };
                self.message = Some(Notice::ExportedTo { path: shown });
            },
            Err(err) => {
                self.message = Some(Notice::ExportFailed { err });
            },
        }
    }
}

/// An export never asks for a file outside the workspace to be written.
pub proof fn law_export_stays_inside(
    a: App,
    b: App,
    purpose: PromptPurpose,
    input: Seq<char>,
    on_disk: Option<Seq<char>>,
    fx: Seq<Effect>,
)
    requires
        a.workspace is Some,
        a.exports_to(b, purpose, input, on_disk, fx),
        fx.len() > 0,
    ensures
        fx.len() == 1,
        fx[0] matches Effect::Disk(DiskWork::Export { target, .. }) && target@ == rendered(
            export_path(a.workspace->0.key@, input),
        ),
        within(export_path(a.workspace->0.key@, input), parsed(a.workspace->0.key@)),
        on_disk matches Some(p) ==> within(parsed(p), parsed(a.workspace->0.key@)),
{
    reveal(App::exports_to);
}

impl App {
    /// What creating an endpoint does: in the directory that was picked, or else that
    /// of the cursor. A text that is a curl command makes an endpoint of it.
    #[verifier::opaque]
    pub open spec fn creates_endpoint(self, after: App, text: String, fx: Seq<Effect>) -> bool {
        let dir = if self.pending_create_dir is Some {
            self.pending_create_dir
        } else {
            self.create_dir()
        };
        &&& after == (App { pending_create_dir: None, ..self })
        &&& match dir {
            None => fx.len() == 0,
            Some(dir) => fx == only(
                Effect::Disk(
                    if is_curl(text@) {
                        DiskWork::ImportCurl { dir, curl: text }
                    } else {
                        DiskWork::CreateEndpoint { dir, name: text }
                    },
                ),
            ),
        }
    }

    fn take_create_dir(&mut self) -> (r: Option<String>)
        ensures
            r == (if old(self).pending_create_dir is Some {
                old(self).pending_create_dir
            } else {
                old(self).create_dir()
            }),
            *final(self) == (App { pending_create_dir: None, ..*old(self) }),
    {
        match self.pending_create_dir.take() {
            Some(dir) => Some(dir),
            None => self.cursor_collection_dir(),
        }
    }

    fn commit_new_endpoint(&mut self, text: String) -> (fx: Vec<Effect>)
        requires
            old(self).wf(),
        ensures
            old(self).creates_endpoint(*final(self), text, fx@),
            final(self).wf(),
    {
        reveal(App::creates_endpoint);
        match self.take_create_dir() {
            Some(dir) => if looks_like_curl(text.as_str()) {
                just(Effect::Disk(DiskWork::ImportCurl { dir, curl: text }))
            } else {
                just(Effect::Disk(DiskWork::CreateEndpoint { dir, name: text }))
            },
            None => Vec::new(),
        }
    }

    /// What creating a collection does.
    #[verifier::opaque]
    pub open spec fn creates_collection(self, after: App, text: String, fx: Seq<Effect>) -> bool {
        let dir = if self.pending_create_dir is Some {
            self.pending_create_dir
        } else {
            self.create_dir()
        };
        &&& after == (App { pending_create_dir: None, ..self })
        &&& match (dir, self.workspace) {
            (Some(parent), Some(ws)) => fx == only(
                Effect::Disk(
                    DiskWork::CreateCollection { parent, name: text, root: ws.root },
                ),
            ),
            _ => fx.len() == 0,
        }
    }

    fn commit_new_collection(&mut self, text: String) -> (fx: Vec<Effect>)
        requires
            old(self).wf(),
        ensures
            old(self).creates_collection(*final(self), text, fx@),
            final(self).wf(),
    {
        reveal(App::creates_collection);
        let parent = match self.take_create_dir() {
            Some(dir) => dir,
            None => {
                return Vec::new();
            },
        };
        match &self.workspace {
            Some(ws) => just(
                Effect::Disk(
                    DiskWork::CreateCollection { parent, name: text, root: ws.root.clone() },
                ),
            ),
            None => Vec::new(),
        }
    }

    /// What renaming the row under the cursor asks for.
    #[verifier::opaque]
    pub open spec fn renames(self, name: String, fx: Seq<Effect>) -> bool {
        match self.explorer.selected() {
            Some(row) => match row.kind {
                RowKind::Endpoint => fx == only(
                    Effect::Disk(DiskWork::RenameEndpoint { path: row.path, name }),
                ),
                RowKind::Collection => match self.workspace {
                    Some(ws) => fx == only(
                        Effect::Disk(
                            DiskWork::RenameCollection {
                                dir: row.collection_dir,
                                name,
                                root: ws.root,
                            },
                        ),
                    ),
                    None => fx.len() == 0,
                },
            },
            None => fx.len() == 0,
        }
    }

    /// Renames the row under the cursor.
    pub fn commit_rename(&self, name: String) -> (fx: Vec<Effect>)
        ensures
            self.renames(name, fx@),
    {
        reveal(App::renames);
        match self.explorer.selected_kind() {
            Some(RowKind::Endpoint) => match self.explorer.selected_endpoint_file() {
                Some(path) => just(Effect::Disk(DiskWork::RenameEndpoint { path, name })),
                None => Vec::new(),
            },
            Some(RowKind::Collection) => match (
                self.explorer.selected_collection_dir(),
                &self.workspace,
            ) {
                (Some(dir), Some(ws)) => just(
                    Effect::Disk(
                        DiskWork::RenameCollection { dir, name, root: ws.root.clone() },
                    ),
                ),
                _ => Vec::new(),
            },
            None => Vec::new(),
        }
    }

    /// What deleting the collection under the cursor does: only its own name deletes
    /// it.
    #[verifier::opaque]
    pub open spec fn deletes_collection(self, after: App, text: Seq<char>, fx: Seq<Effect>) -> bool {
        match self.explorer.selected() {
            Some(row) => if text == row.name@ {
                after == self && fx == only(
                    Effect::Disk(
                        DiskWork::DeleteCollection { dir: row.collection_dir, name: row.name },
                    ),
                )
            } else {
                after == self.told(Notice::NameMismatch) && fx.len() == 0
            },
            None => after == self && fx.len() == 0,
        }
    }

    fn commit_delete_collection(&mut self, text: String) -> (fx: Vec<Effect>)
        requires
            old(self).wf(),
        ensures
            old(self).deletes_collection(*final(self), text@, fx@),
            final(self).wf(),
    {
        reveal(App::deletes_collection);
        match (self.explorer.selected_collection_dir(), self.explorer.selected_name()) {
            (Some(dir), Some(name)) => {
                if text != name {
                    self.message = Some(Notice::NameMismatch);
                    return Vec::new();
                }
                just(Effect::Disk(DiskWork::DeleteCollection { dir, name }))
            },
            _ => Vec::new(),
        }
    }

    /// What making an endpoint of a curl command does.
    pub open spec fn pastes(self, after: App, curl: String, fx: Seq<Effect>) -> bool {
        match self.explorer.selected() {
            Some(row) => after == self && fx == only(
                Effect::Disk(DiskWork::PasteCurl { dir: row.collection_dir, curl }),
            ),
            None => after == self.told(Notice::SelectCollectionFirst) && fx.len() == 0,
        }
    }

    /// Makes an endpoint of a curl command, in the collection under the cursor.
    pub fn commit_paste_curl(&mut self, curl: String) -> (fx: Vec<Effect>)
        requires
            old(self).wf(),
        ensures
            old(self).pastes(*final(self), curl, fx@),
            final(self).wf(),
    {
        match self.explorer.selected_collection_dir() {
            Some(dir) => just(Effect::Disk(DiskWork::PasteCurl { dir, curl })),
            None => {
                self.message = Some(Notice::SelectCollectionFirst);
                Vec::new()
            },
        }
    }

    /// What creating a sequence does.
    pub open spec fn creates_sequence(self, after: App, name: String, fx: Seq<Effect>) -> bool {
        match self.workspace {
            Some(ws) => after == self && fx == only(
                Effect::Disk(DiskWork::CreateSequence { root: ws.root, name }),
            ),
            None => after == self.told(Notice::NoWorkspaceOpen) && fx.len() == 0,
        }
    }

    /// Creates a sequence.
    pub fn commit_new_sequence(&mut self, name: String) -> (fx: Vec<Effect>)
        requires
            old(self).wf(),
        ensures
            old(self).creates_sequence(*final(self), name, fx@),
            final(self).wf(),
    {
        match &self.workspace {
            Some(ws) => just(
                Effect::Disk(DiskWork::CreateSequence { root: ws.root.clone(), name }),
            ),
            None => {
                self.message = Some(Notice::NoWorkspaceOpen);
                Vec::new()
            },
        }
    }

    /// What a text that was entered in a prompt does.
    #[verifier::opaque]
    pub open spec fn commits(
        self,
        after: App,
        purpose: PromptPurpose,
        text: String,
        fx: Seq<Effect>,
    ) -> bool {
        match purpose {
            PromptPurpose::NewEndpoint => self.creates_endpoint(after, text, fx),
            PromptPurpose::NewCollection => self.creates_collection(after, text, fx),
            PromptPurpose::Rename => after == self && self.renames(text, fx),
            PromptPurpose::DeleteCollectionConfirm => self.deletes_collection(after, text@, fx),
            PromptPurpose::ImportCollection => self.imports(after, text@, fx),
            PromptPurpose::ExportCollection(_) | PromptPurpose::ExportWorkspace(_) => self.exports(
                after,
                purpose,
                text,
                fx,
            ),
            PromptPurpose::PasteCurl => self.pastes(after, text, fx),
            PromptPurpose::NewSequence => self.creates_sequence(after, text, fx),
            PromptPurpose::SaveResponseBody => self.saves_body(
                after,
                crate::app::Surface::Main,
                text,
                fx,
            ),
        }
    }

    /// Acts on a text that was entered in a prompt.
    pub fn commit_prompt(&mut self, purpose: PromptPurpose, text: String) -> (fx: Vec<Effect>)
        requires
            old(self).wf(),
        ensures
            old(self).commits(*final(self), purpose, text, fx@),
            final(self).wf(),
    {
        reveal(App::commits);
        match purpose {
            PromptPurpose::NewEndpoint => self.commit_new_endpoint(text),
            PromptPurpose::NewCollection => self.commit_new_collection(text),
            PromptPurpose::Rename => self.commit_rename(text),
            PromptPurpose::DeleteCollectionConfirm => self.commit_delete_collection(text),
            PromptPurpose::ImportCollection => self.commit_import_collection(text.as_str()),
            PromptPurpose::ExportCollection(_) | PromptPurpose::ExportWorkspace(_) => {
                self.commit_export(purpose, text)
            },
            PromptPurpose::PasteCurl => self.commit_paste_curl(text),
            PromptPurpose::NewSequence => self.commit_new_sequence(text),
            PromptPurpose::SaveResponseBody => self.commit_save_response_body(
                crate::app::Surface::Main,
                text,
            ),
        }
    }

    /// What a key does in a prompt: Esc closes it, Enter commits what was typed, and
    /// every other key types.
    #[verifier::opaque]
    pub open spec fn prompt_keyed(
        self,
        after: App,
        key: KeyEvent,
        purpose: PromptPurpose,
        fx: Seq<Effect>,
    ) -> bool {
        match key.code {
            Key::Esc => after == (App {
                pending_create_dir: None,
                mode: Mode::Normal,
                ..self
            }) && fx.len() == 0,
            Key::Enter => exists|text: String|
                text@ == self.prompt_editor@.text && #[trigger] self.in_mode(
                    Mode::Normal,
                ).commits(after, purpose, text, fx),
            _ => {
                &&& after.prompt_editor@ == self.prompt_editor@.keyed(key)
                &&& after == (App { prompt_editor: after.prompt_editor, ..self })
                &&& fx.len() == 0
            },
        }
    }

    /// Handles a key in a prompt.
    pub fn handle_prompt_key(&mut self, key: KeyEvent, purpose: PromptPurpose) -> (fx: Vec<Effect>)
        requires
            old(self).wf(),
        ensures
            old(self).prompt_keyed(*final(self), key, purpose, fx@),
            final(self).wf(),
    {
        reveal(App::prompt_keyed);
        match key.code {
            Key::Esc => {
                self.pending_create_dir = None;
                self.mode = Mode::Normal;
                Vec::new()
            },
            Key::Enter => {
                let text = self.prompt_editor.text();
                self.mode = Mode::Normal;
                self.commit_prompt(purpose, text)
            },
            _ => {
                self.prompt_editor.handle_key(key);
                Vec::new()
            },
        }
    }

    /// Whether what was typed in the prompt is a curl command.
    pub fn prompt_buffer_is_curl(&self) -> (r: bool)
        ensures
            r == is_curl(self.prompt_editor@.text),
    {
        let text = self.prompt_editor.text();
        looks_like_curl(text.as_str())
    }

    /// What a new endpoint does: the tree is read again, and the endpoint is to be
    /// opened.
    #[verifier::opaque]
    pub open spec fn endpoint_made(
        self,
        after: App,
        name: String,
        result: Result<(String, Reload), String>,
        fx: Seq<Effect>,
    ) -> bool {
        match result {
            Ok((path, reload)) => {
                &&& self.tree_edited(after, Ok(reload), Some(Notice::Created { name }))
                &&& fx == only(Effect::Tree(TreeWork::OpenFile(path)))
            },
            Err(err) => after == self.told(Notice::CrudError { err }) && fx.len() == 0,
        }
    }

    /// Takes in a new endpoint.
    pub fn endpoint_created(
        &mut self,
        name: String,
        result: Result<(String, Reload), String>,
    ) -> (fx: Vec<Effect>)
        requires
            old(self).wf(),
            result matches Ok((path, r)) ==> r.explorer.wf() && r.places@.len() == old(
                self,
            ).buffers.list@.len(),
        ensures
            old(self).endpoint_made(*final(self), name, result, fx@),
            final(self).wf(),
    {
        reveal(App::endpoint_made);
        match result {
            Ok((path, reload)) => {
                self.tree_edit_done(Ok(reload), Some(Notice::Created { name }));
                just(Effect::Tree(TreeWork::OpenFile(path)))
            },
            Err(err) => {
                self.message = Some(Notice::CrudError { err });
                Vec::new()
            },
        }
    }

    /// What is said of a curl command that made no endpoint.
    pub open spec fn curl_failed(e: CurlError) -> Notice {
        match e {
            CurlError::Parse(err) => Notice::CurlImportFailed { err },
            CurlError::Disk(err) => Notice::CrudError { err },
        }
    }

    fn tell_curl_failed(&mut self, e: CurlError)
        requires
            old(self).wf(),
        ensures
            *final(self) == old(self).told(App::curl_failed(e)),
            final(self).wf(),
    {
        self.message = Some(
            match e {
                CurlError::Parse(err) => Notice::CurlImportFailed { err },
                CurlError::Disk(err) => Notice::CrudError { err },
            },
        );
    }

    /// What an endpoint does that was made of a curl command in the prompt: the tree is
    /// read again, the secrets go to the session under the names that stand in their
    /// place, and the endpoint is to be opened. Where it failed that is said, and the
    /// prompt opens again with what was typed.
    #[verifier::opaque]
    pub open spec fn curl_made(
        self,
        after: App,
        dir: String,
        curl: Seq<char>,
        result: Result<CurlImport, CurlError>,
        fx: Seq<Effect>,
    ) -> bool {
        match result {
            Ok(c) => {
                &&& fx == only(Effect::Tree(TreeWork::OpenFile(c.path)))
                &&& exists|a: App, b: App|
                    {
                        &&& #[trigger] self.reloaded(a, c.reload)
                        &&& #[trigger] a.captured(b, c.captured@)
                        &&& after == b.told(
                            Notice::ImportedCurl {
                                name: c.name,
                                captured: c.captured_names,
                                notes: c.warnings,
                            },
                        )
                    }
            },
            Err(e) => {
                &&& fx.len() == 0
                &&& App { pending_create_dir: Some(dir), ..self.told(App::curl_failed(e)) }.prompted(
                    after,
                    PromptPurpose::NewEndpoint,
                    curl,
                )
            },
        }
    }

    /// Takes in an endpoint that was made of a curl command in the prompt.
    pub fn create_endpoint_from_curl(
        &mut self,
        dir: String,
        curl: &str,
        result: Result<CurlImport, CurlError>,
    ) -> (fx: Vec<Effect>)
        requires
            old(self).wf(),
            result matches Ok(c) ==> c.captured.wf() && c.reload.explorer.wf()
                && c.reload.places@.len() == old(self).buffers.list@.len(),
        ensures
            old(self).curl_made(*final(self), dir, curl@, result, fx@),
            final(self).wf(),
    {
        reveal(App::curl_made);
        match result {
            Ok(c) => {
                self.reload_explorer(c.reload);
                let ghost a = *self;
                self.write_session_vars(&c.captured);
                let ghost b = *self;
                assert(old(self).reloaded(a, c.reload));
                assert(a.captured(b, c.captured@));
                self.message = Some(
                    Notice::ImportedCurl {
                        name: c.name,
                        captured: c.captured_names,
                        notes: c.warnings,
                    },
                );
                just(Effect::Tree(TreeWork::OpenFile(c.path)))
            },
            Err(e) => {
                self.tell_curl_failed(e);
                self.pending_create_dir = Some(dir);
                self.open_prompt(PromptPurpose::NewEndpoint, curl);
                Vec::new()
            },
        }
    }

    /// What an endpoint does that was made of a pasted curl command: the tree is read
    /// again, and the endpoint is to be opened.
    #[verifier::opaque]
    pub open spec fn curl_taken(
        self,
        after: App,
        result: Result<CurlImport, CurlError>,
        fx: Seq<Effect>,
    ) -> bool {
        match result {
            Ok(c) => {
                &&& self.tree_edited(
                    after,
                    Ok(c.reload),
                    Some(
                        Notice::PastedCurl { name: c.name, warnings: c.warnings@.len() as u64 },
                    ),
                )
                &&& fx == only(Effect::Tree(TreeWork::OpenFile(c.path)))
            },
            Err(e) => after == self.told(App::curl_failed(e)) && fx.len() == 0,
        }
    }

    /// Takes in an endpoint that was made of a pasted curl command.
    pub fn curl_pasted(&mut self, result: Result<CurlImport, CurlError>) -> (fx: Vec<Effect>)
        requires
            old(self).wf(),
            result matches Ok(c) ==> c.reload.explorer.wf() && c.reload.places@.len() == old(
                self,
            ).buffers.list@.len(),
        ensures
            old(self).curl_taken(*final(self), result, fx@),
            final(self).wf(),
    {
        reveal(App::curl_taken);
        match result {
            Ok(c) => {
                let warnings = c.warnings.len() as u64;
                let notice = Notice::PastedCurl { name: c.name, warnings };
                self.tree_edit_done(Ok(c.reload), Some(notice));
                just(Effect::Tree(TreeWork::OpenFile(c.path)))
            },
            Err(e) => {
                self.tell_curl_failed(e);
                Vec::new()
            },
        }
    }

    /// What is said of a rename: how many steps were rewritten, or why they were not.
    pub open spec fn rename_notice(name: String, steps: Result<u64, String>) -> Notice {
        match steps {
            Ok(steps) => Notice::Renamed { name, steps },
            Err(err) => Notice::CrudError { err },
        }
    }

    fn notice_of_rename(name: String, steps: Result<u64, String>) -> (r: Notice)
        ensures
            r == App::rename_notice(name, steps),
    {
        match steps {
            Ok(steps) => Notice::Renamed { name, steps },
            Err(err) => Notice::CrudError { err },
        }
    }

    /// A buffer whose endpoint was renamed: its edits stay.
    pub open spec fn buffer_renamed(
        b: EndpointBuffer,
        after: EndpointBuffer,
        path: String,
        name: Seq<char>,
    ) -> bool {
        &&& after.endpoint.endpoint.name@ == name
        &&& after.loaded_snapshot.name@ == name
        &&& after == (EndpointBuffer {
            endpoint: SelectedEndpoint {
                file: path,
                endpoint: Endpoint {
                    name: after.endpoint.endpoint.name,
                    ..b.endpoint.endpoint
                },
                ..b.endpoint
            },
            loaded_snapshot: Endpoint { name: after.loaded_snapshot.name, ..b.loaded_snapshot },
            ..b
        })
    }

    /// What a rename of an endpoint does: where it is open, its buffer follows the
    /// file and keeps its edits, and the cursor goes to it; else it is to be opened.
    #[verifier::opaque]
    pub open spec fn endpoint_renamed_to(
        self,
        after: App,
        old_path: String,
        name: String,
        result: Result<Relocated, String>,
        fx: Seq<Effect>,
    ) -> bool {
        match result {
            Err(err) => after == self.told(Notice::CrudError { err }) && fx.len() == 0,
            Ok(r) => {
                let at = buffer_at(self.buffers.list@, old_path@);
                let open = at < self.buffers.list@.len();
                &&& exists|mid: App|
                    {
                        &&& if open {
                            &&& mid.buffers.list@ == self.buffers.list@.update(
                                at,
                                mid.buffers.list@[at],
                            )
                            &&& App::buffer_renamed(
                                self.buffers.list@[at],
                                mid.buffers.list@[at],
                                r.path,
                                trimmed(name@),
                            )
                            &&& mid == (App {
                                buffers: Buffers {
                                    list: mid.buffers.list,
                                    active: self.buffers.active,
                                },
                                ..self
                            })
                        } else {
                            mid == self
                        }
                        &&& #[trigger] mid.tree_edited(
                            after,
                            Ok(r.reload),
                            Some(App::rename_notice(name, r.steps)),
                        )
                    }
                &&& fx == only(
                    Effect::Tree(
                        if open {
                            TreeWork::ShowFile(r.path)
                        } else {
                            TreeWork::OpenFile(r.path)
                        },
                    ),
                )
            },
        }
    }

    /// Takes in a rename of an endpoint.
    pub fn endpoint_renamed(
        &mut self,
        old_path: String,
        name: String,
        result: Result<Relocated, String>,
    ) -> (fx: Vec<Effect>)
        requires
            old(self).wf(),
            result matches Ok(r) ==> r.reload.explorer.wf() && r.reload.places@.len() == old(
                self,
            ).buffers.list@.len(),
        ensures
            old(self).endpoint_renamed_to(*final(self), old_path, name, result, fx@),
            final(self).wf(),
    {
        reveal(App::endpoint_renamed_to);
        let r = match result {
            Ok(r) => r,
            Err(err) => {
                self.message = Some(Notice::CrudError { err });
                return Vec::new();
            },
        };
        proof {
            lemma_buffer_at(self.buffers.list@, old_path@);
        }
        let at = self.buffers.buffer_index_for_path(&old_path);
        if let Some(i) = at {
            self.rename_buffer(i, &r.path, name.as_str());
        }
        let ghost mid = *self;
        let notice = App::notice_of_rename(name, r.steps);
        self.tree_edit_done(Ok(r.reload), Some(notice));
        assert(mid.tree_edited(*self, Ok(r.reload), Some(notice)));
        if at.is_some() {
            just(Effect::Tree(TreeWork::ShowFile(r.path)))
        } else {
            just(Effect::Tree(TreeWork::OpenFile(r.path)))
        }
    }

    fn rename_buffer(&mut self, i: usize, path: &String, name: &str)
        requires
            old(self).wf(),
            i < old(self).buffers.list@.len(),
        ensures
            final(self).buffers.list@ == old(self).buffers.list@.update(
                i as int,
                final(self).buffers.list@[i as int],
            ),
            App::buffer_renamed(
                old(self).buffers.list@[i as int],
                final(self).buffers.list@[i as int],
                *path,
                trimmed(name@),
            ),
            *final(self) == (App {
                buffers: Buffers {
                    list: final(self).buffers.list,
                    active: old(self).buffers.active,
                },
                ..*old(self)
            }),
            final(self).wf(),
    {
        let short = trim(name);
        self.buffers.list[i].endpoint.file = path.clone();
        self.buffers.list[i].endpoint.endpoint.name = short.clone();
        self.buffers.list[i].loaded_snapshot.name = short;
        proof {
            assert(self.buffers.list@ =~= old(self).buffers.list@.update(
                i as int,
                self.buffers.list@[i as int],
            ));
            assert forall|j: int| 0 <= j < self.buffers.list@.len() implies (
            #[trigger] self.buffers.list@[j]).wf() by {
                assert(old(self).buffers.list@[j].wf());
            }
        }
    }

    /// What a rename of a collection does: the buffers of endpoints in it follow their
    /// files and keep their edits.
    #[verifier::opaque]
    pub open spec fn collection_renamed_to(
        self,
        after: App,
        dir: String,
        name: String,
        result: Result<Relocated, String>,
    ) -> bool {
        match result {
            Err(err) => after == self.told(Notice::CrudError { err }),
            Ok(r) => exists|mid: App|
                {
                    &&& repointed_all(self.buffers.list@, mid.buffers.list@, dir@, r.path@)
                    &&& mid == (App {
                        buffers: Buffers { list: mid.buffers.list, active: self.buffers.active },
                        ..self
                    })
                    &&& #[trigger] mid.tree_edited(
                        after,
                        Ok(r.reload),
                        Some(App::rename_notice(name, r.steps)),
                    )
                },
        }
    }

    /// Takes in a rename of a collection.
    pub fn collection_renamed(
        &mut self,
        dir: String,
        name: String,
        result: Result<Relocated, String>,
    )
        requires
            old(self).wf(),
            result matches Ok(r) ==> r.reload.explorer.wf() && r.reload.places@.len() == old(
                self,
            ).buffers.list@.len(),
        ensures
            old(self).collection_renamed_to(*final(self), dir, name, result),
            final(self).wf(),
    {
        reveal(App::collection_renamed_to);
        let r = match result {
            Ok(r) => r,
            Err(err) => {
                self.message = Some(Notice::CrudError { err });
                return;
            },
        };
        self.buffers.repoint_dir(dir.as_str(), r.path.as_str());
        let ghost mid = *self;
        let notice = App::notice_of_rename(name, r.steps);
        self.tree_edit_done(Ok(r.reload), Some(notice));
        assert(mid.tree_edited(*self, Ok(r.reload), Some(notice)));
    }

    /// The files between which the steps of sequences are rewritten after a rename or a
    /// move: both relative to the workspace. Outside of it there are none.
    pub fn rewrite_step_refs(&self, from: &String, to: &String) -> (r: Option<(String, String)>)
        ensures
            match (self.spec_rel_path(from@), self.spec_rel_path(to@)) {
                (Some(a), Some(b)) => r matches Some((x, y)) && x@ == a && y@ == b,
                _ => r is None,
            },
    {
        match (self.endpoint_rel_path(from), self.endpoint_rel_path(to)) {
            (Some(a), Some(b)) => Some((a, b)),
            _ => None,
        }
    }

    /// What asking to move or copy the row under the cursor does.
    #[verifier::opaque]
    pub open spec fn asks_relocate(self, after: App, is_move: bool, fx: Seq<Effect>) -> bool {
        if self.panes.on_sequences() {
            after == self.told(Notice::SequencesRootOnly) && fx.len() == 0
        } else {
            match self.explorer.selected() {
                Some(row) => match row.kind {
                    RowKind::Endpoint => self.asks_directory(
                        after,
                        if is_move {
                            DestPurpose::MoveEndpoint
                        } else {
                            DestPurpose::CopyEndpoint
                        },
                        Some(row.path),
                        fx,
                    ),
                    RowKind::Collection => self.asks_directory(
                        after,
                        if is_move {
                            DestPurpose::MoveCollection
                        } else {
                            DestPurpose::CopyCollection
                        },
                        Some(row.collection_dir),
                        fx,
                    ),
                },
                None => after == self.told(Notice::NothingToMove) && fx.len() == 0,
            }
        }
    }

    /// Asks where the row under the cursor is to be moved or copied.
    pub fn begin_relocate(&mut self, is_move: bool) -> (fx: Vec<Effect>)
        requires
            old(self).wf(),
        ensures
            old(self).asks_relocate(*final(self), is_move, fx@),
            final(self).wf(),
    {
        reveal(App::asks_relocate);
        if self.panes.left_column_on_sequences() {
            self.message = Some(Notice::SequencesRootOnly);
            return Vec::new();
        }
        match self.explorer.selected_kind() {
            Some(RowKind::Endpoint) => {
                let source = self.explorer.selected_endpoint_file();
                let purpose = if is_move {
                    DestPurpose::MoveEndpoint
                } else {
                    DestPurpose::CopyEndpoint
                };
                self.open_destination_picker(purpose, source)
            },
            Some(RowKind::Collection) => {
                let source = self.explorer.selected_collection_dir();
                let purpose = if is_move {
                    DestPurpose::MoveCollection
                } else {
                    DestPurpose::CopyCollection
                };
                self.open_destination_picker(purpose, source)
            },
            None => {
                self.message = Some(Notice::NothingToMove);
                Vec::new()
            },
        }
    }

    /// What is said of a move or a copy.
    pub open spec fn relocate_notice(collection: bool, is_move: bool, steps: u64) -> Notice {
        if is_move {
            if collection {
                Notice::MovedCollection { steps }
            } else {
                Notice::MovedEndpoint { steps }
            }
        } else if collection {
            Notice::CopiedCollection
        } else {
            Notice::CopiedEndpoint
        }
    }

    /// What a move or a copy of an endpoint or a collection does. A move that leads
    /// nowhere else is said to; else the buffers of what moved follow and keep their
    /// edits. Where the steps of sequences could not be rewritten, that is said, and
    /// the tree is not read again. A copy changes no buffer.
    #[verifier::opaque]
    pub open spec fn relocated_to(
        self,
        after: App,
        collection: bool,
        source: String,
        is_move: bool,
        result: Result<Relocated, String>,
    ) -> bool {
        match result {
            Err(err) => after == self.told(Notice::CrudError { err }),
            Ok(r) => if is_move && r.path@ == source@ {
                after == self.told(
                    if collection {
                        Notice::AlreadyThere
                    } else {
                        Notice::AlreadyInCollection
                    },
                )
            } else {
                exists|mid: App|
                    {
                        &&& if !is_move {
                            mid == self
                        } else {
                            &&& if collection {
                                repointed_all(
                                    self.buffers.list@,
                                    mid.buffers.list@,
                                    source@,
                                    r.path@,
                                )
                            } else {
                                refiled(self.buffers.list@, mid.buffers.list@, source@, r.path)
                            }
                            &&& mid == (App {
                                buffers: Buffers {
                                    list: mid.buffers.list,
                                    active: self.buffers.active,
                                },
                                ..self
                            })
                        }
                        &&& #[trigger] mid.relocation_told(after, collection, is_move, r)
                    }
            },
        }
    }

    /// The state once what moved was followed: the tree is read again and the move is
    /// said, or why the steps were not rewritten.
    #[verifier::opaque]
    pub open spec fn relocation_told(
        self,
        after: App,
        collection: bool,
        is_move: bool,
        r: Relocated,
    ) -> bool {
        match r.steps {
            Err(err) if is_move => after == self.told(Notice::CrudError { err }),
            _ => self.tree_edited(
                after,
                Ok(r.reload),
                Some(
                    App::relocate_notice(
                        collection,
                        is_move,
                        match r.steps {
                            Ok(n) => n,
                            Err(_) => 0,
                        },
                    ),
                ),
            ),
        }
    }

    fn tell_relocation(&mut self, collection: bool, is_move: bool, r: Relocated)
        requires
            old(self).wf(),
            r.reload.explorer.wf(),
            r.reload.places@.len() == old(self).buffers.list@.len(),
        ensures
            old(self).relocation_told(*final(self), collection, is_move, r),
            final(self).wf(),
    {
        reveal(App::relocation_told);
        let steps: u64 = match r.steps {
            Ok(n) => n,
            Err(err) => {
                if is_move {
                    self.message = Some(Notice::CrudError { err });
                    return;
                }
                0
            },
        };
        let notice = if is_move {
            if collection {
                Notice::MovedCollection { steps }
            } else {
                Notice::MovedEndpoint { steps }
            }
        } else if collection {
            Notice::CopiedCollection
        } else {
            Notice::CopiedEndpoint
        };
        self.tree_edit_done(Ok(r.reload), Some(notice));
    }

    /// Takes in a move or a copy of an endpoint.
    pub fn relocate_endpoint(
        &mut self,
        source: String,
        is_move: bool,
        result: Result<Relocated, String>,
    )
        requires
            old(self).wf(),
            result matches Ok(r) ==> r.reload.explorer.wf() && r.reload.places@.len() == old(
                self,
            ).buffers.list@.len(),
        ensures
            old(self).relocated_to(*final(self), false, source, is_move, result),
            final(self).wf(),
    {
        reveal(App::relocated_to);
        let r = match result {
            Ok(r) => r,
            Err(err) => {
                self.message = Some(Notice::CrudError { err });
                return;
            },
        };
        if is_move && r.path == source {
            self.message = Some(Notice::AlreadyInCollection);
            return;
        }
        if is_move {
            self.buffers.repoint_file(&source, &r.path);
        }
        let ghost mid = *self;
        self.tell_relocation(false, is_move, r);
        assert(mid.relocation_told(*self, false, is_move, r));
    }

    /// Takes in a move or a copy of a collection.
    pub fn relocate_collection(
        &mut self,
        source: String,
        is_move: bool,
        result: Result<Relocated, String>,
    )
        requires
            old(self).wf(),
            result matches Ok(r) ==> r.reload.explorer.wf() && r.reload.places@.len() == old(
                self,
            ).buffers.list@.len(),
        ensures
            old(self).relocated_to(*final(self), true, source, is_move, result),
            final(self).wf(),
    {
        reveal(App::relocated_to);
        let r = match result {
            Ok(r) => r,
            Err(err) => {
                self.message = Some(Notice::CrudError { err });
                return;
            },
        };
        if is_move && r.path == source {
            self.message = Some(Notice::AlreadyThere);
            return;
        }
        if is_move {
            self.buffers.repoint_dir(source.as_str(), r.path.as_str());
        }
        let ghost mid = *self;
        self.tell_relocation(true, is_move, r);
        assert(mid.relocation_told(*self, true, is_move, r));
    }

    /// What duplicating does: the sequence under the cursor where the sequences have
    /// the focus, and else the row under the cursor.
    #[verifier::opaque]
    pub open spec fn duplicates(self, after: App, fx: Seq<Effect>) -> bool {
        if self.panes.on_sequences() {
            match self.explorer.sequence() {
                Some(item) => after == self && fx == only(
                    Effect::Disk(DiskWork::DuplicateSequence(item.file)),
                ),
                None => after == self.told(Notice::NoSequenceSelected) && fx.len() == 0,
            }
        } else {
            match self.explorer.selected() {
                Some(row) => match row.kind {
                    RowKind::Endpoint => after == self && fx == only(
                        Effect::Disk(DiskWork::DuplicateEndpoint(row.path)),
                    ),
                    RowKind::Collection => match self.workspace {
                        Some(ws) => after == self && fx == only(
                            Effect::Disk(
                                DiskWork::DuplicateCollection {
                                    dir: row.collection_dir,
                                    root: ws.root,
                                },
                            ),
                        ),
                        None => after == self.told(Notice::NoWorkspaceOpen) && fx.len() == 0,
                    },
                },
                None => after == self.told(Notice::NothingToDuplicate) && fx.len() == 0,
            }
        }
    }

    /// Duplicates what is under the cursor.
    pub fn duplicate_selected(&mut self) -> (fx: Vec<Effect>)
        requires
            old(self).wf(),
        ensures
            old(self).duplicates(*final(self), fx@),
            final(self).wf(),
    {
        reveal(App::duplicates);
        if self.panes.left_column_on_sequences() {
            return match self.explorer.selected_sequence() {
                Some(item) => just(Effect::Disk(DiskWork::DuplicateSequence(item.file.clone()))),
                None => {
                    self.message = Some(Notice::NoSequenceSelected);
                    Vec::new()
                },
            };
        }
        match self.explorer.selected_kind() {
            Some(RowKind::Endpoint) => match self.explorer.selected_endpoint_file() {
                Some(file) => just(Effect::Disk(DiskWork::DuplicateEndpoint(file))),
                None => Vec::new(),
            },
            Some(RowKind::Collection) => match (
                self.explorer.selected_collection_dir(),
                &self.workspace,
            ) {
                (Some(dir), Some(ws)) => just(
                    Effect::Disk(DiskWork::DuplicateCollection { dir, root: ws.root.clone() }),
                ),
                _ => {
                    self.message = Some(Notice::NoWorkspaceOpen);
                    Vec::new()
                },
            },
            None => {
                self.message = Some(Notice::NothingToDuplicate);
                Vec::new()
            },
        }
    }

    /// What moving among neighbours asks for.
    #[verifier::opaque]
    pub open spec fn reorders(self, after: App, to: ReorderDir, fx: Seq<Effect>) -> bool {
        if self.panes.on_sequences() {
            match (self.explorer.sequence(), self.workspace) {
                (None, _) => after == self.told(Notice::NoSequenceSelected) && fx.len() == 0,
                (Some(_), None) => after == self.told(Notice::NoWorkspaceOpen) && fx.len() == 0,
                (Some(item), Some(ws)) => {
                    &&& after == self
                    &&& fx.len() == 1
                    &&& fx[0] matches Effect::Disk(
                        DiskWork::ReorderSequence { dir, file, to: t },
                    ) && file == item.file && t == to && dir@ == rendered(
                        crate::paths::below(parsed(ws.root@), parsed("sequences"@)),
                    )
                },
            }
        } else {
            match self.explorer.selected() {
                None => after == self.told(Notice::NothingToReorder) && fx.len() == 0,
                Some(row) => match row.kind {
                    RowKind::Endpoint => {
                        &&& after == self
                        &&& match spec_parent(parsed(row.path@)) {
                            None => fx.len() == 0,
                            Some(up) => {
                                &&& fx.len() == 1
                                &&& fx[0] matches Effect::Disk(
                                    DiskWork::ReorderEndpoint { dir, file, to: t },
                                ) && file == row.path && t == to && dir@ == rendered(up)
                            },
                        }
                    },
                    RowKind::Collection => match self.workspace {
                        None => after == self.told(Notice::NoWorkspaceOpen) && fx.len() == 0,
                        Some(ws) => after == self && fx == only(
                            Effect::Disk(
                                DiskWork::ReorderCollection {
                                    dir: row.collection_dir,
                                    root: ws.root,
                                    to,
                                },
                            ),
                        ),
                    },
                },
            }
        }
    }

    /// Moves what is under the cursor one place among its neighbours.
    pub fn reorder_selected(&mut self, to: ReorderDir) -> (fx: Vec<Effect>)
        requires
            old(self).wf(),
        ensures
            old(self).reorders(*final(self), to, fx@),
            final(self).wf(),
    {
        reveal(App::reorders);
        if self.panes.left_column_on_sequences() {
            return match (self.explorer.selected_sequence(), &self.workspace) {
                (None, _) => {
                    self.message = Some(Notice::NoSequenceSelected);
                    Vec::new()
                },
                (Some(_), None) => {
                    self.message = Some(Notice::NoWorkspaceOpen);
                    Vec::new()
                },
                (Some(item), Some(ws)) => {
                    let dir = join_path(ws.root.as_str(), "sequences");
                    just(
                        Effect::Disk(
                            DiskWork::ReorderSequence { dir, file: item.file.clone(), to },
                        ),
                    )
                },
            };
        }
        match self.explorer.selected_kind() {
            Some(RowKind::Endpoint) => {
                let file = match self.explorer.selected_endpoint_file() {
                    Some(file) => file,
                    None => {
                        return Vec::new();
                    },
                };
                match parent(file.as_str()) {
                    Some(dir) => just(Effect::Disk(DiskWork::ReorderEndpoint { dir, file, to })),
                    None => Vec::new(),
                }
            },
            Some(RowKind::Collection) => match (
                self.explorer.selected_collection_dir(),
                &self.workspace,
            ) {
                (Some(dir), Some(ws)) => just(
                    Effect::Disk(DiskWork::ReorderCollection { dir, root: ws.root.clone(), to }),
                ),
                _ => {
                    self.message = Some(Notice::NoWorkspaceOpen);
                    Vec::new()
                },
            },
            None => {
                self.message = Some(Notice::NothingToReorder);
                Vec::new()
            },
        }
    }

    /// Takes in a move among neighbours; only one that led nowhere is said.
    pub fn reordered(&mut self, outcome: ReorderOutcome, result: Result<Reload, String>)
        requires
            old(self).wf(),
            result matches Ok(r) ==> r.explorer.wf() && r.places@.len() == old(
                self,
            ).buffers.list@.len(),
        ensures
            old(self).tree_edited(*final(self), result, reorder_notice(outcome)),
            final(self).wf(),
    {
        let notice = match outcome {
            ReorderOutcome::Moved => None,
            ReorderOutcome::AlreadyFirst => Some(Notice::AlreadyFirst),
            ReorderOutcome::AlreadyLast => Some(Notice::AlreadyLast),
        };
        self.tree_edit_done(result, notice);
    }

    /// What a new sequence does: the tree is read again, and the sequence is put into
    /// its editor.
    #[verifier::opaque]
    pub open spec fn sequence_made(
        self,
        after: App,
        result: Result<(String, String, Reload), String>,
        fx: Seq<Effect>,
    ) -> bool {
        match result {
            Ok((name, path, reload)) => exists|mid: App|
                #[trigger] self.reloaded(mid, reload) && mid.opens_editor(after, name, path, fx),
            Err(err) => after == self.told(Notice::CrudError { err }) && fx.len() == 0,
        }
    }

    /// Takes in a new sequence: its name, its file and the tree.
    pub fn sequence_created(&mut self, result: Result<(String, String, Reload), String>) -> (fx: Vec<
        Effect,
    >)
        requires
            old(self).wf(),
            result matches Ok((name, path, r)) ==> r.explorer.wf() && r.places@.len() == old(
                self,
            ).buffers.list@.len(),
        ensures
            old(self).sequence_made(*final(self), result, fx@),
            final(self).wf(),
    {
        reveal(App::sequence_made);
        match result {
            Ok((name, path, reload)) => {
                self.reload_explorer(reload);
                let ghost mid = *self;
                assert(old(self).reloaded(mid, reload));
                self.open_sequence_editor(name, path)
            },
            Err(err) => {
                self.message = Some(Notice::CrudError { err });
                Vec::new()
            },
        }
    }

    /// What a save of the sequence in the editor does: where it was written the editor
    /// has no unsaved edits, the tree is read again, and the surface closes where that
    /// was asked for; where the sequence does not hold or could not be written, that
    /// is said and the editor stays as it is.
    #[verifier::opaque]
    pub open spec fn sequence_stored(
        self,
        after: App,
        result: Result<Reload, SequenceSaveError>,
        close: bool,
        fx: Seq<Effect>,
    ) -> bool {
        match result {
            Err(SequenceSaveError::Invalid(text)) => after == self.told(Notice::Text { text })
                && fx.len() == 0,
            Err(SequenceSaveError::Failed(err)) => after == self.told(Notice::CrudError { err })
                && fx.len() == 0,
            Ok(reload) => exists|mid: App|
                {
                    &&& #[trigger] self.sequence_clean().reloaded(mid, reload)
                    &&& if close {
                        &&& after == mid.told(Notice::SequenceSaved).surface_closed()
                        &&& fx == App::abort_step(mid.sequence.in_flight)
                    } else {
                        after == mid.told(Notice::SequenceSaved) && fx.len() == 0
                    }
                },
        }
    }

    /// The state with no unsaved edits in the editor of the sequence.
    pub open spec fn sequence_clean(self) -> App {
        App {
            sequence: crate::sequence::SequenceSurface {
                editor: match self.sequence.editor {
                    Some(e) => Some(crate::sequence::SequenceEditor { dirty: false, ..e }),
                    None => None,
                },
                ..self.sequence
            },
            ..self
        }
    }

    fn clean_sequence(&mut self)
        requires
            old(self).wf(),
        ensures
            *final(self) == old(self).sequence_clean(),
            final(self).wf(),
    {
        if let Some(e) = self.sequence.editor.as_mut() {
            e.dirty = false;
        }
    }

    /// Takes in a save of the sequence in the editor.
    pub fn sequence_saved(
        &mut self,
        result: Result<Reload, SequenceSaveError>,
        close: bool,
    ) -> (fx: Vec<Effect>)
        requires
            old(self).wf(),
            result matches Ok(r) ==> r.explorer.wf() && r.places@.len() == old(
                self,
            ).buffers.list@.len(),
        ensures
            old(self).sequence_stored(*final(self), result, close, fx@),
            final(self).wf(),
    {
        reveal(App::sequence_stored);
        match result {
            Err(SequenceSaveError::Invalid(text)) => {
                self.message = Some(Notice::Text { text });
                Vec::new()
            },
            Err(SequenceSaveError::Failed(err)) => {
                self.message = Some(Notice::CrudError { err });
                Vec::new()
            },
            Ok(reload) => {
                self.clean_sequence();
                self.reload_explorer(reload);
                let ghost mid = *self;
                assert(old(self).sequence_clean().reloaded(mid, reload));
                self.message = Some(Notice::SequenceSaved);
                if close {
                    self.close_sequence_surface()
                } else {
                    Vec::new()
                }
            },
        }
    }
}

/// Why a sequence was not saved.
#[derive(Debug)]
pub enum SequenceSaveError {
    /// It does not hold.
    Invalid(String),
    /// It could not be written.
    Failed(String),
}

/// A collection is deleted only when its own name was typed.
pub proof fn law_delete_needs_the_name(a: App, b: App, text: Seq<char>, fx: Seq<Effect>)
    requires
        a.deletes_collection(b, text, fx),
        fx.len() > 0,
    ensures
        a.explorer.selected() matches Some(row) && text == row.name@ && fx == only(
            Effect::Disk(DiskWork::DeleteCollection { dir: row.collection_dir, name: row.name }),
        ),
{
    reveal(App::deletes_collection);
}

/// A rename of an endpoint that is open keeps its unsaved edits.
pub proof fn law_rename_keeps_edits(b: EndpointBuffer, after: EndpointBuffer, path: String,
    name: Seq<char>)
    requires
        App::buffer_renamed(b, after, path, name),
    ensures
        after.editor == b.editor,
        after.endpoint.endpoint.request == b.endpoint.endpoint.request,
        after.endpoint.file == path,
        after.response == b.response,
        after.in_flight == b.in_flight,
{
}

/// A prompt that is left forgets the directory that was picked for it.
pub proof fn law_left_prompt_forgets_its_directory(
    a: App,
    b: App,
    key: KeyEvent,
    purpose: PromptPurpose,
    fx: Seq<Effect>,
)
    requires
        key.code == Key::Esc,
        a.prompt_keyed(b, key, purpose, fx),
    ensures
        b.pending_create_dir is None,
        b.mode == Mode::Normal,
        fx.len() == 0,
{
    reveal(App::prompt_keyed);
}

/// What is created goes into the directory of the collection under the cursor, and into the
/// root where no row is selected; a directory that a prompt was opened for comes first. A curl
/// command makes an endpoint of its own, and any other text is the name of one.
pub proof fn law_created_endpoint_goes_to_the_selected_collection(
    a: App,
    b: App,
    text: String,
    fx: Seq<Effect>,
)
    requires
        a.creates_endpoint(b, text, fx),
        a.workspace is Some,
    ensures
        b.pending_create_dir is None,
        b.buffers == a.buffers,
        fx.len() == 1,
        ({
            let dir = if a.pending_create_dir is Some {
                a.pending_create_dir->0
            } else if a.explorer.cursor < a.explorer.rows@.len() {
                a.explorer.rows@[a.explorer.cursor as int].collection_dir
            } else {
                a.workspace->0.root
            };
            &&& is_curl(text@) ==> fx[0] == Effect::Disk(DiskWork::ImportCurl { dir, curl: text })
            &&& !is_curl(text@) ==> fx[0] == Effect::Disk(
                DiskWork::CreateEndpoint { dir, name: text },
            )
        }),
{
    reveal(App::creates_endpoint);
}

/// A collection that is created goes where an endpoint would, below the root of the workspace.
pub proof fn law_created_collection_goes_to_the_selected_collection(
    a: App,
    b: App,
    text: String,
    fx: Seq<Effect>,
)
    requires
        a.creates_collection(b, text, fx),
        a.workspace is Some,
    ensures
        b.pending_create_dir is None,
        ({
            let parent = if a.pending_create_dir is Some {
                a.pending_create_dir->0
            } else if a.explorer.cursor < a.explorer.rows@.len() {
                a.explorer.rows@[a.explorer.cursor as int].collection_dir
            } else {
                a.workspace->0.root
            };
            fx == seq![
                Effect::Disk(
                    DiskWork::CreateCollection { parent, name: text, root: a.workspace->0.root },
                ),
            ]
        }),
{
    reveal(App::creates_collection);
}

/// A rename is of the selected row: the file of an endpoint, or the directory of a collection,
/// gets the name that was typed.
pub proof fn law_rename_is_of_the_selected_row(a: App, name: String, fx: Seq<Effect>)
    requires
        a.renames(name, fx),
    ensures
        a.explorer.cursor >= a.explorer.rows@.len() ==> fx.len() == 0,
        a.explorer.cursor < a.explorer.rows@.len() ==> {
            let row = a.explorer.rows@[a.explorer.cursor as int];
            &&& row.kind is Endpoint ==> fx == seq![
                Effect::Disk(DiskWork::RenameEndpoint { path: row.path, name }),
            ]
            &&& row.kind is Collection && a.workspace is Some ==> fx == seq![
                Effect::Disk(
                    DiskWork::RenameCollection {
                        dir: row.collection_dir,
                        name,
                        root: a.workspace->0.root,
                    },
                ),
            ]
        },
{
    reveal(App::renames);
}

/// A collection is deleted where its name was typed, and else nothing is; what is deleted is
/// the collection of the selected row.
pub proof fn law_delete_is_of_the_named_collection(a: App, b: App, text: Seq<char>, fx: Seq<Effect>)
    requires
        a.deletes_collection(b, text, fx),
        a.explorer.cursor < a.explorer.rows@.len(),
    ensures
        ({
            let row = a.explorer.rows@[a.explorer.cursor as int];
            &&& text == row.name@ ==> b == a && fx == seq![
                Effect::Disk(
                    DiskWork::DeleteCollection { dir: row.collection_dir, name: row.name },
                ),
            ]
            &&& text != row.name@ ==> fx.len() == 0 && b.message == Some(Notice::NameMismatch)
                && b.buffers == a.buffers
        }),
{
    reveal(App::deletes_collection);
}

/// A delete of an endpoint asks whether it is meant, and a delete of a collection asks for the
/// name.
pub proof fn law_delete_asks_first(a: App, b: App)
    requires
        a.asks_delete(b),
    ensures
        b.buffers == a.buffers,
        a.explorer.cursor >= a.explorer.rows@.len() ==> b.mode == a.mode && b.message == Some(
            Notice::NothingToDelete,
        ),
        a.explorer.cursor < a.explorer.rows@.len() ==> {
            let row = a.explorer.rows@[a.explorer.cursor as int];
            &&& row.kind is Endpoint ==> b.mode == Mode::Confirm(ConfirmPurpose::DeleteEndpoint)
            &&& row.kind is Collection ==> b.mode == Mode::Prompt(
                PromptPurpose::DeleteCollectionConfirm,
            ) && b.prompt_editor@.text.len() == 0
        },
{
}

/// A rename is prompted for with the name that the row has.
pub proof fn law_rename_starts_from_the_name(a: App, b: App)
    requires
        a.prompts_rename(b),
        a.explorer.cursor < a.explorer.rows@.len(),
    ensures
        b.mode == Mode::Prompt(PromptPurpose::Rename),
        b.prompt_editor@.text == a.explorer.rows@[a.explorer.cursor as int].name@,
        b.buffers == a.buffers,
{
}

/// A path that a collection is imported from is read without the white space around it; an
/// empty one imports nothing.
pub proof fn law_import_reads_the_typed_path(a: App, b: App, input: Seq<char>, fx: Seq<Effect>)
    requires
        a.imports(b, input, fx),
        a.workspace is Some,
    ensures
        b.buffers == a.buffers,
        trimmed(input).len() == 0 ==> fx.len() == 0 && b.message == Some(Notice::NoPathGiven),
        trimmed(input).len() > 0 ==> fx.len() == 1 && (fx[0] matches Effect::Disk(
            DiskWork::ImportCollection { root, path },
        ) && root == a.workspace->0.root && path@ == trimmed(input)),
{
    reveal(App::imports);
}

/// A curl command that is pasted makes an endpoint in the collection of the selected row.
pub proof fn law_pasted_curl_goes_to_the_selected_collection(
    a: App,
    b: App,
    curl: String,
    fx: Seq<Effect>,
)
    requires
        a.pastes(b, curl, fx),
    ensures
        b.buffers == a.buffers,
        a.explorer.cursor < a.explorer.rows@.len() ==> fx == seq![
            Effect::Disk(
                DiskWork::PasteCurl {
                    dir: a.explorer.rows@[a.explorer.cursor as int].collection_dir,
                    curl,
                },
            ),
        ],
        a.explorer.cursor >= a.explorer.rows@.len() ==> fx.len() == 0 && b.message == Some(
            Notice::SelectCollectionFirst,
        ),
{
}

/// A copy as a curl command is of the request as it is edited: with the text of the editor as
/// its body, and with its variables filled in where that was asked for.
pub proof fn law_copied_curl_has_the_edited_body(a: App, b: App, resolved: bool, fx: Seq<Effect>)
    requires
        a.copies_curl(b, resolved, fx),
        a.buffers.loaded(),
    ensures
        b == a,
        fx.len() == 1,
        fx[0] matches Effect::ExportCurl { endpoint, fill_from } && {
            let held = a.buffers.list@[a.buffers.active as int];
            let text = held.editor.spec_text();
            &&& held.endpoint.endpoint@.request.body matches Some(BodyView::Simple { kind, .. })
                ==> endpoint@.request.body == Some(BodyView::Simple { kind, content: text })
            &&& held.endpoint.endpoint@.request.body is None && text.len() > 0
                ==> endpoint@.request.body == Some(
                BodyView::Simple { kind: BodyKind::Text, content: text },
            )
            &&& endpoint@.request.url == held.endpoint.endpoint@.request.url
            &&& endpoint@.request.method == held.endpoint.endpoint@.request.method
            &&& endpoint@.request.headers == held.endpoint.endpoint@.request.headers
            &&& endpoint@.request.params == held.endpoint.endpoint@.request.params
            &&& endpoint@.request.auth == held.endpoint.endpoint@.request.auth
            &&& endpoint@.name == held.endpoint.endpoint@.name
            &&& fill_from is Some <==> resolved
        },
{
    reveal(App::copies_curl);
}

/// A move or a copy of the selected row asks for a directory: of an endpoint for its file, and
/// of a collection for its directory.
pub proof fn law_relocation_is_of_the_selected_row(a: App, b: App, is_move: bool, fx: Seq<Effect>)
    requires
        a.asks_relocate(b, is_move, fx),
        !a.panes.on_sequences(),
        a.explorer.cursor < a.explorer.rows@.len(),
    ensures
        ({
            let row = a.explorer.rows@[a.explorer.cursor as int];
            &&& row.kind is Endpoint && is_move ==> a.asks_directory(
                b,
                DestPurpose::MoveEndpoint,
                Some(row.path),
                fx,
            )
            &&& row.kind is Endpoint && !is_move ==> a.asks_directory(
                b,
                DestPurpose::CopyEndpoint,
                Some(row.path),
                fx,
            )
            &&& row.kind is Collection && is_move ==> a.asks_directory(
                b,
                DestPurpose::MoveCollection,
                Some(row.collection_dir),
                fx,
            )
            &&& row.kind is Collection && !is_move ==> a.asks_directory(
                b,
                DestPurpose::CopyCollection,
                Some(row.collection_dir),
                fx,
            )
        }),
{
    reveal(App::asks_relocate);
}

/// A duplicate is of the selected row, or of the selected sequence in the pane of those.
pub proof fn law_duplicate_is_of_the_selected_row(a: App, b: App, fx: Seq<Effect>)
    requires
        a.duplicates(b, fx),
        a.workspace is Some,
    ensures
        b.buffers == a.buffers,
        !a.panes.on_sequences() && a.explorer.cursor < a.explorer.rows@.len() ==> {
            let row = a.explorer.rows@[a.explorer.cursor as int];
            &&& row.kind is Endpoint ==> fx == seq![
                Effect::Disk(DiskWork::DuplicateEndpoint(row.path)),
            ]
            &&& row.kind is Collection ==> fx == seq![
                Effect::Disk(
                    DiskWork::DuplicateCollection {
                        dir: row.collection_dir,
                        root: a.workspace->0.root,
                    },
                ),
            ]
        },
        a.panes.on_sequences() && a.explorer.seq_cursor < a.explorer.sequences@.len() ==> fx
            == seq![
            Effect::Disk(
                DiskWork::DuplicateSequence(
                    a.explorer.sequences@[a.explorer.seq_cursor as int].file,
                ),
            ),
        ],
        !a.panes.on_sequences() && a.explorer.cursor >= a.explorer.rows@.len() ==> fx.len() == 0,
{
    reveal(App::duplicates);
}

/// A row is moved among its siblings the way that was asked for.
pub proof fn law_reorder_is_of_the_selected_row(a: App, b: App, to: ReorderDir, fx: Seq<Effect>)
    requires
        a.reorders(b, to, fx),
        a.workspace is Some,
        !a.panes.on_sequences(),
        a.explorer.cursor < a.explorer.rows@.len(),
    ensures
        b == a,
        ({
            let row = a.explorer.rows@[a.explorer.cursor as int];
            &&& row.kind is Collection ==> fx == seq![
                Effect::Disk(
                    DiskWork::ReorderCollection {
                        dir: row.collection_dir,
                        root: a.workspace->0.root,
                        to,
                    },
                ),
            ]
            &&& row.kind is Endpoint && fx.len() > 0 ==> (fx[0] matches Effect::Disk(
                DiskWork::ReorderEndpoint { file, to: t, .. },
            ) && file == row.path && t == to)
        }),
{
    reveal(App::reorders);
}

/// Enter at a prompt acts on the text that was typed and leaves the prompt; any other key but
/// Esc goes to the line and does nothing else.
pub proof fn law_prompt_acts_on_the_typed_text(
    a: App,
    b: App,
    key: KeyEvent,
    fx: Seq<Effect>,
)
    requires
        a.prompt_keyed(b, key, PromptPurpose::Rename, fx),
        a.explorer.cursor < a.explorer.rows@.len(),
        a.explorer.rows@[a.explorer.cursor as int].kind is Endpoint,
    ensures
        key.code is Enter ==> b.mode == Mode::Normal && fx.len() == 1 && (fx[0] matches Effect::Disk(
            DiskWork::RenameEndpoint { path, name },
        ) && name@ == a.prompt_editor@.text && path
            == a.explorer.rows@[a.explorer.cursor as int].path),
        !(key.code is Enter || key.code is Esc) ==> fx.len() == 0 && b.mode == a.mode && b.buffers
            == a.buffers,
{
    reveal(App::prompt_keyed);
    reveal(App::commits);
    reveal(App::renames);
}

/// A buffer of an endpoint that was renamed is of the new file and has the new name, which
/// counts as saved; what was edited in it stays.
pub proof fn law_renamed_buffer_has_the_new_name(
    b: EndpointBuffer,
    after: EndpointBuffer,
    path: String,
    name: Seq<char>,
)
    requires
        App::buffer_renamed(b, after, path, name),
    ensures
        after.endpoint.file == path,
        after.endpoint.endpoint@.name == name,
        after.loaded_snapshot@.name == name,
        after.endpoint.endpoint@.request == b.endpoint.endpoint@.request,
        after.loaded_snapshot@.request == b.loaded_snapshot@.request,
        b.endpoint.endpoint@.name == b.loaded_snapshot@.name ==> after.dirty() == b.dirty(),
{
    let x = after.live();
    let y = b.live();
    assert(x.request == y.request);
}

/// What is told of a relocation says what was moved or copied.
pub proof fn law_relocation_is_told(steps: u64)
    ensures
        App::relocate_notice(true, true, steps) == (Notice::MovedCollection { steps }),
        App::relocate_notice(false, true, steps) == (Notice::MovedEndpoint { steps }),
        App::relocate_notice(true, false, steps) == Notice::CopiedCollection,
        App::relocate_notice(false, false, steps) == Notice::CopiedEndpoint,
{
}

/// A change of the tree that came through is shown as the tree was read again, and told; one
/// that failed is told, and the tree and the buffers stay.
pub proof fn law_tree_is_shown_as_read(
    a: App,
    b: App,
    result: Result<Reload, String>,
    notice: Option<Notice>,
)
    requires
        a.tree_edited(b, result, notice),
    ensures
        result matches Err(err) ==> b.buffers == a.buffers && b.explorer == a.explorer && b.message
            == Some(Notice::CrudError { err }),
        result matches Ok(reload) ==> b.explorer.rows == reload.explorer.rows
            && b.explorer.sequences == reload.explorer.sequences && b.explorer.collection_vars
            == reload.explorer.collection_vars && (notice is Some ==> b.message == notice),
{
    reveal(App::tree_edited);
    reveal(App::reloaded);
}

/// A move to where the row is already changes nothing and says so; a move or a copy that failed
/// changes nothing but what is told.
pub proof fn law_relocation_to_the_same_place_is_nothing(
    a: App,
    b: App,
    collection: bool,
    source: String,
    is_move: bool,
    result: Result<Relocated, String>,
)
    requires
        a.relocated_to(b, collection, source, is_move, result),
    ensures
        result matches Err(err) ==> b.buffers == a.buffers && b.explorer == a.explorer && b.message
            == Some(Notice::CrudError { err }),
        result matches Ok(r) ==> is_move && r.path@ == source@ ==> b.buffers == a.buffers
            && b.explorer == a.explorer && b.message == Some(
            if collection {
                Notice::AlreadyThere
            } else {
                Notice::AlreadyInCollection
            },
        ),
{
    reveal(App::relocated_to);
}

/// An endpoint that was made is opened, and that is told; one that could not be made opens
/// nothing.
pub proof fn law_made_endpoint_is_opened(
    a: App,
    b: App,
    name: String,
    result: Result<(String, Reload), String>,
    fx: Seq<Effect>,
)
    requires
        a.endpoint_made(b, name, result, fx),
    ensures
        result matches Ok((path, reload)) ==> fx == seq![Effect::Tree(TreeWork::OpenFile(path))]
            && b.message == Some(Notice::Created { name }) && b.explorer.rows
            == reload.explorer.rows,
        result matches Err(err) ==> fx.len() == 0 && b.buffers == a.buffers && b.message == Some(
            Notice::CrudError { err },
        ),
{
    reveal(App::endpoint_made);
    if let Ok((path, reload)) = result {
        law_tree_is_shown_as_read(a, b, Ok(reload), Some(Notice::Created { name }));
    }
}

/// What a curl command brought is told, its endpoint is opened, and the values that it held go to
/// the session of the workspace; one that could not be read is given back to be mended.
pub proof fn law_imported_curl_is_opened(
    a: App,
    b: App,
    dir: String,
    curl: Seq<char>,
    result: Result<CurlImport, CurlError>,
    fx: Seq<Effect>,
    name: Seq<char>,
)
    requires
        a.curl_made(b, dir, curl, result, fx),
        a.workspace is Some,
    ensures
        result matches Ok(c) ==> fx == seq![Effect::Tree(TreeWork::OpenFile(c.path))] && (
        c.captured@.dom().contains(name) ==> session_of(
            b.sessions.list@,
            a.workspace->0.key@,
        ).dom().contains(name) && session_of(b.sessions.list@, a.workspace->0.key@)[name]
            == c.captured@[name]),
        result matches Err(e) ==> fx.len() == 0 && b.mode == Mode::Prompt(
            PromptPurpose::NewEndpoint,
        ) && b.prompt_editor@.text == curl && b.pending_create_dir == Some(dir),
        result matches Err(CurlError::Parse(err)) ==> b.message == Some(
            Notice::CurlImportFailed { err },
        ),
        result matches Err(CurlError::Disk(err)) ==> b.message == Some(Notice::CrudError { err }),
{
    reveal(App::curl_made);
    reveal(App::reloaded);
}

/// A new name is prompted for with nothing in the line, and without a place to make it that is
/// said; an import asks for a path, and an export offers one below `exports`.
pub proof fn law_prompts_start_as_they_should(a: App, b: App, c: App, d: App, dialect: JsonDialect)
    requires
        a.prompts_new(b, PromptPurpose::NewEndpoint),
        a.prompts_import(c),
        a.prompts_export_all(d, dialect),
    ensures
        a.workspace is Some ==> b.mode == Mode::Prompt(PromptPurpose::NewEndpoint)
            && b.prompt_editor@.text.len() == 0,
        a.workspace is Some ==> c.mode == Mode::Prompt(PromptPurpose::ImportCollection)
            && c.prompt_editor@.text.len() == 0,
        a.workspace is None ==> c.mode == a.mode && c.message == Some(Notice::NoWorkspaceOpen),
        a.workspace matches Some(ws) ==> d.mode == Mode::Prompt(
            PromptPurpose::ExportWorkspace(dialect),
        ) && d.prompt_editor@.text == "exports/"@ + export_slug(ws.name@) + ".json"@,
{
}

/// An export goes to the path that was typed below the root of the workspace, and is refused
/// where it is empty, leaves the root, or leaves it by a link.
pub proof fn law_export_goes_where_typed(
    a: App,
    b: App,
    dialect: JsonDialect,
    input: Seq<char>,
    on_disk: Option<Seq<char>>,
    fx: Seq<Effect>,
)
    requires
        a.workspace is Some,
        a.exports_to(b, PromptPurpose::ExportWorkspace(dialect), input, on_disk, fx),
    ensures
        ({
            let root = parsed(a.workspace->0.key@);
            let target = export_path(a.workspace->0.key@, input);
            let empty = trimmed(input).len() == 0;
            let linked = on_disk matches Some(p) && !within(parsed(p), root);
            &&& empty ==> fx.len() == 0 && b.message == Some(
                Notice::ExportRefused { why: ExportError::NoPath },
            )
            &&& !empty && !within(target, root) ==> fx.len() == 0 && b.message == Some(
                Notice::ExportRefused { why: ExportError::Escapes },
            )
            &&& !empty && within(target, root) && linked ==> fx.len() == 0 && b.message == Some(
                Notice::ExportRefused { why: ExportError::EscapesByLink },
            )
            &&& !empty && within(target, root) && !linked ==> fx.len() == 1 && (fx[0] matches
                Effect::Disk(DiskWork::Export { purpose, collection, target: t }) && purpose
                == PromptPurpose::ExportWorkspace(dialect) && collection is None && t@ == rendered(
                target,
            ))
        }),
{
    reveal(App::exports_to);
}

/// A rename that came through is told with its new name and shown in the tree; the buffer that
/// was open on the endpoint has the new name and is of the new file.
pub proof fn law_renamed_endpoint_is_shown(
    a: App,
    b: App,
    old_path: String,
    name: String,
    result: Result<Relocated, String>,
    fx: Seq<Effect>,
)
    requires
        a.endpoint_renamed_to(b, old_path, name, result, fx),
    ensures
        result matches Err(err) ==> b.buffers == a.buffers && fx.len() == 0 && b.message == Some(
            Notice::CrudError { err },
        ),
        result matches Ok(r) ==> b.explorer.rows == r.reload.explorer.rows && fx.len() == 1 && (
        r.steps matches Ok(steps) ==> b.message == Some(Notice::Renamed { name, steps })) && (
        r.steps matches Err(err) ==> b.message == Some(Notice::CrudError { err })),
        result matches Ok(r) ==> (forall|i: int|
            0 <= i < a.buffers.list@.len() ==> (#[trigger] a.buffers.list@[i]).endpoint.file@
                != old_path@) ==> fx[0] == Effect::Tree(TreeWork::OpenFile(r.path)),
        result matches Ok(r) ==> (exists|i: int|
            0 <= i < a.buffers.list@.len() && (#[trigger] a.buffers.list@[i]).endpoint.file@
                == old_path@) ==> fx[0] == Effect::Tree(TreeWork::ShowFile(r.path)),
{
    reveal(App::endpoint_renamed_to);
    reveal(App::tree_edited);
    reveal(App::reloaded);
    lemma_buffer_at(a.buffers.list@, old_path@);
    let at = buffer_at(a.buffers.list@, old_path@);
    if at < a.buffers.list@.len() {
        assert(a.buffers.list@[at].endpoint.file@ == old_path@);
    }
}

/// A collection that was renamed is shown in the tree and told; where it failed that is told and
/// nothing else changes.
pub proof fn law_renamed_collection_is_shown(
    a: App,
    b: App,
    dir: String,
    name: String,
    result: Result<Relocated, String>,
)
    requires
        a.collection_renamed_to(b, dir, name, result),
    ensures
        result matches Err(err) ==> b.buffers == a.buffers && b.explorer == a.explorer && b.message
            == Some(Notice::CrudError { err }),
        result matches Ok(r) ==> b.explorer.rows == r.reload.explorer.rows && (
        r.steps matches Ok(steps) ==> b.message == Some(Notice::Renamed { name, steps })),
{
    reveal(App::collection_renamed_to);
    reveal(App::tree_edited);
    reveal(App::reloaded);
}

/// A curl command that was pasted is told with how many warnings it gave, and its endpoint is
/// opened; one that failed is told.
pub proof fn law_pasted_curl_is_opened(
    a: App,
    b: App,
    result: Result<CurlImport, CurlError>,
    fx: Seq<Effect>,
)
    requires
        a.curl_taken(b, result, fx),
    ensures
        result matches Ok(c) ==> fx == seq![Effect::Tree(TreeWork::OpenFile(c.path))] && b.message
            == Some(Notice::PastedCurl { name: c.name, warnings: c.warnings@.len() as u64 }),
        result matches Err(CurlError::Parse(err)) ==> fx.len() == 0 && b.message == Some(
            Notice::CurlImportFailed { err },
        ) && b.buffers == a.buffers,
        result matches Err(CurlError::Disk(err)) ==> fx.len() == 0 && b.message == Some(
            Notice::CrudError { err },
        ) && b.buffers == a.buffers,
{
    reveal(App::curl_taken);
    reveal(App::tree_edited);
    reveal(App::reloaded);
}

/// A sequence that was saved has no unsaved changes, that is told, and its surface closes where
/// that was asked for; one that does not hold, or could not be written, keeps its changes.
pub proof fn law_saved_sequence_is_clean(
    a: App,
    b: App,
    result: Result<Reload, SequenceSaveError>,
    close: bool,
    fx: Seq<Effect>,
)
    requires
        a.sequence_stored(b, result, close, fx),
    ensures
        result is Ok && !close ==> b.message == Some(Notice::SequenceSaved) && (
        a.sequence.editor matches Some(e) ==> (b.sequence.editor matches Some(n) && !n.dirty
            && n.name == e.name && n.path == e.path)) && fx.len() == 0,
        result is Ok && close ==> b.sequence.editor is None && b.mode == Mode::Normal,
        result matches Err(SequenceSaveError::Invalid(text)) ==> b.sequence == a.sequence
            && b.message == Some(Notice::Text { text }) && fx.len() == 0,
        result matches Err(SequenceSaveError::Failed(err)) ==> b.sequence == a.sequence && b.message
            == Some(Notice::CrudError { err }) && fx.len() == 0,
{
    reveal(App::sequence_stored);
    reveal(App::reloaded);
}

/// A sequence that was made is put into the editor.
pub proof fn law_made_sequence_is_edited(
    a: App,
    b: App,
    name: String,
    path: String,
    reload: Reload,
    fx: Seq<Effect>,
)
    requires
        a.sequence_made(b, Ok((name, path, reload)), fx),
    ensures
        b.mode == Mode::Sequence,
        b.sequence.editor matches Some(e) && e.name == name && e.path == path && !e.dirty,
        b.explorer.sequences == reload.explorer.sequences,
{
    reveal(App::sequence_made);
    reveal(App::reloaded);
}

/// A row at the end of its siblings that cannot go further says so.
pub proof fn law_reorder_is_told()
    ensures
        reorder_notice(ReorderOutcome::Moved) is None,
        reorder_notice(ReorderOutcome::AlreadyFirst) == Some(Notice::AlreadyFirst),
        reorder_notice(ReorderOutcome::AlreadyLast) == Some(Notice::AlreadyLast),
{
}

/// The nearest path above a target that is on the disk is where it leads.
pub proof fn law_nearest_path_on_disk_leads(probes: Seq<Option<String>>, p: Seq<char>, i: int)
    requires
        App::leads_to(probes, Some(p)),
        0 <= i < probes.len(),
        probes[i] is Some,
        forall|j: int| 0 <= j < i ==> (#[trigger] probes[j]) is None,
    ensures
        probes[i]->0@ == p,
{
    let k = choose|k: int|
        0 <= k < probes.len() && (#[trigger] probes[k] matches Some(t) && t@ == p) && forall|j: int|
            0 <= j < k ==> (#[trigger] probes[j]) is None;
    if k < i {
        assert(probes[k] is None);
    }
    if i < k {
        assert(probes[i] is None);
    }
}

/// What a prompt was opened for is what its text is used for.
pub proof fn law_prompt_is_for_its_purpose(
    a: App,
    b: App,
    purpose: PromptPurpose,
    text: String,
    fx: Seq<Effect>,
)
    requires
        a.commits(b, purpose, text, fx),
    ensures
        purpose is NewEndpoint ==> a.creates_endpoint(b, text, fx),
        purpose is NewCollection ==> a.creates_collection(b, text, fx),
        purpose is Rename ==> a.renames(text, fx) && b == a,
        purpose is DeleteCollectionConfirm ==> a.deletes_collection(b, text@, fx),
        purpose is ImportCollection ==> a.imports(b, text@, fx),
        purpose is ExportCollection || purpose is ExportWorkspace ==> a.exports(
            b,
            purpose,
            text,
            fx,
        ),
        purpose is PasteCurl ==> a.pastes(b, text, fx),
        purpose is NewSequence ==> a.creates_sequence(b, text, fx),
        purpose is NewSequence && a.workspace is Some ==> fx == seq![
            Effect::Disk(DiskWork::CreateSequence { root: a.workspace->0.root, name: text }),
        ],
        purpose is SaveResponseBody ==> a.saves_body(b, crate::app::Surface::Main, text, fx),
{
    reveal(App::commits);
}

} // verus!
