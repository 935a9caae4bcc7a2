//! The state of the application.

use std::collections::VecDeque;

use vstd::prelude::*;

use crate::buffer::{Buffers, EndpointBuffer, SelectedEndpoint};
use crate::editor::EditorMode;
use crate::explorer::Explorer;
use crate::help::Help;
use crate::jump::Jump;
use crate::keymap::KeyMap;
use crate::keys::KeyEvent;
use crate::line_editor::{LineEditor, LineView};
use crate::load::{LoadConfig, LoadSummary, LoadSurface};
use crate::meta::ResponseMeta;
use crate::mode::{LeaderState, Mode, PromptPurpose, UrlEditMode};
use crate::model::{Endpoint, Request};
use crate::notice::Notice;
use crate::pane::{Pane, Panes};
use crate::picker::{DestPurpose, Picker};
use crate::request_pane::RequestTab;
use crate::response::{ResponseState, ViewerAsk};
use crate::sequence::{SequenceSurface, Step};
use crate::settings::{CookieKey, LoadCaps, Settings};
use crate::vars::{Resolver, Sessions, Vars};
use crate::workspace::{check_profile, has_profile, quoted_text, unknown_profile, Workspace};

verus! {

/// An endpoint or a workspace that waits to be loaded.
#[derive(Debug)]
pub enum PendingLoad {
    /// The endpoint of a row of the tree.
    Row(usize),
    /// The endpoint in a file.
    File(String),
    /// The workspace at a root.
    Workspace(String),
}

/// A buffer, or all of them, that wait to be closed. Buffers are named by their
/// files, which closing another does not change.
#[derive(Debug)]
pub enum PendingClose {
    /// One buffer.
    One(String),
    /// The buffers with unsaved changes, one question at a time.
    All(VecDeque<String>),
}

/// A text that is to be copied, and what is said once it was.
#[derive(Debug)]
pub struct PendingCopy {
    /// The text, as much of it as is copied.
    pub payload: String,
    /// What is said.
    pub notice: Notice,
}

/// A part of the screen that has its own state and takes keys.
#[derive(Debug, Clone, Copy, PartialEq, Eq, Structural)]
pub enum Component {
    /// The environments editor.
    EnvEditor,
    /// The editor of a sequence.
    SequenceEditor,
    /// The list of a sequence run.
    SequenceRunner,
    /// The load runner's form and list.
    LoadRunner,
    /// The session options.
    Options,
    /// The settings panel.
    Settings,
    /// The inspector.
    Inspector,
    /// The file picker.
    FilePicker,
}

/// Where a response is shown.
#[derive(Debug, Clone, Copy, PartialEq, Eq, Structural)]
pub enum Surface {
    /// The response pane.
    Main,
    /// The step of a sequence run that is shown.
    Step,
    /// The copy of a load run that is shown.
    Copy,
    /// The body of the open endpoint's request, where it is browsed.
    Body,
}

/// What a request is filled in for.
#[derive(Debug)]
pub enum ResolveFor {
    /// To be sent.
    Send,
    /// To be sent many times.
    Load {
        /// The name of the endpoint.
        name: String,
        /// The endpoint's file, relative to the workspace.
        endpoint_path: Option<String>,
    },
}

/// The variables of a sequence run; each step adds those of its collection.
#[derive(Debug)]
pub struct RunScopes {
    /// What was captured in this session.
    pub session: Vars,
    /// What the command line gives.
    pub cli: Vars,
    /// The active profile's.
    pub profile: Vars,
    /// The workspace's.
    pub workspace: Vars,
}

/// Which way an item moves among its neighbours.
#[derive(Debug, Clone, Copy, PartialEq, Eq, Structural)]
pub enum ReorderDir {
    /// Towards the first.
    Up,
    /// Towards the last.
    Down,
}

/// What is to be done to the tree.
#[derive(Debug)]
pub enum TreeWork {
    /// The collection under the cursor is to be folded.
    Collapse,
    /// The collection under the cursor is to be unfolded.
    Expand,
    /// The collection of a row is to be folded or unfolded.
    Toggle(usize),
    /// The cursor is to be put on the endpoint of a file, which is to be opened.
    OpenFile(String),
    /// The cursor is to be put on the endpoint of a file.
    ShowFile(String),
    /// All endpoints are to be listed for the search.
    ListEndpoints,
}

/// What is to be done on disk.
#[allow(inconsistent_fields)]
#[derive(Debug)]
pub enum DiskWork {
    /// An endpoint is to be written to its file.
    SaveEndpoint {
        /// The file.
        path: String,
        /// The endpoint.
        endpoint: Endpoint,
    },
    /// An endpoint is to be created.
    CreateEndpoint {
        /// In this directory.
        dir: String,
        /// With this name.
        name: String,
    },
    /// An endpoint is to be created from a curl command.
    ImportCurl {
        /// In this directory.
        dir: String,
        /// The command.
        curl: String,
    },
    /// An endpoint is to be created from a curl command that was pasted.
    PasteCurl {
        /// In this directory.
        dir: String,
        /// The command.
        curl: String,
    },
    /// A collection is to be created.
    CreateCollection {
        /// In this directory.
        parent: String,
        /// With this name.
        name: String,
        /// In the workspace with this root.
        root: String,
    },
    /// A sequence is to be created.
    CreateSequence {
        /// In the workspace with this root.
        root: String,
        /// With this name.
        name: String,
    },
    /// An endpoint is to be renamed.
    RenameEndpoint {
        /// Its file.
        path: String,
        /// The new name.
        name: String,
    },
    /// A collection is to be renamed.
    RenameCollection {
        /// Its directory.
        dir: String,
        /// The new name.
        name: String,
        /// In the workspace with this root.
        root: String,
    },
    /// An endpoint is to be deleted.
    DeleteEndpoint(String),
    /// A collection is to be deleted.
    DeleteCollection {
        /// Its directory.
        dir: String,
        /// Its name.
        name: String,
    },
    /// A sequence is to be deleted.
    DeleteSequence(String),
    /// A JSON file is to be imported.
    ImportCollection {
        /// Into the workspace with this root.
        root: String,
        /// The file.
        path: String,
    },
    /// Before an export it is to be found out where paths lead on disk: each is to
    /// be freed of symbolic links, where it exists.
    ProbeExport {
        /// What is exported.
        purpose: PromptPurpose,
        /// The destination as it was typed.
        input: String,
        /// The destination and the directories above it, deepest first.
        paths: Vec<String>,
    },
    /// A collection or the workspace is to be exported.
    Export {
        /// Which.
        purpose: PromptPurpose,
        /// The directory of the collection.
        collection: Option<String>,
        /// The file.
        target: String,
    },
    /// An endpoint is to be moved or copied.
    RelocateEndpoint {
        /// Its file.
        source: String,
        /// Into this directory.
        dest: String,
        /// Whether it moves.
        is_move: bool,
    },
    /// A collection is to be moved or copied.
    RelocateCollection {
        /// Its directory.
        source: String,
        /// Into this directory.
        dest: String,
        /// Whether it moves.
        is_move: bool,
        /// In the workspace with this root.
        root: String,
    },
    /// A sequence is to be duplicated.
    DuplicateSequence(String),
    /// An endpoint is to be duplicated.
    DuplicateEndpoint(String),
    /// A collection is to be duplicated.
    DuplicateCollection {
        /// Its directory.
        dir: String,
        /// In the workspace with this root.
        root: String,
    },
    /// A sequence is to be moved among the others.
    ReorderSequence {
        /// The directory of the sequences.
        dir: String,
        /// Its file.
        file: String,
        /// Which way.
        to: ReorderDir,
    },
    /// An endpoint is to be moved among the others of its collection.
    ReorderEndpoint {
        /// The directory of the collection.
        dir: String,
        /// Its file.
        file: String,
        /// Which way.
        to: ReorderDir,
    },
    /// A collection is to be moved among its neighbours.
    ReorderCollection {
        /// Its directory.
        dir: String,
        /// In the workspace with this root.
        root: String,
        /// Which way.
        to: ReorderDir,
    },
    /// A sequence is to be loaded and run.
    LoadSequenceToRun(String),
    /// A sequence is to be loaded and edited.
    LoadSequenceToEdit(String),
    /// A sequence is to be loaded for the editor of the surface that runs it.
    LoadSequenceForFlip(String),
    /// The sequence in the editor is to be checked and written to its file.
    SaveSequence {
        /// The file.
        path: String,
        /// Whether the surface closes once it was.
        close: bool,
    },
    /// A workspace is to be opened.
    OpenWorkspace(String),
    /// The collections are to be listed, to pick a directory from.
    ListCollections {
        /// What a directory is picked for.
        dest: DestPurpose,
        /// What moves or is copied.
        moved: Option<String>,
    },
    /// The workspaces that were opened last are to be listed.
    RecentWorkspaces,
    /// The environments are to be written.
    SaveEnvironments {
        /// Into the workspace with this root.
        root: String,
        /// The name of the workspace.
        name: String,
        /// Whether the editor closes once they were.
        close: bool,
    },
    /// An endpoint whose check of certificates was switched is to be written to its
    /// file.
    SaveInsecure {
        /// The file.
        path: String,
        /// The endpoint.
        endpoint: Endpoint,
    },
    /// Bytes are to be written to a file that the user named.
    SaveBody {
        /// The file as it was typed.
        input: String,
        /// The bytes.
        bytes: Vec<u8>,
        /// Whether the body was cut.
        truncated: bool,
    },
}

/// What waits for endpoints to be saved.
#[derive(Debug, Clone, Copy, PartialEq, Eq, Structural)]
pub enum Resume {
    /// A load.
    Load,
    /// A close.
    Close,
}

/// Why an endpoint was not saved.
#[derive(Debug)]
pub enum SaveError {
    /// It holds secrets; these are the fields.
    Secrets(Vec<String>),
    /// Another reason.
    Other(String),
}

/// What is done in the file picker.
#[derive(Debug, Clone, Copy, PartialEq, Eq, Structural)]
pub enum FilePickerOp {
    /// The pick moves up.
    Up,
    /// The pick moves down.
    Down,
    /// The directory above is shown.
    Parent,
    /// A directory is entered, a file is taken.
    Accept,
}

/// What the application asks of the world.
#[derive(Debug)]
pub enum Effect {
    /// The variables of a request are to be filled in.
    Resolve {
        /// The request.
        request: Request,
        /// Where the variables are looked up.
        resolver: Resolver,
        /// What it is for.
        purpose: ResolveFor,
    },
    /// An endpoint is to be written as a curl command and copied; with a resolver
    /// its variables are filled in first.
    ExportCurl {
        /// The endpoint.
        endpoint: Endpoint,
        /// Where the variables are looked up, where they are filled in.
        fill_from: Option<Resolver>,
    },
    /// A request is to be sent.
    Send {
        /// The number of the send.
        generation: u64,
        /// The request, filled in.
        request: Request,
        /// What is shown and recorded of it.
        meta: ResponseMeta,
    },
    /// A send is to be aborted.
    Abort(u64),
    /// An exchange is to be recorded.
    WriteHistory {
        /// What is recorded of it.
        meta: ResponseMeta,
        /// The status code, where a response came.
        status: Option<u16>,
        /// How long it took in milliseconds, where a response came.
        duration_ms: Option<u64>,
    },
    /// A step of a sequence is to be made ready.
    PrepareStep {
        /// The number of the run.
        run_generation: u64,
        /// The number of the step.
        index: usize,
        /// The root of the workspace.
        root: String,
        /// The step.
        step: Step,
        /// What was captured in this run.
        extracted: Vars,
        /// The other variables.
        scopes: RunScopes,
    },
    /// A step that is ready is to be sent.
    SendStep {
        /// The number of the run.
        run_generation: u64,
        /// The number of the step.
        index: usize,
    },
    /// The step in flight is to be aborted.
    AbortStep,
    /// The limits are to be asked about a load run.
    CheckLoad(LoadConfig),
    /// The copies of a load run are to be sent.
    LaunchLoad {
        /// The number of the run.
        run_generation: u64,
        /// The request, filled in.
        request: Request,
        /// How the run is made.
        cfg: LoadConfig,
    },
    /// The copies in flight are to be aborted.
    AbortLoad,
    /// A load run is to be recorded.
    WriteLoadSummary(LoadSummary),
    /// A key is for a part of the screen with its own state.
    ComponentKey(Component, KeyEvent),
    /// A part of the screen with its own state is to open.
    OpenComponent(Component),
    /// A part of the screen with its own state is to show the state anew.
    RefreshComponent(Component),
    /// A value of the environments editor is to be shown with its variables filled
    /// in.
    Reveal {
        /// The value.
        raw: String,
        /// Where the variables are looked up.
        lookup: Resolver,
    },
    /// A sequence is to be put into its editor; these are the endpoints that a
    /// step can be of.
    EditSequence {
        /// The file.
        path: String,
        /// The endpoints' files, relative to the workspace.
        endpoints: Vec<String>,
    },
    /// The file picker is to open.
    OpenFilePicker {
        /// The root of the workspace.
        root: String,
        /// The directory that it starts in.
        start_dir: String,
        /// The part of the body that a file is picked for.
        part: usize,
    },
    /// Something is to be done in the file picker.
    FilePicker(FilePickerOp),
    /// The list to pick from is to be narrowed by what was typed.
    FilterPicker,
    /// The load runner is to open, once the endpoint that was picked is open.
    ThenLoadRunner,
    /// The lines of the help that match what was typed are to be found.
    SearchHelp,
    /// The matches of a text in a response are to be counted.
    SearchResponse {
        /// Where it is shown.
        surface: Surface,
        /// The text.
        query: String,
    },
    /// Something is to be done with the text of a response.
    Viewer(Surface, ViewerAsk),
    /// The text of a response is to be copied.
    CopyText {
        /// The text.
        text: String,
        /// Whether it was cut.
        truncated: bool,
    },
    /// What is known of a request that failed is to be copied.
    CopyFailure {
        /// Why it failed.
        error: String,
        /// What was asked.
        meta: ResponseMeta,
    },
    /// There is nothing to copy, which is to be said.
    NothingToCopy(Surface),
    /// The line or the region under the cursor of a response is to be copied.
    CopyLine(Surface, usize),
    /// There is nothing to save, which is to be said.
    NothingToSave(Surface),
    /// The body of a response is to be saved; the name of the open endpoint is to be
    /// made into the name of a file.
    NameBody {
        /// Where it is shown.
        shown: Surface,
        /// The name of the open endpoint.
        of: Option<String>,
    },
    /// Something is to be done to the tree.
    Tree(TreeWork),
    /// Something is to be done on disk.
    Disk(DiskWork),
    /// What was asked for before this is done: what waited for it goes on.
    ThenResume(Resume),
    /// The cookies are to be written to disk.
    PersistCookies,
    /// A cookie is to be dropped.
    DropCookie(CookieKey),
    /// The highlighter is to start anew.
    RespawnHighlighter,
    /// The client is to be built with the check of certificates switched.
    RebuildForInsecure,
    /// A workspace was opened: it is to be remembered.
    TouchWorkspace(String),
}

/// What the configuration says of sends.
#[derive(Debug, Clone, Copy, PartialEq, Eq, Structural)]
pub struct Runtime {
    /// The timeout in seconds.
    pub timeout_secs: u64,
    /// The size limit of bodies.
    pub max_body_bytes: u64,
    /// The limits of load runs.
    pub load_caps: LoadCaps,
}

/// Whether the record of exchanges could be opened.
#[derive(Debug)]
pub enum HistoryOpen {
    /// It is open.
    Opened,
    /// It could not be opened; this is why.
    Failed(String),
    /// There is no directory for it.
    NoDirectory,
}

/// The application.
pub struct App {
    /// The workspace, if one is open.
    pub workspace: Option<Workspace>,
    /// The left column.
    pub explorer: Explorer,
    /// The open endpoints.
    pub buffers: Buffers,
    /// The panes: which has the focus, and how they share the screen.
    pub panes: Panes,
    /// The input mode.
    pub mode: Mode,
    /// The list to pick from, while one is open.
    pub picker: Option<Picker>,
    /// Whether the endpoint that is picked is to be load-tested.
    pub load_runner_after_pick: bool,
    /// The jump labels, while they are shown.
    pub jump: Option<Jump>,
    /// What the keys do.
    pub keymap: KeyMap,
    /// The variables that the command line gives.
    pub cli_vars: Vars,
    /// The name of the active profile.
    pub active_profile: Option<String>,
    /// What was captured in each workspace.
    pub sessions: Sessions,
    /// Whether the application is to end.
    pub should_quit: bool,
    /// Whether requests can be sent.
    pub has_client: bool,
    /// Whether exchanges are recorded.
    pub has_history: bool,
    /// The number of sends so far.
    pub generation: u64,
    /// The response that is shown while nothing is open.
    pub orphan_response: ResponseState,
    /// A text that is to be copied.
    pub pending_clipboard: Option<PendingCopy>,
    /// The input of the search in a response.
    pub body_search_editor: LineEditor,
    /// The mode to go back to from the search in a response.
    pub body_search_return: Mode,
    /// Whether the search is in the body of the request.
    pub body_searched: bool,
    /// The mode to go back to from the inspector.
    pub inspector_return: Mode,
    /// What the message row says.
    pub message: Option<Notice>,
    /// The number of ticks so far.
    pub tick_count: u64,
    /// The input of the prompt.
    pub prompt_editor: LineEditor,
    /// The directory that was picked for what is to be created.
    pub pending_create_dir: Option<String>,
    /// What waits for an answer before it is loaded.
    pub pending_load: Option<PendingLoad>,
    /// What waits for an answer before it is closed.
    pub pending_close: Option<PendingClose>,
    /// The chord that is under way.
    pub leader: Option<LeaderState>,
    /// The help.
    pub help: Help,
    /// Whether the environments editor is open.
    pub env_editor: bool,
    /// The part of the body that a file is picked for.
    pub file_part: usize,
    /// The sequence surface.
    pub sequence: SequenceSurface,
    /// The load surface.
    pub load: LoadSurface,
    /// The settings.
    pub settings: Settings,
}

impl App {
    /// Every part of the state is well formed.
    pub open spec fn wf(&self) -> bool {
        &&& (self.workspace matches Some(ws) ==> ws.wf())
        &&& self.explorer.wf()
        &&& self.buffers.wf()
        &&& self.cli_vars.wf()
        &&& self.sessions.wf()
        &&& self.body_search_editor.wf()
        &&& self.prompt_editor.wf()
        &&& self.help.wf()
        &&& self.sequence.wf()
        &&& self.load.wf()
    }

    /// The state in which the application starts.
    pub open spec fn started(
        self,
        workspace: Option<Workspace>,
        explorer: Explorer,
        keymap: KeyMap,
        settings: Settings,
    ) -> bool {
        &&& self.workspace == workspace
        &&& self.explorer == explorer
        &&& self.keymap == keymap
        &&& self.settings == settings
        &&& self.buffers.list@.len() == 0
        &&& self.buffers.active == 0
        &&& self.panes == Panes::spec_new()
        &&& self.mode == Mode::Normal
        &&& self.picker is None
        &&& !self.load_runner_after_pick
        &&& self.jump is None
        &&& self.sessions.list@.len() == 0
        &&& !self.should_quit
        &&& !self.has_client
        &&& !self.has_history
        &&& self.generation == 0
        &&& self.orphan_response == ResponseState::Idle
        &&& self.pending_clipboard is None
        &&& self.body_search_return == Mode::Normal
        &&& !self.body_searched
        &&& self.inspector_return == Mode::Normal
        &&& self.message is None
        &&& self.tick_count == 0
        &&& self.pending_create_dir is None
        &&& self.pending_load is None
        &&& self.pending_close is None
        &&& self.leader is None
        &&& !self.help.open
        &&& self.help.scroll == 0
        &&& !self.env_editor
        &&& self.sequence == SequenceSurface::closed()
        &&& self.load == LoadSurface::closed()
    }

    /// The application over a workspace that may be open and the tree of it,
    /// without variables from the command line and without a profile.
    pub fn new(
        workspace: Option<Workspace>,
        explorer: Explorer,
        keymap: KeyMap,
        settings: Settings,
    ) -> (r: App)
        requires
            workspace matches Some(ws) ==> ws.wf(),
            explorer.wf(),
        ensures
            r.started(workspace, explorer, keymap, settings),
            r.cli_vars@ == Map::<Seq<char>, Seq<char>>::empty(),
            r.active_profile is None,
            r.wf(),
    {
        App {
            workspace,
            explorer,
            buffers: Buffers::new(),
            panes: Panes::new(),
            mode: Mode::Normal,
            picker: None,
            load_runner_after_pick: false,
            jump: None,
            keymap,
            cli_vars: Vars::new(),
            active_profile: None,
            sessions: Sessions::new(),
            should_quit: false,
            has_client: false,
            has_history: false,
            generation: 0,
            orphan_response: ResponseState::Idle,
            pending_clipboard: None,
            body_search_editor: LineEditor::new(""),
            body_search_return: Mode::Normal,
            body_searched: false,
            inspector_return: Mode::Normal,
            message: None,
            tick_count: 0,
            prompt_editor: LineEditor::new(""),
            pending_create_dir: None,
            pending_load: None,
            pending_close: None,
            leader: None,
            help: Help::new(),
            env_editor: false,
            file_part: 0,
            sequence: SequenceSurface::new(),
            load: LoadSurface::new(),
            settings,
        }
    }

    /// The application with the variables of the command line and a profile. A
    /// profile that the workspace does not have is an error that lists those that
    /// it has.
    pub fn with_config(
        workspace: Option<Workspace>,
        explorer: Explorer,
        keymap: KeyMap,
        settings: Settings,
        cli_vars: Vars,
        profile: Option<String>,
    ) -> (r: Result<App, String>)
        requires
            workspace matches Some(ws) ==> ws.wf(),
            explorer.wf(),
            cli_vars.wf(),
        ensures
            match r {
                Ok(app) => {
                    &&& (profile matches Some(name) ==> has_profile(workspace, name@))
                    &&& app.started(workspace, explorer, keymap, settings)
                    &&& app.cli_vars == cli_vars
                    &&& app.active_profile == profile
                    &&& app.wf()
                },
                Err(msg) => profile matches Some(name) && !has_profile(workspace, name@) && msg@
                    == unknown_profile(
                    quoted_text(name@),
                    crate::workspace::available(workspace),
                ),
            },
    {
        match check_profile(&workspace, &profile) {
            Ok(_) => {},
            Err(msg) => {
                return Err(msg);
            },
        }
        let mut app = App::new(workspace, explorer, keymap, settings);
        app.cli_vars = cli_vars;
        app.active_profile = profile;
        Ok(app)
    }

    /// The state once requests can be sent and exchanges are recorded, where the record
    /// could be opened; where it could not, that is said.
    pub open spec fn installed(self, runtime: Runtime, history: HistoryOpen) -> App {
        App {
            has_client: true,
            has_history: history is Opened || self.has_history,
            settings: Settings {
                client_timeout_secs: runtime.timeout_secs,
                max_body_bytes: runtime.max_body_bytes,
                load_caps: runtime.load_caps,
                ..self.settings
            },
            message: match history {
                HistoryOpen::Opened => self.message,
                HistoryOpen::Failed(err) => Some(Notice::HistoryDisabled { err }),
                HistoryOpen::NoDirectory => Some(Notice::HistoryDisabledNoDir),
            },
            ..self
        }
    }

    /// The open workspace is to be remembered, where exchanges are recorded.
    pub open spec fn remembers(self) -> Seq<Effect> {
        match self.workspace {
            Some(ws) if self.has_history => seq![Effect::TouchWorkspace(ws.key)],
            _ => Seq::empty(),
        }
    }

    fn remember(&self) -> (fx: Vec<Effect>)
        ensures
            fx@ == self.remembers(),
    {
        let mut fx: Vec<Effect> = Vec::new();
        if let Some(ws) = &self.workspace {
            if self.has_history {
                fx.push(Effect::TouchWorkspace(ws.key.clone()));
            }
        }
        assert(fx@ =~= self.remembers());
        fx
    }

    fn take_history(&mut self, history: HistoryOpen)
        requires
            old(self).wf(),
        ensures
            *final(self) == (App {
                has_history: history is Opened || old(self).has_history,
                message: final(self).message,
                ..*old(self)
            }),
            final(self).message == (match history {
                HistoryOpen::Opened => old(self).message,
                HistoryOpen::Failed(err) => Some(Notice::HistoryDisabled { err }),
                HistoryOpen::NoDirectory => Some(Notice::HistoryDisabledNoDir),
            }),
            final(self).wf(),
    {
        match history {
            HistoryOpen::Opened => {
                self.has_history = true;
            },
            HistoryOpen::Failed(err) => {
                self.message = Some(Notice::HistoryDisabled { err });
            },
            HistoryOpen::NoDirectory => {
                self.message = Some(Notice::HistoryDisabledNoDir);
            },
        }
    }

    /// Takes in the client and the record of exchanges. Where they are recorded, the
    /// workspace that is open is to be remembered.
    pub fn install_runtime(&mut self, runtime: Runtime, history: HistoryOpen) -> (fx: Vec<Effect>)
        requires
            old(self).wf(),
        ensures
            *final(self) == old(self).installed(runtime, history),
            fx@ == old(self).installed(runtime, history).remembers(),
            final(self).wf(),
    {
        self.has_client = true;
        self.settings.client_timeout_secs = runtime.timeout_secs;
        self.settings.max_body_bytes = runtime.max_body_bytes;
        self.settings.load_caps = runtime.load_caps;
        self.take_history(history);
        self.remember()
    }

    /// The state with a message.
    pub open spec fn told(self, n: Notice) -> App {
        App { message: Some(n), ..self }
    }

    /// The state with a message where there is one to give.
    pub open spec fn told_if(self, n: Option<Notice>) -> App {
        App {
            message: if n is Some {
                n
            } else {
                self.message
            },
            ..self
        }
    }

    /// Sets the message, in place of any that is shown.
    pub fn notify(&mut self, n: Notice)
        ensures
            *final(self) == old(self).told(n),
    {
        self.message = Some(n);
    }

    /// Sets the message where there is one to give.
    pub fn notify_if(&mut self, n: Option<Notice>)
        ensures
            *final(self) == old(self).told_if(n),
    {
        if let Some(n) = n {
            self.message = Some(n);
        }
    }

    /// The state in another mode.
    pub open spec fn in_mode(self, mode: Mode) -> App {
        App { mode, ..self }
    }

    /// The text of the message.
    pub fn message_text(&self) -> (r: Option<String>)
        ensures
            match r {
                Some(t) => self.message matches Some(n) && t@ == n.spec_text(),
                None => self.message is None,
            },
    {
        match &self.message {
            Some(n) => Some(n.text()),
            None => None,
        }
    }

    /// The endpoint that is open, with its edits.
    pub fn selected(&self) -> (r: Option<&SelectedEndpoint>)
        ensures
            match r {
                Some(s) => self.buffers.loaded() && *s == self.buffers.current().endpoint,
                None => !self.buffers.loaded(),
            },
    {
        if self.buffers.active < self.buffers.list.len() {
            Some(&self.buffers.list[self.buffers.active].endpoint)
        } else {
            None
        }
    }

    /// The endpoint that is open, to be changed. Nothing else can be changed
    /// through it.
    pub fn selected_mut(&mut self) -> (r: Option<&mut SelectedEndpoint>)
        ensures
            r is Some == old(self).buffers.loaded(),
            r is None ==> *final(self) == *old(self),
            r matches Some(s) ==> {
                &&& *s == old(self).buffers.current().endpoint
                &&& final(self).buffers.list@ == old(self).buffers.list@.update(
                    old(self).buffers.active as int,
                    EndpointBuffer { endpoint: *final(s), ..old(self).buffers.current() },
                )
                &&& *final(self) == (App {
                    buffers: Buffers {
                        list: final(self).buffers.list,
                        active: old(self).buffers.active,
                    },
                    ..*old(self)
                })
            },
    {
        let i = self.buffers.active;
        if i < self.buffers.list.len() {
            Some(&mut self.buffers.list[i].endpoint)
        } else {
            None
        }
    }

    /// The response that is shown in the response pane.
    pub open spec fn spec_response(&self) -> ResponseState {
        if self.buffers.loaded() {
            self.buffers.current().response
        } else {
            self.orphan_response
        }
    }

    /// The response that is shown in the response pane: the open endpoint's, or
    /// the one that is kept for no endpoint.
    pub fn response(&self) -> (r: &ResponseState)
        ensures
            *r == self.spec_response(),
    {
        if self.buffers.active < self.buffers.list.len() {
            &self.buffers.list[self.buffers.active].response
        } else {
            &self.orphan_response
        }
    }

    /// The state with another response in the response pane.
    pub open spec fn responded(self, after: App, response: ResponseState) -> bool {
        if self.buffers.loaded() {
            &&& after.buffers.list@ == self.buffers.list@.update(
                self.buffers.active as int,
                EndpointBuffer { response, ..self.buffers.current() },
            )
            &&& after == (App {
                buffers: Buffers { list: after.buffers.list, active: self.buffers.active },
                ..self
            })
        } else {
            after == (App { orphan_response: response, ..self })
        }
    }

    /// Puts a response into the response pane.
    pub fn set_response(&mut self, response: ResponseState)
        ensures
            old(self).responded(*final(self), response),
            old(self).wf() ==> final(self).wf(),
    {
        let i = self.buffers.active;
        if i < self.buffers.list.len() {
            self.buffers.list[i].response = response;
        } else {
            self.orphan_response = response;
        }
    }

    /// The response in the response pane, to be changed.
    pub fn response_mut(&mut self) -> (r: &mut ResponseState)
        ensures
            *r == old(self).spec_response(),
            old(self).responded(*final(self), *final(r)),
    {
        let i = self.buffers.active;
        if i < self.buffers.list.len() {
            &mut self.buffers.list[i].response
        } else {
            &mut self.orphan_response
        }
    }

    /// The text of what is said once a waiting copy was made.
    pub fn pending_copy_message(&self) -> (r: Option<String>)
        ensures
            match r {
                Some(t) => self.pending_clipboard matches Some(p) && t@ == p.notice.spec_text(),
                None => self.pending_clipboard is None,
            },
    {
        match &self.pending_clipboard {
            Some(p) => Some(p.notice.text()),
            None => None,
        }
    }

    /// Sets how the URL is edited.
    pub fn set_url_edit_mode(&mut self, mode: UrlEditMode)
        ensures
            *final(self) == (App {
                settings: Settings { url_edit: mode, ..old(self).settings },
                ..*old(self)
            }),
    {
        self.settings.url_edit = mode;
    }

    /// The request of the open endpoint, with its edits.
    pub fn live_request(&self) -> (r: Option<&Request>)
        ensures
            match r {
                Some(q) => self.buffers.loaded() && *q
                    == self.buffers.current().endpoint.endpoint.request,
                None => !self.buffers.loaded(),
            },
    {
        match self.selected() {
            Some(s) => Some(&s.endpoint.request),
            None => None,
        }
    }

    /// The tab of the request pane that is shown; without an open endpoint the
    /// first.
    pub open spec fn spec_tab(&self) -> RequestTab {
        if self.buffers.loaded() {
            self.buffers.current().tabs.active
        } else {
            RequestTab::Params
        }
    }

    /// The tab of the request pane that is shown.
    pub fn active_tab(&self) -> (r: RequestTab)
        ensures
            r == self.spec_tab(),
    {
        if self.buffers.active < self.buffers.list.len() {
            self.buffers.list[self.buffers.active].tabs.active
        } else {
            RequestTab::Params
        }
    }

    /// Whether the editor of the body takes keys as text.
    pub open spec fn spec_body_typing(&self) -> bool {
        self.buffers.loaded() && self.buffers.current().editor.spec_mode() != EditorMode::Normal
    }

    /// Whether the editor of the body is in another mode than its normal one.
    pub fn body_editor_non_normal(&self) -> (r: bool)
        ensures
            r == self.spec_body_typing(),
    {
        self.buffers.active < self.buffers.list.len()
            && self.buffers.list[self.buffers.active].editor.mode() != EditorMode::Normal
    }

    /// Whether a field of a row is edited.
    pub open spec fn spec_row_editing(&self) -> bool {
        self.buffers.loaded() && self.buffers.current().tabs.editing is Some
    }

    /// Whether a field of a row is edited.
    pub fn tabs_editing_active(&self) -> (r: bool)
        ensures
            r == self.spec_row_editing(),
    {
        self.buffers.active < self.buffers.list.len()
            && self.buffers.list[self.buffers.active].tabs.editing.is_some()
    }

    /// Whether the URL is edited in the bar.
    pub open spec fn spec_url_editing(&self) -> bool {
        self.buffers.loaded() && self.buffers.current().url_editor is Some
    }

    /// Whether the URL is edited in the bar.
    pub fn url_editor_active(&self) -> (r: bool)
        ensures
            r == self.spec_url_editing(),
    {
        self.buffers.active < self.buffers.list.len()
            && self.buffers.list[self.buffers.active].url_editor.is_some()
    }

    /// Whether the URL is edited in the popup.
    pub open spec fn spec_popup(&self) -> bool {
        self.buffers.loaded() && self.buffers.current().url_popup is Some
    }

    /// Whether the URL is edited in the popup.
    pub fn url_popup_active(&self) -> (r: bool)
        ensures
            r == self.spec_popup(),
    {
        self.buffers.active < self.buffers.list.len()
            && self.buffers.list[self.buffers.active].url_popup.is_some()
    }

    /// The state with another buffer in place of the open one.
    pub open spec fn buffer_changed(self, after: App, b: EndpointBuffer) -> bool {
        &&& after.buffers.list@ == self.buffers.list@.update(self.buffers.active as int, b)
        &&& after == (App {
            buffers: Buffers { list: after.buffers.list, active: self.buffers.active },
            ..self
        })
    }

    /// The state with the focus on a pane.
    pub open spec fn focused(self, pane: Pane) -> App {
        App { panes: self.panes.focused(pane, self.explorer.sequences@.len()), ..self }
    }

    /// Moves the focus to a pane.
    pub fn set_focus(&mut self, pane: Pane)
        ensures
            *final(self) == old(self).focused(pane),
    {
        let n = self.explorer.sequences.len();
        self.panes.set_focus(pane, n);
    }

    /// The state with a prompt open.
    pub open spec fn prompted(self, after: App, purpose: PromptPurpose, seed: Seq<char>) -> bool {
        &&& after.prompt_editor@ == LineView::seeded(seed)
        &&& after == (App {
            prompt_editor: after.prompt_editor,
            mode: Mode::Prompt(purpose),
            ..self
        })
    }

    /// Opens a prompt with a text in it.
    pub fn open_prompt(&mut self, purpose: PromptPurpose, seed: &str)
        ensures
            old(self).prompted(*final(self), purpose, seed@),
            old(self).wf() ==> final(self).wf(),
    {
        self.prompt_editor = LineEditor::new(seed);
        self.mode = Mode::Prompt(purpose);
    }

    /// Takes in a tick of the clock; a message whose time is over goes.
    pub fn tick(&mut self, message_expired: bool)
        ensures
            *final(self) == (App {
                tick_count: crate::sequence::bumped(old(self).tick_count),
                message: if message_expired {
                    None
                } else {
                    old(self).message
                },
                ..*old(self)
            }),
    {
        self.tick_count = crate::sequence::bump(self.tick_count);
        if message_expired {
            self.message = None;
        }
    }

    /// Hands out the text that is to be copied.
    pub fn take_pending_copy(&mut self) -> (r: Option<PendingCopy>)
        ensures
            r == old(self).pending_clipboard,
            *final(self) == (App { pending_clipboard: None, ..*old(self) }),
    {
        self.pending_clipboard.take()
    }

    /// Says what came of a copy: what was to be said only where it was made.
    pub fn copy_flushed(&mut self, copy: PendingCopy, succeeded: bool)
        ensures
            *final(self) == old(self).told(
                if succeeded {
                    copy.notice
                } else {
                    Notice::CopyFailed
                },
            ),
    {
        if succeeded {
            self.message = Some(copy.notice);
        } else {
            self.message = Some(Notice::CopyFailed);
        }
    }

    /// Leaves a text to be copied; `payload` is as much of it as is copied.
    pub fn enqueue_clipboard(&mut self, payload: String, notice: Notice)
        ensures
            *final(self) == (App {
                pending_clipboard: Some(PendingCopy { payload, notice }),
                ..*old(self)
            }),
    {
        self.pending_clipboard = Some(PendingCopy { payload, notice });
    }

    /// What is said of a copy of a whole response: its size, and whether it or the
    /// body was cut.
    pub open spec fn copied_notice(
        capped: bool,
        queued: String,
        full: String,
        truncated: bool,
    ) -> Notice {
        if capped {
            Notice::CopiedFirstBytes { queued, full, truncated }
        } else {
            Notice::CopiedBytes { size: queued, truncated }
        }
    }

    /// Leaves a whole response to be copied. Of the text, `payload` is as much as
    /// is copied, and `queued` and `full` are the sizes as they are shown.
    pub fn copy_to_clipboard_view(
        &mut self,
        payload: String,
        capped: bool,
        queued: String,
        full: String,
        truncated: bool,
    )
        ensures
            *final(self) == (App {
                pending_clipboard: Some(
                    PendingCopy {
                        payload,
                        notice: App::copied_notice(capped, queued, full, truncated),
                    },
                ),
                ..*old(self)
            }),
    {
        let notice = if capped {
            Notice::CopiedFirstBytes { queued, full, truncated }
        } else {
            Notice::CopiedBytes { size: queued, truncated }
        };
        self.pending_clipboard = Some(PendingCopy { payload, notice });
    }
}

/// The newest message is the one that is shown.
pub proof fn law_newer_message_replaces(app: App, a: Notice, b: Notice)
    ensures
        app.told(a).told(b) == app.told(b),
        app.told(b).message == Some(b),
{
}

/// An application starts on the explorer with nothing open, nothing in flight and nothing asked.
pub proof fn law_application_starts_empty(
    a: App,
    workspace: Option<Workspace>,
    explorer: Explorer,
    keymap: KeyMap,
    settings: Settings,
)
    requires
        a.started(workspace, explorer, keymap, settings),
    ensures
        a.workspace == workspace,
        a.explorer == explorer,
        a.buffers.list@.len() == 0,
        a.panes.focus == Pane::Explorer,
        a.panes.zoom is None,
        !a.panes.explorer_hidden,
        a.mode == Mode::Normal,
        !a.should_quit,
        a.sequence.runner is None,
        a.load.runner is None,
        a.message is None,
        !a.flying(),
{
}

/// What the runtime brings is what the application works with: its limits, and its history where
/// it could be opened; where it could not be that is said.
pub proof fn law_runtime_limits_are_taken(a: App, runtime: Runtime, history: HistoryOpen)
    ensures
        ({
            let b = a.installed(runtime, history);
            &&& b.has_client
            &&& history is Opened ==> b.has_history && b.message == a.message
            &&& history is Failed && !a.has_history ==> !b.has_history && b.message is Some
            &&& history is NoDirectory ==> b.message == Some(Notice::HistoryDisabledNoDir)
            &&& b.settings.client_timeout_secs == runtime.timeout_secs
            &&& b.settings.max_body_bytes == runtime.max_body_bytes
            &&& b.settings.load_caps == runtime.load_caps
            &&& b.settings.theme == a.settings.theme
            &&& b.buffers == a.buffers
        }),
{
}

/// What is told of a copy says how much was copied, and where it was cut of how much.
pub proof fn law_copy_is_told(queued: String, full: String, truncated: bool)
    ensures
        App::copied_notice(false, queued, full, truncated) == (Notice::CopiedBytes {
            size: queued,
            truncated,
        }),
        App::copied_notice(true, queued, full, truncated) == (Notice::CopiedFirstBytes {
            queued,
            full,
            truncated,
        }),
{
}

/// A response that is put in place is the one that is shown: of the open endpoint where there is
/// one, whose endpoint stays, and of no endpoint where there is none. Other buffers stay.
pub proof fn law_placed_response_is_shown(a: App, b: App, response: ResponseState, i: int)
    requires
        a.responded(b, response),
        0 <= i < a.buffers.list@.len(),
    ensures
        b.spec_response() == response,
        b.buffers.list@.len() == a.buffers.list@.len(),
        i != a.buffers.active ==> b.buffers.list@[i] == a.buffers.list@[i],
        b.buffers.list@[i].endpoint == a.buffers.list@[i].endpoint,
        a.buffers.loaded() ==> b.orphan_response == a.orphan_response,
{
}

/// A workspace that is open is remembered where there is a history.
pub proof fn law_open_workspace_is_remembered(a: App)
    ensures
        a.has_history ==> (a.workspace matches Some(ws) ==> a.remembers() == seq![
            Effect::TouchWorkspace(ws.key),
        ]),
        !a.has_history || a.workspace is None ==> a.remembers().len() == 0,
{
}

} // verus!
