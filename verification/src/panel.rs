//! The overlays over the session: settings, options, the inspector and the editor of
//! environments.

use vstd::prelude::*;

use crate::app::{App, Component, DiskWork, Effect, PendingCopy};
use crate::buffer::{lemma_updated_wf, EndpointBuffer, SelectedEndpoint};
use crate::explorer::{rows_updated, Explorer};
use crate::keys::KeyEvent;
use crate::mode::Mode;
use crate::model::{Content, Endpoint, Request};
use crate::notice::Notice;
use crate::settings::{OptionsEvent, Settings, SettingsEvent, SettingsWork};
use crate::switching::Reload;
use crate::tree::{just, only};
use crate::vars::{resolves_env, ScopesView};
use crate::workspace::Workspace;

verus! {

/// What the editor of environments answers to a key.
#[derive(Debug)]
pub enum EnvOutcome {
    /// It took the key.
    Consumed,
    /// The environments are to be saved.
    Save,
    /// They are to be saved, and the editor closes once they were.
    SaveAndClose,
    /// It closes.
    Close,
    /// What was captured in this workspace is to be dropped.
    ClearSession,
    /// A masked value is to be shown; there is none where no such row is selected.
    RevealRow(Option<String>),
    /// A value that is shown for a moment is to be copied.
    CopyRevealed(Option<String>),
    /// A value that is not masked is to be copied.
    CopyValue(Option<String>),
}

/// Environments that were saved.
#[derive(Debug)]
pub struct EnvSaved {
    /// The active profile, which may have been renamed or deleted.
    pub active_profile: Option<String>,
    /// The workspace as it is on disk.
    pub workspace: Workspace,
    /// The tree as it is on disk.
    pub reload: Reload,
}

/// What the inspector answers to a key.
#[derive(Debug)]
pub enum InspectorOutcome {
    /// It took the key.
    Consumed,
    /// It closes.
    Close,
    /// The request is to be copied as a curl command with its secrets masked; there
    /// is none where nothing was traced.
    CopyCurl(Option<String>),
}

/// What a change of a setting asks of the world, in order.
pub open spec fn work_effects(w: SettingsWork, refresh: Option<Component>) -> Seq<Effect> {
    let dropped = match w.drop_cookie {
        Some(key) => seq![Effect::DropCookie(key)],
        None => Seq::empty(),
    };
    let persisted = if w.persist_cookies {
        dropped.push(Effect::PersistCookies)
    } else {
        dropped
    };
    let respawned = if w.respawn_highlighter {
        persisted.push(Effect::RespawnHighlighter)
    } else {
        persisted
    };
    match refresh {
        Some(c) => respawned.push(Effect::RefreshComponent(c)),
        None => respawned,
    }
}

fn effects_of(w: SettingsWork, refresh: Option<Component>) -> (fx: Vec<Effect>)
    ensures
        fx@ == work_effects(w, refresh),
{
    let mut fx: Vec<Effect> = Vec::new();
    if let Some(key) = w.drop_cookie {
        fx.push(Effect::DropCookie(key));
        assert(fx@ =~= seq![Effect::DropCookie(key)]);
    }
    if w.persist_cookies {
        fx.push(Effect::PersistCookies);
    }
    if w.respawn_highlighter {
        fx.push(Effect::RespawnHighlighter);
    }
    if let Some(c) = refresh {
        fx.push(Effect::RefreshComponent(c));
    }
    assert(fx@ =~= work_effects(w, refresh));
    fx
}

impl App {
    /// The state with the settings panel open.
    #[verifier::opaque]
    pub open spec fn settings_opened(self) -> App {
        App { settings: self.settings.opened(), mode: Mode::Settings, ..self }
    }

    /// Opens the settings panel.
    pub fn open_settings(&mut self) -> (fx: Vec<Effect>)
        requires
            old(self).wf(),
        ensures
            *final(self) == old(self).settings_opened(),
            fx@ == only(Effect::OpenComponent(Component::Settings)),
            final(self).wf(),
    {
        reveal(App::settings_opened);
        self.settings.open_settings();
        self.mode = Mode::Settings;
        just(Effect::OpenComponent(Component::Settings))
    }

    /// What a key does in an overlay with its own state: it is handed on while the
    /// overlay is open.
    pub open spec fn handed_on(self, mode: Mode, component: Component, key: KeyEvent, fx: Seq<
        Effect,
    >) -> bool {
        if self.mode == mode {
            fx == only(Effect::ComponentKey(component, key))
        } else {
            fx.len() == 0
        }
    }

    /// Handles a key in the settings panel.
    pub fn handle_settings_key(&self, key: KeyEvent) -> (fx: Vec<Effect>)
        ensures
            self.handed_on(Mode::Settings, Component::Settings, key, fx@),
    {
        if self.mode == Mode::Settings {
            just(Effect::ComponentKey(Component::Settings, key))
        } else {
            Vec::new()
        }
    }

    /// What a change of a setting does: the settings take it or not, what there is to
    /// say is said, and the panel closes or shows the settings as they are now.
    #[verifier::opaque]
    pub open spec fn settings_changed(self, after: App, e: SettingsEvent, fx: Seq<Effect>) -> bool {
        let w = self.settings.work(e);
        let still = e is Consumed || e is Close;
        &&& self.settings.becomes(after.settings, e)
        &&& after == (App {
            settings: after.settings,
            mode: if w.close {
                Mode::Normal
            } else {
                self.mode
            },
            ..self
        }).told_if(w.notice)
        &&& fx == work_effects(
            w,
            if still {
                None
            } else {
                Some(Component::Settings)
            },
        )
    }

    /// Makes a change that the settings panel asked for.
    pub fn settings_answered(&mut self, e: SettingsEvent) -> (fx: Vec<Effect>)
        requires
            old(self).wf(),
        ensures
            old(self).settings_changed(*final(self), e, fx@),
            final(self).wf(),
    {
        reveal(App::settings_changed);
        let still = match &e {
            SettingsEvent::Consumed | SettingsEvent::Close => true,
            _ => false,
        };
        let mut w = self.settings.apply(e);
        if w.close {
            self.mode = Mode::Normal;
        }
        let ghost work = w;
        let notice = w.notice.take();
        self.notify_if(notice);
        let refresh = if still {
            None
        } else {
            Some(Component::Settings)
        };
        assert(work_effects(w, refresh) == work_effects(work, refresh));
        effects_of(w, refresh)
    }

    /// The state with the session options open; their footer starts without a note.
    pub open spec fn options_opened(self) -> App {
        App { settings: Settings { note: None, ..self.settings }, ..self.in_mode(Mode::Options) }
    }

    /// Opens the session options.
    pub fn open_options(&mut self) -> (fx: Vec<Effect>)
        requires
            old(self).wf(),
        ensures
            *final(self) == old(self).options_opened(),
            fx@ == only(Effect::OpenComponent(Component::Options)),
            final(self).wf(),
    {
        self.mode = Mode::Options;
        self.settings.note = None;
        just(Effect::OpenComponent(Component::Options))
    }

    /// Handles a key in the session options.
    pub fn handle_options_key(&self, key: KeyEvent) -> (fx: Vec<Effect>)
        ensures
            self.handed_on(Mode::Options, Component::Options, key, fx@),
    {
        if self.mode == Mode::Options {
            just(Effect::ComponentKey(Component::Options, key))
        } else {
            Vec::new()
        }
    }

    /// What a change of an option does: as the settings panel would change it, but it
    /// does not count as a change in the panel.
    #[verifier::opaque]
    pub open spec fn options_changed(self, after: App, e: OptionsEvent, fx: Seq<Effect>) -> bool {
        let w = self.settings.work(e.as_setting());
        let still = e is Consumed || e is Close;
        &&& after.settings.touched@ == self.settings.touched@
        &&& after == (App {
            settings: Settings {
                touched: after.settings.touched,
                ..self.settings.applied(e.as_setting())
            },
            mode: if w.close {
                Mode::Normal
            } else {
                self.mode
            },
            ..self
        }).told_if(w.notice)
        &&& fx == work_effects(
            w,
            if still {
                None
            } else {
                Some(Component::Options)
            },
        )
    }

    /// Makes a change that the options overlay asked for.
    pub fn options_answered(&mut self, e: OptionsEvent) -> (fx: Vec<Effect>)
        requires
            old(self).wf(),
        ensures
            old(self).options_changed(*final(self), e, fx@),
            final(self).wf(),
    {
        reveal(App::options_changed);
        let still = match &e {
            OptionsEvent::Consumed | OptionsEvent::Close => true,
            _ => false,
        };
        let mut w = self.settings.apply_option(e);
        if w.close {
            self.mode = Mode::Normal;
        }
        let ghost work = w;
        let notice = w.notice.take();
        self.notify_if(notice);
        let refresh = if still {
            None
        } else {
            Some(Component::Options)
        };
        assert(work_effects(w, refresh) == work_effects(work, refresh));
        effects_of(w, refresh)
    }

    /// Asks for a client with the check of certificates switched.
    pub fn toggle_insecure(&self) -> (fx: Vec<Effect>)
        ensures
            fx@ == only(Effect::RebuildForInsecure),
    {
        just(Effect::RebuildForInsecure)
    }

    /// Takes in whether the client could be built with the check of certificates
    /// switched; where it could not, the check stays as it was.
    pub fn insecure_rebuilt(&mut self, rebuilt: Result<(), String>) -> (fx: Vec<Effect>)
        requires
            old(self).wf(),
        ensures
            *final(self) == (App {
                settings: old(self).settings.insecure_toggled(rebuilt),
                ..*old(self)
            }).told(
                match rebuilt {
                    Ok(_) => Settings::insecure_notice(!old(self).settings.insecure),
                    Err(err) => Notice::TlsToggleFailed { err },
                },
            ),
            fx@ == only(Effect::RefreshComponent(Component::Settings)),
            final(self).wf(),
    {
        let notice = self.settings.toggle_insecure(rebuilt);
        self.message = Some(notice);
        just(Effect::RefreshComponent(Component::Settings))
    }

    /// The state with the tracing of sends switched.
    #[verifier::opaque]
    pub open spec fn debug_toggled(self) -> App {
        App {
            settings: Settings { debug: !self.settings.debug, ..self.settings },
            message: Some(Settings::debug_notice(!self.settings.debug)),
            ..self
        }
    }

    /// Switches the tracing of sends.
    pub fn toggle_debug(&mut self)
        requires
            old(self).wf(),
        ensures
            *final(self) == old(self).debug_toggled(),
            final(self).wf(),
    {
        reveal(App::debug_toggled);
        let notice = self.settings.toggle_debug();
        self.message = Some(notice);
    }

    /// Whether certificates go unchecked: in the whole session, or for the endpoint
    /// that is open.
    pub fn insecure_active(&self) -> (r: bool)
        ensures
            r == (self.settings.insecure || (self.buffers.loaded()
                && self.buffers.current().endpoint.endpoint.request.insecure)),
    {
        if self.settings.insecure {
            return true;
        }
        match self.selected() {
            Some(s) => s.endpoint.request.insecure,
            None => false,
        }
    }

    /// A buffer with the check of certificates of its endpoint put one way.
    pub open spec fn checked(b: EndpointBuffer, insecure: bool) -> EndpointBuffer {
        EndpointBuffer {
            endpoint: SelectedEndpoint {
                endpoint: Endpoint {
                    request: Request { insecure, ..b.endpoint.endpoint.request },
                    ..b.endpoint.endpoint
                },
                ..b.endpoint
            },
            ..b
        }
    }

    fn check_current(&mut self, insecure: bool)
        requires
            old(self).wf(),
            old(self).buffers.loaded(),
        ensures
            old(self).buffer_changed(
                *final(self),
                App::checked(old(self).buffers.current(), insecure),
            ),
            final(self).wf(),
    {
        let i = self.buffers.active;
        self.buffers.list[i].endpoint.endpoint.request.insecure = insecure;
        proof {
            assert(self.buffers.list@ =~= old(self).buffers.list@.update(
                i as int,
                self.buffers.list@[i as int],
            ));
            lemma_updated_wf(old(self).buffers, self.buffers);
        }
    }

    /// What switching the check of certificates of the open endpoint does: it is
    /// switched, and the endpoint is to be saved.
    #[verifier::opaque]
    pub open spec fn toggles_endpoint(self, after: App, fx: Seq<Effect>) -> bool {
        if !self.buffers.loaded() {
            after == self.told(Notice::NoEndpointSelected) && fx.len() == 0
        } else {
            let b = self.buffers.current();
            let new = App::checked(b, !b.endpoint.endpoint.request.insecure);
            &&& self.buffer_changed(after, new)
            &&& fx.len() == 1
            &&& fx[0] matches Effect::Disk(DiskWork::SaveInsecure { path, endpoint }) && path
                == b.endpoint.file && endpoint@ == new.endpoint.endpoint@
        }
    }

    /// Switches the check of certificates of the open endpoint.
    pub fn toggle_endpoint_insecure(&mut self) -> (fx: Vec<Effect>)
        requires
            old(self).wf(),
        ensures
            old(self).toggles_endpoint(*final(self), fx@),
            final(self).wf(),
    {
        reveal(App::toggles_endpoint);
        let i = self.buffers.active;
        if i >= self.buffers.list.len() {
            self.message = Some(Notice::NoEndpointSelected);
            return Vec::new();
        }
        let on = !self.buffers.list[i].endpoint.endpoint.request.insecure;
        self.check_current(on);
        let path = self.buffers.list[i].endpoint.file.clone();
        let endpoint = self.buffers.list[i].endpoint.endpoint.copy();
        just(Effect::Disk(DiskWork::SaveInsecure { path, endpoint }))
    }

    /// What the save of a switched check does: the endpoint on disk is what the buffer
    /// is measured against, and the tree shows it. Where the save failed the check is
    /// switched back.
    #[verifier::opaque]
    pub open spec fn endpoint_checked(
        self,
        after: App,
        path: String,
        endpoint: Endpoint,
        result: Result<(), String>,
    ) -> bool {
        match result {
            Ok(_) => {
                &&& if self.buffers.loaded() {
                    let b = self.buffers.current();
                    let new = after.buffers.list@[self.buffers.active as int];
                    &&& self.buffers.current_changed(after.buffers, new)
                    &&& new.loaded_snapshot@ == endpoint@
                    &&& new == (EndpointBuffer { loaded_snapshot: new.loaded_snapshot, ..b })
                } else {
                    after.buffers == self.buffers
                }
                &&& rows_updated(self.explorer.rows@, after.explorer.rows@, path@, endpoint@)
                &&& after == (App {
                    buffers: after.buffers,
                    explorer: Explorer { rows: after.explorer.rows, ..self.explorer },
                    ..self
                }).told(
                    if endpoint.request.insecure {
                        Notice::EndpointInsecureOn
                    } else {
                        Notice::EndpointInsecureOff
                    },
                )
            },
            Err(err) => {
                &&& if self.buffers.loaded() {
                    self.buffers.current_changed(
                        after.buffers,
                        App::checked(self.buffers.current(), !endpoint.request.insecure),
                    )
                } else {
                    after.buffers == self.buffers
                }
                &&& after == (App { buffers: after.buffers, ..self }).told(
                    Notice::EndpointSaveFailed { err },
                )
            },
        }
    }

    /// Takes in whether an endpoint could be saved with its check switched.
    pub fn endpoint_insecure_saved(
        &mut self,
        path: String,
        endpoint: Endpoint,
        result: Result<(), String>,
    )
        requires
            old(self).wf(),
        ensures
            old(self).endpoint_checked(*final(self), path, endpoint, result),
            final(self).wf(),
    {
        reveal(App::endpoint_checked);
        let i = self.buffers.active;
        let loaded = i < self.buffers.list.len();
        match result {
            Ok(_) => {
                if loaded {
                    self.buffers.list[i].loaded_snapshot = endpoint.copy();
                    proof {
                        assert(self.buffers.list@ =~= old(self).buffers.list@.update(
                            i as int,
                            self.buffers.list@[i as int],
                        ));
                        lemma_updated_wf(old(self).buffers, self.buffers);
                    }
                }
                self.explorer.update_endpoint(&path, &endpoint);
                if endpoint.request.insecure {
                    self.message = Some(Notice::EndpointInsecureOn);
                } else {
                    self.message = Some(Notice::EndpointInsecureOff);
                }
            },
            Err(err) => {
                if loaded {
                    self.check_current(!endpoint.request.insecure);
                }
                self.message = Some(Notice::EndpointSaveFailed { err });
            },
        }
    }

    /// The state with the inspector open; the mode that it was opened from waits.
    #[verifier::opaque]
    pub open spec fn inspecting(self) -> App {
        App { inspector_return: self.mode, mode: Mode::Inspector, ..self }
    }

    /// Opens the inspector.
    pub fn open_inspector(&mut self) -> (fx: Vec<Effect>)
        requires
            old(self).wf(),
        ensures
            *final(self) == old(self).inspecting(),
            fx@ == only(Effect::OpenComponent(Component::Inspector)),
            final(self).wf(),
    {
        reveal(App::inspecting);
        self.inspector_return = self.mode;
        self.mode = Mode::Inspector;
        just(Effect::OpenComponent(Component::Inspector))
    }

    /// Handles a key in the inspector.
    pub fn handle_inspector_key(&self, key: KeyEvent) -> (fx: Vec<Effect>)
        ensures
            self.handed_on(Mode::Inspector, Component::Inspector, key, fx@),
    {
        if self.mode == Mode::Inspector {
            just(Effect::ComponentKey(Component::Inspector, key))
        } else {
            Vec::new()
        }
    }

    /// The state once the inspector has closed: the mode that waited is back.
    pub open spec fn inspector_closed(self) -> App {
        App { mode: self.inspector_return, inspector_return: Mode::Normal, ..self }
    }

    /// The state with a text to be copied, where there is one.
    pub open spec fn copying(self, text: Option<String>, notice: Notice) -> App {
        App {
            pending_clipboard: match text {
                Some(payload) => Some(PendingCopy { payload, notice }),
                None => self.pending_clipboard,
            },
            ..self
        }
    }

    fn copy_if(&mut self, text: Option<String>, notice: Notice)
        ensures
            *final(self) == old(self).copying(text, notice),
    {
        if let Some(payload) = text {
            self.enqueue_clipboard(payload, notice);
        }
    }

    /// The state after an answer of the inspector.
    pub open spec fn inspected(self, outcome: InspectorOutcome) -> App {
        match outcome {
            InspectorOutcome::Consumed => self,
            InspectorOutcome::Close => self.inspector_closed(),
            InspectorOutcome::CopyCurl(text) => self.copying(text, Notice::CopiedMaskedCurl),
        }
    }

    /// Takes in what the inspector answered to a key.
    pub fn inspector_answered(&mut self, outcome: InspectorOutcome)
        requires
            old(self).wf(),
        ensures
            *final(self) == old(self).inspected(outcome),
            final(self).wf(),
    {
        match outcome {
            InspectorOutcome::Consumed => {},
            InspectorOutcome::Close => {
                self.mode = self.inspector_return;
                self.inspector_return = Mode::Normal;
            },
            InspectorOutcome::CopyCurl(text) => self.copy_if(text, Notice::CopiedMaskedCurl),
        }
    }

    /// What opening the editor of environments does: without a workspace there is
    /// nothing to edit, which is said.
    pub open spec fn opens_environments(self, after: App, fx: Seq<Effect>) -> bool {
        match self.workspace {
            Some(_) => after == self && fx == only(Effect::OpenComponent(Component::EnvEditor)),
            None => after == self.told(Notice::OpenWorkspaceFirst) && fx.len() == 0,
        }
    }

    /// Opens the editor of environments.
    pub fn open_env_editor(&mut self) -> (fx: Vec<Effect>)
        requires
            old(self).wf(),
        ensures
            old(self).opens_environments(*final(self), fx@),
            final(self).wf(),
    {
        match &self.workspace {
            Some(_) => just(Effect::OpenComponent(Component::EnvEditor)),
            None => {
                self.message = Some(Notice::OpenWorkspaceFirst);
                Vec::new()
            },
        }
    }

    /// Takes in whether the editor of environments could be opened.
    pub fn env_editor_opened(&mut self, result: Result<(), String>)
        requires
            old(self).wf(),
        ensures
            *final(self) == (match result {
                Ok(_) => App { env_editor: true, mode: Mode::EnvEditor, ..*old(self) },
                Err(err) => old(self).told(Notice::EditorFailed { err }),
            }),
            final(self).wf(),
    {
        match result {
            Ok(_) => {
                self.env_editor = true;
                self.mode = Mode::EnvEditor;
            },
            Err(err) => {
                self.message = Some(Notice::EditorFailed { err });
            },
        }
    }

    /// What a key does in the editor of environments: it is handed on; where the editor
    /// is not open its mode is left.
    pub open spec fn environments_keyed(self, after: App, key: KeyEvent, fx: Seq<Effect>) -> bool {
        if self.env_editor {
            after == self && fx == only(Effect::ComponentKey(Component::EnvEditor, key))
        } else {
            after == self.in_mode(Mode::Normal) && fx.len() == 0
        }
    }

    /// Handles a key in the editor of environments.
    pub fn handle_env_editor_key(&mut self, key: KeyEvent) -> (fx: Vec<Effect>)
        requires
            old(self).wf(),
        ensures
            old(self).environments_keyed(*final(self), key, fx@),
            final(self).wf(),
    {
        if self.env_editor {
            just(Effect::ComponentKey(Component::EnvEditor, key))
        } else {
            self.mode = Mode::Normal;
            Vec::new()
        }
    }

    /// The state once the editor of environments has closed.
    pub open spec fn environments_closed(self) -> App {
        App { env_editor: false, mode: Mode::Normal, ..self }
    }

    /// Closes the editor of environments.
    pub fn close_env_editor(&mut self)
        requires
            old(self).wf(),
        ensures
            *final(self) == old(self).environments_closed(),
            final(self).wf(),
    {
        self.env_editor = false;
        self.mode = Mode::Normal;
    }

    /// What saving the environments does.
    pub open spec fn saves_environments(self, after: App, close: bool, fx: Seq<Effect>) -> bool {
        match self.workspace {
            None => after == self.told(Notice::NoWorkspaceToSaveInto) && fx.len() == 0,
            Some(ws) => after == self && if self.env_editor {
                fx == only(
                    Effect::Disk(
                        DiskWork::SaveEnvironments { root: ws.root, name: ws.name, close },
                    ),
                )
            } else {
                fx.len() == 0
            },
        }
    }

    /// Saves the environments.
    pub fn env_save(&mut self, close: bool) -> (fx: Vec<Effect>)
        requires
            old(self).wf(),
        ensures
            old(self).saves_environments(*final(self), close, fx@),
            final(self).wf(),
    {
        match &self.workspace {
            None => {
                self.message = Some(Notice::NoWorkspaceToSaveInto);
                Vec::new()
            },
            Some(ws) => if self.env_editor {
                just(
                    Effect::Disk(
                        DiskWork::SaveEnvironments {
                            root: ws.root.clone(),
                            name: ws.name.clone(),
                            close,
                        },
                    ),
                )
            } else {
                Vec::new()
            },
        }
    }

    /// What an answer of the editor of environments does.
    #[verifier::opaque]
    pub open spec fn environments_answered(
        self,
        after: App,
        outcome: EnvOutcome,
        fx: Seq<Effect>,
    ) -> bool {
        match outcome {
            EnvOutcome::Consumed => after == self && fx.len() == 0,
            EnvOutcome::Save => self.saves_environments(after, false, fx),
            EnvOutcome::SaveAndClose => self.saves_environments(after, true, fx),
            EnvOutcome::Close => after == self.environments_closed() && fx.len() == 0,
            EnvOutcome::ClearSession => {
                &&& self.session_cleared(after)
                &&& after.message == Some(
                    if self.spec_session() == Map::<Seq<char>, Seq<char>>::empty() {
                        Notice::NoSessionCaptures
                    } else {
                        Notice::SessionCleared
                    },
                )
                &&& fx == only(Effect::RefreshComponent(Component::EnvEditor))
            },
            EnvOutcome::RevealRow(None) => after == self && fx.len() == 0,
            EnvOutcome::RevealRow(Some(text)) => {
                &&& after == self
                &&& fx.len() == 1
                &&& fx[0] matches Effect::Reveal { raw, lookup } && raw == text && resolves_env(
                    lookup,
                    ScopesView { collection: Map::empty(), ..self.scopes(0) },
                )
            },
            EnvOutcome::CopyRevealed(text) => after == self.copying(text, Notice::CopiedRevealed)
                && fx.len() == 0,
            EnvOutcome::CopyValue(text) => after == self.copying(text, Notice::CopiedValue)
                && fx.len() == 0,
        }
    }

    /// Takes in what the editor of environments answered to a key.
    pub fn env_editor_answered(&mut self, outcome: EnvOutcome) -> (fx: Vec<Effect>)
        requires
            old(self).wf(),
        ensures
            old(self).environments_answered(*final(self), outcome, fx@),
            final(self).wf(),
    {
        reveal(App::environments_answered);
        match outcome {
            EnvOutcome::Consumed => Vec::new(),
            EnvOutcome::Save => self.env_save(false),
            EnvOutcome::SaveAndClose => self.env_save(true),
            EnvOutcome::Close => {
                self.close_env_editor();
                Vec::new()
            },
            EnvOutcome::ClearSession => {
                let cleared = self.clear_session_vars();
                if cleared {
                    self.message = Some(Notice::SessionCleared);
                } else {
                    self.message = Some(Notice::NoSessionCaptures);
                }
                just(Effect::RefreshComponent(Component::EnvEditor))
            },
            EnvOutcome::RevealRow(None) => Vec::new(),
            EnvOutcome::RevealRow(Some(raw)) => {
                let lookup = self.build_env_resolver();
                just(Effect::Reveal { raw, lookup })
            },
            EnvOutcome::CopyRevealed(text) => {
                self.copy_if(text, Notice::CopiedRevealed);
                Vec::new()
            },
            EnvOutcome::CopyValue(text) => {
                self.copy_if(text, Notice::CopiedValue);
                Vec::new()
            },
        }
    }

    /// The state with other environments.
    pub open spec fn with_environments(self, active_profile: Option<String>, ws: Workspace) -> App {
        App { active_profile, workspace: Some(ws), ..self }
    }

    fn take_environments(&mut self, active_profile: Option<String>, ws: Workspace)
        requires
            old(self).wf(),
            ws.wf(),
        ensures
            *final(self) == old(self).with_environments(active_profile, ws),
            final(self).wf(),
            final(self).buffers == old(self).buffers,
    {
        self.active_profile = active_profile;
        self.workspace = Some(ws);
    }

    /// What a save of the environments does: the workspace and the tree are as on disk,
    /// so that sends use the new values. Where they were not saved, that is said and
    /// the editor stays open.
    #[verifier::opaque]
    pub open spec fn environments_saved(
        self,
        after: App,
        result: Result<EnvSaved, String>,
        close: bool,
    ) -> bool {
        match result {
            Err(text) => after == self.told(Notice::Text { text }),
            Ok(s) => exists|mid: App|
                {
                    &&& #[trigger] self.with_environments(
                        s.active_profile,
                        s.workspace,
                    ).reloaded(mid, s.reload)
                    &&& after == (if close {
                        mid.told(Notice::VarsApplied).environments_closed()
                    } else {
                        mid.told(Notice::VarsApplied)
                    })
                },
        }
    }

    /// Takes in whether the environments could be saved.
    #[verifier::rlimit(40)]
    pub fn env_saved(&mut self, result: Result<EnvSaved, String>, close: bool)
        requires
            old(self).wf(),
            result matches Ok(s) ==> s.workspace.wf() && s.reload.explorer.wf()
                && s.reload.places@.len() == old(self).buffers.list@.len(),
        ensures
            old(self).environments_saved(*final(self), result, close),
            final(self).wf(),
    {
        reveal(App::environments_saved);
        match result {
            Err(text) => {
                self.message = Some(Notice::Text { text });
            },
            Ok(s) => {
                self.take_environments(s.active_profile, s.workspace);
                let ghost fresh = *self;
                self.reload_explorer(s.reload);
                let ghost mid = *self;
                assert(fresh.reloaded(mid, s.reload));
                self.message = Some(Notice::VarsApplied);
                if close {
                    self.close_env_editor();
                }
            },
        }
    }
}

/// The inspector gives the mode back that it was opened from.
pub proof fn law_inspector_returns(a: App)
    ensures
        a.inspecting().mode == Mode::Inspector,
        a.inspecting().inspector_closed() == (App { inspector_return: Mode::Normal, ..a }),
{
    reveal(App::inspecting);
}

/// A failed save takes the switch of an endpoint's check back: every buffer is as it
/// was.
pub proof fn law_failed_switch_is_taken_back(
    a: App,
    b: App,
    c: App,
    fx: Seq<Effect>,
    err: String,
)
    requires
        a.wf(),
        a.toggles_endpoint(b, fx),
        fx.len() > 0,
        fx[0] matches Effect::Disk(DiskWork::SaveInsecure { path, endpoint })
            && b.endpoint_checked(c, path, endpoint, Err(err)),
    ensures
        c.buffers.list@ == a.buffers.list@,
        c.buffers.active == a.buffers.active,
        c.message == Some(Notice::EndpointSaveFailed { err }),
{
    reveal(App::toggles_endpoint);
    reveal(App::endpoint_checked);
    let i = a.buffers.active as int;
    let was = a.buffers.current();
    assert(b.buffers.current() == App::checked(was, !was.endpoint.endpoint.request.insecure));
    match fx[0] {
        Effect::Disk(DiskWork::SaveInsecure { path, endpoint }) => {
            assert(endpoint@.request.insecure == endpoint.request.insecure);
            assert(endpoint.request.insecure == !was.endpoint.endpoint.request.insecure);
            assert(c.buffers.list@ =~= a.buffers.list@);
        },
        _ => {},
    }
}

/// The switch of the TLS checks of the open endpoint is turned over, and the endpoint with it is
/// to be saved in its file; nothing else of the request changes.
pub proof fn law_endpoint_switch_flips_and_saves(a: App, b: App, fx: Seq<Effect>)
    requires
        a.toggles_endpoint(b, fx),
        a.buffers.loaded(),
    ensures
        ({
            let before = a.buffers.list@[a.buffers.active as int];
            let after = b.buffers.list@[a.buffers.active as int];
            &&& after.endpoint.endpoint.request@.insecure
                != before.endpoint.endpoint.request@.insecure
            &&& after.endpoint.endpoint.request@.url == before.endpoint.endpoint.request@.url
            &&& after.endpoint.endpoint.request@.body == before.endpoint.endpoint.request@.body
            &&& after.endpoint.endpoint.request@.headers
                == before.endpoint.endpoint.request@.headers
            &&& after.editor == before.editor
            &&& fx.len() == 1
            &&& fx[0] matches Effect::Disk(DiskWork::SaveInsecure { path, endpoint }) && path
                == before.endpoint.file && endpoint@.request.insecure
                == !before.endpoint.endpoint.request@.insecure
        }),
{
    reveal(App::toggles_endpoint);
}

/// The debug switch is turned over and that is told.
pub proof fn law_debug_switch_flips(a: App)
    ensures
        a.debug_toggled().settings.debug != a.settings.debug,
        a.settings.debug ==> a.debug_toggled().message == Some(Notice::DebugOff),
        !a.settings.debug ==> a.debug_toggled().message == Some(Notice::DebugOn),
        a.debug_toggled().buffers == a.buffers,
{
    reveal(App::debug_toggled);
}

/// What a change of the settings asks for: the cookie that was replaced is dropped, the cookies
/// are kept, and the highlighter is started again, each where it is due.
pub proof fn law_settings_work_is_done(w: SettingsWork, refresh: Option<Component>)
    ensures
        ({
            let fx = work_effects(w, refresh);
            &&& w.persist_cookies <==> fx.contains(Effect::PersistCookies)
            &&& w.respawn_highlighter <==> fx.contains(Effect::RespawnHighlighter)
            &&& w.drop_cookie matches Some(key) ==> fx.len() > 0 && fx[0] == Effect::DropCookie(key)
            &&& refresh matches Some(c) ==> fx.len() > 0 && fx.last() == Effect::RefreshComponent(c)
            &&& refresh is None && !w.persist_cookies && !w.respawn_highlighter && w.drop_cookie
                is None ==> fx.len() == 0
        }),
{
    let none: Seq<Effect> = Seq::empty();
    let dropped = match w.drop_cookie {
        Some(key) => seq![Effect::DropCookie(key)],
        None => none,
    };
    let persisted = if w.persist_cookies {
        dropped.push(Effect::PersistCookies)
    } else {
        dropped
    };
    let respawned = if w.respawn_highlighter {
        persisted.push(Effect::RespawnHighlighter)
    } else {
        persisted
    };
    let fx = work_effects(w, refresh);
    if w.persist_cookies {
        assert(fx[dropped.len() as int] == Effect::PersistCookies);
    }
    if w.respawn_highlighter {
        assert(fx[persisted.len() as int] == Effect::RespawnHighlighter);
    }
}

/// What the editor of environments asks for is done: a save goes to the workspace that is open,
/// a close leaves the editor, cleared captures are gone, and a value that is copied is what is
/// put on the clipboard.
pub proof fn law_environments_do_what_they_ask(
    a: App,
    b: App,
    outcome: EnvOutcome,
    fx: Seq<Effect>,
)
    requires
        a.environments_answered(b, outcome, fx),
        a.env_editor,
        a.workspace is Some,
    ensures
        outcome is Save ==> b == a && fx == seq![
            Effect::Disk(
                DiskWork::SaveEnvironments {
                    root: a.workspace->0.root,
                    name: a.workspace->0.name,
                    close: false,
                },
            ),
        ],
        outcome is SaveAndClose ==> b == a && fx == seq![
            Effect::Disk(
                DiskWork::SaveEnvironments {
                    root: a.workspace->0.root,
                    name: a.workspace->0.name,
                    close: true,
                },
            ),
        ],
        outcome is Close ==> !b.env_editor && b.mode == Mode::Normal && fx.len() == 0,
        outcome is ClearSession ==> b.spec_session() == Map::<Seq<char>, Seq<char>>::empty(),
        outcome matches EnvOutcome::CopyValue(Some(text)) ==> (b.pending_clipboard matches Some(p)
            && p.payload == text),
        outcome matches EnvOutcome::CopyRevealed(Some(text)) ==> (b.pending_clipboard matches Some(
            p,
        ) && p.payload == text),
        outcome is Consumed ==> b == a && fx.len() == 0,
{
    reveal(App::environments_answered);
}

/// The environments that were saved are those of the workspace from then on, with the profile that
/// is active now; a save that failed changes nothing but what is told.
pub proof fn law_saved_environments_are_used(
    a: App,
    b: App,
    result: Result<EnvSaved, String>,
    close: bool,
)
    requires
        a.environments_saved(b, result, close),
    ensures
        result matches Err(text) ==> b.workspace == a.workspace && b.active_profile
            == a.active_profile && b.env_editor == a.env_editor && b.message == Some(
            Notice::Text { text },
        ),
        result matches Ok(s) ==> b.workspace == Some(s.workspace) && b.active_profile
            == s.active_profile && b.explorer.rows == s.reload.explorer.rows && b.message == Some(
            Notice::VarsApplied,
        ) && (close ==> !b.env_editor && b.mode == Mode::Normal) && (!close ==> b.env_editor
            == a.env_editor && b.mode == a.mode),
{
    reveal(App::environments_saved);
    reveal(App::reloaded);
}

/// A change that came from the panel of settings is taken, told and asked for; closing it goes
/// back to the main screen.
pub proof fn law_panel_change_is_taken(a: App, b: App, e: SettingsEvent, fx: Seq<Effect>)
    requires
        a.settings_changed(b, e, fx),
    ensures
        a.settings.becomes(b.settings, e),
        e is Close ==> b.mode == Mode::Normal && fx.len() == 0,
        !(e is Close) ==> b.mode == a.mode,
        e is ToggleDebug ==> b.settings.debug != a.settings.debug && fx == seq![
            Effect::RefreshComponent(Component::Settings),
        ],
        e matches SettingsEvent::ApplyRedirect(policy) ==> b.settings.redirect == policy
            && b.message == Some(Notice::RedirectSet { policy }),
        b.buffers == a.buffers,
{
    reveal(App::settings_changed);
    reveal(Settings::applied);
    reveal(Settings::work);
}

/// A change that came from the options of the session is taken as the same change of the settings
/// is, but is no change that a save of the defaults would write.
pub proof fn law_option_change_is_for_the_session(a: App, b: App, e: OptionsEvent, fx: Seq<Effect>)
    requires
        a.options_changed(b, e, fx),
    ensures
        b.settings.touched@ == a.settings.touched@,
        e matches OptionsEvent::ToggleInsecure { rebuilt } ==> (rebuilt is Ok
            ==> b.settings.insecure != a.settings.insecure) && (rebuilt is Err
            ==> b.settings.insecure == a.settings.insecure),
        e matches OptionsEvent::ToggleCookies { rebuilt } ==> (rebuilt is Ok ==> b.settings.cookies
            != a.settings.cookies) && (rebuilt is Err ==> b.settings.cookies == a.settings.cookies),
        e matches OptionsEvent::ApplyProxy { proxy, rebuilt, .. } ==> (rebuilt is Ok
            ==> b.settings.proxy == proxy) && (rebuilt is Err ==> b.settings.proxy
            == a.settings.proxy),
        e is Close ==> b.mode == Mode::Normal,
        !(e is Close) ==> b.mode == a.mode,
{
    reveal(App::options_changed);
    reveal(Settings::applied);
    reveal(Settings::work);
}

/// The inspector goes back to where it was opened, and a command that is copied from it is what
/// is put on the clipboard.
pub proof fn law_inspector_copies_and_closes(a: App, text: String)
    ensures
        a.inspected(InspectorOutcome::Close).mode == a.inspector_return,
        a.inspected(InspectorOutcome::Consumed) == a,
        a.inspected(InspectorOutcome::CopyCurl(Some(text))).pending_clipboard matches Some(p)
            && p.payload == text && p.notice == Notice::CopiedMaskedCurl,
        a.inspected(InspectorOutcome::CopyCurl(None)) == a,
{
}

} // verus!
