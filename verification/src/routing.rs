//! Which key and which action does what.

use vstd::prelude::*;

use crate::app::{App, Component, DiskWork, Effect, PendingLoad, ReorderDir, Surface, TreeWork};
use crate::editing::{RowOp, TabOp};
use crate::editor::EditorMode;
use crate::explorer::{cursor_down, cursor_up, last_row, Explorer};
use crate::help::{Help, HelpAsk};
use crate::keymap::{Action, LeaderEntry};
use crate::keys::{Key, KeyEvent};
use crate::mode::{ConfirmPurpose, JsonDialect, LeaderState, Mode, PromptPurpose};
use crate::model::Method;
use crate::notice::Notice;
use crate::pane::{LeftPane, Pane, Panes};
use crate::picker::{picker_key, spec_picker_key, Choices, DestPurpose, PickerKey};
use crate::request_pane::RequestTab;
use crate::sending::AppMsg;
use crate::sequence::Sequence;
use crate::settings::copy_text;
use crate::tree::{just, only};

verus! {

/// What is known of the parts of the screen with their own state when a key arrives.
#[derive(Debug)]
pub struct Facts {
    /// Whether a motion took the key, where the key was offered to the motions.
    pub motion: bool,
    /// The line of the response that is under the cursor.
    pub line: Option<usize>,
    /// Whether the response of a run has the focus of its surface.
    pub on_response: bool,
    /// The sequence in the editor, or why it does not hold.
    pub checked: Result<Sequence, String>,
    /// The actions that the palette offers.
    pub palette: Vec<Action>,
    /// The method under the cursor of the menu of methods.
    pub menu_method: Option<Method>,
}

/// The editor whose motions are offered a key.
#[derive(Debug, Clone, Copy, PartialEq, Eq, Structural)]
pub enum MotionIn {
    /// The popup of the URL.
    Popup,
    /// The body.
    Body,
}

/// The kinds of actions.
#[derive(Debug, Clone, Copy, PartialEq, Eq, Structural)]
pub enum ActionKind {
    /// On the panes and the application.
    Panes,
    /// That open an overlay.
    Overlay,
    /// On the session.
    Session,
    /// On the request.
    Request,
    /// On the tree.
    Tree,
    /// On the response.
    View,
    /// On the open endpoints.
    Buffers,
    /// That move where the focus is.
    Move,
}

/// The kind of an action.
pub open spec fn spec_kind(action: Action) -> ActionKind {
    match action {
        Action::Quit | Action::FocusNext | Action::FocusPrev | Action::FocusExplorer
        | Action::FocusUrlBar | Action::FocusRequest | Action::FocusResponse
        | Action::ToggleExplorer | Action::ToggleSequencesPane | Action::FocusSequencesToggle
        | Action::Zoom | Action::Help | Action::Leader => ActionKind::Panes,
        Action::EditUrlPopup | Action::OpenSearch | Action::OpenPalette | Action::Jump
        | Action::SwitchProfile | Action::OpenSequencePicker | Action::PickSequenceToRun
        | Action::OpenLoadRunner | Action::OpenLoadRunnerPick | Action::QuickJumpRequests
        | Action::QuickJumpWorkspaces | Action::BodyType | Action::RunSequence
        | Action::EditSequence => ActionKind::Overlay,
        Action::OpenEnvEditor | Action::OpenOptions | Action::OpenSettings | Action::OpenInspector
        | Action::ToggleDebug | Action::ToggleInsecure | Action::ToggleEndpointInsecure => {
            ActionKind::Session
        },
        Action::Send | Action::Cancel | Action::Save | Action::EditUrl | Action::MethodCycle
        | Action::MethodMenu | Action::TabNext | Action::TabPrev | Action::Tab1 | Action::Tab2
        | Action::Tab3 | Action::Tab4 | Action::RowAdd | Action::RowDelete | Action::RowToggle
        | Action::RowEdit | Action::CopyAsCurl | Action::CopyAsCurlResolved => {
            ActionKind::Request
        },
        Action::NewEndpoint | Action::NewCollection | Action::NewEndpointPick
        | Action::NewCollectionPick | Action::Rename | Action::Delete | Action::MoveTo
        | Action::CopyTo | Action::Duplicate | Action::ReorderUp | Action::ReorderDown
        | Action::ImportCollection | Action::ExportCollectionPostman
        | Action::ExportCollectionNative | Action::ExportWorkspacePostman
        | Action::ExportWorkspaceNative | Action::PasteCurl => ActionKind::Tree,
        Action::HalfPageDown | Action::HalfPageUp | Action::ToggleHeadersView
        | Action::ToggleWrap | Action::TogglePretty | Action::ToggleSortKeys
        | Action::ToggleLineNumbers | Action::OpenBodySearch | Action::SearchNext
        | Action::SearchPrev | Action::ToggleFold | Action::ToggleAllFolds
        | Action::StructuralNext | Action::StructuralPrev | Action::ScrollBodyLeft
        | Action::ScrollBodyRight | Action::CopyResponse | Action::CopyLine
        | Action::SaveResponseBody => ActionKind::View,
        Action::BufferNext | Action::BufferPrev | Action::BufferClose | Action::BufferCloseAll => {
            ActionKind::Buffers
        },
        Action::Up | Action::Down | Action::Select | Action::Collapse | Action::Expand
        | Action::Top | Action::Bottom => ActionKind::Move,
    }
}

fn kind_of(action: Action) -> (r: ActionKind)
    ensures
        r == spec_kind(action),
{
    match action {
        Action::Quit | Action::FocusNext | Action::FocusPrev | Action::FocusExplorer
        | Action::FocusUrlBar | Action::FocusRequest | Action::FocusResponse
        | Action::ToggleExplorer | Action::ToggleSequencesPane | Action::FocusSequencesToggle
        | Action::Zoom | Action::Help | Action::Leader => ActionKind::Panes,
        Action::EditUrlPopup | Action::OpenSearch | Action::OpenPalette | Action::Jump
        | Action::SwitchProfile | Action::OpenSequencePicker | Action::PickSequenceToRun
        | Action::OpenLoadRunner | Action::OpenLoadRunnerPick | Action::QuickJumpRequests
        | Action::QuickJumpWorkspaces | Action::BodyType | Action::RunSequence
        | Action::EditSequence => ActionKind::Overlay,
        Action::OpenEnvEditor | Action::OpenOptions | Action::OpenSettings | Action::OpenInspector
        | Action::ToggleDebug | Action::ToggleInsecure | Action::ToggleEndpointInsecure => {
            ActionKind::Session
        },
        Action::Send | Action::Cancel | Action::Save | Action::EditUrl | Action::MethodCycle
        | Action::MethodMenu | Action::TabNext | Action::TabPrev | Action::Tab1 | Action::Tab2
        | Action::Tab3 | Action::Tab4 | Action::RowAdd | Action::RowDelete | Action::RowToggle
        | Action::RowEdit | Action::CopyAsCurl | Action::CopyAsCurlResolved => {
            ActionKind::Request
        },
        Action::NewEndpoint | Action::NewCollection | Action::NewEndpointPick
        | Action::NewCollectionPick | Action::Rename | Action::Delete | Action::MoveTo
        | Action::CopyTo | Action::Duplicate | Action::ReorderUp | Action::ReorderDown
        | Action::ImportCollection | Action::ExportCollectionPostman
        | Action::ExportCollectionNative | Action::ExportWorkspacePostman
        | Action::ExportWorkspaceNative | Action::PasteCurl => ActionKind::Tree,
        Action::HalfPageDown | Action::HalfPageUp | Action::ToggleHeadersView
        | Action::ToggleWrap | Action::TogglePretty | Action::ToggleSortKeys
        | Action::ToggleLineNumbers | Action::OpenBodySearch | Action::SearchNext
        | Action::SearchPrev | Action::ToggleFold | Action::ToggleAllFolds
        | Action::StructuralNext | Action::StructuralPrev | Action::ScrollBodyLeft
        | Action::ScrollBodyRight | Action::CopyResponse | Action::CopyLine
        | Action::SaveResponseBody => ActionKind::View,
        Action::BufferNext | Action::BufferPrev | Action::BufferClose | Action::BufferCloseAll => {
            ActionKind::Buffers
        },
        Action::Up | Action::Down | Action::Select | Action::Collapse | Action::Expand
        | Action::Top | Action::Bottom => ActionKind::Move,
    }
}

/// Whether a key is Ctrl-C.
pub open spec fn is_interrupt(key: Option<KeyEvent>) -> bool {
    key matches Some(k) && k.code == Key::Char('c') && k.modifiers.control
}

impl App {
    /// The panes after an action on them.
    pub open spec fn panes_after(self, action: Action) -> Panes {
        let n = self.explorer.sequences@.len();
        match action {
            Action::FocusNext => self.panes.focused(self.panes.focus.spec_next(), n),
            Action::FocusPrev => self.panes.focused(self.panes.focus.spec_prev(), n),
            Action::FocusExplorer => self.panes.focused(Pane::Explorer, n),
            Action::FocusUrlBar => self.panes.focused(Pane::UrlBar, n),
            Action::FocusRequest => self.panes.focused(Pane::Request, n),
            Action::FocusResponse => self.panes.focused(Pane::Response, n),
            Action::ToggleExplorer => self.panes.explorer_toggled(n),
            Action::ToggleSequencesPane => self.panes.sequences_toggled(n),
            Action::FocusSequencesToggle => self.panes.sub_pane_switched(n),
            Action::Zoom => self.panes.zoom_toggled(),
            _ => self.panes,
        }
    }

    /// What an action on the panes and the application does. Ctrl-C cancels the request
    /// in flight, where there is one, in place of ending the application.
    #[verifier::opaque]
    pub open spec fn acts_on_panes(
        self,
        after: App,
        action: Action,
        key: Option<KeyEvent>,
        fx: Seq<Effect>,
    ) -> bool {
        match action {
            Action::Quit => if is_interrupt(key) && self.flying() {
                self.cancels(after, fx)
            } else {
                after == (App { should_quit: true, ..self }) && fx.len() == 0
            },
            Action::Help => after == (App { help: Help { open: true, ..self.help }, ..self })
                && fx.len() == 0,
            Action::Leader => after == (App { leader: Some(LeaderState::Root), ..self })
                && fx.len() == 0,
            _ => after == (App { panes: self.panes_after(action), ..self }) && fx.len() == 0,
        }
    }

    fn move_panes(&mut self, action: Action)
        requires
            old(self).wf(),
        ensures
            *final(self) == (App { panes: old(self).panes_after(action), ..*old(self) }),
            final(self).wf(),
    {
        let n = self.explorer.sequences.len();
        match action {
            Action::FocusNext => {
                let to = self.panes.focus.next();
                self.panes.set_focus(to, n);
            },
            Action::FocusPrev => {
                let to = self.panes.focus.prev();
                self.panes.set_focus(to, n);
            },
            Action::FocusExplorer => self.panes.set_focus(Pane::Explorer, n),
            Action::FocusUrlBar => self.panes.set_focus(Pane::UrlBar, n),
            Action::FocusRequest => self.panes.set_focus(Pane::Request, n),
            Action::FocusResponse => self.panes.set_focus(Pane::Response, n),
            Action::ToggleExplorer => self.panes.toggle_explorer(n),
            Action::ToggleSequencesPane => self.panes.toggle_sequences_pane(n),
            Action::FocusSequencesToggle => self.panes.focus_sequences_toggle(n),
            Action::Zoom => self.panes.toggle_zoom(),
            _ => {},
        }
    }

    fn dispatch_panes(&mut self, action: Action, key: Option<KeyEvent>) -> (fx: Vec<Effect>)
        requires
            old(self).wf(),
        ensures
            old(self).acts_on_panes(*final(self), action, key, fx@),
            final(self).wf(),
    {
        reveal(App::acts_on_panes);
        match action {
            Action::Quit => {
                let interrupt = match key {
                    Some(k) => k.code == Key::Char('c') && k.modifiers.control,
                    None => false,
                };
                if interrupt && self.in_flight() {
                    self.cancel_request()
                } else {
                    self.should_quit = true;
                    Vec::new()
                }
            },
            Action::Help => {
                self.help.open = true;
                Vec::new()
            },
            Action::Leader => {
                self.leader = Some(LeaderState::Root);
                Vec::new()
            },
            _ => {
                self.move_panes(action);
                Vec::new()
            },
        }
    }

    /// What an action that opens an overlay does.
    #[verifier::opaque]
    pub open spec fn acts_on_overlays(
        self,
        after: App,
        action: Action,
        palette: Vec<Action>,
        fx: Seq<Effect>,
    ) -> bool {
        match action {
            Action::EditUrlPopup => self.edits_url_popup(after) && fx.len() == 0,
            Action::OpenSearch | Action::QuickJumpRequests => after == self && fx == only(
                Effect::Tree(TreeWork::ListEndpoints),
            ),
            Action::OpenPalette => self.opens_palette(after, palette) && fx.len() == 0,
            Action::Jump => after == self.jumping() && fx.len() == 0,
            Action::SwitchProfile => self.opens_profiles(after) && fx.len() == 0,
            Action::RunSequence => self.runs_selected(after, fx),
            Action::EditSequence => self.edits_selected(after, fx),
            Action::OpenSequencePicker => self.opens_sequences(after, false) && fx.len() == 0,
            Action::PickSequenceToRun => self.opens_sequences(after, true) && fx.len() == 0,
            Action::OpenLoadRunner => self.opens_load(after, fx),
            Action::OpenLoadRunnerPick => after == (App { load_runner_after_pick: true, ..self })
                && fx == only(Effect::Tree(TreeWork::ListEndpoints)),
            Action::QuickJumpWorkspaces => self.asks_workspaces(after, fx),
            Action::BodyType => self.picks_body(after) && fx.len() == 0,
            _ => after == self && fx.len() == 0,
        }
    }

    /// Lists all endpoints to search in.
    pub fn open_search(&self) -> (fx: Vec<Effect>)
        ensures
            fx@ == only(Effect::Tree(TreeWork::ListEndpoints)),
    {
        just(Effect::Tree(TreeWork::ListEndpoints))
    }

    /// Lists all endpoints to search in; the one that is picked is load-tested.
    pub fn open_load_runner_pick(&mut self) -> (fx: Vec<Effect>)
        requires
            old(self).wf(),
        ensures
            *final(self) == (App { load_runner_after_pick: true, ..*old(self) }),
            fx@ == only(Effect::Tree(TreeWork::ListEndpoints)),
            final(self).wf(),
    {
        self.load_runner_after_pick = true;
        self.open_search()
    }

    fn dispatch_overlays(&mut self, action: Action, palette: Vec<Action>) -> (fx: Vec<Effect>)
        requires
            old(self).wf(),
        ensures
            old(self).acts_on_overlays(*final(self), action, palette, fx@),
            final(self).wf(),
    {
        reveal(App::acts_on_overlays);
        match action {
            Action::EditUrlPopup => {
                self.begin_url_popup();
                Vec::new()
            },
            Action::OpenSearch | Action::QuickJumpRequests => self.open_search(),
            Action::OpenPalette => {
                self.open_palette(palette);
                Vec::new()
            },
            Action::Jump => {
                self.open_jump();
                Vec::new()
            },
            Action::SwitchProfile => {
                self.open_profile_picker();
                Vec::new()
            },
            Action::RunSequence => self.run_selected_sequence(),
            Action::EditSequence => self.edit_selected_sequence(),
            Action::OpenSequencePicker => {
                self.open_sequence_picker(false);
                Vec::new()
            },
            Action::PickSequenceToRun => {
                self.open_sequence_picker(true);
                Vec::new()
            },
            Action::OpenLoadRunner => self.open_load_runner(),
            Action::OpenLoadRunnerPick => self.open_load_runner_pick(),
            Action::QuickJumpWorkspaces => self.open_workspace_picker(),
            Action::BodyType => {
                self.open_body_type_picker();
                Vec::new()
            },
            _ => Vec::new(),
        }
    }

    /// What an action on the session does.
    #[verifier::opaque]
    pub open spec fn acts_on_session(self, after: App, action: Action, fx: Seq<Effect>) -> bool {
        match action {
            Action::OpenEnvEditor => self.opens_environments(after, fx),
            Action::OpenOptions => after == self.options_opened() && fx == only(
                Effect::OpenComponent(Component::Options),
            ),
            Action::OpenSettings => after == self.settings_opened() && fx == only(
                Effect::OpenComponent(Component::Settings),
            ),
            Action::OpenInspector => after == self.inspecting() && fx == only(
                Effect::OpenComponent(Component::Inspector),
            ),
            Action::ToggleDebug => after == self.debug_toggled() && fx.len() == 0,
            Action::ToggleInsecure => after == self && fx == only(Effect::RebuildForInsecure),
            Action::ToggleEndpointInsecure => self.toggles_endpoint(after, fx),
            _ => after == self && fx.len() == 0,
        }
    }

    fn dispatch_session(&mut self, action: Action) -> (fx: Vec<Effect>)
        requires
            old(self).wf(),
        ensures
            old(self).acts_on_session(*final(self), action, fx@),
            final(self).wf(),
    {
        reveal(App::acts_on_session);
        match action {
            Action::OpenEnvEditor => self.open_env_editor(),
            Action::OpenOptions => self.open_options(),
            Action::OpenSettings => self.open_settings(),
            Action::OpenInspector => self.open_inspector(),
            Action::ToggleDebug => {
                self.toggle_debug();
                Vec::new()
            },
            Action::ToggleInsecure => self.toggle_insecure(),
            Action::ToggleEndpointInsecure => self.toggle_endpoint_insecure(),
            _ => Vec::new(),
        }
    }

    /// The edit of rows that an action asks for.
    pub open spec fn row_op(action: Action) -> RowOp {
        match action {
            Action::RowAdd => RowOp::Add,
            Action::RowDelete => RowOp::Delete,
            Action::RowToggle => RowOp::Toggle,
            _ => RowOp::Edit,
        }
    }

    /// What an action on the rows of the request does: where the body is shown in its
    /// editor, the key is the editor's.
    #[verifier::opaque]
    pub open spec fn acts_on_rows(self, after: App, action: Action, key: Option<KeyEvent>) -> bool {
        if self.panes.focus == Pane::Request && self.spec_body_text() {
            match key {
                Some(key) => self.body_fed(after, key),
                None => after == self,
            }
        } else {
            self.edits_rows(after, App::row_op(action))
        }
    }

    fn dispatch_rows(&mut self, action: Action, key: Option<KeyEvent>)
        requires
            old(self).wf(),
        ensures
            old(self).acts_on_rows(*final(self), action, key),
            final(self).wf(),
    {
        reveal(App::acts_on_rows);
        if self.panes.focus == Pane::Request && self.body_text_active() {
            if let Some(key) = key {
                self.body_editor_on_key(key);
            }
            return;
        }
        let op = match action {
            Action::RowAdd => RowOp::Add,
            Action::RowDelete => RowOp::Delete,
            Action::RowToggle => RowOp::Toggle,
            _ => RowOp::Edit,
        };
        self.edit_rows(op);
    }

    /// The change of tabs that an action asks for.
    pub open spec fn tab_op(action: Action) -> TabOp {
        match action {
            Action::TabNext => TabOp::Next,
            Action::TabPrev => TabOp::Prev,
            Action::Tab1 => TabOp::To(RequestTab::Params),
            Action::Tab2 => TabOp::To(RequestTab::Headers),
            Action::Tab3 => TabOp::To(RequestTab::Auth),
            _ => TabOp::To(RequestTab::Body),
        }
    }

    fn dispatch_tabs(&mut self, action: Action)
        requires
            old(self).wf(),
        ensures
            old(self).tabs_changed(*final(self), old(self).tabs_after(App::tab_op(action))),
            final(self).wf(),
    {
        let op = match action {
            Action::TabNext => TabOp::Next,
            Action::TabPrev => TabOp::Prev,
            Action::Tab1 => TabOp::To(RequestTab::Params),
            Action::Tab2 => TabOp::To(RequestTab::Headers),
            Action::Tab3 => TabOp::To(RequestTab::Auth),
            _ => TabOp::To(RequestTab::Body),
        };
        self.move_tabs(op);
    }

    /// What an action on the request does.
    #[verifier::opaque]
    pub open spec fn acts_on_request(
        self,
        after: App,
        action: Action,
        key: Option<KeyEvent>,
        fx: Seq<Effect>,
    ) -> bool {
        match action {
            Action::Send => self.sends(after, fx),
            Action::Cancel => self.cancels(after, fx),
            Action::Save => self.saves(after, fx),
            Action::EditUrl => self.edits_url(after) && fx.len() == 0,
            Action::MethodCycle => self.cycles_method(after) && fx.len() == 0,
            Action::MethodMenu => after == self.opens_methods() && fx.len() == 0,
            Action::TabNext | Action::TabPrev | Action::Tab1 | Action::Tab2 | Action::Tab3
            | Action::Tab4 => self.tabs_changed(after, self.tabs_after(App::tab_op(action)))
                && fx.len() == 0,
            Action::RowAdd | Action::RowDelete | Action::RowToggle | Action::RowEdit => {
                self.acts_on_rows(after, action, key) && fx.len() == 0
            },
            Action::CopyAsCurl => self.copies_curl(after, false, fx),
            Action::CopyAsCurlResolved => self.copies_curl(after, true, fx),
            _ => after == self && fx.len() == 0,
        }
    }

    fn dispatch_request(&mut self, action: Action, key: Option<KeyEvent>) -> (fx: Vec<Effect>)
        requires
            old(self).wf(),
        ensures
            old(self).acts_on_request(*final(self), action, key, fx@),
            final(self).wf(),
    {
        reveal(App::acts_on_request);
        match action {
            Action::Send => self.send_request(),
            Action::Cancel => self.cancel_request(),
            Action::Save => self.save_request(),
            Action::EditUrl => {
                self.begin_url_edit();
                Vec::new()
            },
            Action::MethodCycle => {
                self.cycle_method();
                Vec::new()
            },
            Action::MethodMenu => {
                self.open_method_menu();
                Vec::new()
            },
            Action::TabNext | Action::TabPrev | Action::Tab1 | Action::Tab2 | Action::Tab3
            | Action::Tab4 => {
                self.dispatch_tabs(action);
                Vec::new()
            },
            Action::RowAdd | Action::RowDelete | Action::RowToggle | Action::RowEdit => {
                self.dispatch_rows(action, key);
                Vec::new()
            },
            Action::CopyAsCurl => self.copy_as_curl(false),
            Action::CopyAsCurlResolved => self.copy_as_curl(true),
            _ => Vec::new(),
        }
    }

    /// What an action on the tree does. Where the list of sequences has the focus, the
    /// tree behind it is not touched: a new endpoint is a new sequence there, and a
    /// rename runs the sequence.
    #[verifier::opaque]
    pub open spec fn acts_on_tree(self, after: App, action: Action, fx: Seq<Effect>) -> bool {
        let sequences = self.panes.on_sequences();
        match action {
            Action::NewEndpoint => fx.len() == 0 && if sequences {
                self.prompts_sequence(after)
            } else {
                self.prompts_new(after, PromptPurpose::NewEndpoint)
            },
            Action::NewCollection => fx.len() == 0 && if sequences {
                after == self.told(Notice::NotInSequencesPane)
            } else {
                self.prompts_new(after, PromptPurpose::NewCollection)
            },
            Action::Rename => if sequences {
                self.runs_selected(after, fx)
            } else {
                self.prompts_rename(after) && fx.len() == 0
            },
            Action::Delete => fx.len() == 0 && if sequences {
                after == self.told(Notice::NotInSequencesPane)
            } else {
                self.asks_delete(after)
            },
            Action::NewEndpointPick => self.asks_directory(
                after,
                DestPurpose::CreateEndpoint,
                None,
                fx,
            ),
            Action::NewCollectionPick => self.asks_directory(
                after,
                DestPurpose::CreateCollection,
                None,
                fx,
            ),
            Action::MoveTo => self.asks_relocate(after, true, fx),
            Action::CopyTo => self.asks_relocate(after, false, fx),
            Action::Duplicate => self.duplicates(after, fx),
            Action::ReorderUp => self.reorders(after, ReorderDir::Up, fx),
            Action::ReorderDown => self.reorders(after, ReorderDir::Down, fx),
            Action::ImportCollection => self.prompts_import(after) && fx.len() == 0,
            Action::ExportCollectionPostman => self.prompts_export(after, JsonDialect::Postman)
                && fx.len() == 0,
            Action::ExportCollectionNative => self.prompts_export(after, JsonDialect::Native)
                && fx.len() == 0,
            Action::ExportWorkspacePostman => self.prompts_export_all(after, JsonDialect::Postman)
                && fx.len() == 0,
            Action::ExportWorkspaceNative => self.prompts_export_all(after, JsonDialect::Native)
                && fx.len() == 0,
            Action::PasteCurl => self.prompts_curl(after) && fx.len() == 0,
            _ => after == self && fx.len() == 0,
        }
    }

    fn dispatch_nodes(&mut self, action: Action) -> (fx: Vec<Effect>)
        requires
            old(self).wf(),
            action == Action::NewEndpoint || action == Action::NewCollection || action
                == Action::Rename || action == Action::Delete,
        ensures
            old(self).acts_on_tree(*final(self), action, fx@),
            final(self).wf(),
    {
        reveal(App::acts_on_tree);
        let sequences = self.panes.left_column_on_sequences();
        match action {
            Action::NewEndpoint => {
                if sequences {
                    self.new_sequence_prompt();
                } else {
                    self.begin_new_endpoint();
                }
                Vec::new()
            },
            Action::NewCollection => {
                if sequences {
                    self.message = Some(Notice::NotInSequencesPane);
                } else {
                    self.begin_new_collection();
                }
                Vec::new()
            },
            Action::Rename => if sequences {
                self.run_selected_sequence()
            } else {
                self.begin_rename();
                Vec::new()
            },
            _ => {
                if sequences {
                    self.message = Some(Notice::NotInSequencesPane);
                } else {
                    self.begin_delete();
                }
                Vec::new()
            },
        }
    }

    fn dispatch_tree(&mut self, action: Action) -> (fx: Vec<Effect>)
        requires
            old(self).wf(),
        ensures
            old(self).acts_on_tree(*final(self), action, fx@),
            final(self).wf(),
    {
        match action {
            Action::NewEndpoint | Action::NewCollection | Action::Rename | Action::Delete => {
                return self.dispatch_nodes(action);
            },
            _ => {},
        }
        reveal(App::acts_on_tree);
        match action {
            Action::NewEndpointPick => self.open_destination_picker(
                DestPurpose::CreateEndpoint,
                None,
            ),
            Action::NewCollectionPick => self.open_destination_picker(
                DestPurpose::CreateCollection,
                None,
            ),
            Action::MoveTo => self.begin_relocate(true),
            Action::CopyTo => self.begin_relocate(false),
            Action::Duplicate => self.duplicate_selected(),
            Action::ReorderUp => self.reorder_selected(ReorderDir::Up),
            Action::ReorderDown => self.reorder_selected(ReorderDir::Down),
            Action::ImportCollection => {
                self.begin_import_collection();
                Vec::new()
            },
            Action::ExportCollectionPostman => {
                self.begin_export_collection(JsonDialect::Postman);
                Vec::new()
            },
            Action::ExportCollectionNative => {
                self.begin_export_collection(JsonDialect::Native);
                Vec::new()
            },
            Action::ExportWorkspacePostman => {
                self.begin_export_workspace(JsonDialect::Postman);
                Vec::new()
            },
            Action::ExportWorkspaceNative => {
                self.begin_export_workspace(JsonDialect::Native);
                Vec::new()
            },
            Action::PasteCurl => {
                self.begin_paste_curl();
                Vec::new()
            },
            _ => Vec::new(),
        }
    }

    /// The state with another buffer shown.
    pub open spec fn buffer_shown(self, after: App, i: int) -> bool {
        &&& self.buffers.switched(i, after.buffers)
        &&& after == (App { buffers: after.buffers, ..self })
    }

    /// What showing the next or the previous buffer does.
    pub open spec fn cycles(self, after: App, forward: bool) -> bool {
        if self.buffers.list@.len() == 0 {
            after == self
        } else {
            self.buffer_shown(after, self.buffers.cycle_target(forward))
        }
    }

    /// Shows the next or the previous buffer, round the end.
    pub fn buffer_cycle(&mut self, forward: bool)
        requires
            old(self).wf(),
        ensures
            old(self).cycles(*final(self), forward),
            final(self).wf(),
    {
        self.buffers.buffer_cycle(forward);
    }

    /// Shows the `n`th buffer, counted from 1; where there is none, that is said.
    pub fn focus_buffer_index(&mut self, n: usize)
        requires
            old(self).wf(),
        ensures
            if 1 <= n <= old(self).buffers.list@.len() {
                old(self).buffer_shown(*final(self), n - 1)
            } else {
                *final(self) == old(self).told(Notice::NoTab { number: n as u64 })
            },
            final(self).wf(),
    {
        let notice = self.buffers.focus_buffer_index(n);
        self.notify_if(notice);
    }

    /// What an action on the open endpoints does.
    #[verifier::opaque]
    pub open spec fn acts_on_buffers(self, after: App, action: Action, fx: Seq<Effect>) -> bool {
        match action {
            Action::BufferNext => self.cycles(after, true) && fx.len() == 0,
            Action::BufferPrev => self.cycles(after, false) && fx.len() == 0,
            Action::BufferClose => self.closes(after, self.buffers.active, fx),
            Action::BufferCloseAll => self.closes_all(after, fx),
            _ => after == self && fx.len() == 0,
        }
    }

    fn dispatch_buffers(&mut self, action: Action) -> (fx: Vec<Effect>)
        requires
            old(self).wf(),
        ensures
            old(self).acts_on_buffers(*final(self), action, fx@),
            final(self).wf(),
    {
        reveal(App::acts_on_buffers);
        match action {
            Action::BufferNext => {
                self.buffer_cycle(true);
                Vec::new()
            },
            Action::BufferPrev => {
                self.buffer_cycle(false);
                Vec::new()
            },
            Action::BufferClose => {
                let i = self.buffers.active;
                self.close_buffer(i)
            },
            Action::BufferCloseAll => self.close_all_buffers(),
            _ => Vec::new(),
        }
    }

    /// Whether the list of sequences is the active half of the left column.
    pub open spec fn left_is_sequences(&self) -> bool {
        self.panes.left_active == LeftPane::Sequences && self.panes.sequences_shown
    }

    /// The left column with its cursor moved: that of the active half.
    pub open spec fn explorer_moved(self, action: Action) -> Explorer {
        let e = self.explorer;
        if self.left_is_sequences() {
            let n = e.sequences@.len();
            match action {
                Action::Up => Explorer { seq_cursor: cursor_up(e.seq_cursor), ..e },
                Action::Down => Explorer { seq_cursor: cursor_down(e.seq_cursor, n), ..e },
                Action::Top => Explorer { seq_cursor: 0, ..e },
                Action::Bottom => Explorer { seq_cursor: last_row(n), ..e },
                _ => e,
            }
        } else {
            let n = e.rows@.len();
            match action {
                Action::Up => Explorer { cursor: cursor_up(e.cursor), ..e },
                Action::Down => Explorer { cursor: cursor_down(e.cursor, n), ..e },
                Action::Top => Explorer { cursor: 0, ..e },
                Action::Bottom => Explorer { cursor: last_row(n), ..e },
                _ => e,
            }
        }
    }

    fn move_explorer(&mut self, action: Action)
        requires
            old(self).wf(),
        ensures
            *final(self) == (App { explorer: old(self).explorer_moved(action), ..*old(self) }),
            final(self).wf(),
    {
        if self.panes.left_active == LeftPane::Sequences && self.panes.sequences_shown {
            match action {
                Action::Up => self.explorer.seq_move_up(),
                Action::Down => self.explorer.seq_move_down(),
                Action::Top => self.explorer.seq_top(),
                Action::Bottom => self.explorer.seq_bottom(),
                _ => {},
            }
        } else {
            match action {
                Action::Up => self.explorer.move_up(),
                Action::Down => self.explorer.move_down(),
                Action::Top => self.explorer.top(),
                Action::Bottom => self.explorer.bottom(),
                _ => {},
            }
        }
    }

    /// What a moving action does in the left column: the cursor of the active half
    /// moves. The list of sequences is flat, and Select edits the sequence under its
    /// cursor; in the tree Select opens the row, and collections fold.
    #[verifier::opaque]
    pub open spec fn explorer_acts(self, after: App, action: Action, fx: Seq<Effect>) -> bool {
        match action {
            Action::Select => if self.left_is_sequences() {
                self.edits_selected(after, fx)
            } else {
                self.at_row(self.explorer.cursor).guards_load(
                    after,
                    PendingLoad::Row(self.explorer.cursor),
                    fx,
                )
            },
            Action::Collapse | Action::Expand => {
                &&& after == self
                &&& if self.left_is_sequences() {
                    fx.len() == 0
                } else {
                    fx == only(
                        Effect::Tree(
                            if action == Action::Collapse {
                                TreeWork::Collapse
                            } else {
                                TreeWork::Expand
                            },
                        ),
                    )
                }
            },
            _ => after == (App { explorer: self.explorer_moved(action), ..self }) && fx.len()
                == 0,
        }
    }

    /// Handles a moving action in the left column.
    pub fn explorer_action(&mut self, action: Action) -> (fx: Vec<Effect>)
        requires
            old(self).wf(),
        ensures
            old(self).explorer_acts(*final(self), action, fx@),
            final(self).wf(),
    {
        reveal(App::explorer_acts);
        let sequences = self.panes.left_active == LeftPane::Sequences
            && self.panes.sequences_shown;
        match action {
            Action::Select => if sequences {
                self.edit_selected_sequence()
            } else {
                let row = self.explorer.cursor;
                self.activate_explorer_row(row)
            },
            Action::Collapse => if sequences {
                Vec::new()
            } else {
                just(Effect::Tree(TreeWork::Collapse))
            },
            Action::Expand => if sequences {
                Vec::new()
            } else {
                just(Effect::Tree(TreeWork::Expand))
            },
            _ => {
                self.move_explorer(action);
                Vec::new()
            },
        }
    }

    /// What a moving action does: it goes where the focus is.
    #[verifier::opaque]
    pub open spec fn moves(
        self,
        after: App,
        action: Action,
        key: Option<KeyEvent>,
        line: Option<usize>,
        fx: Seq<Effect>,
    ) -> bool {
        match self.panes.focus {
            Pane::Explorer => self.explorer_acts(after, action, fx),
            Pane::UrlBar => after == self && fx.len() == 0,
            Pane::Request => self.navigates_request(after, action, key) && fx.len() == 0,
            Pane::Response => self.acts_on_view(after, Surface::Main, action, line, fx),
        }
    }

    fn dispatch_move(
        &mut self,
        action: Action,
        key: Option<KeyEvent>,
        line: Option<usize>,
    ) -> (fx: Vec<Effect>)
        requires
            old(self).wf(),
        ensures
            old(self).moves(*final(self), action, key, line, fx@),
            final(self).wf(),
    {
        reveal(App::moves);
        match self.panes.focus {
            Pane::Explorer => self.explorer_action(action),
            Pane::UrlBar => Vec::new(),
            Pane::Request => {
                self.request_nav(action, key);
                Vec::new()
            },
            Pane::Response => self.view_action(Surface::Main, action, line),
        }
    }

    /// What an action does. `key` is the key that asked for it, if one did.
    #[verifier::opaque]
    pub open spec fn dispatches(
        self,
        after: App,
        action: Action,
        key: Option<KeyEvent>,
        facts: Facts,
        fx: Seq<Effect>,
    ) -> bool {
        match spec_kind(action) {
            ActionKind::Panes => self.acts_on_panes(after, action, key, fx),
            ActionKind::Overlay => self.acts_on_overlays(after, action, facts.palette, fx),
            ActionKind::Session => self.acts_on_session(after, action, fx),
            ActionKind::Request => self.acts_on_request(after, action, key, fx),
            ActionKind::Tree => self.acts_on_tree(after, action, fx),
            ActionKind::View => if (action == Action::HalfPageDown || action
                == Action::HalfPageUp) && self.panes.focus != Pane::Response {
                after == self && fx.len() == 0
            } else {
                self.acts_on_view(after, Surface::Main, action, facts.line, fx)
            },
            ActionKind::Buffers => self.acts_on_buffers(after, action, fx),
            ActionKind::Move => self.moves(after, action, key, facts.line, fx),
        }
    }

    /// Does an action.
    pub fn dispatch(&mut self, action: Action, key: Option<KeyEvent>, facts: Facts) -> (fx: Vec<
        Effect,
    >)
        requires
            old(self).wf(),
        ensures
            old(self).dispatches(*final(self), action, key, facts, fx@),
            final(self).wf(),
    {
        reveal(App::dispatches);
        match kind_of(action) {
            ActionKind::Panes => self.dispatch_panes(action, key),
            ActionKind::Overlay => self.dispatch_overlays(action, facts.palette),
            ActionKind::Session => self.dispatch_session(action),
            ActionKind::Request => self.dispatch_request(action, key),
            ActionKind::Tree => self.dispatch_tree(action),
            ActionKind::View => if (action == Action::HalfPageDown || action
                == Action::HalfPageUp) && self.panes.focus != Pane::Response {
                Vec::new()
            } else {
                self.view_action(Surface::Main, action, facts.line)
            },
            ActionKind::Buffers => self.dispatch_buffers(action),
            ActionKind::Move => self.dispatch_move(action, key, facts.line),
        }
    }
}

/// The item at a place, if there is one.
pub open spec fn item_at<T>(list: Seq<T>, i: usize) -> Option<T> {
    if i < list.len() {
        Some(list[i as int])
    } else {
        None
    }
}

fn text_at(list: &Vec<String>, i: usize) -> (r: Option<String>)
    ensures
        r == item_at(list@, i),
{
    if i < list.len() {
        Some(list[i].clone())
    } else {
        None
    }
}

impl App {
    /// What the pick of an endpoint does: the focus goes to the tree, which is shown again
    /// where it was hidden, and the endpoint is to be opened, and then load-tested where
    /// that was asked for.
    #[verifier::opaque]
    pub open spec fn picks_endpoint(
        self,
        after: App,
        file: Option<String>,
        load: bool,
        fx: Seq<Effect>,
    ) -> bool {
        match file {
            None => after == self && fx.len() == 0,
            Some(file) => {
                &&& after == self.focused(Pane::Explorer)
                &&& fx == (if load {
                    seq![Effect::Tree(TreeWork::OpenFile(file)), Effect::ThenLoadRunner]
                } else {
                    only(Effect::Tree(TreeWork::OpenFile(file)))
                })
            },
        }
    }

    fn endpoint_picked(&mut self, file: Option<String>, load: bool) -> (fx: Vec<Effect>)
        requires
            old(self).wf(),
        ensures
            old(self).picks_endpoint(*final(self), file, load, fx@),
            final(self).wf(),
    {
        reveal(App::picks_endpoint);
        match file {
            None => Vec::new(),
            Some(file) => {
                self.set_focus(Pane::Explorer);
                if load {
                    let fx = vec![Effect::Tree(TreeWork::OpenFile(file)), Effect::ThenLoadRunner];
                    assert(fx@ =~= seq![
                        Effect::Tree(TreeWork::OpenFile(file)),
                        Effect::ThenLoadRunner,
                    ]);
                    fx
                } else {
                    just(Effect::Tree(TreeWork::OpenFile(file)))
                }
            },
        }
    }

    /// What the pick of a directory does: a prompt asks for the name of what is created
    /// in it, or what was to be moved or copied is.
    #[verifier::opaque]
    pub open spec fn picks_directory(
        self,
        after: App,
        dir: Option<String>,
        purpose: DestPurpose,
        source: Option<String>,
        fx: Seq<Effect>,
    ) -> bool {
        match (dir, purpose) {
            (None, _) => after == self && fx.len() == 0,
            (Some(dir), DestPurpose::CreateEndpoint) => App {
                pending_create_dir: Some(dir),
                ..self
            }.prompted(after, PromptPurpose::NewEndpoint, Seq::empty()) && fx.len() == 0,
            (Some(dir), DestPurpose::CreateCollection) => App {
                pending_create_dir: Some(dir),
                ..self
            }.prompted(after, PromptPurpose::NewCollection, Seq::empty()) && fx.len() == 0,
            (Some(dest), _) => after == self && match (source, self.workspace) {
                (Some(source), Some(ws)) => fx == only(
                    Effect::Disk(
                        match purpose {
                            DestPurpose::MoveEndpoint => DiskWork::RelocateEndpoint {
                                source,
                                dest,
                                is_move: true,
                            },
                            DestPurpose::CopyEndpoint => DiskWork::RelocateEndpoint {
                                source,
                                dest,
                                is_move: false,
                            },
                            DestPurpose::MoveCollection => DiskWork::RelocateCollection {
                                source,
                                dest,
                                is_move: true,
                                root: ws.root,
                            },
                            _ => DiskWork::RelocateCollection {
                                source,
                                dest,
                                is_move: false,
                                root: ws.root,
                            },
                        },
                    ),
                ),
                _ => fx.len() == 0,
            },
        }
    }

    fn prompt_in(&mut self, dir: String, purpose: PromptPurpose)
        requires
            old(self).wf(),
        ensures
            (App { pending_create_dir: Some(dir), ..*old(self) }).prompted(
                *final(self),
                purpose,
                Seq::empty(),
            ),
            final(self).wf(),
    {
        self.pending_create_dir = Some(dir);
        proof {
            reveal_strlit("");
            assert(""@ =~= Seq::<char>::empty());
        }
        self.open_prompt(purpose, "");
    }

    fn directory_picked(
        &mut self,
        dir: Option<String>,
        purpose: DestPurpose,
        source: Option<String>,
    ) -> (fx: Vec<Effect>)
        requires
            old(self).wf(),
        ensures
            old(self).picks_directory(*final(self), dir, purpose, source, fx@),
            final(self).wf(),
    {
        reveal(App::picks_directory);
        let dest = match dir {
            Some(dir) => dir,
            None => {
                return Vec::new();
            },
        };
        match purpose {
            DestPurpose::CreateEndpoint => {
                self.prompt_in(dest, PromptPurpose::NewEndpoint);
                return Vec::new();
            },
            DestPurpose::CreateCollection => {
                self.prompt_in(dest, PromptPurpose::NewCollection);
                return Vec::new();
            },
            _ => {},
        }
        match (source, &self.workspace) {
            (Some(source), Some(ws)) => {
                let work = match purpose {
                    DestPurpose::MoveEndpoint => DiskWork::RelocateEndpoint {
                        source,
                        dest,
                        is_move: true,
                    },
                    DestPurpose::CopyEndpoint => DiskWork::RelocateEndpoint {
                        source,
                        dest,
                        is_move: false,
                    },
                    DestPurpose::MoveCollection => DiskWork::RelocateCollection {
                        source,
                        dest,
                        is_move: true,
                        root: ws.root.clone(),
                    },
                    _ => DiskWork::RelocateCollection {
                        source,
                        dest,
                        is_move: false,
                        root: ws.root.clone(),
                    },
                };
                just(Effect::Disk(work))
            },
            _ => Vec::new(),
        }
    }

    /// What the pick of an item does, once the list has closed.
    #[verifier::opaque]
    pub open spec fn picks(
        self,
        after: App,
        choices: Choices,
        i: usize,
        load: bool,
        facts: Facts,
        fx: Seq<Effect>,
    ) -> bool {
        match choices {
            Choices::Endpoints(files) => self.picks_endpoint(after, item_at(files@, i), load, fx),
            Choices::Actions(actions) => match item_at(actions@, i) {
                Some(action) => self.dispatches(after, action, None, facts, fx),
                None => after == self && fx.len() == 0,
            },
            Choices::Profiles(profiles) => {
                &&& match item_at(profiles@, i) {
                    Some(profile) => after == (App { active_profile: profile, ..self }),
                    None => after == self,
                }
                &&& fx.len() == 0
            },
            Choices::Workspaces(roots) => match item_at(roots@, i) {
                Some(root) => self.guards_load(after, PendingLoad::Workspace(root), fx),
                None => after == self && fx.len() == 0,
            },
            Choices::Sequences { files, run } => {
                &&& after == self
                &&& match item_at(files@, i) {
                    Some(file) => fx == only(
                        Effect::Disk(
                            if run {
                                DiskWork::LoadSequenceToRun(file)
                            } else {
                                DiskWork::LoadSequenceToEdit(file)
                            },
                        ),
                    ),
                    None => fx.len() == 0,
                }
            },
            Choices::AuthKinds => self.sets_auth(after, i) && fx.len() == 0,
            Choices::BodyTypes => self.sets_body(after, i) && fx.len() == 0,
            Choices::Destinations { dirs, purpose, source } => self.picks_directory(
                after,
                item_at(dirs@, i),
                purpose,
                source,
                fx,
            ),
        }
    }

    /// Makes a profile the active one, or none.
    pub fn set_profile(&mut self, profile: Option<String>)
        ensures
            *final(self) == (App { active_profile: profile, ..*old(self) }),
            old(self).wf() ==> final(self).wf(),
    {
        self.active_profile = profile;
    }

    fn profile_picked(&mut self, profiles: &Vec<Option<String>>, i: usize)
        requires
            old(self).wf(),
        ensures
            *final(self) == (match item_at(profiles@, i) {
                Some(profile) => App { active_profile: profile, ..*old(self) },
                None => *old(self),
            }),
            final(self).wf(),
    {
        if i < profiles.len() {
            let profile = copy_text(&profiles[i]);
            self.set_profile(profile);
        }
    }

    fn item_picked(&mut self, choices: Choices, i: usize, load: bool, facts: Facts) -> (fx: Vec<
        Effect,
    >)
        requires
            old(self).wf(),
        ensures
            old(self).picks(*final(self), choices, i, load, facts, fx@),
            final(self).wf(),
    {
        reveal(App::picks);
        match choices {
            Choices::Endpoints(files) => {
                let file = text_at(&files, i);
                self.endpoint_picked(file, load)
            },
            Choices::Actions(actions) => if i < actions.len() {
                let action = actions[i];
                self.dispatch(action, None, facts)
            } else {
                Vec::new()
            },
            Choices::Profiles(profiles) => {
                self.profile_picked(&profiles, i);
                Vec::new()
            },
            Choices::Workspaces(roots) => match text_at(&roots, i) {
                Some(root) => self.guarded_load(PendingLoad::Workspace(root)),
                None => Vec::new(),
            },
            Choices::Sequences { files, run } => match text_at(&files, i) {
                Some(file) => if run {
                    just(Effect::Disk(DiskWork::LoadSequenceToRun(file)))
                } else {
                    just(Effect::Disk(DiskWork::LoadSequenceToEdit(file)))
                },
                None => Vec::new(),
            },
            Choices::AuthKinds => {
                self.set_auth_kind(i);
                Vec::new()
            },
            Choices::BodyTypes => {
                self.set_body_type(i);
                Vec::new()
            },
            Choices::Destinations { dirs, purpose, source } => {
                let dir = text_at(&dirs, i);
                self.directory_picked(dir, purpose, source)
            },
        }
    }

    /// What accepting the pick does: the list closes, whatever was picked, and then the
    /// pick does its work.
    #[verifier::opaque]
    pub open spec fn accepts(self, after: App, facts: Facts, fx: Seq<Effect>) -> bool {
        match self.picker {
            None => after == self.overlay_closed() && fx.len() == 0,
            Some(p) => match p.spec_current() {
                None => after == self.overlay_closed() && fx.len() == 0,
                Some(i) => self.overlay_closed().picks(
                    after,
                    p.choices,
                    i,
                    self.load_runner_after_pick,
                    facts,
                    fx,
                ),
            },
        }
    }

    /// Accepts the pick.
    pub fn accept_overlay(&mut self, facts: Facts) -> (fx: Vec<Effect>)
        requires
            old(self).wf(),
        ensures
            old(self).accepts(*final(self), facts, fx@),
            final(self).wf(),
    {
        reveal(App::accepts);
        let load = self.load_runner_after_pick;
        let taken = self.picker.take();
        self.close_overlay();
        assert(*self == old(self).overlay_closed());
        match taken {
            None => Vec::new(),
            Some(p) => match p.current() {
                None => Vec::new(),
                Some(i) => self.item_picked(p.choices, i, load, facts),
            },
        }
    }

    /// What a key does in a list to pick from.
    #[verifier::opaque]
    pub open spec fn list_keyed(
        self,
        after: App,
        key: KeyEvent,
        facts: Facts,
        fx: Seq<Effect>,
    ) -> bool {
        if self.picker is Some && spec_picker_key(key) == PickerKey::Accept {
            self.accepts(after, facts, fx)
        } else {
            self.overlay_keyed(after, key, fx)
        }
    }

    /// Handles a key in a list to pick from.
    pub fn handle_overlay_key(&mut self, key: KeyEvent, facts: Facts) -> (fx: Vec<Effect>)
        requires
            old(self).wf(),
        ensures
            old(self).list_keyed(*final(self), key, facts, fx@),
            final(self).wf(),
    {
        reveal(App::list_keyed);
        if self.picker.is_some() && picker_key(key) == PickerKey::Accept {
            self.accept_overlay(facts)
        } else {
            self.move_in_overlay(key)
        }
    }

    /// What follows the opening of an endpoint that was picked to be load-tested: the
    /// load runner opens, unless a question about unsaved changes came up, so that it
    /// never runs over the endpoint that was open before.
    #[verifier::opaque]
    pub open spec fn then_loads(self, after: App, fx: Seq<Effect>) -> bool {
        if self.mode == Mode::Confirm(ConfirmPurpose::DiscardChanges) {
            after == self && fx.len() == 0
        } else {
            self.opens_load(after, fx)
        }
    }

    /// Opens the load runner over the endpoint that was picked.
    pub fn load_runner_after_open(&mut self) -> (fx: Vec<Effect>)
        requires
            old(self).wf(),
        ensures
            old(self).then_loads(*final(self), fx@),
            final(self).wf(),
    {
        reveal(App::then_loads);
        if self.mode == Mode::Confirm(ConfirmPurpose::DiscardChanges) {
            Vec::new()
        } else {
            self.open_load_runner()
        }
    }

    /// The action that a key means even while text is edited: sending and quitting,
    /// where they are bound to a key with Control.
    pub open spec fn intercepts(&self, key: KeyEvent) -> Option<Action> {
        match self.keymap.spec_lookup(key) {
            Some(action) if key.modifiers.control && (action == Action::Send || action
                == Action::Quit) => Some(action),
            _ => None,
        }
    }

    /// The action that a key means even while text is edited.
    pub fn control_intercept(&self, key: KeyEvent) -> (r: Option<Action>)
        ensures
            r == self.intercepts(key),
    {
        if !key.modifiers.control {
            return None;
        }
        match self.keymap.lookup(key) {
            Some(action) => if action == Action::Send || action == Action::Quit {
                Some(action)
            } else {
                None
            },
            None => None,
        }
    }

    /// What a key does while a chord is under way. Esc goes back one level, and from
    /// the first it ends the chord; a key that is bound does its action and ends the
    /// chord; a submenu opens; every other key ends the chord.
    #[verifier::opaque]
    pub open spec fn leader_keyed(
        self,
        after: App,
        key: KeyEvent,
        facts: Facts,
        fx: Seq<Effect>,
    ) -> bool {
        let ended = App { leader: None, ..self };
        match self.leader {
            None => after == self && fx.len() == 0,
            Some(LeaderState::Root) => if key.code == Key::Esc {
                after == ended && fx.len() == 0
            } else {
                match self.keymap.spec_leader_root(key) {
                    Some(LeaderEntry::Act(action)) => ended.dispatches(
                        after,
                        action,
                        Some(key),
                        facts,
                        fx,
                    ),
                    Some(LeaderEntry::Submenu(menu)) => after == (App {
                        leader: Some(LeaderState::Submenu(menu)),
                        ..self
                    }) && fx.len() == 0,
                    None => after == ended && fx.len() == 0,
                }
            },
            Some(LeaderState::Submenu(menu)) => if key.code == Key::Esc {
                after == (App { leader: Some(LeaderState::Root), ..self }) && fx.len() == 0
            } else {
                match self.keymap.spec_leader_sub(menu, key) {
                    Some(action) => ended.dispatches(after, action, Some(key), facts, fx),
                    None => after == ended && fx.len() == 0,
                }
            },
        }
    }

    fn end_leader(&mut self)
        requires
            old(self).wf(),
        ensures
            *final(self) == (App { leader: None, ..*old(self) }),
            final(self).wf(),
    {
        self.leader = None;
    }

    /// Handles a key while a chord is under way.
    pub fn handle_leader_key(&mut self, key: KeyEvent, facts: Facts) -> (fx: Vec<Effect>)
        requires
            old(self).wf(),
        ensures
            old(self).leader_keyed(*final(self), key, facts, fx@),
            final(self).wf(),
    {
        reveal(App::leader_keyed);
        let state = match self.leader {
            Some(state) => state,
            None => {
                return Vec::new();
            },
        };
        let found = match state {
            LeaderState::Root => {
                if key.code == Key::Esc {
                    self.leader = None;
                    return Vec::new();
                }
                match self.keymap.leader_root_lookup(key) {
                    Some(LeaderEntry::Act(action)) => Some(action),
                    Some(LeaderEntry::Submenu(menu)) => {
                        self.leader = Some(LeaderState::Submenu(menu));
                        return Vec::new();
                    },
                    None => None,
                }
            },
            LeaderState::Submenu(menu) => {
                if key.code == Key::Esc {
                    self.leader = Some(LeaderState::Root);
                    return Vec::new();
                }
                self.keymap.leader_sub_lookup(menu, key)
            },
        };
        self.end_leader();
        match found {
            Some(action) => self.dispatch(action, Some(key), facts),
            None => Vec::new(),
        }
    }

    /// Whether text is typed in the normal mode: the URL in its bar, a field of a row,
    /// or the body in its editor.
    pub open spec fn typing(&self) -> Option<TypingIn> {
        if self.spec_url_editing() {
            Some(TypingIn::Url)
        } else if self.panes.focus == Pane::Request && self.spec_row_editing() {
            Some(TypingIn::Row)
        } else if self.panes.focus == Pane::Request && self.spec_body_text()
            && self.spec_body_typing() {
            Some(TypingIn::Body)
        } else {
            None
        }
    }

    fn typing_in(&self) -> (r: Option<TypingIn>)
        ensures
            r == self.typing(),
    {
        if self.url_editor_active() {
            Some(TypingIn::Url)
        } else if self.panes.focus == Pane::Request && self.tabs_editing_active() {
            Some(TypingIn::Row)
        } else if self.panes.focus == Pane::Request && self.body_text_active()
            && self.body_editor_non_normal() {
            Some(TypingIn::Body)
        } else {
            None
        }
    }

    /// The editor whose motions are offered a key before anything else sees it: that of
    /// the popup, or that of the body, in its normal mode.
    pub open spec fn offers_motion(&self, key: KeyEvent) -> Option<MotionIn> {
        if self.help.open {
            None
        } else if self.spec_popup() {
            if self.offers_popup_motion(key) {
                Some(MotionIn::Popup)
            } else {
                None
            }
        } else if self.leader is None && self.mode == Mode::Normal && self.typing() is None
            && self.panes.focus == Pane::Request && self.spec_body_text() {
            Some(MotionIn::Body)
        } else {
            None
        }
    }

    /// The editor whose motions are to be offered a key.
    pub fn motion_offered(&self, key: KeyEvent) -> (r: Option<MotionIn>)
        requires
            self.wf(),
        ensures
            r == self.offers_motion(key),
    {
        if self.help.open {
            return None;
        }
        if self.url_popup_active() {
            let mode = match &self.buffers.list[self.buffers.active].url_popup {
                Some(e) => e.mode(),
                None => EditorMode::Normal,
            };
            if mode == EditorMode::Normal && key.code != Key::Enter {
                return Some(MotionIn::Popup);
            }
            return None;
        }
        if self.leader.is_none() && self.mode == Mode::Normal && self.typing_in().is_none()
            && self.panes.focus == Pane::Request && self.body_text_active() {
            Some(MotionIn::Body)
        } else {
            None
        }
    }

    /// What a key types: into the URL, the field or the body.
    #[verifier::opaque]
    pub open spec fn types(self, after: App, place: TypingIn, key: KeyEvent) -> bool {
        match place {
            TypingIn::Url => self.url_keyed(after, key),
            TypingIn::Row => self.edits_rows(after, RowOp::Key(key)),
            TypingIn::Body => self.body_fed(after, key),
        }
    }

    fn type_key(&mut self, place: TypingIn, key: KeyEvent)
        requires
            old(self).wf(),
        ensures
            old(self).types(*final(self), place, key),
            final(self).wf(),
    {
        reveal(App::types);
        match place {
            TypingIn::Url => self.handle_url_edit_key(key),
            TypingIn::Row => self.edit_rows(RowOp::Key(key)),
            TypingIn::Body => self.body_editor_on_key(key),
        }
    }

    /// What a key does in the normal mode. While text is typed it types, but for
    /// sending and quitting. Else a motion of the body's editor takes it; then it may
    /// begin a chord; then it means what the pane with the focus, or else the whole
    /// application, binds it to; and an unbound key is the editor's where the body is
    /// shown in it.
    #[verifier::opaque]
    pub open spec fn normal_keyed(
        self,
        after: App,
        key: KeyEvent,
        facts: Facts,
        fx: Seq<Effect>,
    ) -> bool {
        let on_body = self.panes.focus == Pane::Request && self.spec_body_text();
        match self.typing() {
            Some(place) => match self.intercepts(key) {
                Some(action) => self.dispatches(after, action, Some(key), facts, fx),
                None => self.types(after, place, key) && fx.len() == 0,
            },
            None => if on_body && facts.motion {
                after == self && fx.len() == 0
            } else if key == self.keymap.leader {
                after == (App { leader: Some(LeaderState::Root), ..self }) && fx.len() == 0
            } else {
                match self.keymap.spec_lookup_ctx(key, self.panes.focus.spec_ctx()) {
                    Some(action) => self.dispatches(after, action, Some(key), facts, fx),
                    None => fx.len() == 0 && if on_body {
                        self.body_fed(after, key)
                    } else {
                        after == self
                    },
                }
            },
        }
    }

    fn handle_bound_key(&mut self, key: KeyEvent, facts: Facts) -> (fx: Vec<Effect>)
        requires
            old(self).wf(),
            old(self).typing() is None,
        ensures
            old(self).normal_keyed(*final(self), key, facts, fx@),
            final(self).wf(),
    {
        reveal(App::normal_keyed);
        let on_body = self.panes.focus == Pane::Request && self.body_text_active();
        if on_body && facts.motion {
            return Vec::new();
        }
        if self.keymap.is_leader(key) {
            self.leader = Some(LeaderState::Root);
            return Vec::new();
        }
        let ctx = self.panes.focus.ctx();
        match self.keymap.lookup_ctx(key, ctx) {
            Some(action) => self.dispatch(action, Some(key), facts),
            None => {
                if on_body {
                    self.body_editor_on_key(key);
                }
                Vec::new()
            },
        }
    }

    /// Handles a key in the normal mode.
    pub fn handle_normal_key(&mut self, key: KeyEvent, facts: Facts) -> (fx: Vec<Effect>)
        requires
            old(self).wf(),
        ensures
            old(self).normal_keyed(*final(self), key, facts, fx@),
            final(self).wf(),
    {
        match self.typing_in() {
            Some(place) => {
                reveal(App::normal_keyed);
                match self.control_intercept(key) {
                    Some(action) => self.dispatch(action, Some(key), facts),
                    None => {
                        self.type_key(place, key);
                        Vec::new()
                    },
                }
            },
            None => self.handle_bound_key(key, facts),
        }
    }

    /// What a key does in the help.
    #[verifier::opaque]
    pub open spec fn help_keyed(self, after: App, key: KeyEvent, fx: Seq<Effect>) -> bool {
        &&& after == (App { help: after.help, ..self })
        &&& exists|ask: HelpAsk|
            #[trigger] self.help.keyed(after.help, key, ask) && fx == (match ask {
                HelpAsk::Nothing => Seq::empty(),
                HelpAsk::Search => only(Effect::SearchHelp),
            })
    }

    /// Handles a key in the help.
    pub fn handle_help_key(&mut self, key: KeyEvent) -> (fx: Vec<Effect>)
        requires
            old(self).wf(),
        ensures
            old(self).help_keyed(*final(self), key, fx@),
            final(self).wf(),
    {
        reveal(App::help_keyed);
        let ask = self.help.handle_help_key(key);
        assert(old(self).help.keyed(self.help, key, ask));
        match ask {
            HelpAsk::Nothing => {
                let fx: Vec<Effect> = Vec::new();
                assert(fx@ =~= Seq::empty());
                fx
            },
            HelpAsk::Search => just(Effect::SearchHelp),
        }
    }

    /// What a key does in a mode.
    #[verifier::opaque]
    pub open spec fn mode_keyed(
        self,
        after: App,
        key: KeyEvent,
        facts: Facts,
        fx: Seq<Effect>,
    ) -> bool {
        match self.mode {
            Mode::Search | Mode::Palette | Mode::WorkspacePicker | Mode::SequencePicker => {
                self.list_keyed(after, key, facts, fx)
            },
            Mode::Jump => self.jump_keyed(after, key, fx),
            Mode::MethodMenu => self.method_keyed(after, key, facts.menu_method) && fx.len() == 0,
            Mode::BodySearch => self.searches(after, key, fx),
            Mode::Prompt(purpose) => self.prompt_keyed(after, key, purpose, fx),
            Mode::Confirm(purpose) => self.confirm_keyed(after, key, purpose, fx),
            Mode::EnvEditor => self.environments_keyed(after, key, fx),
            Mode::Sequence => self.sequence_keyed(
                after,
                key,
                facts.on_response,
                facts.line,
                facts.checked,
                fx,
            ),
            Mode::LoadRunner => self.load_keyed(after, key, facts.on_response, facts.line, fx),
            Mode::Options => after == self && self.handed_on(
                Mode::Options,
                Component::Options,
                key,
                fx,
            ),
            Mode::Settings => after == self && self.handed_on(
                Mode::Settings,
                Component::Settings,
                key,
                fx,
            ),
            Mode::Inspector => after == self && self.handed_on(
                Mode::Inspector,
                Component::Inspector,
                key,
                fx,
            ),
            Mode::FilePicker => self.files_keyed(after, key, fx),
            Mode::Normal => self.normal_keyed(after, key, facts, fx),
        }
    }

    fn handle_mode_key(&mut self, key: KeyEvent, facts: Facts) -> (fx: Vec<Effect>)
        requires
            old(self).wf(),
        ensures
            old(self).mode_keyed(*final(self), key, facts, fx@),
            final(self).wf(),
    {
        reveal(App::mode_keyed);
        match self.mode {
            Mode::Search | Mode::Palette | Mode::WorkspacePicker | Mode::SequencePicker => {
                self.handle_overlay_key(key, facts)
            },
            Mode::Jump => self.handle_jump_key(key),
            Mode::MethodMenu => {
                self.handle_method_menu_key(key, facts.menu_method);
                Vec::new()
            },
            Mode::BodySearch => self.handle_body_search_key(key),
            Mode::Prompt(purpose) => self.handle_prompt_key(key, purpose),
            Mode::Confirm(purpose) => self.handle_confirm_key(key, purpose),
            Mode::EnvEditor => self.handle_env_editor_key(key),
            Mode::Sequence => self.handle_sequence_key(
                key,
                facts.on_response,
                facts.line,
                facts.checked,
            ),
            Mode::LoadRunner => self.handle_load_runner_key(key, facts.on_response, facts.line),
            Mode::Options => self.handle_options_key(key),
            Mode::Settings => self.handle_settings_key(key),
            Mode::Inspector => self.handle_inspector_key(key),
            Mode::FilePicker => self.handle_file_picker_key(key),
            Mode::Normal => self.handle_normal_key(key, facts),
        }
    }

    /// What a key does. The help has every key while it is open; then the popup of the
    /// URL; then a chord that is under way; then the mode decides.
    #[verifier::opaque]
    pub open spec fn keyed(
        self,
        after: App,
        key: KeyEvent,
        facts: Facts,
        fx: Seq<Effect>,
    ) -> bool {
        if self.help.open {
            self.help_keyed(after, key, fx)
        } else if self.spec_popup() {
            self.popup_keyed(after, key, facts.motion) && fx.len() == 0
        } else if self.leader is Some {
            self.leader_keyed(after, key, facts, fx)
        } else {
            self.mode_keyed(after, key, facts, fx)
        }
    }

    /// Handles a key.
    pub fn handle_key(&mut self, key: KeyEvent, facts: Facts) -> (fx: Vec<Effect>)
        requires
            old(self).wf(),
        ensures
            old(self).keyed(*final(self), key, facts, fx@),
            final(self).wf(),
    {
        reveal(App::keyed);
        if self.help.open {
            self.handle_help_key(key)
        } else if self.url_popup_active() {
            self.handle_url_popup_key(key, facts.motion);
            Vec::new()
        } else if self.leader.is_some() {
            self.handle_leader_key(key, facts)
        } else {
            self.handle_mode_key(key, facts)
        }
    }
}

/// Where text is typed in the normal mode.
#[derive(Debug, Clone, Copy, PartialEq, Eq, Structural)]
pub enum TypingIn {
    /// The URL in its bar.
    Url,
    /// A field of a row.
    Row,
    /// The body in its editor.
    Body,
}

impl App {
    /// What a message of the work in the background does.
    #[verifier::opaque]
    pub open spec fn messaged(self, after: App, msg: AppMsg, fx: Seq<Effect>) -> bool {
        match msg {
            AppMsg::Redraw => after == self && fx.len() == 0,
            AppMsg::Response { generation, outcome, meta } => self.answers(
                after,
                generation,
                outcome,
                meta,
                fx,
            ),
            AppMsg::Highlighted { hash, lines } => self.highlighted(after, hash, lines)
                && fx.len() == 0,
            AppMsg::SequenceStep { run_generation, index, outcome } => self.step_lands(
                after,
                run_generation,
                index,
                outcome,
                fx,
            ),
            AppMsg::LoadStarted { run_generation, index, now_ms } => self.copy_starts(
                after,
                run_generation,
                index,
                now_ms,
            ) && fx.len() == 0,
            AppMsg::LoadResult { run_generation, index, outcome, latency } => self.copy_lands(
                after,
                run_generation,
                index,
                outcome,
                latency,
                fx,
            ),
        }
    }

    /// Takes in a message of the work in the background.
    pub fn handle_msg(&mut self, msg: AppMsg) -> (fx: Vec<Effect>)
        requires
            old(self).wf(),
            msg matches AppMsg::SequenceStep { run_generation, index, outcome } ==> (
            outcome matches Ok(l) ==> l.extracted.wf()),
        ensures
            old(self).messaged(*final(self), msg, fx@),
            final(self).wf(),
    {
        reveal(App::messaged);
        match msg {
            AppMsg::Redraw => Vec::new(),
            AppMsg::Response { generation, outcome, meta } => self.on_response(
                generation,
                outcome,
                meta,
            ),
            AppMsg::Highlighted { hash, lines } => {
                self.cache_highlighted(hash, lines);
                Vec::new()
            },
            AppMsg::SequenceStep { run_generation, index, outcome } => self.on_sequence_step(
                run_generation,
                index,
                outcome,
            ),
            AppMsg::LoadStarted { run_generation, index, now_ms } => {
                self.on_load_started(run_generation, index, now_ms);
                Vec::new()
            },
            AppMsg::LoadResult { run_generation, index, outcome, latency } => self.on_load_result(
                run_generation,
                index,
                outcome,
                latency,
            ),
        }
    }
}

/// Esc goes back one level of a chord, and from the first level it ends the chord; it
/// does nothing else.
pub proof fn law_esc_backs_out_of_a_chord(
    a: App,
    b: App,
    c: App,
    key: KeyEvent,
    f: Facts,
    g: Facts,
    fx: Seq<Effect>,
    gx: Seq<Effect>,
)
    requires
        key.code == Key::Esc,
        a.leader matches Some(LeaderState::Submenu(_)),
        a.leader_keyed(b, key, f, fx),
        b.leader_keyed(c, key, g, gx),
    ensures
        b == (App { leader: Some(LeaderState::Root), ..a }),
        c == (App { leader: None, ..a }),
        fx.len() == 0,
        gx.len() == 0,
{
    reveal(App::leader_keyed);
}

/// A key that does an action or is not bound ends the chord before the action is done:
/// only a submenu, and Esc in one, leave a chord under way.
pub proof fn law_unbound_key_ends_a_chord(a: App, b: App, key: KeyEvent, f: Facts, fx: Seq<Effect>)
    requires
        key.code != Key::Esc,
        a.leader matches Some(s) && match s {
            LeaderState::Root => a.keymap.spec_leader_root(key) is None,
            LeaderState::Submenu(menu) => a.keymap.spec_leader_sub(menu, key) is None,
        },
        a.leader_keyed(b, key, f, fx),
    ensures
        b == (App { leader: None, ..a }),
        fx.len() == 0,
{
    reveal(App::leader_keyed);
}

/// While text is edited, a key does an action only where Control is held and the action
/// is to send or to quit.
pub proof fn law_only_send_and_quit_reach_through(a: App, key: KeyEvent)
    requires
        a.intercepts(key) is Some,
    ensures
        key.modifiers.control,
        a.intercepts(key) == Some(Action::Send) || a.intercepts(key) == Some(Action::Quit),
        a.intercepts(key) == a.keymap.spec_lookup(key),
{
}

/// While the help is open it has every key: nothing else changes.
pub proof fn law_help_has_every_key(a: App, b: App, key: KeyEvent, f: Facts, fx: Seq<Effect>)
    requires
        a.help.open,
        a.keyed(b, key, f, fx),
    ensures
        b == (App { help: b.help, ..a }),
{
    reveal(App::keyed);
    reveal(App::help_keyed);
}

/// A key that is typed begins no chord and ends nothing.
pub proof fn law_typed_key_begins_no_chord(
    a: App,
    b: App,
    key: KeyEvent,
    f: Facts,
    fx: Seq<Effect>,
)
    requires
        a.typing() is Some,
        a.intercepts(key) is None,
        a.normal_keyed(b, key, f, fx),
    ensures
        b.leader == a.leader,
        b.should_quit == a.should_quit,
        fx.len() == 0,
{
    reveal(App::normal_keyed);
    reveal(App::types);
    reveal(App::url_keyed);
    reveal(App::commits_url);
    reveal(App::edits_rows);
    reveal(App::body_fed);
}

/// Ctrl-C cancels a request in flight in place of ending the application; without one
/// it ends it.
pub proof fn law_interrupt_cancels_first(
    a: App,
    b: App,
    key: KeyEvent,
    f: Facts,
    fx: Seq<Effect>,
)
    requires
        key.code == Key::Char('c'),
        key.modifiers.control,
        a.dispatches(b, Action::Quit, Some(key), f, fx),
    ensures
        a.flying() ==> b.should_quit == a.should_quit,
        !a.flying() ==> b.should_quit,
{
    reveal(App::dispatches);
    reveal(App::acts_on_panes);
    reveal(App::cancels);
}

/// A list that is left drops the wish to load-test what is picked.
pub proof fn law_left_list_drops_the_wish(a: App, b: App, key: KeyEvent, f: Facts, fx: Seq<Effect>)
    requires
        key.code == Key::Esc,
        a.list_keyed(b, key, f, fx),
    ensures
        !b.load_runner_after_pick,
        b.picker is None,
        b.mode == Mode::Normal,
{
    reveal(App::list_keyed);
    reveal(App::overlay_keyed);
}

/// Where the list of sequences has the focus, an action on the tree changes neither the
/// tree nor its cursor, and no row of it.
pub proof fn law_sequences_pane_spares_the_tree(a: App, b: App, action: Action, fx: Seq<Effect>)
    requires
        a.panes.on_sequences(),
        action == Action::NewCollection || action == Action::Delete,
        a.acts_on_tree(b, action, fx),
    ensures
        b == a.told(Notice::NotInSequencesPane),
        fx.len() == 0,
{
    reveal(App::acts_on_tree);
}

/// The load runner never opens over the endpoint that was open before, while a question
/// about unsaved changes waits.
pub proof fn law_question_defers_the_load_runner(a: App, b: App, fx: Seq<Effect>)
    requires
        a.mode == Mode::Confirm(ConfirmPurpose::DiscardChanges),
        a.then_loads(b, fx),
    ensures
        b == a,
        fx.len() == 0,
{
    reveal(App::then_loads);
}

/// An action on the panes does what it is named after: a focus goes to its pane, to the next or
/// to the one before, and Zoom, Help, the leader key and Quit are what they say.
pub proof fn law_pane_actions_are_as_named(
    a: App,
    b: App,
    action: Action,
    key: Option<KeyEvent>,
    facts: Facts,
    fx: Seq<Effect>,
)
    requires
        a.dispatches(b, action, key, facts, fx),
    ensures
        action == Action::FocusExplorer ==> b.panes.focus == Pane::Explorer,
        action == Action::FocusUrlBar ==> b.panes.focus == Pane::UrlBar,
        action == Action::FocusRequest ==> b.panes.focus == Pane::Request,
        action == Action::FocusResponse ==> b.panes.focus == Pane::Response,
        action == Action::FocusNext && a.panes.focus == Pane::Explorer ==> b.panes.focus
            == Pane::UrlBar,
        action == Action::FocusNext && a.panes.focus == Pane::UrlBar ==> b.panes.focus
            == Pane::Request,
        action == Action::FocusNext && a.panes.focus == Pane::Request ==> b.panes.focus
            == Pane::Response,
        action == Action::FocusNext && a.panes.focus == Pane::Response ==> b.panes.focus
            == Pane::Explorer,
        action == Action::FocusPrev && a.panes.focus == Pane::Explorer ==> b.panes.focus
            == Pane::Response,
        action == Action::FocusPrev && a.panes.focus == Pane::Response ==> b.panes.focus
            == Pane::Request,
        action == Action::FocusPrev && a.panes.focus == Pane::Request ==> b.panes.focus
            == Pane::UrlBar,
        action == Action::FocusPrev && a.panes.focus == Pane::UrlBar ==> b.panes.focus
            == Pane::Explorer,
        action == Action::ToggleExplorer ==> b.panes.explorer_hidden != a.panes.explorer_hidden,
        action == Action::ToggleSequencesPane ==> b.panes.sequences_shown
            != a.panes.sequences_shown,
        action == Action::Zoom && a.panes.focus == Pane::Response && a.panes.zoom is None
            ==> b.panes.zoom == Some(crate::pane::ZoomPane::Response),
        action == Action::Help ==> b.help.open && b.panes == a.panes,
        action == Action::Leader ==> b.leader == Some(LeaderState::Root),
        action == Action::Quit && !a.flying() ==> b.should_quit && fx.len() == 0,
        action == Action::Quit && !is_interrupt(key) ==> b.should_quit,
        spec_kind(action) == ActionKind::Panes && action != Action::Quit ==> b.buffers == a.buffers
            && b.should_quit == a.should_quit && fx.len() == 0,
{
    reveal(App::dispatches);
    reveal(App::acts_on_panes);
}

/// An action on the request does what it is named after.
pub proof fn law_request_actions_are_as_named(
    a: App,
    b: App,
    action: Action,
    key: Option<KeyEvent>,
    facts: Facts,
    fx: Seq<Effect>,
)
    requires
        a.dispatches(b, action, key, facts, fx),
    ensures
        action == Action::Send ==> a.sends(b, fx),
        action == Action::Cancel ==> a.cancels(b, fx),
        action == Action::Save ==> a.saves(b, fx),
        action == Action::EditUrl ==> a.edits_url(b) && fx.len() == 0,
        action == Action::CopyAsCurl ==> a.copies_curl(b, false, fx),
        action == Action::CopyAsCurlResolved ==> a.copies_curl(b, true, fx),
        action == Action::MethodCycle ==> a.cycles_method(b) && fx.len() == 0,
        a.panes.focus != Pane::Request || !a.spec_body_text() ==> {
            &&& action == Action::RowAdd ==> a.edits_rows(b, RowOp::Add) && fx.len() == 0
            &&& action == Action::RowDelete ==> a.edits_rows(b, RowOp::Delete) && fx.len() == 0
            &&& action == Action::RowToggle ==> a.edits_rows(b, RowOp::Toggle) && fx.len() == 0
            &&& action == Action::RowEdit ==> a.edits_rows(b, RowOp::Edit) && fx.len() == 0
        },
        a.buffers.loaded() ==> {
            let tab = b.buffers.list@[a.buffers.active as int].tabs@.active;
            &&& action == Action::Tab1 ==> tab is Params
            &&& action == Action::Tab2 ==> tab is Headers
            &&& action == Action::Tab3 ==> tab is Auth
            &&& action == Action::Tab4 ==> tab is Body
        },
{
    reveal(App::dispatches);
    reveal(App::acts_on_request);
    reveal(App::acts_on_rows);
}

/// An action on the buffers does what it is named after: the next or the one before is shown and
/// round at the ends, the active one is closed, or all are.
pub proof fn law_buffer_actions_are_as_named(
    a: App,
    b: App,
    action: Action,
    key: Option<KeyEvent>,
    facts: Facts,
    fx: Seq<Effect>,
)
    requires
        a.wf(),
        a.dispatches(b, action, key, facts, fx),
        a.buffers.list@.len() > 0,
    ensures
        action == Action::BufferNext ==> b.buffers.active == (if a.buffers.active + 1
            < a.buffers.list@.len() {
            a.buffers.active + 1
        } else {
            0
        }),
        action == Action::BufferPrev ==> b.buffers.active == (if a.buffers.active > 0 {
            a.buffers.active - 1
        } else {
            a.buffers.list@.len() - 1
        }),
        action == Action::BufferClose ==> a.closes(b, a.buffers.active, fx),
        action == Action::BufferCloseAll ==> a.closes_all(b, fx),
{
    reveal(App::dispatches);
    reveal(App::acts_on_buffers);
}

/// An action on the tree does what it is named after.
pub proof fn law_tree_actions_are_as_named(
    a: App,
    b: App,
    action: Action,
    key: Option<KeyEvent>,
    facts: Facts,
    fx: Seq<Effect>,
)
    requires
        a.dispatches(b, action, key, facts, fx),
        !a.panes.on_sequences(),
    ensures
        action == Action::NewEndpoint ==> a.prompts_new(b, PromptPurpose::NewEndpoint),
        action == Action::NewCollection ==> a.prompts_new(b, PromptPurpose::NewCollection),
        action == Action::Rename ==> a.prompts_rename(b),
        action == Action::Delete ==> a.asks_delete(b),
        action == Action::MoveTo ==> a.asks_relocate(b, true, fx),
        action == Action::CopyTo ==> a.asks_relocate(b, false, fx),
        action == Action::Duplicate ==> a.duplicates(b, fx),
        action == Action::ReorderUp ==> a.reorders(b, ReorderDir::Up, fx),
        action == Action::ReorderDown ==> a.reorders(b, ReorderDir::Down, fx),
        action == Action::ImportCollection ==> a.prompts_import(b),
        action == Action::PasteCurl ==> a.prompts_curl(b),
        action == Action::ExportCollectionPostman ==> a.prompts_export(b, JsonDialect::Postman),
        action == Action::ExportCollectionNative ==> a.prompts_export(b, JsonDialect::Native),
        action == Action::ExportWorkspacePostman ==> a.prompts_export_all(b, JsonDialect::Postman),
        action == Action::ExportWorkspaceNative ==> a.prompts_export_all(b, JsonDialect::Native),
{
    reveal(App::dispatches);
    reveal(App::acts_on_tree);
}

/// In the explorer Up and Down move the cursor by a row and stop at the ends, Top and Bottom go
/// there, and Select opens the row under the cursor.
pub proof fn law_explorer_moves(
    a: App,
    b: App,
    action: Action,
    key: Option<KeyEvent>,
    facts: Facts,
    fx: Seq<Effect>,
)
    requires
        a.dispatches(b, action, key, facts, fx),
        a.panes.focus == Pane::Explorer,
        !(a.panes.left_active is Sequences),
        a.explorer.cursor < a.explorer.rows@.len(),
    ensures
        action == Action::Up ==> b.explorer.cursor == (if a.explorer.cursor > 0 {
            a.explorer.cursor - 1
        } else {
            0
        }) && b.explorer.rows == a.explorer.rows,
        action == Action::Down ==> b.explorer.cursor == (if a.explorer.cursor + 1
            < a.explorer.rows@.len() {
            a.explorer.cursor + 1
        } else {
            a.explorer.cursor as int
        }) && b.explorer.rows == a.explorer.rows,
        action == Action::Top ==> b.explorer.cursor == 0,
        action == Action::Bottom ==> b.explorer.cursor == a.explorer.rows@.len() - 1,
        action == Action::Collapse ==> b == a && fx == seq![Effect::Tree(TreeWork::Collapse)],
        action == Action::Expand ==> b == a && fx == seq![Effect::Tree(TreeWork::Expand)],
        action == Action::Select && a.explorer.rows@[a.explorer.cursor as int].endpoint is Some
            ==> b.buffers.active < b.buffers.list@.len()
            && b.buffers.list@[b.buffers.active as int].endpoint.file@
            == a.explorer.rows@[a.explorer.cursor as int].path@,
{
    reveal(App::dispatches);
    reveal(App::moves);
    reveal(App::explorer_acts);
    reveal(App::guards_load);
    reveal(App::loads);
    assert(a.explorer.rows.len() <= usize::MAX);
    if action == Action::Select && a.explorer.rows@[a.explorer.cursor as int].endpoint is Some {
        let row = a.explorer.rows@[a.explorer.cursor as int];
        let at = a.at_row(a.explorer.cursor);
        let s = choose|s: crate::buffer::SelectedEndpoint|
            crate::explorer::row_selects(row, s) && #[trigger] at.at_row(
                a.explorer.cursor,
            ).opened(b, s);
        crate::buffer::law_opened_endpoint_is_active(a.buffers, s, b.buffers);
    }
}

/// A key on the main screen that is bound in the focused pane, or globally, does what it is bound
/// to; the leader key begins a chord, and a key that is not bound does nothing.
pub proof fn law_bound_key_acts(a: App, b: App, key: KeyEvent, facts: Facts, fx: Seq<Effect>)
    requires
        a.keyed(b, key, facts, fx),
        !a.help.open,
        !a.spec_popup(),
        a.leader is None,
        a.mode == Mode::Normal,
        a.typing() is None,
        a.panes.focus != Pane::Request || !a.spec_body_text(),
    ensures
        key == a.keymap.leader ==> b == (App { leader: Some(LeaderState::Root), ..a }) && fx.len()
            == 0,
        key != a.keymap.leader ==> match a.keymap.spec_lookup_ctx(key, a.panes.focus.spec_ctx()) {
            Some(action) => a.dispatches(b, action, Some(key), facts, fx),
            None => b == a && fx.len() == 0,
        },
{
    reveal(App::keyed);
    reveal(App::mode_keyed);
    reveal(App::normal_keyed);
}

/// While a URL, a row or a body is typed a key goes there, and only Send and Quit with Control
/// reach through.
pub proof fn law_typed_key_goes_to_its_text(
    a: App,
    b: App,
    key: KeyEvent,
    facts: Facts,
    fx: Seq<Effect>,
)
    requires
        a.keyed(b, key, facts, fx),
        !a.help.open,
        !a.spec_popup(),
        a.leader is None,
        a.mode == Mode::Normal,
        !key.modifiers.control,
        a.buffers.loaded(),
    ensures
        a.buffers.current().url_editor is Some ==> a.url_keyed(b, key) && fx.len() == 0,
        a.buffers.current().url_editor is None && a.panes.focus == Pane::Request
            && a.buffers.current().tabs.editing is Some ==> a.edits_rows(b, RowOp::Key(key))
            && fx.len() == 0,
{
    reveal(App::keyed);
    reveal(App::mode_keyed);
    reveal(App::normal_keyed);
    reveal(App::types);
}

/// What is picked from a list is the item that is selected: an endpoint is opened, a profile is
/// the active one, a sequence is run or edited, a workspace is gone to.
pub proof fn law_picked_item_is_the_selected_one(a: App, b: App, facts: Facts, fx: Seq<Effect>)
    requires
        a.accepts(b, facts, fx),
        a.picker is Some,
        a.picker->0.selected < a.picker->0.shown@.len(),
    ensures
        ({
            let p = a.picker->0;
            let i = p.shown@[p.selected as int] as int;
            &&& p.choices matches Choices::Profiles(profiles) ==> i < profiles@.len()
                ==> b.active_profile == profiles@[i] && b.picker is None && b.mode == Mode::Normal
            &&& p.choices matches Choices::Endpoints(files) ==> i < files@.len() ==> fx.len() > 0
                && fx[0] == Effect::Tree(TreeWork::OpenFile(files@[i])) && (fx.len() == 2
                <==> a.load_runner_after_pick)
            &&& p.choices matches Choices::Sequences { files, run } ==> i < files@.len() && run
                ==> fx == seq![Effect::Disk(DiskWork::LoadSequenceToRun(files@[i]))]
            &&& p.choices matches Choices::Sequences { files, run } ==> i < files@.len() && !run
                ==> fx == seq![Effect::Disk(DiskWork::LoadSequenceToEdit(files@[i]))]
            &&& p.choices matches Choices::Workspaces(roots) ==> i < roots@.len()
                && !a.buffers.some_dirty() ==> fx == seq![
                Effect::Disk(DiskWork::OpenWorkspace(roots@[i])),
            ]
            &&& p.choices is AuthKinds ==> a.overlay_closed().sets_auth(b, i as usize)
            &&& p.choices is BodyTypes ==> a.overlay_closed().sets_body(b, i as usize)
        }),
{
    reveal(App::accepts);
    reveal(App::picks);
    reveal(App::picks_endpoint);
    reveal(App::guards_load);
    reveal(App::loads);
}

/// A directory that is picked is what the row is moved or copied into, or where the new one is
/// made.
pub proof fn law_picked_directory_is_the_destination(
    a: App,
    b: App,
    dest: String,
    source: String,
    purpose: DestPurpose,
    fx: Seq<Effect>,
)
    requires
        a.picks_directory(b, Some(dest), purpose, Some(source), fx),
        a.workspace is Some,
    ensures
        purpose == DestPurpose::MoveEndpoint ==> fx == seq![
            Effect::Disk(DiskWork::RelocateEndpoint { source, dest, is_move: true }),
        ],
        purpose == DestPurpose::CopyEndpoint ==> fx == seq![
            Effect::Disk(DiskWork::RelocateEndpoint { source, dest, is_move: false }),
        ],
        purpose == DestPurpose::MoveCollection ==> fx == seq![
            Effect::Disk(
                DiskWork::RelocateCollection {
                    source,
                    dest,
                    is_move: true,
                    root: a.workspace->0.root,
                },
            ),
        ],
        purpose == DestPurpose::CopyCollection ==> fx == seq![
            Effect::Disk(
                DiskWork::RelocateCollection {
                    source,
                    dest,
                    is_move: false,
                    root: a.workspace->0.root,
                },
            ),
        ],
        purpose == DestPurpose::CreateEndpoint ==> b.pending_create_dir == Some(dest) && b.mode
            == Mode::Prompt(PromptPurpose::NewEndpoint) && fx.len() == 0,
        purpose == DestPurpose::CreateCollection ==> b.pending_create_dir == Some(dest) && b.mode
            == Mode::Prompt(PromptPurpose::NewCollection) && fx.len() == 0,
{
    reveal(App::picks_directory);
}

/// An action that opens a part of the session does what it is named after.
pub proof fn law_session_actions_are_as_named(
    a: App,
    b: App,
    action: Action,
    key: Option<KeyEvent>,
    facts: Facts,
    fx: Seq<Effect>,
)
    requires
        a.dispatches(b, action, key, facts, fx),
    ensures
        action == Action::OpenOptions ==> b.mode == Mode::Options && fx == seq![
            Effect::OpenComponent(Component::Options),
        ],
        action == Action::OpenSettings ==> b.mode == Mode::Settings && fx == seq![
            Effect::OpenComponent(Component::Settings),
        ],
        action == Action::OpenInspector ==> b.mode == Mode::Inspector && b.inspector_return
            == a.mode && fx == seq![Effect::OpenComponent(Component::Inspector)],
        action == Action::ToggleDebug ==> b.settings.debug != a.settings.debug,
        action == Action::ToggleInsecure ==> b == a && fx == seq![Effect::RebuildForInsecure],
        action == Action::ToggleEndpointInsecure ==> a.toggles_endpoint(b, fx),
        action == Action::OpenEnvEditor && a.workspace is Some ==> b == a && fx == seq![
            Effect::OpenComponent(Component::EnvEditor),
        ],
        action == Action::OpenSearch || action == Action::QuickJumpRequests ==> b == a && fx
            == seq![Effect::Tree(TreeWork::ListEndpoints)],
        action == Action::Jump ==> b.mode == Mode::Jump && b.jump is Some,
        action == Action::RunSequence ==> a.runs_selected(b, fx),
        action == Action::EditSequence ==> a.edits_selected(b, fx),
        action == Action::OpenSequencePicker ==> a.opens_sequences(b, false),
        action == Action::PickSequenceToRun ==> a.opens_sequences(b, true),
        action == Action::OpenLoadRunner ==> a.opens_load(b, fx),
        action == Action::OpenLoadRunnerPick ==> b.load_runner_after_pick && fx == seq![
            Effect::Tree(TreeWork::ListEndpoints),
        ],
        action == Action::EditUrlPopup ==> a.edits_url_popup(b),
        action == Action::SwitchProfile ==> a.opens_profiles(b),
        action == Action::QuickJumpWorkspaces && a.has_history ==> fx == seq![
            Effect::Disk(DiskWork::RecentWorkspaces),
        ],
{
    reveal(App::dispatches);
    reveal(App::acts_on_session);
    reveal(App::acts_on_overlays);
    reveal(App::settings_opened);
    reveal(App::inspecting);
    reveal(App::debug_toggled);
}

/// A response, a highlight, a step and a copy that come in from the background each go where they
/// belong.
pub proof fn law_messages_go_where_they_belong(a: App, b: App, msg: AppMsg, fx: Seq<Effect>)
    requires
        a.messaged(b, msg, fx),
    ensures
        match msg {
            AppMsg::Redraw => b == a && fx.len() == 0,
            AppMsg::Response { generation, outcome, meta } => a.answers(
                b,
                generation,
                outcome,
                meta,
                fx,
            ),
            AppMsg::SequenceStep { run_generation, index, outcome } => a.step_lands(
                b,
                run_generation,
                index,
                outcome,
                fx,
            ),
            AppMsg::LoadStarted { run_generation, index, now_ms } => a.copy_starts(
                b,
                run_generation,
                index,
                now_ms,
            ),
            AppMsg::LoadResult { run_generation, index, outcome, latency } => a.copy_lands(
                b,
                run_generation,
                index,
                outcome,
                latency,
                fx,
            ),
            AppMsg::Highlighted { hash, lines } => b.load == a.load && b.sequence == a.sequence
                && fx.len() == 0,
        },
{
    reveal(App::messaged);
}

/// The motions are offered a key where a text is not typed: in the popup in its normal mode, where
/// Enter is not for them, and else in a text body that has the focus.
pub proof fn law_motions_are_offered(a: App, key: KeyEvent)
    ensures
        a.help.open ==> a.offers_motion(key) is None,
        a.spec_popup() && key.code is Enter ==> a.offers_motion(key) is None,
        !a.help.open && a.spec_popup() && a.buffers.current().url_popup->0.spec_mode()
            == EditorMode::Normal && !(key.code is Enter) ==> a.offers_motion(key) == Some(
            MotionIn::Popup,
        ),
        !a.spec_popup() && a.panes.focus != Pane::Request ==> a.offers_motion(key) is None,
        !a.spec_popup() && a.mode != Mode::Normal ==> a.offers_motion(key) is None,
{
}

} // verus!
