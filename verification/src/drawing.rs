//! What is drawn on the screen.

use vstd::prelude::*;

use crate::app::App;
use crate::mode::{ConfirmPurpose, LeaderState, Mode, PromptPurpose, SeqView};
use crate::model::Method;
use crate::pane::{LeftPane, Pane, ZoomPane};
use crate::settings::{copy_text, text_of};

verus! {

/// Something that is drawn over the panes.
#[derive(Debug, Clone, Copy, PartialEq, Eq, Structural)]
pub enum Overlay {
    /// The list to pick from.
    Picker,
    /// The menu of methods, with the one of the request marked.
    MethodMenu(Method),
    /// A prompt.
    Prompt(PromptPurpose),
    /// A question.
    Confirm(ConfirmPurpose),
    /// The editor of environments.
    EnvEditor,
    /// The editor of a sequence.
    SequenceEditor,
    /// The list of a sequence run.
    SequenceRunner,
    /// The load runner.
    LoadRunner,
    /// The session options.
    Options,
    /// The settings panel.
    Settings,
    /// The inspector.
    Inspector,
    /// The file picker.
    FilePicker,
    /// The popup of the URL.
    UrlPopup,
    /// The popup of a chord.
    Leader(LeaderState),
    /// The help.
    Help,
}

/// What the status line says.
#[derive(Debug)]
pub struct Status {
    /// The name of the pane with the focus.
    pub focus: &'static str,
    /// The name of the workspace.
    pub workspace: Option<String>,
    /// The active profile.
    pub profile: Option<String>,
    /// Whether the open endpoint has unsaved changes.
    pub dirty: bool,
    /// Whether its request is in flight.
    pub in_flight: bool,
    /// Whether certificates go unchecked.
    pub insecure: bool,
    /// The number of ticks so far, which turns the sign of a request in flight.
    pub tick_count: u64,
}

/// How a pane is drawn.
#[derive(Debug, Clone, Copy, PartialEq, Eq, Structural)]
pub enum Drawn {
    /// With all that it shows.
    Full,
    /// As a stub.
    Stub,
    /// Not at all.
    Hidden,
}

impl App {
    /// What the mode draws over the panes, where what it shows is there.
    pub open spec fn mode_overlay(&self) -> Option<Overlay> {
        match self.mode {
            Mode::MethodMenu => if self.buffers.loaded() {
                Some(Overlay::MethodMenu(self.buffers.current().endpoint.endpoint.request.method))
            } else {
                None
            },
            Mode::Prompt(purpose) => Some(Overlay::Prompt(purpose)),
            Mode::Confirm(purpose) => Some(Overlay::Confirm(purpose)),
            Mode::EnvEditor => if self.env_editor {
                Some(Overlay::EnvEditor)
            } else {
                None
            },
            Mode::Sequence => match self.sequence.view {
                SeqView::Edit => if self.sequence.editor is Some {
                    Some(Overlay::SequenceEditor)
                } else {
                    None
                },
                SeqView::Run => if self.sequence.runner is Some {
                    Some(Overlay::SequenceRunner)
                } else {
                    None
                },
            },
            Mode::LoadRunner => if self.load.runner is Some {
                Some(Overlay::LoadRunner)
            } else {
                None
            },
            Mode::Options => Some(Overlay::Options),
            Mode::Settings => Some(Overlay::Settings),
            Mode::Inspector => Some(Overlay::Inspector),
            Mode::FilePicker => Some(Overlay::FilePicker),
            _ => None,
        }
    }

    fn overlay_of_mode(&self) -> (r: Option<Overlay>)
        ensures
            r == self.mode_overlay(),
    {
        match self.mode {
            Mode::MethodMenu => match self.live_request() {
                Some(request) => Some(Overlay::MethodMenu(request.method)),
                None => None,
            },
            Mode::Prompt(purpose) => Some(Overlay::Prompt(purpose)),
            Mode::Confirm(purpose) => Some(Overlay::Confirm(purpose)),
            Mode::EnvEditor => if self.env_editor {
                Some(Overlay::EnvEditor)
            } else {
                None
            },
            Mode::Sequence => match self.sequence.view {
                SeqView::Edit => if self.sequence.editor.is_some() {
                    Some(Overlay::SequenceEditor)
                } else {
                    None
                },
                SeqView::Run => if self.sequence.runner.is_some() {
                    Some(Overlay::SequenceRunner)
                } else {
                    None
                },
            },
            Mode::LoadRunner => if self.load.runner.is_some() {
                Some(Overlay::LoadRunner)
            } else {
                None
            },
            Mode::Options => Some(Overlay::Options),
            Mode::Settings => Some(Overlay::Settings),
            Mode::Inspector => Some(Overlay::Inspector),
            Mode::FilePicker => Some(Overlay::FilePicker),
            _ => None,
        }
    }

    /// What is drawn over the panes, the topmost last: the list to pick from, what the
    /// mode shows, the popup of the URL, the popup of a chord, and the help.
    pub open spec fn spec_overlays(&self) -> Seq<Overlay> {
        let listed = if self.picker is Some {
            seq![Overlay::Picker]
        } else {
            Seq::empty()
        };
        let shown = match self.mode_overlay() {
            Some(o) => listed.push(o),
            None => listed,
        };
        let popped = if self.spec_popup() {
            shown.push(Overlay::UrlPopup)
        } else {
            shown
        };
        let led = match self.leader {
            Some(state) => popped.push(Overlay::Leader(state)),
            None => popped,
        };
        if self.help.open {
            led.push(Overlay::Help)
        } else {
            led
        }
    }

    /// What is drawn over the panes, the topmost last.
    pub fn overlays(&self) -> (r: Vec<Overlay>)
        ensures
            r@ == self.spec_overlays(),
    {
        let mut out: Vec<Overlay> = Vec::new();
        if self.picker.is_some() {
            out.push(Overlay::Picker);
            assert(out@ =~= seq![Overlay::Picker]);
        }
        if let Some(o) = self.overlay_of_mode() {
            out.push(o);
        }
        if self.url_popup_active() {
            out.push(Overlay::UrlPopup);
        }
        if let Some(state) = self.leader {
            out.push(Overlay::Leader(state));
        }
        if self.help.open {
            out.push(Overlay::Help);
        }
        assert(out@ =~= self.spec_overlays());
        out
    }

    /// How the tree is drawn: as a stub where the sequences are shown and active.
    pub open spec fn spec_tree_drawn(&self) -> Drawn {
        if self.panes.explorer_hidden {
            Drawn::Hidden
        } else if self.panes.sequences_shown && self.panes.left_active == LeftPane::Sequences {
            Drawn::Stub
        } else {
            Drawn::Full
        }
    }

    /// How the tree is drawn.
    pub fn tree_drawn(&self) -> (r: Drawn)
        ensures
            r == self.spec_tree_drawn(),
    {
        if self.panes.explorer_hidden {
            Drawn::Hidden
        } else if self.panes.sequences_shown && self.panes.left_active == LeftPane::Sequences {
            Drawn::Stub
        } else {
            Drawn::Full
        }
    }

    /// How the list of sequences is drawn: as a stub where the tree is active.
    pub open spec fn spec_sequences_drawn(&self) -> Drawn {
        if self.panes.explorer_hidden || !self.panes.sequences_shown {
            Drawn::Hidden
        } else if self.panes.left_active == LeftPane::Sequences {
            Drawn::Full
        } else {
            Drawn::Stub
        }
    }

    /// How the list of sequences is drawn.
    pub fn sequences_drawn(&self) -> (r: Drawn)
        ensures
            r == self.spec_sequences_drawn(),
    {
        if self.panes.explorer_hidden || !self.panes.sequences_shown {
            Drawn::Hidden
        } else if self.panes.left_active == LeftPane::Sequences {
            Drawn::Full
        } else {
            Drawn::Stub
        }
    }

    /// How the request pane or the response pane is drawn: as a stub where the other is
    /// zoomed.
    pub fn pane_drawn(&self, pane: Pane) -> (r: Drawn)
        ensures
            r == (if self.panes.collapsed(pane) {
                Drawn::Stub
            } else {
                Drawn::Full
            }),
    {
        match (self.panes.zoom, pane) {
            (Some(ZoomPane::Request), Pane::Response) => Drawn::Stub,
            (Some(ZoomPane::Response), Pane::Request) => Drawn::Stub,
            _ => Drawn::Full,
        }
    }

    /// What the status line says.
    pub fn status(&self) -> (r: Status)
        requires
            self.wf(),
        ensures
            r.focus@ == self.panes.focus.spec_name(),
            text_of(r.workspace) == (match self.workspace {
                Some(ws) => Some(ws.name@),
                None => None,
            }),
            r.profile == self.active_profile,
            r.dirty == self.buffers.current_dirty(),
            r.in_flight == self.flying(),
            r.insecure == (self.settings.insecure || (self.buffers.loaded()
                && self.buffers.current().endpoint.endpoint.request.insecure)),
            r.tick_count == self.tick_count,
    {
        Status {
            focus: self.panes.focus.name(),
            workspace: match &self.workspace {
                Some(ws) => Some(ws.name.clone()),
                None => None,
            },
            profile: copy_text(&self.active_profile),
            dirty: self.buffers.is_dirty(),
            in_flight: self.in_flight(),
            insecure: self.insecure_active(),
            tick_count: self.tick_count,
        }
    }
}

/// A pane that is drawn as the one with the focus is drawn full.
pub proof fn law_focus_is_on_a_full_pane(a: App, pane: Pane)
    requires
        a.panes.wf(),
        a.spec_shows_focus(pane),
    ensures
        !a.panes.collapsed(pane),
        pane == Pane::Explorer ==> a.spec_tree_drawn() == Drawn::Full
            || a.spec_sequences_drawn() == Drawn::Full,
{
}

/// What has the keys is drawn on top: the help over all else, and a chord over what the
/// mode shows.
pub proof fn law_topmost_has_the_keys(a: App)
    ensures
        a.help.open ==> a.spec_overlays().last() == Overlay::Help,
        !a.help.open && a.leader is Some && !a.spec_popup() ==> a.spec_overlays().last()
            == Overlay::Leader(a.leader->0),
        !a.help.open && a.leader is None && a.spec_popup() ==> a.spec_overlays().last()
            == Overlay::UrlPopup,
{
}

} // verus!
