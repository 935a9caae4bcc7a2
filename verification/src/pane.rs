//! The panes of the main screen: their cycle order, and which of them is
//! focused, zoomed, hidden and shown.

use vstd::prelude::*;

verus! {

/// The panes that can hold focus.
#[derive(Debug, Clone, Copy, PartialEq, Eq, Structural)]
pub enum Pane {
    /// The workspace tree on the left.
    Explorer,
    /// The focusable URL bar above the request editor.
    UrlBar,
    /// The request editor in the centre.
    Request,
    /// The response viewer below the request editor.
    Response,
}

/// The keymap overlay that is consulted before the global map.
#[derive(Debug, Clone, Copy, PartialEq, Eq, Structural)]
pub enum PaneCtx {
    /// The explorer's overlay.
    Explorer,
    /// The URL bar's overlay.
    UrlBar,
    /// The request pane's overlay.
    Request,
    /// The response pane's overlay.
    Response,
}

impl Pane {
    /// The Tab cycle: Explorer, UrlBar, Request, Response, Explorer.
    pub open spec fn spec_next(self) -> Pane {
        match self {
            Pane::Explorer => Pane::UrlBar,
            Pane::UrlBar => Pane::Request,
            Pane::Request => Pane::Response,
            Pane::Response => Pane::Explorer,
        }
    }

    /// The Tab cycle backwards.
    pub open spec fn spec_prev(self) -> Pane {
        match self {
            Pane::Explorer => Pane::Response,
            Pane::UrlBar => Pane::Explorer,
            Pane::Request => Pane::UrlBar,
            Pane::Response => Pane::Request,
        }
    }

    /// The pane that Tab moves to.
    pub fn next(self) -> (r: Pane)
        ensures
            r == self.spec_next(),
    {
        match self {
            Pane::Explorer => Pane::UrlBar,
            Pane::UrlBar => Pane::Request,
            Pane::Request => Pane::Response,
            Pane::Response => Pane::Explorer,
        }
    }

    /// The pane that Tab came from.
    pub fn prev(self) -> (r: Pane)
        ensures
            r == self.spec_prev(),
    {
        self.next().next().next()
    }

    /// The pane's name on the status line.
    pub open spec fn spec_name(self) -> Seq<char> {
        match self {
            Pane::Explorer => "EXPLORER"@,
            Pane::UrlBar => "URL"@,
            Pane::Request => "REQUEST"@,
            Pane::Response => "RESPONSE"@,
        }
    }

    /// The pane's name on the status line.
    pub fn name(self) -> (r: &'static str)
        ensures
            r@ == self.spec_name(),
    {
        match self {
            Pane::Explorer => "EXPLORER",
            Pane::UrlBar => "URL",
            Pane::Request => "REQUEST",
            Pane::Response => "RESPONSE",
        }
    }

    /// The keymap overlay of this pane.
    pub open spec fn spec_ctx(self) -> PaneCtx {
        match self {
            Pane::Explorer => PaneCtx::Explorer,
            Pane::UrlBar => PaneCtx::UrlBar,
            Pane::Request => PaneCtx::Request,
            Pane::Response => PaneCtx::Response,
        }
    }

    /// The keymap overlay of this pane.
    pub fn ctx(self) -> (r: PaneCtx)
        ensures
            r == self.spec_ctx(),
    {
        match self {
            Pane::Explorer => PaneCtx::Explorer,
            Pane::UrlBar => PaneCtx::UrlBar,
            Pane::Request => PaneCtx::Request,
            Pane::Response => PaneCtx::Response,
        }
    }
}

/// Going forward and back, or back and forward, returns to the same pane, and
/// four steps go once round.
pub proof fn law_pane_cycle(p: Pane)
    ensures
        p.spec_next().spec_prev() == p,
        p.spec_prev().spec_next() == p,
        p.spec_next().spec_next().spec_next().spec_next() == p,
        p.spec_next() != p,
        p.spec_next().spec_next() != p,
{
}

/// Which sub-pane of the left column is active.
#[derive(Debug, Clone, Copy, PartialEq, Eq, Structural)]
pub enum LeftPane {
    /// The endpoints tree.
    Endpoints,
    /// The sequences below it.
    Sequences,
}

/// Which pane is zoomed; the other one collapses to a stub.
#[derive(Debug, Clone, Copy, PartialEq, Eq, Structural)]
pub enum ZoomPane {
    /// The request is zoomed and the response collapsed.
    Request,
    /// The response is zoomed and the request collapsed.
    Response,
}

/// Focus, zoom and visibility of the panes.
#[derive(Debug, Clone, Copy, PartialEq, Eq, Structural)]
pub struct Panes {
    /// The focused pane.
    pub focus: Pane,
    /// The zoomed pane, or none for the even split.
    pub zoom: Option<ZoomPane>,
    /// Whether the explorer is hidden.
    pub explorer_hidden: bool,
    /// The active sub-pane of the left column.
    pub left_active: LeftPane,
    /// Whether the sequences sub-pane is shown.
    pub sequences_shown: bool,
    /// The pane that was focused before focus last moved into the left column.
    pub focus_before_explorer: Option<Pane>,
}

impl Panes {
    /// Whether the zoom collapses `pane`.
    pub open spec fn collapsed(self, pane: Pane) -> bool {
        ||| self.zoom == Some(ZoomPane::Request) && pane == Pane::Response
        ||| self.zoom == Some(ZoomPane::Response) && pane == Pane::Request
    }

    /// Neither a collapsed pane nor a hidden explorer holds focus, a sub-pane
    /// that is off is not active, and the pane to return to is one that can
    /// hold focus.
    pub open spec fn wf(self) -> bool {
        &&& !self.collapsed(self.focus)
        &&& !(self.explorer_hidden && self.focus == Pane::Explorer)
        &&& (self.left_active == LeftPane::Sequences ==> self.sequences_shown)
        &&& (self.focus_before_explorer matches Some(p) ==> p != Pane::Explorer)
        &&& (self.focus == Pane::Explorer ==> (self.focus_before_explorer matches Some(p)
            ==> !self.collapsed(p)))
    }

    /// The panes when the application starts.
    pub open spec fn spec_new() -> Panes {
        Panes {
            focus: Pane::Explorer,
            zoom: None,
            explorer_hidden: false,
            left_active: LeftPane::Endpoints,
            sequences_shown: false,
            focus_before_explorer: None,
        }
    }

    /// The panes when the application starts.
    pub fn new() -> (r: Panes)
        ensures
            r == Panes::spec_new(),
            r.wf(),
    {
        Panes {
            focus: Pane::Explorer,
            zoom: None,
            explorer_hidden: false,
            left_active: LeftPane::Endpoints,
            sequences_shown: false,
            focus_before_explorer: None,
        }
    }

    /// A sub-pane that is hidden or has no sequences is not active.
    pub open spec fn left_enforced(self, sequences: nat) -> Panes {
        if !self.sequences_shown || sequences == 0 {
            Panes { left_active: LeftPane::Endpoints, ..self }
        } else {
            self
        }
    }

    /// Makes the endpoints tree active when the sequences sub-pane is hidden or
    /// has no sequences.
    pub fn enforce_left_active_invariant(&mut self, sequences: usize)
        ensures
            *final(self) == old(self).left_enforced(sequences as nat),
    {
        if !self.sequences_shown || sequences == 0 {
            self.left_active = LeftPane::Endpoints;
        }
    }

    /// The zoom once `pane` is focused: it follows focus onto a collapsed pane.
    pub open spec fn zoom_for(self, pane: Pane) -> Option<ZoomPane> {
        if self.zoom == Some(ZoomPane::Request) && pane == Pane::Response {
            Some(ZoomPane::Response)
        } else if self.zoom == Some(ZoomPane::Response) && pane == Pane::Request {
            Some(ZoomPane::Request)
        } else {
            self.zoom
        }
    }

    /// The panes once `pane` is focused: the explorer reopens, the pane that
    /// focus came from is remembered when it enters the left column, and the
    /// zoom follows.
    pub open spec fn focused(self, pane: Pane, sequences: nat) -> Panes {
        Panes {
            focus: pane,
            zoom: self.zoom_for(pane),
            explorer_hidden: self.explorer_hidden && pane != Pane::Explorer,
            focus_before_explorer: if pane == Pane::Explorer && self.focus != Pane::Explorer {
                Some(self.focus)
            } else {
                self.focus_before_explorer
            },
            ..self
        }.left_enforced(sequences)
    }

    /// Focuses `pane`. Focusing the hidden explorer reopens it; focusing the
    /// collapsed pane moves the zoom to it.
    pub fn set_focus(&mut self, pane: Pane, sequences: usize)
        ensures
            *final(self) == old(self).focused(pane, sequences as nat),
    {
        if pane == Pane::Explorer && self.explorer_hidden {
            self.explorer_hidden = false;
        }
        if pane == Pane::Explorer && self.focus != Pane::Explorer {
            self.focus_before_explorer = Some(self.focus);
        }
        match (self.zoom, pane) {
            (Some(ZoomPane::Request), Pane::Response) => {
                self.zoom = Some(ZoomPane::Response);
            },
            (Some(ZoomPane::Response), Pane::Request) => {
                self.zoom = Some(ZoomPane::Request);
            },
            _ => {},
        }
        self.focus = pane;
        self.enforce_left_active_invariant(sequences);
    }

    /// The panes once the explorer is toggled.
    pub open spec fn explorer_toggled(self, sequences: nat) -> Panes {
        if self.explorer_hidden {
            Panes { explorer_hidden: false, ..self }.focused(Pane::Explorer, sequences)
        } else if self.focus == Pane::Explorer {
            Panes {
                explorer_hidden: true,
                focus: match self.focus_before_explorer {
                    Some(p) => p,
                    None => Pane::UrlBar,
                },
                focus_before_explorer: None,
                ..self
            }
        } else {
            Panes { explorer_hidden: true, ..self }
        }
    }

    /// Shows the hidden explorer and focuses it, or hides it. Hiding it while it
    /// is focused gives focus back to the pane that had it before, or to the
    /// URL bar.
    pub fn toggle_explorer(&mut self, sequences: usize)
        ensures
            *final(self) == old(self).explorer_toggled(sequences as nat),
    {
        if self.explorer_hidden {
            self.explorer_hidden = false;
            self.set_focus(Pane::Explorer, sequences);
        } else {
            self.explorer_hidden = true;
            if self.focus == Pane::Explorer {
                self.focus = match self.focus_before_explorer {
                    Some(p) => p,
                    None => Pane::UrlBar,
                };
                self.focus_before_explorer = None;
            }
        }
    }

    /// The panes once the sequences sub-pane is toggled.
    pub open spec fn sequences_toggled(self, sequences: nat) -> Panes {
        if self.sequences_shown {
            Panes { sequences_shown: false, left_active: LeftPane::Endpoints, ..self }
        } else {
            Panes {
                sequences_shown: true,
                left_active: LeftPane::Sequences,
                ..self
            }.focused(Pane::Explorer, sequences)
        }
    }

    /// Shows the sequences sub-pane and focuses it, or hides it and makes the
    /// endpoints tree active.
    pub fn toggle_sequences_pane(&mut self, sequences: usize)
        ensures
            *final(self) == old(self).sequences_toggled(sequences as nat),
    {
        self.sequences_shown = !self.sequences_shown;
        if self.sequences_shown {
            self.left_active = LeftPane::Sequences;
            self.set_focus(Pane::Explorer, sequences);
        } else {
            self.left_active = LeftPane::Endpoints;
        }
    }

    /// The panes once the left column is switched to its other sub-pane.
    pub open spec fn sub_pane_switched(self, sequences: nat) -> Panes {
        Panes {
            sequences_shown: true,
            left_active: match self.left_active {
                LeftPane::Endpoints => LeftPane::Sequences,
                LeftPane::Sequences => LeftPane::Endpoints,
            },
            ..self
        }.focused(Pane::Explorer, sequences)
    }

    /// Shows the sequences sub-pane, makes the other sub-pane active and focuses
    /// the left column.
    pub fn focus_sequences_toggle(&mut self, sequences: usize)
        ensures
            *final(self) == old(self).sub_pane_switched(sequences as nat),
    {
        self.sequences_shown = true;
        self.left_active = match self.left_active {
            LeftPane::Endpoints => LeftPane::Sequences,
            LeftPane::Sequences => LeftPane::Endpoints,
        };
        self.set_focus(Pane::Explorer, sequences);
    }

    /// The pane that `z` zooms from here.
    pub open spec fn zoom_target(self) -> Option<ZoomPane> {
        match self.focus {
            Pane::Request => Some(ZoomPane::Request),
            Pane::Response => Some(ZoomPane::Response),
            _ => None,
        }
    }

    /// The panes once the zoom is toggled.
    pub open spec fn zoom_toggled(self) -> Panes {
        if self.zoom_target() is None {
            self
        } else if self.zoom == self.zoom_target() {
            Panes { zoom: None, ..self }
        } else {
            Panes { zoom: self.zoom_target(), ..self }
        }
    }

    /// Zooms the focused request or response, or restores the split when it is
    /// zoomed already. From other panes nothing happens.
    pub fn toggle_zoom(&mut self)
        ensures
            *final(self) == old(self).zoom_toggled(),
    {
        let target = match self.focus {
            Pane::Request => ZoomPane::Request,
            Pane::Response => ZoomPane::Response,
            _ => {
                return ;
            },
        };
        let already = match self.zoom {
            Some(z) => z == target,
            None => false,
        };
        self.zoom = if already {
            None
        } else {
            Some(target)
        };
    }

    /// Whether the left column is focused with its sequences active.
    pub open spec fn on_sequences(self) -> bool {
        self.focus == Pane::Explorer && self.sequences_shown && self.left_active
            == LeftPane::Sequences
    }

    /// Whether the left column is focused with its sequences active.
    pub fn left_column_on_sequences(&self) -> (r: bool)
        ensures
            r == self.on_sequences(),
    {
        self.focus == Pane::Explorer && self.sequences_shown && self.left_active
            == LeftPane::Sequences
    }

    /// The panes of a workspace that was just switched to.
    pub open spec fn workspace_reset(self, sequences: nat) -> Panes {
        Panes {
            zoom: None,
            sequences_shown: false,
            left_active: LeftPane::Endpoints,
            focus_before_explorer: None,
            ..self
        }.focused(Pane::Explorer, sequences)
    }

    /// Resets the panes for a workspace that was just switched to and focuses
    /// the explorer.
    pub fn reset_for_workspace(&mut self, sequences: usize)
        ensures
            *final(self) == old(self).workspace_reset(sequences as nat),
    {
        self.zoom = None;
        self.sequences_shown = false;
        self.left_active = LeftPane::Endpoints;
        self.focus_before_explorer = None;
        self.set_focus(Pane::Explorer, sequences);
    }
}

/// Focusing a pane keeps the panes well formed, and focuses exactly that pane.
pub proof fn law_focus_keeps_wf(p: Panes, pane: Pane, sequences: nat)
    requires
        p.wf(),
    ensures
        p.focused(pane, sequences).wf(),
        p.focused(pane, sequences).focus == pane,
        p.focused(pane, sequences).zoom is Some == p.zoom is Some,
        sequences == 0 ==> p.focused(pane, sequences).left_active == LeftPane::Endpoints,
{
}

/// Whatever the state before it, focusing a pane leaves that pane visible: it is
/// neither collapsed nor hidden.
pub proof fn law_focused_pane_is_visible(p: Panes, pane: Pane, sequences: nat)
    ensures
        !p.focused(pane, sequences).collapsed(pane),
        pane == Pane::Explorer ==> !p.focused(pane, sequences).explorer_hidden,
{
}

/// Every toggle keeps the panes well formed.
pub proof fn law_toggles_keep_wf(p: Panes, sequences: nat)
    requires
        p.wf(),
    ensures
        p.explorer_toggled(sequences).wf(),
        p.sequences_toggled(sequences).wf(),
        p.sub_pane_switched(sequences).wf(),
        p.zoom_toggled().wf(),
        p.workspace_reset(sequences).wf(),
        p.left_enforced(sequences).wf(),
{
}

/// Zooming twice from the same pane restores the panes as they were.
pub proof fn law_zoom_twice_restores(p: Panes)
    requires
        p.wf(),
    ensures
        p.zoom_toggled().zoom_toggled() == p,
{
    if p.zoom_target() is Some {
        assert(p.zoom is None || p.zoom == p.zoom_target()) by {
            match p.zoom {
                Some(ZoomPane::Request) => {},
                Some(ZoomPane::Response) => {},
                None => {},
            }
        }
    }
}

/// Hiding the focused explorer gives focus back to the pane that it was entered
/// from.
pub proof fn law_hide_restores_prior_focus(p: Panes, sequences: nat)
    requires
        p.wf(),
        p.focus != Pane::Explorer,
    ensures
        p.focused(Pane::Explorer, sequences).explorer_toggled(sequences).focus == p.focus,
        p.focused(Pane::Explorer, sequences).explorer_toggled(sequences).explorer_hidden,
{
}

/// Focus never changes which sub-pane is active while the sequences are shown
/// and there are some.
pub proof fn law_focus_keeps_sub_pane(p: Panes, pane: Pane, sequences: nat)
    requires
        p.sequences_shown,
        sequences > 0,
    ensures
        p.focused(pane, sequences).left_active == p.left_active,
{
}

/// The panes follow each other as Explorer, URL, Request and Response.
pub proof fn law_panes_follow_each_other()
    ensures
        Pane::Explorer.spec_next() == Pane::UrlBar,
        Pane::UrlBar.spec_next() == Pane::Request,
        Pane::Request.spec_next() == Pane::Response,
        Pane::Response.spec_next() == Pane::Explorer,
{
}

/// A zoom is of the focused pane where it is the request or the response, and leaves the panes
/// as they are elsewhere; a zoom of the zoomed pane ends it. Nothing else changes.
pub proof fn law_zoom_is_of_the_focused_pane(p: Panes)
    ensures
        ({
            let z = p.zoom_toggled();
            &&& p.focus == Pane::Request && p.zoom != Some(ZoomPane::Request) ==> z.zoom == Some(
                ZoomPane::Request,
            )
            &&& p.focus == Pane::Response && p.zoom != Some(ZoomPane::Response) ==> z.zoom == Some(
                ZoomPane::Response,
            )
            &&& p.focus == Pane::Request && p.zoom == Some(ZoomPane::Request) ==> z.zoom is None
            &&& p.focus == Pane::Response && p.zoom == Some(ZoomPane::Response) ==> z.zoom is None
            &&& p.focus == Pane::Explorer || p.focus == Pane::UrlBar ==> z == p
            &&& z.focus == p.focus
            &&& z.explorer_hidden == p.explorer_hidden
            &&& z.left_active == p.left_active
            &&& z.sequences_shown == p.sequences_shown
        }),
{
}

/// A focus goes to the pane that was asked for; a zoom of the other of the two follows it, and
/// the explorer is remembered where it was come to from another pane.
pub proof fn law_focus_goes_where_asked(p: Panes, pane: Pane, sequences: nat)
    ensures
        ({
            let f = p.focused(pane, sequences);
            &&& f.focus == pane
            &&& p.zoom == Some(ZoomPane::Request) && pane == Pane::Response ==> f.zoom == Some(
                ZoomPane::Response,
            )
            &&& p.zoom == Some(ZoomPane::Response) && pane == Pane::Request ==> f.zoom == Some(
                ZoomPane::Request,
            )
            &&& pane == Pane::Explorer || pane == Pane::UrlBar ==> f.zoom == p.zoom
            &&& p.zoom is None ==> f.zoom is None
            &&& pane == Pane::Explorer ==> !f.explorer_hidden
            &&& pane != Pane::Explorer ==> f.explorer_hidden == p.explorer_hidden
                && f.focus_before_explorer == p.focus_before_explorer
            &&& pane == Pane::Explorer && p.focus != Pane::Explorer ==> f.focus_before_explorer
                == Some(p.focus)
            &&& f.sequences_shown == p.sequences_shown
        }),
{
}

/// The explorer is hidden where it is shown and shown, with the focus, where it is hidden. The
/// focus that a hidden explorer had goes back to where it came from, or to the URL.
pub proof fn law_explorer_hides_and_shows(p: Panes, sequences: nat)
    ensures
        ({
            let t = p.explorer_toggled(sequences);
            &&& t.explorer_hidden != p.explorer_hidden
            &&& p.explorer_hidden ==> t.focus == Pane::Explorer
            &&& !p.explorer_hidden && p.focus != Pane::Explorer ==> t.focus == p.focus
            &&& !p.explorer_hidden && p.focus == Pane::Explorer ==> (p.focus_before_explorer matches
                Some(q) ==> t.focus == q)
            &&& !p.explorer_hidden && p.focus == Pane::Explorer && p.focus_before_explorer is None
                ==> t.focus == Pane::UrlBar
        }),
{
}

/// The list of sequences is shown, with the focus on it where there are sequences, or hidden
/// again; the switch between the two lists goes to the other one and shows it.
pub proof fn law_sequences_show_and_hide(p: Panes, sequences: nat)
    requires
        sequences > 0,
    ensures
        ({
            let t = p.sequences_toggled(sequences);
            let s = p.sub_pane_switched(sequences);
            &&& t.sequences_shown != p.sequences_shown
            &&& p.sequences_shown ==> t.left_active is Endpoints && t.focus == p.focus
            &&& !p.sequences_shown ==> t.left_active is Sequences && t.focus == Pane::Explorer
            &&& s.sequences_shown && s.focus == Pane::Explorer
            &&& p.left_active is Endpoints ==> s.left_active is Sequences
            &&& p.left_active is Sequences ==> s.left_active is Endpoints
        }),
{
}

/// A workspace that is switched to starts on the explorer's endpoints, with nothing zoomed and
/// the list of sequences hidden.
pub proof fn law_new_workspace_starts_on_the_endpoints(p: Panes, sequences: nat)
    ensures
        ({
            let r = p.workspace_reset(sequences);
            &&& r.focus == Pane::Explorer
            &&& r.zoom is None
            &&& !r.explorer_hidden
            &&& r.left_active is Endpoints
            &&& !r.sequences_shown
        }),
{
}

/// The list of sequences has the keys where the explorer has the focus and shows that list.
pub proof fn law_sequences_have_the_keys(p: Panes)
    ensures
        p.on_sequences() <==> p.focus == Pane::Explorer && p.sequences_shown && p.left_active
            is Sequences,
        p.collapsed(Pane::Response) <==> p.zoom == Some(ZoomPane::Request),
        p.collapsed(Pane::Request) <==> p.zoom == Some(ZoomPane::Response),
        !p.collapsed(Pane::UrlBar),
        !p.collapsed(Pane::Explorer),
{
}

} // verus!
