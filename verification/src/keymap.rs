//! Actions, and the keys that they are bound to.

use vstd::prelude::*;
use vstd::string::*;

use crate::keys::{Key, KeyEvent};
use crate::mode::LeaderMenu;
use crate::pane::PaneCtx;
use crate::text::{decimal, decimal_text};

verus! {

/// What a key or a palette entry asks for.
#[derive(Debug, Clone, Copy, PartialEq, Eq, Structural)]
pub enum Action {
    /// Quit.
    Quit,
    /// Next pane.
    FocusNext,
    /// Previous pane.
    FocusPrev,
    /// Focus explorer.
    FocusExplorer,
    /// Focus URL bar.
    FocusUrlBar,
    /// Focus request.
    FocusRequest,
    /// Focus response.
    FocusResponse,
    /// Toggle explorer.
    ToggleExplorer,
    /// Toggle sequences pane.
    ToggleSequencesPane,
    /// Switch endpoints and sequences.
    FocusSequencesToggle,
    /// Zoom pane.
    Zoom,
    /// Help.
    Help,
    /// Leader.
    Leader,
    /// Edit URL in popup.
    EditUrlPopup,
    /// Search endpoints.
    OpenSearch,
    /// Command palette.
    OpenPalette,
    /// Jump.
    Jump,
    /// Switch profile.
    SwitchProfile,
    /// Edit environments.
    OpenEnvEditor,
    /// Run sequence.
    RunSequence,
    /// Edit sequence.
    EditSequence,
    /// Open sequence.
    OpenSequencePicker,
    /// Pick sequence to run.
    PickSequenceToRun,
    /// Load-test endpoint.
    OpenLoadRunner,
    /// Pick endpoint to load-test.
    OpenLoadRunnerPick,
    /// Send request.
    Send,
    /// Cancel request.
    Cancel,
    /// Save request.
    Save,
    /// Edit URL.
    EditUrl,
    /// Next method.
    MethodCycle,
    /// Method menu.
    MethodMenu,
    /// Next tab.
    TabNext,
    /// Previous tab.
    TabPrev,
    /// Params tab.
    Tab1,
    /// Headers tab.
    Tab2,
    /// Auth tab.
    Tab3,
    /// Body tab.
    Tab4,
    /// Add row.
    RowAdd,
    /// Delete row.
    RowDelete,
    /// Toggle row.
    RowToggle,
    /// Edit row.
    RowEdit,
    /// New endpoint.
    NewEndpoint,
    /// New collection.
    NewCollection,
    /// New endpoint in ….
    NewEndpointPick,
    /// New collection in ….
    NewCollectionPick,
    /// Rename.
    Rename,
    /// Delete.
    Delete,
    /// Move to ….
    MoveTo,
    /// Copy to ….
    CopyTo,
    /// Duplicate.
    Duplicate,
    /// Move up among siblings.
    ReorderUp,
    /// Move down among siblings.
    ReorderDown,
    /// Half page down.
    HalfPageDown,
    /// Half page up.
    HalfPageUp,
    /// Body or headers.
    ToggleHeadersView,
    /// Toggle wrap.
    ToggleWrap,
    /// Raw or pretty.
    TogglePretty,
    /// Sort keys.
    ToggleSortKeys,
    /// Line numbers.
    ToggleLineNumbers,
    /// Search response.
    OpenBodySearch,
    /// Next match.
    SearchNext,
    /// Previous match.
    SearchPrev,
    /// Fold.
    ToggleFold,
    /// Fold all.
    ToggleAllFolds,
    /// Next node.
    StructuralNext,
    /// Previous node.
    StructuralPrev,
    /// Pan left.
    ScrollBodyLeft,
    /// Pan right.
    ScrollBodyRight,
    /// Copy response.
    CopyResponse,
    /// Copy line.
    CopyLine,
    /// Save response body.
    SaveResponseBody,
    /// Find request.
    QuickJumpRequests,
    /// Switch workspace.
    QuickJumpWorkspaces,
    /// Import collection.
    ImportCollection,
    /// Export collection (Postman).
    ExportCollectionPostman,
    /// Export collection (churl).
    ExportCollectionNative,
    /// Export workspace (Postman).
    ExportWorkspacePostman,
    /// Export workspace (churl).
    ExportWorkspaceNative,
    /// Paste curl.
    PasteCurl,
    /// Copy as curl.
    CopyAsCurl,
    /// Copy as curl (resolved).
    CopyAsCurlResolved,
    /// Next open tab.
    BufferNext,
    /// Previous open tab.
    BufferPrev,
    /// Close tab.
    BufferClose,
    /// Close all tabs.
    BufferCloseAll,
    /// Body type.
    BodyType,
    /// Session options.
    OpenOptions,
    /// Settings.
    OpenSettings,
    /// Inspect exchange.
    OpenInspector,
    /// Debug capture.
    ToggleDebug,
    /// Toggle TLS checks.
    ToggleInsecure,
    /// Toggle TLS checks of endpoint.
    ToggleEndpointInsecure,
    /// Up.
    Up,
    /// Down.
    Down,
    /// Select.
    Select,
    /// Collapse.
    Collapse,
    /// Expand.
    Expand,
    /// Top.
    Top,
    /// Bottom.
    Bottom,
}

impl Action {
    /// The action in words.
    pub open spec fn spec_label(self) -> Seq<char> {
        match self {
            Action::Quit => "quit"@,
            Action::FocusNext => "next pane"@,
            Action::FocusPrev => "previous pane"@,
            Action::FocusExplorer => "focus explorer"@,
            Action::FocusUrlBar => "focus URL bar"@,
            Action::FocusRequest => "focus request"@,
            Action::FocusResponse => "focus response"@,
            Action::ToggleExplorer => "toggle explorer"@,
            Action::ToggleSequencesPane => "toggle sequences pane"@,
            Action::FocusSequencesToggle => "switch endpoints and sequences"@,
            Action::Zoom => "zoom pane"@,
            Action::Help => "help"@,
            Action::Leader => "leader"@,
            Action::EditUrlPopup => "edit URL in popup"@,
            Action::OpenSearch => "search endpoints"@,
            Action::OpenPalette => "command palette"@,
            Action::Jump => "jump"@,
            Action::SwitchProfile => "switch profile"@,
            Action::OpenEnvEditor => "edit environments"@,
            Action::RunSequence => "run sequence"@,
            Action::EditSequence => "edit sequence"@,
            Action::OpenSequencePicker => "open sequence"@,
            Action::PickSequenceToRun => "pick sequence to run"@,
            Action::OpenLoadRunner => "load-test endpoint"@,
            Action::OpenLoadRunnerPick => "pick endpoint to load-test"@,
            Action::Send => "send request"@,
            Action::Cancel => "cancel request"@,
            Action::Save => "save request"@,
            Action::EditUrl => "edit URL"@,
            Action::MethodCycle => "next method"@,
            Action::MethodMenu => "method menu"@,
            Action::TabNext => "next tab"@,
            Action::TabPrev => "previous tab"@,
            Action::Tab1 => "params tab"@,
            Action::Tab2 => "headers tab"@,
            Action::Tab3 => "auth tab"@,
            Action::Tab4 => "body tab"@,
            Action::RowAdd => "add row"@,
            Action::RowDelete => "delete row"@,
            Action::RowToggle => "toggle row"@,
            Action::RowEdit => "edit row"@,
            Action::NewEndpoint => "new endpoint"@,
            Action::NewCollection => "new collection"@,
            Action::NewEndpointPick => "new endpoint in …"@,
            Action::NewCollectionPick => "new collection in …"@,
            Action::Rename => "rename"@,
            Action::Delete => "delete"@,
            Action::MoveTo => "move to …"@,
            Action::CopyTo => "copy to …"@,
            Action::Duplicate => "duplicate"@,
            Action::ReorderUp => "move up among siblings"@,
            Action::ReorderDown => "move down among siblings"@,
            Action::HalfPageDown => "half page down"@,
            Action::HalfPageUp => "half page up"@,
            Action::ToggleHeadersView => "body or headers"@,
            Action::ToggleWrap => "toggle wrap"@,
            Action::TogglePretty => "raw or pretty"@,
            Action::ToggleSortKeys => "sort keys"@,
            Action::ToggleLineNumbers => "line numbers"@,
            Action::OpenBodySearch => "search response"@,
            Action::SearchNext => "next match"@,
            Action::SearchPrev => "previous match"@,
            Action::ToggleFold => "fold"@,
            Action::ToggleAllFolds => "fold all"@,
            Action::StructuralNext => "next node"@,
            Action::StructuralPrev => "previous node"@,
            Action::ScrollBodyLeft => "pan left"@,
            Action::ScrollBodyRight => "pan right"@,
            Action::CopyResponse => "copy response"@,
            Action::CopyLine => "copy line"@,
            Action::SaveResponseBody => "save response body"@,
            Action::QuickJumpRequests => "find request"@,
            Action::QuickJumpWorkspaces => "switch workspace"@,
            Action::ImportCollection => "import collection"@,
            Action::ExportCollectionPostman => "export collection (Postman)"@,
            Action::ExportCollectionNative => "export collection (churl)"@,
            Action::ExportWorkspacePostman => "export workspace (Postman)"@,
            Action::ExportWorkspaceNative => "export workspace (churl)"@,
            Action::PasteCurl => "paste curl"@,
            Action::CopyAsCurl => "copy as curl"@,
            Action::CopyAsCurlResolved => "copy as curl (resolved)"@,
            Action::BufferNext => "next open tab"@,
            Action::BufferPrev => "previous open tab"@,
            Action::BufferClose => "close tab"@,
            Action::BufferCloseAll => "close all tabs"@,
            Action::BodyType => "body type"@,
            Action::OpenOptions => "session options"@,
            Action::OpenSettings => "settings"@,
            Action::OpenInspector => "inspect exchange"@,
            Action::ToggleDebug => "debug capture"@,
            Action::ToggleInsecure => "toggle TLS checks"@,
            Action::ToggleEndpointInsecure => "toggle TLS checks of endpoint"@,
            Action::Up => "up"@,
            Action::Down => "down"@,
            Action::Select => "select"@,
            Action::Collapse => "collapse"@,
            Action::Expand => "expand"@,
            Action::Top => "top"@,
            Action::Bottom => "bottom"@,
        }
    }

    /// The action in words.
    pub fn label(self) -> (r: &'static str)
        ensures
            r@ == self.spec_label(),
    {
        match self {
            Action::Quit => "quit",
            Action::FocusNext => "next pane",
            Action::FocusPrev => "previous pane",
            Action::FocusExplorer => "focus explorer",
            Action::FocusUrlBar => "focus URL bar",
            Action::FocusRequest => "focus request",
            Action::FocusResponse => "focus response",
            Action::ToggleExplorer => "toggle explorer",
            Action::ToggleSequencesPane => "toggle sequences pane",
            Action::FocusSequencesToggle => "switch endpoints and sequences",
            Action::Zoom => "zoom pane",
            Action::Help => "help",
            Action::Leader => "leader",
            Action::EditUrlPopup => "edit URL in popup",
            Action::OpenSearch => "search endpoints",
            Action::OpenPalette => "command palette",
            Action::Jump => "jump",
            Action::SwitchProfile => "switch profile",
            Action::OpenEnvEditor => "edit environments",
            Action::RunSequence => "run sequence",
            Action::EditSequence => "edit sequence",
            Action::OpenSequencePicker => "open sequence",
            Action::PickSequenceToRun => "pick sequence to run",
            Action::OpenLoadRunner => "load-test endpoint",
            Action::OpenLoadRunnerPick => "pick endpoint to load-test",
            Action::Send => "send request",
            Action::Cancel => "cancel request",
            Action::Save => "save request",
            Action::EditUrl => "edit URL",
            Action::MethodCycle => "next method",
            Action::MethodMenu => "method menu",
            Action::TabNext => "next tab",
            Action::TabPrev => "previous tab",
            Action::Tab1 => "params tab",
            Action::Tab2 => "headers tab",
            Action::Tab3 => "auth tab",
            Action::Tab4 => "body tab",
            Action::RowAdd => "add row",
            Action::RowDelete => "delete row",
            Action::RowToggle => "toggle row",
            Action::RowEdit => "edit row",
            Action::NewEndpoint => "new endpoint",
            Action::NewCollection => "new collection",
            Action::NewEndpointPick => "new endpoint in …",
            Action::NewCollectionPick => "new collection in …",
            Action::Rename => "rename",
            Action::Delete => "delete",
            Action::MoveTo => "move to …",
            Action::CopyTo => "copy to …",
            Action::Duplicate => "duplicate",
            Action::ReorderUp => "move up among siblings",
            Action::ReorderDown => "move down among siblings",
            Action::HalfPageDown => "half page down",
            Action::HalfPageUp => "half page up",
            Action::ToggleHeadersView => "body or headers",
            Action::ToggleWrap => "toggle wrap",
            Action::TogglePretty => "raw or pretty",
            Action::ToggleSortKeys => "sort keys",
            Action::ToggleLineNumbers => "line numbers",
            Action::OpenBodySearch => "search response",
            Action::SearchNext => "next match",
            Action::SearchPrev => "previous match",
            Action::ToggleFold => "fold",
            Action::ToggleAllFolds => "fold all",
            Action::StructuralNext => "next node",
            Action::StructuralPrev => "previous node",
            Action::ScrollBodyLeft => "pan left",
            Action::ScrollBodyRight => "pan right",
            Action::CopyResponse => "copy response",
            Action::CopyLine => "copy line",
            Action::SaveResponseBody => "save response body",
            Action::QuickJumpRequests => "find request",
            Action::QuickJumpWorkspaces => "switch workspace",
            Action::ImportCollection => "import collection",
            Action::ExportCollectionPostman => "export collection (Postman)",
            Action::ExportCollectionNative => "export collection (churl)",
            Action::ExportWorkspacePostman => "export workspace (Postman)",
            Action::ExportWorkspaceNative => "export workspace (churl)",
            Action::PasteCurl => "paste curl",
            Action::CopyAsCurl => "copy as curl",
            Action::CopyAsCurlResolved => "copy as curl (resolved)",
            Action::BufferNext => "next open tab",
            Action::BufferPrev => "previous open tab",
            Action::BufferClose => "close tab",
            Action::BufferCloseAll => "close all tabs",
            Action::BodyType => "body type",
            Action::OpenOptions => "session options",
            Action::OpenSettings => "settings",
            Action::OpenInspector => "inspect exchange",
            Action::ToggleDebug => "debug capture",
            Action::ToggleInsecure => "toggle TLS checks",
            Action::ToggleEndpointInsecure => "toggle TLS checks of endpoint",
            Action::Up => "up",
            Action::Down => "down",
            Action::Select => "select",
            Action::Collapse => "collapse",
            Action::Expand => "expand",
            Action::Top => "top",
            Action::Bottom => "bottom",
        }
    }
}

/// The tables that a key is looked up in.
#[derive(Debug, Clone, Copy, PartialEq, Eq, Structural)]
pub enum Layer {
    /// The global map.
    Global,
    /// A pane's overlay, which wins over the global map.
    Pane(PaneCtx),
    /// The first level behind the leader key.
    LeaderRoot,
    /// A submenu behind the leader key.
    Leader(LeaderMenu),
}

/// One key of one table.
#[derive(Debug, Clone, Copy, PartialEq, Eq, Structural)]
pub struct Binding {
    /// The table.
    pub layer: Layer,
    /// The key.
    pub key: KeyEvent,
    /// What the key asks for.
    pub action: Action,
}

/// A key on the first level behind the leader key that opens a submenu.
#[derive(Debug, Clone, Copy, PartialEq, Eq, Structural)]
pub struct MenuKey {
    /// The key.
    pub key: KeyEvent,
    /// The submenu.
    pub menu: LeaderMenu,
}

/// What a key on the first level behind the leader key leads to.
#[derive(Debug, Clone, Copy, PartialEq, Eq, Structural)]
pub enum LeaderEntry {
    /// An action.
    Act(Action),
    /// A submenu.
    Submenu(LeaderMenu),
}

/// The bindings: where a key is bound more than once in a table, the first wins.
#[derive(Debug)]
pub struct KeyMap {
    /// The leader key.
    pub leader: KeyEvent,
    /// The keys of all tables.
    pub bindings: Vec<Binding>,
    /// The keys that open submenus.
    pub menus: Vec<MenuKey>,
}

/// What `key` is bound to in `layer`: the first binding of it there.
pub open spec fn bound(bindings: Seq<Binding>, layer: Layer, key: KeyEvent) -> Option<Action>
    decreases bindings.len(),
{
    if bindings.len() == 0 {
        None
    } else if bindings[0].layer == layer && bindings[0].key == key {
        Some(bindings[0].action)
    } else {
        bound(bindings.skip(1), layer, key)
    }
}

/// The submenu that `key` opens: the first that it is bound to.
pub open spec fn menu_of(menus: Seq<MenuKey>, key: KeyEvent) -> Option<LeaderMenu>
    decreases menus.len(),
{
    if menus.len() == 0 {
        None
    } else if menus[0].key == key {
        Some(menus[0].menu)
    } else {
        menu_of(menus.skip(1), key)
    }
}

/// The name of a key as it is shown.
pub open spec fn key_text(key: KeyEvent) -> Seq<char> {
    let ctrl = if key.modifiers.control {
        "ctrl-"@
    } else {
        Seq::empty()
    };
    let alt = if key.modifiers.alt {
        "alt-"@
    } else {
        Seq::empty()
    };
    let code = match key.code {
        Key::Char(c) => if c == ' ' {
            "space"@
        } else {
            seq![c]
        },
        Key::Esc => "esc"@,
        Key::Enter => "enter"@,
        Key::Tab => "tab"@,
        Key::BackTab => "shift-tab"@,
        Key::Backspace => "backspace"@,
        Key::Delete => "delete"@,
        Key::Up => "up"@,
        Key::Down => "down"@,
        Key::Left => "left"@,
        Key::Right => "right"@,
        Key::Home => "home"@,
        Key::End => "end"@,
        Key::PageUp => "pageup"@,
        Key::PageDown => "pagedown"@,
        Key::Function(n) => "f"@ + decimal(n as nat),
        Key::Other => "?"@,
    };
    ctrl + alt + code
}

fn code_name(code: Key) -> (r: &'static str)
    requires
        !(code is Char),
        !(code is Function),
    ensures
        r@ == key_text(KeyEvent { code, modifiers: crate::keys::KeyModifiers::spec_none() }),
{
    let r = match code {
        Key::Esc => "esc",
        Key::Enter => "enter",
        Key::Tab => "tab",
        Key::BackTab => "shift-tab",
        Key::Backspace => "backspace",
        Key::Delete => "delete",
        Key::Up => "up",
        Key::Down => "down",
        Key::Left => "left",
        Key::Right => "right",
        Key::Home => "home",
        Key::End => "end",
        Key::PageUp => "pageup",
        Key::PageDown => "pagedown",
        _ => "?",
    };
    assert(Seq::<char>::empty() + Seq::<char>::empty() + r@ =~= r@);
    r
}

/// The name of a key as it is shown.
pub fn key_name(key: KeyEvent) -> (r: String)
    ensures
        r@ == key_text(key),
{
    let mut out = String::new();
    if key.modifiers.control {
        out.append("ctrl-");
    }
    if key.modifiers.alt {
        out.append("alt-");
    }
    let ghost head = out@;
    match key.code {
        Key::Char(c) => {
            if c == ' ' {
                out.append("space");
            } else {
                out.push(c);
                assert(head.push(c) =~= head + seq![c]);
            }
        },
        Key::Function(n) => {
            out.append("f");
            let d = decimal_text(n as u64);
            out.append(d.as_str());
            assert(head + "f"@ + decimal(n as nat) =~= head + ("f"@ + decimal(n as nat)));
        },
        code => {
            out.append(code_name(code));
            assert(Seq::<char>::empty() + Seq::<char>::empty() =~= Seq::<char>::empty());
        },
    }
    assert(out@ =~= key_text(key));
    out
}

/// The keys behind the leader key that lead to `action`, in order: a key of the
/// first level alone, and a key of a submenu behind each key that opens it.
pub open spec fn leader_combos(
    bindings: Seq<Binding>,
    menus: Seq<MenuKey>,
    action: Action,
) -> Seq<Seq<char>>
    decreases bindings.len(),
{
    if bindings.len() == 0 {
        Seq::empty()
    } else {
        let b = bindings.last();
        let before = leader_combos(bindings.drop_last(), menus, action);
        if b.action != action {
            before
        } else {
            match b.layer {
                Layer::LeaderRoot => before.push(key_text(b.key)),
                Layer::Leader(menu) => before + chords(menus, menu, b.key),
                _ => before,
            }
        }
    }
}

/// The ways to a key of a submenu: behind each key that opens it.
pub open spec fn chords(menus: Seq<MenuKey>, menu: LeaderMenu, key: KeyEvent) -> Seq<Seq<char>>
    decreases menus.len(),
{
    if menus.len() == 0 {
        Seq::empty()
    } else {
        let before = chords(menus.drop_last(), menu, key);
        if menus.last().menu == menu {
            before.push(key_text(menus.last().key) + " "@ + key_text(key))
        } else {
            before
        }
    }
}

/// The bindings that stand behind the leader key, of both levels, in order.
pub open spec fn leader_bindings(bindings: Seq<Binding>) -> Seq<Binding> {
    bindings.filter(|b: Binding| b.layer is LeaderRoot || b.layer is Leader)
}

/// The bindings of one table, in order.
pub open spec fn layer_bindings(bindings: Seq<Binding>, layer: Layer) -> Seq<Binding> {
    bindings.filter(|b: Binding| b.layer == layer)
}

impl KeyMap {
    /// What `key` is bound to globally.
    pub open spec fn spec_lookup(&self, key: KeyEvent) -> Option<Action> {
        bound(self.bindings@, Layer::Global, key)
    }

    /// What `key` is bound to while a pane is focused: its overlay wins over the
    /// global map.
    pub open spec fn spec_lookup_ctx(&self, key: KeyEvent, ctx: PaneCtx) -> Option<Action> {
        match bound(self.bindings@, Layer::Pane(ctx), key) {
            Some(a) => Some(a),
            None => bound(self.bindings@, Layer::Global, key),
        }
    }

    /// What `key` leads to on the first level behind the leader key.
    pub open spec fn spec_leader_root(&self, key: KeyEvent) -> Option<LeaderEntry> {
        match bound(self.bindings@, Layer::LeaderRoot, key) {
            Some(a) => Some(LeaderEntry::Act(a)),
            None => match menu_of(self.menus@, key) {
                Some(m) => Some(LeaderEntry::Submenu(m)),
                None => None,
            },
        }
    }

    /// What `key` is bound to in a submenu behind the leader key.
    pub open spec fn spec_leader_sub(&self, menu: LeaderMenu, key: KeyEvent) -> Option<Action> {
        bound(self.bindings@, Layer::Leader(menu), key)
    }

    fn find(&self, layer: Layer, key: KeyEvent) -> (r: Option<Action>)
        ensures
            r == bound(self.bindings@, layer, key),
    {
        let mut i: usize = 0;
        assert(self.bindings@.skip(0) =~= self.bindings@);
        while i < self.bindings.len()
            invariant
                i <= self.bindings.len(),
                bound(self.bindings@, layer, key) == bound(
                    self.bindings@.skip(i as int),
                    layer,
                    key,
                ),
            decreases self.bindings.len() - i,
        {
            assert(self.bindings@.skip(i as int).skip(1) =~= self.bindings@.skip(i + 1));
            let b = self.bindings[i];
            if b.layer == layer && b.key == key {
                return Some(b.action);
            }
            i = i + 1;
        }
        None
    }

    /// What `key` is bound to globally.
    pub fn lookup(&self, key: KeyEvent) -> (r: Option<Action>)
        ensures
            r == self.spec_lookup(key),
    {
        self.find(Layer::Global, key)
    }

    /// What `key` is bound to while a pane is focused.
    pub fn lookup_ctx(&self, key: KeyEvent, ctx: PaneCtx) -> (r: Option<Action>)
        ensures
            r == self.spec_lookup_ctx(key, ctx),
    {
        match self.find(Layer::Pane(ctx), key) {
            Some(a) => Some(a),
            None => self.find(Layer::Global, key),
        }
    }

    /// Whether `key` is the leader key.
    pub fn is_leader(&self, key: KeyEvent) -> (r: bool)
        ensures
            r == (key == self.leader),
    {
        key == self.leader
    }

    fn find_menu(&self, key: KeyEvent) -> (r: Option<LeaderMenu>)
        ensures
            r == menu_of(self.menus@, key),
    {
        let mut i: usize = 0;
        assert(self.menus@.skip(0) =~= self.menus@);
        while i < self.menus.len()
            invariant
                i <= self.menus.len(),
                menu_of(self.menus@, key) == menu_of(self.menus@.skip(i as int), key),
            decreases self.menus.len() - i,
        {
            assert(self.menus@.skip(i as int).skip(1) =~= self.menus@.skip(i + 1));
            let m = self.menus[i];
            if m.key == key {
                return Some(m.menu);
            }
            i = i + 1;
        }
        None
    }

    /// What `key` leads to on the first level behind the leader key.
    pub fn leader_root_lookup(&self, key: KeyEvent) -> (r: Option<LeaderEntry>)
        ensures
            r == self.spec_leader_root(key),
    {
        match self.find(Layer::LeaderRoot, key) {
            Some(a) => Some(LeaderEntry::Act(a)),
            None => match self.find_menu(key) {
                Some(m) => Some(LeaderEntry::Submenu(m)),
                None => None,
            },
        }
    }

    /// What `key` is bound to in a submenu behind the leader key.
    pub fn leader_sub_lookup(&self, menu: LeaderMenu, key: KeyEvent) -> (r: Option<Action>)
        ensures
            r == self.spec_leader_sub(menu, key),
    {
        self.find(Layer::Leader(menu), key)
    }

    /// Binds `key` to `action` in `layer`, over any binding of it there.
    pub fn bind(&mut self, layer: Layer, key: KeyEvent, action: Action)
        ensures
            *final(self) == (KeyMap { bindings: final(self).bindings, ..*old(self) }),
            final(self).bindings@ == seq![Binding { layer, key, action }] + old(self).bindings@,
            bound(final(self).bindings@, layer, key) == Some(action),
    {
        let b = Binding { layer, key, action };
        let ghost before = self.bindings@;
        self.bindings.insert(0, b);
        assert(self.bindings@ =~= seq![b] + before);
    }

    fn push_chords(&self, menu: LeaderMenu, key: KeyEvent, out: &mut Vec<String>)
        ensures
            crate::text::texts(final(out)@) == crate::text::texts(old(out)@) + chords(
                self.menus@,
                menu,
                key,
            ),
    {
        let ghost start = crate::text::texts(out@);
        let mut i: usize = 0;
        assert(start + chords(self.menus@.take(0), menu, key) =~= start);
        while i < self.menus.len()
            invariant
                i <= self.menus.len(),
                crate::text::texts(out@) == start + chords(self.menus@.take(i as int), menu, key),
            decreases self.menus.len() - i,
        {
            let ghost before = out@;
            let m = self.menus[i];
            assert(self.menus@.take(i + 1).drop_last() =~= self.menus@.take(i as int));
            if m.menu == menu {
                let mut combo = key_name(m.key);
                combo.append(" ");
                let k = key_name(key);
                combo.append(k.as_str());
                let ghost c = combo@;
                out.push(combo);
                assert(crate::text::texts(out@) =~= crate::text::texts(before).push(c));
                assert(start + chords(self.menus@.take(i as int), menu, key).push(c) =~= (start
                    + chords(self.menus@.take(i as int), menu, key)).push(c));
            }
            i = i + 1;
        }
        assert(self.menus@.take(self.menus@.len() as int) =~= self.menus@);
    }

    /// The keys behind the leader key that lead to `action`: a submenu's key shows
    /// as the key that opens the submenu, a space and the key itself.
    pub fn leader_combos_for(&self, action: Action) -> (r: Vec<String>)
        ensures
            crate::text::texts(r@) == leader_combos(self.bindings@, self.menus@, action),
    {
        let mut out: Vec<String> = Vec::new();
        let mut i: usize = 0;
        assert(crate::text::texts(out@) =~= Seq::empty());
        while i < self.bindings.len()
            invariant
                i <= self.bindings.len(),
                crate::text::texts(out@) == leader_combos(
                    self.bindings@.take(i as int),
                    self.menus@,
                    action,
                ),
            decreases self.bindings.len() - i,
        {
            let ghost before = out@;
            let b = self.bindings[i];
            assert(self.bindings@.take(i + 1).drop_last() =~= self.bindings@.take(i as int));
            if b.action == action {
                match b.layer {
                    Layer::LeaderRoot => {
                        let name = key_name(b.key);
                        let ghost n = name@;
                        out.push(name);
                        assert(crate::text::texts(out@) =~= crate::text::texts(before).push(n));
                    },
                    Layer::Leader(menu) => {
                        self.push_chords(menu, b.key, &mut out);
                    },
                    _ => {},
                }
            }
            i = i + 1;
        }
        assert(self.bindings@.take(self.bindings@.len() as int) =~= self.bindings@);
        out
    }

    /// The bindings behind the leader key, of both levels.
    pub fn iter_leader(&self) -> (r: Vec<(KeyEvent, Action)>)
        ensures
            r@ == leader_bindings(self.bindings@).map_values(|b: Binding| (b.key, b.action)),
    {
        let mut out: Vec<(KeyEvent, Action)> = Vec::new();
        let mut i: usize = 0;
        let ghost keep = |b: Binding| b.layer is LeaderRoot || b.layer is Leader;
        let ghost pair = |b: Binding| (b.key, b.action);
        proof {
            reveal(Seq::filter);
        }
        assert(out@ =~= self.bindings@.take(0).filter(keep).map_values(pair));
        while i < self.bindings.len()
            invariant
                i <= self.bindings.len(),
                keep == (|b: Binding| b.layer is LeaderRoot || b.layer is Leader),
                pair == (|b: Binding| (b.key, b.action)),
                out@ == self.bindings@.take(i as int).filter(keep).map_values(pair),
            decreases self.bindings.len() - i,
        {
            let ghost before = out@;
            let b = self.bindings[i];
            proof {
                reveal(Seq::filter);
                assert(self.bindings@.take(i + 1).drop_last() =~= self.bindings@.take(i as int));
            }
            let behind = match b.layer {
                Layer::LeaderRoot => true,
                Layer::Leader(_) => true,
                _ => false,
            };
            if behind {
                out.push((b.key, b.action));
            }
            assert(out@ =~= self.bindings@.take(i + 1).filter(keep).map_values(pair));
            i = i + 1;
        }
        assert(self.bindings@.take(self.bindings@.len() as int) =~= self.bindings@);
        out
    }

    /// The bindings of one table.
    pub fn iter_layer(&self, layer: Layer) -> (r: Vec<Binding>)
        ensures
            r@ == layer_bindings(self.bindings@, layer),
    {
        let mut out: Vec<Binding> = Vec::new();
        let mut i: usize = 0;
        let ghost keep = |b: Binding| b.layer == layer;
        proof {
            reveal(Seq::filter);
        }
        assert(out@ =~= self.bindings@.take(0).filter(keep));
        while i < self.bindings.len()
            invariant
                i <= self.bindings.len(),
                keep == (|b: Binding| b.layer == layer),
                out@ == self.bindings@.take(i as int).filter(keep),
            decreases self.bindings.len() - i,
        {
            let b = self.bindings[i];
            proof {
                reveal(Seq::filter);
                assert(self.bindings@.take(i + 1).drop_last() =~= self.bindings@.take(i as int));
            }
            if b.layer == layer {
                out.push(b);
            }
            assert(out@ =~= self.bindings@.take(i + 1).filter(keep));
            i = i + 1;
        }
        assert(self.bindings@.take(self.bindings@.len() as int) =~= self.bindings@);
        out
    }
}


/// A binding.
pub open spec fn spec_bind(layer: Layer, key: KeyEvent, action: Action) -> Binding {
    Binding { layer, key, action }
}

fn bind(layer: Layer, key: KeyEvent, action: Action) -> (r: Binding)
    ensures
        r == spec_bind(layer, key, action),
{
    Binding { layer, key, action }
}

/// The default bindings of the global map.
pub open spec fn default_global() -> Seq<Binding> {
    seq![
        spec_bind(Layer::Global, KeyEvent::spec_char('q'), Action::Quit),
        spec_bind(Layer::Global, KeyEvent::spec_ctrl('c'), Action::Quit),
        spec_bind(Layer::Global, KeyEvent::spec_ctrl('s'), Action::Send),
        spec_bind(Layer::Global, KeyEvent::spec_key(Key::Tab), Action::FocusNext),
        spec_bind(Layer::Global, KeyEvent::spec_key(Key::BackTab), Action::FocusPrev),
        spec_bind(Layer::Global, KeyEvent::spec_char('?'), Action::Help),
        spec_bind(Layer::Global, KeyEvent::spec_char('f'), Action::Jump),
        spec_bind(Layer::Global, KeyEvent::spec_char('z'), Action::Zoom),
        spec_bind(Layer::Global, KeyEvent::spec_char('/'), Action::OpenSearch),
        spec_bind(Layer::Global, KeyEvent::spec_char(':'), Action::OpenPalette),
        spec_bind(Layer::Global, KeyEvent::spec_char('w'), Action::Save),
        spec_bind(Layer::Global, KeyEvent::spec_char('j'), Action::Down),
        spec_bind(Layer::Global, KeyEvent::spec_key(Key::Down), Action::Down),
        spec_bind(Layer::Global, KeyEvent::spec_char('k'), Action::Up),
        spec_bind(Layer::Global, KeyEvent::spec_key(Key::Up), Action::Up),
        spec_bind(Layer::Global, KeyEvent::spec_char('h'), Action::Collapse),
        spec_bind(Layer::Global, KeyEvent::spec_char('l'), Action::Expand),
        spec_bind(Layer::Global, KeyEvent::spec_key(Key::Enter), Action::Select),
        spec_bind(Layer::Global, KeyEvent::spec_char('g'), Action::Top),
        spec_bind(Layer::Global, KeyEvent::spec_char('G'), Action::Bottom),
        spec_bind(Layer::Global, KeyEvent::spec_ctrl('d'), Action::HalfPageDown),
        spec_bind(Layer::Global, KeyEvent::spec_ctrl('u'), Action::HalfPageUp),
        spec_bind(Layer::Global, KeyEvent::spec_char('C'), Action::CopyAsCurl),
    ]
}

fn global_bindings() -> (r: Vec<Binding>)
    ensures
        r@ == default_global(),
{
    let r = vec![
        bind(Layer::Global, KeyEvent::char('q'), Action::Quit),
        bind(Layer::Global, KeyEvent::ctrl('c'), Action::Quit),
        bind(Layer::Global, KeyEvent::ctrl('s'), Action::Send),
        bind(Layer::Global, KeyEvent::key(Key::Tab), Action::FocusNext),
        bind(Layer::Global, KeyEvent::key(Key::BackTab), Action::FocusPrev),
        bind(Layer::Global, KeyEvent::char('?'), Action::Help),
        bind(Layer::Global, KeyEvent::char('f'), Action::Jump),
        bind(Layer::Global, KeyEvent::char('z'), Action::Zoom),
        bind(Layer::Global, KeyEvent::char('/'), Action::OpenSearch),
        bind(Layer::Global, KeyEvent::char(':'), Action::OpenPalette),
        bind(Layer::Global, KeyEvent::char('w'), Action::Save),
        bind(Layer::Global, KeyEvent::char('j'), Action::Down),
        bind(Layer::Global, KeyEvent::key(Key::Down), Action::Down),
        bind(Layer::Global, KeyEvent::char('k'), Action::Up),
        bind(Layer::Global, KeyEvent::key(Key::Up), Action::Up),
        bind(Layer::Global, KeyEvent::char('h'), Action::Collapse),
        bind(Layer::Global, KeyEvent::char('l'), Action::Expand),
        bind(Layer::Global, KeyEvent::key(Key::Enter), Action::Select),
        bind(Layer::Global, KeyEvent::char('g'), Action::Top),
        bind(Layer::Global, KeyEvent::char('G'), Action::Bottom),
        bind(Layer::Global, KeyEvent::ctrl('d'), Action::HalfPageDown),
        bind(Layer::Global, KeyEvent::ctrl('u'), Action::HalfPageUp),
        bind(Layer::Global, KeyEvent::char('C'), Action::CopyAsCurl),
    ];
    assert(r@ =~= default_global());
    r
}

/// The default bindings of the explorer's and the URL bar's overlays.
pub open spec fn default_explorer() -> Seq<Binding> {
    seq![
        spec_bind(Layer::Pane(PaneCtx::Explorer), KeyEvent::spec_char('n'), Action::NewEndpoint),
        spec_bind(Layer::Pane(PaneCtx::Explorer), KeyEvent::spec_char('N'), Action::NewCollection),
        spec_bind(Layer::Pane(PaneCtx::Explorer), KeyEvent::spec_char('r'), Action::Rename),
        spec_bind(Layer::Pane(PaneCtx::Explorer), KeyEvent::spec_char('d'), Action::Delete),
        spec_bind(Layer::Pane(PaneCtx::Explorer), KeyEvent::spec_char('s'), Action::FocusSequencesToggle),
        spec_bind(Layer::Pane(PaneCtx::UrlBar), KeyEvent::spec_char('i'), Action::EditUrl),
        spec_bind(Layer::Pane(PaneCtx::UrlBar), KeyEvent::spec_key(Key::Enter), Action::EditUrl),
        spec_bind(Layer::Pane(PaneCtx::UrlBar), KeyEvent::spec_char('e'), Action::EditUrlPopup),
        spec_bind(Layer::Pane(PaneCtx::UrlBar), KeyEvent::spec_char('m'), Action::MethodCycle),
        spec_bind(Layer::Pane(PaneCtx::UrlBar), KeyEvent::spec_char('M'), Action::MethodMenu),
    ]
}

fn explorer_bindings() -> (r: Vec<Binding>)
    ensures
        r@ == default_explorer(),
{
    let r = vec![
        bind(Layer::Pane(PaneCtx::Explorer), KeyEvent::char('n'), Action::NewEndpoint),
        bind(Layer::Pane(PaneCtx::Explorer), KeyEvent::char('N'), Action::NewCollection),
        bind(Layer::Pane(PaneCtx::Explorer), KeyEvent::char('r'), Action::Rename),
        bind(Layer::Pane(PaneCtx::Explorer), KeyEvent::char('d'), Action::Delete),
        bind(Layer::Pane(PaneCtx::Explorer), KeyEvent::char('s'), Action::FocusSequencesToggle),
        bind(Layer::Pane(PaneCtx::UrlBar), KeyEvent::char('i'), Action::EditUrl),
        bind(Layer::Pane(PaneCtx::UrlBar), KeyEvent::key(Key::Enter), Action::EditUrl),
        bind(Layer::Pane(PaneCtx::UrlBar), KeyEvent::char('e'), Action::EditUrlPopup),
        bind(Layer::Pane(PaneCtx::UrlBar), KeyEvent::char('m'), Action::MethodCycle),
        bind(Layer::Pane(PaneCtx::UrlBar), KeyEvent::char('M'), Action::MethodMenu),
    ];
    assert(r@ =~= default_explorer());
    r
}

/// The default bindings of the request pane's overlay.
pub open spec fn default_request() -> Seq<Binding> {
    seq![
        spec_bind(Layer::Pane(PaneCtx::Request), KeyEvent::spec_char('1'), Action::Tab1),
        spec_bind(Layer::Pane(PaneCtx::Request), KeyEvent::spec_char('2'), Action::Tab2),
        spec_bind(Layer::Pane(PaneCtx::Request), KeyEvent::spec_char('3'), Action::Tab3),
        spec_bind(Layer::Pane(PaneCtx::Request), KeyEvent::spec_char('4'), Action::Tab4),
        spec_bind(Layer::Pane(PaneCtx::Request), KeyEvent::spec_char(']'), Action::TabNext),
        spec_bind(Layer::Pane(PaneCtx::Request), KeyEvent::spec_char('['), Action::TabPrev),
        spec_bind(Layer::Pane(PaneCtx::Request), KeyEvent::spec_char('a'), Action::RowAdd),
        spec_bind(Layer::Pane(PaneCtx::Request), KeyEvent::spec_char('d'), Action::RowDelete),
        spec_bind(Layer::Pane(PaneCtx::Request), KeyEvent::spec_char(' '), Action::RowToggle),
        spec_bind(Layer::Pane(PaneCtx::Request), KeyEvent::spec_char('i'), Action::RowEdit),
        spec_bind(Layer::Pane(PaneCtx::Request), KeyEvent::spec_char('b'), Action::BodyType),
    ]
}

fn request_bindings() -> (r: Vec<Binding>)
    ensures
        r@ == default_request(),
{
    let r = vec![
        bind(Layer::Pane(PaneCtx::Request), KeyEvent::char('1'), Action::Tab1),
        bind(Layer::Pane(PaneCtx::Request), KeyEvent::char('2'), Action::Tab2),
        bind(Layer::Pane(PaneCtx::Request), KeyEvent::char('3'), Action::Tab3),
        bind(Layer::Pane(PaneCtx::Request), KeyEvent::char('4'), Action::Tab4),
        bind(Layer::Pane(PaneCtx::Request), KeyEvent::char(']'), Action::TabNext),
        bind(Layer::Pane(PaneCtx::Request), KeyEvent::char('['), Action::TabPrev),
        bind(Layer::Pane(PaneCtx::Request), KeyEvent::char('a'), Action::RowAdd),
        bind(Layer::Pane(PaneCtx::Request), KeyEvent::char('d'), Action::RowDelete),
        bind(Layer::Pane(PaneCtx::Request), KeyEvent::char(' '), Action::RowToggle),
        bind(Layer::Pane(PaneCtx::Request), KeyEvent::char('i'), Action::RowEdit),
        bind(Layer::Pane(PaneCtx::Request), KeyEvent::char('b'), Action::BodyType),
    ];
    assert(r@ =~= default_request());
    r
}

/// The default bindings of the response pane's overlay.
pub open spec fn default_response() -> Seq<Binding> {
    seq![
        spec_bind(Layer::Pane(PaneCtx::Response), KeyEvent::spec_char('h'), Action::ToggleHeadersView),
        spec_bind(Layer::Pane(PaneCtx::Response), KeyEvent::spec_char('W'), Action::ToggleWrap),
        spec_bind(Layer::Pane(PaneCtx::Response), KeyEvent::spec_char('p'), Action::TogglePretty),
        spec_bind(Layer::Pane(PaneCtx::Response), KeyEvent::spec_char('s'), Action::ToggleSortKeys),
        spec_bind(Layer::Pane(PaneCtx::Response), KeyEvent::spec_char('#'), Action::ToggleLineNumbers),
        spec_bind(Layer::Pane(PaneCtx::Response), KeyEvent::spec_char('/'), Action::OpenBodySearch),
        spec_bind(Layer::Pane(PaneCtx::Response), KeyEvent::spec_char('n'), Action::SearchNext),
        spec_bind(Layer::Pane(PaneCtx::Response), KeyEvent::spec_char('N'), Action::SearchPrev),
        spec_bind(Layer::Pane(PaneCtx::Response), KeyEvent::spec_char('o'), Action::ToggleFold),
        spec_bind(Layer::Pane(PaneCtx::Response), KeyEvent::spec_char('O'), Action::ToggleAllFolds),
        spec_bind(Layer::Pane(PaneCtx::Response), KeyEvent::spec_char('J'), Action::StructuralNext),
        spec_bind(Layer::Pane(PaneCtx::Response), KeyEvent::spec_char('K'), Action::StructuralPrev),
        spec_bind(Layer::Pane(PaneCtx::Response), KeyEvent::spec_char('H'), Action::ScrollBodyLeft),
        spec_bind(Layer::Pane(PaneCtx::Response), KeyEvent::spec_char('L'), Action::ScrollBodyRight),
        spec_bind(Layer::Pane(PaneCtx::Response), KeyEvent::spec_char('y'), Action::CopyResponse),
        spec_bind(Layer::Pane(PaneCtx::Response), KeyEvent::spec_char('Y'), Action::CopyLine),
        spec_bind(Layer::Pane(PaneCtx::Response), KeyEvent::spec_char('S'), Action::SaveResponseBody),
    ]
}

fn response_bindings() -> (r: Vec<Binding>)
    ensures
        r@ == default_response(),
{
    let r = vec![
        bind(Layer::Pane(PaneCtx::Response), KeyEvent::char('h'), Action::ToggleHeadersView),
        bind(Layer::Pane(PaneCtx::Response), KeyEvent::char('W'), Action::ToggleWrap),
        bind(Layer::Pane(PaneCtx::Response), KeyEvent::char('p'), Action::TogglePretty),
        bind(Layer::Pane(PaneCtx::Response), KeyEvent::char('s'), Action::ToggleSortKeys),
        bind(Layer::Pane(PaneCtx::Response), KeyEvent::char('#'), Action::ToggleLineNumbers),
        bind(Layer::Pane(PaneCtx::Response), KeyEvent::char('/'), Action::OpenBodySearch),
        bind(Layer::Pane(PaneCtx::Response), KeyEvent::char('n'), Action::SearchNext),
        bind(Layer::Pane(PaneCtx::Response), KeyEvent::char('N'), Action::SearchPrev),
        bind(Layer::Pane(PaneCtx::Response), KeyEvent::char('o'), Action::ToggleFold),
        bind(Layer::Pane(PaneCtx::Response), KeyEvent::char('O'), Action::ToggleAllFolds),
        bind(Layer::Pane(PaneCtx::Response), KeyEvent::char('J'), Action::StructuralNext),
        bind(Layer::Pane(PaneCtx::Response), KeyEvent::char('K'), Action::StructuralPrev),
        bind(Layer::Pane(PaneCtx::Response), KeyEvent::char('H'), Action::ScrollBodyLeft),
        bind(Layer::Pane(PaneCtx::Response), KeyEvent::char('L'), Action::ScrollBodyRight),
        bind(Layer::Pane(PaneCtx::Response), KeyEvent::char('y'), Action::CopyResponse),
        bind(Layer::Pane(PaneCtx::Response), KeyEvent::char('Y'), Action::CopyLine),
        bind(Layer::Pane(PaneCtx::Response), KeyEvent::char('S'), Action::SaveResponseBody),
    ];
    assert(r@ =~= default_response());
    r
}

/// The default bindings of the tables behind the leader key.
pub open spec fn default_leader() -> Seq<Binding> {
    seq![
        spec_bind(Layer::LeaderRoot, KeyEvent::spec_char('q'), Action::Quit),
        spec_bind(Layer::LeaderRoot, KeyEvent::spec_char('e'), Action::ToggleExplorer),
        spec_bind(Layer::LeaderRoot, KeyEvent::spec_char('S'), Action::ToggleSequencesPane),
        spec_bind(Layer::LeaderRoot, KeyEvent::spec_char('f'), Action::QuickJumpRequests),
        spec_bind(Layer::LeaderRoot, KeyEvent::spec_char('w'), Action::QuickJumpWorkspaces),
        spec_bind(Layer::LeaderRoot, KeyEvent::spec_char('a'), Action::EditSequence),
        spec_bind(Layer::LeaderRoot, KeyEvent::spec_char('n'), Action::NewEndpointPick),
        spec_bind(Layer::LeaderRoot, KeyEvent::spec_char('N'), Action::NewCollectionPick),
        spec_bind(Layer::LeaderRoot, KeyEvent::spec_char('k'), Action::ToggleInsecure),
        spec_bind(Layer::LeaderRoot, KeyEvent::spec_char('K'), Action::ToggleEndpointInsecure),
        spec_bind(Layer::LeaderRoot, KeyEvent::spec_char('d'), Action::OpenInspector),
        spec_bind(Layer::LeaderRoot, KeyEvent::spec_char('D'), Action::ToggleDebug),
        spec_bind(Layer::LeaderRoot, KeyEvent::spec_char('b'), Action::BodyType),
        spec_bind(Layer::Leader(LeaderMenu::Sequences), KeyEvent::spec_char('r'), Action::RunSequence),
        spec_bind(Layer::Leader(LeaderMenu::Sequences), KeyEvent::spec_char('o'), Action::OpenSequencePicker),
        spec_bind(Layer::Leader(LeaderMenu::Load), KeyEvent::spec_char('l'), Action::OpenLoadRunner),
        spec_bind(Layer::Leader(LeaderMenu::Load), KeyEvent::spec_char('f'), Action::OpenLoadRunnerPick),
        spec_bind(Layer::Leader(LeaderMenu::Tabs), KeyEvent::spec_char('n'), Action::BufferNext),
        spec_bind(Layer::Leader(LeaderMenu::Tabs), KeyEvent::spec_char('p'), Action::BufferPrev),
        spec_bind(Layer::Leader(LeaderMenu::Tabs), KeyEvent::spec_char('x'), Action::BufferClose),
        spec_bind(Layer::Leader(LeaderMenu::Tabs), KeyEvent::spec_char('X'), Action::BufferCloseAll),
    ]
}

fn leader_keys() -> (r: Vec<Binding>)
    ensures
        r@ == default_leader(),
{
    let r = vec![
        bind(Layer::LeaderRoot, KeyEvent::char('q'), Action::Quit),
        bind(Layer::LeaderRoot, KeyEvent::char('e'), Action::ToggleExplorer),
        bind(Layer::LeaderRoot, KeyEvent::char('S'), Action::ToggleSequencesPane),
        bind(Layer::LeaderRoot, KeyEvent::char('f'), Action::QuickJumpRequests),
        bind(Layer::LeaderRoot, KeyEvent::char('w'), Action::QuickJumpWorkspaces),
        bind(Layer::LeaderRoot, KeyEvent::char('a'), Action::EditSequence),
        bind(Layer::LeaderRoot, KeyEvent::char('n'), Action::NewEndpointPick),
        bind(Layer::LeaderRoot, KeyEvent::char('N'), Action::NewCollectionPick),
        bind(Layer::LeaderRoot, KeyEvent::char('k'), Action::ToggleInsecure),
        bind(Layer::LeaderRoot, KeyEvent::char('K'), Action::ToggleEndpointInsecure),
        bind(Layer::LeaderRoot, KeyEvent::char('d'), Action::OpenInspector),
        bind(Layer::LeaderRoot, KeyEvent::char('D'), Action::ToggleDebug),
        bind(Layer::LeaderRoot, KeyEvent::char('b'), Action::BodyType),
        bind(Layer::Leader(LeaderMenu::Sequences), KeyEvent::char('r'), Action::RunSequence),
        bind(Layer::Leader(LeaderMenu::Sequences), KeyEvent::char('o'), Action::OpenSequencePicker),
        bind(Layer::Leader(LeaderMenu::Load), KeyEvent::char('l'), Action::OpenLoadRunner),
        bind(Layer::Leader(LeaderMenu::Load), KeyEvent::char('f'), Action::OpenLoadRunnerPick),
        bind(Layer::Leader(LeaderMenu::Tabs), KeyEvent::char('n'), Action::BufferNext),
        bind(Layer::Leader(LeaderMenu::Tabs), KeyEvent::char('p'), Action::BufferPrev),
        bind(Layer::Leader(LeaderMenu::Tabs), KeyEvent::char('x'), Action::BufferClose),
        bind(Layer::Leader(LeaderMenu::Tabs), KeyEvent::char('X'), Action::BufferCloseAll),
    ];
    assert(r@ =~= default_leader());
    r
}

/// The bindings of the default keymap.
pub open spec fn default_bindings() -> Seq<Binding> {
    default_global() + default_explorer() + default_request() + default_response() + default_leader()
}

/// The keys that open submenus in the default keymap.
pub open spec fn default_menus() -> Seq<MenuKey> {
    seq![
        MenuKey { key: KeyEvent::spec_char('s'), menu: LeaderMenu::Sequences },
        MenuKey { key: KeyEvent::spec_char('l'), menu: LeaderMenu::Load },
        MenuKey { key: KeyEvent::spec_char('t'), menu: LeaderMenu::Tabs },
    ]
}

impl Default for KeyMap {
    fn default() -> (r: KeyMap)
        ensures
            r.leader == KeyEvent::spec_char(' '),
            r.bindings@ == default_bindings(),
            r.menus@ == default_menus(),
    {
        let mut out = global_bindings();
        let mut explorer = explorer_bindings();
        out.append(&mut explorer);
        let mut request = request_bindings();
        out.append(&mut request);
        let mut response = response_bindings();
        out.append(&mut response);
        let mut leader = leader_keys();
        out.append(&mut leader);
        let menus: Vec<MenuKey> = vec![
            MenuKey { key: KeyEvent::char('s'), menu: LeaderMenu::Sequences },
            MenuKey { key: KeyEvent::char('l'), menu: LeaderMenu::Load },
            MenuKey { key: KeyEvent::char('t'), menu: LeaderMenu::Tabs },
        ];
        assert(menus@ =~= default_menus());
        KeyMap { leader: KeyEvent::char(' '), bindings: out, menus }
    }
}

/// A key does what the first binding of its table says, and nothing where none has it.
pub proof fn law_first_binding_counts(bindings: Seq<Binding>, layer: Layer, key: KeyEvent, i: int)
    requires
        0 <= i <= bindings.len(),
        forall|j: int|
            0 <= j < i ==> (#[trigger] bindings[j]).layer != layer || bindings[j].key != key,
        i < bindings.len() ==> bindings[i].layer == layer && bindings[i].key == key,
    ensures
        i < bindings.len() ==> bound(bindings, layer, key) == Some(bindings[i].action),
        i == bindings.len() ==> bound(bindings, layer, key) is None,
    decreases i,
{
    if i > 0 {
        assert(bindings[0].layer != layer || bindings[0].key != key);
        let rest = bindings.skip(1);
        assert forall|j: int| 0 <= j < i - 1 implies (#[trigger] rest[j]).layer != layer
            || rest[j].key != key by {
            assert(rest[j] == bindings[j + 1]);
        }
        law_first_binding_counts(rest, layer, key, i - 1);
    }
}

/// In a pane its own binding of a key counts, and where it has none the global one does; behind
/// the leader key an action counts before a menu.
pub proof fn law_pane_binding_comes_first(
    map: KeyMap,
    key: KeyEvent,
    ctx: PaneCtx,
    i: int,
)
    requires
        0 <= i <= map.bindings@.len(),
        forall|j: int|
            0 <= j < i ==> (#[trigger] map.bindings@[j]).layer != Layer::Pane(ctx)
                || map.bindings@[j].key != key,
        i < map.bindings@.len() ==> map.bindings@[i].layer == Layer::Pane(ctx)
            && map.bindings@[i].key == key,
    ensures
        i < map.bindings@.len() ==> map.spec_lookup_ctx(key, ctx) == Some(map.bindings@[i].action),
        i == map.bindings@.len() ==> map.spec_lookup_ctx(key, ctx) == map.spec_lookup(key),
        map.spec_leader_root(key) matches Some(LeaderEntry::Submenu(_)) ==> bound(
            map.bindings@,
            Layer::LeaderRoot,
            key,
        ) is None,
{
    law_first_binding_counts(map.bindings@, Layer::Pane(ctx), key, i);
}

/// What a key is called: its name, or the character itself, behind `ctrl-` and `alt-` where they
/// are held.
pub proof fn law_key_names(c: char)
    requires
        c != ' ',
    ensures
        key_text(KeyEvent::spec_char(c)) == seq![c],
        key_text(KeyEvent::spec_char(' ')) == "space"@,
        key_text(KeyEvent::spec_ctrl(c)) == "ctrl-"@ + seq![c],
        key_text(KeyEvent::spec_key(Key::Enter)) == "enter"@,
        key_text(KeyEvent::spec_key(Key::Esc)) == "esc"@,
        key_text(KeyEvent::spec_key(Key::Tab)) == "tab"@,
        key_text(KeyEvent::spec_key(Key::BackTab)) == "shift-tab"@,
{
    let none: Seq<char> = Seq::empty();
    assert(none + none + seq![c] =~= seq![c]);
    assert(none + none + "space"@ =~= "space"@);
    assert("ctrl-"@ + none + seq![c] =~= "ctrl-"@ + seq![c]);
    assert(none + none + "enter"@ =~= "enter"@);
    assert(none + none + "esc"@ =~= "esc"@);
    assert(none + none + "tab"@ =~= "tab"@);
    assert(none + none + "shift-tab"@ =~= "shift-tab"@);
}

/// The chords of an action are listed in the order of the bindings: the key alone where it is
/// bound at the root, and each key of its menu before it where it is bound in a menu.
pub proof fn law_chords_are_listed(
    bindings: Seq<Binding>,
    menus: Seq<MenuKey>,
    b: Binding,
    action: Action,
)
    ensures
        b.action != action ==> leader_combos(bindings.push(b), menus, action) == leader_combos(
            bindings,
            menus,
            action,
        ),
        b.action == action && b.layer is LeaderRoot ==> leader_combos(
            bindings.push(b),
            menus,
            action,
        ) == leader_combos(bindings, menus, action).push(key_text(b.key)),
        b.action == action ==> (b.layer matches Layer::Leader(menu) ==> leader_combos(
            bindings.push(b),
            seq![MenuKey { key: b.key, menu }],
            action,
        ) == leader_combos(bindings, seq![MenuKey { key: b.key, menu }], action).push(
            key_text(b.key) + " "@ + key_text(b.key),
        )),
        b.layer is Global || b.layer is Pane ==> leader_combos(bindings.push(b), menus, action)
            == leader_combos(bindings, menus, action),
{
    assert(bindings.push(b).drop_last() =~= bindings);
    if let Layer::Leader(menu) = b.layer {
        let one = seq![MenuKey { key: b.key, menu }];
        assert(one.drop_last() =~= Seq::<MenuKey>::empty());
        let text = key_text(b.key) + " "@ + key_text(b.key);
        assert(chords(Seq::<MenuKey>::empty(), menu, b.key) =~= Seq::<Seq<char>>::empty());
        assert(chords(one, menu, b.key) =~= seq![text]);
        let before = leader_combos(bindings, one, action);
        assert(before + seq![text] =~= before.push(text));
    }
}

/// The keys that come first among the default bindings: `q` and Ctrl-C quit, and Ctrl-S sends.
pub proof fn law_default_keys_send_and_quit()
    ensures
        bound(default_bindings(), Layer::Global, KeyEvent::spec_char('q')) == Some(Action::Quit),
        bound(default_bindings(), Layer::Global, KeyEvent::spec_ctrl('c')) == Some(Action::Quit),
        bound(default_bindings(), Layer::Global, KeyEvent::spec_ctrl('s')) == Some(Action::Send),
{
    let all = default_bindings();
    let first = default_global();
    assert(all[0] == first[0] && all[1] == first[1] && all[2] == first[2]);
    law_first_binding_counts(all, Layer::Global, KeyEvent::spec_char('q'), 0);
    law_first_binding_counts(all, Layer::Global, KeyEvent::spec_ctrl('c'), 1);
    law_first_binding_counts(all, Layer::Global, KeyEvent::spec_ctrl('s'), 2);
}

} // verus!
