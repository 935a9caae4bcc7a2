#![allow(dead_code, unused_imports)]

use churl::app::{
    App, Component, DiskWork, Effect, HistoryOpen, PendingClose, PendingLoad, ReorderDir,
    ResolveFor, Resume, Runtime, SaveError, Surface, TreeWork,
};
use churl::buffer::{BufferPlace, EndpointBuffer, InFlight, SelectedEndpoint};
use churl::editor::{EditorMode, ModalEditor};
use churl::explorer::{Explorer, Row, RowKind, SequenceItem};
use churl::keymap::{Action, KeyMap, Layer};
use churl::keys::{Key, KeyEvent, KeyModifiers};
use churl::line_editor::LineEditor;
use churl::load::{Latency, LoadCheck, LoadConfig, LoadLanded, LoadStatus};
use churl::loading::LoadOutcome;
use churl::meta::ResponseMeta;
use churl::mode::{
    ConfirmPurpose, JsonDialect, LeaderMenu, LeaderState, Mode, PromptPurpose, SeqView,
    UrlEditMode,
};
use churl::model::{Body, BodyKind, Endpoint, Method, Request};
use churl::notice::Notice;
use churl::pane::{LeftPane, Pane, ZoomPane};
use churl::picker::{Choices, DestPurpose};
use churl::request_pane::RequestTab;
use churl::response::{BodySearch, ResponseState, ResponseView, Syntax, ViewMode};
use churl::routing::{Facts, MotionIn};
use churl::sending::{AppMsg, Landed};
use churl::sequence::{
    OnError, Prepared, Sequence, Step, StepLanded, StepResult, StepStatus,
};
use churl::settings::{
    AdvancedLimits, LoadCaps, RedirectPolicy, SecretPolicy, Settings, Values,
};
use churl::surfaces::{EditorOutcome, RunnerOutcome};
use churl::switching::Reload;
use churl::tree::Relocated;
use churl::vars::Vars;
use churl::workspace::{Profile, Workspace};

fn values() -> Values {
    Values {
        theme: "dark".to_owned(),
        leader_key: "space".to_owned(),
        url_edit: UrlEditMode::Inline,
        secret_policy: SecretPolicy::Warn,
        redirect: RedirectPolicy::Strip,
        proxy: None,
        insecure: false,
        cookies: false,
        debug: false,
        load_caps: LoadCaps {
            warn_total: 100,
            warn_concurrency: 20,
            max_total: 10_000,
            max_concurrency: 200,
        },
        advanced: AdvancedLimits {
            concurrency: 4,
            total: 10,
            body_cap_bytes: 1_000_000,
            timeout_secs: 30,
        },
    }
}

fn app_with(workspace: Option<Workspace>, explorer: Explorer) -> App {
    App::new(workspace, explorer, KeyMap::default(), Settings::new(values()))
}

fn empty_app() -> App {
    app_with(None, Explorer::empty())
}

fn facts() -> Facts {
    Facts {
        motion: false,
        line: None,
        on_response: false,
        checked: Err("not in the editor".to_owned()),
        palette: Vec::new(),
        menu_method: None,
    }
}

fn with_motion() -> Facts {
    Facts { motion: true, ..facts() }
}

fn key(code: Key) -> KeyEvent {
    KeyEvent::new(code, KeyModifiers::none())
}

fn press(app: &mut App, c: char) -> Vec<Effect> {
    app.handle_key(KeyEvent::char(c), facts())
}

fn press_key(app: &mut App, code: Key) -> Vec<Effect> {
    app.handle_key(key(code), facts())
}

fn press_ctrl(app: &mut App, c: char) -> Vec<Effect> {
    let modifiers = KeyModifiers { control: true, alt: false, shift: false };
    app.handle_key(KeyEvent::new(Key::Char(c), modifiers), facts())
}

fn dispatch(app: &mut App, action: Action) -> Vec<Effect> {
    app.dispatch(action, None, facts())
}

fn message(app: &App) -> Option<String> {
    app.message_text()
}

fn request(url: &str) -> Request {
    Request {
        method: Method::Get,
        url: url.to_owned(),
        headers: Vec::new(),
        params: Vec::new(),
        body: None,
        auth: None,
        insecure: false,
    }
}

fn endpoint(name: &str, url: &str) -> Endpoint {
    Endpoint { seq: 0, name: name.to_owned(), request: request(url) }
}

fn selected_with(file: &str, body: Option<&str>) -> SelectedEndpoint {
    let mut e = endpoint("ep", "https://api.test/x");
    e.request.body = body.map(|c| Body::Simple { kind: BodyKind::Text, content: c.to_owned() });
    SelectedEndpoint {
        display_path: format!("coll/{file}"),
        file: file.to_owned(),
        collection: 0,
        endpoint: e,
    }
}

fn vars(pairs: &[(&str, &str)]) -> Vars {
    let mut v = Vars::new();
    for (name, value) in pairs {
        v.insert((*name).to_owned(), (*value).to_owned());
    }
    v
}

fn workspace(root: &str, name: &str) -> Workspace {
    Workspace {
        root: root.to_owned(),
        key: root.to_owned(),
        name: name.to_owned(),
        vars: Vars::new(),
        profiles: Vec::new(),
    }
}

fn collection_row(root: &str, name: &str, index: usize) -> Row {
    Row {
        kind: RowKind::Collection,
        name: name.to_owned(),
        path: format!("{root}/{name}"),
        display_path: name.to_owned(),
        collection_dir: format!("{root}/{name}"),
        collection: index,
        endpoint: None,
    }
}

fn endpoint_row(root: &str, coll: &str, index: usize, file: &str, e: Endpoint) -> Row {
    Row {
        kind: RowKind::Endpoint,
        name: e.name.clone(),
        path: format!("{root}/{coll}/{file}"),
        display_path: format!("{coll}/{file}"),
        collection_dir: format!("{root}/{coll}"),
        collection: index,
        endpoint: Some(e),
    }
}

fn explorer(rows: Vec<Row>) -> Explorer {
    let mut e = Explorer::empty();
    let count = rows.iter().map(|r| r.collection + 1).max().unwrap_or(0);
    for _ in 0..count {
        e.collection_vars.push(Vars::new());
    }
    e.endpoint_files = rows
        .iter()
        .filter(|r| r.endpoint.is_some())
        .map(|r| r.path.clone())
        .collect();
    e.rows = rows;
    e
}

fn sequence(name: &str, on_error: OnError, endpoints: &[&str]) -> Sequence {
    let steps = endpoints
        .iter()
        .enumerate()
        .map(|(i, e)| Step {
            seq: i as u32,
            endpoint: (*e).to_owned(),
            extract: Vec::new(),
            persist: Vec::new(),
        })
        .collect();
    Sequence { name: name.to_owned(), on_error, steps }
}

fn view(text: &str) -> ResponseView {
    ResponseView {
        generation: 0,
        mode: ViewMode::Body,
        syntax: Syntax::Json,
        pretty: false,
        sort_keys: false,
        wrap: false,
        line_numbers: false,
        h_offset: 0,
        search: None,
        truncated: false,
        body_truncated: false,
        text: text.to_owned(),
        raw: text.as_bytes().to_vec(),
        extension: "json".to_owned(),
    }
}

fn meta() -> ResponseMeta {
    ResponseMeta {
        method: "GET".to_owned(),
        url: "https://api.test/x".to_owned(),
        endpoint_path: Some("users/get.toml".to_owned()),
        executed_at_ms: 1,
    }
}

fn landed() -> Landed {
    Landed { status: 200, total_ms: 3, view: view("{}") }
}

/// The demo workspace: one collection with an endpoint, unfolded, and two profiles.
fn workspace_fixture() -> App {
    let mut ws = workspace("/ws", "demo");
    ws.vars = vars(&[("base", "ws")]);
    ws.profiles = vec![
        Profile { name: "dev".to_owned(), vars: vars(&[("host", "dev.test")]) },
        Profile { name: "prod".to_owned(), vars: vars(&[("host", "prod.test")]) },
    ];
    let rows = vec![
        collection_row("/ws", "users", 0),
        endpoint_row("/ws", "users", 0, "get.toml", endpoint("Get user", "https://{{host}}/users")),
    ];
    app_with(Some(ws), explorer(rows))
}

fn app_with_endpoint() -> App {
    let mut app = workspace_fixture();
    let fx = app.guarded_load(PendingLoad::Row(1));
    assert!(fx.is_empty());
    app
}

fn other_workspace() -> (Workspace, Explorer) {
    let mut create = endpoint("Create order", "https://x/orders");
    create.request.method = Method::Post;
    let rows = vec![
        collection_row("/other", "orders", 0),
        endpoint_row("/other", "orders", 0, "create.toml", create),
    ];
    (workspace("/other", "other"), explorer(rows))
}

fn open_bare_endpoint(app: &mut App) {
    app.open_or_focus_buffer(SelectedEndpoint {
        display_path: "test".to_owned(),
        file: "/tmp/test.toml".to_owned(),
        collection: 0,
        endpoint: endpoint("test", "https://api.test/x"),
    });
}

fn current(app: &mut App) -> &mut EndpointBuffer {
    let i = app.buffers.active;
    &mut app.buffers.list[i]
}

fn set_active_in_flight(app: &mut App, generation: u64) {
    current(app).in_flight = Some(InFlight { generation, meta: meta() });
}

fn active_in_flight_is_some(app: &App) -> bool {
    app.in_flight()
}

fn body_of(app: &mut App) -> String {
    current(app).editor.text()
}

fn insert_mode_app(keymap: KeyMap) -> App {
    let mut app = App::new(None, Explorer::empty(), keymap, Settings::new(values()));
    open_bare_endpoint(&mut app);
    app.panes.focus = Pane::Request;
    current(&mut app).tabs.active = RequestTab::Body;
    current(&mut app).editor.set_mode(EditorMode::Insert);
    app
}

#[test]
fn stale_generation_response_is_dropped() {
    let mut app = empty_app();
    open_bare_endpoint(&mut app);
    app.generation = 5;
    set_active_in_flight(&mut app, 5);

    let fx = app.on_response(4, Ok(landed()), meta());
    assert!(fx.is_empty());
    assert!(matches!(app.response(), ResponseState::Idle));
    assert!(active_in_flight_is_some(&app), "in-flight preserved on stale drop");

    app.on_response(5, Ok(landed()), meta());
    assert!(matches!(app.response(), ResponseState::Done { .. }));
    assert!(!active_in_flight_is_some(&app));
}

#[test]
fn insert_mode_ctrl_s_dispatches_send() {
    let mut app = insert_mode_app(KeyMap::default());
    set_active_in_flight(&mut app, 1);
    press_ctrl(&mut app, 's');
    assert_eq!(
        message(&app).as_deref(),
        Some("request already in flight — ctrl-c to cancel"),
        "Ctrl-S must dispatch Send (observable via its in-flight guard)"
    );
    assert_eq!(body_of(&mut app), "");
    assert_eq!(current(&mut app).editor.mode(), EditorMode::Insert);
    assert!(!app.should_quit);
}

#[test]
fn insert_mode_ctrl_c_cancels_in_flight() {
    let mut app = insert_mode_app(KeyMap::default());
    app.generation = 1;
    set_active_in_flight(&mut app, 1);
    let fx = press_ctrl(&mut app, 'c');
    assert!(fx.iter().any(|e| matches!(e, Effect::Abort(1))));
    assert!(!active_in_flight_is_some(&app));
    assert!(matches!(app.response(), ResponseState::Cancelled));
    assert!(!app.should_quit);
    assert_eq!(body_of(&mut app), "");
}

#[test]
fn insert_mode_ctrl_c_without_in_flight_quits() {
    let mut app = insert_mode_app(KeyMap::default());
    press_ctrl(&mut app, 'c');
    assert!(app.should_quit);
}

#[test]
fn insert_mode_plain_chars_reach_edtui() {
    let mut app = insert_mode_app(KeyMap::default());
    for c in ['s', 'c'] {
        press(&mut app, c);
    }
    assert_eq!(body_of(&mut app), "sc");
    assert!(!app.should_quit);
    assert!(app.message.is_none());
}

#[test]
fn insert_mode_remapped_ctrl_send_is_intercepted() {
    let mut keymap = KeyMap::default();
    let modifiers = KeyModifiers { control: true, alt: false, shift: false };
    keymap.bind(Layer::Global, KeyEvent::new(Key::Char('b'), modifiers), Action::Send);
    let mut app = insert_mode_app(keymap);
    set_active_in_flight(&mut app, 1);
    press_ctrl(&mut app, 'b');
    assert_eq!(
        message(&app).as_deref(),
        Some("request already in flight — ctrl-c to cancel"),
        "remapped Ctrl-B must dispatch Send (observable via its in-flight guard)"
    );
    assert_eq!(body_of(&mut app), "");
}

#[test]
fn jump_label_focuses_pane() {
    let mut app = empty_app();
    press(&mut app, 'f');
    assert_eq!(app.mode, Mode::Jump);
    assert!(app.jump.is_some());
    press(&mut app, 's');
    assert_eq!(app.mode, Mode::Normal);
    assert!(app.jump.is_none());
    assert_eq!(app.panes.focus, Pane::Response);
}

#[test]
fn jump_row_label_selects_endpoint() {
    let mut app = workspace_fixture();
    assert_eq!(app.explorer.rows.len(), 2);
    press(&mut app, 'f');
    press(&mut app, 'd');
    assert_eq!(app.mode, Mode::Normal);
    assert_eq!(app.panes.focus, Pane::Explorer);
    assert_eq!(app.explorer.cursor, 1);
    assert!(app.selected().is_some());
    assert_eq!(app.selected().unwrap().endpoint.name, "Get user");
}

#[test]
fn jump_f_acts_as_row_label_not_cancel() {
    let mut app = workspace_fixture();
    app.explorer.rows.push(collection_row("/ws", "zoo", 1));
    assert_eq!(app.explorer.rows.len(), 3);
    press(&mut app, 'f');
    assert_eq!(app.mode, Mode::Jump);
    press(&mut app, 'f');
    assert_eq!(app.mode, Mode::Normal, "f must act as a label, not cancel");
    assert_eq!(app.panes.focus, Pane::Explorer);
    assert_eq!(app.explorer.cursor, 2);
}

#[test]
fn jump_esc_cancels() {
    let mut app = empty_app();
    let before = app.panes.focus;
    press(&mut app, 'f');
    press_key(&mut app, Key::Esc);
    assert_eq!(app.mode, Mode::Normal);
    assert!(app.jump.is_none());
    assert_eq!(app.panes.focus, before);
}

#[test]
fn jump_ignores_unknown_char() {
    let mut app = empty_app();
    press(&mut app, 'f');
    press(&mut app, '9');
    assert_eq!(app.mode, Mode::Jump, "unknown char must not exit jump-mode");
}

#[test]
fn unknown_profile_is_hard_error() {
    let mut ws = workspace("/ws", "demo");
    ws.profiles = vec![Profile { name: "dev".to_owned(), vars: Vars::new() }];
    let result = App::with_config(
        Some(ws),
        Explorer::empty(),
        KeyMap::default(),
        Settings::new(values()),
        Vars::new(),
        Some("staging".to_owned()),
    );
    let msg = match result {
        Ok(_) => panic!("expected unknown-profile error"),
        Err(err) => err,
    };
    assert!(msg.contains("staging"), "{msg}");
    assert!(msg.contains("dev"), "must list available: {msg}");
}

#[test]
fn resolver_precedence_profile_beats_workspace() {
    let mut app = workspace_fixture();
    app.explorer.cursor = 1;
    let selected = app.explorer.endpoint_at(1).expect("endpoint");
    let resolver = app.build_resolver(selected.collection);
    assert_eq!(resolver.lookup(&"host".to_owned()), None);
    assert_eq!(resolver.lookup(&"base".to_owned()).as_deref(), Some("ws"));
    app.set_profile(Some("prod".to_owned()));
    let resolver = app.build_resolver(selected.collection);
    assert_eq!(resolver.lookup(&"host".to_owned()).as_deref(), Some("prod.test"));
}

#[test]
fn body_tab_row_keys_reach_edtui() {
    for c in ['i', 'a'] {
        let mut app = empty_app();
        open_bare_endpoint(&mut app);
        app.panes.focus = Pane::Request;
        current(&mut app).tabs.active = RequestTab::Body;
        assert_eq!(current(&mut app).editor.mode(), EditorMode::Normal);
        press(&mut app, c);
        assert_eq!(
            current(&mut app).editor.mode(),
            EditorMode::Insert,
            "'{c}' on the Body tab must enter edtui insert mode"
        );
        assert!(current(&mut app).tabs.editing.is_none(), "no row edit must start for '{c}'");
    }
}

#[test]
fn reload_remaps_selected_collection_index_for_resolver() {
    let get = || endpoint("Get", "https://{{who}}/x");
    let mut tree = explorer(vec![
        collection_row("/ws", "bbb", 0),
        endpoint_row("/ws", "bbb", 0, "get.toml", get()),
    ]);
    tree.collection_vars[0] = vars(&[("who", "bbb-vars")]);
    let mut app = app_with(Some(workspace("/ws", "demo")), tree);
    app.explorer.cursor = 1;
    let selected = app.explorer.endpoint_at(1).expect("endpoint");
    app.open_or_focus_buffer(selected);
    assert_eq!(app.selected().unwrap().collection, 0);

    let mut tree = explorer(vec![
        collection_row("/ws", "aaa", 0),
        collection_row("/ws", "bbb", 1),
        endpoint_row("/ws", "bbb", 1, "get.toml", get()),
    ]);
    tree.collection_vars[1] = vars(&[("who", "bbb-vars")]);
    let places = vec![BufferPlace { exists: true, collection: Some(1) }];
    app.reload_explorer(Reload { explorer: tree, places });
    assert_eq!(
        app.selected().unwrap().collection,
        1,
        "collection index must be remapped from the file path"
    );
    let resolver = app.build_resolver(app.selected().unwrap().collection);
    assert_eq!(
        resolver.lookup(&"who".to_owned()).as_deref(),
        Some("bbb-vars"),
        "resolver must read the loaded endpoint's own collection vars"
    );
}

#[test]
fn switch_profile_picker_sets_active() {
    let mut app = workspace_fixture();
    dispatch(&mut app, Action::SwitchProfile);
    assert_eq!(app.mode, Mode::Palette);
    match &app.picker.as_ref().unwrap().choices {
        Choices::Profiles(choices) => assert_eq!(choices.len(), 3),
        _ => panic!("expected the profiles"),
    }
    if let Some(picker) = app.picker.as_mut() {
        picker.selected = 2;
    }
    app.accept_overlay(facts());
    assert_eq!(app.active_profile.as_deref(), Some("prod"));
    assert!(app.picker.is_none());
}

#[test]
fn newer_message_replaces_current() {
    let mut app = empty_app();
    app.notify(Notice::Text { text: "first".to_owned() });
    assert_eq!(message(&app).as_deref(), Some("first"));
    app.notify(Notice::Text { text: "second".to_owned() });
    assert_eq!(
        message(&app).as_deref(),
        Some("second"),
        "newer message must replace the current one"
    );
}

#[test]
fn leader_pending_then_dispatch() {
    let mut app = empty_app();
    press(&mut app, ' ');
    assert_eq!(app.leader, Some(LeaderState::Root), "space enters root");
    press(&mut app, 'q');
    assert_eq!(app.leader, None, "dispatch dismisses the popup");
    assert!(app.should_quit);
}

#[test]
fn leader_unbound_and_esc_dismiss() {
    let mut app = empty_app();
    press(&mut app, ' ');
    press(&mut app, 'z');
    assert_eq!(app.leader, None);
    assert!(!app.should_quit);

    press(&mut app, ' ');
    press_key(&mut app, Key::Esc);
    assert_eq!(app.leader, None, "esc dismisses at root");
}

#[test]
fn leader_submenu_state_machine() {
    let mut app = workspace_fixture();
    press(&mut app, ' ');
    assert_eq!(app.leader, Some(LeaderState::Root));
    press(&mut app, 's');
    assert_eq!(app.leader, Some(LeaderState::Submenu(LeaderMenu::Sequences)));
    press(&mut app, 'r');
    assert_eq!(app.leader, None, "submenu dispatch dismisses");

    press(&mut app, ' ');
    press(&mut app, 's');
    press_key(&mut app, Key::Esc);
    assert_eq!(app.leader, Some(LeaderState::Root), "esc backs out one level");
    press_key(&mut app, Key::Esc);
    assert_eq!(app.leader, None, "second esc cancels");

    press(&mut app, ' ');
    press(&mut app, 'z');
    assert_eq!(app.leader, None);
    press(&mut app, ' ');
    press(&mut app, 's');
    press(&mut app, 'z');
    assert_eq!(app.leader, None);
}

#[test]
fn leader_e_toggles_explorer() {
    let mut app = empty_app();
    assert!(!app.panes.explorer_hidden);
    press(&mut app, ' ');
    press(&mut app, 'e');
    assert!(app.panes.explorer_hidden);
    assert_eq!(app.leader, None);
}

#[test]
fn leader_inert_during_url_edit() {
    let mut app = app_with_endpoint();
    app.begin_url_edit_inline();
    assert!(current(&mut app).url_editor.is_some());
    press(&mut app, ' ');
    assert_eq!(app.leader, None, "space must not enter leader during edit");
    assert!(
        current(&mut app).url_editor.as_ref().unwrap().text().contains(' '),
        "space types a space in the editor"
    );
}

#[test]
fn leader_inert_in_edtui_insert() {
    let mut app = insert_mode_app(KeyMap::default());
    press(&mut app, ' ');
    assert_eq!(app.leader, None);
    assert_eq!(body_of(&mut app), " ");
}

#[test]
fn digit_focus_removed_at_app_level() {
    let mut app = empty_app();
    open_bare_endpoint(&mut app);
    app.panes.focus = Pane::Response;
    press(&mut app, '1');
    assert_eq!(app.panes.focus, Pane::Response, "digit must not change focus");
    app.panes.focus = Pane::Request;
    press(&mut app, '2');
    assert_eq!(current(&mut app).tabs.active, RequestTab::Headers);
}

#[test]
fn commit_url_merges_and_marks_dirty() {
    let mut app = app_with_endpoint();
    assert!(!app.buffers.is_dirty());
    app.commit_url("https://api.test/users?page=2&sort=name");
    let req = app.live_request().unwrap();
    assert_eq!(req.url, "https://api.test/users", "query stripped from URL");
    assert_eq!(req.params.len(), 2);
    assert!(req.params.iter().all(|p| p.enabled));
    assert!(
        message(&app).is_some_and(|m| m.contains("added")),
        "statusline reports the merge"
    );
    assert!(app.buffers.is_dirty(), "commit marks the request dirty");
}

#[test]
fn zoom_toggles_and_restores() {
    let mut app = empty_app();
    app.panes.focus = Pane::Request;
    dispatch(&mut app, Action::Zoom);
    assert_eq!(app.panes.zoom, Some(ZoomPane::Request));
    dispatch(&mut app, Action::Zoom);
    assert_eq!(app.panes.zoom, None, "z again restores the split");
    app.panes.focus = Pane::Response;
    dispatch(&mut app, Action::Zoom);
    assert_eq!(app.panes.zoom, Some(ZoomPane::Response));
    app.panes.zoom = None;
    app.panes.focus = Pane::Explorer;
    dispatch(&mut app, Action::Zoom);
    assert_eq!(app.panes.zoom, None);
}

#[test]
fn focus_collapsed_pane_transfers_zoom() {
    let mut app = empty_app();
    app.panes.focus = Pane::Request;
    dispatch(&mut app, Action::Zoom);
    assert_eq!(app.panes.zoom, Some(ZoomPane::Request));
    dispatch(&mut app, Action::FocusResponse);
    assert_eq!(
        app.panes.zoom,
        Some(ZoomPane::Response),
        "focusing the collapsed pane transfers the zoom to it"
    );
    assert_eq!(app.panes.focus, Pane::Response);
}

#[test]
fn zoom_follows_focus_both_directions() {
    let mut app = empty_app();
    app.panes.focus = Pane::Request;
    app.panes.zoom = Some(ZoomPane::Request);
    app.set_focus(Pane::Response);
    assert_eq!(app.panes.zoom, Some(ZoomPane::Response));
    assert_eq!(app.panes.focus, Pane::Response);
    app.panes.zoom = Some(ZoomPane::Response);
    app.set_focus(Pane::Request);
    assert_eq!(app.panes.zoom, Some(ZoomPane::Request));
    assert_eq!(app.panes.focus, Pane::Request);
}

#[test]
fn jump_into_collapsed_pane_transfers_zoom() {
    let mut app = empty_app();
    app.panes.focus = Pane::Response;
    dispatch(&mut app, Action::Zoom);
    assert_eq!(app.panes.zoom, Some(ZoomPane::Response));
    press(&mut app, 'f');
    assert_eq!(app.mode, Mode::Jump);
    press(&mut app, 'r');
    assert_eq!(app.panes.focus, Pane::Request);
    assert_eq!(
        app.panes.zoom,
        Some(ZoomPane::Request),
        "jumping into the collapsed pane transfers the zoom to it"
    );
}

#[test]
fn explorer_toggle_and_auto_reopen() {
    let mut app = empty_app();
    app.panes.focus = Pane::Request;
    dispatch(&mut app, Action::ToggleExplorer);
    assert!(app.panes.explorer_hidden);
    dispatch(&mut app, Action::FocusExplorer);
    assert!(!app.panes.explorer_hidden, "focus explorer must auto-reopen");
    assert_eq!(app.panes.focus, Pane::Explorer);
    dispatch(&mut app, Action::ToggleExplorer);
    assert!(app.panes.explorer_hidden);
    assert_ne!(app.panes.focus, Pane::Explorer, "hidden pane cannot hold focus");
}

#[test]
fn tab_onto_hidden_explorer_reopens() {
    let mut app = empty_app();
    app.panes.explorer_hidden = true;
    app.panes.focus = Pane::Response;
    dispatch(&mut app, Action::FocusNext);
    assert_eq!(app.panes.focus, Pane::Explorer);
    assert!(!app.panes.explorer_hidden, "tab onto explorer reopens it");
}

/// One collection with one endpoint, and two sequences.
fn seq_pane_app() -> App {
    let mut tree = explorer(vec![collection_row("/ws", "api", 0)]);
    tree.sequences = ["Login", "Checkout"]
        .iter()
        .enumerate()
        .map(|(i, name)| SequenceItem {
            name: (*name).to_owned(),
            file: format!("/ws/sequences/s{i}.toml"),
            sequence: sequence(name, OnError::Halt, &[]),
        })
        .collect();
    app_with(Some(workspace("/ws", "demo")), tree)
}

#[test]
fn toggle_sequences_pane_shows_and_focuses_sequences() {
    let mut app = seq_pane_app();
    assert!(!app.panes.sequences_shown);
    assert_eq!(app.panes.left_active, LeftPane::Endpoints);
    dispatch(&mut app, Action::ToggleSequencesPane);
    assert!(app.panes.sequences_shown, "toggle shows the sub-pane");
    assert_eq!(app.panes.left_active, LeftPane::Sequences, "and focuses it");
    assert_eq!(app.panes.focus, Pane::Explorer);
    dispatch(&mut app, Action::ToggleSequencesPane);
    assert!(!app.panes.sequences_shown);
    assert_eq!(app.panes.left_active, LeftPane::Endpoints);
}

#[test]
fn focus_sequences_toggle_unhides_and_switches() {
    let mut app = seq_pane_app();
    dispatch(&mut app, Action::FocusSequencesToggle);
    assert!(app.panes.sequences_shown);
    assert_eq!(app.panes.left_active, LeftPane::Sequences);
    assert_eq!(app.panes.focus, Pane::Explorer);
    dispatch(&mut app, Action::FocusSequencesToggle);
    assert_eq!(app.panes.left_active, LeftPane::Endpoints);
    assert!(app.panes.sequences_shown);
}

#[test]
fn left_active_forced_endpoints_when_hidden() {
    let mut app = seq_pane_app();
    app.panes.left_active = LeftPane::Sequences;
    app.panes.sequences_shown = false;
    app.set_focus(Pane::Explorer);
    assert_eq!(app.panes.left_active, LeftPane::Endpoints);
}

#[test]
fn tab_cycle_never_changes_left_active() {
    let mut app = seq_pane_app();
    dispatch(&mut app, Action::ToggleSequencesPane);
    assert_eq!(app.panes.left_active, LeftPane::Sequences);
    for _ in 0..4 {
        dispatch(&mut app, Action::FocusNext);
    }
    assert_eq!(app.panes.focus, Pane::Explorer);
    assert_eq!(
        app.panes.left_active,
        LeftPane::Sequences,
        "Tab is cross-pane only; it never switches the sub-pane"
    );
}

#[test]
fn explorer_nav_routes_to_seq_cursor_when_sequences_active() {
    let mut app = seq_pane_app();
    dispatch(&mut app, Action::ToggleSequencesPane);
    assert_eq!(app.explorer.seq_cursor, 0);
    let tree_cursor = app.explorer.cursor;
    dispatch(&mut app, Action::Down);
    assert_eq!(app.explorer.seq_cursor, 1);
    assert_eq!(app.explorer.cursor, tree_cursor, "tree cursor untouched");
    dispatch(&mut app, Action::Select);
    assert_eq!(app.mode, Mode::Sequence);
    assert_eq!(app.sequence.view, SeqView::Edit);
}

#[test]
fn r_on_sequences_subpane_runs_hovered_sequence() {
    let mut app = seq_pane_app();
    dispatch(&mut app, Action::ToggleSequencesPane);
    dispatch(&mut app, Action::Rename);
    assert_eq!(app.mode, Mode::Sequence);
    assert_eq!(app.sequence.view, SeqView::Run);
    assert!(app.sequence.runner.is_some());
}

#[test]
fn leader_e_hide_restores_prior_focus() {
    let mut app = seq_pane_app();
    app.set_focus(Pane::Response);
    app.set_focus(Pane::Explorer);
    assert_eq!(app.panes.focus, Pane::Explorer);
    dispatch(&mut app, Action::ToggleExplorer);
    assert!(app.panes.explorer_hidden);
    assert_eq!(app.panes.focus, Pane::Response, "true prior-pane restore");
    app.panes.left_active = LeftPane::Endpoints;
    dispatch(&mut app, Action::ToggleExplorer);
    assert!(!app.panes.explorer_hidden);
    assert_eq!(app.panes.focus, Pane::Explorer);
}

#[test]
fn leader_e_hide_falls_back_to_urlbar_without_prior() {
    let mut app = seq_pane_app();
    assert_eq!(app.panes.focus, Pane::Explorer);
    dispatch(&mut app, Action::ToggleExplorer);
    assert!(app.panes.explorer_hidden);
    assert_eq!(app.panes.focus, Pane::UrlBar);
}

#[test]
fn z_still_noop_from_explorer() {
    let mut app = seq_pane_app();
    dispatch(&mut app, Action::ToggleSequencesPane);
    assert_eq!(app.panes.focus, Pane::Explorer);
    assert_eq!(app.panes.zoom, None);
    dispatch(&mut app, Action::Zoom);
    assert_eq!(app.panes.zoom, None, "z zooms only Request/Response");
}

#[test]
fn tree_mutating_keys_suppressed_on_sequences_subpane() {
    let mut app = seq_pane_app();
    app.explorer.cursor = 0;
    dispatch(&mut app, Action::ToggleSequencesPane);
    assert!(app.panes.left_column_on_sequences());

    dispatch(&mut app, Action::Delete);
    assert_eq!(app.mode, Mode::Normal, "d must not open a delete prompt");

    dispatch(&mut app, Action::NewCollection);
    assert_eq!(app.mode, Mode::Normal, "N must not open a new-collection prompt");

    dispatch(&mut app, Action::NewEndpoint);
    assert_eq!(
        app.mode,
        Mode::Prompt(PromptPurpose::NewSequence),
        "n on the sequences sub-pane creates a new sequence"
    );
}

#[test]
fn tree_mutating_keys_work_normally_on_endpoints() {
    let mut app = seq_pane_app();
    dispatch(&mut app, Action::ToggleSequencesPane);
    dispatch(&mut app, Action::FocusSequencesToggle);
    assert_eq!(app.panes.left_active, LeftPane::Endpoints);
    app.explorer.cursor = 0;

    dispatch(&mut app, Action::Delete);
    assert_eq!(
        app.mode,
        Mode::Prompt(PromptPurpose::DeleteCollectionConfirm),
        "d still deletes the selected collection on the endpoints tree"
    );
}

#[test]
fn workspace_switch_into_sequenceless_resets_to_endpoints() {
    let mut app = seq_pane_app();
    dispatch(&mut app, Action::ToggleSequencesPane);
    assert_eq!(app.panes.left_active, LeftPane::Sequences);
    assert!(app.panes.sequences_shown);

    let tree = explorer(vec![
        collection_row("/b", "api", 0),
        endpoint_row("/b", "api", 0, "x.toml", endpoint("x", "https://api.test/x")),
    ]);
    app.switch_workspace("/b".to_owned(), Ok((workspace("/b", "empty"), tree)));
    assert_eq!(app.explorer.sequences.len(), 0);
    assert!(!app.panes.sequences_shown, "sub-pane resets off for the new workspace");
    assert_eq!(
        app.panes.left_active,
        LeftPane::Endpoints,
        "focus must not strand on an empty sequences pane"
    );
    assert!(!app.panes.left_column_on_sequences(), "B1 disarmed");
}

#[test]
fn reload_emptying_sequences_forces_endpoints() {
    let mut app = seq_pane_app();
    dispatch(&mut app, Action::ToggleSequencesPane);
    assert_eq!(app.panes.left_active, LeftPane::Sequences);
    let tree = explorer(vec![collection_row("/ws", "api", 0)]);
    app.reload_explorer(Reload { explorer: tree, places: Vec::new() });
    assert_eq!(app.explorer.sequences.len(), 0);
    assert_eq!(
        app.panes.left_active,
        LeftPane::Endpoints,
        "an emptied sub-pane never keeps focus"
    );
}

#[test]
fn picking_a_sequence_sets_seq_cursor() {
    let mut app = seq_pane_app();
    let checkout_file = app
        .explorer
        .sequences
        .iter()
        .find(|s| s.name == "Checkout")
        .unwrap()
        .file
        .clone();
    app.open_picked_sequence(checkout_file, Ok("Checkout".to_owned()));
    assert_eq!(app.explorer.seq_cursor, 1);
    assert_eq!(app.explorer.selected_sequence().unwrap().name, "Checkout");
}

#[test]
fn url_popup_commit_runs_merge() {
    let mut app = app_with_endpoint();
    app.begin_url_popup();
    assert!(current(&mut app).url_popup.is_some());
    current(&mut app).url_popup = Some(ModalEditor::new("https://api.test/x?q=1"));
    press_key(&mut app, Key::Enter);
    assert!(current(&mut app).url_popup.is_none(), "enter commits + closes");
    let req = app.live_request().unwrap();
    assert_eq!(req.url, "https://api.test/x");
    assert!(req.params.iter().any(|p| p.name == "q" && p.enabled));
}

#[test]
fn url_popup_esc_cancels() {
    let mut app = app_with_endpoint();
    let before = app.live_request().unwrap().url.clone();
    app.begin_url_popup();
    press_key(&mut app, Key::Esc);
    assert!(current(&mut app).url_popup.is_none());
    assert_eq!(app.live_request().unwrap().url, before, "url unchanged");
}

#[test]
fn url_popup_single_line_constraint() {
    let mut app = app_with_endpoint();
    app.begin_url_popup();
    current(&mut app).url_popup = Some(ModalEditor::new("https://a/b\nc"));
    press_key(&mut app, Key::Enter);
    assert_eq!(app.live_request().unwrap().url, "https://a/bc");
}

#[test]
fn url_popup_search_executes_then_commits() {
    let mut app = app_with_endpoint();
    app.begin_url_popup();
    current(&mut app).url_popup = Some(ModalEditor::new("https://api.test/find"));
    for c in "/find".chars() {
        press(&mut app, c);
    }
    assert_eq!(
        current(&mut app).url_popup.as_ref().unwrap().mode(),
        EditorMode::Search
    );
    press_key(&mut app, Key::Enter);
    let popup = current(&mut app).url_popup.as_ref().expect("popup still open");
    assert_eq!(popup.mode(), EditorMode::Normal, "search left Search mode");
    assert_eq!(popup.state.cursor.col, 17, "cursor jumped to the 'find' match");
    press_key(&mut app, Key::Enter);
    assert!(current(&mut app).url_popup.is_none(), "second enter commits");
}

#[test]
fn url_popup_esc_aborts_pending_find_not_popup() {
    let mut app = app_with_endpoint();
    app.begin_url_popup();
    current(&mut app).url_popup = Some(ModalEditor::new("foo bar"));
    assert_eq!(app.motion_offered(KeyEvent::char('f')), Some(MotionIn::Popup));
    app.handle_key(KeyEvent::char('f'), with_motion());
    assert_eq!(app.motion_offered(key(Key::Esc)), Some(MotionIn::Popup));
    app.handle_key(key(Key::Esc), with_motion());
    assert!(
        current(&mut app).url_popup.is_some(),
        "esc aborted the find, not the popup"
    );
    press(&mut app, 'b');
    assert_eq!(
        current(&mut app).url_popup.as_ref().unwrap().state.cursor.col,
        0,
        "aborted find must not resolve on the next char"
    );
    press_key(&mut app, Key::Esc);
    assert!(
        current(&mut app).url_popup.is_none(),
        "esc with no pending cancels"
    );
}

#[test]
fn f_from_explorer_still_enters_jump() {
    let mut app = empty_app();
    app.panes.focus = Pane::Explorer;
    press(&mut app, 'f');
    assert!(app.jump.is_some(), "jump-mode still reachable outside Body");
}

#[test]
fn url_edit_mode_selects_inline_vs_popup() {
    let mut app = app_with_endpoint();
    app.begin_url_edit();
    assert!(current(&mut app).url_editor.is_some());
    assert!(current(&mut app).url_popup.is_none());
    let mut app = app_with_endpoint();
    app.set_url_edit_mode(UrlEditMode::Popup);
    app.begin_url_edit();
    assert!(current(&mut app).url_popup.is_some());
    assert!(current(&mut app).url_editor.is_none());
}

#[test]
fn help_opens_and_closes() {
    let mut app = empty_app();
    dispatch(&mut app, Action::Help);
    assert!(app.help.open);
    press(&mut app, 'j');
    assert_eq!(app.help.scroll, 1);
    press(&mut app, 'k');
    assert_eq!(app.help.scroll, 0);
    press(&mut app, '?');
    assert!(!app.help.open);
}

#[test]
fn profile_picker_marks_active() {
    let mut app = workspace_fixture();
    dispatch(&mut app, Action::SwitchProfile);
    let picker = app.picker.as_ref().unwrap();
    assert_eq!(picker.items[0], "● (none)");
    assert_eq!(picker.items[1], "dev");
    assert_eq!(picker.items[2], "prod");

    let mut app2 = workspace_fixture();
    app2.active_profile = Some("dev".to_owned());
    dispatch(&mut app2, Action::SwitchProfile);
    let picker2 = app2.picker.as_ref().unwrap();
    assert_eq!(picker2.items[0], "(none)");
    assert_eq!(picker2.items[1], "● dev");
    assert_eq!(picker2.items[2], "prod");
}

/// Lists the endpoints of the tree, as the search asks for.
fn list_endpoints(app: &mut App) {
    let rows = std::mem::take(&mut app.explorer.rows);
    let labels = rows
        .iter()
        .filter(|r| r.endpoint.is_some())
        .map(|r| format!("{} {}", r.name, r.display_path))
        .collect();
    let files = rows
        .iter()
        .filter(|r| r.endpoint.is_some())
        .map(|r| r.path.clone())
        .collect();
    app.search_listed(labels, files, explorer(rows));
}

/// Narrows the list to the items that hold what was typed.
fn narrow(app: &mut App) {
    let picker = app.picker.as_ref().unwrap();
    let shown = (0..picker.items.len())
        .filter(|i| picker.items[*i].contains(picker.query.as_str()))
        .collect();
    app.picker_filtered(shown);
}

#[test]
fn leader_f_opens_request_picker() {
    let mut app = workspace_fixture();
    press(&mut app, ' ');
    assert_eq!(
        app.leader,
        Some(LeaderState::Root),
        "space enters the root which-key state"
    );
    let fx = press(&mut app, 'f');
    assert!(matches!(fx[0], Effect::Tree(TreeWork::ListEndpoints)));
    list_endpoints(&mut app);
    assert_eq!(app.mode, Mode::Search, "<leader>f opens the search overlay");
    let picker = app.picker.as_ref().expect("picker open");
    assert!(
        picker.items.iter().any(|i| i.contains("Get user")),
        "request picker lists the workspace endpoints: {:?}",
        picker.items
    );
}

#[test]
fn workspace_picker_empty_without_history() {
    let mut app = workspace_fixture();
    dispatch(&mut app, Action::QuickJumpWorkspaces);
    assert_eq!(app.mode, Mode::Normal);
    assert!(app.picker.is_none());
    assert_eq!(message(&app).as_deref(), Some("no recent workspaces"));
}

#[test]
fn workspace_picker_lists_recent() {
    let mut app = workspace_fixture();
    app.has_history = true;
    let fx = dispatch(&mut app, Action::QuickJumpWorkspaces);
    assert!(matches!(fx[0], Effect::Disk(DiskWork::RecentWorkspaces)));
    app.recent_listed(Ok(vec!["/ws/beta".to_owned(), "/ws/alpha".to_owned()]));
    assert_eq!(app.mode, Mode::WorkspacePicker);
    let picker = app.picker.as_ref().expect("picker open");
    assert_eq!(picker.items, vec!["/ws/beta", "/ws/alpha"]);
    match &picker.choices {
        Choices::Workspaces(roots) => assert_eq!(roots, &vec!["/ws/beta", "/ws/alpha"]),
        _ => panic!("expected the workspaces"),
    }
}

#[test]
fn switch_workspace_resets_state_and_loads_new_tree() {
    let mut app = workspace_fixture();
    app.has_history = true;
    app.guarded_load(PendingLoad::Row(1));
    assert!(app.selected().is_some());
    current(&mut app).editor = ModalEditor::new("dirty body");
    app.active_profile = Some("dev".to_owned());
    app.panes.focus = Pane::Response;
    *app.response_mut() = ResponseState::Cancelled;

    let fx = app.switch_workspace("/other".to_owned(), Ok(other_workspace()));

    assert_eq!(app.workspace.as_ref().unwrap().name, "other");
    let names: Vec<String> = app.explorer.rows.iter().map(|r| r.name.clone()).collect();
    assert!(names.iter().any(|n| n == "orders"), "shows B: {names:?}");
    assert!(!names.iter().any(|n| n == "users"), "no A rows: {names:?}");

    assert!(app.selected().is_none());
    assert!(app.buffers.list.is_empty(), "buffer dropped → editor/response gone");
    assert!(app.active_profile.is_none());
    assert_eq!(app.explorer.cursor, 0);
    assert_eq!(app.panes.focus, Pane::Explorer);
    assert!(matches!(app.response(), ResponseState::Idle));
    assert!(!app.buffers.is_dirty(), "no dirty state after switch");
    assert_eq!(message(&app).as_deref(), Some("switched to other"));
    assert!(fx.iter().any(|e| matches!(e, Effect::TouchWorkspace(p) if p == "/other")));
}

#[test]
fn dirty_workspace_switch_defers_to_confirm() {
    let mut app = workspace_fixture();
    app.has_history = true;
    app.guarded_load(PendingLoad::Row(1));
    current(&mut app).editor = ModalEditor::new("unsaved edit");
    assert!(app.buffers.is_dirty());

    app.guarded_load(PendingLoad::Workspace("/other".to_owned()));
    assert_eq!(app.mode, Mode::Confirm(ConfirmPurpose::DiscardChanges));
    assert_eq!(app.workspace.as_ref().unwrap().name, "demo");

    let fx = press(&mut app, 'd');
    assert_eq!(app.mode, Mode::Normal);
    assert!(
        fx.iter().any(|e| matches!(e, Effect::Disk(DiskWork::OpenWorkspace(p)) if p == "/other"))
    );
    app.switch_workspace("/other".to_owned(), Ok(other_workspace()));
    assert_eq!(app.workspace.as_ref().unwrap().name, "other");
    assert!(app.selected().is_none());
}

#[test]
fn loading_a_new_endpoint_shows_a_fresh_response_not_the_previous() {
    let mut app = empty_app();
    app.open_or_focus_buffer(selected_with("a.toml", None));
    *app.response_mut() = ResponseState::Done { view: view("{}") };
    current(&mut app).geometry.scroll = 7;
    assert!(matches!(app.response(), ResponseState::Done { .. }));

    app.open_or_focus_buffer(selected_with("b.toml", None));
    let b = current(&mut app);
    assert!(
        matches!(b.response, ResponseState::Idle),
        "B shows its own Idle response, not A's stale Done"
    );
    assert_eq!(b.geometry.scroll, 0, "B starts unscrolled, not at A's scroll");
    assert!(b.in_flight.is_none(), "B has no in-flight from A");
}

#[test]
fn is_dirty_is_per_endpoint_buffer() {
    let mut app = empty_app();
    app.open_or_focus_buffer(selected_with("a.toml", Some("orig")));
    assert!(!app.buffers.is_dirty());
    current(&mut app).editor = ModalEditor::new("changed");
    assert!(app.buffers.is_dirty(), "body edit diverging from snapshot is dirty");
    current(&mut app).editor = ModalEditor::new("orig");
    assert!(!app.buffers.is_dirty(), "reverting the edit clears dirty");
}

#[test]
fn send_request_guards_on_active_buffer_in_flight() {
    let mut app = empty_app();
    open_bare_endpoint(&mut app);
    set_active_in_flight(&mut app, 1);
    let fx = app.send_request();
    assert!(fx.is_empty());
    assert_eq!(
        message(&app).as_deref(),
        Some("request already in flight — ctrl-c to cancel")
    );
    assert!(active_in_flight_is_some(&app), "existing in-flight untouched");
}

#[test]
fn on_response_routes_by_generation_to_matching_buffer() {
    let mut app = empty_app();
    app.open_or_focus_buffer(selected_with("a.toml", None));
    app.open_or_focus_buffer(selected_with("b.toml", None));
    app.buffers.list[0].in_flight = Some(InFlight { generation: 7, meta: meta() });
    app.buffers.list[1].in_flight = Some(InFlight { generation: 9, meta: meta() });
    app.buffers.active = 0;

    app.on_response(9, Ok(landed()), meta());
    assert!(
        matches!(app.buffers.list[1].response, ResponseState::Done { .. }),
        "gen 9 lands on buffer 1"
    );
    assert!(app.buffers.list[1].in_flight.is_none());
    assert!(app.buffers.list[0].in_flight.is_some());
    assert!(matches!(app.buffers.list[0].response, ResponseState::Idle));

    app.on_response(42, Ok(landed()), meta());
    assert!(app.buffers.list[0].in_flight.is_some());
}

#[test]
fn switch_workspace_clears_buffers_and_aborts_in_flight() {
    let mut app = app_with_endpoint();
    assert!(app.selected().is_some());
    set_active_in_flight(&mut app, 1);

    let fx = app.switch_workspace("/other".to_owned(), Ok(other_workspace()));

    assert!(app.buffers.list.is_empty(), "all buffers dropped on switch");
    assert_eq!(app.buffers.active, 0);
    assert!(app.selected().is_none());
    assert!(
        fx.iter().any(|e| matches!(e, Effect::Abort(1))),
        "the in-flight task was aborted"
    );
}

#[test]
fn remap_buffers_removes_vanished_file_buffer() {
    let ping = || endpoint("Ping", "https://api.test/ping");
    let tree = explorer(vec![
        collection_row("/ws", "api", 0),
        endpoint_row("/ws", "api", 0, "ping.toml", ping()),
    ]);
    let mut app = app_with(Some(workspace("/ws", "demo")), tree);
    app.guarded_load(PendingLoad::Row(1));
    assert_eq!(app.buffers.list.len(), 1);

    let places = vec![BufferPlace { exists: false, collection: None }];
    let tree = explorer(vec![collection_row("/ws", "api", 0)]);
    app.reload_explorer(Reload { explorer: tree, places });
    assert!(app.buffers.list.is_empty(), "vanished-file buffer is removed");
    assert_eq!(app.buffers.active, 0);
    assert!(app.selected().is_none());
}

#[test]
fn rename_repoints_loaded_buffer_path() {
    let ping = endpoint("Ping", "https://api.test/ping");
    let tree = explorer(vec![
        collection_row("/ws", "api", 0),
        endpoint_row("/ws", "api", 0, "ping.toml", ping),
    ]);
    let mut app = app_with(Some(workspace("/ws", "demo")), tree);
    app.guarded_load(PendingLoad::Row(1));
    assert_eq!(app.explorer.cursor, 1);
    current(&mut app).editor = ModalEditor::new("draft body");

    let fx = app.commit_rename("Pong".to_owned());
    match &fx[0] {
        Effect::Disk(DiskWork::RenameEndpoint { path, name }) => {
            assert_eq!(path, "/ws/api/ping.toml");
            assert_eq!(name, "Pong");
        }
        other => panic!("expected a rename, got {other:?}"),
    }
    let tree = explorer(vec![
        collection_row("/ws", "api", 0),
        endpoint_row("/ws", "api", 0, "pong.toml", endpoint("Pong", "https://api.test/ping")),
    ]);
    let reload =
        Reload { explorer: tree, places: vec![BufferPlace { exists: true, collection: Some(0) }] };
    app.endpoint_renamed(
        "/ws/api/ping.toml".to_owned(),
        "Pong".to_owned(),
        Ok(Relocated { path: "/ws/api/pong.toml".to_owned(), steps: Ok(0), reload }),
    );

    let b = current(&mut app);
    assert_eq!(b.endpoint.endpoint.name, "Pong", "endpoint name repointed");
    assert_eq!(b.loaded_snapshot.name, "Pong", "snapshot name repointed");
    assert!(
        b.endpoint.file.ends_with("pong.toml"),
        "file path repointed (slugified), got {:?}",
        b.endpoint.file
    );
    assert_eq!(b.editor.text(), "draft body", "unsaved edit survives the in-place rename");
}
