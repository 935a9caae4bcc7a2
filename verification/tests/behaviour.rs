#![allow(dead_code, unused_imports)]

use churl::app::{
    App, Component, DiskWork, Effect, FilePickerOp, HistoryOpen, PendingClose, PendingLoad, ReorderDir,
    ResolveFor, Resume, Runtime, SaveError, Surface, TreeWork,
};
use churl::buffer::{BufferPlace, EndpointBuffer, InFlight, SelectedEndpoint};
use churl::drawing::{Drawn, Overlay};
use churl::editor::{EditorMode, ModalEditor};
use churl::explorer::{Explorer, Row, RowKind, SequenceItem};
use churl::keymap::{Action, KeyMap, Layer};
use churl::keys::{Key, KeyEvent, KeyModifiers};
use churl::line_editor::LineEditor;
use churl::load::{launch_delay, Latency, LoadCheck, LoadConfig, LoadLanded, LoadStatus};
use churl::loading::LoadOutcome;
use churl::meta::ResponseMeta;
use churl::mode::{
    confirm_text, ConfirmPurpose, JsonDialect, LeaderMenu, LeaderState, Mode, PromptPurpose, SeqView,
    UrlEditMode,
};
use churl::model::{Body, BodyKind, Endpoint, Method, Part, PartValue, Request};
use churl::notice::Notice;
use churl::panel::{EnvOutcome, EnvSaved};
use churl::pane::{LeftPane, Pane, ZoomPane};
use churl::picker::{Choices, DestPurpose};
use churl::request_pane::RequestTab;
use churl::response::{browse_key, BodySearch, BrowseKey, ResponseState, ResponseView, Syntax, ViewMode};
use churl::routing::{Facts, MotionIn};
use churl::sending::{AppMsg, Landed};
use churl::sequence::{
    OnError, Prepared, Sequence, Step, StepLanded, StepResult, StepStatus,
};
use churl::settings::{
    AdvancedLimits, LoadCaps, OptionsEvent, RedirectPolicy, SecretPolicy, Settings,
    SettingsEvent, Values,
};
use churl::surfaces::{EditorOutcome, RunnerOutcome};
use churl::switching::Reload;
use churl::tree::Relocated;
use churl::vars::Vars;
use churl::workspace::{Profile, Workspace};

fn values() -> Values {
    Values {
        theme: "dark".to_owned(),
        leader_key: "space".to_owned(),
        url_edit: UrlEditMode::Inline,
        secret_policy: SecretPolicy::Warn,
        redirect: RedirectPolicy::Strip,
        proxy: None,
        insecure: false,
        cookies: false,
        debug: false,
        load_caps: LoadCaps {
            warn_total: 100,
            warn_concurrency: 20,
            max_total: 10_000,
            max_concurrency: 200,
        },
        advanced: AdvancedLimits {
            concurrency: 4,
            total: 10,
            body_cap_bytes: 1_000_000,
            timeout_secs: 30,
        },
    }
}

fn app_with(workspace: Option<Workspace>, explorer: Explorer) -> App {
    App::new(workspace, explorer, KeyMap::default(), Settings::new(values()))
}

fn empty_app() -> App {
    app_with(None, Explorer::empty())
}

fn facts() -> Facts {
    Facts {
        motion: false,
        line: None,
        on_response: false,
        checked: Err("not in the editor".to_owned()),
        palette: Vec::new(),
        menu_method: None,
    }
}

fn with_motion() -> Facts {
    Facts { motion: true, ..facts() }
}

fn key(code: Key) -> KeyEvent {
    KeyEvent::new(code, KeyModifiers::none())
}

fn press(app: &mut App, c: char) -> Vec<Effect> {
    app.handle_key(KeyEvent::char(c), facts())
}

fn press_key(app: &mut App, code: Key) -> Vec<Effect> {
    app.handle_key(key(code), facts())
}

fn press_ctrl(app: &mut App, c: char) -> Vec<Effect> {
    let modifiers = KeyModifiers { control: true, alt: false, shift: false };
    app.handle_key(KeyEvent::new(Key::Char(c), modifiers), facts())
}

fn dispatch(app: &mut App, action: Action) -> Vec<Effect> {
    app.dispatch(action, None, facts())
}

fn message(app: &App) -> Option<String> {
    app.message_text()
}

fn request(url: &str) -> Request {
    Request {
        method: Method::Get,
        url: url.to_owned(),
        headers: Vec::new(),
        params: Vec::new(),
        body: None,
        auth: None,
        insecure: false,
    }
}

fn endpoint(name: &str, url: &str) -> Endpoint {
    Endpoint { seq: 0, name: name.to_owned(), request: request(url) }
}

fn selected_with(file: &str, body: Option<&str>) -> SelectedEndpoint {
    let mut e = endpoint("ep", "https://api.test/x");
    e.request.body = body.map(|c| Body::Simple { kind: BodyKind::Text, content: c.to_owned() });
    SelectedEndpoint {
        display_path: format!("coll/{file}"),
        file: file.to_owned(),
        collection: 0,
        endpoint: e,
    }
}

fn vars(pairs: &[(&str, &str)]) -> Vars {
    let mut v = Vars::new();
    for (name, value) in pairs {
        v.insert((*name).to_owned(), (*value).to_owned());
    }
    v
}

fn workspace(root: &str, name: &str) -> Workspace {
    Workspace {
        root: root.to_owned(),
        key: root.to_owned(),
        name: name.to_owned(),
        vars: Vars::new(),
        profiles: Vec::new(),
    }
}

fn collection_row(root: &str, name: &str, index: usize) -> Row {
    Row {
        kind: RowKind::Collection,
        name: name.to_owned(),
        path: format!("{root}/{name}"),
        display_path: name.to_owned(),
        collection_dir: format!("{root}/{name}"),
        collection: index,
        endpoint: None,
    }
}

fn endpoint_row(root: &str, coll: &str, index: usize, file: &str, e: Endpoint) -> Row {
    Row {
        kind: RowKind::Endpoint,
        name: e.name.clone(),
        path: format!("{root}/{coll}/{file}"),
        display_path: format!("{coll}/{file}"),
        collection_dir: format!("{root}/{coll}"),
        collection: index,
        endpoint: Some(e),
    }
}

fn explorer(rows: Vec<Row>) -> Explorer {
    let mut e = Explorer::empty();
    let count = rows.iter().map(|r| r.collection + 1).max().unwrap_or(0);
    for _ in 0..count {
        e.collection_vars.push(Vars::new());
    }
    e.endpoint_files = rows
        .iter()
        .filter(|r| r.endpoint.is_some())
        .map(|r| r.path.clone())
        .collect();
    e.rows = rows;
    e
}

fn sequence(name: &str, on_error: OnError, endpoints: &[&str]) -> Sequence {
    let steps = endpoints
        .iter()
        .enumerate()
        .map(|(i, e)| Step {
            seq: i as u32,
            endpoint: (*e).to_owned(),
            extract: Vec::new(),
            persist: Vec::new(),
        })
        .collect();
    Sequence { name: name.to_owned(), on_error, steps }
}

fn view(text: &str) -> ResponseView {
    ResponseView {
        generation: 0,
        mode: ViewMode::Body,
        syntax: Syntax::Json,
        pretty: false,
        sort_keys: false,
        wrap: false,
        line_numbers: false,
        h_offset: 0,
        search: None,
        truncated: false,
        body_truncated: false,
        text: text.to_owned(),
        raw: text.as_bytes().to_vec(),
        extension: "json".to_owned(),
    }
}

fn meta() -> ResponseMeta {
    ResponseMeta {
        method: "GET".to_owned(),
        url: "https://api.test/x".to_owned(),
        endpoint_path: Some("users/get.toml".to_owned()),
        executed_at_ms: 1,
    }
}

fn landed() -> Landed {
    Landed { status: 200, total_ms: 3, view: view("{}") }
}

/// The demo workspace: one collection with an endpoint, unfolded, and two profiles.
fn workspace_fixture() -> App {
    let mut ws = workspace("/ws", "demo");
    ws.vars = vars(&[("base", "ws")]);
    ws.profiles = vec![
        Profile { name: "dev".to_owned(), vars: vars(&[("host", "dev.test")]) },
        Profile { name: "prod".to_owned(), vars: vars(&[("host", "prod.test")]) },
    ];
    let rows = vec![
        collection_row("/ws", "users", 0),
        endpoint_row("/ws", "users", 0, "get.toml", endpoint("Get user", "https://{{host}}/users")),
    ];
    app_with(Some(ws), explorer(rows))
}

fn app_with_endpoint() -> App {
    let mut app = workspace_fixture();
    let fx = app.guarded_load(PendingLoad::Row(1));
    assert!(fx.is_empty());
    app
}

fn other_workspace() -> (Workspace, Explorer) {
    let mut create = endpoint("Create order", "https://x/orders");
    create.request.method = Method::Post;
    let rows = vec![
        collection_row("/other", "orders", 0),
        endpoint_row("/other", "orders", 0, "create.toml", create),
    ];
    (workspace("/other", "other"), explorer(rows))
}

fn open_bare_endpoint(app: &mut App) {
    app.open_or_focus_buffer(SelectedEndpoint {
        display_path: "test".to_owned(),
        file: "/tmp/test.toml".to_owned(),
        collection: 0,
        endpoint: endpoint("test", "https://api.test/x"),
    });
}

fn current(app: &mut App) -> &mut EndpointBuffer {
    let i = app.buffers.active;
    &mut app.buffers.list[i]
}

fn set_active_in_flight(app: &mut App, generation: u64) {
    current(app).in_flight = Some(InFlight { generation, meta: meta() });
}

fn active_in_flight_is_some(app: &App) -> bool {
    app.in_flight()
}

fn body_of(app: &mut App) -> String {
    current(app).editor.text()
}

fn insert_mode_app(keymap: KeyMap) -> App {
    let mut app = App::new(None, Explorer::empty(), keymap, Settings::new(values()));
    open_bare_endpoint(&mut app);
    app.panes.focus = Pane::Request;
    current(&mut app).tabs.active = RequestTab::Body;
    current(&mut app).editor.set_mode(EditorMode::Insert);
    app
}

fn places(app: &App) -> Vec<BufferPlace> {
    app.buffers
        .list
        .iter()
        .map(|_| BufferPlace { exists: true, collection: Some(0) })
        .collect()
}

fn reload_of(app: &App) -> Reload {
    let rows = vec![
        collection_row("/ws", "users", 0),
        endpoint_row("/ws", "users", 0, "get.toml", endpoint("Get user", "https://{{host}}/users")),
    ];
    Reload { explorer: explorer(rows), places: places(app) }
}

#[test]
fn open_or_focus_buffer_seeds_editor_and_snapshot() {
    let mut app = empty_app();
    app.open_or_focus_buffer(selected_with("a.toml", Some("hello body")));
    assert_eq!(app.buffers.list.len(), 1);
    assert_eq!(app.buffers.active, 0);
    assert_eq!(body_of(&mut app), "hello body");
    match &current(&mut app).loaded_snapshot.request.body {
        Some(Body::Simple { content, .. }) => assert_eq!(content, "hello body"),
        other => panic!("expected a text, got {other:?}"),
    }
    assert!(!app.buffers.is_dirty(), "freshly opened buffer is not dirty");
    app.open_or_focus_buffer(selected_with("b.toml", None));
    assert_eq!(app.buffers.list.len(), 2);
    assert_eq!(app.selected().unwrap().file, "b.toml");
    app.open_or_focus_buffer(selected_with("a.toml", Some("other")));
    assert_eq!(app.buffers.list.len(), 2, "an open endpoint is shown, not opened again");
    assert_eq!(body_of(&mut app), "hello body");
}

#[test]
fn unknown_profile_is_quoted_and_the_known_are_listed() {
    let mut ws = workspace("/ws", "demo");
    ws.profiles = vec![
        Profile { name: "dev".to_owned(), vars: Vars::new() },
        Profile { name: "prod".to_owned(), vars: Vars::new() },
    ];
    let result = App::with_config(
        Some(ws),
        Explorer::empty(),
        KeyMap::default(),
        Settings::new(values()),
        Vars::new(),
        Some("st\"g".to_owned()),
    );
    let msg = match result {
        Ok(_) => panic!("expected an error"),
        Err(err) => err,
    };
    assert!(msg.contains("\"st\\\"g\""), "{msg}");
    assert!(msg.contains("dev, prod"), "{msg}");
}

#[test]
fn runtime_without_a_record_says_so() {
    let runtime = Runtime {
        timeout_secs: 12,
        max_body_bytes: 99,
        load_caps: LoadCaps {
            warn_total: 1,
            warn_concurrency: 2,
            max_total: 3,
            max_concurrency: 4,
        },
    };
    let mut app = workspace_fixture();
    let fx = app.install_runtime(runtime, HistoryOpen::Opened);
    assert!(app.has_client && app.has_history);
    assert_eq!(app.settings.client_timeout_secs, 12);
    assert_eq!(app.settings.max_body_bytes, 99);
    assert_eq!(app.settings.load_caps.max_total, 3);
    assert!(matches!(&fx[0], Effect::TouchWorkspace(p) if p == "/ws"));
    assert!(app.message.is_none());

    let mut app = workspace_fixture();
    let fx = app.install_runtime(runtime, HistoryOpen::Failed("locked".to_owned()));
    assert!(fx.is_empty());
    assert_eq!(message(&app).as_deref(), Some("history disabled: locked"));
    let mut app = workspace_fixture();
    app.install_runtime(runtime, HistoryOpen::NoDirectory);
    assert_eq!(message(&app).as_deref(), Some("history disabled: no data directory"));
}

#[test]
fn send_is_filled_in_then_sent_and_recorded() {
    let mut app = app_with_endpoint();
    app.has_client = true;
    app.has_history = true;
    let fx = app.send_request();
    let request = match fx.into_iter().next() {
        Some(Effect::Resolve { request, resolver, purpose: ResolveFor::Send }) => {
            assert_eq!(request.url, "https://{{host}}/users");
            assert_eq!(resolver.lookup(&"base".to_owned()).as_deref(), Some("ws"));
            request
        }
        other => panic!("expected a request to fill in, got {other:?}"),
    };
    let fx = app.send_resolved(request, None, 5);
    match &fx[0] {
        Effect::Send { generation, meta, .. } => {
            assert_eq!(*generation, 1);
            assert_eq!(meta.method, "GET");
            assert_eq!(meta.endpoint_path.as_deref(), Some("users/get.toml"));
        }
        other => panic!("expected a send, got {other:?}"),
    }
    assert!(app.in_flight());
    assert!(matches!(app.response(), ResponseState::InFlight { .. }));
    let fx = app.on_response(1, Err("timed out".to_owned()), meta());
    assert!(matches!(
        &fx[0],
        Effect::WriteHistory { status: None, duration_ms: None, .. }
    ));
    assert!(matches!(app.response(), ResponseState::Failed { error, .. } if error == "timed out"));
    assert!(!app.in_flight());
    // A result that arrives after a cancel is dropped.
    set_active_in_flight(&mut app, 4);
    app.cancel_request();
    assert_eq!(message(&app).as_deref(), Some("request cancelled"));
    assert!(app.on_response(4, Ok(landed()), meta()).is_empty());
    assert!(matches!(app.response(), ResponseState::Cancelled));
}

#[test]
fn send_without_an_endpoint_says_so() {
    let mut app = empty_app();
    assert!(app.send_request().is_empty());
    assert_eq!(message(&app).as_deref(), Some("no endpoint selected — nothing to send"));
    app.cancel_request();
    assert_eq!(message(&app).as_deref(), Some("no request in flight"));
    app.save_request();
    assert_eq!(message(&app).as_deref(), Some("no endpoint to save"));
    assert!(app.toggle_endpoint_insecure().is_empty());
    assert_eq!(message(&app).as_deref(), Some("no endpoint selected"));
}

#[test]
fn save_goes_to_disk_and_clears_the_changes() {
    let mut app = app_with_endpoint();
    current(&mut app).editor = ModalEditor::new("text");
    assert!(app.buffers.is_dirty());
    assert_eq!(app.dirty_file().as_deref(), Some("/ws/users/get.toml"));
    let fx = app.save_request();
    let (path, saved) = match fx.into_iter().next() {
        Some(Effect::Disk(DiskWork::SaveEndpoint { path, endpoint })) => (path, endpoint),
        other => panic!("expected a save, got {other:?}"),
    };
    assert_eq!(path, "/ws/users/get.toml");
    app.endpoint_saved(path, saved, Ok(()));
    assert!(!app.buffers.is_dirty());
    assert_eq!(app.dirty_file(), None);
    assert_eq!(message(&app).as_deref(), Some("Saved Get user"));

    let refused = SaveError::Secrets(vec!["token".to_owned(), "password".to_owned()]);
    current(&mut app).editor = ModalEditor::new("more");
    let e = endpoint("Get user", "https://x");
    app.endpoint_saved("/ws/users/get.toml".to_owned(), e, Err(refused));
    assert!(app.buffers.is_dirty());
    assert_eq!(
        message(&app).as_deref(),
        Some("not saved: secret auth values (token, password) — use {{var}}")
    );
    let e = endpoint("Get user", "https://x");
    let failed = Err(SaveError::Other("disk full".to_owned()));
    app.endpoint_saved("/ws/users/get.toml".to_owned(), e, failed);
    assert_eq!(message(&app).as_deref(), Some("save failed: disk full"));
}

#[test]
fn closing_a_changed_buffer_asks_first() {
    let mut app = empty_app();
    app.open_or_focus_buffer(selected_with("a.toml", Some("a")));
    app.open_or_focus_buffer(selected_with("b.toml", Some("b")));
    app.open_or_focus_buffer(selected_with("c.toml", Some("c")));
    app.buffers.list[0].editor = ModalEditor::new("changed");
    app.buffers.list[2].editor = ModalEditor::new("changed");
    let fx = dispatch(&mut app, Action::BufferCloseAll);
    assert!(fx.is_empty());
    assert_eq!(app.buffers.list.len(), 2, "the clean one is closed");
    assert_eq!(app.mode, Mode::Confirm(ConfirmPurpose::DiscardChanges));
    press(&mut app, 'd');
    assert_eq!(app.buffers.list.len(), 1);
    assert_eq!(app.mode, Mode::Confirm(ConfirmPurpose::DiscardChanges), "one question each");
    press_key(&mut app, Key::Esc);
    assert_eq!(app.mode, Mode::Normal);
    assert_eq!(app.buffers.list.len(), 1, "the other stays");
    assert!(app.pending_close.is_none());

    let fx = dispatch(&mut app, Action::BufferClose);
    assert!(fx.is_empty());
    assert!(matches!(&app.pending_close, Some(PendingClose::One(p)) if p == "c.toml"));
    let fx = press(&mut app, 's');
    assert!(fx.iter().any(|e| matches!(e, Effect::Disk(DiskWork::SaveEndpoint { .. }))));
    assert!(fx.iter().any(|e| matches!(e, Effect::ThenResume(Resume::Close))));
    for e in fx {
        match e {
            Effect::Disk(DiskWork::SaveEndpoint { path, endpoint }) => {
                app.endpoint_saved(path, endpoint, Ok(()));
            }
            Effect::ThenResume(Resume::Close) => {
                app.resume_close();
            }
            _ => {}
        }
    }
    assert!(app.buffers.list.is_empty());
    assert_eq!(app.mode, Mode::Normal);
}

#[test]
fn refused_save_keeps_the_workspace() {
    let mut app = app_with_endpoint();
    current(&mut app).editor = ModalEditor::new("unsaved edit");
    app.guarded_load(PendingLoad::Workspace("/other".to_owned()));
    let fx = press(&mut app, 's');
    for e in fx {
        match e {
            Effect::Disk(DiskWork::SaveEndpoint { path, endpoint }) => {
                let refused = SaveError::Secrets(vec!["token".to_owned()]);
                app.endpoint_saved(path, endpoint, Err(refused));
            }
            Effect::ThenResume(Resume::Load) => {
                assert!(app.resume_load().is_empty());
            }
            other => panic!("unexpected {other:?}"),
        }
    }
    assert!(app.buffers.is_dirty(), "nothing is lost");
    assert!(app.pending_load.is_none());
    let fx = app.switch_workspace("/other".to_owned(), Err("no such file".to_owned()));
    assert!(fx.is_empty());
    assert_eq!(message(&app).as_deref(), Some("failed to open workspace: no such file"));
    assert_eq!(app.workspace.as_ref().unwrap().name, "demo");
    assert_eq!(app.buffers.list.len(), 1);
}

#[test]
fn buffers_cycle_and_are_counted_from_one() {
    let mut app = empty_app();
    app.open_or_focus_buffer(selected_with("a.toml", None));
    app.open_or_focus_buffer(selected_with("b.toml", None));
    dispatch(&mut app, Action::BufferNext);
    assert_eq!(app.buffers.active, 0, "round the end");
    dispatch(&mut app, Action::BufferPrev);
    assert_eq!(app.buffers.active, 1);
    app.focus_buffer_index(1);
    assert_eq!(app.buffers.active, 0);
    app.focus_buffer_index(3);
    assert_eq!(app.buffers.active, 0);
    assert_eq!(message(&app).as_deref(), Some("no tab 3"));
}

#[test]
fn motions_are_offered_where_they_belong() {
    let mut app = empty_app();
    open_bare_endpoint(&mut app);
    app.panes.focus = Pane::Request;
    assert_eq!(app.motion_offered(KeyEvent::char('f')), None);
    current(&mut app).tabs.active = RequestTab::Body;
    assert_eq!(app.motion_offered(KeyEvent::char('f')), Some(MotionIn::Body));
    app.handle_key(KeyEvent::char('f'), with_motion());
    assert!(app.jump.is_none(), "a motion that took the key hides the jump");
    press(&mut app, 'f');
    assert!(app.jump.is_some());
    press_key(&mut app, Key::Esc);
    current(&mut app).editor.set_mode(EditorMode::Insert);
    assert_eq!(app.motion_offered(KeyEvent::char('f')), None);
    app.begin_url_popup();
    assert_eq!(app.motion_offered(KeyEvent::char('f')), Some(MotionIn::Popup));
    assert_eq!(app.motion_offered(key(Key::Enter)), None);
    current(&mut app).url_popup.as_mut().unwrap().set_mode(EditorMode::Search);
    assert_eq!(app.motion_offered(KeyEvent::char('f')), None);
    dispatch(&mut app, Action::Help);
    assert_eq!(app.motion_offered(KeyEvent::char('f')), None);
}

#[test]
fn unknown_keys_leave_the_editor() {
    let mut app = insert_mode_app(KeyMap::default());
    press(&mut app, 'x');
    press_key(&mut app, Key::BackTab);
    press_key(&mut app, Key::Function(5));
    assert_eq!(body_of(&mut app), "x");
    press_key(&mut app, Key::Enter);
    press(&mut app, 'y');
    assert_eq!(body_of(&mut app), "x\ny");
    press_key(&mut app, Key::Esc);
    assert_eq!(current(&mut app).editor.mode(), EditorMode::Normal);
}

#[test]
fn carriage_returns_before_line_feeds_are_left_out() {
    let editor = ModalEditor::new("a\r\nb\rc\n");
    assert_eq!(editor.text(), "a\nb\rc\n");
    assert_eq!(editor.mode(), EditorMode::Normal);
}

#[test]
fn prompt_esc_forgets_the_directory() {
    let mut app = workspace_fixture();
    app.picker = Some(churl::picker::Picker::new(
        vec!["users".to_owned()],
        Choices::Destinations {
            dirs: vec!["/ws/users".to_owned()],
            purpose: DestPurpose::CreateEndpoint,
            source: None,
        },
    ));
    app.mode = Mode::Palette;
    app.accept_overlay(facts());
    assert_eq!(app.mode, Mode::Prompt(PromptPurpose::NewEndpoint));
    assert_eq!(app.pending_create_dir.as_deref(), Some("/ws/users"));
    press_key(&mut app, Key::Esc);
    assert_eq!(app.mode, Mode::Normal);
    assert_eq!(app.pending_create_dir, None);
}

#[test]
fn new_endpoint_is_created_read_and_opened() {
    let mut app = workspace_fixture();
    dispatch(&mut app, Action::NewEndpoint);
    assert_eq!(app.mode, Mode::Prompt(PromptPurpose::NewEndpoint));
    for c in "List".chars() {
        press(&mut app, c);
    }
    assert!(!app.prompt_buffer_is_curl());
    let fx = press_key(&mut app, Key::Enter);
    match &fx[0] {
        Effect::Disk(DiskWork::CreateEndpoint { dir, name }) => {
            assert_eq!(dir, "/ws/users");
            assert_eq!(name, "List");
        }
        other => panic!("expected a new endpoint, got {other:?}"),
    }
    let reload = reload_of(&app);
    let made = Ok(("/ws/users/list.toml".to_owned(), reload));
    let fx = app.endpoint_created("List".to_owned(), made);
    assert_eq!(message(&app).as_deref(), Some("created List"));
    assert!(
        matches!(&fx[0], Effect::Tree(TreeWork::OpenFile(p)) if p == "/ws/users/list.toml")
    );
    app.endpoint_created("List".to_owned(), Err("exists".to_owned()));
    assert_eq!(message(&app).as_deref(), Some("error: exists"));
}

#[test]
fn curl_in_the_prompt_is_imported() {
    let mut app = workspace_fixture();
    dispatch(&mut app, Action::NewEndpoint);
    app.prompt_editor = LineEditor::new("curl https://x");
    assert!(app.prompt_buffer_is_curl());
    let fx = press_key(&mut app, Key::Enter);
    assert!(matches!(
        &fx[0],
        Effect::Disk(DiskWork::ImportCurl { dir, curl }) if dir == "/ws/users" && curl == "curl https://x"
    ));
    let failed = Err(churl::tree::CurlError::Parse("no URL".to_owned()));
    app.create_endpoint_from_curl("/ws/users".to_owned(), "curl", failed);
    assert_eq!(message(&app).as_deref(), Some("curl import failed: no URL"));
    assert_eq!(app.mode, Mode::Prompt(PromptPurpose::NewEndpoint), "the prompt is back");
    assert_eq!(app.prompt_editor.text(), "curl");
    assert_eq!(app.pending_create_dir.as_deref(), Some("/ws/users"));

    let import = churl::tree::CurlImport {
        path: "/ws/users/x.toml".to_owned(),
        name: "x".to_owned(),
        captured: vars(&[("token", "S")]),
        captured_names: vec!["token".to_owned()],
        warnings: Vec::new(),
        reload: reload_of(&app),
    };
    let fx = app.create_endpoint_from_curl("/ws/users".to_owned(), "curl", Ok(import));
    assert_eq!(
        message(&app).as_deref(),
        Some(
            "imported curl → x · Bearer token captured into session var {{token}} (masked, \
             this session only)"
        )
    );
    assert_eq!(app.build_resolver(0).lookup(&"token".to_owned()).as_deref(), Some("S"));
    assert!(matches!(&fx[0], Effect::Tree(TreeWork::OpenFile(p)) if p == "/ws/users/x.toml"));
}

#[test]
fn pasted_curl_makes_an_endpoint() {
    let mut app = workspace_fixture();
    let fx = app.commit_paste_curl("curl https://y".to_owned());
    assert!(matches!(
        &fx[0],
        Effect::Disk(DiskWork::PasteCurl { dir, curl }) if dir == "/ws/users" && curl == "curl https://y"
    ));
    let import = churl::tree::CurlImport {
        path: "/ws/users/y.toml".to_owned(),
        name: "y".to_owned(),
        captured: Vars::new(),
        captured_names: Vec::new(),
        warnings: vec!["-k".to_owned()],
        reload: reload_of(&app),
    };
    let fx = app.curl_pasted(Ok(import));
    assert_eq!(message(&app).as_deref(), Some("pasted curl → y (1 warning(s))"));
    assert!(matches!(&fx[0], Effect::Tree(TreeWork::OpenFile(p)) if p == "/ws/users/y.toml"));
    app.curl_pasted(Err(churl::tree::CurlError::Disk("full".to_owned())));
    assert_eq!(message(&app).as_deref(), Some("error: full"));
    let mut app = empty_app();
    assert!(app.commit_paste_curl("curl https://y".to_owned()).is_empty());
    assert!(matches!(app.message, Some(Notice::SelectCollectionFirst)));
}

#[test]
fn collection_is_deleted_by_its_name_only() {
    let mut app = workspace_fixture();
    dispatch(&mut app, Action::Delete);
    assert_eq!(app.mode, Mode::Prompt(PromptPurpose::DeleteCollectionConfirm));
    assert_eq!(
        app.prompt_hint(PromptPurpose::DeleteCollectionConfirm).as_deref(),
        Some("type \"users\" to confirm")
    );
    app.prompt_editor = LineEditor::new("user");
    assert!(press_key(&mut app, Key::Enter).is_empty());
    assert_eq!(app.mode, Mode::Normal);
    assert!(matches!(app.message, Some(Notice::NameMismatch)));
    dispatch(&mut app, Action::Delete);
    app.prompt_editor = LineEditor::new("users");
    let fx = press_key(&mut app, Key::Enter);
    assert!(matches!(
        &fx[0],
        Effect::Disk(DiskWork::DeleteCollection { dir, name }) if dir == "/ws/users" && name == "users"
    ));
}

#[test]
fn hints_of_the_prompts() {
    let app = empty_app();
    assert_eq!(app.prompt_hint(PromptPurpose::DeleteCollectionConfirm), None);
    assert_eq!(
        app.prompt_hint(PromptPurpose::ImportCollection).as_deref(),
        Some("path to a Postman v2.1 JSON file")
    );
    assert_eq!(
        app.prompt_hint(PromptPurpose::ExportWorkspace(JsonDialect::Native)).as_deref(),
        Some("destination path (must stay inside the workspace)")
    );
    assert_eq!(app.prompt_hint(PromptPurpose::PasteCurl).as_deref(), Some("paste a curl command"));
    assert_eq!(app.prompt_hint(PromptPurpose::Rename), None);
}

#[test]
fn moved_endpoint_takes_its_buffer_along() {
    let mut app = app_with_endpoint();
    current(&mut app).editor = ModalEditor::new("draft");
    let reload = reload_of(&app);
    app.relocate_endpoint(
        "/ws/users/get.toml".to_owned(),
        true,
        Ok(Relocated { path: "/ws/admin/get.toml".to_owned(), steps: Ok(2), reload }),
    );
    assert_eq!(message(&app).as_deref(), Some("moved endpoint · 2 step(s) repointed"));
    assert_eq!(app.selected().unwrap().file, "/ws/admin/get.toml");
    assert_eq!(body_of(&mut app), "draft");

    let reload = reload_of(&app);
    app.relocate_endpoint(
        "/ws/admin/get.toml".to_owned(),
        true,
        Ok(Relocated { path: "/ws/admin/get.toml".to_owned(), steps: Ok(0), reload }),
    );
    assert_eq!(message(&app).as_deref(), Some("already in that collection"));
    let reload = reload_of(&app);
    app.relocate_endpoint(
        "/ws/admin/get.toml".to_owned(),
        false,
        Ok(Relocated { path: "/ws/users/get-2.toml".to_owned(), steps: Ok(0), reload }),
    );
    assert_eq!(message(&app).as_deref(), Some("copied endpoint"));
    assert_eq!(app.selected().unwrap().file, "/ws/admin/get.toml", "a copy changes no buffer");
    let reload = reload_of(&app);
    app.relocate_collection(
        "/ws/admin".to_owned(),
        true,
        Ok(Relocated {
            path: "/ws/users/admin".to_owned(),
            steps: Err("a sequence is broken".to_owned()),
            reload,
        }),
    );
    assert_eq!(message(&app).as_deref(), Some("error: a sequence is broken"));
    assert_eq!(app.selected().unwrap().file, "/ws/users/admin/get.toml");
    app.relocate_collection("/ws/admin".to_owned(), true, Err("busy".to_owned()));
    assert_eq!(message(&app).as_deref(), Some("error: busy"));
    assert_eq!(
        app.rewrite_step_refs(&"/ws/users/a.toml".to_owned(), &"/ws/b.toml".to_owned()),
        Some(("users/a.toml".to_owned(), "b.toml".to_owned()))
    );
    assert_eq!(
        app.rewrite_step_refs(&"/elsewhere/a.toml".to_owned(), &"/ws/b.toml".to_owned()),
        None
    );
}

#[test]
fn collection_does_not_move_into_itself() {
    let mut app = workspace_fixture();
    let fx = dispatch(&mut app, Action::MoveTo);
    assert!(matches!(
        &fx[0],
        Effect::Disk(DiskWork::ListCollections { dest: DestPurpose::MoveCollection, moved: Some(p) })
            if p == "/ws/users"
    ));
    let dirs = vec![
        churl::overlays::TreeDir {
            name: "users".to_owned(),
            path: "/ws/users".to_owned(),
            parent: None,
        },
        churl::overlays::TreeDir {
            name: "deep".to_owned(),
            path: "/ws/users/deep".to_owned(),
            parent: Some(0),
        },
        churl::overlays::TreeDir {
            name: "zoo".to_owned(),
            path: "/ws/zoo".to_owned(),
            parent: None,
        },
    ];
    app.destinations_listed(DestPurpose::MoveCollection, Some("/ws/users".to_owned()), dirs);
    match &app.picker.as_ref().unwrap().choices {
        Choices::Destinations { dirs, .. } => {
            assert!(dirs.contains(&"/ws/zoo".to_owned()));
            assert!(!dirs.iter().any(|d| d.starts_with("/ws/users")), "{dirs:?}");
        }
        other => panic!("expected directories, got {other:?}"),
    }
    let zoo = app
        .picker
        .as_ref()
        .unwrap()
        .items
        .iter()
        .position(|i| i.contains("zoo"))
        .unwrap();
    app.picker.as_mut().unwrap().selected = zoo;
    let fx = app.accept_overlay(facts());
    assert!(matches!(
        &fx[0],
        Effect::Disk(DiskWork::RelocateCollection { source, dest, is_move: true, root })
            if source == "/ws/users" && dest == "/ws/zoo" && root == "/ws"
    ));
}

#[test]
fn tree_actions_without_a_workspace_say_so() {
    let mut app = empty_app();
    for (action, text) in [
        (Action::NewEndpoint, "no workspace open"),
        (Action::NewEndpointPick, "open a workspace first"),
        (Action::MoveTo, "nothing selected to move"),
        (Action::Duplicate, "nothing selected to duplicate"),
        (Action::ReorderUp, "nothing selected to reorder"),
        (Action::OpenEnvEditor, "open a workspace first"),
    ] {
        let fx = dispatch(&mut app, action);
        assert!(fx.is_empty(), "{action:?}");
        assert_eq!(message(&app).as_deref(), Some(text), "{action:?}");
    }
}

#[test]
fn duplicate_and_reorder_name_what_is_under_the_cursor() {
    let mut app = workspace_fixture();
    let fx = dispatch(&mut app, Action::Duplicate);
    assert!(matches!(
        &fx[0],
        Effect::Disk(DiskWork::DuplicateCollection { dir, root }) if dir == "/ws/users" && root == "/ws"
    ));
    app.explorer.cursor = 1;
    let fx = dispatch(&mut app, Action::Duplicate);
    assert!(
        matches!(&fx[0], Effect::Disk(DiskWork::DuplicateEndpoint(f)) if f == "/ws/users/get.toml")
    );
    let fx = dispatch(&mut app, Action::ReorderDown);
    assert!(matches!(
        &fx[0],
        Effect::Disk(DiskWork::ReorderEndpoint { dir, file, to: ReorderDir::Down })
            if dir == "/ws/users" && file == "/ws/users/get.toml"
    ));
    let reload = reload_of(&app);
    app.reordered(churl::tree::ReorderOutcome::AlreadyLast, Ok(reload));
    assert_eq!(message(&app).as_deref(), Some("already last"));
}

#[test]
fn exports_are_refused_outside_the_workspace() {
    let mut app = workspace_fixture();
    let purpose = PromptPurpose::ExportWorkspace(JsonDialect::Postman);
    let fx = app.commit_export(purpose, "exports/a.json".to_owned());
    match &fx[0] {
        Effect::Disk(DiskWork::ProbeExport { paths, .. }) => {
            assert_eq!(paths[0], "/ws/exports/a.json");
        }
        other => panic!("expected a probe, got {other:?}"),
    }
    let fx = app.export_probed(purpose, "exports/a.json", &vec![None, None, Some("/ws".to_owned())]);
    assert!(matches!(
        &fx[0],
        Effect::Disk(DiskWork::Export { collection: None, target, .. }) if target == "/ws/exports/a.json"
    ));
    let fx = app.export_probed(purpose, "exports/a.json", &vec![None, Some("/out".to_owned())]);
    assert!(fx.is_empty());
    assert!(matches!(app.message, Some(Notice::ExportRefused { .. })));
    app.exported("/ws/exports/a.json".to_owned(), Ok(()));
    assert_eq!(message(&app).as_deref(), Some("exported to exports/a.json"));
    app.exported("/ws/exports/a.json".to_owned(), Err("denied".to_owned()));
    assert_eq!(message(&app).as_deref(), Some("export failed: denied"));
}

#[test]
fn imports_say_what_came_of_them() {
    let mut app = workspace_fixture();
    assert!(app.commit_import_collection("  ").is_empty());
    assert!(matches!(app.message, Some(Notice::NoPathGiven)));
    let fx = app.commit_import_collection(" a.json ");
    assert!(matches!(
        &fx[0],
        Effect::Disk(DiskWork::ImportCollection { root, path }) if root == "/ws" && path == "a.json"
    ));
    let failed = churl::tree::ImportError::Unreadable {
        path: "a.json".to_owned(),
        err: "gone".to_owned(),
    };
    app.collection_imported(Err(failed));
    assert_eq!(message(&app).as_deref(), Some("import failed: cannot read a.json: gone"));
    app.collection_imported(Err(churl::tree::ImportError::Failed("not JSON".to_owned())));
    assert_eq!(message(&app).as_deref(), Some("import failed: not JSON"));
}

#[test]
fn switch_of_the_check_is_taken_back_when_the_save_fails() {
    let mut app = app_with_endpoint();
    assert!(!app.insecure_active());
    let fx = app.toggle_endpoint_insecure();
    assert!(app.insecure_active());
    let (path, saved) = match fx.into_iter().next() {
        Some(Effect::Disk(DiskWork::SaveInsecure { path, endpoint })) => (path, endpoint),
        other => panic!("expected a save, got {other:?}"),
    };
    assert!(saved.request.insecure);
    app.endpoint_insecure_saved(path, saved, Err("read-only".to_owned()));
    assert!(!app.insecure_active());
    assert!(!app.buffers.is_dirty());
    assert_eq!(message(&app).as_deref(), Some("could not save endpoint: read-only"));

    let fx = app.toggle_endpoint_insecure();
    if let Some(Effect::Disk(DiskWork::SaveInsecure { path, endpoint })) = fx.into_iter().next() {
        app.endpoint_insecure_saved(path, endpoint, Ok(()));
    }
    assert!(app.insecure_active());
    assert!(!app.buffers.is_dirty());
    assert_eq!(
        message(&app).as_deref(),
        Some("⚠ TLS verification OFF for this endpoint — saved")
    );
}

#[test]
fn session_check_needs_a_client() {
    let mut app = empty_app();
    assert!(matches!(dispatch(&mut app, Action::ToggleInsecure)[0], Effect::RebuildForInsecure));
    app.insecure_rebuilt(Err("bad proxy".to_owned()));
    assert!(!app.insecure_active());
    assert_eq!(message(&app).as_deref(), Some("could not toggle TLS — bad proxy"));
    app.insecure_rebuilt(Ok(()));
    assert!(app.insecure_active());
    assert_eq!(
        message(&app).as_deref(),
        Some("⚠ TLS verification OFF — certificates not checked")
    );
    dispatch(&mut app, Action::ToggleDebug);
    assert_eq!(
        message(&app).as_deref(),
        Some("debug capture ON — sends now build an inspectable trace")
    );
}

#[test]
fn inspector_gives_the_mode_back() {
    let mut app = empty_app();
    app.mode = Mode::LoadRunner;
    let fx = app.open_inspector();
    assert!(matches!(fx[0], Effect::OpenComponent(Component::Inspector)));
    assert_eq!(app.mode, Mode::Inspector);
    assert!(matches!(press(&mut app, 'y')[0], Effect::ComponentKey(Component::Inspector, _)));
    let curl = churl::panel::InspectorOutcome::CopyCurl(Some("curl https://x".to_owned()));
    app.inspector_answered(curl);
    assert_eq!(app.pending_copy_message().as_deref(), Some("copied resolved curl (masked)"));
    app.inspector_answered(churl::panel::InspectorOutcome::Close);
    assert_eq!(app.mode, Mode::LoadRunner);
    let copy = app.take_pending_copy().unwrap();
    assert_eq!(copy.payload, "curl https://x");
    app.copy_flushed(copy, false);
    assert_eq!(message(&app).as_deref(), Some("copy failed"));
}

#[test]
fn environments_are_edited_saved_and_applied() {

    let mut app = workspace_fixture();
    assert!(matches!(app.open_env_editor()[0], Effect::OpenComponent(Component::EnvEditor)));
    app.env_editor_opened(Err("broken".to_owned()));
    assert_eq!(message(&app).as_deref(), Some("couldn't open editor: broken"));
    assert_eq!(app.mode, Mode::Normal);
    app.env_editor_opened(Ok(()));
    assert_eq!(app.mode, Mode::EnvEditor);
    assert!(matches!(press(&mut app, 'j')[0], Effect::ComponentKey(Component::EnvEditor, _)));

    let fx = app.env_editor_answered(EnvOutcome::RevealRow(Some("{{base}}".to_owned())));
    match &fx[0] {
        Effect::Reveal { raw, lookup } => {
            assert_eq!(raw, "{{base}}");
            assert_eq!(lookup.lookup(&"base".to_owned()).as_deref(), Some("ws"));
        }
        other => panic!("expected a value to reveal, got {other:?}"),
    }
    app.env_editor_answered(EnvOutcome::CopyValue(Some("v".to_owned())));
    assert_eq!(app.pending_copy_message().as_deref(), Some("copied value"));
    app.env_editor_answered(EnvOutcome::ClearSession);
    assert_eq!(message(&app).as_deref(), Some("no session captures to clear"));

    let fx = app.env_editor_answered(EnvOutcome::SaveAndClose);
    assert!(matches!(
        &fx[0],
        Effect::Disk(DiskWork::SaveEnvironments { root, name, close: true }) if root == "/ws" && name == "demo"
    ));
    app.env_saved(Err("secrets refused".to_owned()), true);
    assert_eq!(app.mode, Mode::EnvEditor, "a refusal keeps the editor open");
    assert_eq!(message(&app).as_deref(), Some("secrets refused"));
    let mut ws = workspace("/ws", "demo");
    ws.vars = vars(&[("base", "new")]);
    let reload = reload_of(&app);
    let saved = EnvSaved { active_profile: Some("qa".to_owned()), workspace: ws, reload };
    app.env_saved(Ok(saved), true);
    assert_eq!(app.mode, Mode::Normal);
    assert!(!app.env_editor);
    assert_eq!(app.active_profile.as_deref(), Some("qa"));
    assert_eq!(app.build_resolver(0).lookup(&"base".to_owned()).as_deref(), Some("new"));
    assert_eq!(message(&app).as_deref(), Some("saved · vars applied"));
}

#[test]
fn search_of_a_response_is_shown_in_the_message_row() {
    let mut app = empty_app();
    open_bare_endpoint(&mut app);
    assert_eq!(app.message_line(), None);
    dispatch(&mut app, Action::OpenBodySearch);
    assert_eq!(message(&app).as_deref(), Some("no response to search"));
    *app.response_mut() = ResponseState::Done { view: view("{\"a\":1}") };
    app.panes.focus = Pane::Response;
    dispatch(&mut app, Action::OpenBodySearch);
    assert_eq!(app.mode, Mode::BodySearch);
    assert_eq!(app.message_line().as_deref(), Some("/"));
    let fx = press(&mut app, 'a');
    assert!(matches!(
        &fx[0],
        Effect::SearchResponse { surface: Surface::Main, query } if query == "a"
    ));
    assert_eq!(app.message_line().as_deref(), Some("/a    no matches"));
    if let ResponseState::Done { view } = app.response_mut() {
        view.search = Some(BodySearch { query: "a".to_owned(), matches: 3, current: Some(0) });
    }
    assert_eq!(app.message_line().as_deref(), Some("/a    3 matches"));
    press_key(&mut app, Key::Enter);
    assert_eq!(app.mode, Mode::Normal);
}

#[test]
fn half_pages_move_only_the_response() {
    let mut app = empty_app();
    open_bare_endpoint(&mut app);
    *app.response_mut() = ResponseState::Done { view: view("{}") };
    let g = churl::response::Geometry {
        scroll: 0,
        cursor: 0,
        total_rows: 100,
        viewport_height: 20,
        viewport_width: 80,
    };
    app.drew_response(g);
    dispatch(&mut app, Action::HalfPageDown);
    assert_eq!(current(&mut app).geometry.cursor, 0);
    app.panes.focus = Pane::Response;
    dispatch(&mut app, Action::HalfPageDown);
    assert_eq!(current(&mut app).geometry.cursor, 10);
    dispatch(&mut app, Action::Down);
    assert_eq!(current(&mut app).geometry.cursor, 11);
    dispatch(&mut app, Action::Bottom);
    assert_eq!(current(&mut app).geometry.cursor, 99);
}

#[test]
fn highlighting_is_asked_for_once() {
    let mut app = empty_app();
    assert!(app.wants_highlight(7));
    open_bare_endpoint(&mut app);
    assert!(app.wants_highlight(7));
    app.highlight_sent(7);
    assert!(!app.wants_highlight(7));
    assert!(app.wants_highlight(8));
    app.handle_msg(AppMsg::Highlighted { hash: 7, lines: Vec::new() });
    assert!(app.wants_highlight(7));
    assert!(current(&mut app).highlight_cache.contains_key(&7));
}

#[test]
fn body_of_parts_is_not_in_the_editor() {

    let mut app = empty_app();
    open_bare_endpoint(&mut app);
    app.panes.focus = Pane::Request;
    current(&mut app).tabs.active = RequestTab::Body;
    assert!(app.body_text_active());
    current(&mut app).endpoint.endpoint.request.body = Some(Body::Multipart(vec![
        Part { name: "a".to_owned(), value: PartValue::Text("1".to_owned()), enabled: true },
        Part { name: "b".to_owned(), value: PartValue::Text("2".to_owned()), enabled: true },
    ]));
    assert!(app.body_is_multipart());
    assert!(!app.body_text_active());
    press(&mut app, 'i');
    assert_eq!(current(&mut app).editor.mode(), EditorMode::Normal, "the editor gets no key");
    assert_eq!(app.motion_offered(KeyEvent::char('f')), None);
}

#[test]
fn rows_are_added_toggled_and_deleted() {
    let mut app = empty_app();
    open_bare_endpoint(&mut app);
    app.panes.focus = Pane::Request;
    current(&mut app).tabs.active = RequestTab::Headers;
    press(&mut app, 'a');
    assert!(current(&mut app).tabs.editing.is_some());
    for c in "X-A".chars() {
        press(&mut app, c);
    }
    press_key(&mut app, Key::Enter);
    press(&mut app, '1');
    press_key(&mut app, Key::Enter);
    {
        let headers = &current(&mut app).endpoint.endpoint.request.headers;
        assert_eq!(headers.len(), 1);
        assert_eq!(headers[0].name, "X-A");
        assert_eq!(headers[0].value, "1");
        assert!(headers[0].enabled);
    }
    dispatch(&mut app, Action::RowToggle);
    assert!(!current(&mut app).endpoint.endpoint.request.headers[0].enabled);
    dispatch(&mut app, Action::RowDelete);
    assert!(current(&mut app).endpoint.endpoint.request.headers.is_empty());
}

#[test]
fn ticks_expire_a_message() {
    let mut app = empty_app();
    app.notify(Notice::NoMatches);
    app.tick(false);
    assert!(app.message.is_some());
    app.tick(true);
    assert!(app.message.is_none());
    assert_eq!(app.tick_count, 2);
}

#[test]
fn accessors_reach_the_open_buffer() {
    let mut app = empty_app();
    assert!(app.selected_mut().is_none());
    app.set_response(ResponseState::Cancelled);
    assert!(matches!(app.orphan_response, ResponseState::Cancelled));
    open_bare_endpoint(&mut app);
    app.selected_mut().unwrap().endpoint.name = "renamed".to_owned();
    assert_eq!(app.selected().unwrap().endpoint.name, "renamed");
    assert!(matches!(app.response(), ResponseState::Idle));
    app.set_response(ResponseState::Done { view: view("x") });
    assert!(matches!(app.response(), ResponseState::Done { .. }));
}

#[test]
fn questions_and_their_answers() {
    assert_eq!(
        confirm_text(ConfirmPurpose::DiscardChanges),
        ("Unsaved changes", "Save changes before switching?", "s save · d discard · esc stay")
    );
    let mut app = workspace_fixture();
    app.explorer.cursor = 1;
    dispatch(&mut app, Action::Delete);
    assert_eq!(app.mode, Mode::Confirm(ConfirmPurpose::DeleteEndpoint));
    assert!(press(&mut app, 'x').is_empty());
    assert_eq!(app.mode, Mode::Confirm(ConfirmPurpose::DeleteEndpoint));
    let fx = press(&mut app, 'y');
    assert_eq!(app.mode, Mode::Normal);
    assert!(
        matches!(&fx[0], Effect::Disk(DiskWork::DeleteEndpoint(p)) if p == "/ws/users/get.toml")
    );
    app.begin_delete_sequence();
    assert_eq!(app.mode, Mode::Normal, "there is no sequence to ask about");
    app.explorer.sequences = vec![SequenceItem {
        name: "Login".to_owned(),
        file: "/ws/sequences/login.toml".to_owned(),
        sequence: sequence("Login", OnError::Halt, &[]),
    }];
    app.begin_delete_sequence();
    assert_eq!(app.mode, Mode::Confirm(ConfirmPurpose::DeleteSequence));
    let fx = press(&mut app, 'y');
    assert!(matches!(
        &fx[0],
        Effect::Disk(DiskWork::DeleteSequence(p)) if p == "/ws/sequences/login.toml"
    ));
}

#[test]
fn file_of_a_part_is_picked() {
    let mut app = empty_app();
    app.open_file_picker(0);
    assert_eq!(
        message(&app).as_deref(),
        Some("no workspace open — cannot browse for a file")
    );
    let mut app = app_with_endpoint();
    current(&mut app).endpoint.endpoint.request.body = Some(Body::Multipart(vec![Part {
        name: "f".to_owned(),
        value: PartValue::File { path: "data/a.bin".to_owned(), filename: None, mime: None },
        enabled: true,
    }]));
    assert!(app.body_part_is_file(1));
    assert!(!app.body_part_is_file(0));
    let fx = app.open_file_picker(0);
    match &fx[0] {
        Effect::OpenFilePicker { root, start_dir, part } => {
            assert_eq!(root, "/ws");
            assert_eq!(start_dir, "/ws/data");
            assert_eq!(*part, 0);
        }
        other => panic!("expected the file picker, got {other:?}"),
    }
    assert_eq!(app.mode, Mode::FilePicker);
    assert!(matches!(press(&mut app, 'j')[0], Effect::FilePicker(FilePickerOp::Down)));
    assert!(matches!(press(&mut app, 'h')[0], Effect::FilePicker(FilePickerOp::Parent)));
    assert!(matches!(press_key(&mut app, Key::Enter)[0], Effect::FilePicker(FilePickerOp::Accept)));
    app.accept_file_picker_entry("data/b.bin".to_owned());
    assert_eq!(app.mode, Mode::Normal);
    match &current(&mut app).endpoint.endpoint.request.body {
        Some(Body::Multipart(parts)) => {
            assert!(matches!(&parts[0].value, PartValue::File { path, .. } if path == "data/b.bin"));
        }
        other => panic!("expected parts, got {other:?}"),
    }
}

#[test]
fn browsing_keys_of_a_body() {
    assert_eq!(browse_key(KeyEvent::char('i')), Some(BrowseKey::EditInsert));
    assert_eq!(browse_key(key(Key::Enter)), Some(BrowseKey::EditNormal));
    assert_eq!(browse_key(KeyEvent::char('o')), Some(BrowseKey::View(Action::ToggleFold)));
    assert_eq!(browse_key(key(Key::Left)), Some(BrowseKey::View(Action::ScrollBodyLeft)));
    assert_eq!(browse_key(KeyEvent::char('b')), None);
    let modifiers = KeyModifiers { control: true, alt: false, shift: false };
    assert_eq!(browse_key(KeyEvent::new(Key::Char('y'), modifiers)), None);
}

#[test]
fn body_is_browsed_without_changing_the_request() {
    let mut app = empty_app();
    open_bare_endpoint(&mut app);
    current(&mut app).editor = ModalEditor::new("the text");
    let text = || Some(ResponseView { raw: Vec::new(), ..view("the text") });

    let (taken, fx) = app.body_browse_handle_key(KeyEvent::char('b'), None, text());
    assert!(!taken, "a key that is no browsing key goes on to the keymap");
    assert!(fx.is_empty());
    assert!(matches!(current(&mut app).browsed, ResponseState::Done { .. }));
    assert!(matches!(current(&mut app).response, ResponseState::Idle));

    let (taken, fx) = app.body_browse_handle_key(KeyEvent::char('W'), None, None);
    assert!(taken && fx.is_empty());
    match &current(&mut app).browsed {
        ResponseState::Done { view } => assert!(view.wrap),
        other => panic!("expected a text, got {other:?}"),
    }

    let (taken, fx) = app.body_browse_handle_key(KeyEvent::char('y'), None, None);
    assert!(taken);
    assert!(matches!(&fx[..], [Effect::CopyText { text, .. }] if text == "the text"));

    let (taken, fx) = app.body_browse_handle_key(KeyEvent::char('S'), None, None);
    assert!(taken);
    assert!(matches!(&fx[..], [Effect::NameBody { shown: Surface::Body, .. }]));
    assert!(app.begin_save_response_body(Surface::Body, None).is_empty());
    assert!(matches!(app.message, Some(Notice::EmptyBody)), "there is no response to save");

    let (taken, _) = app.body_browse_handle_key(KeyEvent::char('/'), None, None);
    assert!(taken);
    assert_eq!(app.mode, Mode::BodySearch);
    let fx = app.handle_body_search_key(KeyEvent::char('x'));
    assert!(matches!(&fx[..], [Effect::SearchResponse { surface: Surface::Body, .. }]));
    app.handle_body_search_key(key(Key::Esc));
    assert_eq!(app.mode, Mode::Normal);
    assert!(!app.body_searched);
    assert_eq!(body_of(&mut app), "the text");

    assert_eq!(current(&mut app).editor.mode(), EditorMode::Normal);
    let (taken, _) = app.body_browse_handle_key(KeyEvent::char('i'), None, None);
    assert!(taken);
    assert_eq!(current(&mut app).editor.mode(), EditorMode::Insert);
    app.body_browse_handle_key(key(Key::Enter), None, None);
    assert_eq!(current(&mut app).editor.mode(), EditorMode::Normal);
}

#[test]
fn typed_keys_get_into_the_body() {
    let mut app = empty_app();
    open_bare_endpoint(&mut app);
    current(&mut app).editor = ModalEditor::new("ab");
    app.body_editor_on_key(KeyEvent::char('i'));
    assert_eq!(current(&mut app).editor.mode(), EditorMode::Insert);
    app.body_editor_on_key(KeyEvent::char('x'));
    assert_eq!(body_of(&mut app), "xab");
    app.body_editor_on_key(key(Key::Enter));
    assert_eq!(body_of(&mut app), "x\nab");
    app.body_editor_on_key(key(Key::Backspace));
    app.body_editor_on_key(key(Key::Backspace));
    assert_eq!(body_of(&mut app), "ab");
    app.body_editor_on_key(key(Key::Tab));
    assert_eq!(body_of(&mut app), "\tab");
    app.body_editor_on_key(key(Key::Esc));
    assert_eq!(current(&mut app).editor.mode(), EditorMode::Normal);
    assert_eq!(body_of(&mut app), "\tab");
}

#[test]
fn body_type_is_switched_and_keeps_its_text() {
    let mut app = empty_app();
    open_bare_endpoint(&mut app);
    current(&mut app).editor = ModalEditor::new("text");
    dispatch(&mut app, Action::BodyType);
    assert_eq!(app.mode, Mode::Palette);
    app.picker.as_mut().unwrap().selected = 1;
    app.accept_overlay(facts());
    match &current(&mut app).endpoint.endpoint.request.body {
        Some(Body::Simple { kind: BodyKind::Json, content }) => assert_eq!(content, "text"),
        other => panic!("expected JSON, got {other:?}"),
    }
    assert_eq!(body_of(&mut app), "text");
}

#[test]
fn palette_runs_the_action_that_is_picked() {
    let mut app = empty_app();
    let offered = Facts { palette: vec![Action::Help, Action::Quit], ..facts() };
    app.dispatch(Action::OpenPalette, None, offered);
    assert_eq!(app.picker.as_ref().unwrap().items.len(), 2);
    press_key(&mut app, Key::Down);
    press_key(&mut app, Key::Enter);
    assert!(app.should_quit);
    assert!(app.picker.is_none());
}

#[test]
fn overlays_are_drawn_the_topmost_last() {
    let mut app = app_with_endpoint();
    assert!(app.overlays().is_empty());
    dispatch(&mut app, Action::MethodMenu);
    assert_eq!(app.overlays(), vec![Overlay::MethodMenu(Method::Get)]);
    app.begin_url_popup();
    app.leader = Some(LeaderState::Root);
    dispatch(&mut app, Action::Help);
    assert_eq!(
        app.overlays(),
        vec![
            Overlay::MethodMenu(Method::Get),
            Overlay::UrlPopup,
            Overlay::Leader(LeaderState::Root),
            Overlay::Help,
        ]
    );
    app.panes.zoom = Some(ZoomPane::Request);
    assert_eq!(app.pane_drawn(Pane::Response), Drawn::Stub);
    assert_eq!(app.pane_drawn(Pane::Request), Drawn::Full);
    app.panes.sequences_shown = true;
    assert_eq!(app.tree_drawn(), Drawn::Full);
    assert_eq!(app.sequences_drawn(), Drawn::Stub);
    app.panes.explorer_hidden = true;
    assert_eq!(app.tree_drawn(), Drawn::Hidden);
    assert_eq!(app.sequences_drawn(), Drawn::Hidden);
    let status = app.status();
    assert_eq!(status.focus, app.panes.focus.name());
    assert_eq!(status.workspace.as_deref(), Some("demo"));
    assert!(!status.dirty && !status.in_flight && !status.insecure);
}

#[test]
fn panel_answers_change_the_session() {
    let mut app = empty_app();
    app.open_settings();
    assert_eq!(app.mode, Mode::Settings);
    assert!(matches!(press(&mut app, 'j')[0], Effect::ComponentKey(Component::Settings, _)));
    let fx = app.settings_answered(SettingsEvent::ApplyTheme {
        name: "light".to_owned(),
        resolved: Ok(()),
    });
    assert!(matches!(fx[0], Effect::RespawnHighlighter));
    assert!(matches!(fx[1], Effect::RefreshComponent(Component::Settings)));
    assert_eq!(message(&app).as_deref(), Some("theme set to light"));
    assert!(app.settings_answered(SettingsEvent::Close).is_empty());
    assert_eq!(app.mode, Mode::Normal);
    app.open_options();
    let fx = app.options_answered(OptionsEvent::ClearCookies);
    assert!(matches!(fx[0], Effect::PersistCookies));
    assert!(matches!(fx[1], Effect::RefreshComponent(Component::Options)));
    app.options_answered(OptionsEvent::Close);
    assert_eq!(app.mode, Mode::Normal);
}

#[test]
fn copies_are_paced_by_their_number() {
    assert_eq!(launch_delay(100, 3, 0), 300);
    assert_eq!(launch_delay(100, 3, 250), 50);
    assert_eq!(launch_delay(100, 3, 900), 0);
    assert_eq!(launch_delay(0, 3, 0), 0);
}

#[test]
fn messages_say_how_much_was_copied_and_saved() {
    let mut app = empty_app();
    app.copy_to_clipboard_view("abc".to_owned(), true, "1 KB".to_owned(), "9 KB".to_owned(), false);
    assert_eq!(app.pending_copy_message().as_deref(), Some("copied first 1 KB of 9 KB"));
    app.copy_to_clipboard_view("abc".to_owned(), false, "1 KB".to_owned(), "1 KB".to_owned(), true);
    assert_eq!(app.pending_copy_message().as_deref(), Some("copied 1 KB (truncated)"));
    app.body_saved(Ok((12, "/tmp/a.json".to_owned())), false);
    assert_eq!(message(&app).as_deref(), Some("saved 12 bytes to /tmp/a.json"));
    app.body_saved(Err("denied".to_owned()), false);
    assert_eq!(message(&app).as_deref(), Some("save failed: denied"));
}

fn every_key() -> Vec<KeyEvent> {
    let mut keys: Vec<KeyEvent> = (' '..='~').map(KeyEvent::char).collect();
    for c in 'a'..='z' {
        let modifiers = KeyModifiers { control: true, alt: false, shift: false };
        keys.push(KeyEvent::new(Key::Char(c), modifiers));
    }
    for code in [
        Key::Enter,
        Key::Esc,
        Key::Tab,
        Key::BackTab,
        Key::Backspace,
        Key::Delete,
        Key::Up,
        Key::Down,
        Key::Left,
        Key::Right,
        Key::Home,
        Key::End,
        Key::PageUp,
        Key::PageDown,
        Key::Function(1),
        Key::Other,
    ] {
        keys.push(key(code));
    }
    keys
}

/// The demo workspace with an endpoint that has unsaved changes, and one without.
fn busy_app() -> App {
    let mut app = app_with_endpoint();
    app.open_or_focus_buffer(selected_with("/ws/users/clean.toml", Some("clean")));
    app.focus_buffer_index(1);
    current(&mut app).editor = ModalEditor::new("unsaved");
    app
}

fn is_open(app: &App, file: &str) -> bool {
    app.buffers.list.iter().any(|b| b.endpoint.file == file)
}

#[test]
fn no_key_closes_an_endpoint_with_unsaved_changes() {
    let modes = [
        Mode::Normal,
        Mode::Search,
        Mode::Jump,
        Mode::MethodMenu,
        Mode::BodySearch,
        Mode::Prompt(PromptPurpose::Rename),
        Mode::Confirm(ConfirmPurpose::DeleteEndpoint),
        Mode::EnvEditor,
        Mode::Sequence,
        Mode::LoadRunner,
        Mode::FilePicker,
    ];
    for mode in modes {
        for focus in [Pane::Explorer, Pane::UrlBar, Pane::Request, Pane::Response] {
            for first in every_key() {
                let mut app = busy_app();
                app.mode = mode;
                app.panes.focus = focus;
                app.handle_key(first, facts());
                assert!(is_open(&app, "/ws/users/get.toml"), "{mode:?} {focus:?} {first:?}");
                let hidden = app.panes.explorer_hidden && app.panes.focus == Pane::Explorer;
                assert!(!hidden, "{mode:?} {focus:?} {first:?}");
            }
        }
    }
}

#[test]
fn chords_close_no_endpoint_with_unsaved_changes() {
    for first in every_key() {
        for second in every_key() {
            let mut app = busy_app();
            app.leader = Some(LeaderState::Root);
            app.handle_key(first, facts());
            if app.mode == Mode::Normal {
                app.handle_key(second, facts());
            }
            assert!(is_open(&app, "/ws/users/get.toml"), "{first:?} {second:?}");
        }
    }
}

#[test]
fn messages_leave_the_mode_and_the_focus() {
    let mut app = busy_app();
    app.mode = Mode::Prompt(PromptPurpose::Rename);
    app.panes.focus = Pane::UrlBar;
    app.buffers.list[1].in_flight = Some(InFlight { generation: 3, meta: meta() });
    for msg in [
        AppMsg::Redraw,
        AppMsg::Response { generation: 3, outcome: Ok(landed()), meta: meta() },
        AppMsg::LoadStarted { run_generation: 0, index: 0, now_ms: 1 },
    ] {
        app.handle_msg(msg);
        assert_eq!(app.mode, Mode::Prompt(PromptPurpose::Rename));
        assert_eq!(app.panes.focus, Pane::UrlBar);
        assert_eq!(app.buffers.list.len(), 2);
    }
    assert!(matches!(app.buffers.list[1].response, ResponseState::Done { .. }));
}

#[test]
fn options_open_without_the_note_of_another_panel() {
    let mut app = empty_app();
    app.open_options();
    app.options_answered(OptionsEvent::ToggleInsecure { rebuilt: Err("bad proxy".to_owned()) });
    assert!(app.settings.note.is_some(), "a refused option is noted");
    app.options_answered(OptionsEvent::Close);
    let fx = dispatch(&mut app, Action::OpenOptions);
    assert!(matches!(fx[0], Effect::OpenComponent(Component::Options)));
    assert_eq!(app.mode, Mode::Options);
    assert!(app.settings.note.is_none());
}

#[test]
fn pick_of_an_endpoint_shows_the_hidden_column() {
    let mut app = empty_app();
    app.panes.focus = Pane::Request;
    app.panes.explorer_hidden = true;
    let file = "/ws/users/get.toml".to_owned();
    app.search_listed(vec!["Get user".to_owned()], vec![file.clone()], Explorer::empty());
    assert_eq!(app.mode, Mode::Search);
    let fx = press_key(&mut app, Key::Enter);
    assert!(matches!(&fx[..], [Effect::Tree(TreeWork::OpenFile(f))] if *f == file));
    assert_eq!(app.panes.focus, Pane::Explorer);
    assert!(!app.panes.explorer_hidden, "a hidden column cannot hold the focus");
    dispatch(&mut app, Action::ToggleExplorer);
    assert_eq!(app.panes.focus, Pane::Request, "the pane held before is restored");
}

#[test]
fn popup_goes_on_with_its_key_handler() {
    let mut app = empty_app();
    open_bare_endpoint(&mut app);
    app.begin_url_popup();
    press(&mut app, 'd');
    press_key(&mut app, Key::Esc);
    assert!(current(&mut app).url_popup.is_none());
    app.begin_url_popup();
    press(&mut app, 'd');
    let popup = current(&mut app).url_popup.as_ref().unwrap();
    assert_eq!(popup.text(), "", "the key that waited is completed");
    assert_eq!(popup.mode(), EditorMode::Normal);
}
