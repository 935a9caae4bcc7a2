#![allow(dead_code, unused_imports)]

use churl::app::{
    App, Component, DiskWork, Effect, HistoryOpen, PendingClose, PendingLoad, ReorderDir,
    ResolveFor, Resume, Runtime, SaveError, Surface, TreeWork,
};
use churl::buffer::{BufferPlace, EndpointBuffer, InFlight, SelectedEndpoint};
use churl::editor::{EditorMode, ModalEditor};
use churl::explorer::{Explorer, Row, RowKind, SequenceItem};
use churl::keymap::{Action, KeyMap, Layer};
use churl::keys::{Key, KeyEvent, KeyModifiers};
use churl::line_editor::LineEditor;
use churl::load::{Latency, LoadCheck, LoadConfig, LoadLanded, LoadStatus};
use churl::loading::LoadOutcome;
use churl::meta::ResponseMeta;
use churl::mode::{
    ConfirmPurpose, JsonDialect, LeaderMenu, LeaderState, Mode, PromptPurpose, SeqView,
    UrlEditMode,
};
use churl::model::{Body, BodyKind, Endpoint, Method, Request};
use churl::notice::Notice;
use churl::pane::{LeftPane, Pane, ZoomPane};
use churl::picker::{Choices, DestPurpose};
use churl::request_pane::RequestTab;
use churl::response::{BodySearch, ResponseState, ResponseView, Syntax, ViewMode};
use churl::routing::{Facts, MotionIn};
use churl::sending::{AppMsg, Landed};
use churl::sequence::{
    OnError, Prepared, Sequence, Step, StepLanded, StepResult, StepStatus,
};
use churl::settings::{
    AdvancedLimits, LoadCaps, RedirectPolicy, SecretPolicy, Settings, Values,
};
use churl::surfaces::{EditorOutcome, RunnerOutcome};
use churl::switching::Reload;
use churl::tree::Relocated;
use churl::vars::Vars;
use churl::workspace::{Profile, Workspace};

fn values() -> Values {
    Values {
        theme: "dark".to_owned(),
        leader_key: "space".to_owned(),
        url_edit: UrlEditMode::Inline,
        secret_policy: SecretPolicy::Warn,
        redirect: RedirectPolicy::Strip,
        proxy: None,
        insecure: false,
        cookies: false,
        debug: false,
        load_caps: LoadCaps {
            warn_total: 100,
            warn_concurrency: 20,
            max_total: 10_000,
            max_concurrency: 200,
        },
        advanced: AdvancedLimits {
            concurrency: 4,
            total: 10,
            body_cap_bytes: 1_000_000,
            timeout_secs: 30,
        },
    }
}

fn app_with(workspace: Option<Workspace>, explorer: Explorer) -> App {
    App::new(workspace, explorer, KeyMap::default(), Settings::new(values()))
}

fn empty_app() -> App {
    app_with(None, Explorer::empty())
}

fn facts() -> Facts {
    Facts {
        motion: false,
        line: None,
        on_response: false,
        checked: Err("not in the editor".to_owned()),
        palette: Vec::new(),
        menu_method: None,
    }
}

fn with_motion() -> Facts {
    Facts { motion: true, ..facts() }
}

fn key(code: Key) -> KeyEvent {
    KeyEvent::new(code, KeyModifiers::none())
}

fn press(app: &mut App, c: char) -> Vec<Effect> {
    app.handle_key(KeyEvent::char(c), facts())
}

fn press_key(app: &mut App, code: Key) -> Vec<Effect> {
    app.handle_key(key(code), facts())
}

fn press_ctrl(app: &mut App, c: char) -> Vec<Effect> {
    let modifiers = KeyModifiers { control: true, alt: false, shift: false };
    app.handle_key(KeyEvent::new(Key::Char(c), modifiers), facts())
}

fn dispatch(app: &mut App, action: Action) -> Vec<Effect> {
    app.dispatch(action, None, facts())
}

fn message(app: &App) -> Option<String> {
    app.message_text()
}

fn request(url: &str) -> Request {
    Request {
        method: Method::Get,
        url: url.to_owned(),
        headers: Vec::new(),
        params: Vec::new(),
        body: None,
        auth: None,
        insecure: false,
    }
}

fn endpoint(name: &str, url: &str) -> Endpoint {
    Endpoint { seq: 0, name: name.to_owned(), request: request(url) }
}

fn selected_with(file: &str, body: Option<&str>) -> SelectedEndpoint {
    let mut e = endpoint("ep", "https://api.test/x");
    e.request.body = body.map(|c| Body::Simple { kind: BodyKind::Text, content: c.to_owned() });
    SelectedEndpoint {
        display_path: format!("coll/{file}"),
        file: file.to_owned(),
        collection: 0,
        endpoint: e,
    }
}

fn vars(pairs: &[(&str, &str)]) -> Vars {
    let mut v = Vars::new();
    for (name, value) in pairs {
        v.insert((*name).to_owned(), (*value).to_owned());
    }
    v
}

fn workspace(root: &str, name: &str) -> Workspace {
    Workspace {
        root: root.to_owned(),
        key: root.to_owned(),
        name: name.to_owned(),
        vars: Vars::new(),
        profiles: Vec::new(),
    }
}

fn collection_row(root: &str, name: &str, index: usize) -> Row {
    Row {
        kind: RowKind::Collection,
        name: name.to_owned(),
        path: format!("{root}/{name}"),
        display_path: name.to_owned(),
        collection_dir: format!("{root}/{name}"),
        collection: index,
        endpoint: None,
    }
}

fn endpoint_row(root: &str, coll: &str, index: usize, file: &str, e: Endpoint) -> Row {
    Row {
        kind: RowKind::Endpoint,
        name: e.name.clone(),
        path: format!("{root}/{coll}/{file}"),
        display_path: format!("{coll}/{file}"),
        collection_dir: format!("{root}/{coll}"),
        collection: index,
        endpoint: Some(e),
    }
}

fn explorer(rows: Vec<Row>) -> Explorer {
    let mut e = Explorer::empty();
    let count = rows.iter().map(|r| r.collection + 1).max().unwrap_or(0);
    for _ in 0..count {
        e.collection_vars.push(Vars::new());
    }
    e.endpoint_files = rows
        .iter()
        .filter(|r| r.endpoint.is_some())
        .map(|r| r.path.clone())
        .collect();
    e.rows = rows;
    e
}

fn sequence(name: &str, on_error: OnError, endpoints: &[&str]) -> Sequence {
    let steps = endpoints
        .iter()
        .enumerate()
        .map(|(i, e)| Step {
            seq: i as u32,
            endpoint: (*e).to_owned(),
            extract: Vec::new(),
            persist: Vec::new(),
        })
        .collect();
    Sequence { name: name.to_owned(), on_error, steps }
}

fn view(text: &str) -> ResponseView {
    ResponseView {
        generation: 0,
        mode: ViewMode::Body,
        syntax: Syntax::Json,
        pretty: false,
        sort_keys: false,
        wrap: false,
        line_numbers: false,
        h_offset: 0,
        search: None,
        truncated: false,
        body_truncated: false,
        text: text.to_owned(),
        raw: text.as_bytes().to_vec(),
        extension: "json".to_owned(),
    }
}

fn meta() -> ResponseMeta {
    ResponseMeta {
        method: "GET".to_owned(),
        url: "https://api.test/x".to_owned(),
        endpoint_path: Some("users/get.toml".to_owned()),
        executed_at_ms: 1,
    }
}

fn landed() -> Landed {
    Landed { status: 200, total_ms: 3, view: view("{}") }
}

/// The demo workspace: one collection with an endpoint, unfolded, and two profiles.
fn workspace_fixture() -> App {
    let mut ws = workspace("/ws", "demo");
    ws.vars = vars(&[("base", "ws")]);
    ws.profiles = vec![
        Profile { name: "dev".to_owned(), vars: vars(&[("host", "dev.test")]) },
        Profile { name: "prod".to_owned(), vars: vars(&[("host", "prod.test")]) },
    ];
    let rows = vec![
        collection_row("/ws", "users", 0),
        endpoint_row("/ws", "users", 0, "get.toml", endpoint("Get user", "https://{{host}}/users")),
    ];
    app_with(Some(ws), explorer(rows))
}

fn app_with_endpoint() -> App {
    let mut app = workspace_fixture();
    let fx = app.guarded_load(PendingLoad::Row(1));
    assert!(fx.is_empty());
    app
}

fn other_workspace() -> (Workspace, Explorer) {
    let mut create = endpoint("Create order", "https://x/orders");
    create.request.method = Method::Post;
    let rows = vec![
        collection_row("/other", "orders", 0),
        endpoint_row("/other", "orders", 0, "create.toml", create),
    ];
    (workspace("/other", "other"), explorer(rows))
}

fn open_bare_endpoint(app: &mut App) {
    app.open_or_focus_buffer(SelectedEndpoint {
        display_path: "test".to_owned(),
        file: "/tmp/test.toml".to_owned(),
        collection: 0,
        endpoint: endpoint("test", "https://api.test/x"),
    });
}

fn current(app: &mut App) -> &mut EndpointBuffer {
    let i = app.buffers.active;
    &mut app.buffers.list[i]
}

fn set_active_in_flight(app: &mut App, generation: u64) {
    current(app).in_flight = Some(InFlight { generation, meta: meta() });
}

fn active_in_flight_is_some(app: &App) -> bool {
    app.in_flight()
}

fn body_of(app: &mut App) -> String {
    current(app).editor.text()
}

fn insert_mode_app(keymap: KeyMap) -> App {
    let mut app = App::new(None, Explorer::empty(), keymap, Settings::new(values()));
    open_bare_endpoint(&mut app);
    app.panes.focus = Pane::Request;
    current(&mut app).tabs.active = RequestTab::Body;
    current(&mut app).editor.set_mode(EditorMode::Insert);
    app
}

/// Makes each step ready that the run asks for.
fn settle(app: &mut App, fx: Vec<Effect>) -> Vec<Effect> {
    let mut rest = Vec::new();
    let mut todo = fx;
    while let Some(e) = todo.pop() {
        match e {
            Effect::PrepareStep { index, step, .. } => {
                let prepared = Prepared {
                    method: Method::Get,
                    url: format!("https://api.test/{}", step.endpoint),
                };
                todo.extend(app.step_prepared(index, Ok(prepared), 7));
            }
            e => rest.push(e),
        }
    }
    rest
}

fn run_step(app: &mut App, generation: u64, index: usize, outcome: Result<StepLanded, String>) {
    let fx = app.on_sequence_step(generation, index, outcome);
    settle(app, fx);
}

fn step_landed(status: u16, body: &str) -> StepLanded {
    let result = if status < 400 {
        StepResult::Passed { status }
    } else {
        StepResult::Failed { status }
    };
    StepLanded { result, extracted: Vars::new(), total_ms: 5, view: view(body) }
}

/// Three endpoints that run in order; the runner is open.
fn sequence_app(on_error: OnError) -> App {
    let rows = vec![
        collection_row("/ws", "api", 0),
        endpoint_row("/ws", "api", 0, "one.toml", endpoint("one", "https://api.test/one")),
        endpoint_row("/ws", "api", 0, "two.toml", endpoint("two", "https://api.test/two")),
        endpoint_row("/ws", "api", 0, "three.toml", endpoint("three", "https://api.test/three")),
    ];
    let mut app = app_with(Some(workspace("/ws", "demo")), explorer(rows));
    let flow = sequence("Flow", on_error, &["api/one.toml", "api/two.toml", "api/three.toml"]);
    let fx = app.open_sequence_runner(
        "Flow".to_owned(),
        "/ws/sequences/flow.toml".to_owned(),
        flow,
    );
    settle(&mut app, fx);
    app
}

fn runner_gen(app: &App) -> u64 {
    app.sequence.runner.as_ref().unwrap().run_generation
}

fn step_status(app: &App, i: usize) -> &StepStatus {
    &app.sequence.runner.as_ref().unwrap().steps[i].status
}

#[test]
fn sequence_runner_opens_with_first_step_running() {
    let app = sequence_app(OnError::Halt);
    assert_eq!(app.mode, Mode::Sequence);
    assert_eq!(app.sequence.view, SeqView::Run);
    let runner = app.sequence.runner.as_ref().unwrap();
    assert_eq!(runner.steps.len(), 3);
    assert_eq!(runner.current, Some(0));
    assert!(matches!(step_status(&app, 0), StepStatus::Running));
    assert!(matches!(step_status(&app, 1), StepStatus::Pending));
}

#[test]
fn sequence_run_halts_on_failure() {
    let mut app = sequence_app(OnError::Halt);
    let run_gen = runner_gen(&app);
    run_step(&mut app, run_gen, 0, Ok(step_landed(200, "{}")));
    assert!(matches!(step_status(&app, 0), StepStatus::Passed(200)));
    assert!(matches!(step_status(&app, 1), StepStatus::Running));
    run_step(&mut app, run_gen, 1, Ok(step_landed(500, "err")));
    assert!(matches!(step_status(&app, 1), StepStatus::Failed(500)));
    assert!(matches!(step_status(&app, 2), StepStatus::Skipped));
    assert!(app.sequence.runner.as_ref().unwrap().finished);
}

#[test]
fn sequence_run_continue_runs_all() {
    let mut app = sequence_app(OnError::Continue);
    let run_gen = runner_gen(&app);
    run_step(&mut app, run_gen, 0, Ok(step_landed(500, "err")));
    assert!(matches!(step_status(&app, 0), StepStatus::Failed(500)));
    assert!(matches!(step_status(&app, 1), StepStatus::Running));
    run_step(&mut app, run_gen, 1, Ok(step_landed(200, "{}")));
    assert!(matches!(step_status(&app, 2), StepStatus::Running));
    run_step(&mut app, run_gen, 2, Ok(step_landed(200, "{}")));
    assert!(app.sequence.runner.as_ref().unwrap().finished);
}

#[test]
fn sequence_run_transport_error_halts() {
    let mut app = sequence_app(OnError::Halt);
    let run_gen = runner_gen(&app);
    run_step(&mut app, run_gen, 0, Err("connection refused".to_owned()));
    assert!(matches!(step_status(&app, 0), StepStatus::HttpError(_)));
    assert!(matches!(step_status(&app, 1), StepStatus::Skipped));
    assert!(matches!(step_status(&app, 2), StepStatus::Skipped));
}

#[test]
fn sequence_run_accumulates_and_chains_extracted() {
    let mut app = sequence_app(OnError::Halt);
    let run_gen = runner_gen(&app);
    let landed = StepLanded {
        extracted: vars(&[("token", "XYZ")]),
        ..step_landed(200, r#"{"token":"XYZ"}"#)
    };
    let fx = app.on_sequence_step(run_gen, 0, Ok(landed));
    // The next step sees what this one captured.
    match &fx[0] {
        Effect::PrepareStep { index, extracted, .. } => {
            assert_eq!(*index, 1);
            assert_eq!(extracted.get(&"token".to_owned()).as_deref(), Some("XYZ"));
        }
        other => panic!("expected the next step, got {other:?}"),
    }
    settle(&mut app, fx);
    let runner = app.sequence.runner.as_ref().unwrap();
    assert_eq!(runner.extracted.get(&"token".to_owned()).as_deref(), Some("XYZ"));
    assert_eq!(runner.steps[0].extracted.get(&"token".to_owned()).unwrap(), "XYZ");
    assert!(matches!(step_status(&app, 1), StepStatus::Running));
}

#[test]
fn sequence_extract_error_halts() {
    let mut app = sequence_app(OnError::Halt);
    let run_gen = runner_gen(&app);
    let landed = StepLanded {
        result: StepResult::ExtractError("x: $.missing".to_owned()),
        ..step_landed(200, "{}")
    };
    run_step(&mut app, run_gen, 0, Ok(landed));
    assert!(matches!(step_status(&app, 0), StepStatus::ExtractError(_)));
    assert!(matches!(step_status(&app, 1), StepStatus::Skipped));
}

#[test]
fn sequence_stale_result_is_dropped() {
    let mut app = sequence_app(OnError::Halt);
    let run_gen = runner_gen(&app);
    run_step(&mut app, run_gen + 99, 0, Ok(step_landed(200, "{}")));
    assert!(matches!(step_status(&app, 0), StepStatus::Running));
}

#[test]
fn sequence_cancel_marks_pending_skipped() {
    let mut app = sequence_app(OnError::Halt);
    app.cancel_sequence_run();
    let runner = app.sequence.runner.as_ref().unwrap();
    assert!(runner.finished);
    assert!(
        runner.steps.iter().all(|s| matches!(s.status, StepStatus::Skipped)),
        "all non-terminal steps must be skipped on cancel"
    );
}

#[test]
fn sequence_rerun_resets_state() {
    let mut app = sequence_app(OnError::Halt);
    let run_gen = runner_gen(&app);
    run_step(&mut app, run_gen, 0, Ok(step_landed(500, "err")));
    assert!(app.sequence.runner.as_ref().unwrap().finished);
    let fx = app.start_sequence_run();
    settle(&mut app, fx);
    let runner = app.sequence.runner.as_ref().unwrap();
    assert!(!runner.finished);
    assert_eq!(runner.run_generation, run_gen + 1);
    assert!(matches!(runner.steps[0].status, StepStatus::Running));
    assert!(runner.steps[1..].iter().all(|s| matches!(s.status, StepStatus::Pending)));
}

/// One step, shown in the editor.
fn sequence_surface_app() -> App {
    let rows = vec![
        collection_row("/ws", "api", 0),
        endpoint_row("/ws", "api", 0, "one.toml", endpoint("one", "https://api.test/one")),
    ];
    let mut app = app_with(Some(workspace("/ws", "demo")), explorer(rows));
    app.open_sequence_editor("Flow".to_owned(), "/ws/sequences/flow.toml".to_owned());
    app
}

fn ctrl_r(app: &mut App) -> Vec<Effect> {
    let modifiers = KeyModifiers { control: true, alt: false, shift: false };
    let facts = Facts {
        checked: Ok(sequence("Flow", OnError::Halt, &["api/one.toml"])),
        ..facts()
    };
    app.handle_key(KeyEvent::new(Key::Char('r'), modifiers), facts)
}

#[test]
fn sequence_surface_opens_in_edit_face() {
    let app = sequence_surface_app();
    assert_eq!(app.mode, Mode::Sequence);
    assert_eq!(app.sequence.view, SeqView::Edit);
    assert!(app.sequence.editor.is_some());
    assert!(app.sequence.runner.is_none(), "run built lazily");
}

#[test]
fn run_sequence_opens_in_run_face() {
    let app = sequence_app(OnError::Halt);
    assert_eq!(app.mode, Mode::Sequence);
    assert_eq!(app.sequence.view, SeqView::Run);
    assert!(app.sequence.runner.is_some());
}

#[test]
fn ctrl_r_toggles_faces_when_clean() {
    let mut app = sequence_surface_app();
    assert!(!app.sequence.editor.as_ref().unwrap().dirty);
    ctrl_r(&mut app);
    assert_eq!(app.sequence.view, SeqView::Run, "clean edit→run flips");
    let runner = app.sequence.runner.as_ref().expect("runner built");
    assert_eq!(runner.steps.len(), 1, "runner built from the saved steps");
    ctrl_r(&mut app);
    assert_eq!(app.sequence.view, SeqView::Edit);
}

#[test]
fn dirty_edit_to_run_blocks_with_notify() {
    let mut app = sequence_surface_app();
    let fx = press(&mut app, 'o');
    assert!(matches!(fx[0], Effect::ComponentKey(Component::SequenceEditor, _)));
    app.sequence_editor_answered(EditorOutcome::Consumed { dirty: true });
    assert!(app.sequence.editor.as_ref().unwrap().dirty);
    ctrl_r(&mut app);
    assert_eq!(app.sequence.view, SeqView::Edit, "stays in edit while dirty");
    assert!(app.sequence.runner.is_none(), "no runner built while dirty");
    assert!(
        message(&app).is_some_and(|m| m.contains("save (w) before running")),
        "expected a save-first notify, got {:?}",
        message(&app)
    );
}

#[test]
fn close_sequence_surface_clears_everything() {
    let mut app = sequence_surface_app();
    ctrl_r(&mut app);
    assert!(app.sequence.runner.is_some());
    assert!(app.sequence.editor.is_some());
    app.close_sequence_surface();
    assert_eq!(app.mode, Mode::Normal);
    assert!(app.sequence.runner.is_none());
    assert!(app.sequence.editor.is_none());
    assert!(!app.sequence.in_flight);
    assert_eq!(app.sequence.view, SeqView::Edit);
}

#[test]
fn edit_to_run_aborts_orphaned_inflight_step() {
    let mut app = sequence_surface_app();
    app.sequence.in_flight = true;
    app.sequence.view = SeqView::Edit;
    assert!(app.sequence.in_flight, "task live before the flip");

    let fx = ctrl_r(&mut app);

    assert_eq!(app.sequence.view, SeqView::Run, "clean edit→run flips");
    assert!(!app.sequence.in_flight, "the prior abort handle was taken during rebuild");
    assert!(
        fx.iter().any(|e| matches!(e, Effect::AbortStep)),
        "the prior in-flight step must be aborted, not orphaned"
    );
}

#[test]
fn new_sequence_is_created_and_edited() {
    let rows = vec![
        collection_row("/ws", "api", 0),
        endpoint_row("/ws", "api", 0, "login.toml", endpoint("login", "https://api.test/login")),
    ];
    let mut app = app_with(Some(workspace("/ws", "demo")), explorer(rows));
    app.edit_selected_sequence();
    assert_eq!(app.mode, Mode::Prompt(PromptPurpose::NewSequence));
    app.prompt_editor = LineEditor::new("Auth flow");
    let fx = press_key(&mut app, Key::Enter);
    match &fx[0] {
        Effect::Disk(DiskWork::CreateSequence { root, name }) => {
            assert_eq!(root, "/ws");
            assert_eq!(name, "Auth flow");
        }
        other => panic!("expected a new sequence, got {other:?}"),
    }
    let mut tree = explorer(Vec::new());
    tree.endpoint_files = vec!["/ws/api/login.toml".to_owned()];
    let reload = Reload { explorer: tree, places: Vec::new() };
    let path = "/ws/sequences/auth-flow.toml".to_owned();
    let fx = app.sequence_created(Ok(("Auth flow".to_owned(), path, reload)));
    assert_eq!(app.mode, Mode::Sequence);
    assert_eq!(app.sequence.view, SeqView::Edit);
    match &fx[0] {
        Effect::EditSequence { path, endpoints } => {
            assert_eq!(path, "/ws/sequences/auth-flow.toml");
            assert_eq!(endpoints, &vec!["api/login.toml"]);
        }
        other => panic!("expected the editor, got {other:?}"),
    }
}

#[test]
fn refused_sequence_keeps_the_editor_open() {
    let mut app = sequence_surface_app();
    app.sequence_editor_answered(EditorOutcome::Consumed { dirty: true });
    let fx = app.sequence_editor_answered(EditorOutcome::SaveAndClose);
    assert!(matches!(
        &fx[0],
        Effect::Disk(DiskWork::SaveSequence { path, close: true }) if path == "/ws/sequences/flow.toml"
    ));
    let why = "step 1: duplicate rule name 'x'".to_owned();
    app.sequence_saved(Err(churl::tree::SequenceSaveError::Invalid(why)), true);
    assert_eq!(app.mode, Mode::Sequence, "editor stays open on refusal");
    assert_eq!(app.sequence.view, SeqView::Edit);
    assert!(message(&app).is_some_and(|m| m.contains("duplicate rule name 'x'")));
    assert!(app.sequence.editor.as_ref().unwrap().dirty);

    app.sequence_saved(Err(churl::tree::SequenceSaveError::Failed("disk full".to_owned())), true);
    assert_eq!(message(&app).as_deref(), Some("error: disk full"));

    let reload = Reload { explorer: Explorer::empty(), places: Vec::new() };
    app.sequence_saved(Ok(reload), false);
    assert_eq!(app.mode, Mode::Sequence);
    assert!(!app.sequence.editor.as_ref().unwrap().dirty);
    let reload = Reload { explorer: Explorer::empty(), places: Vec::new() };
    app.sequence_saved(Ok(reload), true);
    assert_eq!(app.mode, Mode::Normal);
    assert!(app.sequence.editor.is_none());
}

#[test]
fn captured_session_values_reach_later_sends() {
    let rows = vec![
        collection_row("/ws", "api", 0),
        endpoint_row("/ws", "api", 0, "one.toml", endpoint("one", "https://api.test/one")),
    ];
    let mut app = app_with(Some(workspace("/ws", "demo")), explorer(rows));
    let mut flow = sequence("Flow", OnError::Halt, &["api/one.toml"]);
    flow.steps[0].extract = vec![("token".to_owned(), "$.token".to_owned())];
    flow.steps[0].persist = vec!["token".to_owned()];
    let fx = app.open_sequence_runner("Flow".to_owned(), "/ws/flow.toml".to_owned(), flow);
    settle(&mut app, fx);
    let run_gen = runner_gen(&app);
    let landed = StepLanded { extracted: vars(&[("token", "T")]), ..step_landed(200, "{}") };
    run_step(&mut app, run_gen, 0, Ok(landed));
    let resolver = app.build_resolver(0);
    assert_eq!(resolver.lookup(&"token".to_owned()).as_deref(), Some("T"));
    assert!(app.clear_session_vars());
    assert!(!app.clear_session_vars());
    assert_eq!(app.build_resolver(0).lookup(&"token".to_owned()), None);
}

#[test]
fn captured_values_stay_in_their_workspace() {
    let token = "token".to_owned();
    let mut app = app_with(Some(workspace("/one", "one")), Explorer::empty());
    app.write_session_var(token.clone(), "A".to_owned());
    app.workspace = Some(workspace("/two", "two"));
    assert_eq!(app.build_resolver(0).lookup(&token), None);
    app.write_session_var(token.clone(), "B".to_owned());
    assert_eq!(app.build_resolver(0).lookup(&token).as_deref(), Some("B"));
    assert!(app.clear_session_vars());
    assert_eq!(app.build_resolver(0).lookup(&token), None);
    app.workspace = Some(workspace("/one", "one"));
    assert_eq!(app.build_resolver(0).lookup(&token).as_deref(), Some("A"));
}

fn no_latency() -> Latency {
    Latency { min: None, median: None, p95: None, max: None, mean: None }
}

fn five_ms() -> Latency {
    Latency { min: Some(5), median: Some(5), p95: Some(5), max: Some(5), mean: Some(5) }
}

fn default_cfg() -> LoadConfig {
    LoadConfig { total: 10, concurrency: 4, interval_ns: 0 }
}

fn copy_landed(status: u16, body: &str) -> LoadLanded {
    LoadLanded { status, total_ms: 5, view: view(body) }
}

/// Fills in the request that the load runner asks for.
fn resolve_load(app: &mut App, fx: Vec<Effect>) {
    for e in fx {
        if let Effect::Resolve {
            request,
            purpose: ResolveFor::Load { name, endpoint_path },
            ..
        } = e
        {
            app.load_resolved(request, None, name, endpoint_path, default_cfg());
        }
    }
}

/// One endpoint with the load runner open over it.
fn load_app(url: &str) -> App {
    let rows = vec![
        collection_row("/ws", "api", 0),
        endpoint_row("/ws", "api", 0, "ping.toml", endpoint("Ping", url)),
    ];
    let mut app = app_with(Some(workspace("/ws", "demo")), explorer(rows));
    app.guarded_load(PendingLoad::Row(1));
    let fx = app.open_load_runner();
    resolve_load(&mut app, fx);
    app
}

fn load_gen(app: &App) -> u64 {
    app.load.runner.as_ref().unwrap().run_generation
}

fn load_status(app: &App, i: usize) -> &LoadStatus {
    &app.load.runner.as_ref().unwrap().results[i].status
}

fn set_total(app: &mut App, total: usize) {
    app.load.runner.as_mut().unwrap().cfg.total = total;
}

fn summaries(fx: &[Effect]) -> usize {
    fx.iter().filter(|e| matches!(e, Effect::WriteLoadSummary(_))).count()
}

#[test]
fn load_runner_opens_with_resolved_request() {
    let app = load_app("https://api.test/ping");
    assert_eq!(app.mode, Mode::LoadRunner);
    let runner = app.load.runner.as_ref().unwrap();
    assert_eq!(runner.url, "https://api.test/ping");
    assert_eq!(runner.endpoint_path.as_deref(), Some("api/ping.toml"));
    assert!(!runner.running, "must not auto-run");
    assert!(runner.results.is_empty(), "no rows until a run starts");
    assert!(app.load.request.is_some(), "request resolved once at open");
}

/// Two endpoints, the first of which is open.
fn load_pick_app() -> App {
    let rows = vec![
        collection_row("/ws", "api", 0),
        endpoint_row("/ws", "api", 0, "alpha.toml", endpoint("alpha", "https://api.test/alpha")),
        endpoint_row("/ws", "api", 0, "beta.toml", endpoint("beta", "https://api.test/beta")),
    ];
    let mut app = app_with(Some(workspace("/ws", "demo")), explorer(rows));
    app.guarded_load(PendingLoad::Row(1));
    app
}

/// Lists the endpoints of the tree, as the search asks for.
fn list_endpoints(app: &mut App) {
    let rows = std::mem::take(&mut app.explorer.rows);
    let labels = rows
        .iter()
        .filter(|r| r.endpoint.is_some())
        .map(|r| format!("{} {}", r.name, r.display_path))
        .collect();
    let files = rows
        .iter()
        .filter(|r| r.endpoint.is_some())
        .map(|r| r.path.clone())
        .collect();
    app.search_listed(labels, files, explorer(rows));
}

/// Types into the list, which is narrowed to the items that hold what was typed.
fn type_query(app: &mut App, query: &str) {
    for c in query.chars() {
        let fx = press(app, c);
        assert!(matches!(fx[0], Effect::FilterPicker));
        let picker = app.picker.as_ref().unwrap();
        let shown = (0..picker.items.len())
            .filter(|i| picker.items[*i].contains(picker.query.as_str()))
            .collect();
        app.picker_filtered(shown);
    }
}

/// Opens what a pick asks for.
fn follow(app: &mut App, fx: Vec<Effect>) {
    for e in fx {
        match e {
            Effect::Tree(TreeWork::OpenFile(path)) => {
                let row = app.explorer.rows.iter().position(|r| r.path == path).unwrap();
                let selected = app.explorer.endpoint_at(row);
                app.explorer.cursor = row;
                app.endpoint_selected(selected);
            }
            Effect::ThenLoadRunner => {
                let fx = app.load_runner_after_open();
                resolve_load(app, fx);
            }
            other => panic!("unexpected {other:?}"),
        }
    }
}

#[test]
fn load_runner_pick_clean_loads_and_opens_runner() {
    let mut app = load_pick_app();
    assert!(!app.buffers.is_dirty());
    app.open_load_runner_pick();
    list_endpoints(&mut app);
    type_query(&mut app, "beta");
    let fx = app.accept_overlay(facts());
    follow(&mut app, fx);
    assert_eq!(app.mode, Mode::LoadRunner, "clean pick opens the runner");
    assert_eq!(app.load.runner.as_ref().unwrap().url, "https://api.test/beta");
    assert!(!app.load_runner_after_pick);
}

#[test]
fn load_runner_pick_esc_clears_flag() {
    let mut app = load_pick_app();
    app.open_load_runner_pick();
    list_endpoints(&mut app);
    assert!(app.load_runner_after_pick);
    press_key(&mut app, Key::Esc);
    assert_eq!(app.mode, Mode::Normal);
    assert!(!app.load_runner_after_pick, "esc-cancel must clear the one-shot intent");
}

#[test]
fn load_runner_pick_empty_enter_clears_flag() {
    let mut app = load_pick_app();
    app.open_load_runner_pick();
    list_endpoints(&mut app);
    type_query(&mut app, "zzzznomatch");
    assert!(
        app.picker.as_ref().unwrap().current().is_none(),
        "no current item for a non-matching query"
    );
    app.accept_overlay(facts());
    assert!(
        !app.load_runner_after_pick,
        "empty-result Enter must clear the one-shot intent"
    );
    assert!(app.load.runner.is_none());
}

#[test]
fn waiting_question_keeps_the_load_runner_closed() {
    let mut app = load_pick_app();
    app.mode = Mode::Confirm(ConfirmPurpose::DiscardChanges);
    assert!(app.load_runner_after_open().is_empty());
    assert!(app.load.runner.is_none());
}

#[test]
fn load_run_injected_results_update_stats_and_finish() {
    let mut app = load_app("https://api.test/ping");
    app.has_history = true;
    set_total(&mut app, 3);
    app.start_load_run();
    let g = load_gen(&app);
    assert!(app.load.runner.as_ref().unwrap().running);
    assert!(matches!(load_status(&app, 0), LoadStatus::Pending));

    app.on_load_started(g, 0, 1);
    assert!(matches!(load_status(&app, 0), LoadStatus::Running));
    let a = app.on_load_result(g, 0, Ok(copy_landed(200, "a")), five_ms());
    let b = app.on_load_result(g, 1, Ok(copy_landed(500, "b")), five_ms());
    assert!(!app.load.runner.as_ref().unwrap().finished);
    let c = app.on_load_result(g, 2, Err("connection refused".to_owned()), five_ms());

    let runner = app.load.runner.as_ref().unwrap();
    assert!(runner.finished && !runner.running && !runner.cancelled);
    assert_eq!(runner.completed, 3);
    assert_eq!(runner.stats.ok, 1);
    assert_eq!(runner.stats.failed, 1);
    assert_eq!(runner.stats.errored, 1);
    assert!(matches!(load_status(&app, 0), LoadStatus::Passed(200)));
    assert!(matches!(load_status(&app, 1), LoadStatus::Failed(500)));
    assert!(matches!(load_status(&app, 2), LoadStatus::Error(_)));

    assert_eq!(summaries(&a) + summaries(&b), 0);
    assert_eq!(summaries(&c), 1);
    let summary = c
        .iter()
        .find_map(|e| match e {
            Effect::WriteLoadSummary(s) => Some(s),
            _ => None,
        })
        .unwrap();
    assert_eq!(summary.total, 3);
    assert_eq!(summary.stats.ok, 1);
    assert!(!summary.cancelled);
    assert_eq!(summary.stats.latency.mean, Some(5));
    assert!(!c.iter().any(|e| matches!(e, Effect::WriteHistory { .. })));
}

#[test]
fn load_stale_result_is_dropped() {
    let mut app = load_app("https://api.test/ping");
    set_total(&mut app, 2);
    app.start_load_run();
    let g = load_gen(&app);
    app.on_load_result(g + 99, 0, Ok(copy_landed(200, "x")), no_latency());
    assert!(matches!(load_status(&app, 0), LoadStatus::Pending));
    assert_eq!(app.load.runner.as_ref().unwrap().completed, 0);
}

#[test]
fn load_cancel_marks_pending_and_writes_partial_summary() {
    let mut app = load_app("https://api.test/ping");
    app.has_history = true;
    set_total(&mut app, 4);
    app.start_load_run();
    let g = load_gen(&app);
    app.on_load_result(g, 0, Ok(copy_landed(200, "a")), five_ms());
    let fx = app.cancel_load_run(9);

    let runner = app.load.runner.as_ref().unwrap();
    assert!(runner.finished && runner.cancelled && !runner.running);
    assert!(matches!(load_status(&app, 0), LoadStatus::Passed(200)));
    assert!(
        runner.results[1..].iter().all(|r| matches!(r.status, LoadStatus::Cancelled)),
        "every non-terminal row is cancelled"
    );
    let late = app.on_load_result(g, 1, Ok(copy_landed(200, "late")), five_ms());
    assert!(late.is_empty());
    assert!(matches!(load_status(&app, 1), LoadStatus::Cancelled));

    assert_eq!(summaries(&fx), 1);
    let summary = fx
        .iter()
        .find_map(|e| match e {
            Effect::WriteLoadSummary(s) => Some(s),
            _ => None,
        })
        .unwrap();
    assert!(summary.cancelled, "partial summary marked cancelled");
    assert_eq!(summary.stats.ok, 1);
}

#[test]
fn load_rerun_while_running_writes_cancelled_summary_and_restarts() {
    let mut app = load_app("https://api.test/ping");
    app.has_history = true;
    set_total(&mut app, 4);
    app.start_load_run();
    let g1 = load_gen(&app);
    app.on_load_result(g1, 0, Ok(copy_landed(200, "a")), five_ms());
    assert!(app.load.runner.as_ref().unwrap().running);

    let fx = app.handle_load_runner_key(KeyEvent::char('r'), false, None);
    assert!(matches!(fx[0], Effect::ComponentKey(Component::LoadRunner, _)));
    let fx = app.load_runner_answered(LoadOutcome::Run, 9);
    assert!(matches!(fx[0], Effect::CheckLoad(_)));
    let fx = app.load_checked(LoadCheck::Fine);
    let runner = app.load.runner.as_ref().unwrap();
    assert!(runner.running, "a fresh run started");
    assert!(!runner.finished && !runner.cancelled);
    assert!(runner.run_generation > g1, "fresh run on a new generation");
    assert_eq!(runner.completed, 0, "fresh rows");
    assert!(
        runner.results.iter().all(|r| matches!(r.status, LoadStatus::Pending)),
        "every row reset to pending"
    );

    assert_eq!(summaries(&fx), 1, "the interrupted run's partial was recorded");
    let summary = fx
        .iter()
        .find_map(|e| match e {
            Effect::WriteLoadSummary(s) => Some(s),
            _ => None,
        })
        .unwrap();
    assert!(summary.cancelled);
    assert_eq!(summary.stats.ok, 1);
}

#[test]
fn load_close_while_running_writes_cancelled_summary() {
    let mut app = load_app("https://api.test/ping");
    app.has_history = true;
    set_total(&mut app, 4);
    app.start_load_run();
    let g = load_gen(&app);
    app.on_load_result(g, 0, Ok(copy_landed(200, "a")), five_ms());
    app.on_load_result(g, 1, Ok(copy_landed(500, "b")), five_ms());

    let fx = app.handle_load_runner_key(KeyEvent::char('q'), false, None);
    assert!(matches!(fx[0], Effect::ComponentKey(Component::LoadRunner, _)));
    let fx = app.load_runner_answered(LoadOutcome::Close, 9);
    assert!(app.load.runner.is_none(), "runner closed");
    assert_eq!(app.mode, Mode::Normal);

    assert_eq!(summaries(&fx), 1, "close mid-run recorded the partial");
    let summary = fx
        .iter()
        .find_map(|e| match e {
            Effect::WriteLoadSummary(s) => Some(s),
            _ => None,
        })
        .unwrap();
    assert!(summary.cancelled);
    assert_eq!(summary.stats.ok, 1);
    assert_eq!(summary.stats.failed, 1);
}

#[test]
fn load_guardrail_refuse_blocks_the_run() {
    let mut app = load_app("https://api.test/ping");
    set_total(&mut app, 20_000);
    let fx = app.request_load_run();
    assert!(matches!(&fx[0], Effect::CheckLoad(c) if c.total == 20_000));
    app.load_checked(LoadCheck::Refuse("total 20000 exceeds max 10000".to_owned()));
    let runner = app.load.runner.as_ref().unwrap();
    assert!(!runner.running, "a refused run never starts");
    assert!(runner.pending_confirm.is_none(), "refuse does not prompt");
    assert!(app.message.is_some(), "refusal is surfaced loudly");
}

#[test]
fn load_guardrail_warn_requires_confirm_then_runs() {
    let mut app = load_app("https://api.test/ping");
    set_total(&mut app, 500);
    app.request_load_run();
    app.load_checked(LoadCheck::Warn("total above 100".to_owned()));
    let runner = app.load.runner.as_ref().unwrap();
    assert!(!runner.running, "warn does not run immediately");
    let confirm = runner.pending_confirm.clone().expect("confirm shown");
    assert!(confirm.contains("500"), "confirm names the count: {confirm}");
    assert!(
        confirm.contains("https://api.test/ping"),
        "confirm shows the target URL: {confirm}"
    );
    let fx = app.handle_load_runner_key(KeyEvent::char('y'), false, None);
    assert!(matches!(fx[0], Effect::ComponentKey(Component::LoadRunner, _)));
    app.load_runner_answered(LoadOutcome::ConfirmedRun, 9);
    let runner = app.load.runner.as_ref().unwrap();
    assert!(runner.pending_confirm.is_none());
    assert!(runner.running, "confirmed run started");
    assert_eq!(runner.results.len(), 500);
}

#[test]
fn times_are_recorded_as_given() {
    let step = churl::meta::sequence_step_meta_at("api/one.toml", 42);
    assert_eq!(step.executed_at_ms, 42);
    assert_eq!(step.url, "api/one.toml");
    assert_eq!(step.endpoint_path.as_deref(), Some("api/one.toml"));
    assert_eq!(step.method, "");
    let copy = churl::meta::load_result_meta_at("https://x", 43);
    assert_eq!(copy.executed_at_ms, 43);
    assert_eq!(copy.url, "https://x");
    assert_eq!(copy.endpoint_path, None);
    let before = churl::meta::now_ms();
    assert!(churl::meta::sequence_step_meta("e").executed_at_ms >= before);
    assert!(churl::meta::load_result_meta("u").executed_at_ms >= before);
}
