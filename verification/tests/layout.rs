use churl::app::App;
use churl::explorer::Explorer;
use churl::keymap::KeyMap;
use churl::layout::{popup_area, Area};
use churl::mode::{LeaderMenu, LeaderState, UrlEditMode};
use churl::pane::{LeftPane, Pane, ZoomPane};
use churl::popup::{leader_popup_entries, popup_size, stub_title};
use churl::settings::{
    AdvancedLimits, LoadCaps, RedirectPolicy, SecretPolicy, Settings, Values,
};

fn app() -> App {
    let values = Values {
        theme: "dark".to_owned(),
        leader_key: "space".to_owned(),
        url_edit: UrlEditMode::Inline,
        secret_policy: SecretPolicy::Warn,
        redirect: RedirectPolicy::Strip,
        proxy: None,
        insecure: false,
        cookies: false,
        debug: false,
        load_caps: LoadCaps {
            warn_total: 100,
            warn_concurrency: 20,
            max_total: 10_000,
            max_concurrency: 200,
        },
        advanced: AdvancedLimits {
            concurrency: 4,
            total: 10,
            body_cap_bytes: 1_000_000,
            timeout_secs: 30,
        },
    };
    App::new(None, Explorer::empty(), KeyMap::default(), Settings::new(values))
}

fn area(x: u16, y: u16, width: u16, height: u16) -> Area {
    Area { x, y, width, height }
}

#[test]
fn screen_is_split_into_its_parts() {
    let app = app();
    let s = app.screen(area(0, 0, 80, 24), false);
    assert_eq!(s.main, area(0, 0, 80, 23));
    assert_eq!(s.message, None);
    assert_eq!(s.status, area(0, 23, 80, 1));
    assert_eq!(s.tree, Some(area(0, 0, 30, 23)));
    assert_eq!(s.sequences, None);
    assert_eq!(s.url_bar, area(30, 0, 50, 3));
    assert_eq!(s.request, area(30, 3, 50, 10));
    assert_eq!(s.response, area(30, 13, 50, 10));
}

#[test]
fn message_takes_the_row_above_the_status_line() {
    let app = app();
    let s = app.screen(area(2, 1, 80, 24), true);
    assert_eq!(s.main, area(2, 1, 80, 22));
    assert_eq!(s.message, Some(area(2, 23, 80, 1)));
    assert_eq!(s.status, area(2, 24, 80, 1));
    assert_eq!(s.status, app.screen(area(2, 1, 80, 24), false).status);
    assert_eq!(s.request, area(32, 4, 50, 9));
    assert_eq!(s.response, area(32, 13, 50, 10));
}

#[test]
fn zoomed_pane_leaves_a_stub() {
    let mut app = app();
    app.panes.focus = Pane::Request;
    app.panes.zoom = Some(ZoomPane::Request);
    let s = app.screen(area(0, 0, 80, 24), false);
    assert_eq!(s.request, area(30, 3, 50, 17));
    assert_eq!(s.response, area(30, 20, 50, 3));
    app.panes.zoom = Some(ZoomPane::Response);
    let s = app.screen(area(0, 0, 80, 24), false);
    assert_eq!(s.request, area(30, 3, 50, 3));
    assert_eq!(s.response, area(30, 6, 50, 17));
}

#[test]
fn left_column_is_hidden_or_split() {
    let mut app = app();
    app.panes.explorer_hidden = true;
    let s = app.screen(area(0, 0, 80, 24), false);
    assert_eq!(s.tree, None);
    assert_eq!(s.url_bar, area(0, 0, 80, 3));
    app.panes.explorer_hidden = false;
    app.panes.sequences_shown = true;
    let s = app.screen(area(0, 0, 80, 24), false);
    assert_eq!(s.tree, Some(area(0, 0, 30, 20)));
    assert_eq!(s.sequences, Some(area(0, 20, 30, 3)));
    app.panes.left_active = LeftPane::Sequences;
    let s = app.screen(area(0, 0, 80, 24), false);
    assert_eq!(s.tree, Some(area(0, 0, 30, 3)));
    assert_eq!(s.sequences, Some(area(0, 3, 30, 20)));
}

#[test]
fn small_screens_hold_all_parts() {
    let app = app();
    for height in 0..6 {
        for width in [0, 10, 29] {
            let whole = area(0, 0, width, height);
            let s = app.screen(whole, true);
            for a in [s.main, s.status, s.url_bar, s.request, s.response] {
                assert!(a.x + a.width <= width && a.y + a.height <= height, "{a:?} in {whole:?}");
            }
        }
    }
}

#[test]
fn popup_stands_in_the_corner() {
    assert_eq!(popup_area(area(0, 0, 80, 23), 20, 5), area(60, 18, 20, 5));
    assert_eq!(popup_area(area(0, 0, 10, 4), 20, 5), area(0, 0, 10, 4));
}

#[test]
fn popup_lists_the_keys_in_order() {
    let keymap = KeyMap::default();
    let (title, entries) = leader_popup_entries(&keymap, LeaderState::Root);
    assert_eq!(title, " leader ");
    let menus = entries.len() - keymap.menus.len();
    let mut sorted = entries[..menus].to_vec();
    sorted.sort();
    assert_eq!(sorted, entries[..menus].to_vec());
    assert!(entries[..menus].iter().any(|(k, _)| k == "q"));
    assert_eq!(entries[menus].0, "s");
    assert_eq!(entries[menus].1, "▸ sequences");

    let (title, entries) =
        leader_popup_entries(&keymap, LeaderState::Submenu(LeaderMenu::Sequences));
    assert_eq!(title, " leader · sequences ");
    assert_eq!(entries.len(), 2);
    assert_eq!(entries[0].0, "o");
    assert_eq!(entries[1].0, "r");
}

#[test]
fn popup_is_as_wide_as_its_entries() {
    let entry = |k: &str, l: &str| (k.to_owned(), l.to_owned());
    assert_eq!(popup_size("t", &vec![entry("a", "b")]), (20, 3));
    assert_eq!(popup_size("t", &vec![entry("q", "twenty characters ..")]), (26, 3));
    let long = "x".repeat(60);
    assert_eq!(popup_size("t", &vec![entry("a", &long), entry("b", "c")]), (50, 4));
    assert_eq!(popup_size("a title of 25 characters.", &Vec::new()), (29, 2));
}

#[test]
fn stub_keeps_its_title() {
    assert_eq!(stub_title("Request", None), " Request ");
    assert_eq!(stub_title("Request", Some('r')), " Request [r] ");
}

#[test]
fn focus_is_drawn_in_the_normal_mode() {
    let mut app = app();
    assert!(app.shows_focus(Pane::Explorer));
    assert!(!app.shows_focus(Pane::Response));
    app.panes.focus = Pane::Response;
    app.mode = churl::mode::Mode::BodySearch;
    assert!(app.shows_focus(Pane::Response));
    app.mode = churl::mode::Mode::Jump;
    assert!(!app.shows_focus(Pane::Response));
}
