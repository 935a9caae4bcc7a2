use churl::load::LoadCheck;
use churl::mode::UrlEditMode;
use churl::settings::{
    AdvancedField, AdvancedLimits, CookieKey, LoadCapField, LoadCaps, OptionsEvent,
    RedirectPolicy, SavedDefaults, SecretPolicy, SettingKey, Settings, SettingsAsk,
    SettingsChange, SettingsEvent, Values,
};

fn settings() -> Settings {
    Settings::new(Values {
        theme: "dark".to_owned(),
        leader_key: "space".to_owned(),
        url_edit: UrlEditMode::Inline,
        secret_policy: SecretPolicy::Warn,
        redirect: RedirectPolicy::Strip,
        proxy: None,
        insecure: false,
        cookies: true,
        debug: false,
        load_caps: LoadCaps {
            warn_total: 100,
            warn_concurrency: 20,
            max_total: 10_000,
            max_concurrency: 200,
        },
        advanced: AdvancedLimits {
            concurrency: 4,
            total: 10,
            body_cap_bytes: 1_000_000,
            timeout_secs: 30,
        },
    })
}

fn text(n: Option<churl::notice::Notice>) -> Option<String> {
    n.map(|n| n.text())
}

#[test]
fn round_trip_is_no_change() {
    let mut s = settings();
    s.open_settings();
    s.apply(SettingsEvent::ToggleInsecure { rebuilt: Ok(()) });
    assert!(s.insecure);
    assert!(s.touched.contains(SettingKey::Insecure));
    s.apply(SettingsEvent::ToggleInsecure { rebuilt: Ok(()) });
    assert!(!s.touched.contains(SettingKey::Insecure));
    assert!(s.settings_edits().insecure.is_none());
}

#[test]
fn change_stays_one_when_the_panel_opens_again() {
    let mut s = settings();
    s.open_settings();
    s.apply(SettingsEvent::ApplyRedirect(RedirectPolicy::Strict));
    s.open_settings();
    assert!(s.touched.contains(SettingKey::Redirect));
    let w = s.apply(SettingsEvent::ApplyRedirect(RedirectPolicy::FollowAll));
    assert_eq!(text(w.notice).as_deref(), Some("redirect policy set to follow-all"));
    assert!(s.touched.contains(SettingKey::Redirect));
    s.apply(SettingsEvent::ApplyRedirect(RedirectPolicy::Strip));
    assert!(!s.touched.contains(SettingKey::Redirect));
}

#[test]
fn failed_rebuild_changes_nothing() {
    let mut s = settings();
    s.open_settings();
    let w = s.apply(SettingsEvent::ApplyProxy {
        proxy: Some("nonsense".to_owned()),
        masked: "nonsense".to_owned(),
        rebuilt: Err("no scheme".to_owned()),
    });
    assert!(w.notice.is_none());
    assert_eq!(s.proxy, None);
    assert!(!s.touched.contains(SettingKey::Proxy));
    assert_eq!(s.note.as_ref().unwrap().text(), "invalid proxy — no scheme");
    let w = s.apply(SettingsEvent::ApplyProxy {
        proxy: Some("http://u:p@h".to_owned()),
        masked: "http://h".to_owned(),
        rebuilt: Ok(()),
    });
    assert_eq!(text(w.notice).as_deref(), Some("proxy set: http://h"));
    assert_eq!(s.proxy.as_deref(), Some("http://u:p@h"));
}

#[test]
fn cookies_are_kept_when_they_are_switched_off() {
    let mut s = settings();
    s.open_settings();
    let w = s.apply(SettingsEvent::ToggleCookies { rebuilt: Ok(()) });
    assert!(w.persist_cookies);
    assert_eq!(text(w.notice).as_deref(), Some("cookie jar disabled"));
    let w = s.apply(SettingsEvent::ToggleCookies { rebuilt: Ok(()) });
    assert!(!w.persist_cookies);
    let key = |path: &str| CookieKey {
        domain: "x.test".to_owned(),
        name: "sid".to_owned(),
        path: path.to_owned(),
    };
    let w = s.apply(SettingsEvent::UpsertCookie {
        previous: Some(key("/")),
        key: key("/api"),
        upserted: Ok(()),
    });
    assert_eq!(w.drop_cookie.as_ref().map(|k| k.path.as_str()), Some("/"));
    assert_eq!(text(w.notice).as_deref(), Some("updated cookie sid (x.test)"));
    let w = s.apply(SettingsEvent::UpsertCookie {
        previous: Some(key("/")),
        key: key("/"),
        upserted: Err("too long".to_owned()),
    });
    assert!(w.drop_cookie.is_none(), "a refused cookie drops nothing");
    let w = s.apply(SettingsEvent::DeleteCookie {
        domain: "x.test".to_owned(),
        name: "sid".to_owned(),
        removed: false,
    });
    assert_eq!(text(w.notice).as_deref(), Some("no cookie sid (x.test)"));
    assert!(!w.persist_cookies);
}

#[test]
fn limits_refuse_an_advanced_default() {
    let mut s = settings();
    s.open_settings();
    let change = SettingsChange::Advanced { field: AdvancedField::Total, value: 99_999 };
    match s.ask(change) {
        SettingsAsk::CheckLoad(cfg) => {
            assert_eq!(cfg.total, 99_999);
            assert_eq!(cfg.concurrency, 4);
        }
        other => panic!("expected the limits to be asked, got {other:?}"),
    }
    s.apply(SettingsEvent::ApplyAdvanced {
        field: AdvancedField::Total,
        value: 99_999,
        label: "total".to_owned(),
        check: LoadCheck::Refuse("too many".to_owned()),
        rebuilt: Ok(()),
    });
    assert_eq!(s.advanced.total, 10);
    assert_eq!(s.note.as_ref().unwrap().text(), "refused — too many");
    let w = s.apply(SettingsEvent::ApplyAdvanced {
        field: AdvancedField::Total,
        value: 500,
        label: "total".to_owned(),
        check: LoadCheck::Warn("many".to_owned()),
        rebuilt: Ok(()),
    });
    assert_eq!(s.advanced.total, 500);
    assert_eq!(text(w.notice).as_deref(), Some("advanced total set to 500"));
    assert!(s.touched.contains(SettingKey::AdvancedTotal));
    let w = s.apply(SettingsEvent::ApplyAdvanced {
        field: AdvancedField::TimeoutSecs,
        value: 60,
        label: "timeout".to_owned(),
        check: LoadCheck::Fine,
        rebuilt: Ok(()),
    });
    assert_eq!(text(w.notice).as_deref(), Some("advanced timeout set to 60s"));
    assert_eq!(s.client_timeout_secs, 60);
}

#[test]
fn only_changes_are_saved() {
    let mut s = settings();
    s.open_settings();
    s.apply(SettingsEvent::ApplyLoadCap {
        cap: LoadCapField::MaxTotal,
        count: 7,
        label: "max total".to_owned(),
    });
    let edits = s.settings_edits();
    assert_eq!(edits.load_max_total, Some(7));
    assert!(edits.theme.is_none() && edits.timeout_secs.is_none());
    s.apply(SettingsEvent::ApplyProxy {
        proxy: Some("http://u:p@h".to_owned()),
        masked: "http://h".to_owned(),
        rebuilt: Ok(()),
    });
    let saved = SavedDefaults { path: "/c.toml".to_owned(), proxy_skipped: true };
    let w = s.apply(SettingsEvent::SaveDefaults { saved: Ok(saved) });
    assert_eq!(
        text(w.notice).as_deref(),
        Some("saved defaults to /c.toml — proxy not persisted (contains credentials)")
    );
    assert!(s.touched.contains(SettingKey::Proxy), "what was not saved is still a change");
    assert!(!s.touched.contains(SettingKey::LoadMaxTotal));
    s.apply(SettingsEvent::SaveDefaults { saved: Err("denied".to_owned()) });
    assert_eq!(s.note.as_ref().unwrap().text(), "save failed — denied");
    assert!(s.touched.contains(SettingKey::Proxy));
}

#[test]
fn shortcuts_and_options_are_no_changes_of_the_panel() {
    let mut s = settings();
    s.open_settings();
    s.toggle_insecure(Ok(()));
    s.toggle_debug();
    s.apply_option(OptionsEvent::ToggleCookies { rebuilt: Ok(()) });
    assert!(s.insecure && s.debug && !s.cookies);
    assert!(!s.touched.contains(SettingKey::Insecure));
    assert!(!s.touched.contains(SettingKey::Debug));
    assert!(!s.touched.contains(SettingKey::Cookies));
}

#[test]
fn themes_and_keys_that_do_not_hold_are_not_taken() {
    let mut s = settings();
    s.open_settings();
    let w = s.apply(SettingsEvent::ApplyTheme {
        name: "neon".to_owned(),
        resolved: Err("unknown".to_owned()),
    });
    assert!(!w.respawn_highlighter);
    assert_eq!(s.theme, "dark");
    assert_eq!(s.note.as_ref().unwrap().text(), "could not apply theme — unknown");
    let w = s.apply(SettingsEvent::ApplyTheme { name: "light".to_owned(), resolved: Ok(()) });
    assert!(w.respawn_highlighter);
    assert_eq!(s.theme, "light");
    s.apply(SettingsEvent::ApplyLeaderKey { combo: "Space".to_owned(), same: true });
    assert!(!s.touched.contains(SettingKey::LeaderKey), "the same key, written otherwise");
    s.apply(SettingsEvent::ApplyLeaderKey { combo: ",".to_owned(), same: false });
    assert!(s.touched.contains(SettingKey::LeaderKey));
}
