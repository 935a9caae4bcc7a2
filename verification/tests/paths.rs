use churl::paths::{
    ancestors, default_export_path, display_workspace_path, existing_ancestor_canonical,
    export_target, file_name, lexical_normalize, parent, path_below_home, path_within, strip_prefix,
    ExportError,
};

#[test]
fn default_export_path_slugifies() {
    assert_eq!(default_export_path("My API"), "exports/my-api.json");
    assert_eq!(default_export_path("  "), "exports/export.json");
}

#[test]
fn export_target_stays_inside_workspace() {
    let root = "/tmp/ws";
    let target = export_target(root, "exports/api.json", &None).unwrap();
    assert!(target.starts_with(root), "{target:?}");
    assert!(target.ends_with("exports/api.json"));
    let ok = export_target(root, "exports/../api.json", &None).unwrap();
    assert_eq!(ok, "/tmp/ws/api.json");
}

#[test]
fn export_target_rejects_escaping_paths() {
    let root = "/tmp/ws";
    assert!(export_target(root, "../escape.json", &None).is_err());
    assert!(export_target(root, "exports/../../escape.json", &None).is_err());
    assert!(export_target(root, "/etc/passwd", &None).is_err());
    assert!(export_target(root, "   ", &None).is_err());
    assert!(matches!(export_target(root, "  ", &None), Err(ExportError::NoPath)));
    assert!(matches!(export_target(root, "/etc/passwd", &None), Err(ExportError::Escapes)));
}

#[test]
fn export_target_rejects_symlinked_component() {
    let root = "/tmp/ws";
    // The deepest directory that exists is a link that leads elsewhere.
    let probed = ancestors("/tmp/ws/exports/leak.json");
    assert_eq!(probed[0], "/tmp/ws/exports/leak.json");
    assert_eq!(probed[1], "/tmp/ws/exports");
    let on_disk = existing_ancestor_canonical(&vec![
        None,
        Some("/tmp/outside".to_owned()),
        Some("/tmp/ws".to_owned()),
    ]);
    assert_eq!(on_disk.as_deref(), Some("/tmp/outside"));
    let target = export_target(root, "exports/leak.json", &on_disk);
    assert!(
        target.is_err(),
        "a symlinked component must not tunnel out of the workspace"
    );
    assert!(matches!(target, Err(ExportError::EscapesByLink)));
}

#[test]
fn paths_are_normalized_without_the_disk() {
    assert_eq!(lexical_normalize("/a/./b/../c"), "/a/c");
    assert_eq!(lexical_normalize("a/b/.."), "a");
}

#[test]
fn home_is_shown_as_a_tilde() {
    let home = Some("/home/me".to_owned());
    assert_eq!(path_below_home("/home/me/api", &home), "~/api");
    assert_eq!(path_below_home("/srv/api", &home), "/srv/api");
    assert_eq!(path_below_home("/srv/api", &None), "/srv/api");
    // A path that no home directory holds is shown as it is.
    assert_eq!(display_workspace_path("relative/api"), "relative/api");
    let home = dirs::home_dir().expect("a home directory");
    let below = format!("{}/api", home.display());
    assert_eq!(display_workspace_path(&below), "~/api");
}

#[test]
fn path_that_starts_with_a_dot_keeps_it() {
    assert!(path_within("./ws/a", "./ws"));
    assert!(!path_within("ws/a", "./ws"));
    assert!(!path_within("./ws/a", "ws"));
    assert!(path_within("/ws/./a", "/ws"));
    assert!(path_within("/ws/a", ""));
    assert_eq!(lexical_normalize("./a/./b"), "a/b");
    let refused = export_target("./ws", "exports/api.json", &None);
    assert!(matches!(refused, Err(ExportError::Escapes)));
    assert_eq!(parent("./a").as_deref(), Some("."));
    assert_eq!(parent(".").as_deref(), Some(""));
    assert_eq!(parent(""), None);
    assert_eq!(parent("/"), None);
    assert_eq!(file_name("./a").as_deref(), Some("a"));
    assert_eq!(file_name("."), None);
    assert_eq!(ancestors("./a"), vec!["./a", ".", ""]);
}

#[test]
fn rest_of_a_path_keeps_its_text() {
    assert_eq!(strip_prefix("/ws/a//b", "/ws").as_deref(), Some("a//b"));
    assert_eq!(strip_prefix("/ws//a/./b/", "/ws/").as_deref(), Some("a/./b"));
    assert_eq!(strip_prefix("/ws", "/ws").as_deref(), Some(""));
    assert_eq!(strip_prefix("/ws/a", "/w"), None);
    let home = Some("/home/me".to_owned());
    assert_eq!(path_below_home("/home/me/a//b", &home), "~/a//b");
    assert_eq!(path_below_home("/home/me", &home), "~/");
}

#[test]
fn slug_of_a_slug_and_of_upper_case() {
    for name in ["My API", "  ", "--a  b--", "Grüße 1"] {
        let path = default_export_path(name);
        let slug = path.strip_prefix("exports/").unwrap().strip_suffix(".json").unwrap();
        assert_eq!(default_export_path(slug), path);
        assert_eq!(default_export_path(&name.to_ascii_uppercase()), path);
    }
    assert_eq!(default_export_path("--a  b--"), "exports/a-b.json");
}
