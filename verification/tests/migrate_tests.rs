use mezeporta::entries::NamedEntries;
use mezeporta::migrate::{
    config_is_current, ensure_endpoint_shape, migrate_config_store, migrate_endpoint_collection,
    migrate_launcher_prefs, migrate_ui_prefs, ConfigStore, JsonField, StoreItem, StoreValue,
};

fn obj(fields: Vec<(&str, JsonField<i32>)>) -> NamedEntries<JsonField<i32>> {
    let mut o = NamedEntries::new();
    for (k, v) in fields {
        o.insert(k.to_string(), v);
    }
    o
}

fn text(o: &NamedEntries<JsonField<i32>>, k: &str) -> Option<String> {
    match o.get(k) {
        Some(JsonField::Str(s)) => Some(s.clone()),
        _ => None,
    }
}

#[test]
fn legacy_endpoint_entries_take_the_current_shape() {
    let mut o = obj(vec![
        ("host", JsonField::Str("  example.com ".to_string())),
        ("launcherPort", JsonField::Str(" 8080 ".to_string())),
        ("gamePort", JsonField::Str("nope".to_string())),
        ("gamePath", JsonField::Str("/games".to_string())),
        ("legacy", JsonField::Bool(true)),
    ]);
    assert!(ensure_endpoint_shape(&mut o, true));
    assert_eq!(text(&o, "url"), Some("example.com".to_string()));
    assert_eq!(text(&o, "name"), Some("example.com".to_string()));
    assert!(matches!(o.get("launcherPort"), Some(JsonField::Int(8080))));
    assert!(matches!(o.get("gamePort"), Some(JsonField::Null)));
    assert_eq!(text(&o, "gameFolder"), Some("/games".to_string()));
    assert!(!o.contains("gamePath"));
    assert_eq!(text(&o, "version"), Some("ZZ".to_string()));
    assert!(matches!(o.get("isRemote"), Some(JsonField::Bool(true))));
    assert!(!o.contains("legacy"));
    // A second pass finds nothing to do.
    assert!(!ensure_endpoint_shape(&mut o, true));
}

#[test]
fn current_endpoint_entries_are_left_alone() {
    let mut o = obj(vec![
        ("url", JsonField::Str("h".to_string())),
        ("name", JsonField::Str("n".to_string())),
        ("launcherPort", JsonField::Number(7)),
        ("gamePort", JsonField::Null),
        ("gameFolder", JsonField::Null),
        ("version", JsonField::Str("G7".to_string())),
        ("isRemote", JsonField::Bool(false)),
    ]);
    assert!(!ensure_endpoint_shape(&mut o, true));
    assert!(matches!(o.get("launcherPort"), Some(JsonField::Number(7))));
}

#[test]
fn launcher_prefs_move_to_current_names() {
    let mut o = obj(vec![
        ("preload_controller_dlls", JsonField::Bool(true)),
        ("friend_signature", JsonField::Str(" detect ".to_string())),
        ("wine_prefix_mode", JsonField::Str("SYSTEM".to_string())),
        ("wine_prefix_custom_path", JsonField::Str("  ".to_string())),
    ]);
    assert!(migrate_launcher_prefs(&mut o));
    assert!(matches!(o.get("preloadControllerDlls"), Some(JsonField::Bool(true))));
    assert_eq!(text(&o, "friendSignature"), Some("none".to_string()));
    assert_eq!(text(&o, "winePrefixMode"), Some("system".to_string()));
    assert!(matches!(o.get("winePrefixCustomPath"), Some(JsonField::Null)));
    assert!(!o.contains("friend_signature"));
    assert!(!migrate_launcher_prefs(&mut o));
    let mut p = obj(vec![
        ("preloadControllerDlls", JsonField::Bool(false)),
        ("friendSignature", JsonField::Str("v1 ".to_string())),
        ("winePrefixMode", JsonField::Str("custom".to_string())),
        ("winePrefixCustomPath", JsonField::Str(" /p ".to_string())),
    ]);
    assert!(migrate_launcher_prefs(&mut p));
    assert_eq!(text(&p, "friendSignature"), Some("v1".to_string()));
    assert_eq!(text(&p, "winePrefixCustomPath"), Some("/p".to_string()));
}

#[test]
fn ui_prefs_get_defaults() {
    let mut o = obj(vec![("devMode", JsonField::Bool(true))]);
    assert!(migrate_ui_prefs(&mut o));
    assert!(matches!(o.get("devMode"), Some(JsonField::Bool(true))));
    assert!(matches!(o.get("sfxVolume"), Some(JsonField::Int(30))));
    assert_eq!(text(&o, "fontPreset"), Some("default".to_string()));
    assert!(matches!(o.get("ps4LauncherRecentResolutions"), Some(JsonField::EmptyArray)));
    assert!(matches!(o.get("launcherController"), Some(JsonField::Bool(true))));
    assert!(!migrate_ui_prefs(&mut o));
}

#[test]
fn config_versions() {
    assert!(config_is_current(Some(" 1.5.2 ")));
    assert!(!config_is_current(Some("1.5.1")));
    assert!(!config_is_current(None));
}

#[test]
fn every_stored_server_entry_is_migrated() {
    let mut entries = vec![
        obj(vec![("host", JsonField::Str("a.example".to_string()))]),
        obj(vec![
            ("url", JsonField::Str("b".to_string())),
            ("name", JsonField::Str("b".to_string())),
            ("version", JsonField::Str("ZZ".to_string())),
            ("isRemote", JsonField::Bool(true)),
        ]),
    ];
    assert!(migrate_endpoint_collection(&mut entries, true));
    assert_eq!(text(&entries[0], "url"), Some("a.example".to_string()));
    assert!(matches!(entries[0].get("isRemote"), Some(JsonField::Bool(true))));
    assert!(!migrate_endpoint_collection(&mut entries, true));
    let mut none: Vec<NamedEntries<JsonField<i32>>> = vec![];
    assert!(!migrate_endpoint_collection(&mut none, false));
}

fn empty_store(version: Option<&str>) -> ConfigStore<i32> {
    ConfigStore {
        config_version: version.map(|v| StoreValue::Text(v.to_string())),
        endpoints: None,
        remote_endpoints: None,
        current_endpoint: None,
        launcher_prefs: None,
        ui_prefs: None,
    }
}

#[test]
fn a_store_of_the_current_schema_is_left_alone() {
    let mut store = empty_store(Some(" 1.5.2 "));
    store.ui_prefs = Some(StoreValue::Object(obj(vec![])));
    assert!(!migrate_config_store(&mut store));
    match &store.ui_prefs {
        Some(StoreValue::Object(o)) => assert!(!o.contains("fontPreset")),
        _ => panic!("ui_prefs changed kind"),
    }
    assert!(matches!(&store.config_version, Some(StoreValue::Text(t)) if t == " 1.5.2 "));
}

#[test]
fn an_old_store_is_migrated_and_stamped() {
    let mut store = empty_store(Some("1.4.0"));
    store.endpoints = Some(StoreValue::List(vec![
        StoreItem::Object(obj(vec![("host", JsonField::Str(" a.example ".to_string()))])),
        StoreItem::Other(7),
    ]));
    store.remote_endpoints = Some(StoreValue::Other(3));
    store.current_endpoint = Some(StoreValue::Object(obj(vec![("url", JsonField::Str("b".to_string()))])));
    store.launcher_prefs = Some(StoreValue::Object(obj(vec![])));
    store.ui_prefs = Some(StoreValue::Object(obj(vec![])));
    assert!(migrate_config_store(&mut store));
    match &store.endpoints {
        Some(StoreValue::List(items)) => {
            assert_eq!(items.len(), 2);
            match &items[0] {
                StoreItem::Object(o) => {
                    assert_eq!(text(o, "url"), Some("a.example".to_string()));
                    assert!(matches!(o.get("isRemote"), Some(JsonField::Bool(false))));
                }
                StoreItem::Other(_) => panic!("object item lost"),
            }
            assert!(matches!(items[1], StoreItem::Other(7)));
        }
        _ => panic!("endpoints changed kind"),
    }
    assert!(matches!(store.remote_endpoints, Some(StoreValue::Other(3))));
    match &store.current_endpoint {
        Some(StoreValue::Object(o)) => assert_eq!(text(o, "name"), Some("b".to_string())),
        _ => panic!("current_endpoint changed kind"),
    }
    match &store.launcher_prefs {
        Some(StoreValue::Object(o)) => assert!(matches!(o.get("preloadControllerDlls"), Some(JsonField::Bool(false)))),
        _ => panic!("launcher_prefs changed kind"),
    }
    match &store.ui_prefs {
        Some(StoreValue::Object(o)) => assert!(matches!(o.get("sfxVolume"), Some(JsonField::Int(30)))),
        _ => panic!("ui_prefs changed kind"),
    }
    assert!(matches!(&store.config_version, Some(StoreValue::Text(t)) if t == "1.5.2"));
}

#[test]
fn a_store_without_a_version_is_migrated() {
    let mut store = empty_store(None);
    assert!(migrate_config_store(&mut store));
    assert!(matches!(&store.config_version, Some(StoreValue::Text(t)) if t == "1.5.2"));
    assert!(store.endpoints.is_none());
}
