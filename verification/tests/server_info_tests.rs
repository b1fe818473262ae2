use mezeporta::entries::NamedEntries;
use mezeporta::migrate::JsonField;
use mezeporta::server_info::{parse_server_version_payload, version_payload_field};

fn obj(fields: Vec<(&str, JsonField<String>)>) -> NamedEntries<JsonField<String>> {
    let mut o = NamedEntries::new();
    for (k, v) in fields {
        o.insert(k.to_string(), v);
    }
    o
}

#[test]
fn client_mode_and_name_are_read_and_trimmed() {
    let o = obj(vec![
        ("clientMode", JsonField::Str("  ZZ ".to_string())),
        ("name", JsonField::Str(" Frontier ".to_string())),
    ]);
    let info = parse_server_version_payload(&o).unwrap();
    assert_eq!(info.client_mode, "ZZ");
    assert_eq!(info.name, "Frontier");
}

#[test]
fn numbers_and_flags_give_their_text() {
    let o = obj(vec![("a", JsonField::Number("42".to_string()))]);
    assert_eq!(version_payload_field(&o, &["a"]), Some("42".to_string()));
    let o = obj(vec![("a", JsonField::Bool(false))]);
    assert_eq!(version_payload_field(&o, &["a"]), Some("false".to_string()));
    let o = obj(vec![("a", JsonField::Int(7))]);
    assert_eq!(version_payload_field(&o, &["a"]), Some("7".to_string()));
}

#[test]
fn blank_and_other_values_fall_through_to_later_keys() {
    let o = obj(vec![
        ("a", JsonField::Str("   ".to_string())),
        ("b", JsonField::Null),
        ("c", JsonField::Str("G10".to_string())),
    ]);
    assert_eq!(version_payload_field(&o, &["a", "b", "c"]), Some("G10".to_string()));
}

#[test]
fn a_missing_key_ends_the_search() {
    let o = obj(vec![("version", JsonField::Str("ZZ".to_string()))]);
    // "clientMode" is missing, so the later "version" key is never reached.
    assert!(parse_server_version_payload(&o).is_none());
    assert_eq!(version_payload_field(&o, &["missing", "version"]), None);
}

#[test]
fn the_name_defaults_to_empty() {
    let o = obj(vec![("clientMode", JsonField::Str("F5".to_string()))]);
    let info = parse_server_version_payload(&o).unwrap();
    assert_eq!(info.client_mode, "F5");
    assert_eq!(info.name, "");
}
