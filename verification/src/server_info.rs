//! What a server says of itself: its name and the client mode it expects,
//! read from the JSON object its version endpoint answers with.
use vstd::prelude::*;

use crate::migrate::{fields_of, JsonField, JsonObject, JsonView};
use crate::text::{decimal, decimal_string, str_chars, string_from_chars, trim_chars, trim_spec};

verus! {

/// A server's name and client mode.
#[derive(Debug)]
pub struct ServerVersionInfoPayload {
    pub name: String,
    pub client_mode: String,
}

/// The text a field gives: trimmed text, a number as written, `true` or
/// `false`; no text for other values.
pub open spec fn payload_text(v: JsonView<String>) -> Option<Seq<char>> {
    match v {
        JsonView::Str(s) => Some(trim_spec(s)),
        JsonView::Number(t) => Some(t@),
        JsonView::Int(n) => Some(decimal(n as nat)),
        JsonView::Bool(b) => Some(if b { "true"@ } else { "false"@ }),
        _ => None,
    }
}

/// The first non-empty text among the fields `keys`, tried in order; a key
/// that is missing ends the search with nothing.
pub open spec fn payload_field_spec(m: Map<Seq<char>, JsonView<String>>, keys: Seq<Seq<char>>) -> Option<
    Seq<char>,
>
    decreases keys.len(),
{
    if keys.len() == 0 {
        None
    } else if !m.contains_key(keys[0]) {
        None
    } else {
        let t = payload_text(m[keys[0]]);
        if t is Some && t->0.len() > 0 {
            t
        } else {
            payload_field_spec(m, keys.drop_first())
        }
    }
}

/// The views of a list of keys.
pub open spec fn key_views(keys: Seq<&str>) -> Seq<Seq<char>> {
    keys.map_values(|k: &str| k@)
}

/// The text `field` gives, as `payload_text` says.
fn field_text(field: &JsonField<String>) -> (r: Option<String>)
    ensures
        match r {
            Some(s) => payload_text(field@) == Some(s@),
            None => payload_text(field@) is None,
        },
{
    match field {
        JsonField::Str(s) => {
            let chars = str_chars(s.as_str());
            let t = trim_chars(chars.as_slice());
            Some(string_from_chars(t.as_slice()))
        },
        JsonField::Number(t) => Some(t.clone()),
        JsonField::Int(n) => Some(decimal_string(*n as u128)),
        JsonField::Bool(b) => {
            if *b {
                Some("true".to_string())
            } else {
                Some("false".to_string())
            }
        },
        _ => None,
    }
}

/// The first non-empty text among the fields `keys` of `payload`, in order;
/// `None` once a key is missing or when none gives text.
pub fn version_payload_field(payload: &JsonObject<String>, keys: &[&str]) -> (r: Option<String>)
    requires
        payload.unique(),
    ensures
        match r {
            Some(s) => payload_field_spec(fields_of(*payload), key_views(keys@)) == Some(s@),
            None => payload_field_spec(fields_of(*payload), key_views(keys@)) is None,
        },
{
    let ghost m = fields_of(*payload);
    let ghost ks = key_views(keys@);
    assert(ks.subrange(0, ks.len() as int) =~= ks);
    let mut i: usize = 0;
    while i < keys.len()
        invariant
            i <= keys.len(),
            payload.unique(),
            m == fields_of(*payload),
            ks == key_views(keys@),
            payload_field_spec(m, ks) == payload_field_spec(m, ks.subrange(i as int, ks.len() as int)),
        decreases keys.len() - i,
    {
        let ghost rest = ks.subrange(i as int, ks.len() as int);
        assert(rest.drop_first() =~= ks.subrange(i + 1, ks.len() as int));
        assert(rest[0] == keys@[i as int]@);
        let key: &str = keys[i];
        match payload.get(key) {
            None => {
                return None;
            },
            Some(field) => {
                assert(m[key@] == field@);
                let text = field_text(field);
                match text {
                    Some(t) => {
                        if !t.as_str().is_empty() {
                            return Some(t);
                        }
                    },
                    None => {},
                }
            },
        }
        i = i + 1;
    }
    assert(ks.subrange(i as int, ks.len() as int) =~= Seq::<Seq<char>>::empty());
    None
}

/// The name and client mode that `payload` gives: `None` without a client
/// mode; the name is empty where none is given.
pub fn parse_server_version_payload(payload: &JsonObject<String>) -> (r: Option<ServerVersionInfoPayload>)
    requires
        payload.unique(),
    ensures
        ({
            let m = fields_of(*payload);
            let mode_keys = seq![
                "clientMode"@,
                "client_mode"@,
                "clientModeId"@,
                "clientModeID"@,
                "client_mode_id"@,
                "ClientModeId"@,
                "ClientModeID"@,
                "version"@,
                "Version"@,
            ];
            let name_keys = seq!["name"@, "Name"@];
            match r {
                Some(info) => payload_field_spec(m, mode_keys) == Some(info.client_mode@) && info.name@
                    == match payload_field_spec(m, name_keys) {
                    Some(n) => n,
                    None => Seq::<char>::empty(),
                },
                None => payload_field_spec(m, mode_keys) is None,
            }
        }),
{
    let mode_keys: [&str; 9] = [
        "clientMode",
        "client_mode",
        "clientModeId",
        "clientModeID",
        "client_mode_id",
        "ClientModeId",
        "ClientModeID",
        "version",
        "Version",
    ];
    let name_keys: [&str; 2] = ["name", "Name"];
    assert(key_views(mode_keys@) =~= seq![
        "clientMode"@,
        "client_mode"@,
        "clientModeId"@,
        "clientModeID"@,
        "client_mode_id"@,
        "ClientModeId"@,
        "ClientModeID"@,
        "version"@,
        "Version"@,
    ]);
    assert(key_views(name_keys@) =~= seq!["name"@, "Name"@]);
    let client_mode = match version_payload_field(payload, mode_keys.as_slice()) {
        Some(mode) => mode,
        None => {
            return None;
        },
    };
    let name = match version_payload_field(payload, name_keys.as_slice()) {
        Some(n) => n,
        None => String::new(),
    };
    Some(ServerVersionInfoPayload { name, client_mode })
}

} // verus!
