//! Bringing a stored launcher configuration up to the current schema: server
//! entries get their address, name, ports, game folder, version and side in
//! the current shape; the launcher and interface preferences get their
//! current keys and normalised values.
use vstd::prelude::*;

use crate::entries::NamedEntries;
use crate::launcher::{
    friend_signature_spec, normalize_friend_signature, normalize_wine_prefix_custom_path,
    normalize_wine_prefix_mode, wine_prefix_mode_spec,
};
use crate::text::{lemma_trim_idempotent, parse_uint_spec, parse_usize, str_chars, str_eq, string_from_chars, trim_chars, trim_spec};

verus! {

/// The configuration schema the launcher writes.
pub const CONFIG_VERSION: &'static str = "1.5.2";

/// A JSON value as the migration sees it: the kinds it reads and writes,
/// with numbers and other values read from the store carried as they are.
#[derive(Debug)]
pub enum JsonField<V> {
    Null,
    Bool(bool),
    Str(String),
    /// A whole number the migration writes.
    Int(u64),
    /// A number read from the store.
    Number(V),
    /// An empty list the migration writes.
    EmptyArray,
    /// Any other value read from the store.
    Other(V),
}

/// A JSON value with its text as a sequence.
pub enum JsonView<V> {
    Null,
    Bool(bool),
    Str(Seq<char>),
    Int(u64),
    Number(V),
    EmptyArray,
    Other(V),
}

impl<V> View for JsonField<V> {
    type V = JsonView<V>;

    open spec fn view(&self) -> JsonView<V> {
        match self {
            JsonField::Null => JsonView::Null,
            JsonField::Bool(b) => JsonView::Bool(*b),
            JsonField::Str(s) => JsonView::Str(s@),
            JsonField::Int(n) => JsonView::Int(*n),
            JsonField::Number(v) => JsonView::Number(*v),
            JsonField::EmptyArray => JsonView::EmptyArray,
            JsonField::Other(v) => JsonView::Other(*v),
        }
    }
}

/// A JSON object: its fields by name.
pub type JsonObject<V> = NamedEntries<JsonField<V>>;

/// The fields of a JSON object, as views.
pub open spec fn fields_of<V>(o: JsonObject<V>) -> Map<Seq<char>, JsonView<V>> {
    o.fields().map_values(|f: JsonField<V>| f@)
}

/// The text of the field `key`, when it holds text.
pub open spec fn text_at<V>(m: Map<Seq<char>, JsonView<V>>, key: Seq<char>) -> Option<Seq<char>> {
    if m.contains_key(key) {
        match m[key] {
            JsonView::Str(s) => Some(s),
            _ => None,
        }
    } else {
        None
    }
}

/// Whether the field `key` is missing, not text, or blank text.
pub open spec fn blank_at<V>(m: Map<Seq<char>, JsonView<V>>, key: Seq<char>) -> bool {
    match text_at(m, key) {
        Some(s) => trim_spec(s).len() == 0,
        None => true,
    }
}

/// An endpoint without an address takes its old "host", when that holds
/// text that is not blank.
pub open spec fn url_from_host<V>(m: Map<Seq<char>, JsonView<V>>) -> (Map<Seq<char>, JsonView<V>>, bool) {
    if blank_at(m, "url"@) && text_at(m, "host"@) is Some && trim_spec(
        text_at(m, "host"@).unwrap(),
    ).len() != 0 {
        (m.insert("url"@, JsonView::Str(trim_spec(text_at(m, "host"@).unwrap()))), true)
    } else {
        (m, false)
    }
}

/// An address with surrounding whitespace is trimmed.
pub open spec fn url_trimmed<V>(m: Map<Seq<char>, JsonView<V>>) -> (Map<Seq<char>, JsonView<V>>, bool) {
    match text_at(m, "url"@) {
        Some(u) => if trim_spec(u) != u {
            (m.insert("url"@, JsonView::Str(trim_spec(u))), true)
        } else {
            (m, false)
        },
        None => (m, false),
    }
}

/// An endpoint without a name is named after its address, when that holds
/// text that is not blank.
pub open spec fn name_from_url<V>(m: Map<Seq<char>, JsonView<V>>) -> (Map<Seq<char>, JsonView<V>>, bool) {
    if blank_at(m, "name"@) && text_at(m, "url"@) is Some && trim_spec(
        text_at(m, "url"@).unwrap(),
    ).len() != 0 {
        (m.insert("name"@, JsonView::Str(trim_spec(text_at(m, "url"@).unwrap()))), true)
    } else {
        (m, false)
    }
}

/// A port field in the current shape: null and numbers stay; a text that
/// is a port number becomes that number; anything else becomes null.
pub open spec fn port_normalized<V>(m: Map<Seq<char>, JsonView<V>>, key: Seq<char>) -> (
    Map<Seq<char>, JsonView<V>>,
    bool,
) {
    if !m.contains_key(key) {
        (m.insert(key, JsonView::Null), true)
    } else {
        match m[key] {
            JsonView::Null => (m, false),
            JsonView::Number(_) => (m, false),
            JsonView::Int(_) => (m, false),
            JsonView::Str(t) => if trim_spec(t).len() == 0 {
                (m.insert(key, JsonView::Null), true)
            } else {
                match parse_uint_spec(trim_spec(t), 65535) {
                    Some(n) => (m.insert(key, JsonView::Int(n as u64)), true),
                    None => (m.insert(key, JsonView::Null), true),
                }
            },
            _ => (m.insert(key, JsonView::Null), true),
        }
    }
}

/// An endpoint without a game folder takes its old "gamePath", or null.
pub open spec fn game_folder_moved<V>(m: Map<Seq<char>, JsonView<V>>) -> (Map<Seq<char>, JsonView<V>>, bool) {
    if m.contains_key("gameFolder"@) {
        (m, false)
    } else if m.contains_key("gamePath"@) {
        (m.remove("gamePath"@).insert("gameFolder"@, m["gamePath"@]), true)
    } else {
        (m.insert("gameFolder"@, JsonView::Null), true)
    }
}

/// An endpoint without a version (text that is not blank) is for ZZ.
pub open spec fn version_defaulted<V>(m: Map<Seq<char>, JsonView<V>>) -> (Map<Seq<char>, JsonView<V>>, bool) {
    if blank_at(m, "version"@) {
        (m.insert("version"@, JsonView::Str("ZZ"@)), true)
    } else {
        (m, false)
    }
}

/// An endpoint without a side takes the list's.
pub open spec fn side_defaulted<V>(m: Map<Seq<char>, JsonView<V>>, is_remote: bool) -> (
    Map<Seq<char>, JsonView<V>>,
    bool,
) {
    if m.contains_key("isRemote"@) {
        (m, false)
    } else {
        (m.insert("isRemote"@, JsonView::Bool(is_remote)), true)
    }
}

/// The old "legacy" marker goes.
pub open spec fn legacy_dropped<V>(m: Map<Seq<char>, JsonView<V>>) -> (Map<Seq<char>, JsonView<V>>, bool) {
    if m.contains_key("legacy"@) {
        (m.remove("legacy"@), true)
    } else {
        (m, false)
    }
}

/// A stored endpoint in the current shape, and whether anything changed:
/// each step above, in order.
pub open spec fn endpoint_shape_spec<V>(m0: Map<Seq<char>, JsonView<V>>, is_remote: bool) -> (
    Map<Seq<char>, JsonView<V>>,
    bool,
) {
    let (m1, c1) = url_from_host(m0);
    let (m2, c2) = url_trimmed(m1);
    let (m3, c3) = name_from_url(m2);
    let (m4, c4) = port_normalized(m3, "launcherPort"@);
    let (m5, c5) = port_normalized(m4, "gamePort"@);
    let (m6, c6) = game_folder_moved(m5);
    let (m7, c7) = version_defaulted(m6);
    let (m8, c8) = side_defaulted(m7, is_remote);
    let (m9, c9) = legacy_dropped(m8);
    (m9, c1 || c2 || c3 || c4 || c5 || c6 || c7 || c8 || c9)
}

/// The text of the field `key` of `obj`, when it holds text.
fn text_field<V>(obj: &JsonObject<V>, key: &str) -> (r: Option<String>)
    requires
        obj.unique(),
    ensures
        match r {
            Some(s) => text_at(fields_of(*obj), key@) == Some(s@),
            None => text_at(fields_of(*obj), key@) is None,
        },
{
    match obj.get(key) {
        Some(JsonField::Str(s)) => Some(s.clone()),
        _ => None,
    }
}

/// `s` trimmed.
fn trimmed(s: &str) -> (r: String)
    ensures
        r@ == trim_spec(s@),
{
    let chars = str_chars(s);
    let t = trim_chars(chars.as_slice());
    string_from_chars(t.as_slice())
}

/// Stores `value` under `key`.
fn put<V>(obj: &mut JsonObject<V>, key: &str, value: JsonField<V>)
    requires
        old(obj).unique(),
    ensures
        final(obj).unique(),
        fields_of(*final(obj)) == fields_of(*old(obj)).insert(key@, value@),
{
    let ghost v = value@;
    obj.insert(key.to_string(), value);
    assert(fields_of(*obj) =~= fields_of(*old(obj)).insert(key@, v));
}

/// Brings one port field into the current shape.
fn normalize_port<V>(obj: &mut JsonObject<V>, key: &str) -> (changed: bool)
    requires
        old(obj).unique(),
    ensures
        final(obj).unique(),
        (fields_of(*final(obj)), changed) == port_normalized(fields_of(*old(obj)), key@),
{
    let ghost m = fields_of(*obj);
    let kind: u8 = match obj.get(key) {
        None => 0,
        Some(JsonField::Null) => 1,
        Some(JsonField::Number(_)) => 1,
        Some(JsonField::Int(_)) => 1,
        Some(JsonField::Str(_)) => 2,
        Some(_) => 0,
    };
    if kind == 1 {
        return false;
    }
    if kind == 0 {
        put(obj, key, JsonField::Null);
        return true;
    }
    let text = match text_field(obj, key) {
        Some(t) => t,
        None => {
            return false;
        },
    };
    let t = trimmed(text.as_str());
    if t.as_str().unicode_len() == 0 {
        put(obj, key, JsonField::Null);
        return true;
    }
    match parse_usize(t.as_str()) {
        Some(n) => if n <= 65535 {
            put(obj, key, JsonField::Int(n as u64));
        } else {
            put(obj, key, JsonField::Null);
        },
        None => {
            put(obj, key, JsonField::Null);
        },
    }
    true
}

/// Gives an endpoint without an address its old host.
fn step_url_from_host<V>(obj: &mut JsonObject<V>) -> (changed: bool)
    requires
        old(obj).unique(),
    ensures
        final(obj).unique(),
        (fields_of(*final(obj)), changed) == url_from_host(fields_of(*old(obj))),
{
    let url_blank = match text_field(obj, "url") {
        Some(u) => trimmed(u.as_str()).as_str().unicode_len() == 0,
        None => true,
    };
    if url_blank {
        if let Some(h) = text_field(obj, "host") {
            let ht = trimmed(h.as_str());
            if ht.as_str().unicode_len() != 0 {
                put(obj, "url", JsonField::Str(ht));
                return true;
            }
        }
    }
    false
}

/// Trims the address.
fn step_url_trimmed<V>(obj: &mut JsonObject<V>) -> (changed: bool)
    requires
        old(obj).unique(),
    ensures
        final(obj).unique(),
        (fields_of(*final(obj)), changed) == url_trimmed(fields_of(*old(obj))),
{
    if let Some(u) = text_field(obj, "url") {
        let t = trimmed(u.as_str());
        if !str_eq(t.as_str(), u.as_str()) {
            put(obj, "url", JsonField::Str(t));
            return true;
        }
    }
    false
}

/// Names an endpoint without a name after its address.
fn step_name_from_url<V>(obj: &mut JsonObject<V>) -> (changed: bool)
    requires
        old(obj).unique(),
    ensures
        final(obj).unique(),
        (fields_of(*final(obj)), changed) == name_from_url(fields_of(*old(obj))),
{
    let name_blank = match text_field(obj, "name") {
        Some(n) => trimmed(n.as_str()).as_str().unicode_len() == 0,
        None => true,
    };
    if name_blank {
        if let Some(u) = text_field(obj, "url") {
            let ut = trimmed(u.as_str());
            if ut.as_str().unicode_len() != 0 {
                put(obj, "name", JsonField::Str(ut));
                return true;
            }
        }
    }
    false
}

/// Moves the old game path to the game folder, or sets it to null.
fn step_game_folder<V>(obj: &mut JsonObject<V>) -> (changed: bool)
    requires
        old(obj).unique(),
    ensures
        final(obj).unique(),
        (fields_of(*final(obj)), changed) == game_folder_moved(fields_of(*old(obj))),
{
    if obj.contains("gameFolder") {
        return false;
    }
    let ghost m = fields_of(*obj);
    match obj.take("gamePath") {
        Some(p) => {
            assert(fields_of(*obj) =~= m.remove("gamePath"@));
            let ghost pv = p@;
            put(obj, "gameFolder", p);
            assert(pv == m["gamePath"@]);
        },
        None => {
            assert(fields_of(*obj) =~= m);
            put(obj, "gameFolder", JsonField::Null);
        },
    }
    true
}

/// Sets the version of an endpoint without one to ZZ.
fn step_version<V>(obj: &mut JsonObject<V>) -> (changed: bool)
    requires
        old(obj).unique(),
    ensures
        final(obj).unique(),
        (fields_of(*final(obj)), changed) == version_defaulted(fields_of(*old(obj))),
{
    let blank = match text_field(obj, "version") {
        Some(v) => trimmed(v.as_str()).as_str().unicode_len() == 0,
        None => true,
    };
    if blank {
        put(obj, "version", JsonField::Str("ZZ".to_string()));
        return true;
    }
    false
}

/// Gives an endpoint without a side the list's side.
fn step_side<V>(obj: &mut JsonObject<V>, is_remote: bool) -> (changed: bool)
    requires
        old(obj).unique(),
    ensures
        final(obj).unique(),
        (fields_of(*final(obj)), changed) == side_defaulted(fields_of(*old(obj)), is_remote),
{
    if obj.contains("isRemote") {
        return false;
    }
    put(obj, "isRemote", JsonField::Bool(is_remote));
    true
}

/// Drops the old legacy marker.
fn step_legacy<V>(obj: &mut JsonObject<V>) -> (changed: bool)
    requires
        old(obj).unique(),
    ensures
        final(obj).unique(),
        (fields_of(*final(obj)), changed) == legacy_dropped(fields_of(*old(obj))),
{
    let ghost m = fields_of(*obj);
    match obj.take("legacy") {
        Some(_) => {
            assert(fields_of(*obj) =~= m.remove("legacy"@));
            true
        },
        None => {
            assert(fields_of(*obj) =~= m);
            false
        },
    }
}

/// Brings a stored endpoint into the current shape; `is_remote` is the
/// side of the list it is kept in.  Returns whether anything changed.
pub fn ensure_endpoint_shape<V>(obj: &mut JsonObject<V>, is_remote: bool) -> (changed: bool)
    requires
        old(obj).unique(),
    ensures
        final(obj).unique(),
        (fields_of(*final(obj)), changed) == endpoint_shape_spec(fields_of(*old(obj)), is_remote),
{
    let c1 = step_url_from_host(obj);
    let c2 = step_url_trimmed(obj);
    let c3 = step_name_from_url(obj);
    let c4 = normalize_port(obj, "launcherPort");
    let c5 = normalize_port(obj, "gamePort");
    let c6 = step_game_folder(obj);
    let c7 = step_version(obj);
    let c8 = step_side(obj, is_remote);
    let c9 = step_legacy(obj);
    c1 || c2 || c3 || c4 || c5 || c6 || c7 || c8 || c9
}


/// Brings every server entry of a stored list to the current shape;
/// whether any entry changed.
pub fn migrate_endpoint_collection<V>(entries: &mut Vec<JsonObject<V>>, is_remote: bool) -> (changed: bool)
    requires
        forall|k: int| 0 <= k < old(entries)@.len() ==> (#[trigger] old(entries)@[k]).unique(),
    ensures
        final(entries)@.len() == old(entries)@.len(),
        forall|k: int|
            0 <= k < final(entries)@.len() ==> (#[trigger] final(entries)@[k]).unique() && fields_of(final(entries)@[k])
                == endpoint_shape_spec(fields_of(old(entries)@[k]), is_remote).0,
        changed == exists|k: int|
            0 <= k < old(entries)@.len() && #[trigger] endpoint_shape_spec(fields_of(old(entries)@[k]), is_remote).1,
{
    let ghost start = entries@;
    let mut changed = false;
    let mut i: usize = 0;
    while i < entries.len()
        invariant
            i <= entries@.len(),
            entries@.len() == start.len(),
            forall|k: int| 0 <= k < entries@.len() ==> (#[trigger] entries@[k]).unique(),
            forall|k: int|
                0 <= k < i ==> fields_of(#[trigger] entries@[k]) == endpoint_shape_spec(fields_of(start[k]), is_remote).0,
            forall|k: int| i <= k < entries@.len() ==> #[trigger] entries@[k] == start[k],
            changed == exists|k: int| 0 <= k < i && #[trigger] endpoint_shape_spec(fields_of(start[k]), is_remote).1,
        decreases entries@.len() - i,
    {
        let ghost before = entries@;
        let mut entry = entries.remove(i);
        assert(entry == start[i as int]);
        let c = ensure_endpoint_shape(&mut entry, is_remote);
        entries.insert(i, entry);
        assert(entries@ =~= before.update(i as int, entries@[i as int]));
        proof {
            if c {
                assert(endpoint_shape_spec(fields_of(start[i as int]), is_remote).1);
            }
            if !c && changed {
                let k = choose|k: int| 0 <= k < i && #[trigger] endpoint_shape_spec(fields_of(start[k]), is_remote).1;
                assert(0 <= k < i + 1);
            }
        }
        changed = changed || c;
        i = i + 1;
    }
    changed
}

/// The preference `key` under its current name: when missing, the value
/// under its old name `old_key` normalised by `norm` (when that is text),
/// else `default`; when present as text, normalised in place.
pub open spec fn pref_text_migrated<V>(
    m: Map<Seq<char>, JsonView<V>>,
    key: Seq<char>,
    old_key: Seq<char>,
    norm: spec_fn(Seq<char>) -> Seq<char>,
    default: Seq<char>,
) -> (Map<Seq<char>, JsonView<V>>, bool) {
    if !m.contains_key(key) {
        let value = match text_at(m, old_key) {
            Some(t) => norm(t),
            None => default,
        };
        (m.remove(old_key).insert(key, JsonView::Str(value)), true)
    } else {
        match text_at(m, key) {
            Some(cur) => if norm(cur) != cur {
                (m.insert(key, JsonView::Str(norm(cur))), true)
            } else {
                (m, false)
            },
            None => (m, false),
        }
    }
}

/// The custom Wine prefix path as JSON: trimmed text, or null when blank
/// or not given.
pub open spec fn custom_path_value<V>(t: Option<Seq<char>>) -> JsonView<V> {
    match t {
        Some(s) => if trim_spec(s).len() == 0 {
            JsonView::Null
        } else {
            JsonView::Str(trim_spec(s))
        },
        None => JsonView::Null,
    }
}

/// The launcher preferences in the current shape: the controller-DLL flag,
/// the version signature, the Wine prefix mode and its custom path under
/// their current names with normalised values.
pub open spec fn launcher_prefs_spec<V>(m0: Map<Seq<char>, JsonView<V>>) -> (Map<Seq<char>, JsonView<V>>, bool) {
    let (m1, c1) = if m0.contains_key("preloadControllerDlls"@) {
        (m0, false)
    } else {
        let v = if m0.contains_key("preload_controller_dlls"@) {
            m0["preload_controller_dlls"@]
        } else {
            JsonView::Bool(false)
        };
        (m0.remove("preload_controller_dlls"@).insert("preloadControllerDlls"@, v), true)
    };
    let (m2, c2) = pref_text_migrated(
        m1,
        "friendSignature"@,
        "friend_signature"@,
        |t: Seq<char>| friend_signature_spec(t),
        "none"@,
    );
    let (m3, c3) = pref_text_migrated(
        m2,
        "winePrefixMode"@,
        "wine_prefix_mode"@,
        |t: Seq<char>| wine_prefix_mode_spec(t),
        "portable"@,
    );
    let (m4, c4) = if !m3.contains_key("winePrefixCustomPath"@) {
        (
            m3.remove("wine_prefix_custom_path"@).insert(
                "winePrefixCustomPath"@,
                custom_path_value(text_at(m3, "wine_prefix_custom_path"@)),
            ),
            true,
        )
    } else {
        let next = custom_path_value::<V>(text_at(m3, "winePrefixCustomPath"@));
        if m3["winePrefixCustomPath"@] != next {
            (m3.insert("winePrefixCustomPath"@, next), true)
        } else {
            (m3, false)
        }
    };
    (m4, c1 || c2 || c3 || c4)
}

/// Takes out the text under `key`, if it is text (the field goes either way).
fn take_text<V>(obj: &mut JsonObject<V>, key: &str) -> (r: Option<String>)
    requires
        old(obj).unique(),
    ensures
        final(obj).unique(),
        fields_of(*final(obj)) == fields_of(*old(obj)).remove(key@),
        match r {
            Some(s) => text_at(fields_of(*old(obj)), key@) == Some(s@),
            None => text_at(fields_of(*old(obj)), key@) is None,
        },
{
    let ghost m = fields_of(*obj);
    let r = match obj.take(key) {
        Some(JsonField::Str(s)) => Some(s),
        _ => None,
    };
    assert(fields_of(*obj) =~= m.remove(key@));
    r
}

/// Brings the version signature preference into the current shape.
fn step_friend_signature<V>(obj: &mut JsonObject<V>) -> (changed: bool)
    requires
        old(obj).unique(),
    ensures
        final(obj).unique(),
        (fields_of(*final(obj)), changed) == pref_text_migrated(
            fields_of(*old(obj)),
            "friendSignature"@,
            "friend_signature"@,
            |t: Seq<char>| friend_signature_spec(t),
            "none"@,
        ),
{
    if !obj.contains("friendSignature") {
        let value = match take_text(obj, "friend_signature") {
            Some(t) => normalize_friend_signature(t.as_str()),
            None => "none".to_string(),
        };
        put(obj, "friendSignature", JsonField::Str(value));
        return true;
    }
    if let Some(cur) = text_field(obj, "friendSignature") {
        let n = normalize_friend_signature(cur.as_str());
        if !str_eq(n.as_str(), cur.as_str()) {
            put(obj, "friendSignature", JsonField::Str(n));
            return true;
        }
    }
    false
}

/// Brings the Wine prefix mode preference into the current shape.
fn step_wine_mode<V>(obj: &mut JsonObject<V>) -> (changed: bool)
    requires
        old(obj).unique(),
    ensures
        final(obj).unique(),
        (fields_of(*final(obj)), changed) == pref_text_migrated(
            fields_of(*old(obj)),
            "winePrefixMode"@,
            "wine_prefix_mode"@,
            |t: Seq<char>| wine_prefix_mode_spec(t),
            "portable"@,
        ),
{
    if !obj.contains("winePrefixMode") {
        let value = match take_text(obj, "wine_prefix_mode") {
            Some(t) => normalize_wine_prefix_mode(t.as_str()),
            None => "portable".to_string(),
        };
        put(obj, "winePrefixMode", JsonField::Str(value));
        return true;
    }
    if let Some(cur) = text_field(obj, "winePrefixMode") {
        let n = normalize_wine_prefix_mode(cur.as_str());
        if !str_eq(n.as_str(), cur.as_str()) {
            put(obj, "winePrefixMode", JsonField::Str(n));
            return true;
        }
    }
    false
}

/// The custom path as a JSON value.
fn custom_path_field<V>(t: Option<String>) -> (r: JsonField<V>)
    ensures
        r@ == custom_path_value::<V>(
            match t {
                Some(s) => Some(s@),
                None => None,
            },
        ),
{
    let text = match &t {
        Some(s) => Some(s.as_str()),
        None => None,
    };
    match normalize_wine_prefix_custom_path(text) {
        Some(p) => JsonField::Str(p),
        None => JsonField::Null,
    }
}

/// Whether two values the custom path can take are the same.
fn same_custom_path<V>(current: &JsonField<V>, next: &JsonField<V>) -> (b: bool)
    requires
        next@ is Null || next@ is Str,
    ensures
        b == (current@ == next@),
{
    match (current, next) {
        (JsonField::Null, JsonField::Null) => true,
        (JsonField::Str(a), JsonField::Str(b)) => str_eq(a.as_str(), b.as_str()),
        _ => false,
    }
}

/// Brings the custom Wine prefix path into the current shape.
fn step_custom_path<V>(obj: &mut JsonObject<V>) -> (changed: bool)
    requires
        old(obj).unique(),
    ensures
        final(obj).unique(),
        ({
            let m3 = fields_of(*old(obj));
            (fields_of(*final(obj)), changed) == if !m3.contains_key("winePrefixCustomPath"@) {
                (
                    m3.remove("wine_prefix_custom_path"@).insert(
                        "winePrefixCustomPath"@,
                        custom_path_value(text_at(m3, "wine_prefix_custom_path"@)),
                    ),
                    true,
                )
            } else {
                let next = custom_path_value::<V>(text_at(m3, "winePrefixCustomPath"@));
                if m3["winePrefixCustomPath"@] != next {
                    (m3.insert("winePrefixCustomPath"@, next), true)
                } else {
                    (m3, false)
                }
            }
        }),
{
    if !obj.contains("winePrefixCustomPath") {
        let t = take_text(obj, "wine_prefix_custom_path");
        let v = custom_path_field(t);
        put(obj, "winePrefixCustomPath", v);
        return true;
    }
    let next: JsonField<V> = custom_path_field(text_field(obj, "winePrefixCustomPath"));
    let same = match obj.get("winePrefixCustomPath") {
        Some(cur) => same_custom_path(cur, &next),
        None => false,
    };
    if !same {
        put(obj, "winePrefixCustomPath", next);
        return true;
    }
    false
}

/// Brings the launcher preferences into the current shape.  Returns
/// whether anything changed.
pub fn migrate_launcher_prefs<V>(obj: &mut JsonObject<V>) -> (changed: bool)
    requires
        old(obj).unique(),
    ensures
        final(obj).unique(),
        (fields_of(*final(obj)), changed) == launcher_prefs_spec(fields_of(*old(obj))),
{
    let ghost m0 = fields_of(*obj);
    let c1 = if obj.contains("preloadControllerDlls") {
        false
    } else {
        let v = match obj.take("preload_controller_dlls") {
            Some(v) => v,
            None => JsonField::Bool(false),
        };
        assert(fields_of(*obj) =~= m0.remove("preload_controller_dlls"@));
        put(obj, "preloadControllerDlls", v);
        true
    };
    let c2 = step_friend_signature(obj);
    let c3 = step_wine_mode(obj);
    let c4 = step_custom_path(obj);
    c1 || c2 || c3 || c4
}


/// `m` with `value` under `key` when nothing is there, and whether it was
/// added.
pub open spec fn with_default<V>(m: Map<Seq<char>, JsonView<V>>, key: Seq<char>, value: JsonView<V>) -> (
    Map<Seq<char>, JsonView<V>>,
    bool,
) {
    if m.contains_key(key) {
        (m, false)
    } else {
        (m.insert(key, value), true)
    }
}

/// The interface preferences in the current shape: each preference that is
/// missing gets its default.
pub open spec fn ui_prefs_spec<V>(m0: Map<Seq<char>, JsonView<V>>) -> (Map<Seq<char>, JsonView<V>>, bool) {
    let (m1, c1) = with_default(m0, "fontPreset"@, JsonView::Str("default"@));
    let (m2, c2) = with_default(m1, "sfxVolume"@, JsonView::Int(30));
    let (m3, c3) = with_default(m2, "gameVersion"@, JsonView::Str("ZZ"@));
    let (m4, c4) = with_default(m3, "forceGameVersion"@, JsonView::Bool(false));
    let (m5, c5) = with_default(m4, "devMode"@, JsonView::Bool(false));
    let (m6, c6) = with_default(m5, "serverVersionPromptDisabled"@, JsonView::Bool(false));
    let (m7, c7) = with_default(m6, "launcherController"@, JsonView::Bool(true));
    let (m8, c8) = with_default(m7, "linuxHardwareAcceleration"@, JsonView::Bool(true));
    let (m9, c9) = with_default(m8, "offlineImages"@, JsonView::Bool(false));
    let (m10, c10) = with_default(m9, "classicLauncherRecentResolutions"@, JsonView::EmptyArray);
    let (m11, c11) = with_default(m10, "classicLauncherCustomResolution"@, JsonView::Bool(false));
    let (m12, c12) = with_default(m11, "ps4LauncherRecentResolutions"@, JsonView::EmptyArray);
    let (m13, c13) = with_default(m12, "ps4LauncherCustomResolution"@, JsonView::Bool(false));
    (m13, c1 || c2 || c3 || c4 || c5 || c6 || c7 || c8 || c9 || c10 || c11 || c12 || c13)
}

/// Stores `value` under `key` when nothing is there.
fn default_field<V>(obj: &mut JsonObject<V>, key: &str, value: JsonField<V>) -> (added: bool)
    requires
        old(obj).unique(),
    ensures
        final(obj).unique(),
        (fields_of(*final(obj)), added) == with_default(fields_of(*old(obj)), key@, value@),
{
    if obj.contains(key) {
        return false;
    }
    put(obj, key, value);
    true
}

/// Brings the interface preferences into the current shape.  Returns
/// whether anything changed.
pub fn migrate_ui_prefs<V>(obj: &mut JsonObject<V>) -> (changed: bool)
    requires
        old(obj).unique(),
    ensures
        final(obj).unique(),
        (fields_of(*final(obj)), changed) == ui_prefs_spec(fields_of(*old(obj))),
{
    let c1 = default_field(obj, "fontPreset", JsonField::Str("default".to_string()));
    let c2 = default_field(obj, "sfxVolume", JsonField::Int(30));
    let c3 = default_field(obj, "gameVersion", JsonField::Str("ZZ".to_string()));
    let c4 = default_field(obj, "forceGameVersion", JsonField::Bool(false));
    let c5 = default_field(obj, "devMode", JsonField::Bool(false));
    let c6 = default_field(obj, "serverVersionPromptDisabled", JsonField::Bool(false));
    let c7 = default_field(obj, "launcherController", JsonField::Bool(true));
    let c8 = default_field(obj, "linuxHardwareAcceleration", JsonField::Bool(true));
    let c9 = default_field(obj, "offlineImages", JsonField::Bool(false));
    let c10 = default_field(obj, "classicLauncherRecentResolutions", JsonField::EmptyArray);
    let c11 = default_field(obj, "classicLauncherCustomResolution", JsonField::Bool(false));
    let c12 = default_field(obj, "ps4LauncherRecentResolutions", JsonField::EmptyArray);
    let c13 = default_field(obj, "ps4LauncherCustomResolution", JsonField::Bool(false));
    c1 || c2 || c3 || c4 || c5 || c6 || c7 || c8 || c9 || c10 || c11 || c12 || c13
}

/// Whether a stored configuration is of the current schema: its
/// "config_version", when text, trimmed, is the current version (a missing
/// one never is).
pub fn config_is_current(version: Option<&str>) -> (b: bool)
    ensures
        b == (match version {
            Some(v) => trim_spec(v@) == CONFIG_VERSION@,
            None => false,
        }),
{
    match version {
        Some(v) => {
            let t = trimmed(v);
            str_eq(t.as_str(), CONFIG_VERSION)
        },
        None => false,
    }
}


/// An item of a list kept in the configuration store: an object, or any
/// other value, carried as it is.
pub enum StoreItem<V> {
    Object(JsonObject<V>),
    Other(V),
}

/// A value kept under one key of the configuration store, as far as the
/// migration reads it: an object, a list, text, or any other value.
pub enum StoreValue<V> {
    Object(JsonObject<V>),
    List(Vec<StoreItem<V>>),
    Text(String),
    Other(V),
}

/// The keys of the launcher's configuration store that the migration reads
/// and writes; `None` where the store holds nothing under the key.
pub struct ConfigStore<V> {
    pub config_version: Option<StoreValue<V>>,
    pub endpoints: Option<StoreValue<V>>,
    pub remote_endpoints: Option<StoreValue<V>>,
    pub current_endpoint: Option<StoreValue<V>>,
    pub launcher_prefs: Option<StoreValue<V>>,
    pub ui_prefs: Option<StoreValue<V>>,
}

/// Which migration an object kept in the store goes through.
#[derive(Clone, Copy)]
pub enum ObjectMigration {
    CurrentEndpoint,
    LauncherPrefs,
    UiPrefs,
}

/// Every object of an item names each field once.
pub open spec fn item_wf<V>(item: StoreItem<V>) -> bool {
    match item {
        StoreItem::Object(o) => o.unique(),
        StoreItem::Other(_) => true,
    }
}

/// Every object under a key, or in a list under it, names each field once.
pub open spec fn slot_wf<V>(slot: Option<StoreValue<V>>) -> bool {
    match slot {
        Some(StoreValue::Object(o)) => o.unique(),
        Some(StoreValue::List(items)) => forall|k: int| 0 <= k < items@.len() ==> item_wf(#[trigger] items@[k]),
        _ => true,
    }
}

impl<V> ConfigStore<V> {
    /// Every object the store holds names each field once.
    pub open spec fn wf(&self) -> bool {
        &&& slot_wf(self.config_version)
        &&& slot_wf(self.endpoints)
        &&& slot_wf(self.remote_endpoints)
        &&& slot_wf(self.current_endpoint)
        &&& slot_wf(self.launcher_prefs)
        &&& slot_wf(self.ui_prefs)
    }
}

/// `after` is the list item `before` with an object brought into the
/// current server shape; any other item is left as it is.
pub open spec fn item_migrated<V>(before: StoreItem<V>, after: StoreItem<V>, is_remote: bool) -> bool {
    match before {
        StoreItem::Object(o) => after matches StoreItem::Object(p) && p.unique() && fields_of(p)
            == endpoint_shape_spec(fields_of(o), is_remote).0,
        StoreItem::Other(_) => after == before,
    }
}

/// `after` is what a store key holding `before` holds once its list of
/// servers is migrated item by item; a key holding anything but a list is
/// left as it is.
pub open spec fn list_slot_migrated<V>(before: Option<StoreValue<V>>, after: Option<StoreValue<V>>, is_remote: bool) -> bool {
    match before {
        Some(StoreValue::List(items)) => after matches Some(StoreValue::List(out)) && out@.len()
            == items@.len() && forall|k: int|
            0 <= k < items@.len() ==> item_migrated(#[trigger] items@[k], out@[k], is_remote),
        _ => after == before,
    }
}

/// The fields of an object after the migration `kind`, and whether any
/// changed.
pub open spec fn object_migration_spec<V>(kind: ObjectMigration, m: Map<Seq<char>, JsonView<V>>) -> (
    Map<Seq<char>, JsonView<V>>,
    bool,
) {
    match kind {
        ObjectMigration::CurrentEndpoint => endpoint_shape_spec(m, false),
        ObjectMigration::LauncherPrefs => launcher_prefs_spec(m),
        ObjectMigration::UiPrefs => ui_prefs_spec(m),
    }
}

/// `after` is what a store key holding `before` holds once its object goes
/// through the migration `kind`; a key holding anything but an object is
/// left as it is.
pub open spec fn object_slot_migrated<V>(
    before: Option<StoreValue<V>>,
    after: Option<StoreValue<V>>,
    kind: ObjectMigration,
) -> bool {
    match before {
        Some(StoreValue::Object(o)) => after matches Some(StoreValue::Object(p)) && p.unique()
            && fields_of(p) == object_migration_spec(kind, fields_of(o)).0,
        _ => after == before,
    }
}

/// The schema version a store records, when it records it as text.
pub open spec fn version_text<V>(slot: Option<StoreValue<V>>) -> Option<Seq<char>> {
    match slot {
        Some(StoreValue::Text(t)) => Some(t@),
        _ => None,
    }
}

/// Whether the store is of the current schema: its recorded version,
/// trimmed, is the current one.
pub open spec fn store_is_current<V>(store: ConfigStore<V>) -> bool {
    match version_text(store.config_version) {
        Some(t) => trim_spec(t) == CONFIG_VERSION@,
        None => false,
    }
}

/// Brings every server object of a stored list into the current shape.
fn migrate_store_items<V>(items: &mut Vec<StoreItem<V>>, is_remote: bool)
    requires
        forall|k: int| 0 <= k < old(items)@.len() ==> item_wf(#[trigger] old(items)@[k]),
    ensures
        final(items)@.len() == old(items)@.len(),
        forall|k: int| 0 <= k < old(items)@.len() ==> item_migrated(#[trigger] old(items)@[k], final(items)@[k], is_remote),
{
    let ghost start = items@;
    let mut i: usize = 0;
    while i < items.len()
        invariant
            i <= items@.len(),
            items@.len() == start.len(),
            forall|k: int| 0 <= k < start.len() ==> item_wf(#[trigger] start[k]),
            forall|k: int| 0 <= k < i ==> item_migrated(#[trigger] start[k], items@[k], is_remote),
            forall|k: int| i <= k < items@.len() ==> #[trigger] items@[k] == start[k],
        decreases items@.len() - i,
    {
        let ghost before = items@;
        let item = items.remove(i);
        assert(item == start[i as int]);
        let next = match item {
            StoreItem::Object(mut o) => {
                let _ = ensure_endpoint_shape(&mut o, is_remote);
                StoreItem::Object(o)
            },
            StoreItem::Other(v) => StoreItem::Other(v),
        };
        assert(item_migrated(start[i as int], next, is_remote));
        items.insert(i, next);
        assert(items@ =~= before.update(i as int, next));
        i = i + 1;
    }
}

/// What a store key holding a list of servers holds once each is migrated.
fn migrate_list_slot<V>(slot: Option<StoreValue<V>>, is_remote: bool) -> (r: Option<StoreValue<V>>)
    requires
        slot_wf(slot),
    ensures
        slot_wf(r),
        list_slot_migrated(slot, r, is_remote),
{
    match slot {
        Some(StoreValue::List(mut items)) => {
            migrate_store_items(&mut items, is_remote);
            let r = Some(StoreValue::List(items));
            assert forall|k: int| 0 <= k < items@.len() implies item_wf(#[trigger] items@[k]) by {
                match slot {
                    Some(StoreValue::List(before)) => {
                        assert(item_migrated(before@[k], items@[k], is_remote));
                    },
                    _ => {},
                }
            }
            r
        },
        other => other,
    }
}

/// What a store key holding an object holds once it goes through the
/// migration `kind`.
fn migrate_object_slot<V>(slot: Option<StoreValue<V>>, kind: ObjectMigration) -> (r: Option<StoreValue<V>>)
    requires
        slot_wf(slot),
    ensures
        slot_wf(r),
        object_slot_migrated(slot, r, kind),
{
    match slot {
        Some(StoreValue::Object(mut o)) => {
            let _ = match kind {
                ObjectMigration::CurrentEndpoint => ensure_endpoint_shape(&mut o, false),
                ObjectMigration::LauncherPrefs => migrate_launcher_prefs(&mut o),
                ObjectMigration::UiPrefs => migrate_ui_prefs(&mut o),
            };
            Some(StoreValue::Object(o))
        },
        other => other,
    }
}

/// Brings the configuration store up to the current schema.  A store whose
/// recorded version, trimmed, is the current one is left as it is and
/// `false` comes back.  Otherwise both server lists, the current server and
/// the launcher and interface preferences are migrated, the current version
/// is recorded, and `true` comes back: the store is to be saved.
pub fn migrate_config_store<V>(store: &mut ConfigStore<V>) -> (changed: bool)
    requires
        old(store).wf(),
    ensures
        final(store).wf(),
        changed == !store_is_current(*old(store)),
        store_is_current(*old(store)) ==> *final(store) == *old(store),
        !store_is_current(*old(store)) ==> {
            &&& list_slot_migrated(old(store).endpoints, final(store).endpoints, false)
            &&& list_slot_migrated(old(store).remote_endpoints, final(store).remote_endpoints, true)
            &&& object_slot_migrated(
                old(store).current_endpoint,
                final(store).current_endpoint,
                ObjectMigration::CurrentEndpoint,
            )
            &&& object_slot_migrated(
                old(store).launcher_prefs,
                final(store).launcher_prefs,
                ObjectMigration::LauncherPrefs,
            )
            &&& object_slot_migrated(old(store).ui_prefs, final(store).ui_prefs, ObjectMigration::UiPrefs)
            &&& version_text(final(store).config_version) == Some(CONFIG_VERSION@)
        },
{
    let current = match &store.config_version {
        Some(StoreValue::Text(t)) => config_is_current(Some(t.as_str())),
        _ => config_is_current(None),
    };
    if current {
        return false;
    }
    let endpoints = store.endpoints.take();
    store.endpoints = migrate_list_slot(endpoints, false);
    let remote = store.remote_endpoints.take();
    store.remote_endpoints = migrate_list_slot(remote, true);
    let current_endpoint = store.current_endpoint.take();
    store.current_endpoint = migrate_object_slot(current_endpoint, ObjectMigration::CurrentEndpoint);
    let launcher_prefs = store.launcher_prefs.take();
    store.launcher_prefs = migrate_object_slot(launcher_prefs, ObjectMigration::LauncherPrefs);
    let ui_prefs = store.ui_prefs.take();
    store.ui_prefs = migrate_object_slot(ui_prefs, ObjectMigration::UiPrefs);
    store.config_version = Some(StoreValue::Text(CONFIG_VERSION.to_string()));
    true
}

/// Whether `b` holds every field of `a` other than those named in `touched`,
/// unchanged, and no other new field.
pub open spec fn same_except<V>(a: Map<Seq<char>, JsonView<V>>, b: Map<Seq<char>, JsonView<V>>, touched: Set<Seq<char>>) -> bool {
    forall|k: Seq<char>|
        !touched.contains(k) ==> (b.contains_key(k) == a.contains_key(k) && (a.contains_key(k)
            ==> b[k] == a[k]))
}

proof fn lemma_key_names_distinct()
    ensures
        "url"@ != "host"@,
        "url"@ != "name"@,
        "url"@ != "launcherPort"@,
        "url"@ != "gamePort"@,
        "url"@ != "gameFolder"@,
        "url"@ != "gamePath"@,
        "url"@ != "version"@,
        "url"@ != "isRemote"@,
        "url"@ != "legacy"@,
        "host"@ != "name"@,
        "host"@ != "launcherPort"@,
        "host"@ != "gamePort"@,
        "host"@ != "gameFolder"@,
        "host"@ != "gamePath"@,
        "host"@ != "version"@,
        "host"@ != "isRemote"@,
        "host"@ != "legacy"@,
        "name"@ != "launcherPort"@,
        "name"@ != "gamePort"@,
        "name"@ != "gameFolder"@,
        "name"@ != "gamePath"@,
        "name"@ != "version"@,
        "name"@ != "isRemote"@,
        "name"@ != "legacy"@,
        "launcherPort"@ != "gamePort"@,
        "launcherPort"@ != "gameFolder"@,
        "launcherPort"@ != "gamePath"@,
        "launcherPort"@ != "version"@,
        "launcherPort"@ != "isRemote"@,
        "launcherPort"@ != "legacy"@,
        "gamePort"@ != "gameFolder"@,
        "gamePort"@ != "gamePath"@,
        "gamePort"@ != "version"@,
        "gamePort"@ != "isRemote"@,
        "gamePort"@ != "legacy"@,
        "gameFolder"@ != "gamePath"@,
        "gameFolder"@ != "version"@,
        "gameFolder"@ != "isRemote"@,
        "gameFolder"@ != "legacy"@,
        "gamePath"@ != "version"@,
        "gamePath"@ != "isRemote"@,
        "gamePath"@ != "legacy"@,
        "version"@ != "isRemote"@,
        "version"@ != "legacy"@,
        "isRemote"@ != "legacy"@,
{
    reveal_strlit("url");
    reveal_strlit("host");
    reveal_strlit("name");
    reveal_strlit("launcherPort");
    reveal_strlit("gamePort");
    reveal_strlit("gameFolder");
    reveal_strlit("gamePath");
    reveal_strlit("version");
    reveal_strlit("isRemote");
    reveal_strlit("legacy");
    assert("url"@.len() == 3);
    assert("host"@.len() == 4);
    assert("name"@.len() == 4);
    assert("launcherPort"@.len() == 12);
    assert("gamePort"@.len() == 8);
    assert("gameFolder"@.len() == 10);
    assert("gamePath"@.len() == 8);
    assert("version"@.len() == 7);
    assert("isRemote"@.len() == 8);
    assert("legacy"@.len() == 6);
    assert("host"@[0] != "name"@[0]);
    assert("gamePort"@[5] != "gamePath"@[5]);
    assert("gamePort"@[0] != "isRemote"@[0]);
    assert("gamePath"@[0] != "isRemote"@[0]);
}

/// Each step of the endpoint migration writes only its own fields.
proof fn lemma_steps_local<V>(m: Map<Seq<char>, JsonView<V>>, is_remote: bool)
    ensures
        same_except(m, url_from_host(m).0, set!["url"@]),
        same_except(m, url_trimmed(m).0, set!["url"@]),
        same_except(m, name_from_url(m).0, set!["name"@]),
        same_except(m, port_normalized(m, "launcherPort"@).0, set!["launcherPort"@]),
        same_except(m, port_normalized(m, "gamePort"@).0, set!["gamePort"@]),
        same_except(m, game_folder_moved(m).0, set!["gameFolder"@, "gamePath"@]),
        same_except(m, version_defaulted(m).0, set!["version"@]),
        same_except(m, side_defaulted(m, is_remote).0, set!["isRemote"@]),
        same_except(m, legacy_dropped(m).0, set!["legacy"@]),
{
}

/// A stored endpoint already in the current shape is left as it is:
/// bringing it into shape a second time changes nothing.
#[verifier::rlimit(40)]
pub proof fn lemma_endpoint_shape_stable<V>(m: Map<Seq<char>, JsonView<V>>, is_remote: bool)
    ensures
        endpoint_shape_spec(endpoint_shape_spec(m, is_remote).0, is_remote) == (
            endpoint_shape_spec(m, is_remote).0,
            false,
        ),
{
    lemma_key_names_distinct();
    reveal_strlit("ZZ");
    let (m1, c1) = url_from_host(m);
    let (m2, c2) = url_trimmed(m1);
    let (m3, c3) = name_from_url(m2);
    let (m4, c4) = port_normalized(m3, "launcherPort"@);
    let (m5, c5) = port_normalized(m4, "gamePort"@);
    let (m6, c6) = game_folder_moved(m5);
    let (m7, c7) = version_defaulted(m6);
    let (m8, c8) = side_defaulted(m7, is_remote);
    let (m9, c9) = legacy_dropped(m8);
    lemma_steps_local(m, is_remote);
    lemma_steps_local(m1, is_remote);
    lemma_steps_local(m2, is_remote);
    lemma_steps_local(m3, is_remote);
    lemma_steps_local(m4, is_remote);
    lemma_steps_local(m5, is_remote);
    lemma_steps_local(m6, is_remote);
    lemma_steps_local(m7, is_remote);
    lemma_steps_local(m8, is_remote);
    lemma_first_pass_facts(m, is_remote);
    assert(url_from_host(m9) == (m9, false));
    assert(url_trimmed(m9) == (m9, false));
    assert(name_from_url(m9) == (m9, false));
    assert(port_normalized(m9, "launcherPort"@) == (m9, false));
    assert(port_normalized(m9, "gamePort"@) == (m9, false));
    assert(game_folder_moved(m9) == (m9, false));
    assert(version_defaulted(m9) == (m9, false));
    assert(side_defaulted(m9, is_remote) == (m9, false));
    assert(legacy_dropped(m9) == (m9, false));
}

/// What the first pass of the endpoint migration leaves behind.
proof fn lemma_first_pass_facts<V>(m: Map<Seq<char>, JsonView<V>>, is_remote: bool)
    ensures
        ({
            let m9 = endpoint_shape_spec(m, is_remote).0;
            &&& !blank_at(m9, "url"@) || blank_at(m9, "host"@)
            &&& text_at(m9, "url"@) matches Some(u) ==> trim_spec(u) == u
            &&& !blank_at(m9, "name"@) || blank_at(m9, "url"@)
            &&& m9.contains_key("launcherPort"@)
            &&& (m9["launcherPort"@] is Null || m9["launcherPort"@] is Int || m9["launcherPort"@] is Number)
            &&& m9.contains_key("gamePort"@)
            &&& (m9["gamePort"@] is Null || m9["gamePort"@] is Int || m9["gamePort"@] is Number)
            &&& m9.contains_key("gameFolder"@)
            &&& !blank_at(m9, "version"@)
            &&& m9.contains_key("isRemote"@)
            &&& !m9.contains_key("legacy"@)
        }),
{
    let (m1, c1) = url_from_host(m);
    let (m2, c2) = url_trimmed(m1);
    let (m3, c3) = name_from_url(m2);
    lemma_text_fields_after_first_steps(m);
    lemma_tail_steps(m3, is_remote);
}

/// After the address and name steps: the address is set when the host
/// could give one and is trimmed; the name is set when the address could
/// give one.
#[verifier::rlimit(40)]
proof fn lemma_text_fields_after_first_steps<V>(m: Map<Seq<char>, JsonView<V>>)
    ensures
        ({
            let m3 = name_from_url(url_trimmed(url_from_host(m).0).0).0;
            &&& !blank_at(m3, "url"@) || blank_at(m3, "host"@)
            &&& text_at(m3, "url"@) matches Some(u) ==> trim_spec(u) == u
            &&& !blank_at(m3, "name"@) || blank_at(m3, "url"@)
        }),
{
    lemma_key_names_distinct();
    let (m1, c1) = url_from_host(m);
    let (m2, c2) = url_trimmed(m1);
    let (m3, c3) = name_from_url(m2);
    lemma_steps_local(m, false);
    lemma_steps_local(m1, false);
    lemma_steps_local(m2, false);
    lemma_text_kept(m2, m3, "url"@);
    lemma_text_kept(m, m1, "host"@);
    lemma_text_kept(m1, m2, "host"@);
    lemma_text_kept(m2, m3, "host"@);
    match text_at(m1, "url"@) {
        Some(u) => lemma_trim_idempotent(u),
        None => {},
    }
    match text_at(m, "host"@) {
        Some(h) => lemma_trim_idempotent(h),
        None => {},
    }
    match text_at(m2, "url"@) {
        Some(u) => lemma_trim_idempotent(u),
        None => {},
    }
}

/// The steps after the address and name keep those and leave the ports,
/// folder, version and side set and the legacy marker gone.
proof fn lemma_tail_steps<V>(m3: Map<Seq<char>, JsonView<V>>, is_remote: bool)
    ensures
        ({
            let (m4, c4) = port_normalized(m3, "launcherPort"@);
            let (m5, c5) = port_normalized(m4, "gamePort"@);
            let (m6, c6) = game_folder_moved(m5);
            let (m7, c7) = version_defaulted(m6);
            let (m8, c8) = side_defaulted(m7, is_remote);
            let (m9, c9) = legacy_dropped(m8);
            &&& text_at(m9, "url"@) == text_at(m3, "url"@)
            &&& text_at(m9, "host"@) == text_at(m3, "host"@)
            &&& text_at(m9, "name"@) == text_at(m3, "name"@)
            &&& m9.contains_key("launcherPort"@)
            &&& (m9["launcherPort"@] is Null || m9["launcherPort"@] is Int || m9["launcherPort"@] is Number)
            &&& m9.contains_key("gamePort"@)
            &&& (m9["gamePort"@] is Null || m9["gamePort"@] is Int || m9["gamePort"@] is Number)
            &&& m9.contains_key("gameFolder"@)
            &&& !blank_at(m9, "version"@)
            &&& m9.contains_key("isRemote"@)
            &&& !m9.contains_key("legacy"@)
        }),
{
    let (m4, c4) = port_normalized(m3, "launcherPort"@);
    let (m5, c5) = port_normalized(m4, "gamePort"@);
    let (m6, c6) = game_folder_moved(m5);
    let (m7, c7) = version_defaulted(m6);
    let (m8, c8) = side_defaulted(m7, is_remote);
    let (m9, c9) = legacy_dropped(m8);
    lemma_key_names_distinct();
    lemma_port_steps(m3);
    lemma_rest_steps(m5, is_remote);
    assert(m9.contains_key("url"@) == m5.contains_key("url"@));
    assert(m5.contains_key("url"@) == m3.contains_key("url"@));
    assert(m9.contains_key("host"@) == m5.contains_key("host"@));
    assert(m5.contains_key("host"@) == m3.contains_key("host"@));
    assert(m9.contains_key("name"@) == m5.contains_key("name"@));
    assert(m5.contains_key("name"@) == m3.contains_key("name"@));
    assert(m9.contains_key("launcherPort"@) == m5.contains_key("launcherPort"@));
    assert(m9.contains_key("gamePort"@) == m5.contains_key("gamePort"@));
    lemma_text_kept(m3, m9, "url"@);
    lemma_text_kept(m3, m9, "host"@);
    lemma_text_kept(m3, m9, "name"@);
}

#[verifier::rlimit(40)]
proof fn lemma_port_steps<V>(m3: Map<Seq<char>, JsonView<V>>)
    ensures
        ({
            let m4 = port_normalized(m3, "launcherPort"@).0;
            let m5 = port_normalized(m4, "gamePort"@).0;
            &&& forall|k: Seq<char>|
                k != "launcherPort"@ && k != "gamePort"@ ==> (m5.contains_key(k) == m3.contains_key(k)
                    && (m3.contains_key(k) ==> m5[k] == m3[k]))
            &&& m5.contains_key("launcherPort"@)
            &&& (m5["launcherPort"@] is Null || m5["launcherPort"@] is Int || m5["launcherPort"@] is Number)
            &&& m5.contains_key("gamePort"@)
            &&& (m5["gamePort"@] is Null || m5["gamePort"@] is Int || m5["gamePort"@] is Number)
        }),
{
    lemma_key_names_distinct();
    let m4 = port_normalized(m3, "launcherPort"@).0;
    assert(m4.contains_key("launcherPort"@));
}

#[verifier::rlimit(40)]
proof fn lemma_rest_steps<V>(m5: Map<Seq<char>, JsonView<V>>, is_remote: bool)
    ensures
        ({
            let (m6, c6) = game_folder_moved(m5);
            let (m7, c7) = version_defaulted(m6);
            let (m8, c8) = side_defaulted(m7, is_remote);
            let (m9, c9) = legacy_dropped(m8);
            &&& forall|k: Seq<char>|
                k != "gameFolder"@ && k != "gamePath"@ && k != "version"@ && k != "isRemote"@ && k
                    != "legacy"@ ==> (m9.contains_key(k) == m5.contains_key(k) && (m5.contains_key(k)
                    ==> m9[k] == m5[k]))
            &&& m9.contains_key("gameFolder"@)
            &&& !blank_at(m9, "version"@)
            &&& m9.contains_key("isRemote"@)
            &&& !m9.contains_key("legacy"@)
        }),
{
    lemma_key_names_distinct();
    reveal_strlit("ZZ");
    let (m6, c6) = game_folder_moved(m5);
    let (m7, c7) = version_defaulted(m6);
    let (m8, c8) = side_defaulted(m7, is_remote);
    let (m9, c9) = legacy_dropped(m8);
    assert(m6.contains_key("gameFolder"@));
    lemma_text_kept(m7, m9, "version"@);
}

/// The field `key` keeps its text when only other fields are written.
proof fn lemma_text_kept<V>(a: Map<Seq<char>, JsonView<V>>, b: Map<Seq<char>, JsonView<V>>, key: Seq<char>)
    requires
        a.contains_key(key) == b.contains_key(key),
        a.contains_key(key) ==> a[key] == b[key],
    ensures
        text_at(a, key) == text_at(b, key),
{
}

} // verus!
