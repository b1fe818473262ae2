//! The alternative client's cached save data: when it can be read or
//! fetched, which version it is filed under, and what is handed back.
use vstd::prelude::*;

use crate::endpoint::Endpoint;
use crate::launcher::{
    cache_identity_spec, cache_version_label_spec, find_character_spec, identity_with_savedata_version,
    is_offline_endpoint, is_offline_spec, normalize_savedata_version_token,
    resolve_alt_character_cache_identity, savedata_token_to_cache_version_label, AltCharacterCacheIdentity,
    AltCharacterCacheIdentityView,
};
use crate::server::AuthResponse;
use crate::text::{str_chars, string_from_chars, trim_chars, trim_spec};
use crate::user::{stored_username_spec, UserManager};
use crate::version::{savedata_token_spec, version_to_savedata_token, MhfVersion};

verus! {

/// Cached save data as the front end receives it: base64 text and the
/// version it was filed with.
#[derive(Debug)]
pub struct AltCharacterSavedataCacheResponse {
    pub savedata: String,
    pub gsv: String,
}

/// The character of the standard base64 alphabet for the six-bit value `v`:
/// 'A' to 'Z', 'a' to 'z', '0' to '9', then '+' and '/'.
pub open spec fn base64_char(v: int) -> char {
    if v < 26 {
        (v + 65) as char
    } else if v < 52 {
        (v - 26 + 97) as char
    } else if v < 62 {
        (v - 52 + 48) as char
    } else if v == 62 {
        '+'
    } else {
        '/'
    }
}

/// Standard base64 with padding: every three bytes become four characters,
/// six bits each, most significant first; a last one or two bytes become
/// two or three characters followed by '=' to a group of four.
pub open spec fn base64_spec(b: Seq<u8>) -> Seq<char>
    decreases b.len(),
{
    if b.len() == 0 {
        Seq::empty()
    } else if b.len() == 1 {
        seq![base64_char((b[0] / 4) as int), base64_char((b[0] % 4) * 16), '=', '=']
    } else if b.len() == 2 {
        seq![
            base64_char((b[0] / 4) as int),
            base64_char((b[0] % 4) * 16 + b[1] / 16),
            base64_char((b[1] % 16) * 4),
            '=',
        ]
    } else {
        seq![
            base64_char((b[0] / 4) as int),
            base64_char((b[0] % 4) * 16 + b[1] / 16),
            base64_char((b[1] % 16) * 4 + b[2] / 64),
            base64_char((b[2] % 64) as int),
        ] + base64_spec(b.subrange(3, b.len() as int))
    }
}

/// Wraps `base64::engine::general_purpose::STANDARD.encode`, the standard
/// alphabet with padding, as `base64_spec` states it.
#[verifier::external_body]
fn base64_encode(input: &[u8]) -> (r: String)
    ensures
        r@ == base64_spec(input@),
{
    base64::Engine::encode(&base64::engine::general_purpose::STANDARD, input)
}

/// Hands back cached save data `data` filed with the version `gsv`; empty
/// data is a file error.
pub fn savedata_cache_response(data: &[u8], gsv: String) -> (r: Result<AltCharacterSavedataCacheResponse, String>)
    ensures
        data@.len() == 0 ==> (r matches Err(m) && m@ == "file-error"@),
        data@.len() > 0 ==> (r matches Ok(resp) && resp.savedata@ == base64_spec(data@) && resp.gsv
            == gsv),
{
    if data.len() == 0 {
        return Err("file-error".to_string());
    }
    Ok(AltCharacterSavedataCacheResponse { savedata: base64_encode(data), gsv })
}

/// A version token, trimmed; none when blank.
pub open spec fn token_spec(value: Seq<char>) -> Option<Seq<char>> {
    if trim_spec(value).len() == 0 {
        None
    } else {
        Some(trim_spec(value))
    }
}

/// The version a save data version file records: the client mode of its
/// JSON content (`parsed_mode`, where it parsed) when that is not blank,
/// else the whole text trimmed; none when that is blank too.
pub open spec fn recorded_version_spec(raw: Seq<char>, parsed_mode: Option<Seq<char>>) -> Option<Seq<char>> {
    match parsed_mode {
        Some(m) if token_spec(m) is Some => token_spec(m),
        _ => token_spec(raw),
    }
}

/// The version a save data version file records, given its text `raw` and
/// the client mode read from it as JSON, if it parsed; a file error when
/// it records none.
pub fn savedata_version_from_file(raw: &str, parsed_mode: Option<&str>) -> (r: Result<String, String>)
    ensures
        match recorded_version_spec(
            raw@,
            match parsed_mode {
                Some(m) => Some(m@),
                None => None,
            },
        ) {
            Some(t) => r matches Ok(s) && s@ == t,
            None => r matches Err(m) && m@ == "file-error"@,
        },
{
    if let Some(mode) = parsed_mode {
        if let Some(token) = normalize_savedata_version_token(Some(mode)) {
            return Ok(token);
        }
    }
    match normalize_savedata_version_token(Some(raw)) {
        Some(token) => Ok(token),
        None => Err("file-error".to_string()),
    }
}

/// The version to record for cached save data: nothing when a version is
/// recorded already (`existing`, not blank); else the requested one,
/// trimmed, when it is not blank.
pub fn savedata_version_to_record(existing: Option<&str>, requested: Option<&str>) -> (r: Option<String>)
    ensures
        match existing {
            Some(e) if trim_spec(e@).len() > 0 => r is None,
            _ => match requested {
                Some(q) => match token_spec(q@) {
                    Some(t) => r matches Some(s) && s@ == t,
                    None => r is None,
                },
                None => r is None,
            },
        },
{
    if let Some(e) = existing {
        let chars = str_chars(e);
        let t = trim_chars(chars.as_slice());
        if t.len() > 0 {
            return None;
        }
    }
    normalize_savedata_version_token(requested)
}

/// The version fetched save data is filed under: the requested one when it
/// is not blank, else the one the server reported, else the token of the
/// server's game version.
pub open spec fn effective_version_spec(
    requested: Option<Seq<char>>,
    reported: Option<Seq<char>>,
    version: MhfVersion,
) -> Seq<char> {
    match requested {
        Some(q) if trim_spec(q).len() > 0 => q,
        _ => match reported {
            Some(p) => p,
            None => savedata_token_spec(version),
        },
    }
}

/// The version fetched save data is filed under.
pub fn effective_savedata_version(requested: Option<&str>, reported: Option<&str>, version: MhfVersion) -> (r:
    String)
    ensures
        r@ == effective_version_spec(
            match requested {
                Some(q) => Some(q@),
                None => None,
            },
            match reported {
                Some(p) => Some(p@),
                None => None,
            },
            version,
        ),
{
    if let Some(q) = requested {
        let chars = str_chars(q);
        let t = trim_chars(chars.as_slice());
        if t.len() > 0 {
            return string_from_chars(chars.as_slice());
        }
    }
    match reported {
        Some(p) => {
            let chars = str_chars(p);
            string_from_chars(chars.as_slice())
        },
        None => {
            let token = version_to_savedata_token(version);
            let chars = str_chars(token);
            string_from_chars(chars.as_slice())
        },
    }
}

/// `identity` filed under the version `token`.
pub fn identity_for_version(identity: AltCharacterCacheIdentity, token: &str) -> (r: AltCharacterCacheIdentity)
    ensures
        r@ == (AltCharacterCacheIdentityView { version_label: cache_version_label_spec(token@), ..identity@ }),
{
    let mut identity = identity;
    identity.version_label = savedata_token_to_cache_version_label(token);
    identity
}

/// The identity cached save data of `character_id` is read under, for the
/// signed-in session `auth`: none without a character, a session, the
/// session's consent to alternative save data, or such a character.
pub fn savedata_cache_identity(
    character_id: u32,
    auth: Option<&AuthResponse>,
    session_username: &str,
    users: &UserManager,
    endpoint: &Endpoint,
    savedata_version: Option<&str>,
) -> (r: Option<AltCharacterCacheIdentity>)
    requires
        users.well_formed(),
    ensures
        r is Some <==> (character_id != 0 && auth is Some && auth->0.alt_savedata_enabled && find_character_spec(
            auth->0.characters@,
            character_id,
        ) is Some),
        r matches Some(id) ==> ({
            let a = auth->0;
            let base = cache_identity_spec(
                *a,
                find_character_spec(a.characters@, character_id)->0,
                session_username@,
                stored_username_spec(*users, *endpoint),
                endpoint@,
            );
            id@ == match savedata_version {
                Some(v) if trim_spec(v@).len() > 0 => AltCharacterCacheIdentityView {
                    version_label: cache_version_label_spec(trim_spec(v@)),
                    ..base
                },
                _ => base,
            }
        }),
{
    if character_id == 0 {
        return None;
    }
    let signed_in = match auth {
        Some(a) => a,
        None => {
            return None;
        },
    };
    if !signed_in.alt_savedata_enabled {
        return None;
    }
    match resolve_alt_character_cache_identity(Some(signed_in), session_username, users, endpoint, character_id) {
        Ok(identity) => Some(identity_with_savedata_version(identity, savedata_version)),
        Err(_) => None,
    }
}

/// The identity save data of `character_id` is fetched for ahead of a
/// launch: as for reading the cache, and besides none in offline mode (an
/// address that is blank or "OFFLINEMODE") or with a blank session token;
/// the version asked for is taken trimmed.
pub fn prefetch_savedata_identity(
    character_id: u32,
    auth: Option<&AuthResponse>,
    session_username: &str,
    users: &UserManager,
    endpoint: &Endpoint,
    savedata_version: Option<&str>,
) -> (r: Option<AltCharacterCacheIdentity>)
    requires
        users.well_formed(),
    ensures
        r is Some <==> (character_id != 0 && !is_offline_spec(endpoint.url@) && trim_spec(endpoint.url@).len() > 0
            && auth is Some && auth->0.alt_savedata_enabled && trim_spec(auth->0.user.token@).len() > 0
            && find_character_spec(auth->0.characters@, character_id) is Some),
        r matches Some(id) ==> ({
            let a = auth->0;
            let base = cache_identity_spec(
                *a,
                find_character_spec(a.characters@, character_id)->0,
                session_username@,
                stored_username_spec(*users, *endpoint),
                endpoint@,
            );
            id@ == match savedata_version {
                Some(v) if trim_spec(v@).len() > 0 => AltCharacterCacheIdentityView {
                    version_label: cache_version_label_spec(trim_spec(v@)),
                    ..base
                },
                _ => base,
            }
        }),
{
    if character_id == 0 {
        return None;
    }
    let url_chars = str_chars(endpoint.url.as_str());
    let url_trimmed = trim_chars(url_chars.as_slice());
    if is_offline_endpoint(endpoint.url.as_str()) || url_trimmed.len() == 0 {
        return None;
    }
    let signed_in = match auth {
        Some(a) => a,
        None => {
            return None;
        },
    };
    if !signed_in.alt_savedata_enabled {
        return None;
    }
    let token_chars = str_chars(signed_in.user.token.as_str());
    let token_trimmed = trim_chars(token_chars.as_slice());
    if token_trimmed.len() == 0 {
        return None;
    }
    let requested = normalize_savedata_version_token(savedata_version);
    let requested_ref: Option<&str> = match &requested {
        Some(t) => Some(t.as_str()),
        None => None,
    };
    proof {
        if let Some(v) = savedata_version {
            crate::text::lemma_trim_idempotent(v@);
        }
    }
    match resolve_alt_character_cache_identity(Some(signed_in), session_username, users, endpoint, character_id) {
        Ok(identity) => Some(identity_with_savedata_version(identity, requested_ref)),
        Err(_) => None,
    }
}

} // verus!
