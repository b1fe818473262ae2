//! Preparing a game launch from the signed-in session: the client
//! configuration for the chosen character and the folder it runs in.
use vstd::prelude::*;

use crate::cli::{stall_codes, stalls_from_codes, valid_stall_codes};
use crate::endpoint::{host_spec, opt_text};
use crate::launcher::{find_character_spec, UiPrefs};
use crate::mhf::{FriendData, MezFesStall, MhfConfig, Notice};
use crate::prefs::LauncherPrefs;
use crate::server::{AuthResponse, CharacterData};
use crate::session::EndpointState;
use crate::text::decimal_string;

verus! {

/// The port the game connects to when the server names none.
pub const DEFAULT_GAME_PORT: u16 = 53310;

/// The game folder named for the current server, else the one chosen.
pub open spec fn named_folder(state: EndpointState) -> Option<Seq<char>> {
    match state.current_endpoint.game_folder {
        Some(g) => Some(g@),
        None => opt_text(state.game_folder),
    }
}

/// Whether `cfg` launches the character `c` of the session `auth` on the
/// current server of `state`, with the launcher preferences `prefs`, the
/// version chosen in `ui`, the account `user_name` / `password`, and the
/// launcher font found at `font_path` (kept only where a game folder is
/// named).
pub open spec fn bundle_matches(
    cfg: MhfConfig,
    auth: AuthResponse,
    c: CharacterData,
    char_new: bool,
    prefs: LauncherPrefs,
    ui: UiPrefs,
    state: EndpointState,
    user_name: Seq<char>,
    password: Seq<char>,
    on_windows: bool,
    font_path: Option<Seq<char>>,
) -> bool {
    &&& cfg.char_id == c.id
    &&& cfg.char_name@ == c.name@
    &&& cfg.char_gr == c.gr
    &&& cfg.char_hr == c.hr
    &&& cfg.char_ids@ == auth.characters@.map_values(|x: CharacterData| x.id)
    &&& cfg.char_new == char_new
    &&& cfg.user_token_id == auth.user.token_id
    &&& cfg.user_token@ == auth.user.token@
    &&& cfg.user_name@ == user_name
    &&& cfg.user_password@ == password
    &&& cfg.user_rights == auth.user.rights
    &&& cfg.server_host@ == host_spec(state.current_endpoint@)
    &&& cfg.server_port == match state.current_endpoint.game_port {
        Some(p) => p as u32,
        None => DEFAULT_GAME_PORT as u32,
    }
    &&& cfg.entrance_count == auth.entrance_count
    &&& cfg.current_ts == auth.current_ts
    &&& cfg.expiry_ts == auth.expiry_ts
    &&& cfg.notices@.len() == auth.notices@.len()
    &&& (forall|i: int|
        0 <= i < auth.notices@.len() ==> (#[trigger] cfg.notices@[i]).flags == 0 && cfg.notices@[i].data@
            == auth.notices@[i]@)
    &&& cfg.friends@.len() == auth.friends@.len()
    &&& (forall|i: int|
        0 <= i < auth.friends@.len() ==> (#[trigger] cfg.friends@[i]).cid == auth.friends@[i].cid
            && cfg.friends@[i].id == auth.friends@[i].id && cfg.friends@[i].name@ == auth.friends@[i].name@)
    &&& match auth.mez_fez {
        Some(m) => {
            &&& cfg.mez_event_id == m.id
            &&& cfg.mez_start == m.start
            &&& cfg.mez_end == m.end
            &&& cfg.mez_solo_tickets == m.solo_tickets
            &&& cfg.mez_group_tickets == m.group_tickets
            &&& stall_codes(cfg.mez_stalls@) == valid_stall_codes(m.stalls@)
        },
        None => {
            &&& cfg.mez_event_id == 0
            &&& cfg.mez_start == 0
            &&& cfg.mez_end == 0
            &&& cfg.mez_solo_tickets == 0
            &&& cfg.mez_group_tickets == 0
            &&& cfg.mez_stalls@.len() == 0
        },
    }
    &&& cfg.version == ui.game_version
    &&& cfg.mutex_version == ui.game_version
    &&& cfg.mutex_fallback_version is None
    &&& cfg.preload_controller_dlls == (on_windows && prefs.preload_controller_dlls)
    &&& opt_text(cfg.friend_signature) == Some(prefs.friend_signature@)
    &&& cfg.enable_font_registration
    &&& opt_text(cfg.mhf_folder) == named_folder(state)
    &&& opt_text(cfg.font_path) == match named_folder(state) {
        Some(_) => font_path,
        None => None,
    }
    &&& cfg.mhf_flags is None
}

/// The message for a launch without a session.
pub open spec fn missing_auth_message() -> Seq<char> {
    "missing auth response when preparing game launch"@
}

/// The message for a character the session does not have.
pub open spec fn missing_character_message(id: u32) -> Seq<char> {
    "selected character "@ + crate::text::decimal(id as nat) + " not found in auth response"@
}

/// Builds the client configuration that launches the character `char_id`
/// (`char_new` when it was just created) of the session `auth` on the
/// current server of `state`, and the game folder it runs in
/// (`default_folder` where none is named).  `user_name` and `password` are
/// the account remembered for the server, `font_path` the launcher font
/// found in the named game folder, and `on_windows` whether controller
/// libraries can be preloaded.
pub fn build_launch_bundle(
    auth: Option<&AuthResponse>,
    state: &EndpointState,
    prefs: &LauncherPrefs,
    ui: &UiPrefs,
    char_id: u32,
    char_new: bool,
    user_name: String,
    password: String,
    on_windows: bool,
    font_path: Option<String>,
    default_folder: &str,
) -> (r: Result<(MhfConfig, String), String>)
    ensures
        auth is None ==> (r matches Err(m) && m@ == missing_auth_message()),
        auth matches Some(a) ==> match find_character_spec(a.characters@, char_id) {
            None => r matches Err(m) && m@ == missing_character_message(char_id),
            Some(c) => r matches Ok(b) && bundle_matches(
                b.0,
                *a,
                c,
                char_new,
                *prefs,
                *ui,
                *state,
                user_name@,
                password@,
                on_windows,
                opt_text(font_path),
            ) && b.1@ == match named_folder(*state) {
                Some(g) => g,
                None => default_folder@,
            },
        },
{
    let signed_in = match auth {
        Some(a) => a,
        None => {
            return Err("missing auth response when preparing game launch".to_string());
        },
    };
    let mut k: usize = 0;
    let mut found = false;
    assert(signed_in.characters@.subrange(0, signed_in.characters@.len() as int) =~= signed_in.characters@);
    while k < signed_in.characters.len()
        invariant_except_break
            !found,
        invariant
            k <= signed_in.characters.len(),
            find_character_spec(signed_in.characters@, char_id) == find_character_spec(
                signed_in.characters@.subrange(k as int, signed_in.characters@.len() as int),
                char_id,
            ),
        ensures
            found ==> k < signed_in.characters.len() && signed_in.characters@[k as int].id == char_id
                && find_character_spec(signed_in.characters@, char_id) == Some(signed_in.characters@[k as int]),
            !found ==> k == signed_in.characters.len(),
        decreases signed_in.characters.len() - k,
    {
        let ghost rest = signed_in.characters@.subrange(k as int, signed_in.characters@.len() as int);
        assert(rest.drop_first() =~= signed_in.characters@.subrange(k + 1, signed_in.characters@.len() as int));
        if signed_in.characters[k].id == char_id {
            found = true;
            break;
        }
        k = k + 1;
    }
    if !found {
        assert(signed_in.characters@.subrange(k as int, signed_in.characters@.len() as int) =~= Seq::<
            CharacterData,
        >::empty());
        let mut m = "selected character ".to_string();
        let id_text = decimal_string(char_id as u128);
        m.append(id_text.as_str());
        m.append(" not found in auth response");
        return Err(m);
    }
    let c = &signed_in.characters[k];
    let mut char_ids: Vec<u32> = Vec::new();
    let mut i: usize = 0;
    while i < signed_in.characters.len()
        invariant
            i <= signed_in.characters@.len(),
            char_ids@ =~= signed_in.characters@.take(i as int).map_values(|x: CharacterData| x.id),
        decreases signed_in.characters@.len() - i,
    {
        char_ids.push(signed_in.characters[i].id);
        i = i + 1;
    }
    assert(signed_in.characters@.take(signed_in.characters@.len() as int) =~= signed_in.characters@);
    let mut notices: Vec<Notice> = Vec::new();
    let mut i: usize = 0;
    while i < signed_in.notices.len()
        invariant
            i <= signed_in.notices@.len(),
            notices@.len() == i,
            forall|j: int|
                0 <= j < i ==> (#[trigger] notices@[j]).flags == 0 && notices@[j].data@ == signed_in.notices@[j]@,
        decreases signed_in.notices@.len() - i,
    {
        notices.push(Notice { flags: 0, data: signed_in.notices[i].clone() });
        i = i + 1;
    }
    let mut friends: Vec<FriendData> = Vec::new();
    let mut i: usize = 0;
    while i < signed_in.friends.len()
        invariant
            i <= signed_in.friends@.len(),
            friends@.len() == i,
            forall|j: int|
                0 <= j < i ==> (#[trigger] friends@[j]).cid == signed_in.friends@[j].cid && friends@[j].id
                    == signed_in.friends@[j].id && friends@[j].name@ == signed_in.friends@[j].name@,
        decreases signed_in.friends@.len() - i,
    {
        let f = &signed_in.friends[i];
        friends.push(FriendData { cid: f.cid, id: f.id, name: f.name.clone() });
        i = i + 1;
    }
    let folder: Option<String> = match &state.current_endpoint.game_folder {
        Some(g) => Some(g.clone()),
        None => match &state.game_folder {
            Some(g) => Some(g.clone()),
            None => None,
        },
    };
    let font = match &folder {
        Some(_) => font_path,
        None => None,
    };
    let game_root = state.effective_folder(default_folder);
    let version = ui.game_version;
    let mut config = MhfConfig {
        char_id,
        char_name: c.name.clone(),
        char_gr: c.gr,
        char_hr: c.hr,
        char_ids,
        char_new,
        user_token_id: signed_in.user.token_id,
        user_token: signed_in.user.token.clone(),
        user_name,
        user_password: password,
        user_rights: signed_in.user.rights,
        server_host: state.current_endpoint.host(),
        server_port: match state.current_endpoint.game_port {
            Some(p) => p as u32,
            None => DEFAULT_GAME_PORT as u32,
        },
        entrance_count: signed_in.entrance_count,
        current_ts: signed_in.current_ts,
        expiry_ts: signed_in.expiry_ts,
        notices,
        friends,
        mez_event_id: 0,
        mez_start: 0,
        mez_end: 0,
        mez_solo_tickets: 0,
        mez_group_tickets: 0,
        mez_stalls: Vec::new(),
        version,
        mutex_version: version,
        mutex_fallback_version: None,
        preload_controller_dlls: on_windows && prefs.preload_controller_dlls,
        friend_signature: Some(prefs.friend_signature.clone()),
        enable_font_registration: true,
        mhf_folder: folder,
        font_path: font,
        mhf_flags: None,
    };
    if let Some(m) = &signed_in.mez_fez {
        config.mez_event_id = m.id;
        config.mez_start = m.start;
        config.mez_end = m.end;
        config.mez_solo_tickets = m.solo_tickets;
        config.mez_group_tickets = m.group_tickets;
        config.mez_stalls = stalls_from_codes(m.stalls.as_slice());
    }
    Ok((config, game_root))
}

} // verus!
