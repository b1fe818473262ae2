use mezeporta::savedata::{
    effective_savedata_version, identity_for_version, prefetch_savedata_identity, savedata_cache_identity,
    savedata_cache_response, savedata_version_from_file, savedata_version_to_record,
};
use mezeporta::endpoint::Endpoint;
use mezeporta::launcher::resolve_alt_character_cache_identity;
use mezeporta::server::{AuthResponse, CharacterData, UserData as ApiUser};
use mezeporta::user::{UserData, UserManager};
use mezeporta::version::MhfVersion;

fn character(id: u32, name: &str) -> CharacterData {
    CharacterData {
        id,
        name: name.to_string(),
        is_female: false,
        weapon: 0,
        hr: 1,
        gr: 0,
        last_login: 0,
        returning: false,
    }
}

fn auth(characters: Vec<CharacterData>) -> AuthResponse {
    AuthResponse {
        current_ts: 0,
        expiry_ts: 0,
        entrance_count: 0,
        notices: vec![],
        user: ApiUser { token_id: 77, token: "t".to_string(), rights: 0 },
        characters,
        mez_fez: None,
        friends: vec![],
        courses: vec![],
        patch_server: String::new(),
        patch_file_server: String::new(),
        alt_savedata_enabled: true,
    }
}

fn endpoint(url: &str) -> Endpoint {
    Endpoint {
        url: url.to_string(),
        name: "Main".to_string(),
        launcher_port: None,
        game_port: None,
        game_folder: None,
        version: MhfVersion::ZZ,
        is_remote: false,
    }
}

#[test]
fn identity_uses_session_name_character_and_server_key() {
    let a = auth(vec![character(1, "Other"), character(5, "  Hunter ")]);
    let users = UserManager::new();
    let e = endpoint("http://example.com:8080");
    let id = resolve_alt_character_cache_identity(Some(&a), " alice ", &users, &e, 5).unwrap();
    assert_eq!(id.server_name, "example.com:8080");
    assert_eq!(id.version_label, "ZZ");
    assert_eq!(id.username, "alice");
    assert_eq!(id.character_name, "Hunter");
}

#[test]
fn identity_falls_back_to_stored_then_token_names() {
    let a = auth(vec![character(5, "   ")]);
    let e = endpoint("  ");
    let mut users = UserManager::new();
    let id = resolve_alt_character_cache_identity(Some(&a), "", &users, &e, 5).unwrap();
    assert_eq!(id.username, "User77");
    assert_eq!(id.character_name, "Character5");
    assert_eq!(id.server_name, "UnknownServer");
    users.set(&e, UserData { username: " bob ".to_string(), remember_me: true }, String::new(), false);
    let id = resolve_alt_character_cache_identity(Some(&a), "  ", &users, &e, 5).unwrap();
    assert_eq!(id.username, "bob");
}

#[test]
fn identity_needs_a_session_and_the_character() {
    let a = auth(vec![character(5, "Hunter")]);
    let users = UserManager::new();
    let e = endpoint("http://example.com");
    assert_eq!(
        resolve_alt_character_cache_identity(None, "alice", &users, &e, 5).err(),
        Some("internal-error".to_string())
    );
    assert_eq!(
        resolve_alt_character_cache_identity(Some(&a), "alice", &users, &e, 6).err(),
        Some("internal-error".to_string())
    );
}

#[test]
fn cached_savedata_is_handed_back_as_base64() {
    let r = savedata_cache_response(&[1, 2, 3], "ZZ".to_string()).unwrap();
    assert_eq!(r.savedata, "AQID");
    assert_eq!(r.gsv, "ZZ");
    assert_eq!(savedata_cache_response(&[], "ZZ".to_string()).err(), Some("file-error".to_string()));
}

#[test]
fn version_files_record_the_client_mode_or_their_text() {
    assert_eq!(savedata_version_from_file("{...}", Some(" Z2.2 ")), Ok("Z2.2".to_string()));
    assert_eq!(savedata_version_from_file("  G10.1\n", Some("  ")), Ok("G10.1".to_string()));
    assert_eq!(savedata_version_from_file(" ZZ ", None), Ok("ZZ".to_string()));
    assert_eq!(savedata_version_from_file("  ", None), Err("file-error".to_string()));
    assert_eq!(savedata_version_to_record(Some("ZZ"), Some("Z1")), None);
    assert_eq!(savedata_version_to_record(Some("  "), Some(" Z1 ")), Some("Z1".to_string()));
    assert_eq!(savedata_version_to_record(None, Some("  ")), None);
}

#[test]
fn fetched_savedata_is_filed_under_the_first_known_version() {
    assert_eq!(effective_savedata_version(Some("Z1"), Some("ZZ"), MhfVersion::G10_1), "Z1");
    assert_eq!(effective_savedata_version(Some("  "), Some("ZZ"), MhfVersion::G10_1), "ZZ");
    assert_eq!(effective_savedata_version(None, None, MhfVersion::Z2T), "Z2.2");
    let a = auth(vec![character(5, "Hunter")]);
    let users = UserManager::new();
    let e = endpoint("http://example.com:8080");
    let id = resolve_alt_character_cache_identity(Some(&a), "alice", &users, &e, 5).unwrap();
    assert_eq!(identity_for_version(id, "z2.2").version_label, "Z2T");
}

#[test]
fn savedata_identities_need_consent_and_a_live_session() {
    let mut a = auth(vec![character(5, "Hunter")]);
    let users = UserManager::new();
    let e = endpoint("http://example.com:8080");
    let id = savedata_cache_identity(5, Some(&a), "alice", &users, &e, Some(" Z1 ")).unwrap();
    assert_eq!(id.version_label, "Z1");
    assert!(savedata_cache_identity(0, Some(&a), "alice", &users, &e, None).is_none());
    assert!(savedata_cache_identity(6, Some(&a), "alice", &users, &e, None).is_none());
    assert!(prefetch_savedata_identity(5, Some(&a), "alice", &users, &endpoint("OfflineMode"), None).is_none());
    assert_eq!(
        prefetch_savedata_identity(5, Some(&a), "alice", &users, &e, None).unwrap().version_label,
        "ZZ"
    );
    a.alt_savedata_enabled = false;
    assert!(savedata_cache_identity(5, Some(&a), "alice", &users, &e, None).is_none());
    a.alt_savedata_enabled = true;
    a.user.token = "  ".to_string();
    assert!(prefetch_savedata_identity(5, Some(&a), "alice", &users, &e, None).is_none());
    assert!(savedata_cache_identity(5, Some(&a), "alice", &users, &e, None).is_some());
}

#[test]
fn short_save_data_is_padded() {
    assert_eq!(savedata_cache_response(b"M", "ZZ".to_string()).unwrap().savedata, "TQ==");
    assert_eq!(savedata_cache_response(b"Ma", "ZZ".to_string()).unwrap().savedata, "TWE=");
    assert_eq!(savedata_cache_response(&[0xff, 0xfe, 0xfd, 0x00], "ZZ".to_string()).unwrap().savedata, "//79AA==");
}
