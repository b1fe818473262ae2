use mezeporta::global_data::global_data_blob;
use mezeporta::mhf::{launch_plan, mhf_folder_name, CliFlags, MezFesStall, MhfConfig, Notice};
use mezeporta::endpoint::Endpoint;
use mezeporta::launch::build_launch_bundle;
use mezeporta::launcher::UiPrefs;
use mezeporta::prefs::LauncherPrefs;
use mezeporta::server::{AuthResponse, CharacterData, FriendData, MezFesData, UserData};
use mezeporta::session::EndpointState;
use mezeporta::version::MhfVersion;

fn character(id: u32, name: &str) -> CharacterData {
    CharacterData {
        id,
        name: name.to_string(),
        is_female: true,
        weapon: 3,
        hr: 7,
        gr: 99,
        last_login: 0,
        returning: false,
    }
}

fn auth(mez: Option<MezFesData>) -> AuthResponse {
    AuthResponse {
        current_ts: 10,
        expiry_ts: 20,
        entrance_count: 3,
        notices: vec!["hello".to_string()],
        user: UserData { token_id: 42, token: "0123456789abcdef".to_string(), rights: 5 },
        characters: vec![character(1, "One"), character(2, "Two")],
        mez_fez: mez,
        friends: vec![FriendData { cid: 2, id: 9, name: "Pal".to_string() }],
        courses: vec![],
        patch_server: String::new(),
        patch_file_server: String::new(),
        alt_savedata_enabled: false,
    }
}

fn state(folder: Option<&str>) -> EndpointState {
    EndpointState {
        endpoints: vec![],
        remote_endpoints: vec![],
        current_endpoint: Endpoint {
            url: "http://game.example:8080".to_string(),
            name: "Game".to_string(),
            launcher_port: None,
            game_port: None,
            game_folder: folder.map(|s| s.to_string()),
            version: MhfVersion::ZZ,
            is_remote: false,
        },
        game_folder: None,
    }
}

#[test]
fn the_bundle_describes_the_chosen_character() {
    let a = auth(None);
    let mut prefs = LauncherPrefs::default();
    prefs.preload_controller_dlls = true;
    let mut ui = UiPrefs::default();
    ui.game_version = MhfVersion::Z1;
    let s = state(Some("/games/mhf"));
    let (cfg, root) = build_launch_bundle(
        Some(&a),
        &s,
        &prefs,
        &ui,
        2,
        true,
        "alice".to_string(),
        "pw".to_string(),
        false,
        Some("/games/mhf/font.ttf".to_string()),
        "/default",
    )
    .unwrap();
    assert_eq!(root, "/games/mhf");
    assert_eq!(cfg.char_id, 2);
    assert_eq!(cfg.char_name, "Two");
    assert_eq!(cfg.char_gr, 99);
    assert_eq!(cfg.char_ids, vec![1, 2]);
    assert!(cfg.char_new);
    assert_eq!(cfg.user_name, "alice");
    assert_eq!(cfg.user_password, "pw");
    assert_eq!(cfg.server_host, "game.example");
    assert_eq!(cfg.server_port, 53310);
    assert_eq!(cfg.version, MhfVersion::Z1);
    assert_eq!(cfg.mutex_version, MhfVersion::Z1);
    assert!(!cfg.preload_controller_dlls);
    assert_eq!(cfg.friend_signature, Some("none".to_string()));
    assert_eq!(cfg.mhf_folder, Some("/games/mhf".to_string()));
    assert_eq!(cfg.font_path, Some("/games/mhf/font.ttf".to_string()));
    assert_eq!(cfg.notices.len(), 1);
    assert_eq!(cfg.notices[0].data, "hello");
    assert_eq!(cfg.friends[0].name, "Pal");
    assert_eq!(cfg.mez_event_id, 0);
    assert!(cfg.mez_stalls.is_empty());
}

#[test]
fn mezfes_data_and_windows_preload_are_carried() {
    let a = auth(Some(MezFesData {
        id: 4,
        start: 100,
        end: 200,
        solo_tickets: 1,
        group_tickets: 2,
        stalls: vec![10, 999, 2],
    }));
    let mut prefs = LauncherPrefs::default();
    prefs.preload_controller_dlls = true;
    let ui = UiPrefs::default();
    let s = state(None);
    let (cfg, root) = build_launch_bundle(
        Some(&a),
        &s,
        &prefs,
        &ui,
        1,
        false,
        String::new(),
        String::new(),
        true,
        Some("/ignored".to_string()),
        "/default",
    )
    .unwrap();
    assert_eq!(root, "/default");
    assert_eq!(cfg.mhf_folder, None);
    assert_eq!(cfg.font_path, None);
    assert!(cfg.preload_controller_dlls);
    assert_eq!(cfg.mez_event_id, 4);
    assert_eq!(cfg.mez_group_tickets, 2);
    assert_eq!(
        cfg.mez_stalls.iter().map(|s| s.code()).collect::<Vec<_>>(),
        vec![10, 2]
    );
}

#[test]
fn missing_session_or_character_is_reported() {
    let prefs = LauncherPrefs::default();
    let ui = UiPrefs::default();
    let s = state(None);
    let none = build_launch_bundle(
        None, &s, &prefs, &ui, 1, false, String::new(), String::new(), false, None, "/d",
    );
    assert_eq!(none.err(), Some("missing auth response when preparing game launch".to_string()));
    let a = auth(None);
    let missing = build_launch_bundle(
        Some(&a), &s, &prefs, &ui, 7, false, String::new(), String::new(), false, None, "/d",
    );
    assert_eq!(missing.err(), Some("selected character 7 not found in auth response".to_string()));
}

#[test]
fn the_launch_plan_prepares_names_signature_and_friends() {
    let mut c = MhfConfig::default();
    c.char_id = 7;
    c.mutex_version = MhfVersion::ZZ;
    c.mutex_fallback_version = Some(MhfVersion::F5);
    c.friend_signature = Some("  NONE ".to_string());
    c.mhf_flags = Some(vec![CliFlags::Selfup, CliFlags::NpMhfoTest]);
    c.friends = vec![
        mezeporta::mhf::FriendData { cid: 7, id: 1, name: "a".to_string() },
        mezeporta::mhf::FriendData { cid: 8, id: 2, name: "b".to_string() },
        mezeporta::mhf::FriendData { cid: 7, id: 3, name: "c".to_string() },
    ];
    let p = launch_plan(&c, "C:\\MHF", 1234);
    assert_eq!(p.folder_name, "C:\\MHF/");
    assert_eq!(p.master_mutex, "MONSTER HUNTER FRONTIER Z MHF_MASTER 1234");
    assert_eq!(p.master_ready_mutex, "MONSTER HUNTER FRONTIER Z MHF_MASTER_READY 1234");
    assert_eq!(
        p.fallback_mutexes,
        Some((
            "MONSTER HUNTER FRONTIER ONLINE MHF_MASTER 1234".to_string(),
            "MONSTER HUNTER FRONTIER ONLINE MHF_MASTER_READY 1234".to_string()
        ))
    );
    assert_eq!(p.cmd_data.cmd_flags_1, 1);
    assert_eq!(p.cmd_data.cmd_flags_2, 4);
    assert_eq!(p.friend_signature, None);
    assert_eq!(p.friends.iter().map(|f| f.id).collect::<Vec<_>>(), vec![1, 3]);
    assert_eq!(mhf_folder_name("/games/mhf/"), "/games/mhf/");
    assert_eq!(mhf_folder_name(""), "/");
    c.mutex_fallback_version = Some(MhfVersion::ZZ);
    c.friend_signature = Some(" zz-sig ".to_string());
    let p = launch_plan(&c, "/x", 1);
    assert_eq!(p.fallback_mutexes, None);
    assert_eq!(p.friend_signature, Some("zz-sig".to_string()));
}

#[test]
fn the_shared_block_holds_notices_and_the_mezfes_event() {
    let mut c = MhfConfig::default();
    c.notices = vec![
        Notice { flags: 0x0102, data: "hi".to_string() },
        Notice { flags: 0, data: "x".repeat(5000) },
    ];
    c.mez_event_id = 0x01020304;
    c.mez_group_tickets = 9;
    c.mez_stalls = vec![MezFesStall::StallMap, MezFesStall::Pachinko];
    let b = global_data_blob(&c);
    assert_eq!(b.len(), 0x8ae0);
    assert_eq!(&b[0xa0c..0xa10], &[2, 0, 0, 0]);
    assert_eq!(&b[0xa10..0xa14], &[0x88, 0x13, 0, 0]);
    assert_eq!(&b[0xa24..0xa26], &[2, 1]);
    assert_eq!(&b[0xa2c..0xa2f], &[b'h', b'i', 0]);
    assert!(b[0x1a2c..0x2a2c].iter().all(|&x| x == b'x'));
    assert_eq!(b[0x2a2c], 0);
    assert_eq!(&b[0x8aac..0x8ab0], &[4, 3, 2, 1]);
    assert_eq!(&b[0x8abc..0x8ac0], &[9, 0, 0, 0]);
    assert_eq!(&b[0x8ac0..0x8ac8], &[10, 0, 0, 0, 3, 0, 0, 0]);
    assert!(b[0x8ac8..].iter().all(|&x| x == 0));
    assert!(b[..0xa0c].iter().all(|&x| x == 0));
}
