use mezeporta::altclient::{
    apply_session_stats, build_character_stats, AltClientSessionCharacterStats,
    AltClientSessionStatsResponse, AltClientStats, AltClientUserStats,
};
use mezeporta::detect::detect_version_from_images;
use mezeporta::launcher::{
    alt_character_cache_path, alt_character_user_cache_dir, decode_savedata, alt_character_version_path,
    default_friend_signature, default_launcher_window_size, default_wine_prefix_mode,
    format_resolution_value, identity_with_savedata_version, launcher_style_is_resizable,
    map_game_version_to_mutex_version, normalize_friend_signature, normalize_launcher_style,
    normalize_launcher_window_dimension, normalize_recent_resolution_entry,
    normalize_recent_resolution_list, normalize_savedata_version_token,
    normalize_wine_prefix_custom_path, normalize_wine_prefix_mode, offline_images_readme,
    sanitize_cache_path_segment, savedata_token_to_cache_version_label, AltCharacterCacheIdentity,
    LauncherWindowSize, LogPayload, UiPrefs,
};
use mezeporta::server::{CharacterData, CourseData};
use mezeporta::settings::{setting_entry, settings_from_values, settings_keys, SettingValue};
use mezeporta::version::MhfVersion;

#[test]
fn window_styles_and_sizes() {
    assert!(launcher_style_is_resizable(1));
    assert!(launcher_style_is_resizable(3));
    assert!(!launcher_style_is_resizable(2));
    assert_eq!(normalize_launcher_style(3), 3);
    assert_eq!(normalize_launcher_style(7), 1);
    assert_eq!(default_launcher_window_size(3), LauncherWindowSize { width: 1280, height: 720 });
    assert_eq!(default_launcher_window_size(0), LauncherWindowSize { width: 1124, height: 600 });
    assert_eq!(normalize_launcher_window_dimension(0, 600), 600);
    assert_eq!(normalize_launcher_window_dimension(10, 600), 320);
    assert_eq!(normalize_launcher_window_dimension(10000, 600), 8192);
    assert_eq!(normalize_launcher_window_dimension(1000, 600), 1000);
    let mut prefs = UiPrefs::default();
    prefs.ps4_launcher_width = 0;
    prefs.ps4_launcher_height = 5000;
    assert_eq!(prefs.launcher_window_size_for_style(3), LauncherWindowSize { width: 1280, height: 5000 });
    assert_eq!(prefs.launcher_window_size_for_style(1), LauncherWindowSize { width: 1124, height: 600 });
    assert_eq!(prefs.launcher_window_size_for_style(9), LauncherWindowSize { width: 1124, height: 600 });
}

#[test]
fn resolutions_normalise() {
    assert_eq!(format_resolution_value(1920, 1080), "1920x1080");
    assert_eq!(normalize_recent_resolution_entry(" 1920 x 1080 "), Some("1920x1080".to_string()));
    assert_eq!(normalize_recent_resolution_entry("0x1080"), None);
    assert_eq!(normalize_recent_resolution_entry("1920"), None);
    assert_eq!(normalize_recent_resolution_entry("ax1"), None);
    let values: Vec<String> = ["800x600", "800 x 600", "bad", "1x1", "2x2", "3x3", "4x4", "5x5"]
        .iter()
        .map(|s| s.to_string())
        .collect();
    assert_eq!(
        normalize_recent_resolution_list(&values),
        vec!["800x600", "1x1", "2x2", "3x3", "4x4"].iter().map(|s| s.to_string()).collect::<Vec<_>>()
    );
}

#[test]
fn wine_and_signature_normalisers() {
    assert_eq!(default_wine_prefix_mode(), "portable");
    assert_eq!(normalize_wine_prefix_mode(" SYSTEM "), "system");
    assert_eq!(normalize_wine_prefix_mode("Proton"), "proton");
    assert_eq!(normalize_wine_prefix_mode("weird"), "portable");
    assert_eq!(normalize_wine_prefix_custom_path(Some("  /p  ")), Some("/p".to_string()));
    assert_eq!(normalize_wine_prefix_custom_path(Some("  ")), None);
    assert_eq!(normalize_wine_prefix_custom_path(None), None);
    assert_eq!(default_friend_signature(), "none");
    assert_eq!(normalize_friend_signature(" DETECT-beta "), "none");
    assert_eq!(normalize_friend_signature(""), "none");
    assert_eq!(normalize_friend_signature(" v1.0 "), "v1.0");
    assert_eq!(map_game_version_to_mutex_version(MhfVersion::G7), MhfVersion::G7);
}

#[test]
fn cache_segments_are_safe() {
    assert_eq!(sanitize_cache_path_segment(" a/b:c. ", "F"), "a_b_c");
    assert_eq!(sanitize_cache_path_segment(" ... ", "F"), "F");
    assert_eq!(sanitize_cache_path_segment("con", "F"), "_con");
    assert_eq!(sanitize_cache_path_segment("x\u{7}y", "F"), "x_y");
    let id = AltCharacterCacheIdentity {
        server_name: "h:1".to_string(),
        version_label: "ZZ".to_string(),
        username: "".to_string(),
        character_name: "Hero".to_string(),
    };
    assert_eq!(alt_character_user_cache_dir(&id), "Mezeporta/Servers/h_1/ZZ/Users/UnknownUser/Hero");
    assert_eq!(alt_character_cache_path(&id), "Mezeporta/Servers/h_1/ZZ/Users/UnknownUser/Hero/savedata");
    assert_eq!(alt_character_version_path(&id), "Mezeporta/Servers/h_1/ZZ/Users/UnknownUser/Hero/GSV.json");
    assert_eq!(normalize_savedata_version_token(Some(" z2.2 ")), Some("z2.2".to_string()));
    assert_eq!(normalize_savedata_version_token(Some(" ")), None);
    assert_eq!(savedata_token_to_cache_version_label(" z2.2 "), "Z2T");
    assert_eq!(savedata_token_to_cache_version_label("G7"), "G7");
    let changed = identity_with_savedata_version(id.clone(), Some("Z2.2"));
    assert_eq!(changed.version_label, "Z2T");
    let same = identity_with_savedata_version(id, Some("   "));
    assert_eq!(same.version_label, "ZZ");
}

#[test]
fn payloads_and_notes() {
    let e = LogPayload::error("bad".to_string());
    assert_eq!(e.level, "error");
    assert_eq!(e.message, "bad");
    assert_eq!(LogPayload::warning("w".to_string()).level, "warning");
    let readme = offline_images_readme("Classic");
    assert!(readme.starts_with("# Classic Offline Image Overrides\n\n"));
    assert!(readme.ends_with("still come from the server.\n"));
}

#[test]
fn versions_are_detected_from_library_images() {
    let mut mhfo = vec![0u8; 64];
    mhfo.extend_from_slice(b"MONSTER HUNTER FRONTIER G7");
    mhfo.extend_from_slice(&[0u8; 16]);
    assert_eq!(detect_version_from_images(None, &mhfo), Some(MhfVersion::G7));
    let mut hd = vec![1u8; 10];
    for b in "v1.52.79_04d16dc4".bytes() {
        hd.push(b);
        hd.push(0);
    }
    assert_eq!(detect_version_from_images(Some(&hd), &mhfo), Some(MhfVersion::ZZ));
    let mut be = vec![];
    for b in "MONSTER HUNTER FRONTIER SEASON 6.0".bytes() {
        be.push(0);
        be.push(b);
    }
    assert_eq!(detect_version_from_images(Some(&[0u8; 4]), &be), Some(MhfVersion::S6));
    assert_eq!(detect_version_from_images(None, &[0u8; 100]), None);
}

#[test]
fn settings_entries_and_defaults() {
    let e = setting_entry("hdVersion", SettingValue::Bool(true)).unwrap();
    assert_eq!((e.section, e.key, e.value.as_str()), ("VIDEO", "GRAPHICS_VER", "1"));
    let e = setting_entry("brightness", SettingValue::Number("-3".to_string())).unwrap();
    assert_eq!((e.section, e.key, e.value.as_str()), ("SCREEN", "BRIGHT", "-3"));
    assert!(setting_entry("brightness", SettingValue::Bool(true)).is_none());
    assert!(setting_entry("fullscreen", SettingValue::Number("1".to_string())).is_none());
    assert!(setting_entry("nope", SettingValue::Bool(true)).is_none());
    assert!(setting_entry("x", SettingValue::Other).is_none());
    let keys = settings_keys();
    assert_eq!(keys.len(), 38);
    assert_eq!(keys[0], ("VIDEO", "GRAPHICS_VER"));
    let mut values = vec![None; 38];
    let defaults = settings_from_values(&values);
    assert!(defaults.hd_version);
    assert_eq!(defaults.brightness, -128);
    assert_eq!(defaults.sound_frequency, 48000);
    assert!(!defaults.texture_compression);
    values[0] = Some(0);
    values[2] = Some(4294967296 + 5);
    let s = settings_from_values(&values);
    assert!(!s.hd_version);
    assert_eq!(s.fullscreen_w, 5);
}

#[test]
fn character_stats_take_session_values() {
    let chars = vec![
        CharacterData { id: 1, name: "A".to_string(), is_female: false, weapon: 0, hr: 1, gr: 0, last_login: 0, returning: true },
        CharacterData { id: 2, name: "B".to_string(), is_female: false, weapon: 0, hr: 1, gr: 0, last_login: 0, returning: false },
    ];
    let courses = vec![CourseData { id: 3, name: "Premium".to_string() }];
    let stats = build_character_stats(chars, courses);
    assert_eq!(stats.len(), 2);
    assert_eq!(stats[0].name, "A");
    assert!(stats[0].returning);
    assert_eq!(stats[1].courses[0].name, "Premium");
    let mut out = AltClientStats { characters: stats, ..Default::default() };
    let session = AltClientSessionStatsResponse {
        user: AltClientUserStats { gacha_premium: 1, gacha_trial: 2, frontier_points: 3 },
        characters: vec![
            AltClientSessionCharacterStats { id: 2, time_played: 10, unread_mail: 1, ..Default::default() },
            AltClientSessionCharacterStats { id: 2, time_played: 20, unread_mail: 2, ..Default::default() },
        ],
        online_friends: vec![],
    };
    apply_session_stats(&mut out, session);
    assert_eq!(out.user.frontier_points, 3);
    assert_eq!(out.characters[0].time_played, 0);
    assert_eq!(out.characters[1].time_played, 20);
    assert_eq!(out.characters[1].unread_mail, 2);
    assert_eq!(out.characters[1].name, "B");
}

#[test]
fn savedata_is_base64() {
    assert_eq!(decode_savedata(" aGVsbG8= \n"), Ok(b"hello".to_vec()));
    assert_eq!(decode_savedata("   "), Err("internal-error".to_string()));
    assert_eq!(decode_savedata("!!!"), Err("internal-error".to_string()));
}
