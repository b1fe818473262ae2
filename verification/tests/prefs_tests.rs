use mezeporta::launcher::UiPrefs;
use mezeporta::prefs::{
    apply_launcher_pref_update, apply_ui_pref, normalize_loaded_state, LauncherPrefUpdate, LauncherPrefs,
    UiPrefValue,
};
use mezeporta::version::MhfVersion;

#[test]
fn launcher_pref_updates_are_normalised() {
    let mut p = LauncherPrefs::default();
    let update = LauncherPrefUpdate {
        preload_controller_dlls: None,
        friend_signature: Some("  DETECT ".to_string()),
        wine_prefix_mode: Some(" Proton ".to_string()),
        wine_prefix_custom_path: Some(Some("  /opt/prefix  ".to_string())),
    };
    apply_launcher_pref_update(&mut p, Some(update), Some(true));
    assert!(p.preload_controller_dlls);
    assert_eq!(p.friend_signature, "none");
    assert_eq!(p.wine_prefix_mode, "proton");
    assert_eq!(p.wine_prefix_custom_path, Some("/opt/prefix".to_string()));
}

#[test]
fn launcher_pref_update_prefers_its_own_preload_flag_and_keeps_the_rest() {
    let mut p = LauncherPrefs::default();
    p.friend_signature = "sig".to_string();
    let update = LauncherPrefUpdate {
        preload_controller_dlls: Some(false),
        friend_signature: None,
        wine_prefix_mode: None,
        wine_prefix_custom_path: Some(None),
    };
    p.preload_controller_dlls = true;
    p.wine_prefix_custom_path = Some("/x".to_string());
    apply_launcher_pref_update(&mut p, Some(update), Some(true));
    assert!(!p.preload_controller_dlls);
    assert_eq!(p.friend_signature, "sig");
    assert_eq!(p.wine_prefix_mode, "portable");
    assert_eq!(p.wine_prefix_custom_path, None);
    apply_launcher_pref_update(&mut p, None, None);
    assert!(!p.preload_controller_dlls);
}

#[test]
fn flags_and_numbers_are_set() {
    let mut p = UiPrefs::default();
    let mut v = MhfVersion::ZZ;
    assert!(apply_ui_pref(&mut p, &mut v, "sfxEnabled", UiPrefValue::Bool(true)));
    assert!(p.sfx_enabled);
    assert!(apply_ui_pref(&mut p, &mut v, "sfxVolume", UiPrefValue::Number(Some(1000))));
    assert_eq!(p.sfx_volume, 255);
    assert!(apply_ui_pref(&mut p, &mut v, "sfxVolume", UiPrefValue::Number(None)));
    assert_eq!(p.sfx_volume, 255);
    assert!(apply_ui_pref(&mut p, &mut v, "classicLauncherWidth", UiPrefValue::Number(Some(100))));
    assert_eq!(p.classic_launcher_width, 320);
    assert!(apply_ui_pref(&mut p, &mut v, "ps4LauncherHeight", UiPrefValue::Number(Some(0))));
    assert_eq!(p.ps4_launcher_height, 720);
    // A whole number past 32 bits wraps before it is normalised.
    assert!(apply_ui_pref(&mut p, &mut v, "ps4LauncherWidth", UiPrefValue::Number(Some((1u64 << 32) + 1000))));
    assert_eq!(p.ps4_launcher_width, 1000);
    assert!(apply_ui_pref(&mut p, &mut v, "offlineImages", UiPrefValue::Bool(true)));
    assert!(p.offline_images);
}

#[test]
fn wrong_kinds_and_unknown_names_change_nothing() {
    let mut p = UiPrefs::default();
    let mut v = MhfVersion::ZZ;
    assert!(!apply_ui_pref(&mut p, &mut v, "sfxEnabled", UiPrefValue::Number(Some(1))));
    assert!(!p.sfx_enabled);
    assert!(!apply_ui_pref(&mut p, &mut v, "unknown", UiPrefValue::Bool(true)));
    assert!(!apply_ui_pref(&mut p, &mut v, "devMode", UiPrefValue::Other));
    assert!(!p.dev_mode);
}

#[test]
fn font_presets_and_game_versions_are_checked() {
    let mut p = UiPrefs::default();
    let mut v = MhfVersion::ZZ;
    assert!(apply_ui_pref(&mut p, &mut v, "fontPreset", UiPrefValue::Text("custom:Meiryo".to_string())));
    assert_eq!(p.font_preset, "custom:Meiryo");
    assert!(apply_ui_pref(&mut p, &mut v, "fontPreset", UiPrefValue::Text("custom:../x/y".to_string())));
    assert_eq!(p.font_preset, "custom:Meiryo");
    assert!(apply_ui_pref(&mut p, &mut v, "fontPreset", UiPrefValue::Text("classic".to_string())));
    assert_eq!(p.font_preset, "classic");
    assert!(apply_ui_pref(&mut p, &mut v, "gameVersion", UiPrefValue::Text(" Z1 ".to_string())));
    assert_eq!(p.game_version, MhfVersion::Z1);
    assert_eq!(v, MhfVersion::Z1);
    assert!(apply_ui_pref(&mut p, &mut v, "gameVersion", UiPrefValue::Text("nope".to_string())));
    assert_eq!(v, MhfVersion::Z1);
}

#[test]
fn resolution_lists_keep_text_entries() {
    let mut p = UiPrefs::default();
    let mut v = MhfVersion::ZZ;
    let entries = vec![
        Some("1920x1080".to_string()),
        None,
        Some("1920x1080".to_string()),
        Some("1280x720".to_string()),
    ];
    assert!(apply_ui_pref(&mut p, &mut v, "classicLauncherRecentResolutions", UiPrefValue::List(entries)));
    assert_eq!(p.classic_launcher_recent_resolutions, vec!["1920x1080".to_string(), "1280x720".to_string()]);
}

#[test]
fn loaded_settings_are_brought_to_normal_form() {
    let mut prefs = LauncherPrefs::default();
    prefs.friend_signature = " detect-beta ".to_string();
    prefs.wine_prefix_mode = "SYSTEM".to_string();
    prefs.wine_prefix_custom_path = Some("   ".to_string());
    let mut ui = UiPrefs::default();
    ui.ps4_launcher_recent_resolutions = vec!["1280 x 720".to_string(), "bad".to_string()];
    let mut style = 7;
    let mut list = " https://servers.example/list ".to_string();
    let mut messages = "file:///etc/passwd".to_string();
    assert!(normalize_loaded_state(&mut prefs, &mut ui, &mut style, &mut list, &mut messages));
    assert_eq!(prefs.friend_signature, "none");
    assert_eq!(prefs.wine_prefix_mode, "system");
    assert_eq!(prefs.wine_prefix_custom_path, None);
    assert_eq!(ui.ps4_launcher_recent_resolutions, vec!["1280x720".to_string()]);
    assert_eq!(style, 1);
    assert_eq!(list, "https://servers.example/list");
    assert_eq!(messages, "");
    assert!(!normalize_loaded_state(&mut prefs, &mut ui, &mut style, &mut list, &mut messages));
}
