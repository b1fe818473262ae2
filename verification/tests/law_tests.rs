use mezeporta::friends::{find_layout_for_signature, friend_layout_signatures_for_version, make_ext_id};
use mezeporta::manifest::{record_manifest_entry, Manifest};
use mezeporta::mhf::available_friend_signatures;
use mezeporta::settings::{
    apply_setting_text, setting_entry, settings_from_ini_text, settings_from_values, settings_keys, SettingValue,
};
use mezeporta::version::MhfVersion;

const ALPHABET: &str = "123456789ABCDEFGHJKLMNPQRTUVWXYZ";

fn strings(v: &[&str]) -> Vec<String> {
    v.iter().map(|s| s.to_string()).collect()
}

#[test]
fn noting_a_file_keeps_the_other_entries_in_order() {
    let mut m = Manifest {
        modified_files: strings(&["a", "b", "c"]),
        added_files: strings(&["d", "e"]),
    };
    record_manifest_entry(&mut m, "b", false);
    assert_eq!(m.modified_files, strings(&["a", "c"]));
    assert_eq!(m.added_files, strings(&["d", "e", "b"]));
    record_manifest_entry(&mut m, "d", true);
    assert_eq!(m.modified_files, strings(&["a", "c", "d"]));
    assert_eq!(m.added_files, strings(&["e", "b"]));
}

#[test]
fn external_ids_read_back_as_the_id() {
    for id in [0u32, 1, 31, 32, 33, 123_456, 1_073_741_823] {
        let ext = make_ext_id(id);
        assert_eq!(ext.len(), 6);
        let mut value: u64 = 0;
        let mut place: u64 = 1;
        for c in ext.chars() {
            let digit = ALPHABET.find(c).expect("digit of the alphabet") as u64;
            value += digit * place;
            place *= 32;
        }
        assert_eq!(value, id as u64);
    }
}

#[test]
fn offered_signatures_pick_the_dll_of_the_mode() {
    for version in [MhfVersion::G6, MhfVersion::G7, MhfVersion::G9_1, MhfVersion::G10_1, MhfVersion::Z1, MhfVersion::ZZ] {
        for hd in [false, true] {
            let layouts = friend_layout_signatures_for_version(version);
            let offered = available_friend_signatures(version, hd);
            assert!(!offered.is_empty());
            for sig in offered {
                let layout = find_layout_for_signature(&sig, None, &layouts).expect("a layout");
                assert_eq!(layout.dll_name, if hd { "mhfo-hd.dll" } else { "mhfo.dll" });
            }
        }
    }
}

#[test]
fn a_written_setting_is_read_back() {
    let entry = setting_entry("fullscreenW", SettingValue::Number("1280".to_string())).expect("known setting");
    assert_eq!((entry.section, entry.key, entry.value.as_str()), ("SCREEN", "FULLSCREEN_RESOLUTION_W", "1280"));
    let keys = settings_keys();
    let at = keys.iter().position(|k| *k == (entry.section, entry.key)).expect("a key that is read");
    assert_eq!(keys.iter().filter(|k| **k == (entry.section, entry.key)).count(), 1);
    let mut values: Vec<Option<i64>> = vec![None; keys.len()];
    let before = settings_from_values(&values);
    values[at] = entry.value.parse::<i64>().ok();
    let after = settings_from_values(&values);
    assert_eq!(after.fullscreen_w, 1280);
    assert_eq!(after.fullscreen_h, before.fullscreen_h);
    assert_eq!(after.window_w, before.window_w);

    let flag = setting_entry("hdVersion", SettingValue::Bool(false)).expect("known setting");
    assert_eq!(flag.value, "0");
    let at = keys.iter().position(|k| *k == (flag.section, flag.key)).expect("a key that is read");
    values[at] = flag.value.parse::<i64>().ok();
    let after = settings_from_values(&values);
    assert!(!after.hd_version);
    assert_eq!(after.fullscreen_w, 1280);
}

#[test]
fn settings_are_read_from_ini_text() {
    let text = "[SCREEN]\nFULLSCREEN_RESOLUTION_W=1280\n[video]\ngraphics_ver = 0\nDISP_MAX_CHAR=lots\n";
    let s = settings_from_ini_text(text);
    assert_eq!(s.fullscreen_w, 1280);
    assert!(!s.hd_version);
    assert_eq!(s.max_char_display, 100);
    assert_eq!(s.window_w, 1920);
    assert_eq!(s.brightness, -128);
    let empty = settings_from_ini_text("");
    assert!(empty.hd_version);
    assert_eq!(empty.fullscreen_w, 1920);
}

#[test]
fn settings_written_into_ini_text_read_back() {
    let text = "[SCREEN]\nFULLSCREEN_RESOLUTION_W=1280\nBRIGHT=5\n[VIDEO]\nGRAPHICS_VER=0\n[OTHER]\nx=y\n";
    let before = settings_from_ini_text(text);
    let after_text =
        apply_setting_text(text, "fullscreenW", SettingValue::Number("1600".to_string())).expect("known setting");
    assert_ne!(after_text, text);
    let after = settings_from_ini_text(&after_text);
    assert_eq!(after.fullscreen_w, 1600);
    assert_eq!(after.brightness, before.brightness);
    assert_eq!(after.brightness, 5);
    assert!(!after.hd_version);
    let again = apply_setting_text(&after_text, "hdVersion", SettingValue::Bool(true)).expect("known setting");
    let after = settings_from_ini_text(&again);
    assert!(after.hd_version);
    assert_eq!(after.fullscreen_w, 1600);
    assert!(apply_setting_text(text, "noSuchSetting", SettingValue::Bool(true)).is_none());
    assert!(apply_setting_text(text, "fullscreenW", SettingValue::Bool(true)).is_none());
    let fresh = apply_setting_text("", "windowH", SettingValue::Number("720".to_string())).expect("known setting");
    assert_eq!(settings_from_ini_text(&fresh).window_h, 720);
}
