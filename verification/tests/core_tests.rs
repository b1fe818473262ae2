use mezeporta::mhf::{session_fields, CmdData};
use mezeporta::text::hex_string;
use mezeporta::friends::{find_layout_for_signature, friend_layout_signatures_for_version, make_ext_id, select_friend_layout};
use mezeporta::mhf::{
    available_friend_signatures, bufcopy, default_true, get_mutex_name, init_cli, resolve_layout_dll_name, run,
    s7k_font_startup_patch, CliFlags, Error, MezFesStall, MhfConfig,
};
use mezeporta::version::{label_to_version, version_to_label, version_to_savedata_token, MhfVersion};

#[test]
fn all_versions_lists_each_version_once() {
    let all = MhfVersion::all_versions();
    assert_eq!(all.len(), 21);
    for (i, a) in all.iter().enumerate() {
        for b in all.iter().skip(i + 1) {
            assert_ne!(a, b);
        }
    }
}

#[test]
fn labels_round_trip() {
    for v in MhfVersion::all_versions() {
        assert_eq!(label_to_version(version_to_label(v)), Some(v));
    }
    assert_eq!(label_to_version("  G10.1 "), Some(MhfVersion::G10_1));
    assert_eq!(label_to_version("Z3"), Some(MhfVersion::ZZ));
    assert_eq!(label_to_version("nope"), None);
    assert_eq!(version_to_savedata_token(MhfVersion::Z2T), "Z2.2");
    assert_eq!(version_to_savedata_token(MhfVersion::ZZ), "ZZ");
}

#[test]
fn version_codes_round_trip() {
    for v in MhfVersion::all_versions() {
        assert_eq!(MhfVersion::from_code(v.code()), Some(v));
    }
    assert_eq!(MhfVersion::from_code(0), None);
    assert_eq!(MhfVersion::default(), MhfVersion::ZZ);
}

#[test]
fn ext_ids_are_base32_least_significant_first() {
    assert_eq!(make_ext_id(0), "111111");
    assert_eq!(make_ext_id(1), "211111");
    assert_eq!(make_ext_id(32), "121111");
    assert_eq!(make_ext_id(31), "Z11111");
    assert_ne!(make_ext_id(12345), make_ext_id(12346));
}

#[test]
fn layouts_are_found_by_signature() {
    let layouts = friend_layout_signatures_for_version(MhfVersion::ZZ);
    assert!(!layouts.is_empty());
    let sig = layouts[0].signature;
    let found = find_layout_for_signature(sig, None, &layouts);
    assert!(found.is_some());
    assert!(find_layout_for_signature("no-such-signature", None, &layouts).is_none());
    assert!(select_friend_layout(MhfVersion::ZZ, "mhfo-hd.dll", None).is_none());
}

#[test]
fn offered_signatures_have_layouts() {
    for v in MhfVersion::all_versions() {
        for hd in [false, true] {
            let dll = if hd { "mhfo-hd.dll" } else { "mhfo.dll" };
            for sig in available_friend_signatures(v, hd) {
                assert!(select_friend_layout(v, dll, Some(&sig)).is_some(), "{:?} {}", v, sig);
            }
        }
    }
}

#[test]
fn run_checks_token_length() {
    let mut config = MhfConfig::default();
    config.user_token = "short".to_string();
    assert_eq!(run(&config, true), Err(Error::TokenLength));
    assert_eq!(run(&config, false), Err(Error::TokenLength));
    let mut config = MhfConfig::default();
    config.user_token = "0123456789ABCDEF".to_string();
    assert_eq!(run(&config, false), Err(Error::UnsupportedPlatform));
    assert_eq!(run(&config, true), Ok(()));
    assert_eq!(Error::TokenLength.message(), "user token must have a length of 16");
}

#[test]
fn stall_codes_round_trip() {
    for code in 0u32..20 {
        match MezFesStall::from_code(code) {
            Some(s) => assert_eq!(s.code(), code),
            None => assert!(code < 2 || code > 10),
        }
    }
}

#[test]
fn bufcopy_copies_common_prefix() {
    let mut buf = vec![9u8; 4];
    bufcopy(&mut buf, &[1, 2]);
    assert_eq!(buf, vec![1, 2, 9, 9]);
    let mut short = vec![0u8; 2];
    bufcopy(&mut short, &[5, 6, 7]);
    assert_eq!(short, vec![5, 6]);
}

#[test]
fn mutex_names_and_dlls() {
    assert_eq!(get_mutex_name(MhfVersion::ZZ, "mutex", 42), "MONSTER HUNTER FRONTIER Z mutex 42");
    assert_eq!(get_mutex_name(MhfVersion::S6, "m", 7), "MONSTER HUNTER FRONTIER ONLINE m 7");
    assert_eq!(resolve_layout_dll_name(1), "mhfo-hd.dll");
    assert_eq!(resolve_layout_dll_name(0), "mhfo.dll");
    assert!(default_true());
    let patch = s7k_font_startup_patch();
    assert_eq!(patch.len(), 0x36);
}

#[test]
fn init_cli_applies_flags() {
    let a = init_cli(&[]);
    assert_eq!((a.cmd_flags_1, a.cmd_flags_2, a.cmd_dmm), (0, 0, 0));
    let b = init_cli(&[CliFlags::Selfup, CliFlags::DmmReboot, CliFlags::NpMhfoTest]);
    assert_eq!((b.cmd_flags_1, b.cmd_flags_2, b.cmd_dmm), (8, 4, 1));
    let c = init_cli(&[CliFlags::Npge]);
    assert_eq!((c.cmd_flags_1, c.cmd_flags_2, c.cmd_dmm), (9, 6, 0));
}

#[test]
fn hexadecimal_text_matches_the_standard_format() {
    for n in [0u64, 9, 10, 15, 16, 255, 4096, 0xdead_beef, u64::MAX] {
        assert_eq!(hex_string(n), format!("{:x}", n));
    }
}

#[test]
fn session_fields_follow_the_configuration() {
    let mut config = MhfConfig::default();
    config.server_host = "example.org".to_string();
    config.server_port = 53310;
    config.char_new = true;
    config.enable_font_registration = true;
    let f = session_fields(&config, CmdData { cmd_flags_1: 0, cmd_flags_2: 0, cmd_dmm: 0 });
    assert_eq!(f.cmd_number, 1);
    assert_eq!(f.char_status, 2);
    assert_eq!(f.remote_addr, "example.org:53310");
    assert_eq!(f.alt_ip_address, "example.org:8080");
    assert_eq!(f.font_name_override.as_deref(), Some("MS Gothic"));
    config.char_new = false;
    config.enable_font_registration = false;
    let f = session_fields(&config, CmdData { cmd_flags_1: 3, cmd_flags_2: 0, cmd_dmm: 0 });
    assert_eq!(f.cmd_number, 3);
    assert_eq!(f.char_status, 0);
    assert_eq!(f.font_name_override, None);
    let f = session_fields(&config, CmdData { cmd_flags_1: 0, cmd_flags_2: 4, cmd_dmm: 0 });
    assert_eq!(f.cmd_number, 0);
}
