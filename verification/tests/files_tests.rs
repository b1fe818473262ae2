use mezeporta::manifest::{record_manifest_entry, sanitize_server_key, Manifest};
use mezeporta::patcher::{
    active_server_from, backup_file_name, cached_server_etag, etag_file_text, file_is_current, lower_hex,
    original_file_name, parse_patch_list, patch_plan, PatchPlan, server_cache_dir, content_hash, swap_plan, SwapInfo, SwapPlan,
};

#[test]
fn server_keys_are_file_name_safe() {
    assert_eq!(sanitize_server_key("host:8080/a?b"), "host_8080_a_b");
    assert_eq!(Manifest::path("h:1"), "Mezeporta/Manifests/h_1.json");
    assert_eq!(server_cache_dir("h:1"), "Mezeporta/Servers/h_1");
}

#[test]
fn manifest_entries_move_between_lists() {
    let mut m = Manifest::default();
    record_manifest_entry(&mut m, "a.dat", false);
    record_manifest_entry(&mut m, "a.dat", false);
    assert_eq!(m.added_files, vec!["a.dat".to_string()]);
    record_manifest_entry(&mut m, "a.dat", true);
    assert!(m.added_files.is_empty());
    assert_eq!(m.modified_files, vec!["a.dat".to_string()]);
    record_manifest_entry(&mut m, "b.dat", true);
    assert_eq!(m.modified_files, vec!["a.dat".to_string(), "b.dat".to_string()]);
}

#[test]
fn backup_names_round_trip() {
    for suffix in [".mezeb", ".butterold", ".buttold"] {
        let b = backup_file_name("mhfo.dll", suffix);
        assert_eq!(original_file_name(&b), Some("mhfo.dll".to_string()));
    }
    assert_eq!(original_file_name("plain.dll"), None);
}

#[test]
fn patch_lists_parse() {
    let list = parse_patch_list("abc\t/dat/a.bin\r\ndef\tb.bin\n").unwrap();
    assert_eq!(list.len(), 2);
    assert_eq!(list[0].hash, "abc");
    assert_eq!(list[0].path, "dat/a.bin");
    assert_eq!(list[1].hash, "def");
    assert_eq!(list[1].path, "b.bin");
    assert_eq!(parse_patch_list("no tab").err(), Some("patcher-network-error"));
    assert_eq!(parse_patch_list("a\tb\n\n").err(), Some("patcher-network-error"));
    assert_eq!(parse_patch_list("").unwrap().len(), 0);
}

#[test]
fn files_are_current_when_their_hash_matches() {
    assert_eq!(
        content_hash(b"abc"),
        "ba7816bf8f01cfea414140de5dae2223b00361a396177a9cb410ff61f20015ad"
    );
    assert_eq!(lower_hex(&[0x00, 0x0f, 0xa0, 0xff]), "000fa0ff");
    assert!(file_is_current(
        "ba7816bf8f01cfea414140de5dae2223b00361a396177a9cb410ff61f20015ad",
        Some(b"abc")
    ));
    assert!(!file_is_current("00", Some(b"abc")));
    assert!(!file_is_current("00", None));
}

#[test]
fn swap_plans_and_etags() {
    let info = SwapInfo {
        active_server: Some("a".to_string()),
        active_has_manifest: true,
        target_has_manifest: true,
        target_has_cache: true,
    };
    assert_eq!(swap_plan(&info, "a"), SwapPlan::AlreadyActive);
    assert_eq!(swap_plan(&info, "b"), SwapPlan::Restore);
    let info = SwapInfo { active_server: None, active_has_manifest: false, target_has_manifest: true, target_has_cache: false };
    assert_eq!(swap_plan(&info, "b"), SwapPlan::Unavailable);
    assert_eq!(cached_server_etag(Some(" \"x\"\n".to_string())), Some("\"x\"".to_string()));
    assert_eq!(cached_server_etag(Some("  ".to_string())), None);
    assert_eq!(cached_server_etag(None), None);
    assert_eq!(active_server_from(Some("srv\n".to_string())), Some("srv".to_string()));
}

#[test]
fn patch_runs_are_planned_from_the_cached_state() {
    // Same server, same ETag: nothing to download.
    assert_eq!(patch_plan(Some(" host_1\n"), "host_1", "\"abc\"", " \"abc\" ", true, true), PatchPlan::UpToDate);
    // Another server whose current files are cached.
    assert_eq!(
        patch_plan(Some("other"), "host_1", "\"abc\"", "\"abc\"", true, true),
        PatchPlan::FromCache { restore_previous: true }
    );
    assert_eq!(
        patch_plan(None, "host_1", "\"abc\"", "\"abc\"", true, true),
        PatchPlan::FromCache { restore_previous: false }
    );
    // Without a complete cache the files are downloaded after a restore.
    assert_eq!(
        patch_plan(Some("other"), "host_1", "\"abc\"", "\"abc\"", true, false),
        PatchPlan::Download { restore: Some("other".to_string()), clear_cache: false }
    );
    // A stale cached ETag drops the cache.
    assert_eq!(
        patch_plan(Some("host_1"), "host_1", "\"old\"", "\"new\"", true, true),
        PatchPlan::Download { restore: Some("host_1".to_string()), clear_cache: true }
    );
    assert_eq!(
        patch_plan(Some("  "), "host_1", "", "\"new\"", false, false),
        PatchPlan::Download { restore: None, clear_cache: false }
    );
}

#[test]
fn a_written_tag_reads_back_trimmed() {
    let written = etag_file_text(" \"abc\"\n").expect("a tag that is not blank");
    assert_eq!(written, "\"abc\"");
    assert_eq!(cached_server_etag(Some(written.clone())), Some(written));
    assert_eq!(etag_file_text("  \t"), None);
}
