use mezeporta::wine::{
    expand_home_path, resolve_proton_command, resolve_wine_command, resolve_wine_prefix,
    search_path_with_defaults,
};
use mezeporta::wine::{
    controller_dll_files, controller_dll_renames, controller_dlls_present, ControllerDllPresence,
    ControllerDllRename,
};
use mezeporta::wine::{preferred_ui_audio_sink, sfx_silent_requested, AudioProbe};
use mezeporta::wine::{
    command_failure_detail, controller_dll_override_names, find_missing_linux_audio_runtime,
    find_missing_wine_tools, is_ephemeral_appimage_runtime_dir, mentions_wsl,
    overrides_need_writing, override_failure_message, program_name, wine_reg_override_args,
    WineRuntimeKind,
};

#[test]
fn override_commands() {
    assert_eq!(controller_dll_override_names(), vec!["xinput1_3", "dinput", "dinput8"]);
    assert_eq!(
        wine_reg_override_args(true, "dinput"),
        vec!["add", "HKCU\\Software\\Wine\\DllOverrides", "/v", "dinput", "/t", "REG_SZ", "/d", "native,builtin", "/f"]
    );
    assert_eq!(
        wine_reg_override_args(false, "dinput8"),
        vec!["delete", "HKCU\\Software\\Wine\\DllOverrides", "/v", "dinput8", "/f"]
    );
    assert!(overrides_need_writing(true, false));
    assert!(!overrides_need_writing(false, false));
    assert!(overrides_need_writing(false, true));
    assert_eq!(command_failure_detail("  boom \n", "1"), "boom");
    assert_eq!(command_failure_detail("", "exit code: 2"), "exit status exit code: 2");
    assert_eq!(
        override_failure_message("dinput", "boom"),
        "failed to apply Wine controller override for dinput: boom"
    );
}

#[test]
fn missing_tools_and_audio() {
    assert_eq!(program_name(WineRuntimeKind::Proton), "proton");
    assert_eq!(find_missing_wine_tools(WineRuntimeKind::Wine, false, false, true), vec!["wine", "wineserver"]);
    assert_eq!(find_missing_wine_tools(WineRuntimeKind::Proton, false, false, false), vec!["proton"]);
    assert!(find_missing_wine_tools(WineRuntimeKind::Wine, true, true, true).is_empty());
    assert_eq!(find_missing_linux_audio_runtime(false, &[true; 4], false, true, true), vec!["gst-inspect-1.0"]);
    assert_eq!(
        find_missing_linux_audio_runtime(true, &[true, false, true, false], false, false, false),
        vec!["audioconvert", "volume", "audio-sink"]
    );
    assert_eq!(find_missing_linux_audio_runtime(true, &[true; 4], true, false, true), vec!["pulsesink"]);
    assert!(find_missing_linux_audio_runtime(true, &[true; 4], false, false, true).is_empty());
}

#[test]
fn environment_judgements() {
    assert!(mentions_wsl("5.15.90.1-Microsoft-standard-WSL2"));
    assert!(!mentions_wsl("6.1.0-generic"));
    assert!(is_ephemeral_appimage_runtime_dir("/tmp/.mount_abc/usr/bin"));
    assert!(is_ephemeral_appimage_runtime_dir("/home/u/squashfs-root/usr"));
    assert!(is_ephemeral_appimage_runtime_dir("/run/user/1000/x"));
    assert!(!is_ephemeral_appimage_runtime_dir("/opt/mezeporta"));
}

#[test]
fn controller_dlls_are_renamed_only_when_all_are_present() {
    let p = |active, disabled| ControllerDllPresence { active, disabled };
    let files = [p(true, false), p(false, true), p(true, true)];
    assert!(controller_dlls_present(&files));
    assert_eq!(
        controller_dll_renames(&files, true),
        vec![ControllerDllRename::Keep, ControllerDllRename::Enable, ControllerDllRename::Keep]
    );
    assert_eq!(
        controller_dll_renames(&files, false),
        vec![ControllerDllRename::Disable, ControllerDllRename::Keep, ControllerDllRename::Keep]
    );
    let missing = [p(true, false), p(false, false), p(false, true)];
    assert!(!controller_dlls_present(&missing));
    assert_eq!(controller_dll_renames(&missing, true), vec![ControllerDllRename::Keep; 3]);
    assert_eq!(controller_dll_files(), vec!["XInput1_3.dll", "Dinput.dll", "Dinput8.dll"]);
}

#[test]
fn interface_sounds_pick_an_available_sink() {
    let probe = AudioProbe {
        is_wsl: false,
        pulsesink: true,
        pulse_server: false,
        pipewiresink: true,
        pipewire_server: true,
        fakesink: true,
    };
    assert_eq!(preferred_ui_audio_sink(probe, false), Some("pipewiresink"));
    assert_eq!(preferred_ui_audio_sink(AudioProbe { pulse_server: true, ..probe }, false), Some("pulsesink"));
    assert_eq!(preferred_ui_audio_sink(AudioProbe { is_wsl: true, ..probe }, false), None);
    assert_eq!(preferred_ui_audio_sink(AudioProbe { is_wsl: true, ..probe }, true), Some("fakesink"));
    assert!(sfx_silent_requested(Some("TRUE")));
    assert!(sfx_silent_requested(Some("1")));
    assert!(!sfx_silent_requested(Some("yes")));
    assert!(!sfx_silent_requested(None));
}

#[test]
fn home_paths_expand_and_prefixes_resolve() {
    assert_eq!(expand_home_path("  ", Some("/home/a")), None);
    assert_eq!(expand_home_path(" ~ ", Some("/home/a")), Some("/home/a".to_string()));
    assert_eq!(expand_home_path("~/games/pfx", Some("/home/a")), Some("/home/a/games/pfx".to_string()));
    assert_eq!(expand_home_path("~/games", Some("/home/a/")), Some("/home/a/games".to_string()));
    assert_eq!(expand_home_path("~//abs", Some("/home/a")), Some("/abs".to_string()));
    assert_eq!(expand_home_path("~/x", None), None);
    assert_eq!(expand_home_path(" /opt/pfx ", None), Some("/opt/pfx".to_string()));
    assert_eq!(resolve_wine_prefix("System", None, "/g", None), Ok(None));
    assert_eq!(resolve_wine_prefix("proton", None, "/g", None), Ok(None));
    assert_eq!(resolve_wine_prefix("portable", None, "/g", None), Ok(Some("/g/Mezeporta/WinePrefix".to_string())));
    assert_eq!(resolve_wine_prefix("whatever", None, "/g/", None), Ok(Some("/g/Mezeporta/WinePrefix".to_string())));
    assert_eq!(
        resolve_wine_prefix("custom", Some("~/pfx"), "/g", Some("/home/a")),
        Ok(Some("/home/a/pfx".to_string()))
    );
    assert_eq!(
        resolve_wine_prefix("custom", None, "/g", None),
        Err("custom Wine prefix path is empty".to_string())
    );
}

#[test]
fn runtime_commands_and_search_paths() {
    assert_eq!(resolve_wine_command(Some("  "), Some("/opt/wine")), "/opt/wine");
    assert_eq!(resolve_wine_command(Some("wine64"), Some("/opt/wine")), "wine64");
    assert_eq!(resolve_wine_command(None, None), "wine");
    assert_eq!(resolve_proton_command(None, Some("/p/proton")), "/p/proton");
    assert_eq!(resolve_proton_command(None, None), "proton");
    let (paths, changed) = search_path_with_defaults(vec!["/usr/bin".to_string(), "/opt/x".to_string()]);
    assert!(changed);
    assert_eq!(
        paths,
        vec!["/usr/bin", "/opt/x", "/usr/local/sbin", "/usr/local/bin", "/usr/sbin", "/sbin", "/bin"]
            .iter()
            .map(|s| s.to_string())
            .collect::<Vec<_>>()
    );
    let (again, changed) = search_path_with_defaults(paths.clone());
    assert!(!changed);
    assert_eq!(again, paths);
}
