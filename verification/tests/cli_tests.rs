use mezeporta::cli::{
    build_cli_launch_config, choose_signature, cli_action, cli_auth_failure, cli_endpoint_url,
    launcher_font_name, parse_args, CliAction, CliAuthResponse, CliCharacterData, CliFriendData,
    CliMezFesData, CliUserData,
};
use mezeporta::mhf::MezFesStall;
use mezeporta::version::MhfVersion;

fn args(list: &[&str]) -> Vec<String> {
    list.iter().map(|s| s.to_string()).collect()
}

#[test]
fn parse_args_reads_all_options() {
    let a = parse_args(&args(&[
        "prog", "-v", "ZZ", "-u", "player", "-pw", "secret", "-s", "10.0.0.1", "-c", "1", "-HD",
        "-fs", "v1.52.79_04d16dc4", "-p2", "54000",
    ]))
    .unwrap();
    assert_eq!(a.version, "ZZ");
    assert_eq!(a.username, "player");
    assert_eq!(a.password, "secret");
    assert_eq!(a.server_host, "10.0.0.1");
    assert_eq!(a.character_slot, 1);
    assert!(a.hd);
    assert!(!a.sign_server);
    assert_eq!(a.launcher_port, 8080);
    assert_eq!(a.game_port, 54000);
    assert_eq!(a.friend_signature, Some("v1.52.79_04d16dc4".to_string()));
}

#[test]
fn parse_args_defaults_sign_server_port() {
    let a = parse_args(&args(&["prog", "-t", "-v", "S7K", "-u", "u", "-pw", "p", "-s", "h", "-c", "0"]))
        .unwrap();
    assert!(a.sign_server);
    assert_eq!(a.launcher_port, 53312);
    assert_eq!(a.game_port, 53310);
    assert_eq!(a.friend_signature, None);
}

#[test]
fn parse_args_errors() {
    assert_eq!(parse_args(&args(&["prog", "-v"])).err(), Some("--version requires a value".to_string()));
    assert_eq!(parse_args(&args(&["prog", "--bogus"])).err(), Some("unknown option: --bogus".to_string()));
    assert_eq!(
        parse_args(&args(&["prog", "-p1", "99999"])).err(),
        Some("invalid launcher port: 99999".to_string())
    );
    assert_eq!(parse_args(&args(&["prog", "-c", "x"])).err(), Some("invalid character slot: x".to_string()));
    assert_eq!(parse_args(&args(&["prog"])).err(), Some("-u/--username is required".to_string()));
    assert_eq!(
        parse_args(&args(&["prog", "-u", "a", "-pw", "b", "-s", "c", "-v", "ZZ"])).err(),
        Some("-c/--character is required".to_string())
    );
}

#[test]
fn cli_actions() {
    assert!(matches!(cli_action(&args(&["prog", "-h"])), CliAction::Help));
    assert!(matches!(cli_action(&args(&["prog", "--list-version"])), CliAction::ListVersions));
    match cli_action(&args(&["prog", "--list-signatures", "-v", "ZZ"])) {
        CliAction::ListSignatures(Some(v)) => assert_eq!(v, "ZZ"),
        _ => panic!("expected a signature listing"),
    }
    assert!(matches!(cli_action(&args(&["prog", "--list-signatures"])), CliAction::ListSignatures(None)));
    assert!(matches!(cli_action(&args(&["prog", "-u", "x"])), CliAction::Launch));
    assert!(matches!(cli_action(&args(&["prog", "something"])), CliAction::NotCli));
}

#[test]
fn endpoint_urls_signatures_and_auth_failures() {
    assert_eq!(cli_endpoint_url("host", 8080), "host");
    assert_eq!(cli_endpoint_url("host", 53312), "host:53312");
    let sigs = args(&["a", "b"]);
    assert_eq!(choose_signature("2", &sigs), "a");
    assert_eq!(choose_signature(" 3 ", &sigs), "b");
    assert_eq!(choose_signature("1", &sigs), "none");
    assert_eq!(choose_signature("9", &sigs), "none");
    assert_eq!(choose_signature("x", &sigs), "none");
    assert_eq!(cli_auth_failure(401, "401 Unauthorized", "", None), "username-password-empty-error");
    assert_eq!(
        cli_auth_failure(400, "400 Bad Request", "b", Some(("bad".to_string(), "m".to_string()))),
        "bad"
    );
    assert_eq!(
        cli_auth_failure(400, "400 Bad Request", "b", Some((String::new(), "m".to_string()))),
        "m"
    );
    assert_eq!(cli_auth_failure(500, "500 Internal Server Error", "oops", None), "server error: 500 Internal Server Error oops");
    assert_eq!(launcher_font_name(MhfVersion::Z2T), "dft_0.ttc");
    assert_eq!(launcher_font_name(MhfVersion::ZZ), "MS Gothic.ttf");
}

fn sample_auth() -> CliAuthResponse {
    CliAuthResponse {
        current_ts: 1,
        expiry_ts: 2,
        entrance_count: 3,
        notices: vec!["hello".to_string()],
        user: CliUserData { token_id: 4, token: "0123456789ABCDEF".to_string(), rights: 5 },
        characters: vec![
            CliCharacterData { id: 10, name: "A".to_string(), is_female: false, weapon: 1, hr: 2, gr: 3, last_login: 4, is_new: false },
            CliCharacterData { id: 11, name: "B".to_string(), is_female: true, weapon: 1, hr: 7, gr: 8, last_login: 4, is_new: true },
        ],
        mez_fez: Some(CliMezFesData { id: 1, start: 2, end: 3, solo_tickets: 4, group_tickets: 5, stalls: vec![1, 2, 10, 11, 5] }),
        friends: vec![CliFriendData { cid: 1, id: 2, name: "F".to_string() }],
        patch_server: String::new(),
    }
}

#[test]
fn launch_config_from_auth_reply() {
    let auth = sample_auth();
    let a = parse_args(&args(&["prog", "-v", "ZZ", "-u", "player", "-pw", "pw", "-s", "h", "-c", "1"])).unwrap();
    let cfg = build_cli_launch_config(&auth, &a, Some("fonts/x.ttf".to_string())).unwrap();
    assert_eq!(cfg.char_id, 11);
    assert_eq!(cfg.char_name, "B");
    assert_eq!(cfg.char_hr, 7);
    assert_eq!(cfg.char_gr, 8);
    assert!(cfg.char_new);
    assert_eq!(cfg.char_ids, vec![10, 11]);
    assert_eq!(cfg.user_name, "player");
    assert_eq!(cfg.server_port, 53310);
    assert_eq!(cfg.notices.len(), 1);
    assert_eq!(cfg.notices[0].flags, 0);
    assert_eq!(cfg.notices[0].data, "hello");
    assert_eq!(cfg.friends[0].name, "F");
    assert_eq!(cfg.mez_stalls, vec![MezFesStall::TokotokoPartnya, MezFesStall::StallMap, MezFesStall::GoocooScoop]);
    assert_eq!(cfg.version, MhfVersion::ZZ);
    assert_eq!(cfg.font_path, Some("fonts/x.ttf".to_string()));
    assert!(cfg.enable_font_registration);
}

#[test]
fn launch_config_errors() {
    let auth = sample_auth();
    let a = parse_args(&args(&["prog", "-v", "XX", "-u", "p", "-pw", "p", "-s", "h", "-c", "0"])).unwrap();
    assert_eq!(build_cli_launch_config(&auth, &a, None).err(), Some("unknown version: XX".to_string()));
    let b = parse_args(&args(&["prog", "-v", "ZZ", "-u", "p", "-pw", "p", "-s", "h", "-c", "5"])).unwrap();
    assert_eq!(
        build_cli_launch_config(&auth, &b, None).err(),
        Some("character slot 5 out of range (has 2 characters)".to_string())
    );
}

#[test]
fn signature_listing_without_a_version_value_reports_it() {
    assert!(matches!(cli_action(&args(&["prog", "--list-signatures", "-v"])), CliAction::ListSignatures(None)));
    assert!(matches!(cli_action(&args(&["prog", "--list-signatures"])), CliAction::ListSignatures(None)));
    assert!(matches!(
        cli_action(&args(&["prog", "-v", "ZZ", "--list-signatures"])),
        CliAction::ListSignatures(Some(v)) if v == "ZZ"
    ));
}
