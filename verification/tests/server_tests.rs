use std::hash::{Hash, Hasher};
use mezeporta::endpoint::Endpoint;
use mezeporta::server::{
    create_character_request, delete_character_request, export_save_request, launcher_request, login_request,
    register_request, simple_request, HttpMethod,
};
use mezeporta::version::MhfVersion;
use mezeporta::server::{
    api_error_message, failure_message, map_api_error_code_to_frontend, native_manifest_url,
    native_patcher_request, normalize_native_patch_manifest, normalize_patcher_base_url,
    patcher_check_url, patcher_request, queue_position, server_name, Error,
};

#[test]
fn frontend_messages_of_errors() {
    assert_eq!(Error::Cancellation.into_frontend(), "");
    assert_eq!(Error::Server(500, "boom".to_string()).into_frontend(), "boom");
    assert_eq!(Error::Backend("x".to_string()).into_frontend(), "x");
}

#[test]
fn api_error_codes_map_to_frontend() {
    assert_eq!(map_api_error_code_to_frontend("invalid_username"), Some("username-error"));
    assert_eq!(map_api_error_code_to_frontend("invalid_password"), Some("password-error"));
    assert_eq!(map_api_error_code_to_frontend("username_exists"), Some("username-exists-error"));
    assert_eq!(map_api_error_code_to_frontend("other"), None);
}

#[test]
fn api_error_message_prefers_known_codes_then_message() {
    assert_eq!(api_error_message(" invalid_password ", "whatever"), Some("password-error".to_string()));
    assert_eq!(api_error_message("weird", "Try later"), Some("Try later".to_string()));
    assert_eq!(api_error_message("weird", "  "), Some("weird".to_string()));
    assert_eq!(api_error_message(" ", ""), None);
}

#[test]
fn failure_messages_by_content_type() {
    assert_eq!(failure_message("Text/Plain; charset=utf-8", "busy".to_string(), None), "busy");
    assert_eq!(failure_message("text/plain", "  ".to_string(), None), "launcher-network-error");
    assert_eq!(
        failure_message("application/json", "{}".to_string(), Some("password-error".to_string())),
        "password-error"
    );
    assert_eq!(failure_message("application/json", "{}".to_string(), None), "launcher-network-error");
    assert_eq!(failure_message("", "x".to_string(), None), "launcher-network-error");
}

#[test]
fn patcher_base_urls_drop_check_suffix() {
    assert_eq!(normalize_patcher_base_url(" http://host/patch/CHECK// "), "http://host/patch");
    assert_eq!(normalize_patcher_base_url("http://host/"), "http://host");
    assert_eq!(normalize_patcher_base_url("   "), "");
    assert_eq!(patcher_check_url("http://host/patch/check"), "http://host/patch/check");
    assert_eq!(patcher_check_url("http://host/"), "http://host/check");
    assert_eq!(patcher_check_url(""), "/check");
}

#[test]
fn patcher_requests_carry_their_urls() {
    let r = patcher_request("http://host/", "\"abc\"");
    assert_eq!(r.url, "http://host/check");
    assert_eq!(r.download_url, "http://host");
    assert!(r.has_client_etag());
    assert!(!r.native_manifest);
    let n = native_patcher_request(" http://h/list.TXT ", " http://files/ ", "");
    assert_eq!(n.url, "http://h/list.TXT");
    assert_eq!(n.download_url, "http://files");
    assert!(!n.has_client_etag());
    assert!(n.native_manifest);
}

#[test]
fn native_manifest_urls_get_a_key() {
    assert_eq!(native_manifest_url("http://h/m"), "http://h/m?key");
    assert_eq!(native_manifest_url("http://h/m?a=1"), "http://h/m?a=1&key");
    assert_eq!(native_manifest_url("http://h/m?a=1&keyx=2"), "http://h/m?a=1&keyx=2");
    assert_eq!(native_manifest_url("http://h/m.dat"), "http://h/m.dat");
}

#[test]
fn native_manifests_become_patch_lists() {
    let content = "0123abcd,x,y,\\mhfdat\\exe\\game.exe,z,w\r\n\n  DEADBEEF, a ,b, /data/file.bin ,c,d  \n";
    let out = normalize_native_patch_manifest(content).unwrap();
    assert_eq!(out, "0123abcd\tgame.exe\texe/game.exe\nDEADBEEF\tdata/file.bin\tdata/file.bin\n");
    assert!(normalize_native_patch_manifest("bad line").is_err());
    assert!(normalize_native_patch_manifest("zzzzzzzz,a,b,c,d,e").is_err());
    assert!(normalize_native_patch_manifest("0123abcd,a,b,exe/,d,e").is_err());
    assert_eq!(normalize_native_patch_manifest("").unwrap(), "");
    match normalize_native_patch_manifest("x") {
        Err(Error::Backend(m)) => assert_eq!(m, "patcher-network-error"),
        _ => panic!("expected a back-end error"),
    }
}

#[test]
fn server_names_and_queue_positions() {
    assert_eq!(server_name("host", Some(8080)), "host:8080");
    assert_eq!(server_name("host", None), "host");
    assert_eq!(server_name("", Some(1)), "");
    assert_eq!(queue_position(Some("12")), 12);
    assert_eq!(queue_position(Some("+3")), 3);
    assert_eq!(queue_position(Some("x")), 0);
    assert_eq!(queue_position(None), 0);
}

#[test]
fn patcher_replies_settle() {
    let r = patcher_request("http://host", "\"e1\"");
    assert!(r.settle(304, None, 0, "host:80".to_string(), String::new()).unwrap().is_none());
    let r = patcher_request("http://host", "\"e1\"");
    assert!(r
        .settle(200, Some("\"e1\"".to_string()), 0, "host:80".to_string(), "a\tb".to_string())
        .unwrap()
        .is_none());
    let r = patcher_request("http://host", "\"e1\"");
    let resp = r
        .settle(200, Some("\"e2\"".to_string()), 3, "host:80".to_string(), "a\tb".to_string())
        .unwrap()
        .unwrap();
    assert_eq!(resp.etag, "\"e2\"");
    assert_eq!(resp.content, "a\tb");
    assert_eq!(resp.queue_position, 3);
    assert_eq!(resp.download_url, "http://host");
    let r = patcher_request("http://host", "");
    let resp = r.settle(200, None, 0, "h".to_string(), "abc".to_string()).unwrap().unwrap();
    assert!(resp.etag.starts_with('"') && resp.etag.ends_with('"'));
    let digits = &resp.etag[1..resp.etag.len() - 1];
    assert!(!digits.is_empty() && digits.chars().all(|c| c.is_ascii_hexdigit() && !c.is_ascii_uppercase()));
    let n = native_patcher_request("http://h/m", "http://f", "");
    assert!(n.settle(200, None, 0, "h".to_string(), "broken".to_string()).is_err());
}

#[test]
fn api_requests_name_their_method_address_and_credentials() {
    let e = Endpoint {
        url: "http://game.example:8080".to_string(),
        name: "Game".to_string(),
        launcher_port: None,
        game_port: None,
        game_folder: None,
        version: MhfVersion::ZZ,
        is_remote: false,
    };
    let r = launcher_request(&e);
    assert_eq!((r.method, r.url.as_str()), (HttpMethod::Get, "http://game.example:8080/v2/launcher"));
    let r = login_request(&e, "alice", "pw");
    assert_eq!(r.method, HttpMethod::Post);
    assert_eq!(r.url, "http://game.example:8080/v2/login");
    assert_eq!(r.credentials, Some(("alice".to_string(), "pw".to_string())));
    assert_eq!(r.bearer, None);
    assert_eq!(register_request(&e, "a", "b").url, "http://game.example:8080/v2/register");
    let r = delete_character_request(&e, "tok", -7);
    assert_eq!(r.method, HttpMethod::Delete);
    assert_eq!(r.url, "http://game.example:8080/v2/characters/-7");
    assert_eq!(r.bearer, Some("tok".to_string()));
    let r = export_save_request(&e, "tok", 42);
    assert_eq!(r.url, "http://game.example:8080/v2/characters/42/export");
    assert_eq!(r.method, HttpMethod::Get);
    let r = create_character_request(&e, "tok");
    assert_eq!((r.method, r.url.as_str()), (HttpMethod::Post, "http://game.example:8080/v2/characters"));
    assert_eq!(delete_character_request(&e, "t", i32::MIN).url, "http://game.example:8080/v2/characters/-2147483648");
    let r = simple_request("https://list.example/servers.json");
    assert_eq!((r.method, r.url.as_str(), r.bearer), (HttpMethod::Get, "https://list.example/servers.json", None));
}

#[test]
fn a_reply_without_a_tag_gets_the_hash_of_its_list() {
    let mut hasher = std::collections::hash_map::DefaultHasher::new();
    "abc".hash(&mut hasher);
    let expected = format!("\"{:x}\"", hasher.finish());
    let r = patcher_request("http://host", "");
    let resp = r.settle(200, None, 0, "h".to_string(), "abc".to_string()).unwrap().unwrap();
    assert_eq!(resp.etag, expected);
    let r = patcher_request("http://host", &expected);
    assert!(r.settle(200, None, 0, "h".to_string(), "abc".to_string()).unwrap().is_none());
}
