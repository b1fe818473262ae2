use mezeporta::endpoint::{get_default_endpoints, Endpoint, EndpointConfig, EndpointVecExt};
use mezeporta::version::MhfVersion;

fn endpoint(name: &str, url: &str) -> Endpoint {
    Endpoint {
        url: url.to_string(),
        name: name.to_string(),
        launcher_port: None,
        game_port: None,
        game_folder: None,
        version: MhfVersion::ZZ,
        is_remote: false,
    }
}

#[test]
fn default_endpoints_hold_offline_mode() {
    let v = get_default_endpoints();
    assert_eq!(v.len(), 1);
    assert_eq!(v[0].name, "Offline-Mode");
    assert_eq!(v[0].url, "OFFLINEMODE");
    assert!(v[0].is_remote);
}

#[test]
fn addresses_of_an_endpoint() {
    let e = endpoint("a", "example.com:8080");
    assert_eq!(e.host(), "example.com");
    assert_eq!(e.base_url(), "http://example.com:8080");
    assert_eq!(e.server_key(), "example.com:8080");
    assert_eq!(e.get_url("/v2/login"), "http://example.com:8080/v2/login");
    assert_eq!(e.get_url("v2/login"), "http://example.com:8080/v2/login");
    assert_eq!(e.get_url(""), "http://example.com:8080");
    let mut p = endpoint("b", "https://secure.example/");
    assert_eq!(p.server_key(), "secure.example:443");
    p.launcher_port = Some(9000);
    assert_eq!(p.base_url(), "https://secure.example:9000");
    assert_eq!(p.server_key(), "secure.example:9000");
    assert_eq!(p.resolved_launcher_port(), Some(9000));
    let blank = endpoint("c", "  ");
    assert_eq!(blank.host(), "  ");
    assert_eq!(blank.base_url(), "http://  ");
}

#[test]
fn endpoints_compare_by_name_and_side() {
    let a = endpoint("a", "x");
    let mut b = endpoint("a", "y");
    assert!(a.same_as(&b));
    b.is_remote = true;
    assert!(!a.same_as(&b));
}

#[test]
fn check_valid_reports_the_first_problem() {
    let v = vec![endpoint("a", "x"), endpoint("", "y")];
    assert_eq!(v.check_valid(&[true, true]), Err("endpoint-name-empty"));
    let v = vec![endpoint("a", "")];
    assert_eq!(v.check_valid(&[true]), Err("endpoint-host-empty"));
    let v = vec![endpoint("a", "x"), endpoint("a", "y")];
    assert_eq!(v.check_valid(&[true, true]), Err("endpoint-unique"));
    let mut e = endpoint("a", "x");
    e.game_folder = Some("/nowhere".to_string());
    let v = vec![e];
    assert_eq!(v.check_valid(&[false]), Err("path-exists-error"));
    let v = vec![endpoint("a", "x"), endpoint("b", "y")];
    assert_eq!(v.check_valid(&[true, true]), Ok(()));
}

#[test]
fn extend_valid_adds_new_valid_servers_once() {
    let mut v = vec![endpoint("a", "x")];
    v.extend_valid(vec![endpoint("a", "z"), endpoint("b", "y"), endpoint("", "q"), endpoint("b", "w"), endpoint("c", "")]);
    let names: Vec<&str> = v.iter().map(|e| e.name.as_str()).collect();
    assert_eq!(names, vec!["a", "b"]);
    assert_eq!(v[1].url, "y");
}

#[test]
fn configs_apply_and_update() {
    let mut v = vec![endpoint("a", "x"), endpoint("b", "y")];
    let configs = vec![("b".to_string(), EndpointConfig { game_folder: Some("/games/b".to_string()) })];
    v.apply_config(&configs);
    assert_eq!(v[0].game_folder, None);
    assert_eq!(v[1].game_folder, Some("/games/b".to_string()));
    let mut stored = vec![("a".to_string(), EndpointConfig { game_folder: Some("/old".to_string()) })];
    v.update_config(&mut stored);
    assert_eq!(stored.len(), 1);
    assert_eq!(stored[0].0, "b");
    assert_eq!(stored[0].1.game_folder, Some("/games/b".to_string()));
}
