use mezeporta::endpoint::{get_default_endpoints, EndpointConfig};
use mezeporta::altclient::{distribution_query, empty_page, DistributionQuery};
use mezeporta::endpoint::normalize_remote_url;
use mezeporta::endpoint::Endpoint;
use mezeporta::session::EndpointState;
use mezeporta::version::MhfVersion;

fn endpoint(name: &str, url: &str, remote: bool) -> Endpoint {
    Endpoint {
        url: url.to_string(),
        name: name.to_string(),
        launcher_port: None,
        game_port: None,
        game_folder: None,
        version: MhfVersion::ZZ,
        is_remote: remote,
    }
}

fn state(local: Vec<Endpoint>, remote: Vec<Endpoint>, current: Endpoint) -> EndpointState {
    EndpointState { endpoints: local, remote_endpoints: remote, current_endpoint: current, game_folder: None }
}

#[test]
fn the_first_server_prefers_remote_ones() {
    let s = state(
        vec![endpoint("L", "l", false)],
        vec![endpoint("R", "r", true)],
        endpoint("x", "x", false),
    );
    assert_eq!(s.first_endpoint().unwrap().name, "R");
    let s = state(vec![endpoint("L", "l", false)], vec![], endpoint("x", "x", false));
    assert_eq!(s.first_endpoint().unwrap().name, "L");
    let s = state(vec![], vec![], endpoint("x", "x", false));
    assert!(s.first_endpoint().is_none());
}

#[test]
fn the_current_server_is_refreshed_from_its_list() {
    let mut s = state(
        vec![endpoint("A", "old-a", false), endpoint("B", "new-b", false)],
        vec![endpoint("R", "r", true)],
        endpoint("B", "stale", false),
    );
    assert!(s.contains_endpoint(&endpoint("B", "anything", false)));
    assert!(!s.contains_endpoint(&endpoint("R", "r", true)));
    assert_eq!(s.ensure_current_endpoint(), Ok(()));
    assert_eq!(s.current_endpoint.url, "new-b");
}

#[test]
fn a_missing_current_server_falls_back_to_the_first() {
    let mut s = state(
        vec![endpoint("A", "a", false)],
        vec![endpoint("R", "r", true)],
        endpoint("gone", "g", false),
    );
    assert_eq!(s.ensure_current_endpoint(), Ok(()));
    assert_eq!(s.current_endpoint.name, "R");
    assert!(s.current_endpoint.is_remote);
    let mut empty = state(vec![], vec![], endpoint("gone", "g", false));
    assert_eq!(empty.ensure_current_endpoint(), Err("internal-error"));
    assert_eq!(empty.current_endpoint.name, "gone");
}

#[test]
fn the_effective_folder_prefers_the_server_then_the_choice() {
    let mut s = state(vec![], vec![], endpoint("A", "a", false));
    assert_eq!(s.effective_folder("/default"), "/default");
    s.game_folder = Some("/chosen".to_string());
    assert_eq!(s.effective_folder("/default"), "/chosen");
    s.current_endpoint.game_folder = Some("/own".to_string());
    assert_eq!(s.effective_folder("/default"), "/own");
}

#[test]
fn distribution_requests_are_decided_before_fetching() {
    let q = distribution_query(0, Some(12), Some(3), "http://a", Some("tok"));
    let page = empty_page(&q).unwrap();
    assert_eq!((page.character_id, page.offset, page.limit), (0, 0, 0));
    let q = distribution_query(5, None, None, "offlinemode", Some("tok"));
    let page = empty_page(&q).unwrap();
    assert_eq!((page.character_id, page.offset, page.limit), (5, 0, 6));
    let q = distribution_query(5, Some(4), Some(0), "  ", Some("tok"));
    assert!(matches!(q, DistributionQuery::Empty { character_id: 5, offset: 4, limit: 1 }));
    let q = distribution_query(5, Some(4), Some(50), "http://a", None);
    assert!(matches!(q, DistributionQuery::Empty { character_id: 5, offset: 4, limit: 6 }));
    let q = distribution_query(5, Some(4), Some(2), "http://a", Some("   "));
    assert!(matches!(q, DistributionQuery::Empty { .. }));
    let q = distribution_query(5, Some(4), Some(2), "http://a", Some("tok"));
    assert!(matches!(q, DistributionQuery::Fetch { offset: 4, limit: 2 }));
    assert!(empty_page(&q).is_none());
}

#[test]
fn adopting_a_server_lists_it_once() {
    let mut s = state(vec![endpoint("A", "a", false)], vec![], endpoint("A", "a", false));
    assert!(s.adopt_current_endpoint(endpoint("B", "b", false), MhfVersion::Z1));
    assert_eq!(s.current_endpoint.name, "B");
    assert_eq!(s.current_endpoint.version, MhfVersion::Z1);
    assert_eq!(s.endpoints.iter().map(|e| e.name.as_str()).collect::<Vec<_>>(), vec!["B", "A"]);
    // The list keeps the entry as it was given.
    assert_eq!(s.endpoints[0].version, MhfVersion::ZZ);
    assert!(!s.adopt_current_endpoint(endpoint("A", "other", false), MhfVersion::ZZ));
    assert_eq!(s.endpoints.len(), 2);
    assert!(s.adopt_current_endpoint(endpoint("R", "r", true), MhfVersion::ZZ));
    assert_eq!(s.remote_endpoints.len(), 1);
    assert!(s.contains_endpoint(&s.current_endpoint.clone()));
}

#[test]
fn resetting_remote_servers_keeps_a_remote_current_one() {
    let mut s = state(vec![], vec![endpoint("X", "x", true)], endpoint("Mine", "m", true));
    let configs = vec![(
        "Offline-Mode".to_string(),
        EndpointConfig { game_folder: Some("/offline".to_string()) },
    )];
    s.reset_remote_endpoints(get_default_endpoints(), &configs);
    assert_eq!(
        s.remote_endpoints.iter().map(|e| e.name.as_str()).collect::<Vec<_>>(),
        vec!["Offline-Mode", "Mine"]
    );
    assert_eq!(s.remote_endpoints[0].game_folder, Some("/offline".to_string()));
    let mut local = state(vec![], vec![], endpoint("L", "l", false));
    local.reset_remote_endpoints(get_default_endpoints(), &vec![]);
    assert_eq!(local.remote_endpoints.len(), 1);
}

#[test]
fn remote_list_addresses_need_a_web_scheme() {
    assert_eq!(normalize_remote_url("  https://list.example/servers.json "), Some("https://list.example/servers.json".to_string()));
    assert_eq!(normalize_remote_url("http://x"), Some("http://x".to_string()));
    assert_eq!(normalize_remote_url("ftp://x"), None);
    assert_eq!(normalize_remote_url("not a url"), None);
    assert_eq!(normalize_remote_url("   "), None);
}

#[test]
fn fetched_remote_servers_join_after_the_defaults() {
    let mut s = state(vec![], vec![], endpoint("Mine", "m", true));
    let fetched = vec![
        endpoint("S1", "s1", false),
        endpoint("", "nameless", false),
        endpoint("S1", "again", false),
        endpoint("S2", "s2", false),
    ];
    s.merge_remote_endpoints(get_default_endpoints(), fetched, &vec![]);
    assert_eq!(
        s.remote_endpoints.iter().map(|e| e.name.as_str()).collect::<Vec<_>>(),
        vec!["Offline-Mode", "Mine", "S1", "S2"]
    );
    assert!(s.remote_endpoints.iter().all(|e| e.is_remote));
    assert_eq!(s.remote_endpoints[2].url, "s1");
}

#[test]
fn replacing_server_lists_checks_them_and_settles_the_current_one() {
    let mut s = state(vec![endpoint("A", "a", false)], vec![], endpoint("A", "a", false));
    let bad = vec![endpoint("B", "", false)];
    assert_eq!(s.set_local_endpoints(bad, &[true]), Err("endpoint-host-empty"));
    assert_eq!(s.endpoints.len(), 1);
    assert_eq!(s.set_local_endpoints(vec![endpoint("C", "c", false)], &[true]), Ok(()));
    assert_eq!(s.current_endpoint.name, "C");
    let mut configs = vec![("R".to_string(), EndpointConfig { game_folder: Some("/old".to_string()) })];
    let mut remote = endpoint("R", "r", true);
    remote.game_folder = Some("/new".to_string());
    assert_eq!(s.set_remote_endpoints(vec![remote], &[true], &mut configs), Ok(()));
    assert_eq!(s.current_endpoint.name, "C");
    assert_eq!(configs.len(), 1);
    assert_eq!(configs[0].1.game_folder, Some("/new".to_string()));
    let mut missing = endpoint("M", "m", false);
    missing.game_folder = Some("/nowhere".to_string());
    assert_eq!(s.set_local_endpoints(vec![missing], &[false]), Err("path-exists-error"));
}
