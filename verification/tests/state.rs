use linkup_cli::domains::{Domain, Route};
use linkup_cli::state::{
    config_to_state, config_to_state_with_token, routing_message, LinkupConfig, LocalState, Rewrite,
    HealthConfig, ServerConfig, ServiceTarget, StateError, YamlLocalConfig, YamlLocalService,
};

fn config() -> YamlLocalConfig {
    YamlLocalConfig {
        linkup: LinkupConfig {
            worker_url: "https://remote-linkup.example.com/".to_string(),
            worker_token: "test_token_123".to_string(),
            cache_routes: None,
        },
        services: vec![
            YamlLocalService {
                name: "frontend".to_string(),
                remote: "http://remote-service1.example.com/".to_string(),
                local: "http://localhost:8000/".to_string(),
                directory: None,
                rewrites: Some(vec![Rewrite { source: "/foo/(.*)".to_string(), target: "/bar/$1".to_string() }]),
                health: None,
            },
            YamlLocalService {
                name: "backend".to_string(),
                remote: "http://remote-service2.example.com/".to_string(),
                local: "http://localhost:8001/".to_string(),
                directory: Some("../backend".to_string()),
                rewrites: None,
                health: None,
            },
        ],
        domains: vec![
            Domain {
                domain: "example.com".to_string(),
                default_service: "frontend".to_string(),
                routes: Some(vec![Route { path: "/api/v1/.*".to_string(), service: "backend".to_string() }]),
            },
            Domain { domain: "api.example.com".to_string(), default_service: "backend".to_string(), routes: None },
        ],
    }
}

#[test]
fn local_config_test_config_to_state() {
    let local_state = config_to_state(config(), "./path/to/config.yaml".to_string(), false);

    assert_eq!(local_state.linkup.config_path, "./path/to/config.yaml");
    assert_eq!(
        url::Url::parse(&local_state.linkup.worker_url).unwrap(),
        url::Url::parse("https://remote-linkup.example.com").unwrap()
    );
    assert_eq!(local_state.linkup.worker_token, String::from("test_token_123"),);

    assert_eq!(local_state.services.len(), 2);
    assert_eq!(local_state.services[0].name, "frontend");
    assert_eq!(
        url::Url::parse(&local_state.services[0].remote).unwrap(),
        url::Url::parse("http://remote-service1.example.com").unwrap()
    );
    assert_eq!(
        url::Url::parse(&local_state.services[0].local).unwrap(),
        url::Url::parse("http://localhost:8000").unwrap()
    );
    assert!(local_state.services[0].current == ServiceTarget::Remote);

    assert_eq!(local_state.services[0].rewrites.len(), 1);
    assert_eq!(local_state.services[1].name, "backend");
    assert_eq!(
        url::Url::parse(&local_state.services[1].remote).unwrap(),
        url::Url::parse("http://remote-service2.example.com").unwrap()
    );
    assert_eq!(
        url::Url::parse(&local_state.services[1].local).unwrap(),
        url::Url::parse("http://localhost:8001").unwrap()
    );
    assert_eq!(local_state.services[1].rewrites.len(), 0);
    assert_eq!(local_state.services[1].directory, Some("../backend".to_string()));

    assert_eq!(local_state.domains.len(), 2);
    assert_eq!(local_state.domains[0].domain, "example.com");
    assert_eq!(local_state.domains[0].default_service, "frontend");
    assert!(local_state.domains[0].routes.is_some());
}

#[test]
fn new_state_has_random_token_and_placeholder_tunnel() {
    let s = config_to_state(config(), "c.yaml".to_string(), false);
    assert_eq!(s.linkup.session_token.chars().count(), 16);
    assert!(s.linkup.session_token.chars().all(|c| c.is_ascii_alphanumeric()));
    assert_eq!(s.linkup.session_name, "");
    assert_eq!(s.linkup.tunnel, Some("http://tunnel-not-yet-set/".to_string()));

    let s = config_to_state_with_token(config(), "c.yaml".to_string(), true, "tok".to_string());
    assert_eq!(s.linkup.session_token, "tok");
    assert_eq!(s.linkup.tunnel, None);
}

fn state(tunnel: Option<&str>) -> LocalState {
    let mut s = config_to_state_with_token(config(), "c.yaml".to_string(), true, "tok".to_string());
    s.linkup.tunnel = tunnel.map(|t| t.to_string());
    s
}

#[test]
fn tunnel_url_falls_back_to_worker_page() {
    let s = state(None);
    assert_eq!(s.get_tunnel_url(), Some("https://remote-linkup.example.com/linkup/no-tunnel".to_string()));
    let s = state(Some("https://abc.trycloudflare.com/"));
    assert_eq!(s.get_tunnel_url(), Some("https://abc.trycloudflare.com/".to_string()));
    assert!(s.should_use_tunnel());
    assert!(!state(None).should_use_tunnel());
}

#[test]
fn routing_services_local_and_remote() {
    let mut s = state(None);
    assert!(s.route_services(&["backend".to_string()], false, ServiceTarget::Local).is_ok());
    assert!(s.services[1].current == ServiceTarget::Local);
    assert!(s.services[0].current == ServiceTarget::Remote);
    assert_eq!(s.services[1].current_url(), "http://localhost:8001/");

    match s.route_services(&["nope".to_string()], false, ServiceTarget::Local) {
        Err(StateError::NoSuchService(name)) => assert_eq!(name, "nope"),
        _ => panic!("expected an unknown service"),
    }
    assert!(s.services[0].current == ServiceTarget::Remote);

    assert!(s.route_services(&[], true, ServiceTarget::Local).is_ok());
    assert!(s.services.iter().all(|x| x.current == ServiceTarget::Local));
    assert!(s.route_services(&[], false, ServiceTarget::Remote).is_err());
}

#[test]
fn server_config_sends_local_services_to_tunnel() {
    let mut s = state(Some("https://abc.trycloudflare.com/"));
    s.route_services(&["backend".to_string()], false, ServiceTarget::Local).unwrap();
    let c = ServerConfig::from_state(&s).unwrap();
    assert_eq!(c.local.session_token, "tok");
    assert_eq!(c.local.services[0].location, "http://remote-service1.example.com/");
    assert_eq!(c.local.services[1].location, "http://localhost:8001/");
    assert_eq!(c.remote.services[0].location, "http://remote-service1.example.com/");
    assert_eq!(c.remote.services[1].location, "https://abc.trycloudflare.com/");
    assert_eq!(c.local.services[0].rewrites.as_ref().unwrap().len(), 1);
    assert_eq!(c.remote.domains.len(), 2);

    let mut s = state(None);
    s.route_services(&["backend".to_string()], false, ServiceTarget::Local).unwrap();
    let c = ServerConfig::from_state(&s).unwrap();
    assert_eq!(c.remote.services[1].location, "https://remote-linkup.example.com/linkup/no-tunnel");

    let mut s = state(None);
    s.linkup.worker_url = "not a url".to_string();
    assert!(ServerConfig::from_state(&s).is_some());
    s.route_services(&["backend".to_string()], false, ServiceTarget::Local).unwrap();
    assert!(ServerConfig::from_state(&s).is_none());
}

#[test]
fn previous_session_is_kept() {
    let mut s = state(None);
    let mut prev = state(Some("https://old.trycloudflare.com/"));
    prev.linkup.session_name = "happy-cat".to_string();
    prev.linkup.session_token = "old".to_string();
    s.keep_previous_session(Some(prev), false);
    assert_eq!(s.linkup.session_name, "happy-cat");
    assert_eq!(s.linkup.session_token, "old");
    assert_eq!(s.linkup.tunnel, Some("https://old.trycloudflare.com/".to_string()));

    let mut s = state(None);
    let prev = state(Some("https://old.trycloudflare.com/"));
    s.keep_previous_session(Some(prev), true);
    assert_eq!(s.linkup.tunnel, None);
}

#[test]
fn domain_strings_in_order() {
    let s = state(None);
    assert_eq!(s.domain_strings(), vec!["example.com".to_string(), "api.example.com".to_string()]);
}

#[test]
fn routing_messages() {
    let names = vec!["frontend".to_string(), "backend".to_string()];
    assert_eq!(
        routing_message(&names, false, ServiceTarget::Local),
        "Linkup is routing frontend, backend traffic to the local server"
    );
    assert_eq!(
        routing_message(&names[..1], false, ServiceTarget::Remote),
        "Linkup is routing frontend traffic to the remote server"
    );
    assert_eq!(routing_message(&[], true, ServiceTarget::Remote), "Linkup is routing all traffic to the remote servers");
    assert_eq!(routing_message(&names, true, ServiceTarget::Local), "Linkup is routing all traffic to the local servers");
}

fn config_with_health() -> YamlLocalConfig {
    let mut c = config();
    c.services[1].health = Some(HealthConfig { path: Some("/health".to_string()), statuses: Some(vec![200, 304]) });
    c
}

#[test]
fn state_test_config_to_state() {
    let local_state = config_to_state(config_with_health(), "./path/to/config.yaml".to_string(), false);

    assert_eq!(local_state.linkup.config_path, "./path/to/config.yaml");
    assert_eq!(
        url::Url::parse(&local_state.linkup.worker_url).unwrap(),
        url::Url::parse("https://remote-linkup.example.com").unwrap()
    );
    assert_eq!(local_state.linkup.worker_token, String::from("test_token_123"),);

    assert_eq!(local_state.services.len(), 2);
    assert_eq!(local_state.services[0].name, "frontend");
    assert_eq!(
        url::Url::parse(&local_state.services[0].remote).unwrap(),
        url::Url::parse("http://remote-service1.example.com").unwrap()
    );
    assert_eq!(
        url::Url::parse(&local_state.services[0].local).unwrap(),
        url::Url::parse("http://localhost:8000").unwrap()
    );
    assert!(local_state.services[0].current == ServiceTarget::Remote);
    assert!(local_state.services[0].health.is_none());

    assert_eq!(local_state.services[0].rewrites.len(), 1);
    assert_eq!(local_state.services[1].name, "backend");
    assert_eq!(
        url::Url::parse(&local_state.services[1].remote).unwrap(),
        url::Url::parse("http://remote-service2.example.com").unwrap()
    );
    assert_eq!(
        url::Url::parse(&local_state.services[1].local).unwrap(),
        url::Url::parse("http://localhost:8001").unwrap()
    );
    assert!(local_state.services[1].rewrites.is_empty());
    assert_eq!(local_state.services[1].directory, Some("../backend".to_string()));
    assert!(local_state.services[1].health.is_some());
    let health = local_state.services[1].health.as_ref().unwrap();
    assert_eq!(health.path, Some("/health".to_string()));
    assert_eq!(health.statuses, Some(vec![200, 304]));

    assert_eq!(local_state.domains.len(), 2);
    assert_eq!(local_state.domains[0].domain, "example.com");
    assert_eq!(local_state.domains[0].default_service, "frontend");
    assert!(local_state.domains[0].routes.is_some());
}
