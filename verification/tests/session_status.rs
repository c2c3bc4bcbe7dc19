use linkup_cli::commands::status::{
    build_internal_services, build_user_services, prepare_check_rows, probe_target, target_session, ConfigService,
    ServiceToCheck, SessionService, StatusError,
};
use linkup_cli::state::HealthConfig;
use linkup_cli::sessions::SessionRow;
use linkup_cli::state::{config_to_state_with_token, LinkupConfig, YamlLocalConfig};
use linkup_cli::status::ServerStatus;

fn row(name: &str) -> SessionRow {
    SessionRow { name: name.to_string(), kind: "tunneled".to_string(), domains: vec![] }
}

fn session_service(name: &str, location: &str) -> SessionService {
    SessionService { name: name.to_string(), location: location.to_string() }
}

fn config_service(name: &str, local: &str, remote: &str) -> ConfigService {
    ConfigService { name: name.to_string(), local: local.to_string(), remote: remote.to_string(), health: None }
}

#[test]
fn target_session_defaults_to_the_state_session() {
    let rows = vec![row("happy-cat")];
    assert_eq!(target_session(None, "happy-cat", &rows).unwrap(), "happy-cat");
    assert_eq!(target_session(None, "other", &[]).unwrap(), "other");
}

#[test]
fn target_session_must_be_known() {
    let rows = vec![row("happy-cat"), row("sad-dog")];
    assert_eq!(target_session(Some("sad-dog"), "happy-cat", &rows).unwrap(), "sad-dog");
    match target_session(Some("lost-fish"), "happy-cat", &rows) {
        Err(StatusError::SessionNotFound(name)) => assert_eq!(name, "lost-fish"),
        Ok(_) => panic!("an unknown session was accepted"),
    }
}

#[test]
fn no_session_no_user_services() {
    assert_eq!(build_user_services(None, None).unwrap().len(), 0);
}

#[test]
fn user_service_kinds() {
    let session = vec![
        session_service("web", "http://localhost:3000/"),
        session_service("api", "https://api.remote.example/"),
        session_service("same-local", "http://127.0.0.1:4000/"),
        session_service("same-remote", "https://shared.example/"),
        session_service("unknown", "http://localhost:9999/"),
        session_service("elsewhere", "https://other.example/"),
    ];
    let mut web = config_service("web", "http://localhost:3000/", "https://web.remote.example/");
    web.health = Some(HealthConfig { path: Some("/health".to_string()), statuses: Some(vec![200, 204]) });
    let config = vec![
        web,
        config_service("api", "http://localhost:4000/", "https://api.remote.example/"),
        config_service("same-local", "http://127.0.0.1:4000/", "http://127.0.0.1:4000/"),
        config_service("same-remote", "https://shared.example/", "https://shared.example/"),
        config_service("elsewhere", "http://localhost:5000/", "https://elsewhere.example/"),
    ];
    let checks = build_user_services(Some(&session), Some(&config)).unwrap();
    let kinds: Vec<&str> = checks.iter().map(|c| c.component_kind.as_str()).collect();
    assert_eq!(kinds, vec!["local", "remote", "local", "remote", "remote", "remote"]);
    assert_eq!(checks[0].url, "http://localhost:3000/");
    assert!(checks.iter().all(|c| c.priority == 2));
    let health = checks[0].health.as_ref().unwrap();
    assert_eq!(health.path.as_deref(), Some("/health"));
    assert_eq!(health.statuses, Some(vec![200, 204]));
    assert!(checks[1].health.is_none());

    let without_config = build_user_services(Some(&session), None).unwrap();
    assert!(without_config.iter().all(|c| c.component_kind == "remote"));
}

#[test]
fn same_url_without_host_has_no_kind() {
    let session = vec![session_service("files", "file:///tmp/x")];
    let config = vec![config_service("files", "file:///tmp/x", "file:///tmp/x")];
    assert!(build_user_services(Some(&session), Some(&config)).is_none());
}

#[test]
fn internal_services_probe_the_check_path() {
    let config = YamlLocalConfig {
        linkup: LinkupConfig {
            worker_url: "https://worker.example.com/".to_string(),
            worker_token: "t".to_string(),
            cache_routes: None,
        },
        services: vec![],
        domains: vec![],
    };
    let state = config_to_state_with_token(config, "c.yaml".to_string(), true, "tok".to_string());
    let checks = build_internal_services(&state, 80).unwrap();
    let seen: Vec<(&str, &str, &str)> =
        checks.iter().map(|c| (c.name.as_str(), c.url.as_str(), c.component_kind.as_str())).collect();
    assert_eq!(
        seen,
        vec![
            ("linkup_local_server", "http://localhost/linkup/check", "local"),
            ("linkup_remote_server", "https://worker.example.com/linkup/check", "remote"),
            ("tunnel", "https://worker.example.com/linkup/check", "remote"),
        ]
    );
    assert!(checks.iter().all(|c| c.priority == 1 && c.health.is_none()));
}

#[test]
fn probes_use_the_health_path_and_statuses() {
    let service = ServiceToCheck {
        name: "web".to_string(),
        url: "http://localhost:3000/app/".to_string(),
        component_kind: "local".to_string(),
        health: Some(HealthConfig { path: Some("status".to_string()), statuses: Some(vec![204]) }),
        priority: 2,
    };
    let (url, statuses) = probe_target(&service);
    assert_eq!(url, "http://localhost:3000/app/status");
    assert_eq!(statuses, Some(vec![204]));

    let plain = ServiceToCheck { health: None, ..service };
    assert_eq!(probe_target(&plain), ("http://localhost:3000/app/".to_string(), None));

    let rows = prepare_check_rows(&vec![plain]);
    assert_eq!(rows.len(), 1);
    assert_eq!(rows[0].name, "web");
    assert_eq!(rows[0].location, "http://localhost:3000/app/");
    assert!(rows[0].status == ServerStatus::Loading);
}
