use linkup_cli::domains::Domain;
use linkup_cli::state::{config_to_state_with_token, LinkupConfig, LocalService, ServiceTarget, YamlLocalConfig};
use linkup_cli::status::{
    apply_status_update, is_internal_service, linkup_services, prepare_service_statuses, server_status,
    service_priority, sort_service_statuses, status_of_response, target_name, ServerStatus, SessionStatus,
};

fn service(name: &str, current: ServiceTarget) -> LocalService {
    LocalService {
        name: name.to_string(),
        remote: format!("https://{}.remote.example/", name),
        local: format!("http://localhost/{}", name),
        current,
        directory: None,
        rewrites: vec![],
        health: None,
    }
}

#[test]
fn probe_results() {
    assert!(status_of_response(Some(200)) == ServerStatus::Healthy);
    assert!(status_of_response(Some(404)) == ServerStatus::Healthy);
    assert!(status_of_response(Some(500)) == ServerStatus::Error);
    assert!(status_of_response(Some(599)) == ServerStatus::Error);
    assert!(status_of_response(Some(600)) == ServerStatus::Healthy);
    assert!(status_of_response(None) == ServerStatus::Timeout);

    assert!(server_status(None, Some(503)) == ServerStatus::Error);
    assert!(server_status(None, Some(302)) == ServerStatus::Healthy);
    assert!(server_status(None, None) == ServerStatus::Error);
    let accepted = vec![200u16, 304];
    assert!(server_status(Some(&accepted), Some(304)) == ServerStatus::Healthy);
    assert!(server_status(Some(&accepted), Some(404)) == ServerStatus::Error);
    assert!(server_status(Some(&accepted), Some(500)) == ServerStatus::Error);
}

#[test]
fn status_labels() {
    assert_eq!(ServerStatus::Healthy.label(), "ok");
    assert_eq!(ServerStatus::Error.label(), "error");
    assert_eq!(ServerStatus::Timeout.label(), "timeout");
    assert_eq!(ServerStatus::Loading.label(), "loading");
    assert_eq!(target_name(ServiceTarget::Local), "local");
    assert_eq!(target_name(ServiceTarget::Remote), "remote");
}

#[test]
fn internal_services_first() {
    assert!(is_internal_service(&service("tunnel", ServiceTarget::Remote)));
    assert!(!is_internal_service(&service("web", ServiceTarget::Remote)));
    assert_eq!(service_priority(&service("linkup_local_server", ServiceTarget::Local)), 1);
    assert_eq!(service_priority(&service("web", ServiceTarget::Local)), 2);
}

#[test]
fn rows_are_sorted_by_rank_kind_and_name() {
    let rows = prepare_service_statuses(vec![
        service("web", ServiceTarget::Remote),
        service("api", ServiceTarget::Remote),
        service("tunnel", ServiceTarget::Remote),
        service("db", ServiceTarget::Local),
        service("linkup_local_server", ServiceTarget::Local),
    ]);
    assert!(rows.iter().all(|r| r.status == ServerStatus::Loading));
    assert_eq!(rows[3].location, "http://localhost/db");
    assert_eq!(rows[0].location, "https://web.remote.example/");
    let sorted = sort_service_statuses(rows);
    let names: Vec<&str> = sorted.iter().map(|r| r.name.as_str()).collect();
    assert_eq!(names, vec!["linkup_local_server", "tunnel", "db", "api", "web"]);
    let kinds: Vec<&str> = sorted.iter().map(|r| r.component_kind.as_str()).collect();
    assert_eq!(kinds, vec!["local", "remote", "local", "remote", "remote"]);
}

#[test]
fn probe_results_update_rows_by_name() {
    let mut rows = prepare_service_statuses(vec![service("web", ServiceTarget::Remote), service("api", ServiceTarget::Local)]);
    assert_eq!(apply_status_update(&mut rows, "api", ServerStatus::Healthy), 1);
    assert!(rows[1].status == ServerStatus::Healthy);
    assert!(rows[0].status == ServerStatus::Loading);
    assert_eq!(apply_status_update(&mut rows, "nope", ServerStatus::Error), 0);
}

fn session_state() -> linkup_cli::state::LocalState {
    let config = YamlLocalConfig {
        linkup: LinkupConfig {
            worker_url: "https://worker.example.com/".to_string(),
            worker_token: "t".to_string(),
            cache_routes: None,
        },
        services: vec![],
        domains: vec![
            Domain { domain: "example.com".to_string(), default_service: "web".to_string(), routes: None },
            Domain { domain: "api.example.com".to_string(), default_service: "web".to_string(), routes: None },
        ],
    };
    let mut s = config_to_state_with_token(config, "c.yaml".to_string(), true, "tok".to_string());
    s.linkup.session_name = "happy-cat".to_string();
    s
}

#[test]
fn session_lines() {
    let s = SessionStatus::from_state(&session_state());
    assert_eq!(s.name, "happy-cat");
    assert_eq!(s.domains, vec!["https://happy-cat.example.com".to_string()]);
    assert_eq!(
        s.lines(),
        vec![
            "Session Name: happy-cat".to_string(),
            "Domains: ".to_string(),
            "    https://happy-cat.example.com".to_string(),
            "".to_string()
        ]
    );
}

#[test]
fn linkup_own_services() {
    let v = linkup_services(&session_state(), 9080).unwrap();
    assert_eq!(v.len(), 3);
    assert_eq!(v[0].name, "linkup_local_server");
    assert_eq!(v[0].remote, "http://localhost:9080/");
    assert!(v[0].current == ServiceTarget::Local);
    assert_eq!(v[1].name, "linkup_remote_server");
    assert_eq!(v[1].remote, "https://worker.example.com/");
    assert_eq!(v[2].name, "tunnel");
    assert_eq!(v[2].remote, "https://worker.example.com/linkup/no-tunnel");
}
