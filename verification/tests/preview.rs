use linkup_cli::domains::Domain;
use linkup_cli::preview::{preview_params, split_once};
use linkup_cli::state::{LinkupConfig, Rewrite, YamlLocalConfig, YamlLocalService};

fn preview_config() -> YamlLocalConfig {
    YamlLocalConfig {
        linkup: LinkupConfig {
            worker_url: "https://remote-linkup.example.com/".to_string(),
            worker_token: "token".to_string(),
            cache_routes: Some(vec!["/static/.*".to_string()]),
        },
        services: vec![
            YamlLocalService {
                name: "frontend".to_string(),
                remote: "http://remote-service1.example.com/".to_string(),
                local: "http://localhost:8000/".to_string(),
                directory: None,
                rewrites: Some(vec![Rewrite { source: "/foo/(.*)".to_string(), target: "/bar/$1".to_string() }]),
                health: None,
            },
            YamlLocalService {
                name: "backend".to_string(),
                remote: "http://remote-service2.example.com/".to_string(),
                local: "http://localhost:8001/".to_string(),
                directory: None,
                rewrites: None,
                health: None,
            },
        ],
        domains: vec![Domain { domain: "example.com".to_string(), default_service: "frontend".to_string(), routes: None }],
    }
}

fn pairs(items: &[(&str, &str)]) -> Vec<(String, String)> {
    items.iter().map(|(a, b)| (a.to_string(), b.to_string())).collect()
}

#[test]
fn split_once_splits_at_first_separator() {
    assert_eq!(split_once("a=b=c", '='), Some(("a".to_string(), "b=c".to_string())));
    assert_eq!(split_once("=x", '='), Some((String::new(), "x".to_string())));
    assert_eq!(split_once("plain", '='), None);
}

#[test]
fn preview_params_drop_items_without_separator() {
    let items = vec!["frontend=http://localhost:3000".to_string(), "broken".to_string(), "api=a=b".to_string()];
    assert_eq!(
        preview_params(&items),
        pairs(&[("frontend", "http://localhost:3000"), ("api", "a=b")])
    );
}

#[test]
fn preview_points_named_services_at_their_urls() {
    let config = preview_config();
    let request = config
        .create_preview_request(&pairs(&[("backend", "http://preview.example.com")]))
        .expect("request");
    assert_eq!(request.services.len(), 2);
    assert_eq!(request.services[0].name, "frontend");
    assert_eq!(request.services[0].location, "http://remote-service1.example.com/");
    let rewrites = request.services[0].rewrites.as_ref().expect("rewrites");
    assert_eq!(rewrites.len(), 1);
    assert_eq!(rewrites[0].source, "/foo/(.*)");
    assert_eq!(request.services[1].name, "backend");
    assert_eq!(request.services[1].location, "http://preview.example.com/");
    assert!(request.services[1].rewrites.is_none());
    assert_eq!(request.domains.len(), 1);
    assert_eq!(request.domains[0].domain, "example.com");
    assert_eq!(request.cache_routes, Some(vec!["/static/.*".to_string()]));
}

#[test]
fn preview_uses_the_last_parameter_of_a_service() {
    let config = preview_config();
    let request = config
        .create_preview_request(&pairs(&[
            ("frontend", "http://first.example.com"),
            ("unknown", "not a url"),
            ("frontend", "http://second.example.com/x"),
        ]))
        .expect("request");
    assert_eq!(request.services[0].location, "http://second.example.com/x");
    assert_eq!(request.services[1].location, "http://remote-service2.example.com/");
}

#[test]
fn preview_refuses_an_unparsable_url_of_a_service() {
    let config = preview_config();
    assert!(config
        .create_preview_request(&pairs(&[("frontend", "not a url"), ("frontend", "http://ok.example.com")]))
        .is_none());
}

#[test]
fn preview_endpoint_joins_onto_the_worker_url() {
    assert_eq!(
        linkup_cli::preview::preview_endpoint("https://remote-linkup.example.com/base/").as_deref(),
        Some("https://remote-linkup.example.com/preview")
    );
    assert_eq!(linkup_cli::preview::preview_endpoint("not a url"), None);
}
