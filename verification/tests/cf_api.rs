use linkup_cli::cf_api::{
    check_response, created_namespace_id, find_dns_record, find_namespace, find_script, find_worker_route, url_of,
    zone_name_of, ApiDnsRecord, ApiWorkerRoute, DeployError, Endpoint, KvNamespace,
};

#[test]
fn endpoint_urls() {
    assert_eq!(url_of("acc", &Endpoint::Scripts), "https://api.cloudflare.com/client/v4/accounts/acc/workers/scripts");
    assert_eq!(
        url_of("acc", &Endpoint::Script("s".to_string())),
        "https://api.cloudflare.com/client/v4/accounts/acc/workers/scripts/s"
    );
    assert_eq!(url_of("acc", &Endpoint::KvNamespaces), "https://api.cloudflare.com/client/v4/accounts/acc/storage/kv/namespaces");
    assert_eq!(
        url_of("acc", &Endpoint::KvNamespace("n".to_string())),
        "https://api.cloudflare.com/client/v4/accounts/acc/storage/kv/namespaces/n"
    );
    assert_eq!(url_of("acc", &Endpoint::Subdomain), "https://api.cloudflare.com/client/v4/accounts/acc/workers/subdomain");
    assert_eq!(url_of("acc", &Endpoint::Zone("z".to_string())), "https://api.cloudflare.com/client/v4/zones/z");
    assert_eq!(url_of("acc", &Endpoint::DnsRecords("z".to_string())), "https://api.cloudflare.com/client/v4/zones/z/dns_records");
    assert_eq!(
        url_of("acc", &Endpoint::DnsRecord("z".to_string(), "r".to_string())),
        "https://api.cloudflare.com/client/v4/zones/z/dns_records/r"
    );
    assert_eq!(url_of("acc", &Endpoint::WorkerRoutes("z".to_string())), "https://api.cloudflare.com/client/v4/zones/z/workers/routes");
    assert_eq!(
        url_of("acc", &Endpoint::WorkerRoute("z".to_string(), "r".to_string())),
        "https://api.cloudflare.com/client/v4/zones/z/workers/routes/r"
    );
}

#[test]
fn responses_are_judged() {
    match check_response(false, "404 Not Found", "nope", true) {
        Err(DeployError::UnexpectedResponse(m)) => assert_eq!(m, "404 Not Found: nope"),
        _ => panic!(),
    }
    assert!(matches!(check_response(true, "200 OK", "", false), Err(DeployError::OtherError)));
    assert!(check_response(true, "200 OK", "", true).is_ok());
    assert_eq!(created_namespace_id(Some(KvNamespace { id: "i".to_string(), title: "t".to_string() })).unwrap(), "i");
    match created_namespace_id(None) {
        Err(DeployError::UnexpectedResponse(m)) => assert_eq!(m, "No namespace ID returned"),
        _ => panic!(),
    }
    assert_eq!(zone_name_of(true, Some("example.com".to_string())).unwrap(), "example.com");
    assert!(matches!(zone_name_of(true, None), Err(DeployError::UnexpectedResponse(_))));
    assert!(matches!(zone_name_of(false, Some("x".to_string())), Err(DeployError::UnexpectedResponse(_))));
}

#[test]
fn listings_are_searched() {
    assert_eq!(find_script(&["a".to_string(), "b".to_string()], "b").unwrap().id, "b");
    assert!(find_script(&["a".to_string()], "b").is_none());
    let ns = vec![
        KvNamespace { id: "1".to_string(), title: "x".to_string() },
        KvNamespace { id: "2".to_string(), title: "kv".to_string() },
    ];
    assert_eq!(find_namespace(&ns, "kv"), Some("2".to_string()));
    assert_eq!(find_namespace(&ns, "none"), None);
    let records = vec![
        ApiDnsRecord {
            id: "r1".to_string(),
            name: "a".to_string(),
            record_type: "A".to_string(),
            content: "1.2.3.4".to_string(),
            proxied: None,
            comment: None,
        },
        ApiDnsRecord {
            id: "r2".to_string(),
            name: "b".to_string(),
            record_type: "CNAME".to_string(),
            content: "t".to_string(),
            proxied: None,
            comment: Some("s-b".to_string()),
        },
    ];
    let r = find_dns_record(&records, "s-b").unwrap();
    assert_eq!(r.id, "r2");
    assert_eq!(r.comment, "s-b");
    assert!(!r.proxied);
    assert!(find_dns_record(&records, "other").is_none());
    let routes = vec![
        ApiWorkerRoute { id: "1".to_string(), pattern: "p/*".to_string(), script: None },
        ApiWorkerRoute { id: "2".to_string(), pattern: "p/*".to_string(), script: Some("s".to_string()) },
    ];
    assert_eq!(find_worker_route(&routes, "p/*", "s"), Some("2".to_string()));
    assert_eq!(find_worker_route(&routes, "p/*", "t"), None);
}
