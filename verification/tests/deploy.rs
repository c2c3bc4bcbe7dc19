use linkup_cli::deploy::{
    deploy_metadata, deploy_resources, local_script, DNSRecord, DeployAction, DeployEvent, DeployNotice, DeployRun,
    DestroyRun, TargetCfResources,
};

struct TestCloudflareApi {
    zone_ids: Vec<String>,
    existing_info: bool,
    existing_content: Option<String>,
    create_called_with: Option<String>,
    kv: Option<String>,
    dns_records: Vec<DNSRecord>,
    worker_routes: Vec<(String, String, String)>,
    confirmation_response: bool,
    confirmations_asked: usize,
    messages: Vec<String>,
}

impl TestCloudflareApi {
    fn new(zone_ids: Vec<String>) -> Self {
        TestCloudflareApi {
            zone_ids,
            existing_info: false,
            existing_content: None,
            create_called_with: None,
            kv: None,
            dns_records: vec![],
            worker_routes: vec![],
            confirmation_response: true,
            confirmations_asked: 0,
            messages: vec![],
        }
    }

    /// Performs an action the way the API would and returns the answer.
    fn perform(&mut self, action: &DeployAction) -> DeployEvent {
        match action {
            DeployAction::GetScriptInfo(_) => DeployEvent::ScriptInfo(self.existing_info),
            DeployAction::GetScriptContent(_) => match &self.existing_content {
                Some(c) => DeployEvent::ScriptContent(c.clone()),
                None => DeployEvent::Failed,
            },
            DeployAction::AskConfirmation => {
                self.confirmations_asked += 1;
                DeployEvent::Confirmed(self.confirmation_response)
            }
            DeployAction::CreateWorkerScript(name) => {
                self.create_called_with = Some(name.clone());
                self.existing_info = true;
                DeployEvent::Completed
            }
            DeployAction::GetKvNamespaceId(_) => DeployEvent::KvId(self.kv.clone()),
            DeployAction::CreateKvNamespace(_) => {
                self.kv = Some("new-namespace-id".to_string());
                DeployEvent::KvCreated("new-namespace-id".to_string())
            }
            DeployAction::GetWorkerSubdomain => DeployEvent::Subdomain(None),
            DeployAction::GetDnsRecord(_, comment) => {
                match self.dns_records.iter().find(|r| &r.comment == comment) {
                    Some(r) => DeployEvent::DnsRecordFound(Some(DNSRecord {
                        id: r.id.clone(),
                        name: r.name.clone(),
                        record_type: r.record_type.clone(),
                        content: r.content.clone(),
                        comment: r.comment.clone(),
                        proxied: r.proxied,
                    })),
                    None => DeployEvent::DnsRecordFound(None),
                }
            }
            DeployAction::CreateDnsRecord(_, record) => {
                self.dns_records.push(DNSRecord {
                    id: format!("dns-{}", self.dns_records.len()),
                    name: record.name.clone(),
                    record_type: record.record_type.clone(),
                    content: record.content.clone(),
                    comment: record.comment.clone(),
                    proxied: record.proxied,
                });
                DeployEvent::Completed
            }
            DeployAction::GetZoneName(_) => DeployEvent::ZoneName("example.com".to_string()),
            DeployAction::GetWorkerRoute(z, p, s) => {
                if self.worker_routes.iter().any(|(a, b, c)| a == z && b == p && c == s) {
                    DeployEvent::WorkerRoute(Some(format!("route-id-for-{}", p)))
                } else {
                    DeployEvent::WorkerRoute(None)
                }
            }
            DeployAction::CreateWorkerRoute(z, p, s) => {
                self.worker_routes.push((z.clone(), p.clone(), s.clone()));
                DeployEvent::Completed
            }
            DeployAction::RemoveWorkerRoute(z, id) => {
                self.worker_routes.retain(|(a, p, _)| !(a == z && &format!("route-id-for-{}", p) == id));
                DeployEvent::Completed
            }
            DeployAction::RemoveDnsRecord(_, id) => {
                self.dns_records.retain(|r| &r.id != id);
                DeployEvent::Completed
            }
            DeployAction::RemoveKvNamespace(_) => {
                self.kv = None;
                DeployEvent::Completed
            }
            DeployAction::RemoveWorkerScript(_) => {
                self.existing_info = false;
                DeployEvent::Completed
            }
            DeployAction::Finish(_) => DeployEvent::Proceed,
        }
    }
}

fn test_resources() -> TargetCfResources {
    deploy_resources(local_script().as_bytes().to_vec())
}

fn note(api: &mut TestCloudflareApi, n: Option<DeployNotice>) {
    if let Some(n) = n {
        api.messages.push(n.text());
    }
}

fn deploy_to_cloudflare(resources: &TargetCfResources, api: &mut TestCloudflareApi) -> bool {
    let mut run = DeployRun::new(resources, api.zone_ids.clone());
    let mut event = DeployEvent::Proceed;
    loop {
        let (n, action) = run.step(event);
        note(api, n);
        if let DeployAction::Finish(ok) = action {
            return ok;
        }
        event = api.perform(&action);
    }
}

fn destroy_from_cloudflare(resources: &TargetCfResources, api: &mut TestCloudflareApi) -> bool {
    let mut run = DestroyRun::new(resources, api.zone_ids.clone());
    let mut event = DeployEvent::Proceed;
    loop {
        let (n, action) = run.step(event);
        note(api, n);
        if let DeployAction::Finish(ok) = action {
            return ok;
        }
        event = api.perform(&action);
    }
}

#[test]
fn cf_deploy_test_deploy_to_cloudflare_creates_script_when_none_exists() {
    let mut api = TestCloudflareApi::new(vec!["test-zone-id".to_string()]);
    let result = deploy_to_cloudflare(&test_resources(), &mut api);
    assert!(result);

    let script_name = api.create_called_with.clone().unwrap();
    let metadata = deploy_metadata();
    let parts = &test_resources().worker_script_parts;
    assert_eq!(script_name, "linkup-integration-test-script");
    assert_eq!(metadata.main_module, "index.js");
    assert_eq!(metadata.bindings.len(), 0);
    assert_eq!(metadata.compatibility_date, "2024-12-18");
    assert_eq!(parts.len(), 1);
    assert_eq!(parts[0].name, "index.js");
    assert_eq!(String::from_utf8(parts[0].data.clone()).unwrap(), local_script());
}

#[test]
fn cf_deploy_test_deploy_to_cloudflare_creates_script_when_content_differs() {
    let mut api = TestCloudflareApi::new(vec!["test-zone-id".to_string()]);
    api.existing_info = true;
    api.existing_content = Some("old content".to_string());
    let result = deploy_to_cloudflare(&test_resources(), &mut api);
    assert!(result);
    assert_eq!(api.create_called_with, Some("linkup-integration-test-script".to_string()));
    assert_eq!(api.messages[0], "Worker script differs or does not exist.");
    assert_eq!(api.messages[1], "Worker script uploaded successfully.");
    assert_eq!(api.confirmations_asked, 1);
}

#[test]
fn cf_deploy_test_deploy_to_cloudflare_canceled_by_user() {
    let mut api = TestCloudflareApi::new(vec!["test-zone-id".to_string()]);
    api.confirmation_response = false;
    let result = deploy_to_cloudflare(&test_resources(), &mut api);
    assert!(result);
    assert!(api.create_called_with.is_none());
    assert_eq!(api.messages, vec!["Worker script differs or does not exist.", "Deployment canceled by user."]);
}

#[test]
fn test_deploy_creates_dns_and_route_if_not_exist() {
    let mut api = TestCloudflareApi::new(vec!["test-zone-id".to_string()]);
    let result = deploy_to_cloudflare(&test_resources(), &mut api);
    assert!(result);

    assert_eq!(api.dns_records.len(), 1);
    let rec = &api.dns_records[0];
    assert_eq!(rec.name, "linkup-integraton-test");
    assert!(rec.content.contains("linkup-integration-test-script.workers.dev"));
    assert_eq!(rec.record_type, "CNAME");
    assert!(rec.proxied);

    assert_eq!(api.worker_routes.len(), 1);
    let (zone, pattern, script) = &api.worker_routes[0];
    assert_eq!(zone, "test-zone-id");
    assert_eq!(pattern, "linkup-integraton-test");
    assert_eq!(script, "linkup-integration-test-script");
}

#[test]
fn no_changes_when_content_matches() {
    let mut api = TestCloudflareApi::new(vec!["test-zone-id".to_string()]);
    api.existing_info = true;
    api.existing_content = Some(local_script());
    assert!(deploy_to_cloudflare(&test_resources(), &mut api));
    assert!(api.create_called_with.is_none());
    assert_eq!(api.confirmations_asked, 0);
    assert_eq!(api.messages[0], "No changes needed. Worker script is already up to date.");
    assert_eq!(api.messages[1], "KV namespace 'linkup-integration-test-kv' does not exist. Creating...");
    assert_eq!(api.messages[2], "KV namespace 'linkup-integration-test-kv' created with ID: new-namespace-id");
}

#[test]
fn deploy_then_destroy_removes_everything() {
    let mut api = TestCloudflareApi::new(vec!["zone-a".to_string(), "zone-b".to_string()]);
    assert!(deploy_to_cloudflare(&test_resources(), &mut api));
    assert_eq!(api.worker_routes.len(), 2);
    assert_eq!(api.dns_records.len(), 1);
    assert!(api.kv.is_some());

    api.messages.clear();
    assert!(destroy_from_cloudflare(&test_resources(), &mut api));
    assert!(api.worker_routes.is_empty());
    assert!(api.dns_records.is_empty());
    assert!(api.kv.is_none());
    assert!(!api.existing_info);
    assert_eq!(
        api.messages[0],
        "Removing worker route for pattern 'linkup-integraton-test' and script 'linkup-integration-test-script' in zone 'zone-a'."
    );
    assert_eq!(api.messages.last().unwrap(), "Worker script removed successfully.");
}

#[test]
fn destroying_nothing() {
    let mut api = TestCloudflareApi::new(vec!["zone-a".to_string()]);
    assert!(destroy_from_cloudflare(&test_resources(), &mut api));
    assert_eq!(
        api.messages,
        vec![
            "No worker route for pattern 'linkup-integraton-test' and script 'linkup-integration-test-script' found in zone 'zone-a', nothing to remove.",
            "No DNS record for 'linkup-integraton-test' found in zone 'zone-a', nothing to remove.",
            "KV namespace 'linkup-integration-test-kv' does not exist, nothing to remove.",
            "Worker script 'linkup-integration-test-script' does not exist, nothing to remove.",
        ]
    );
}

#[test]
fn failed_call_ends_deployment() {
    let mut api = TestCloudflareApi::new(vec!["zone-a".to_string()]);
    api.existing_info = true;
    api.existing_content = None;
    assert!(!deploy_to_cloudflare(&test_resources(), &mut api));
}

#[test]
fn notice_texts() {
    assert_eq!(
        DeployNotice::DnsCreated("d".to_string(), "t".to_string()).text(),
        "DNS record for 'd' created pointing to 't'"
    );
    assert_eq!(DeployNotice::RouteCreated("d".to_string(), "s".to_string()).text(), "Worker route for pattern 'd' and script 's' created");
    assert_eq!(DeployNotice::RemovingKv("k".to_string()).text(), "Removing KV namespace 'k'...");
    assert_eq!(DeployNotice::DnsRemoved("n".to_string()).text(), "DNS record 'n' removed.");
}
