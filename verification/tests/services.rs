use linkup_cli::services::cloudflared;
use linkup_cli::services::{
    any_domain_resolved, find_service_pid, first_missing, pid_from_content, remove_pid_file_after,
    running_pid_of, stop_after_read, stop_after_signal, Caddy, CloudflareTunnel, Dnsmasq, LocalDnsServer,
    LocalServer, PidError, ProcessInfo, ServiceId, StopSignal, StopStep,
};

#[test]
fn test_url_default_port() {
    let url = LocalServer::url(80).unwrap();
    let parsed = url::Url::parse(&url).unwrap();
    assert_eq!(parsed.host_str(), Some("localhost"));
    assert_eq!(parsed.port_or_known_default(), Some(80));
}

#[test]
fn test_url_custom_port() {
    let url = LocalServer::url(9080).unwrap();
    assert_eq!(url.as_str(), "http://localhost:9080/");
}

#[test]
fn test_https_port_derivation() {
    let server = LocalServer::new(80);
    assert_eq!(server.https_port(), 443);

    let server = LocalServer::new(9080);
    assert_eq!(server.https_port(), 9443);
}

#[test]
fn test_https_port_max_valid() {
    let server = LocalServer::new(65172);
    assert_eq!(server.https_port(), 65535);
}

#[test]
fn test_https_port_overflow_saturates() {
    let server = LocalServer::new(65535);
    assert_eq!(server.https_port(), u16::MAX);
}

#[test]
fn local_server_url_drops_default_port() {
    // The URL crate serializes the default HTTP port away: the result is not
    // the text handed to it.
    assert_eq!(LocalServer::url(80).unwrap(), "http://localhost/");
}

#[test]
fn local_server_files() {
    let server = LocalServer::new(9080);
    assert_eq!(server.stdout_file_name, "localserver-stdout");
    assert_eq!(server.stderr_file_name, "localserver-stderr");
    assert_eq!(server.http_port, 9080);
}

#[test]
fn service_file_names() {
    let caddy = Caddy::new();
    assert_eq!(caddy.caddyfile_name, "Caddyfile");
    assert_eq!(caddy.stdout_file_name, "caddy-stdout");
    assert_eq!(caddy.stderr_file_name, "caddy-stderr");
    assert_eq!(caddy.pidfile_name, "caddy-pid");

    let dnsmasq = Dnsmasq::new();
    assert_eq!(dnsmasq.port, 8053);
    assert_eq!(dnsmasq.config_file_name, "dnsmasq-conf");
    assert_eq!(dnsmasq.log_file_name, "dnsmasq-log");
    assert_eq!(dnsmasq.pid_file_name, "dnsmasq-pid");

    let dns = LocalDnsServer::new();
    assert_eq!(dns.stdout_file_name, "localdns-stdout");
    assert_eq!(dns.stderr_file_name, "localdns-stderr");
    assert_eq!(dns.pidfile_name, "localdns-pid");

    let tunnel = CloudflareTunnel::new();
    assert_eq!(tunnel.stdout_file_name, "cloudflared-stdout");
    assert_eq!(tunnel.stderr_file_name, "cloudflared-stderr");
    assert_eq!(tunnel.pidfile_name, "cloudflared-pid");
}

#[test]
fn stop_signals() {
    let caddy = Caddy::new().stop();
    assert_eq!(caddy.pid_file, "caddy-pid");
    assert!(caddy.signal == StopSignal::Terminate);
    let dnsmasq = Dnsmasq::new().stop();
    assert_eq!(dnsmasq.pid_file, "dnsmasq-pid");
    assert!(dnsmasq.signal == StopSignal::Terminate);
    let dns = LocalDnsServer::new().stop();
    assert_eq!(dns.pid_file, "localdns-pid");
    assert!(dns.signal == StopSignal::Interrupt);
}

#[test]
fn caddy_site_addresses_and_file() {
    let domains = vec!["example.com".to_string(), "api.example.com".to_string()];
    let addresses = Caddy::site_addresses(&domains);
    assert_eq!(addresses, vec!["example.com, *.example.com".to_string(), "api.example.com, *.api.example.com".to_string()]);

    let text = Caddy::caddyfile("/home/me/.linkup/caddy-stdout", "TOKEN", "ACCOUNT", "NS", &addresses, 80);
    let kv = format!(
        "
            storage cloudflare_kv {{
                api_token       \"{}\"
                account_id      \"{}\"
                namespace_id    \"{}\"
            }}
            ",
        "TOKEN", "ACCOUNT", "NS"
    );
    let expected = format!(
        "
            {{
                http_port 80
                https_port 443
                log {{
                    output file {}
                }}
                {}
            }}

            {} {{
                reverse_proxy localhost:{}
                tls {{
                    dns cloudflare {{env.{}}}
                }}
            }}
            ",
        "/home/me/.linkup/caddy-stdout",
        &kv,
        addresses.join(", "),
        80,
        "LINKUP_CLOUDFLARE_API_TOKEN",
    );
    assert_eq!(text, expected);
}

#[test]
fn caddy_required_env_vars_in_order() {
    assert_eq!(
        Caddy::required_env_vars(),
        vec![
            "LINKUP_CLOUDFLARE_API_TOKEN".to_string(),
            "LINKUP_CLOUDFLARE_ACCOUNT_ID".to_string(),
            "LINKUP_CLOUDFLARE_KV_NAMESPACE_ID".to_string()
        ]
    );
    let names = Caddy::required_env_vars();
    assert_eq!(first_missing(&names, &vec![true, false, false]), Some("LINKUP_CLOUDFLARE_ACCOUNT_ID".to_string()));
    assert_eq!(first_missing(&names, &vec![true, true, true]), None);
}

#[test]
fn dnsmasq_config_text() {
    let d = Dnsmasq::new();
    let domains = vec!["example.com".to_string(), "other.io".to_string()];
    let text = d.config(&domains, "happy-cat", "/l/dnsmasq-log", "/l/dnsmasq-pid");
    let expected = "address=/happy-cat.example.com/127.0.0.1\naddress=/happy-cat.example.com/::1\nlocal=/happy-cat.example.com/\naddress=/happy-cat.other.io/127.0.0.1\naddress=/happy-cat.other.io/::1\nlocal=/happy-cat.other.io/\n\n\nport=8053\nlog-facility=/l/dnsmasq-log\npid-file=/l/dnsmasq-pid\n";
    assert_eq!(text, expected);
}

#[test]
fn local_dns_domains_argument() {
    let domains = vec!["a.com".to_string(), "b.com".to_string()];
    assert_eq!(LocalDnsServer::domains_argument(&domains), "a.com,b.com");
    assert_eq!(LocalDnsServer::domains_argument(&Vec::<String>::new()), "");
}

#[test]
fn resolvers_decide_start() {
    let domains = vec!["a.com".to_string(), "b.com".to_string()];
    assert!(any_domain_resolved(&domains, &["b.com".to_string()]));
    assert!(!any_domain_resolved(&domains, &["c.com".to_string()]));
    assert!(!any_domain_resolved(&Vec::<String>::new(), &["c.com".to_string()]));
}

#[test]
fn pid_file_contents() {
    assert_eq!(pid_from_content("1234\n"), Some(1234));
    assert_eq!(pid_from_content("  +42 "), Some(42));
    assert_eq!(pid_from_content("4294967295"), Some(u32::MAX));
    assert_eq!(pid_from_content("4294967296"), None);
    assert_eq!(pid_from_content("12a"), None);
    assert_eq!(pid_from_content(""), None);
    assert_eq!(pid_from_content("-1"), None);
}

#[test]
fn running_pid_needs_running_process() {
    assert_eq!(running_pid_of(Some("77\n"), &[1, 77]), Some(77));
    assert_eq!(running_pid_of(Some("77\n"), &[1, 78]), None);
    assert_eq!(running_pid_of(None, &[77]), None);
    let caddy = Caddy::new();
    assert_eq!(caddy.running_pid(Some("77"), &[77]), Some("77".to_string()));
    assert_eq!(LocalDnsServer::new().running_pid(Some("9"), &[9]), Some(9));
}

#[test]
fn stopping_through_pid_file() {
    match stop_after_read(Ok("12".to_string())) {
        StopStep::Signal(pid) => assert_eq!(pid, "12"),
        _ => panic!("expected a signal"),
    }
    assert!(matches!(stop_after_read(Err(PidError::NoPidFile("gone".to_string()))), StopStep::Done(Ok(()))));
    assert!(matches!(
        stop_after_read(Err(PidError::BadPidFile("bad".to_string()))),
        StopStep::Done(Err(PidError::BadPidFile(_)))
    ));
    assert!(stop_after_signal(Ok(())).is_ok());
    assert!(stop_after_signal(Err(PidError::NoSuchProcess("12".to_string()))).is_ok());
    assert!(matches!(stop_after_signal(Err(PidError::SignalErr("EPERM".to_string()))), Err(PidError::SignalErr(_))));
    assert!(remove_pid_file_after(&Ok(())));
    assert!(!remove_pid_file_after(&Err(PidError::SignalErr("EPERM".to_string()))));
}

#[test]
fn finds_service_by_environment() {
    let processes = vec![
        ProcessInfo { pid: 5, environ: vec!["HOME=/root".to_string()] },
        ProcessInfo { pid: 6, environ: vec!["LINKUP_SERVICE_ID=cloudflare-tunnel".to_string()] },
        ProcessInfo { pid: 7, environ: vec!["LINKUP_SERVICE_ID=cloudflare-tunnel".to_string()] },
    ];
    assert_eq!(find_service_pid(&processes, &ServiceId("cloudflare-tunnel".to_string())), Some(6));
    assert_eq!(find_service_pid(&processes, &ServiceId("other".to_string())), None);
    assert_eq!(cloudflared::stop(&processes), Some(6));
    assert_eq!(cloudflared::stop(&processes[..1]), None);
    assert_eq!(ServiceId("x".to_string()).env_entry(), "LINKUP_SERVICE_ID=x");
}

use linkup_cli::services::{resolver_install_command, resolver_path, CaddyError};

#[test]
fn caddy_start_decision() {
    let caddy = Caddy::new();
    assert!(matches!(caddy.should_start(Some("LINKUP_CLOUDFLARE_API_TOKEN".to_string()), true, Some(true)),
        Err(CaddyError::MissingEnvVar(v)) if v == "LINKUP_CLOUDFLARE_API_TOKEN"));
    assert!(matches!(caddy.should_start(None, false, None), Ok(false)));
    assert!(matches!(caddy.should_start(None, true, Some(true)), Ok(true)));
    assert!(matches!(caddy.should_start(None, true, None), Err(CaddyError::ResolversUnreadable)));
}

#[test]
fn resolver_files() {
    assert_eq!(resolver_path("example.com"), "/etc/resolver/example.com");
    assert_eq!(resolver_install_command("example.com"), "echo \"nameserver 127.0.0.1\nport 8053\" > /etc/resolver/example.com");
}
