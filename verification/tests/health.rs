use linkup_cli::health::{
    BackgroundServices, EnvironmentVariables, Health, LinkupDir, NamedProcess, Session, Style, SystemInfo,
};

fn text(line: &[linkup_cli::health::Segment]) -> String {
    line.iter().map(|s| s.text.as_str()).collect::<Vec<_>>().concat()
}

#[test]
fn background_services_from_processes() {
    let processes = vec![
        NamedProcess { pid: "10".to_string(), name: "caddy".to_string() },
        NamedProcess { pid: "11".to_string(), name: "bash".to_string() },
        NamedProcess { pid: "12".to_string(), name: "dnsmasq".to_string() },
        NamedProcess { pid: "13".to_string(), name: "caddy".to_string() },
    ];
    let b = BackgroundServices::from_processes(&processes);
    assert_eq!(b.caddy_pids, vec!["10".to_string(), "13".to_string()]);
    assert_eq!(b.dnsmasq_pids, vec!["12".to_string()]);
    assert!(b.cloudflared_pids.is_empty());
}

#[test]
fn health_report_lines() {
    let h = Health::load(
        SystemInfo { os_name: "Linux".to_string(), os_version: "6.1".to_string() },
        Session { name: "happy-cat".to_string() },
        EnvironmentVariables { cf_api_token: true, cf_zone_id: false, cf_account_id: true },
        BackgroundServices {
            caddy_pids: vec!["10".to_string(), "13".to_string()],
            dnsmasq_pids: vec![],
            cloudflared_pids: vec!["7".to_string()],
        },
        LinkupDir { location: "/home/me/.linkup".to_string(), content: vec!["state".to_string(), "caddy-pid".to_string()] },
    );
    let report = h.report();
    let lines: Vec<String> = report.iter().map(|l| text(l)).collect();
    assert_eq!(
        lines,
        vec![
            "System info:",
            "  OS: Linux (6.1)",
            "Session info:",
            "  Name: happy-cat",
            "Background sevices:",
            "  - Caddy       RUNNING (10,13)",
            "  - dnsmasq     NOT RUNNING",
            "  - Cloudflared RUNNING (7)",
            "Environment variables:",
            "  - LINKUP_CF_API_TOKEN          OK",
            "  - LINKUP_CLOUDFLARE_ZONE_ID    MISSING",
            "  - LINKUP_CLOUDFLARE_ACCOUNT_ID OK",
            "Linkup dir:",
            "  Location: /home/me/.linkup",
            "  Content:",
            "    - state",
            "    - caddy-pid",
        ]
    );
    assert!(report[0][0].style == Style::Heading);
    assert!(report[5][1].style == Style::Good);
    assert!(report[6][1].style == Style::Warn);
    assert!(report[10][1].style == Style::Warn);
}
