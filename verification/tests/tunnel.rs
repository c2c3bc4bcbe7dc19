use linkup_cli::tunnel::{tunnel_command_args, BootStep, CheckErr, RealTunnelManager, TunnelBootError, TunnelLogScan};

#[test]
fn free_tunnel_url_found_in_log() {
    let mut scan = TunnelLogScan::new();
    assert_eq!(scan.scan_line("INF Requesting new quick Tunnel", false, "s"), None);
    assert_eq!(scan.scan_line("INF |  https://quick-brown-fox.trycloudflare.com  |", false, "s"), None);
    assert_eq!(scan.url, Some("https://quick-brown-fox.trycloudflare.com/".to_string()));
    assert_eq!(
        scan.scan_line("INF Registered tunnel connection connIndex=0", false, "s"),
        Some("https://quick-brown-fox.trycloudflare.com/".to_string())
    );
}

#[test]
fn paid_tunnel_url_is_the_sessions() {
    let mut scan = TunnelLogScan::new();
    assert_eq!(
        scan.scan_line("Registered tunnel connection", true, "happy-cat"),
        Some("https://tunnel-happy-cat.mentimeter.dev/".to_string())
    );
}

#[test]
fn started_before_url() {
    let mut scan = TunnelLogScan::new();
    assert_eq!(scan.scan_line("Registered tunnel connection", false, "s"), None);
    assert!(scan.found_started);
    assert_eq!(scan.scan_line("https://a-b.trycloudflare.com", false, "s"), Some("https://a-b.trycloudflare.com/".to_string()));
}

#[test]
fn cloudflared_arguments() {
    assert_eq!(tunnel_command_args(true, "happy-cat", "http://localhost:80"), vec!["tunnel", "run", "happy-cat"]);
    assert_eq!(tunnel_command_args(false, "happy-cat", "http://localhost:80"), vec!["tunnel", "--url", "http://localhost:80"]);
}

#[test]
fn booting_is_tried_three_times() {
    let m = RealTunnelManager;
    assert!(matches!(m.after_attempt(1, Ok("u".to_string())), BootStep::Done(Ok(_))));
    assert!(matches!(m.after_attempt(1, Err(TunnelBootError::Other("x".to_string()))), BootStep::Retry));
    assert!(matches!(m.after_attempt(2, Err(TunnelBootError::Other("x".to_string()))), BootStep::Retry));
    assert!(matches!(m.after_attempt(3, Err(TunnelBootError::Other("x".to_string()))), BootStep::GiveUp(_)));
    match m.after_attempt(1, Err(TunnelBootError::StopErr("boom".to_string()))) {
        BootStep::Done(Err(TunnelBootError::StopErr(m))) => {
            assert_eq!(m, "Failed to stop tunnel when retrying tunnel boot: boom")
        }
        _ => panic!("expected the stop error"),
    }
    assert!(m.is_tunnel_running(true).is_ok());
    assert!(m.is_tunnel_running(false) == Err(CheckErr::TunnelNotRunning));
}
