use linkup_cli::startup::{
    status_cell, LocalServerAction, LocalServerEvent, LocalServerFailure, LocalServerRun, RunStatus, RunUpdate,
    StatusBoard, TunnelAction, TunnelEvent, TunnelFailure, TunnelRun,
};
use linkup_cli::health::Style;

#[test]
fn local_server_already_running() {
    let mut run = LocalServerRun::new();
    let (u, a) = run.step(LocalServerEvent::Proceed);
    assert!(u.unwrap().status == RunStatus::Starting);
    assert!(matches!(a, LocalServerAction::Probe));
    let (u, a) = run.step(LocalServerEvent::Reachable(true));
    let u = u.unwrap();
    assert!(u.status == RunStatus::Started);
    assert_eq!(u.details, Some("Was already running".to_string()));
    assert!(matches!(a, LocalServerAction::Finish(Ok(()))));
}

#[test]
fn local_server_retries_ten_times() {
    let mut run = LocalServerRun::new();
    run.step(LocalServerEvent::Proceed);
    run.step(LocalServerEvent::Reachable(false));
    let (_, a) = run.step(LocalServerEvent::Spawned(true));
    assert!(matches!(a, LocalServerAction::Probe));
    for attempt in 1..=10u8 {
        let (u, a) = run.step(LocalServerEvent::Reachable(false));
        assert!(u.is_none());
        assert!(matches!(a, LocalServerAction::Sleep(1000)));
        let (u, a) = run.step(LocalServerEvent::Slept);
        assert_eq!(u.unwrap().details, Some(format!("Waiting for server... retry #{}", attempt)));
        assert!(matches!(a, LocalServerAction::Probe));
    }
    let (u, a) = run.step(LocalServerEvent::Reachable(false));
    assert_eq!(u.unwrap().details, Some("Failed to reach server".to_string()));
    assert!(matches!(a, LocalServerAction::Finish(Err(LocalServerFailure::ServerUnreachable))));
}

#[test]
fn local_server_starts_and_uploads() {
    let mut run = LocalServerRun::new();
    run.step(LocalServerEvent::Proceed);
    run.step(LocalServerEvent::Reachable(false));
    run.step(LocalServerEvent::Spawned(true));
    let (_, a) = run.step(LocalServerEvent::Reachable(true));
    assert!(matches!(a, LocalServerAction::Upload));
    let (u, a) = run.step(LocalServerEvent::Uploaded(true));
    assert!(u.unwrap().status == RunStatus::Started);
    assert!(matches!(a, LocalServerAction::Finish(Ok(()))));
    let (u, a) = run.step(LocalServerEvent::Proceed);
    assert!(u.is_none());
    assert!(matches!(a, LocalServerAction::Finish(Ok(()))));
}

#[test]
fn local_server_spawn_failure() {
    let mut run = LocalServerRun::new();
    run.step(LocalServerEvent::Proceed);
    run.step(LocalServerEvent::Reachable(false));
    let (u, a) = run.step(LocalServerEvent::Spawned(false));
    assert_eq!(u.unwrap().details, Some("Failed to start".to_string()));
    assert!(matches!(a, LocalServerAction::Finish(Err(LocalServerFailure::StartFailed))));
}

#[test]
fn tunnel_skipped_or_refused() {
    let mut run = TunnelRun::new(false, "s".to_string(), None);
    let (u, a) = run.step(TunnelEvent::Proceed);
    let u = u.unwrap();
    assert!(u.status == RunStatus::Skipped);
    assert_eq!(u.details, Some("Requested no tunnel".to_string()));
    assert!(matches!(a, TunnelAction::Finish(Ok(()))));

    let mut run = TunnelRun::new(true, "".to_string(), None);
    let (u, a) = run.step(TunnelEvent::Proceed);
    assert_eq!(u.unwrap().details, Some("Empty session name".to_string()));
    assert!(matches!(a, TunnelAction::Finish(Err(TunnelFailure::InvalidSessionName(_)))));
}

#[test]
fn tunnel_full_start() {
    let mut run = TunnelRun::new(true, "happy-cat".to_string(), None);
    assert_eq!(run.port, 80);
    let (_, a) = run.step(TunnelEvent::Proceed);
    assert!(matches!(a, TunnelAction::FindRunning));
    let (u, a) = run.step(TunnelEvent::Running(false));
    assert!(u.unwrap().status == RunStatus::Starting);
    assert!(matches!(a, TunnelAction::Start(80)));
    let (_, a) = run.step(TunnelEvent::Started(Some("https://t.example/".to_string())));
    assert!(matches!(a, TunnelAction::CheckPidFile));
    let (_, a) = run.step(TunnelEvent::PidFile(false));
    assert!(matches!(a, TunnelAction::Sleep(1000)));
    let (u, _) = run.step(TunnelEvent::Slept);
    assert_eq!(u.unwrap().details, Some("Waiting for tunnel... retry #1".to_string()));
    let (_, a) = run.step(TunnelEvent::PidFile(true));
    match a {
        TunnelAction::CheckDns(u) => assert_eq!(u, "https://t.example/"),
        _ => panic!("expected a DNS check"),
    }
    let (_, a) = run.step(TunnelEvent::Dns(false));
    assert!(matches!(a, TunnelAction::Sleep(2000)));
    let (u, _) = run.step(TunnelEvent::Slept);
    assert_eq!(u.unwrap().details, Some("Waiting for tunnel DNS to propagate... retry #1".to_string()));
    let (_, a) = run.step(TunnelEvent::Dns(true));
    match a {
        TunnelAction::Save(u) => assert_eq!(u, "https://t.example/"),
        _ => panic!("expected saving"),
    }
    let (u, a) = run.step(TunnelEvent::Saved(true));
    assert!(u.unwrap().status == RunStatus::Started);
    assert!(matches!(a, TunnelAction::Finish(Ok(()))));
}

#[test]
fn tunnel_pid_file_gives_up_after_eleven_retries() {
    let mut run = TunnelRun::new(true, "happy-cat".to_string(), Some(9080));
    run.step(TunnelEvent::Proceed);
    let (_, a) = run.step(TunnelEvent::Running(false));
    assert!(matches!(a, TunnelAction::Start(9080)));
    run.step(TunnelEvent::Started(Some("https://t.example/".to_string())));
    for _ in 0..11 {
        let (_, a) = run.step(TunnelEvent::PidFile(false));
        assert!(matches!(a, TunnelAction::Sleep(1000)));
        run.step(TunnelEvent::Slept);
    }
    let (u, a) = run.step(TunnelEvent::PidFile(false));
    assert_eq!(u.unwrap().details, Some("Failed to start tunnel".to_string()));
    assert!(matches!(a, TunnelAction::Finish(Err(TunnelFailure::PidfileNotFound))));
}

#[test]
fn tunnel_already_running() {
    let mut run = TunnelRun::new(true, "happy-cat".to_string(), None);
    run.step(TunnelEvent::Proceed);
    let (u, a) = run.step(TunnelEvent::Running(true));
    assert_eq!(u.unwrap().details, Some("Was already running".to_string()));
    assert!(matches!(a, TunnelAction::Finish(Ok(()))));
}

use linkup_cli::startup::{start_check, BackgroundAction, BackgroundEvent, BackgroundFailure, BackgroundKind, BackgroundRun, StartCheck};

#[test]
fn caddy_skipped_without_local_dns() {
    let mut run = BackgroundRun::new(BackgroundKind::Caddy);
    let (u, a) = run.step(BackgroundEvent::Proceed);
    assert!(u.is_none());
    assert!(matches!(a, BackgroundAction::Check));
    let (u, a) = run.step(BackgroundEvent::Checked(start_check(Some(false))));
    let u = u.unwrap();
    assert!(u.status == RunStatus::Skipped);
    assert_eq!(u.details, Some("Local DNS not installed".to_string()));
    assert!(matches!(a, BackgroundAction::Finish(Ok(()))));
    assert!(start_check(None) == StartCheck::Unreadable);
    assert!(start_check(Some(true)) == StartCheck::Start);
}

#[test]
fn dnsmasq_is_set_up_then_spawned() {
    let mut run = BackgroundRun::new(BackgroundKind::Dnsmasq);
    run.step(BackgroundEvent::Proceed);
    let (u, a) = run.step(BackgroundEvent::Checked(StartCheck::Start));
    assert!(u.unwrap().status == RunStatus::Starting);
    assert!(matches!(a, BackgroundAction::FindRunning));
    let (_, a) = run.step(BackgroundEvent::Running(false));
    assert!(matches!(a, BackgroundAction::SetUp));
    let (u, a) = run.step(BackgroundEvent::SetUp(false));
    assert_eq!(u.unwrap().details, Some("Failed to setup".to_string()));
    assert!(matches!(a, BackgroundAction::Finish(Err(BackgroundFailure::SetupFailed))));
}

#[test]
fn local_dns_spawns_directly() {
    let mut run = BackgroundRun::new(BackgroundKind::LocalDns);
    let (u, a) = run.step(BackgroundEvent::Proceed);
    assert!(u.unwrap().status == RunStatus::Starting);
    assert!(matches!(a, BackgroundAction::Spawn));
    let (u, a) = run.step(BackgroundEvent::Spawned(true));
    assert!(u.unwrap().status == RunStatus::Started);
    assert!(matches!(a, BackgroundAction::Finish(Ok(()))));
}

#[test]
fn status_cells_show_spinner_label_and_detail() {
    let starting = RunUpdate { status: RunStatus::Starting, details: Some("retry #2".to_string()) };
    assert_eq!(status_cell(&starting, 0), "⠋ (retry #2)");
    assert_eq!(status_cell(&starting, 13), "⠸ (retry #2)");
    assert_eq!(status_cell(&RunUpdate { status: RunStatus::Started, details: None }, 5), "started");
    assert_eq!(status_cell(&RunUpdate { status: RunStatus::Pending, details: None }, 0), "pending");
    assert_eq!(
        status_cell(&RunUpdate { status: RunStatus::Error, details: Some("Failed to start".to_string()) }, 0),
        "error (Failed to start)"
    );
}

#[test]
fn status_board_keeps_the_latest_update_per_service() {
    let names = vec!["Caddy".to_string(), "Dnsmasq".to_string()];
    let mut board = StatusBoard::new(&names);
    let lines = board.lines(0);
    assert_eq!(lines.len(), 2);
    assert!(lines.iter().all(|l| l.status == "pending" && l.style == Style::Plain));

    board.apply("Caddy", &RunUpdate { status: RunStatus::Starting, details: None });
    board.apply("Caddy", &RunUpdate { status: RunStatus::Started, details: None });
    board.apply("Dnsmasq", &RunUpdate { status: RunStatus::Error, details: Some("boom".to_string()) });
    board.apply("Unknown", &RunUpdate { status: RunStatus::Skipped, details: None });
    let lines = board.lines(1);
    assert_eq!(lines[0].name, "Caddy");
    assert_eq!(lines[0].status, "started");
    assert!(lines[0].style == Style::Good);
    assert_eq!(lines[1].status, "error (boom)");
    assert!(lines[1].style == Style::Warn);
}
