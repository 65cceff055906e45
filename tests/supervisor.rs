use yaesandbox_launcher::error::LauncherError;
use yaesandbox_launcher::supervisor::{
    advance, api_url, backend_args, choose_port, port_policy_from_config, resolve_port, start_outcome,
    wait_event, DiagnosticBuffer, PortPolicy, ReadinessLatch, SupervisorEvent, SupervisorPhase,
    WaitResult, START_TIMEOUT_SECS,
};

#[test]
fn stub_announcing_readiness_reaches_ready() {
    let mut latch = ReadinessLatch::new();
    let diagnostics = DiagnosticBuffer::new();
    assert!(!latch.observe("starting up"));
    assert!(latch.observe("info: Now listening on: http://127.0.0.1:60983"));
    assert!(!latch.observe("Now listening on: http://[::1]:60983"));
    let mut phase = SupervisorPhase::NotStarted;
    phase = advance(phase, SupervisorEvent::PortResolved);
    phase = advance(phase, SupervisorEvent::Spawned);
    phase = advance(phase, wait_event(WaitResult::Ready));
    assert_eq!(phase, SupervisorPhase::Ready);
    assert!(start_outcome(WaitResult::Ready, START_TIMEOUT_SECS, &diagnostics).is_ok());
}

#[test]
fn stub_exiting_with_boom_fails_with_diagnostic() {
    let mut diagnostics = DiagnosticBuffer::new();
    diagnostics.push("boom".to_string());
    let mut phase = advance(advance(SupervisorPhase::NotStarted, SupervisorEvent::PortResolved), SupervisorEvent::Spawned);
    phase = advance(phase, wait_event(WaitResult::Exited));
    assert_eq!(phase, SupervisorPhase::Failed);
    match start_outcome(WaitResult::Exited, START_TIMEOUT_SECS, &diagnostics) {
        Err(LauncherError::ProcessCrash { diagnostics }) => assert!(diagnostics.contains("boom")),
        other => panic!("unexpected {:?}", other),
    }
}

#[test]
fn timeout_reports_seconds_and_joined_lines() {
    let mut diagnostics = DiagnosticBuffer::new();
    assert!(diagnostics.is_empty());
    diagnostics.push("first".to_string());
    diagnostics.push("second".to_string());
    assert_eq!(diagnostics.joined(), "first\nsecond");
    match start_outcome(WaitResult::TimedOut, 15, &diagnostics) {
        Err(LauncherError::ProcessTimeout { seconds, diagnostics }) => {
            assert_eq!(seconds, 15);
            assert_eq!(diagnostics, "first\nsecond");
        }
        other => panic!("unexpected {:?}", other),
    }
}

#[test]
fn crash_without_diagnostics_has_empty_text() {
    match start_outcome(WaitResult::Exited, 15, &DiagnosticBuffer::new()) {
        Err(LauncherError::ProcessCrash { diagnostics }) => assert!(diagnostics.is_empty()),
        other => panic!("unexpected {:?}", other),
    }
}

#[test]
fn terminal_phases_ignore_later_events() {
    for e in [SupervisorEvent::Signalled, SupervisorEvent::Exited, SupervisorEvent::TimedOut] {
        assert_eq!(advance(SupervisorPhase::Ready, e), SupervisorPhase::Ready);
        assert_eq!(advance(SupervisorPhase::Failed, e), SupervisorPhase::Failed);
    }
    assert_eq!(advance(SupervisorPhase::NotStarted, SupervisorEvent::PortRefused), SupervisorPhase::Failed);
    assert_eq!(advance(SupervisorPhase::Launching, SupervisorEvent::SpawnFailed), SupervisorPhase::Failed);
}

#[test]
fn port_setting_is_parsed() {
    assert_eq!(port_policy_from_config("auto").unwrap(), PortPolicy::Auto);
    assert_eq!(port_policy_from_config("AUTO").unwrap(), PortPolicy::Auto);
    assert_eq!(port_policy_from_config("60983").unwrap(), PortPolicy::Fixed(60983));
    assert_eq!(port_policy_from_config("+80").unwrap(), PortPolicy::Fixed(80));
    assert_eq!(port_policy_from_config("65535").unwrap(), PortPolicy::Fixed(65535));
    assert_eq!(port_policy_from_config("0").unwrap(), PortPolicy::Fixed(0));
    for bad in ["65536", "", "+", "-1", "80a", " 80", "99999999999"] {
        match port_policy_from_config(bad) {
            Err(LauncherError::InvalidPort { value }) => assert_eq!(value, bad),
            other => panic!("{:?} accepted: {:?}", bad, other),
        }
    }
}

#[test]
fn fixed_port_in_use_is_an_error() {
    assert_eq!(choose_port(PortPolicy::Fixed(8080), true, None).unwrap(), 8080);
    assert!(matches!(choose_port(PortPolicy::Fixed(8080), false, Some(1)), Err(LauncherError::PortInUse { port: 8080 })));
    assert_eq!(choose_port(PortPolicy::Auto, false, Some(15001)).unwrap(), 15001);
    assert!(matches!(choose_port(PortPolicy::Auto, true, None), Err(LauncherError::NoFreePort)));
}

#[test]
fn automatic_port_is_picked() {
    match resolve_port(PortPolicy::Auto) {
        Ok(p) => assert!(p > 0),
        Err(e) => assert!(matches!(e, LauncherError::NoFreePort)),
    }
}

#[test]
fn command_line_names_url_and_frontend() {
    assert_eq!(api_url(60983), "http://127.0.0.1:60983");
    assert_eq!(api_url(0), "http://127.0.0.1:0");
    assert_eq!(api_url(65535), "http://127.0.0.1:65535");
    let args = backend_args("http://127.0.0.1:5", "app/frontend");
    assert_eq!(args, vec!["--urls", "http://127.0.0.1:5", "--FrontendRelativePath", "app/frontend"]);
}
