use yaesandbox_launcher::error::LauncherError;
use yaesandbox_launcher::paths::AppState;

fn state() -> AppState {
    AppState::new("/opt/launcher".to_string())
}

#[test]
fn resolve_joins_under_root() {
    assert_eq!(state().resolve_safe_path("app/frontend.zip").unwrap(), "/opt/launcher/app/frontend.zip");
    let s = AppState::new("/opt/launcher/".to_string());
    assert_eq!(s.resolve_safe_path("x").unwrap(), "/opt/launcher/x");
}

#[test]
fn rooted_path_under_root_is_accepted() {
    let s = state();
    assert_eq!(s.resolve_safe_path("/opt/launcher/x").unwrap(), "/opt/launcher/x");
    assert_eq!(s.resolve_safe_path("/opt/launcher").unwrap(), "/opt/launcher");
    assert_eq!(s.resolve_safe_path("/opt/launcher/").unwrap(), "/opt/launcher/");
    assert_eq!(s.resolve_safe_path("a:b").unwrap(), "/opt/launcher/a:b");
    let w = AppState::new("C:\\apps\\launcher".to_string());
    assert_eq!(w.resolve_safe_path("C:\\apps\\launcher\\app.zip").unwrap(), "C:\\apps\\launcher\\app.zip");
    assert!(w.resolve_safe_path("D:\\x").is_err());
    assert!(w.resolve_safe_path("C:").is_err());
}

#[test]
fn resolve_refuses_traversal() {
    for bad in ["", "../etc", "a/../../b", "/etc/passwd", "/opt/launcherx/y", "/opt/launcher/../etc", "\\\\server\\share", "C:\\Windows"] {
        match state().resolve_safe_path(bad) {
            Err(LauncherError::PathSecurity { path }) => assert_eq!(path, bad),
            other => panic!("{:?} accepted: {:?}", bad, other),
        }
    }
}

#[test]
fn is_root_sees_through_current_dir_components() {
    let s = state();
    assert!(s.is_root("/opt/launcher"));
    assert!(s.is_root("/opt/launcher/"));
    assert!(s.is_root("/opt/launcher/."));
    assert!(s.is_root("/opt/launcher/./"));
    assert!(!s.is_root("/opt/launcher/app"));
    assert!(!s.is_root("/opt/launcher."));
    assert!(!s.is_root("/opt/launcher/.."));
    assert!(!s.is_root("/opt"));
}
