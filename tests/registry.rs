use yaesandbox_launcher::registry::{get_local_versions, update_local_version, VersionRecord};
use yaesandbox_launcher::self_update::{finalize_pending_update, next_step, plan_self_update, SelfUpdateStep};
use yaesandbox_launcher::paths::AppState;

fn record(pairs: &[(&str, &str)]) -> VersionRecord {
    let mut r = VersionRecord::new();
    for (k, v) in pairs {
        r.set(k.to_string(), v.to_string());
    }
    r
}

#[test]
fn finalize_records_marker_version_then_rests() {
    let stored = record(&[("launcher", "1.0.0")]);
    let plan = finalize_pending_update(Some("9.9.9".to_string()), Some(stored));
    assert!(plan.remove_marker);
    let written = plan.write.unwrap();
    assert_eq!(written.get(&"launcher".to_string()).unwrap(), "9.9.9");
    assert_eq!(written.len(), 1);
    let again = finalize_pending_update(None, Some(written));
    assert!(again.write.is_none());
    assert!(!again.remove_marker);
}

#[test]
fn finalize_without_registry_starts_empty() {
    let plan = finalize_pending_update(Some("2.0.0".to_string()), None);
    let w = plan.write.unwrap();
    assert_eq!(w.len(), 1);
    assert_eq!(w.get(&"launcher".to_string()).unwrap(), "2.0.0");
}

#[test]
fn finalize_keeps_other_components() {
    let stored = record(&[("app", "0.3.0"), ("launcher", "1.0.0"), ("backend", "0.2.0")]);
    let w = finalize_pending_update(Some("1.1.0".to_string()), Some(stored)).write.unwrap();
    assert_eq!(w.get(&"app".to_string()).unwrap(), "0.3.0");
    assert_eq!(w.get(&"backend".to_string()).unwrap(), "0.2.0");
    assert_eq!(w.get(&"launcher".to_string()).unwrap(), "1.1.0");
    assert_eq!(w.len(), 3);
}

#[test]
fn first_run_registry_holds_launcher_only() {
    let (r, persist) = get_local_versions(None, "0.5.0");
    assert!(persist);
    assert_eq!(r.len(), 1);
    assert_eq!(r.get(&"launcher".to_string()).unwrap(), "0.5.0");
    let (r, persist) = get_local_versions(Some(record(&[("app", "1")])), "0.5.0");
    assert!(!persist);
    assert!(r.get(&"launcher".to_string()).is_none());
}

#[test]
fn set_accepts_unknown_components() {
    let r = update_local_version(None, "0.5.0", "plugin-x".to_string(), "3.1".to_string());
    assert_eq!(r.get(&"plugin-x".to_string()).unwrap(), "3.1");
    assert_eq!(r.get(&"launcher".to_string()).unwrap(), "0.5.0");
    let r = update_local_version(Some(r), "0.5.0", "plugin-x".to_string(), "3.2".to_string());
    assert_eq!(r.get(&"plugin-x".to_string()).unwrap(), "3.2");
    assert_eq!(r.len(), 2);
    let (k, v) = r.entry(1);
    assert_eq!((k.as_str(), v.as_str()), ("plugin-x", "3.2"));
}

#[test]
fn self_update_writes_marker_before_replacing() {
    let mut s = SelfUpdateStep::PrepareWorkspace;
    let mut seen = Vec::new();
    while s != SelfUpdateStep::Done {
        seen.push(s);
        s = next_step(s, true);
    }
    assert_eq!(
        seen,
        vec![
            SelfUpdateStep::PrepareWorkspace,
            SelfUpdateStep::ExtractBinary,
            SelfUpdateStep::WriteMarker,
            SelfUpdateStep::ReplaceExecutable,
            SelfUpdateStep::Restart
        ]
    );
    assert_eq!(next_step(SelfUpdateStep::WriteMarker, false), SelfUpdateStep::Failed);
    assert_eq!(next_step(SelfUpdateStep::Failed, true), SelfUpdateStep::Failed);
}

#[test]
fn self_update_archive_stays_under_root() {
    let s = AppState::new("/opt/launcher".to_string());
    let p = plan_self_update(&s, "downloads/launcher.zip").unwrap();
    assert_eq!(p.archive, "/opt/launcher/downloads/launcher.zip");
    assert_eq!(p.workspace, "/opt/launcher/_temp_updates");
    assert!(plan_self_update(&s, "../launcher.zip").is_err());
}
