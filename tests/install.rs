use yaesandbox_launcher::error::LauncherError;
use yaesandbox_launcher::install::{install_outcome, next_install_step, plan_entry, plan_install, InstallStep};
use yaesandbox_launcher::ownership::{create_owned_directory, safe_remove_owned_directory, DirAction, DirProbe};
use yaesandbox_launcher::paths::AppState;

fn after(p: DirProbe, a: DirAction) -> DirProbe {
    match a {
        DirAction::Nothing => p,
        DirAction::CreateMarked | DirAction::WriteMarker => DirProbe::Directory { marked: true },
        DirAction::RemoveAll => DirProbe::Absent,
    }
}

/// Runs an installation of `total` entries over the modelled target, failing
/// after `fail_after` entries when given.
fn run(target: DirProbe, total: usize, fail_after: Option<usize>) -> (Result<(), LauncherError>, DirProbe) {
    let mut dir = target;
    match safe_remove_owned_directory(dir) {
        Ok(a) => dir = after(dir, a),
        Err(e) => return (Err(e), dir),
    }
    match create_owned_directory(dir) {
        Ok(a) => dir = after(dir, a),
        Err(e) => return (Err(e), dir),
    }
    let mut extraction = Ok(());
    for i in 0..total {
        if Some(i) == fail_after {
            extraction = Err(LauncherError::Io { detail: "interrupted".to_string() });
            break;
        }
        plan_entry("/opt/launcher/app", &format!("file{}.txt", i), true).unwrap();
    }
    let rollback = if extraction.is_err() {
        let a = safe_remove_owned_directory(dir).unwrap();
        dir = after(dir, a);
        Ok(())
    } else {
        Ok(())
    };
    (install_outcome(extraction, rollback), dir)
}

#[test]
fn interrupted_install_leaves_nothing_and_retry_succeeds() {
    let (r, dir) = run(DirProbe::Absent, 5, Some(3));
    assert!(matches!(r, Err(LauncherError::Io { .. })));
    assert_eq!(dir, DirProbe::Absent);
    let (r, dir) = run(dir, 5, None);
    assert!(r.is_ok());
    assert_eq!(dir, DirProbe::Directory { marked: true });
}

#[test]
fn install_over_foreign_directory_is_refused() {
    let (r, dir) = run(DirProbe::Directory { marked: false }, 2, None);
    assert!(matches!(r, Err(LauncherError::OwnershipConflict)));
    assert_eq!(dir, DirProbe::Directory { marked: false });
}

#[test]
fn rollback_failure_takes_precedence() {
    let r = install_outcome(
        Err(LauncherError::Io { detail: "disk full".to_string() }),
        Err(LauncherError::Io { detail: "locked".to_string() }),
    );
    match r {
        Err(LauncherError::RollbackFailed { cause, rollback }) => {
            assert!(matches!(*cause, LauncherError::Io { ref detail } if detail == "disk full"));
            assert!(matches!(*rollback, LauncherError::Io { ref detail } if detail == "locked"));
        }
        other => panic!("unexpected {:?}", other),
    }
    assert!(install_outcome(Ok(()), Ok(())).is_ok());
}

#[test]
fn entries_are_confined_to_target() {
    let e = plan_entry("/opt/launcher/app", "assets/index.html", true).unwrap();
    assert_eq!(e.path, "/opt/launcher/app/assets/index.html");
    assert!(!e.is_dir);
    let d = plan_entry("/opt/launcher/app", "assets/", true).unwrap();
    assert!(d.is_dir);
    assert!(plan_entry("/opt/launcher/app", "a..b/c", true).is_ok());
    assert_eq!(plan_entry("/opt/launcher/app", "a:b", true).unwrap().path, "/opt/launcher/app/a:b");
    let inside = plan_entry("/opt/launcher/app", "a/../b.txt", true).unwrap();
    assert_eq!(inside.path, "/opt/launcher/app/a/../b.txt");
    assert!(plan_entry("/opt/launcher/app", "./a/./b/../c", true).is_ok());
    assert!(plan_entry("/opt/launcher/app", "a\\..\\b.txt", true).is_ok());
    assert!(matches!(
        plan_entry("/opt/launcher/app", "assets/index.html", false),
        Err(LauncherError::PathSecurity { .. })
    ));
    for bad in ["../evil", "a/../../evil", "a/b/../../../evil", "./../evil", "a\\..\\..\\evil", "/etc/passwd", "C:/x", "", "a\0b", ".."] {
        assert!(
            matches!(plan_entry("/opt/launcher/app", bad, true), Err(LauncherError::PathSecurity { .. })),
            "{:?} accepted",
            bad
        );
    }
}

#[test]
fn plan_install_checks_paths_and_root() {
    let s = AppState::new("/opt/launcher".to_string());
    let p = plan_install(&s, "downloads/app.zip", "app").unwrap();
    assert_eq!(p.archive, "/opt/launcher/downloads/app.zip");
    assert_eq!(p.target, "/opt/launcher/app");
    assert!(matches!(plan_install(&s, "downloads/app.zip", "."), Err(LauncherError::RootTarget)));
    assert!(matches!(plan_install(&s, "../app.zip", "app"), Err(LauncherError::PathSecurity { .. })));
    assert!(matches!(plan_install(&s, "app.zip", "../x"), Err(LauncherError::PathSecurity { .. })));
    let p = plan_install(&s, "/opt/launcher/downloads/app.zip", "/opt/launcher/app").unwrap();
    assert_eq!(p.archive, "/opt/launcher/downloads/app.zip");
    assert_eq!(p.target, "/opt/launcher/app");
    assert!(matches!(plan_install(&s, "app.zip", "/opt/launcher"), Err(LauncherError::RootTarget)));
    assert!(matches!(plan_install(&s, "/tmp/app.zip", "app"), Err(LauncherError::PathSecurity { .. })));
}

#[test]
fn install_steps_roll_back_only_after_failed_extraction() {
    let mut s = InstallStep::ClearTarget;
    let mut seen = Vec::new();
    while s != InstallStep::Done {
        seen.push(s);
        s = next_install_step(s, true);
    }
    assert_eq!(seen, vec![InstallStep::ClearTarget, InstallStep::CreateTarget, InstallStep::Extract]);
    assert_eq!(next_install_step(InstallStep::Extract, false), InstallStep::RollBack);
    assert_eq!(next_install_step(InstallStep::RollBack, true), InstallStep::Failed);
    assert_eq!(next_install_step(InstallStep::RollBack, false), InstallStep::Failed);
    assert_eq!(next_install_step(InstallStep::ClearTarget, false), InstallStep::Failed);
    assert_eq!(next_install_step(InstallStep::CreateTarget, false), InstallStep::Failed);
}
