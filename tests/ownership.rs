use yaesandbox_launcher::error::LauncherError;
use yaesandbox_launcher::ownership::{
    create_owned_directory, mark_as_owned, safe_remove_owned_directory, verify_ownership, DirAction,
    DirProbe,
};

fn after(p: DirProbe, a: DirAction) -> DirProbe {
    match a {
        DirAction::Nothing => p,
        DirAction::CreateMarked | DirAction::WriteMarker => DirProbe::Directory { marked: true },
        DirAction::RemoveAll => DirProbe::Absent,
    }
}

#[test]
fn verify_ownership_reports_each_state() {
    assert!(matches!(verify_ownership(DirProbe::Absent), Ok(false)));
    assert!(matches!(verify_ownership(DirProbe::Directory { marked: true }), Ok(true)));
    assert!(matches!(verify_ownership(DirProbe::Directory { marked: false }), Ok(false)));
    assert!(matches!(verify_ownership(DirProbe::NotADirectory), Err(LauncherError::NotADirectory)));
}

#[test]
fn create_then_remove_leaves_directory_absent() {
    for start in [DirProbe::Absent, DirProbe::Directory { marked: true }] {
        let created = after(start, create_owned_directory(start).unwrap());
        assert_eq!(created, DirProbe::Directory { marked: true });
        let removed = after(created, safe_remove_owned_directory(created).unwrap());
        assert_eq!(removed, DirProbe::Absent);
    }
}

#[test]
fn remove_leaves_unmarked_directory_untouched() {
    let p = DirProbe::Directory { marked: false };
    assert_eq!(safe_remove_owned_directory(p).unwrap(), DirAction::Nothing);
}

#[test]
fn remove_of_absent_directory_succeeds() {
    assert_eq!(safe_remove_owned_directory(DirProbe::Absent).unwrap(), DirAction::Nothing);
}

#[test]
fn create_twice_on_owned_directory_succeeds() {
    let p = DirProbe::Directory { marked: true };
    assert_eq!(create_owned_directory(p).unwrap(), DirAction::Nothing);
    assert_eq!(create_owned_directory(p).unwrap(), DirAction::Nothing);
}

#[test]
fn create_refuses_foreign_directory() {
    let r = create_owned_directory(DirProbe::Directory { marked: false });
    assert!(matches!(r, Err(LauncherError::OwnershipConflict)));
    let r = create_owned_directory(DirProbe::NotADirectory);
    assert!(matches!(r, Err(LauncherError::NotADirectory)));
}

#[test]
fn create_on_absent_path_creates_marked() {
    assert_eq!(create_owned_directory(DirProbe::Absent).unwrap(), DirAction::CreateMarked);
}

#[test]
fn mark_needs_a_directory() {
    assert_eq!(mark_as_owned(DirProbe::Directory { marked: false }).unwrap(), DirAction::WriteMarker);
    assert!(matches!(mark_as_owned(DirProbe::Absent), Err(LauncherError::NotADirectory)));
    assert!(matches!(mark_as_owned(DirProbe::NotADirectory), Err(LauncherError::NotADirectory)));
}
