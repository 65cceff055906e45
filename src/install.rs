//! Transactional installation of an archive into an owned directory.
//!
//! The caller clears the target with `safe_remove_owned_directory`, creates
//! it with `create_owned_directory`, writes each entry where `plan_entry`
//! says, and on the first failure removes the target again and reports what
//! `install_outcome` returns.
use vstd::prelude::*;
use crate::error::LauncherError;
use crate::ownership::{create_plan, probe_after, remove_plan, DirAction, DirProbe};
use crate::paths::{
    is_rooted, is_sep, join_path, join_path_str, names_dir, resolved, rooted, AppState,
};
use crate::text::chars_of;

verus! {

/// The resolved paths of one installation.
pub struct InstallPaths {
    pub archive: String,
    pub target: String,
}

/// Where an archive entry goes, and whether it is a directory.
pub struct EntryPlan {
    pub path: String,
    pub is_dir: bool,
}

/// `s` cut at every path separator, `/` or `\\`; `k` separators give
/// `k + 1` components.
pub open spec fn split_path(s: Seq<char>) -> Seq<Seq<char>>
    decreases s.len(),
{
    if s.len() == 0 {
        seq![Seq::empty()]
    } else if is_sep(s.last()) {
        split_path(s.drop_last()).push(Seq::empty())
    } else {
        let r = split_path(s.drop_last());
        r.update(r.len() - 1, r.last().push(s.last()))
    }
}

/// How a component moves the depth below the target: `..` goes up one,
/// `.` and an empty component stay, any other name goes down one.
pub open spec fn depth_change(c: Seq<char>) -> int {
    if c == seq!['.', '.'] {
        -1
    } else if c.len() == 0 || c == seq!['.'] {
        0
    } else {
        1
    }
}

/// Depth below the target after walking the components in order.
pub open spec fn depth_after(comps: Seq<Seq<char>>) -> int
    decreases comps.len(),
{
    if comps.len() == 0 {
        0
    } else {
        depth_after(comps.drop_last()) + depth_change(comps.last())
    }
}

/// Walking the components never climbs above the target.
pub open spec fn never_escapes(comps: Seq<Seq<char>>) -> bool {
    forall|i: int| 0 <= i <= comps.len() ==> depth_after(#[trigger] comps.take(i)) >= 0
}

/// An archive entry name that resolves below the directory it is extracted
/// to: not empty, no NUL, not rooted, and its walk through the components
/// never climbs above the start.  Whether a name such as `c:x` carries a
/// drive prefix depends on the platform; the archive reader's verdict,
/// which `plan_entry` also requires, settles it.
pub open spec fn entry_confined(name: Seq<char>) -> bool {
    &&& name.len() > 0
    &&& forall|i: int| 0 <= i < name.len() ==> #[trigger] name[i] != '\0'
    &&& !is_rooted(name)
    &&& never_escapes(split_path(name))
}

proof fn lemma_take_push(done: Seq<Seq<char>>, c: Seq<char>)
    ensures
        depth_after(done.push(c)) == depth_after(done) + depth_change(c),
        never_escapes(done.push(c)) <==> never_escapes(done) && depth_after(done) + depth_change(c) >= 0,
{
    let full = done.push(c);
    assert(full.take(full.len() as int) =~= full);
    assert(full.drop_last() =~= done);
    assert(done.take(done.len() as int) =~= done);
    assert forall|i: int| 0 <= i <= done.len() implies #[trigger] full.take(i) == done.take(i) by {
        assert(full.take(i) =~= done.take(i));
    }
    if never_escapes(full) {
        assert forall|i: int| 0 <= i <= done.len() implies depth_after(#[trigger] done.take(i)) >= 0 by {
            assert(full.take(i) == done.take(i));
        }
    }
    if never_escapes(done) && depth_after(done) + depth_change(c) >= 0 {
        assert forall|i: int| 0 <= i <= full.len() implies depth_after(#[trigger] full.take(i)) >= 0 by {
            if i <= done.len() {
                assert(full.take(i) == done.take(i));
            }
        }
    }
}

/// How the component `c` moves the depth: -1, 0 or 1 as `depth_change` says.
fn component_change(c: &Vec<char>) -> (r: i8)
    ensures
        r as int == depth_change(c@),
{
    if c.len() == 2 && c[0] == '.' && c[1] == '.' {
        assert(c@ =~= seq!['.', '.']);
        -1
    } else if c.len() == 0 || (c.len() == 1 && c[0] == '.') {
        if c.len() == 1 {
            assert(c@ =~= seq!['.']);
        }
        assert(c@ != seq!['.', '.']);
        0
    } else {
        assert(c@ != seq!['.', '.']) by {
            if c.len() == 2 {
                assert(c@[0] != '.' || c@[1] != '.');
            }
        }
        assert(c@ != seq!['.']) by {
            if c.len() == 1 {
                assert(c@[0] != '.');
            }
        }
        1
    }
}

/// Whether walking the components of `name` never climbs above the start.
fn stays_below(name: &Vec<char>) -> (r: bool)
    ensures
        r == never_escapes(split_path(name@)),
{
    let ghost mut done: Seq<Seq<char>> = Seq::empty();
    let mut cur: Vec<char> = Vec::new();
    let mut depth: u64 = 0;
    let mut ok = true;
    let mut i: usize = 0;
    assert(name@.take(0) =~= Seq::<char>::empty());
    assert(done.take(0) =~= done);
    while i < name.len()
        invariant
            i <= name.len(),
            split_path(name@.take(i as int)) == done.push(cur@),
            ok ==> depth as int == depth_after(done) && never_escapes(done),
            !ok ==> !never_escapes(done),
            depth <= i,
        decreases name.len() - i,
    {
        let c = name[i];
        assert(name@.take(i + 1).drop_last() =~= name@.take(i as int));
        if c == '/' || c == '\\' {
            let step = component_change(&cur);
            proof {
                lemma_take_push(done, cur@);
            }
            if ok {
                if step < 0 && depth == 0 {
                    ok = false;
                } else if step < 0 {
                    depth = depth - 1;
                } else if step > 0 {
                    depth = depth + 1;
                }
            }
            proof {
                done = done.push(cur@);
            }
            cur = Vec::new();
            assert(split_path(name@.take(i + 1)) =~= done.push(cur@));
        } else {
            let ghost before = cur@;
            cur.push(c);
            assert(split_path(name@.take(i + 1)) =~= done.push(cur@)) by {
                let r = split_path(name@.take(i as int));
                assert(r == done.push(before));
                assert(r.update(r.len() - 1, r.last().push(c)) =~= done.push(cur@));
            }
        }
        i = i + 1;
    }
    assert(name@.take(name.len() as int) =~= name@);
    let step = component_change(&cur);
    proof {
        lemma_take_push(done, cur@);
    }
    ok && !(step < 0 && depth == 0)
}

/// Resolves the archive and target of an installation, refusing traversal
/// and the managed root as a target.
pub fn plan_install(state: &AppState, zip_relative_path: &str, target_relative_dir: &str) -> (r:
    Result<InstallPaths, LauncherError>)
    ensures
        resolved(state.app_dir@, zip_relative_path@) is None ==> (r matches Err(
            LauncherError::PathSecurity { path },
        ) && path@ == zip_relative_path@),
        resolved(state.app_dir@, zip_relative_path@) is Some && resolved(
            state.app_dir@,
            target_relative_dir@,
        ) is None ==> (r matches Err(LauncherError::PathSecurity { path }) && path@
            == target_relative_dir@),
        match (resolved(state.app_dir@, zip_relative_path@), resolved(state.app_dir@, target_relative_dir@)) {
            (Some(a), Some(t)) => if names_dir(state.app_dir@, t) {
                r == Err::<InstallPaths, LauncherError>(LauncherError::RootTarget)
            } else {
                r matches Ok(p) && p.archive@ == a && p.target@ == t
            },
            _ => true,
        },
{
    let archive = match state.resolve_safe_path(zip_relative_path) {
        Ok(p) => p,
        Err(e) => return Err(e),
    };
    let target = match state.resolve_safe_path(target_relative_dir) {
        Ok(p) => p,
        Err(e) => return Err(e),
    };
    if state.is_root(target.as_str()) {
        return Err(LauncherError::RootTarget);
    }
    Ok(InstallPaths { archive, target })
}

/// Where an archive entry is written under `target_dir`, or the refusal of
/// an entry that would escape it.  `enclosed` is the archive reader's own
/// verdict on the name (zip's `enclosed_name`); an entry is written only
/// when that verdict and the rule above both accept it.
pub fn plan_entry(target_dir: &str, entry_name: &str, enclosed: bool) -> (r: Result<
    EntryPlan,
    LauncherError,
>)
    ensures
        enclosed && entry_confined(entry_name@) ==> (r matches Ok(e) && e.path@ == join_path(
            target_dir@,
            entry_name@,
        ) && e.is_dir == (entry_name@.last() == '/')),
        !(enclosed && entry_confined(entry_name@)) ==> (r matches Err(
            LauncherError::PathSecurity { path },
        ) && path@ == entry_name@),
{
    let name = chars_of(entry_name);
    let refused = Err(LauncherError::PathSecurity { path: String::from_str(entry_name) });
    if !enclosed || name.len() == 0 || rooted(&name) {
        return refused;
    }
    let mut i: usize = 0;
    while i < name.len()
        invariant
            name@ == entry_name@,
            i <= name.len(),
            refused matches Err(LauncherError::PathSecurity { path }) && path@ == entry_name@,
            forall|k: int| 0 <= k < i ==> #[trigger] name@[k] != '\0',
        decreases name.len() - i,
    {
        if name[i] == '\0' {
            return refused;
        }
        i = i + 1;
    }
    if !stays_below(&name) {
        return refused;
    }
    let is_dir = name[name.len() - 1] == '/';
    Ok(EntryPlan { path: join_path_str(target_dir, entry_name), is_dir })
}

/// The result of an installation: success when extraction succeeded; the
/// rollback's failure, carrying the extraction error too, when the cleanup
/// failed; otherwise the extraction error.
pub fn install_outcome(
    extraction: Result<(), LauncherError>,
    rollback: Result<(), LauncherError>,
) -> (r: Result<(), LauncherError>)
    ensures
        extraction is Ok ==> r is Ok,
        extraction is Err && rollback is Err ==> r == Err::<(), LauncherError>(
            LauncherError::RollbackFailed {
                cause: Box::new(extraction->Err_0),
                rollback: Box::new(rollback->Err_0),
            },
        ),
        extraction is Err && rollback is Ok ==> r == extraction,
{
    match extraction {
        Ok(()) => Ok(()),
        Err(cause) => match rollback {
            Ok(()) => Err(cause),
            Err(e) => Err(LauncherError::RollbackFailed { cause: Box::new(cause), rollback: Box::new(e) }),
        },
    }
}

/// Steps of an installation, in the order they are taken.
#[derive(Clone, Copy, Debug, PartialEq, Eq, Structural)]
pub enum InstallStep {
    /// Remove an earlier owned installation; nothing else is touched.
    ClearTarget,
    /// Create the target and mark it owned.
    CreateTarget,
    /// Write every entry of the archive.
    Extract,
    /// Remove the partly written target again.
    RollBack,
    /// The installation is complete.
    Done,
    /// The installation failed.
    Failed,
}

/// The step after `s`, given whether `s` succeeded.  A failure while
/// extracting leads to the rollback; any other failure ends the run.
pub open spec fn install_step_after(s: InstallStep, ok: bool) -> InstallStep {
    match s {
        InstallStep::ClearTarget => if ok {
            InstallStep::CreateTarget
        } else {
            InstallStep::Failed
        },
        InstallStep::CreateTarget => if ok {
            InstallStep::Extract
        } else {
            InstallStep::Failed
        },
        InstallStep::Extract => if ok {
            InstallStep::Done
        } else {
            InstallStep::RollBack
        },
        InstallStep::RollBack => InstallStep::Failed,
        InstallStep::Done => InstallStep::Done,
        InstallStep::Failed => InstallStep::Failed,
    }
}

/// The step after `step`, given whether it succeeded.
pub fn next_install_step(step: InstallStep, ok: bool) -> (r: InstallStep)
    ensures
        r == install_step_after(step, ok),
{
    match step {
        InstallStep::ClearTarget => if ok {
            InstallStep::CreateTarget
        } else {
            InstallStep::Failed
        },
        InstallStep::CreateTarget => if ok {
            InstallStep::Extract
        } else {
            InstallStep::Failed
        },
        InstallStep::Extract => if ok {
            InstallStep::Done
        } else {
            InstallStep::RollBack
        },
        InstallStep::RollBack => InstallStep::Failed,
        InstallStep::Done => InstallStep::Done,
        InstallStep::Failed => InstallStep::Failed,
    }
}

/// The target is removed again only after extraction into it failed, and
/// extraction starts only in a target that was created and marked.
pub proof fn rollback_follows_failed_extraction(s: InstallStep, ok: bool)
    ensures
        install_step_after(s, ok) == InstallStep::RollBack ==> s == InstallStep::Extract && !ok,
        install_step_after(s, ok) == InstallStep::Extract ==> s == InstallStep::CreateTarget && ok,
        install_step_after(s, ok) == InstallStep::Done ==> s == InstallStep::Extract && ok || s
            == InstallStep::Done,
{
}

/// The directory after clearing and creating the target of an installation.
pub open spec fn prepared(p: DirProbe) -> DirProbe {
    let cleared = probe_after(p, remove_plan(p)->Ok_0);
    probe_after(cleared, create_plan(cleared)->Ok_0)
}

/// Preparing the target succeeds on an absent or owned directory.
pub open spec fn prepare_succeeds(p: DirProbe) -> bool {
    remove_plan(p) is Ok && create_plan(probe_after(p, remove_plan(p)->Ok_0)) is Ok
}

/// An installation interrupted after any number of written entries leaves
/// no directory once rolled back, and a fresh installation from there
/// prepares its target again.  Writing entries leaves the marker in place,
/// so what the rollback finds is the prepared, owned directory.
pub proof fn interrupted_install_rolls_back(p: DirProbe)
    requires
        prepare_succeeds(p),
    ensures
        prepared(p) == (DirProbe::Directory { marked: true }),
        remove_plan(prepared(p)) == Ok::<DirAction, LauncherError>(DirAction::RemoveAll),
        probe_after(prepared(p), remove_plan(prepared(p))->Ok_0) == DirProbe::Absent,
        prepare_succeeds(DirProbe::Absent),
        prepared(DirProbe::Absent) == (DirProbe::Directory { marked: true }),
{
}

/// Preparing the target succeeds exactly when nothing foreign stands there.
pub proof fn prepare_refuses_foreign(p: DirProbe)
    ensures
        prepare_succeeds(p) <==> (p == DirProbe::Absent || p == (DirProbe::Directory {
            marked: true,
        })),
        p == (DirProbe::Directory { marked: false }) ==> create_plan(
            probe_after(p, remove_plan(p)->Ok_0),
        ) == Err::<DirAction, LauncherError>(LauncherError::OwnershipConflict),
{
}

} // verus!
