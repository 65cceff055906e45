//! Decisions on individual settings: the theme, the proxy, file deletion.
use vstd::prelude::*;
use crate::document::ConfigEntry;
use crate::error::LauncherError;
use crate::paths::{names_dir, resolved, AppState};
use crate::text::{chars_of, trim_chars, trim_ws};

verus! {

/// Section of the theme setting.
pub const THEME_SECTION: &'static str = "Appearance";

/// Key of the theme setting.
pub const THEME_KEY: &'static str = "theme";

/// Theme value that follows the operating system.
pub const THEME_AUTO: &'static str = "auto";

/// The window theme a setting asks for.
#[derive(Clone, Copy, Debug, PartialEq, Eq, Structural)]
pub enum ThemeChoice {
    Light,
    Dark,
    /// Whatever the operating system uses; light when it cannot tell.
    FollowSystem,
}

/// The theme a setting value asks for: `light`, `dark`, and anything else
/// follows the system.
pub fn get_theme_from_string(theme: &str) -> (r: ThemeChoice)
    ensures
        theme@ == "light"@ ==> r == ThemeChoice::Light,
        theme@ == "dark"@ ==> r == ThemeChoice::Dark,
        theme@ != "light"@ && theme@ != "dark"@ ==> r == ThemeChoice::FollowSystem,
{
    proof {
        reveal_strlit("light");
        reveal_strlit("dark");
        assert("light"@.len() != "dark"@.len());
    }
    let t = String::from_str(theme);
    if t == String::from_str("light") {
        ThemeChoice::Light
    } else if t == String::from_str("dark") {
        ThemeChoice::Dark
    } else {
        ThemeChoice::FollowSystem
    }
}

/// Whether setting the theme to `requested` changes anything, given the
/// stored value (absent counts as `auto`).
pub fn theme_change_needed(current: Option<String>, requested: &str) -> (r: bool)
    ensures
        r == (match current {
            Some(c) => c@,
            None => THEME_AUTO@,
        } != requested@),
{
    let c = match current {
        Some(c) => c,
        None => String::from_str(THEME_AUTO),
    };
    !(c == String::from_str(requested))
}

/// The theme among submitted settings: the value of the first entry for the
/// theme's section and key.
pub fn find_theme(entries: &Vec<ConfigEntry>) -> (r: Option<String>)
    ensures
        r is Some == exists|i: int|
            0 <= i < entries@.len() && (#[trigger] entries@[i]).section@ == THEME_SECTION@
                && entries@[i].key@ == THEME_KEY@,
        r matches Some(v) ==> exists|i: int|
            0 <= i < entries@.len() && (#[trigger] entries@[i]).section@ == THEME_SECTION@
                && entries@[i].key@ == THEME_KEY@ && v@ == entries@[i].value@ && forall|j: int|
                0 <= j < i ==> !(entries@[j].section@ == THEME_SECTION@ && entries@[j].key@
                    == THEME_KEY@),
{
    let section = String::from_str(THEME_SECTION);
    let key = String::from_str(THEME_KEY);
    let mut i: usize = 0;
    while i < entries.len()
        invariant
            section@ == THEME_SECTION@,
            key@ == THEME_KEY@,
            i <= entries@.len(),
            forall|j: int|
                0 <= j < i ==> !((#[trigger] entries@[j]).section@ == THEME_SECTION@
                    && entries@[j].key@ == THEME_KEY@),
        decreases entries@.len() - i,
    {
        let e = &entries[i];
        if e.section == section && e.key == key {
            return Some(String::from_str(e.value.as_str()));
        }
        i = i + 1;
    }
    None
}

/// The proxy to configure: the given address unless it is blank.
pub fn effective_proxy(proxy: Option<&str>) -> (r: Option<String>)
    ensures
        proxy is None ==> r is None,
        proxy matches Some(p) ==> (if trim_ws(p@).len() == 0 {
            r is None
        } else {
            r matches Some(q) && q@ == p@
        }),
{
    match proxy {
        None => None,
        Some(p) => {
            let t = trim_chars(&chars_of(p), false);
            if t.len() == 0 {
                None
            } else {
                Some(String::from_str(p))
            }
        },
    }
}

/// What a probe finds at a path that is to be deleted.
#[derive(Clone, Copy, Debug, PartialEq, Eq, Structural)]
pub enum FileProbe {
    Absent,
    File,
    Directory,
}

/// Resolves the path of a file to delete, refusing traversal and the root.
pub fn plan_delete_file(state: &AppState, relative_path: &str) -> (r: Result<String, LauncherError>)
    ensures
        resolved(state.app_dir@, relative_path@) is None ==> (r matches Err(
            LauncherError::PathSecurity { path },
        ) && path@ == relative_path@),
        resolved(state.app_dir@, relative_path@) matches Some(t) ==> if names_dir(state.app_dir@, t) {
            r == Err::<String, LauncherError>(LauncherError::RootTarget)
        } else {
            r matches Ok(p) && p@ == t
        },
{
    let target = match state.resolve_safe_path(relative_path) {
        Ok(p) => p,
        Err(e) => return Err(e),
    };
    if state.is_root(target.as_str()) {
        return Err(LauncherError::RootTarget);
    }
    Ok(target)
}

/// Whether to remove what the probe found: a file is removed, nothing
/// there is already the wanted state, and a directory is refused.
pub fn delete_file(probe: FileProbe) -> (r: Result<bool, LauncherError>)
    ensures
        probe is Absent ==> r == Ok::<bool, LauncherError>(false),
        probe is File ==> r == Ok::<bool, LauncherError>(true),
        probe is Directory ==> r == Err::<bool, LauncherError>(LauncherError::NotAFile),
{
    match probe {
        FileProbe::Absent => Ok(false),
        FileProbe::File => Ok(true),
        FileProbe::Directory => Err(LauncherError::NotAFile),
    }
}

} // verus!
