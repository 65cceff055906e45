//! Paths under the managed root.
use vstd::prelude::*;
use crate::error::LauncherError;
use crate::text::{chars_of, contains_chars, contains_seq, push_char};

verus! {

/// A path separator on any supported platform.
pub open spec fn is_sep(c: char) -> bool {
    c == '/' || c == '\\'
}

/// The text holds `..`, the form every traversal attempt takes.
pub open spec fn has_parent_ref(s: Seq<char>) -> bool {
    contains_seq(s, seq!['.', '.'])
}

/// A letter that can name a drive.
pub open spec fn is_drive_letter(c: char) -> bool {
    ('a' <= c && c <= 'z') || ('A' <= c && c <= 'Z')
}

/// The text is rooted: it starts at a separator, or with a drive (`C:`)
/// followed by the end or a separator.  Joined to a base, a rooted text
/// replaces the base.
pub open spec fn is_rooted(s: Seq<char>) -> bool {
    ||| s.len() > 0 && is_sep(s[0])
    ||| s.len() > 1 && is_drive_letter(s[0]) && s[1] == ':' && (s.len() == 2 || is_sep(s[2]))
}

/// `p` is `root` or lies below it: `root` is a prefix of `p` that ends at a
/// component boundary.
pub open spec fn lies_under(root: Seq<char>, p: Seq<char>) -> bool {
    &&& root.is_prefix_of(p)
    &&& (p.len() == root.len() || root.len() == 0 || is_sep(root.last()) || is_sep(
        p[root.len() as int],
    ))
}

/// Where a caller-supplied path resolves under `root`: `None` when it is
/// empty or holds `..`; a rooted text stands for itself and must lie under
/// the root; any other text is joined to the root.
pub open spec fn resolved(root: Seq<char>, rel: Seq<char>) -> Option<Seq<char>> {
    if rel.len() == 0 || has_parent_ref(rel) {
        None
    } else if is_rooted(rel) {
        if lies_under(root, rel) {
            Some(rel)
        } else {
            None
        }
    } else {
        Some(join_path(root, rel))
    }
}

/// `rel` appended to `base`, with one separator between them.
pub open spec fn join_path(base: Seq<char>, rel: Seq<char>) -> Seq<char> {
    if base.len() == 0 {
        rel
    } else if is_sep(base.last()) {
        base + rel
    } else {
        base.push('/') + rel
    }
}

/// What follows the root in a path that still names the root: separators and
/// `.` components only.
pub open spec fn only_current_dir(s: Seq<char>) -> bool {
    &&& forall|i: int| 0 <= i < s.len() ==> is_sep(#[trigger] s[i]) || s[i] == '.'
    &&& !has_parent_ref(s)
}

/// `p` names the directory `root`.
pub open spec fn names_dir(root: Seq<char>, p: Seq<char>) -> bool {
    ||| p == root
    ||| {
        &&& root.len() > 0
        &&& p.len() > root.len()
        &&& root.is_prefix_of(p)
        &&& (is_sep(root.last()) || is_sep(p[root.len() as int]))
        &&& only_current_dir(p.skip(root.len() as int))
    }
}

/// Whether `s` holds `..`.
pub fn contains_parent_ref(s: &Vec<char>) -> (r: bool)
    ensures
        r == has_parent_ref(s@),
{
    let dots: Vec<char> = vec!['.', '.'];
    assert(dots@ =~= seq!['.', '.']);
    contains_chars(s, &dots)
}

/// Whether `s` is rooted.
pub fn rooted(s: &Vec<char>) -> (r: bool)
    ensures
        r == is_rooted(s@),
{
    (s.len() > 0 && (s[0] == '/' || s[0] == '\\')) || (s.len() > 1 && (('a' <= s[0] && s[0] <= 'z')
        || ('A' <= s[0] && s[0] <= 'Z')) && s[1] == ':' && (s.len() == 2 || s[2] == '/' || s[2]
        == '\\'))
}

/// Whether `p` is `root` or lies below it.
fn lies_under_chars(root: &Vec<char>, p: &Vec<char>) -> (r: bool)
    ensures
        r == lies_under(root@, p@),
{
    if p.len() < root.len() {
        return false;
    }
    let mut i: usize = 0;
    while i < root.len()
        invariant
            root.len() <= p.len(),
            i <= root.len(),
            forall|k: int| 0 <= k < i ==> p@[k] == root@[k],
        decreases root.len() - i,
    {
        if p[i] != root[i] {
            assert(!root@.is_prefix_of(p@)) by {
                assert(p@.subrange(0, root.len() as int)[i as int] != root@[i as int]);
            }
            return false;
        }
        i = i + 1;
    }
    assert(root@ =~= p@.subrange(0, root.len() as int));
    p.len() == root.len() || root.len() == 0 || root[root.len() - 1] == '/' || root[root.len() - 1]
        == '\\' || p[root.len()] == '/' || p[root.len()] == '\\'
}

/// `rel` appended to `base` with one separator between them.
pub fn join_path_str(base: &str, rel: &str) -> (r: String)
    ensures
        r@ == join_path(base@, rel@),
{
    let b = chars_of(base);
    let mut out = String::from_str(base);
    if b.len() > 0 && b[b.len() - 1] != '/' && b[b.len() - 1] != '\\' {
        push_char(&mut out, '/');
    }
    out.append(rel);
    out
}

/// The launcher's state that every file operation consults: the managed root.
pub struct AppState {
    pub app_dir: String,
}

impl AppState {
    pub fn new(app_dir: String) -> (r: AppState)
        ensures
            r.app_dir@ == app_dir@,
    {
        AppState { app_dir }
    }

    /// Resolves a caller-supplied path under the root, refusing any that is
    /// empty, holds `..`, or is rooted somewhere outside the root.
    pub fn resolve_safe_path(&self, relative_path: &str) -> (r: Result<String, LauncherError>)
        ensures
            resolved(self.app_dir@, relative_path@) matches Some(p) ==> (r matches Ok(q) && q@ == p),
            resolved(self.app_dir@, relative_path@) is None ==> (r matches Err(
                LauncherError::PathSecurity { path },
            ) && path@ == relative_path@),
    {
        let rel = chars_of(relative_path);
        let refused = Err(LauncherError::PathSecurity { path: String::from_str(relative_path) });
        if rel.len() == 0 || contains_parent_ref(&rel) {
            return refused;
        }
        if rooted(&rel) {
            let root = chars_of(self.app_dir.as_str());
            if lies_under_chars(&root, &rel) {
                Ok(String::from_str(relative_path))
            } else {
                refused
            }
        } else {
            Ok(join_path_str(self.app_dir.as_str(), relative_path))
        }
    }

    /// Whether `path_to_check` names the root itself.
    pub fn is_root(&self, path_to_check: &str) -> (r: bool)
        ensures
            r == names_dir(self.app_dir@, path_to_check@),
    {
        let root = chars_of(self.app_dir.as_str());
        let p = chars_of(path_to_check);
        if p.len() < root.len() {
            return false;
        }
        let mut i: usize = 0;
        while i < root.len()
            invariant
                root@ == self.app_dir@,
                p@ == path_to_check@,
                root.len() <= p.len(),
                i <= root.len(),
                forall|k: int| 0 <= k < i ==> p@[k] == root@[k],
            decreases root.len() - i,
        {
            if p[i] != root[i] {
                assert(p@ != root@ && !root@.is_prefix_of(p@)) by {
                    assert(p@.subrange(0, root.len() as int)[i as int] != root@[i as int]);
                }
                return false;
            }
            i = i + 1;
        }
        assert(root@.is_prefix_of(p@)) by {
            assert(root@ =~= p@.subrange(0, root.len() as int));
        }
        if p.len() == root.len() {
            assert(p@ =~= root@);
            return true;
        }
        if root.len() == 0 {
            assert(p@ != root@);
            return false;
        }
        let root_ends_sep = root[root.len() - 1] == '/' || root[root.len() - 1] == '\\';
        let next_is_sep = p[root.len()] == '/' || p[root.len()] == '\\';
        if !root_ends_sep && !next_is_sep {
            return false;
        }
        let ghost rest = p@.skip(root.len() as int);
        let mut j: usize = root.len();
        let mut prev_dot = false;
        while j < p.len()
            invariant
                root@ == self.app_dir@,
                p@ == path_to_check@,
                root.len() > 0,
                p.len() > root.len(),
                root@.is_prefix_of(p@),
                is_sep(root@.last()) || is_sep(p@[root.len() as int]),
                root.len() <= j <= p.len(),
                rest == p@.skip(root.len() as int),
                forall|k: int| 0 <= k < j - root.len() ==> is_sep(#[trigger] rest[k]) || rest[k] == '.',
                forall|k: int| 0 <= k && k + 1 < j - root.len() ==> !(#[trigger] rest[k] == '.' && rest[k + 1] == '.'),
                prev_dot == (j > root.len() && rest[j - root.len() - 1] == '.'),
            decreases p.len() - j,
        {
            let c = p[j];
            if c == '.' {
                if prev_dot {
                    proof { occurs_at_dots(rest, j - root.len() - 1); }
                    return false;
                }
                prev_dot = true;
            } else if c == '/' || c == '\\' {
                prev_dot = false;
            } else {
                assert(!(is_sep(rest[j - root.len()]) || rest[j - root.len()] == '.'));
                return false;
            }
            j = j + 1;
        }
        assert(!has_parent_ref(rest)) by {
            if has_parent_ref(rest) {
                let k = choose|k: int| crate::text::occurs_at(rest, seq!['.', '.'], k);
                assert(rest.subrange(k, k + 2)[0] == '.');
                assert(rest.subrange(k, k + 2)[1] == '.');
            }
        }
        true
    }
}

/// `..` starts at position `k` of `s`.
proof fn occurs_at_dots(s: Seq<char>, k: int)
    requires
        0 <= k,
        k + 1 < s.len(),
        s[k] == '.',
        s[k + 1] == '.',
    ensures
        has_parent_ref(s),
{
    assert(s.subrange(k, k + 2) =~= seq!['.', '.']);
    assert(crate::text::occurs_at(s, seq!['.', '.'], k));
}

} // verus!
