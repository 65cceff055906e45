//! The installed-version registry: component identifier to version string.
use vstd::prelude::*;

verus! {

/// Identifier under which the launcher records its own version.
pub const LAUNCHER_ID: &'static str = "launcher";

/// The map that a sequence of pairs denotes; a later pair wins.
pub open spec fn map_of(s: Seq<(Seq<char>, Seq<char>)>) -> Map<Seq<char>, Seq<char>>
    decreases s.len(),
{
    if s.len() == 0 {
        Map::empty()
    } else {
        map_of(s.drop_last()).insert(s.last().0, s.last().1)
    }
}

/// No identifier occurs twice.
pub open spec fn keys_unique(s: Seq<(Seq<char>, Seq<char>)>) -> bool {
    forall|i: int, j: int| 0 <= i < j < s.len() ==> #[trigger] s[i].0 != #[trigger] s[j].0
}

proof fn lemma_map_of_at(s: Seq<(Seq<char>, Seq<char>)>, i: int)
    requires
        keys_unique(s),
        0 <= i < s.len(),
    ensures
        map_of(s).contains_key(s[i].0),
        map_of(s)[s[i].0] == s[i].1,
    decreases s.len(),
{
    if i < s.len() - 1 {
        let t = s.drop_last();
        assert(keys_unique(t));
        lemma_map_of_at(t, i);
        assert(s[i].0 != s[s.len() - 1].0);
    }
}

proof fn lemma_map_of_absent(s: Seq<(Seq<char>, Seq<char>)>, k: Seq<char>)
    requires
        forall|i: int| 0 <= i < s.len() ==> (#[trigger] s[i]).0 != k,
    ensures
        !map_of(s).contains_key(k),
    decreases s.len(),
{
    if s.len() > 0 {
        let t = s.drop_last();
        assert forall|i: int| 0 <= i < t.len() implies (#[trigger] t[i]).0 != k by {
            assert(t[i] == s[i]);
        }
        lemma_map_of_absent(t, k);
    }
}

proof fn lemma_map_of_update(s: Seq<(Seq<char>, Seq<char>)>, i: int, v: Seq<char>)
    requires
        keys_unique(s),
        0 <= i < s.len(),
    ensures
        map_of(s.update(i, (s[i].0, v))) == map_of(s).insert(s[i].0, v),
        keys_unique(s.update(i, (s[i].0, v))),
    decreases s.len(),
{
    let u = s.update(i, (s[i].0, v));
    assert(keys_unique(u)) by {
        assert forall|a: int, b: int| 0 <= a < b < u.len() implies #[trigger] u[a].0 != #[trigger] u[b].0 by {
            assert(u[a].0 == s[a].0);
            assert(u[b].0 == s[b].0);
        }
    }
    if i == s.len() - 1 {
        assert(u.drop_last() =~= s.drop_last());
        assert(map_of(u) =~= map_of(s).insert(s[i].0, v));
    } else {
        let t = s.drop_last();
        assert(keys_unique(t));
        lemma_map_of_update(t, i, v);
        assert(u.drop_last() =~= t.update(i, (t[i].0, v)));
        assert(s[i].0 != s.last().0);
        assert(map_of(u) =~= map_of(s).insert(s[i].0, v));
    }
}

/// The pairs of a vector as text.
pub open spec fn text_pairs(v: Seq<(String, String)>) -> Seq<(Seq<char>, Seq<char>)> {
    v.map_values(|e: (String, String)| (e.0@, e.1@))
}

/// The installed version of each component.
pub struct VersionRecord {
    entries: Vec<(String, String)>,
}

impl VersionRecord {
    /// The pairs as text.
    pub closed spec fn pairs(&self) -> Seq<(Seq<char>, Seq<char>)> {
        text_pairs(self.entries@)
    }

    #[verifier::type_invariant]
    closed spec fn wf(&self) -> bool {
        keys_unique(self.pairs())
    }

    /// The record as a map from component identifier to version.
    pub open spec fn view(&self) -> Map<Seq<char>, Seq<char>> {
        map_of(self.pairs())
    }

    /// An empty record.
    pub fn new() -> (r: VersionRecord)
        ensures
            r.view() == Map::<Seq<char>, Seq<char>>::empty(),
    {
        assert(text_pairs(Seq::<(String, String)>::empty()) =~= Seq::<(Seq<char>, Seq<char>)>::empty());
        VersionRecord { entries: Vec::new() }
    }

    /// The record a first run starts from: only the launcher's own version.
    pub fn first_run(launcher_version: &str) -> (r: VersionRecord)
        ensures
            r.view() == Map::<Seq<char>, Seq<char>>::empty().insert(LAUNCHER_ID@, launcher_version@),
    {
        let mut r = VersionRecord::new();
        r.set(String::from_str(LAUNCHER_ID), String::from_str(launcher_version));
        r
    }

    fn find_in(entries: &Vec<(String, String)>, component_id: &String) -> (r: Option<usize>)
        ensures
            r matches Some(i) ==> i < entries@.len() && text_pairs(entries@)[i as int].0 == component_id@,
            r is None ==> forall|i: int|
                0 <= i < entries@.len() ==> (#[trigger] text_pairs(entries@)[i]).0 != component_id@,
    {
        let mut i: usize = 0;
        while i < entries.len()
            invariant
                i <= entries@.len(),
                forall|k: int| 0 <= k < i ==> (#[trigger] text_pairs(entries@)[k]).0 != component_id@,
            decreases entries@.len() - i,
        {
            if entries[i].0 == *component_id {
                return Some(i);
            }
            i = i + 1;
        }
        None
    }

    /// The version recorded for a component.
    pub fn get(&self, component_id: &String) -> (r: Option<&String>)
        ensures
            r is Some == self.view().contains_key(component_id@),
            r matches Some(v) ==> v@ == self.view()[component_id@],
    {
        proof {
            use_type_invariant(self);
        }
        match Self::find_in(&self.entries, component_id) {
            Some(i) => {
                proof {
                    lemma_map_of_at(self.pairs(), i as int);
                }
                Some(&self.entries[i].1)
            },
            None => {
                proof {
                    lemma_map_of_absent(self.pairs(), component_id@);
                }
                None
            },
        }
    }

    /// Records a version for a component, known or not.
    pub fn set(&mut self, component_id: String, version: String)
        ensures
            final(self).view() == old(self).view().insert(component_id@, version@),
    {
        proof {
            use_type_invariant(&*self);
        }
        let mut entries: Vec<(String, String)> = Vec::new();
        std::mem::swap(&mut entries, &mut self.entries);
        let ghost before = text_pairs(entries@);
        assert(before == old(self).pairs());
        match Self::find_in(&entries, &component_id) {
            Some(i) => {
                let key = entries[i].0.clone();
                entries.set(i, (key, version));
                proof {
                    lemma_map_of_update(before, i as int, version@);
                    assert(text_pairs(entries@) =~= before.update(i as int, (before[i as int].0, version@)));
                }
            },
            None => {
                entries.push((component_id, version));
                proof {
                    let now = text_pairs(entries@);
                    assert(now =~= before.push((component_id@, version@)));
                    assert(now.drop_last() =~= before);
                    assert forall|a: int, b: int| 0 <= a < b < now.len() implies #[trigger] now[a].0
                        != #[trigger] now[b].0 by {
                        if b == before.len() {
                            assert(before[a] == now[a]);
                        } else {
                            assert(before[a] == now[a]);
                            assert(before[b] == now[b]);
                        }
                    }
                }
            },
        }
        self.entries = entries;
    }

    /// Number of recorded components.
    pub fn len(&self) -> (r: usize)
        ensures
            r == self.pairs().len(),
    {
        self.entries.len()
    }

    /// The identifier and version at position `i`, for writing the record out.
    pub fn entry(&self, i: usize) -> (r: (&String, &String))
        requires
            i < self.pairs().len(),
        ensures
            r.0@ == self.pairs()[i as int].0,
            r.1@ == self.pairs()[i as int].1,
    {
        (&self.entries[i].0, &self.entries[i].1)
    }
}

/// The record as stored, or the first-run record when none is stored; the
/// flag says whether the result has to be persisted.
pub fn get_local_versions(stored: Option<VersionRecord>, launcher_version: &str) -> (r: (
    VersionRecord,
    bool,
))
    ensures
        stored matches Some(s) ==> r.0.view() == s.view() && !r.1,
        stored is None ==> r.0.view() == Map::<Seq<char>, Seq<char>>::empty().insert(
            LAUNCHER_ID@,
            launcher_version@,
        ) && r.1,
{
    match stored {
        Some(s) => (s, false),
        None => (VersionRecord::first_run(launcher_version), true),
    }
}

/// The record after setting one component's version, starting from the
/// stored record or, on a first run, from the first-run record.
pub fn update_local_version(
    stored: Option<VersionRecord>,
    launcher_version: &str,
    component_id: String,
    new_version: String,
) -> (r: VersionRecord)
    ensures
        stored matches Some(s) ==> r.view() == s.view().insert(component_id@, new_version@),
        stored is None ==> r.view() == Map::<Seq<char>, Seq<char>>::empty().insert(
            LAUNCHER_ID@,
            launcher_version@,
        ).insert(component_id@, new_version@),
{
    let (mut versions, _) = get_local_versions(stored, launcher_version);
    versions.set(component_id, new_version);
    versions
}

} // verus!
