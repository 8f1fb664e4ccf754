//! The manifest of model files: for each file name, the size in bytes and
//! the SHA-256 (lower-case hex) that a downloaded copy must have.
use vstd::prelude::*;
use crate::text::str_eq;

verus! {

/// What the manifest records of one file.
pub struct ManifestFile {
    pub size: u64,
    pub sha256: String,
}

impl ManifestFile {
    /// The record as plain values: size and hex digest.
    pub open spec fn spec_record(&self) -> (u64, Seq<char>) {
        (self.size, self.sha256@)
    }
}

/// One named entry of the manifest.
pub struct ManifestEntry {
    pub name: String,
    pub file: ManifestFile,
}

/// A map from file names to their records; no name occurs twice.
pub struct Manifest {
    entries: Vec<ManifestEntry>,
}

impl View for Manifest {
    type V = Map<Seq<char>, (u64, Seq<char>)>;

    closed spec fn view(&self) -> Map<Seq<char>, (u64, Seq<char>)> {
        Map::new(
            |k: Seq<char>| exists|i: int| 0 <= i < self.entries@.len() && #[trigger] self.entries@[i].name@ == k,
            |k: Seq<char>|
                {
                    let i = choose|i: int| 0 <= i < self.entries@.len() && #[trigger] self.entries@[i].name@ == k;
                    self.entries@[i].file.spec_record()
                },
        )
    }
}

impl Manifest {
    /// No two entries share a name.
    pub closed spec fn wf(&self) -> bool {
        forall|i: int, j: int|
            0 <= i < self.entries@.len() && 0 <= j < self.entries@.len() && i != j
                ==> #[trigger] self.entries@[i].name@ != #[trigger] self.entries@[j].name@
    }

    proof fn lemma_view_at(&self, i: int)
        requires
            self.wf(),
            0 <= i < self.entries@.len(),
        ensures
            self@.contains_key(self.entries@[i].name@),
            self@[self.entries@[i].name@] == self.entries@[i].file.spec_record(),
    {
        let k = self.entries@[i].name@;
        assert(self.entries@[i].name@ == k);
        let j = choose|j: int| 0 <= j < self.entries@.len() && #[trigger] self.entries@[j].name@ == k;
        assert(j == i);
    }

    /// The empty manifest.
    pub fn new() -> (m: Self)
        ensures
            m.wf(),
            m@ == Map::<Seq<char>, (u64, Seq<char>)>::empty(),
    {
        let m = Manifest { entries: Vec::new() };
        assert(m@ =~= Map::<Seq<char>, (u64, Seq<char>)>::empty());
        m
    }

    /// Position of the entry named `name`, if there is one.
    fn find(&self, name: &str) -> (r: Option<usize>)
        requires
            self.wf(),
        ensures
            match r {
                Some(i) => i < self.entries@.len() && self.entries@[i as int].name@ == name@,
                None => forall|j: int| 0 <= j < self.entries@.len() ==> self.entries@[j].name@ != name@,
            },
    {
        let mut i: usize = 0;
        while i < self.entries.len()
            invariant
                i <= self.entries@.len(),
                forall|j: int| 0 <= j < i ==> self.entries@[j].name@ != name@,
            decreases self.entries@.len() - i,
        {
            if str_eq(self.entries[i].name.as_str(), name) {
                return Some(i);
            }
            i = i + 1;
        }
        None
    }

    /// The record of `name`, if the manifest has one.
    pub fn get(&self, name: &str) -> (r: Option<&ManifestFile>)
        requires
            self.wf(),
        ensures
            match r {
                Some(f) => self@.contains_key(name@) && self@[name@] == f.spec_record(),
                None => !self@.contains_key(name@),
            },
    {
        match self.find(name) {
            Some(i) => {
                proof {
                    self.lemma_view_at(i as int);
                }
                Some(&self.entries[i].file)
            },
            None => None,
        }
    }

    /// Records `file` under `name`, replacing any record the name had.
    pub fn insert(&mut self, name: String, file: ManifestFile)
        requires
            old(self).wf(),
        ensures
            final(self).wf(),
            final(self)@ == old(self)@.insert(name@, file.spec_record()),
    {
        let ghost key = name@;
        let ghost rec = file.spec_record();
        let ghost before = self.entries@;
        match self.find(name.as_str()) {
            Some(i) => {
                self.entries.set(i, ManifestEntry { name, file });
                assert forall|a: int, b: int|
                    0 <= a < self.entries@.len() && 0 <= b < self.entries@.len() && a != b
                    implies #[trigger] self.entries@[a].name@ != #[trigger] self.entries@[b].name@ by {
                    assert(before[a].name@ != before[b].name@);
                }
                proof {
                    assert forall|k: Seq<char>| #[trigger] self@.contains_key(k)
                        <==> old(self)@.insert(key, rec).contains_key(k) by {
                        if self@.contains_key(k) {
                            let j = choose|j: int| 0 <= j < self.entries@.len() && #[trigger] self.entries@[j].name@ == k;
                            if j != i {
                                assert(before[j].name@ == k);
                            }
                        }
                        if old(self)@.contains_key(k) {
                            let j = choose|j: int| 0 <= j < before.len() && #[trigger] before[j].name@ == k;
                            assert(self.entries@[j].name@ == k);
                        }
                        if k == key {
                            assert(self.entries@[i as int].name@ == k);
                        }
                    }
                    assert forall|k: Seq<char>| #[trigger] self@.contains_key(k)
                        implies self@[k] == old(self)@.insert(key, rec)[k] by {
                        let j = choose|j: int| 0 <= j < self.entries@.len() && #[trigger] self.entries@[j].name@ == k;
                        self.lemma_view_at(j);
                        if j != i {
                            assert(before[j].name@ == k);
                            old(self).lemma_view_at(j);
                        }
                    }
                    assert(self@ =~= old(self)@.insert(key, rec));
                }
            },
            None => {
                self.entries.push(ManifestEntry { name, file });
                let ghost n = before.len() as int;
                assert forall|a: int, b: int|
                    0 <= a < self.entries@.len() && 0 <= b < self.entries@.len() && a != b
                    implies #[trigger] self.entries@[a].name@ != #[trigger] self.entries@[b].name@ by {
                    if a < n && b < n {
                        assert(before[a].name@ != before[b].name@);
                    }
                }
                proof {
                    assert forall|k: Seq<char>| #[trigger] self@.contains_key(k)
                        <==> old(self)@.insert(key, rec).contains_key(k) by {
                        if self@.contains_key(k) {
                            let j = choose|j: int| 0 <= j < self.entries@.len() && #[trigger] self.entries@[j].name@ == k;
                            if j != n {
                                assert(before[j].name@ == k);
                            }
                        }
                        if old(self)@.contains_key(k) {
                            let j = choose|j: int| 0 <= j < before.len() && #[trigger] before[j].name@ == k;
                            assert(self.entries@[j].name@ == k);
                        }
                        if k == key {
                            assert(self.entries@[n].name@ == k);
                        }
                    }
                    assert forall|k: Seq<char>| #[trigger] self@.contains_key(k)
                        implies self@[k] == old(self)@.insert(key, rec)[k] by {
                        let j = choose|j: int| 0 <= j < self.entries@.len() && #[trigger] self.entries@[j].name@ == k;
                        self.lemma_view_at(j);
                        if j != n {
                            assert(before[j].name@ == k);
                            old(self).lemma_view_at(j);
                        }
                    }
                    assert(self@ =~= old(self)@.insert(key, rec));
                }
            },
        }
    }
}

/// Looking a name up right after recording it gives the new record; every
/// other name keeps its record, or its absence.
pub proof fn lemma_get_after_insert(
    m: Map<Seq<char>, (u64, Seq<char>)>,
    name: Seq<char>,
    record: (u64, Seq<char>),
    other: Seq<char>,
)
    ensures
        m.insert(name, record).contains_key(name),
        m.insert(name, record)[name] == record,
        other != name ==> (m.insert(name, record).contains_key(other) == m.contains_key(other)),
        other != name && m.contains_key(other) ==> m.insert(name, record)[other] == m[other],
{
}

} // verus!
