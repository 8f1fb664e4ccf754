//! Names derived from paths: the temporary name of a download, and where a
//! model file is looked for among backup directories.
use vstd::prelude::*;
use crate::release::TEMP_EXTENSION;

verus! {

/// Position of the last '.' in a name, if any.
pub open spec fn last_dot(name: Seq<char>) -> Option<int> {
    if exists|i: int| 0 <= i < name.len() && name[i] == '.' {
        Some(choose|i: int| 0 <= i < name.len() && name[i] == '.'
            && forall|j: int| i < j < name.len() ==> name[j] != '.')
    } else {
        None
    }
}

/// The stem of a file name: the part before its last '.', or the whole
/// name when it has no '.' or its only leading part is empty (".bashrc").
pub open spec fn file_stem(name: Seq<char>) -> Seq<char> {
    match last_dot(name) {
        Some(i) => if i == 0 {
            name
        } else {
            name.take(i)
        },
        None => name,
    }
}

/// The name under which a file is downloaded before it is checked: its
/// stem, a '.', and `TEMP_EXTENSION` (so `config.json` is downloaded as
/// `config.safetensors.tmp`).
pub open spec fn spec_temp_name(name: Seq<char>) -> Seq<char> {
    file_stem(name) + "."@ + TEMP_EXTENSION@
}

/// The temporary name of a download of the file `name`.
pub fn temp_file_name(name: &str) -> (r: String)
    ensures
        r@ == spec_temp_name(name@),
{
    let n = name.unicode_len();
    let mut i: usize = n;
    let mut found: Option<usize> = None;
    while i > 0 && found.is_none()
        invariant
            n == name@.len(),
            i <= n,
            found is None ==> forall|j: int| i <= j < n ==> name@[j] != '.',
            found matches Some(k) ==> k < n && name@[k as int] == '.'
                && forall|j: int| k < j < n ==> name@[j] != '.',
        decreases i,
    {
        i = i - 1;
        if name.get_char(i) == '.' {
            found = Some(i);
        }
    }
    let stem: &str = match found {
        Some(k) => {
            proof {
                let w = choose|w: int| 0 <= w < name@.len() && name@[w] == '.'
                    && forall|j: int| w < j < name@.len() ==> name@[j] != '.';
                assert(name@[k as int] == '.');
                assert(w == k as int) by {
                    if w < k as int {
                        assert(name@[k as int] != '.');
                    } else if w > k as int {
                        assert(name@[w] != '.');
                    }
                }
            }
            if k == 0 {
                name
            } else {
                name.substring_char(0, k)
            }
        },
        None => {
            name
        },
    };
    proof {
        if found is None {
            assert(!(exists|j: int| 0 <= j < name@.len() && name@[j] == '.'));
        }
        if let Some(k) = found {
            if k != 0 {
                assert(stem@ =~= name@.take(k as int));
            }
        }
    }
    let mut r = String::new();
    r.append(stem);
    r.append(".");
    r.append(TEMP_EXTENSION);
    r
}

/// One component of a path, as `std::path::Path::components` yields it.
pub enum PathPart {
    /// A root directory or a drive prefix, with its text.
    Root(String),
    /// `.`
    CurDir,
    /// `..`
    ParentDir,
    /// A plain name.
    Normal(String),
}

/// The parent of a path: every component but the last, when the last is a
/// name, `.` or `..`; none when the path is empty or ends in a root.
pub open spec fn spec_parent(p: Seq<PathPart>) -> Option<Seq<PathPart>> {
    if p.len() == 0 {
        None
    } else {
        match p.last() {
            PathPart::Root(_) => None,
            _ => Some(p.drop_last()),
        }
    }
}

/// The file name of a path: its last component, when that is a plain name.
pub open spec fn spec_file_name(p: Seq<PathPart>) -> Option<Seq<char>> {
    if p.len() == 0 {
        None
    } else {
        match p.last() {
            PathPart::Normal(s) => Some(s@),
            _ => None,
        }
    }
}

/// Where a model file is looked for among backups: backup directories are
/// looked for in `scan_dir`, and the candidate inside a backup directory
/// is `subdir/file`.
pub struct BackupPlan {
    pub scan_dir: Vec<PathPart>,
    pub subdir: String,
    pub file: String,
}

/// The directory holding the file (`.` when the path has no parent).
pub open spec fn spec_holding_dir(p: Seq<PathPart>) -> Seq<PathPart> {
    match spec_parent(p) {
        Some(q) => q,
        None => seq![PathPart::CurDir],
    }
}

/// For a model file at `path`: backups are sought next to the directory
/// that holds the file (in its parent, or in that directory itself when it
/// has no parent), and within a backup under the holding directory's name
/// and the file's name (empty when either has none).
pub open spec fn spec_backup_plan(path: Seq<PathPart>) -> (Seq<PathPart>, Seq<char>, Seq<char>) {
    let dir = spec_holding_dir(path);
    (
        match spec_parent(dir) {
            Some(q) => q,
            None => dir,
        },
        match spec_file_name(dir) {
            Some(s) => s,
            None => Seq::empty(),
        },
        match spec_file_name(path) {
            Some(s) => s,
            None => Seq::empty(),
        },
    )
}

fn copy_part(p: &PathPart) -> (r: PathPart)
    ensures
        r == *p,
{
    match p {
        PathPart::Root(s) => PathPart::Root(s.clone()),
        PathPart::CurDir => PathPart::CurDir,
        PathPart::ParentDir => PathPart::ParentDir,
        PathPart::Normal(s) => PathPart::Normal(s.clone()),
    }
}

/// The first `k` components.
fn prefix(p: &Vec<PathPart>, k: usize) -> (r: Vec<PathPart>)
    requires
        k <= p@.len(),
    ensures
        r@ == p@.take(k as int),
{
    let mut r: Vec<PathPart> = Vec::new();
    let mut i: usize = 0;
    while i < k
        invariant
            i <= k,
            k <= p@.len(),
            r@ == p@.take(i as int),
        decreases k - i,
    {
        r.push(copy_part(&p[i]));
        assert(p@.take(i + 1) =~= p@.take(i as int).push(p@[i as int]));
        i = i + 1;
    }
    r
}

/// Length of the parent of the first `n` components, if it has one.
fn parent_len(p: &Vec<PathPart>, n: usize) -> (r: Option<usize>)
    requires
        n <= p@.len(),
    ensures
        match spec_parent(p@.take(n as int)) {
            Some(q) => r == Some((n - 1) as usize) && q == p@.take(n - 1),
            None => r is None,
        },
{
    if n == 0 {
        None
    } else {
        assert(p@.take(n as int).last() == p@[n - 1]);
        assert(p@.take(n as int).drop_last() =~= p@.take(n - 1));
        match &p[n - 1] {
            PathPart::Root(_) => None,
            _ => Some(n - 1),
        }
    }
}

/// The name of the last of the first `n` components, or empty.
fn name_of(p: &Vec<PathPart>, n: usize) -> (r: String)
    requires
        n <= p@.len(),
    ensures
        r@ == match spec_file_name(p@.take(n as int)) {
            Some(s) => s,
            None => Seq::<char>::empty(),
        },
{
    if n == 0 {
        String::new()
    } else {
        assert(p@.take(n as int).last() == p@[n - 1]);
        match &p[n - 1] {
            PathPart::Normal(s) => s.clone(),
            _ => String::new(),
        }
    }
}

/// Where a model file at `path` is looked for among backup directories.
pub fn backup_plan(path: &Vec<PathPart>) -> (r: BackupPlan)
    ensures
        (r.scan_dir@, r.subdir@, r.file@) == spec_backup_plan(path@),
{
    let n = path.len();
    assert(path@.take(n as int) =~= path@);
    let file = name_of(path, n);
    match parent_len(path, n) {
        Some(d) => {
            let subdir = name_of(path, d);
            let scan_dir = match parent_len(path, d) {
                Some(g) => prefix(path, g),
                None => prefix(path, d),
            };
            BackupPlan { scan_dir, subdir, file }
        },
        None => {
            let scan_dir: Vec<PathPart> = Vec::new();
            assert(spec_parent(seq![PathPart::CurDir]) == Some(Seq::<PathPart>::empty()));
            assert(scan_dir@ =~= Seq::<PathPart>::empty());
            BackupPlan { scan_dir, subdir: String::new(), file }
        },
    }
}

/// For a path whose last two components are not roots (a file in a named
/// directory, possibly after a root): backups are sought in the path
/// without those two components, under the directory's name, for the
/// file's name.
pub proof fn lemma_backup_plan_of_nested_file(path: Seq<PathPart>)
    requires
        path.len() >= 2,
        !(path[path.len() - 1] is Root),
        !(path[path.len() - 2] is Root),
    ensures
        spec_backup_plan(path).0 == path.take(path.len() - 2),
        path[path.len() - 2] matches PathPart::Normal(d) ==> spec_backup_plan(path).1 == d@,
        !(path[path.len() - 2] is Normal) ==> spec_backup_plan(path).1 == Seq::<char>::empty(),
        path[path.len() - 1] matches PathPart::Normal(n) ==> spec_backup_plan(path).2 == n@,
        !(path[path.len() - 1] is Normal) ==> spec_backup_plan(path).2 == Seq::<char>::empty(),
{
    let dir = path.drop_last();
    assert(spec_parent(path) == Some(dir));
    assert(dir.last() == path[path.len() - 2]);
    assert(dir.drop_last() =~= path.take(path.len() - 2));
}

/// A file directly under a root (`/w`): backups are sought in the root.
pub proof fn lemma_backup_plan_under_root(path: Seq<PathPart>)
    requires
        path.len() >= 2,
        !(path[path.len() - 1] is Root),
        path[path.len() - 2] is Root,
    ensures
        spec_backup_plan(path).0 == path.take(path.len() - 1),
        spec_backup_plan(path).1 == Seq::<char>::empty(),
{
    let dir = path.drop_last();
    assert(dir.last() == path[path.len() - 2]);
    assert(dir =~= path.take(path.len() - 1));
}

} // verus!
