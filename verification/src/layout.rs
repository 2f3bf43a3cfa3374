//! Directory discovery: where the database lies and where the backend's
//! sources may be found.

use crate::locator::join_path;
use crate::locator::joined;
use crate::locator::Platform;
use crate::text::rows;
use vstd::prelude::*;
use vstd::string::StringSliceAdditionalSpecFns;

verus! {

/// The path of the database: `db.sqlite3` in the application's data
/// directory.
pub open spec fn database_path_of(data_dir: Seq<u8>, platform: Platform) -> Seq<u8> {
    joined(data_dir, "db.sqlite3".spec_bytes(), platform)
}

/// Builds the path of the database.
pub fn database_path(data_dir: &[u8], platform: Platform) -> (r: Vec<u8>)
    ensures
        r@ == database_path_of(data_dir@, platform),
{
    join_path(data_dir, "db.sqlite3".as_bytes(), platform)
}

/// The path of the server's entry script in a backend directory.
pub open spec fn entry_script_path_of(backend_dir: Seq<u8>, platform: Platform) -> Seq<u8> {
    joined(backend_dir, "manage.py".spec_bytes(), platform)
}

/// Builds the path of the server's entry script in a backend directory.
pub fn entry_script_path(backend_dir: &[u8], platform: Platform) -> (r: Vec<u8>)
    ensures
        r@ == entry_script_path_of(backend_dir@, platform),
{
    join_path(backend_dir, "manage.py".as_bytes(), platform)
}

/// How many of the directories above the installation are searched.
pub const ANCESTOR_LEVELS: usize = 3;

/// The directories that the search for the backend's sources starts from.
#[derive(Clone, Debug, PartialEq, Eq)]
pub struct BackendRoots {
    /// The directory the application is installed in.
    pub install_dir: Vec<u8>,
    /// The directories above it, nearest first. Only the nearest three are
    /// searched.
    pub ancestors: Vec<Vec<u8>>,
    /// The directory the application was started from.
    pub current_dir: Option<Vec<u8>>,
    /// The directory above that one.
    pub current_parent: Option<Vec<u8>>,
    /// A backend directory that the user configured.
    pub override_dir: Option<Vec<u8>>,
}

/// The `backend` directory inside `dir`.
pub open spec fn backend_in(dir: Seq<u8>, platform: Platform) -> Seq<u8> {
    joined(dir, "backend".spec_bytes(), platform)
}

/// The `backend` directory reached from `dir` by the relative path `climb`.
pub open spec fn backend_above(dir: Seq<u8>, climb: Seq<u8>, platform: Platform) -> Seq<u8> {
    backend_in(joined(dir, climb, platform), platform)
}

/// The backend directories looked for around the installation: inside it,
/// and two, three and four levels above it, where a build tree keeps its
/// sources.
pub open spec fn install_backend_dirs(install_dir: Seq<u8>, platform: Platform) -> Seq<Seq<u8>> {
    seq![
        backend_in(install_dir, platform),
        backend_above(install_dir, "../..".spec_bytes(), platform),
        backend_above(install_dir, "../../..".spec_bytes(), platform),
        backend_above(install_dir, "../../../..".spec_bytes(), platform),
    ]
}

/// The `backend` directory inside each of the given directories.
pub open spec fn backend_in_each(dirs: Seq<Seq<u8>>, platform: Platform) -> Seq<Seq<u8>> {
    Seq::new(dirs.len(), |i: int| backend_in(dirs[i], platform))
}

/// The `backend` directory inside an optional directory.
pub open spec fn backend_in_optional(dir: Option<Vec<u8>>, platform: Platform) -> Seq<Seq<u8>> {
    match dir {
        Some(d) => seq![backend_in(d@, platform)],
        None => Seq::empty(),
    }
}

/// The directory that the user configured, taken as it is.
pub open spec fn configured_dir(dir: Option<Vec<u8>>) -> Seq<Seq<u8>> {
    match dir {
        Some(d) => seq![d@],
        None => Seq::empty(),
    }
}

/// The nearest of the directories above the installation: the first
/// three, or all where there are fewer.
pub open spec fn nearest_ancestors(ancestors: Seq<Seq<u8>>) -> Seq<Seq<u8>> {
    if ancestors.len() <= ANCESTOR_LEVELS {
        ancestors
    } else {
        ancestors.subrange(0, ANCESTOR_LEVELS as int)
    }
}

/// Every place where the backend's sources are looked for, in priority
/// order: around the installation, in the nearest directories above it,
/// around the current directory, then the configured directory.
pub open spec fn backend_dir_list(roots: BackendRoots, platform: Platform) -> Seq<Seq<u8>> {
    install_backend_dirs(roots.install_dir@, platform) + backend_in_each(
        nearest_ancestors(rows(roots.ancestors@)),
        platform,
    ) + backend_in_optional(roots.current_dir, platform) + backend_in_optional(
        roots.current_parent,
        platform,
    ) + configured_dir(roots.override_dir)
}

/// Appends the `backend` directory inside an optional directory.
fn push_backend_in_optional(list: &mut Vec<Vec<u8>>, dir: &Option<Vec<u8>>, platform: Platform)
    ensures
        rows(final(list)@) == rows(old(list)@) + backend_in_optional(*dir, platform),
{
    match dir {
        Some(d) => {
            list.push(join_path(d.as_slice(), "backend".as_bytes(), platform));
            assert(rows(list@) =~= rows(old(list)@) + seq![backend_in(d@, platform)]);
        },
        None => {
            assert(rows(list@) =~= rows(old(list)@) + Seq::<Seq<u8>>::empty());
        },
    }
}

/// Appends the `backend` directory reached from `dir` by `climb`.
fn push_backend_above(list: &mut Vec<Vec<u8>>, dir: &[u8], climb: &[u8], platform: Platform)
    ensures
        rows(final(list)@) == rows(old(list)@).push(backend_above(dir@, climb@, platform)),
{
    let above = join_path(dir, climb, platform);
    list.push(join_path(above.as_slice(), "backend".as_bytes(), platform));
    assert(rows(list@) =~= rows(old(list)@).push(backend_above(dir@, climb@, platform)));
}

/// Builds the prioritized list of places where the backend's sources are
/// looked for.
pub fn backend_dir_candidates(roots: &BackendRoots, platform: Platform) -> (r: Vec<Vec<u8>>)
    ensures
        rows(r@) == backend_dir_list(*roots, platform),
{
    let mut list: Vec<Vec<u8>> = Vec::new();
    let install: &[u8] = roots.install_dir.as_slice();
    list.push(join_path(install, "backend".as_bytes(), platform));
    assert(rows(list@) =~= seq![backend_in(install@, platform)]);
    push_backend_above(&mut list, install, "../..".as_bytes(), platform);
    push_backend_above(&mut list, install, "../../..".as_bytes(), platform);
    push_backend_above(&mut list, install, "../../../..".as_bytes(), platform);
    assert(rows(list@) =~= install_backend_dirs(install@, platform));
    let ghost first = rows(list@);
    let levels: usize = if roots.ancestors.len() <= ANCESTOR_LEVELS {
        roots.ancestors.len()
    } else {
        ANCESTOR_LEVELS
    };
    let mut i: usize = 0;
    while i < levels
        invariant
            i <= levels <= roots.ancestors@.len(),
            rows(list@) == first + backend_in_each(
                rows(roots.ancestors@).subrange(0, i as int),
                platform,
            ),
        decreases levels - i,
    {
        let ghost before = rows(list@);
        list.push(join_path(roots.ancestors[i].as_slice(), "backend".as_bytes(), platform));
        proof {
            assert(rows(list@) =~= before.push(backend_in(roots.ancestors@[i as int]@, platform)));
            assert(rows(list@) =~= first + backend_in_each(
                rows(roots.ancestors@).subrange(0, i + 1),
                platform,
            ));
        }
        i += 1;
    }
    proof {
        assert(rows(roots.ancestors@).subrange(0, i as int) =~= nearest_ancestors(
            rows(roots.ancestors@),
        ));
    }
    push_backend_in_optional(&mut list, &roots.current_dir, platform);
    push_backend_in_optional(&mut list, &roots.current_parent, platform);
    let ghost before = rows(list@);
    match &roots.override_dir {
        Some(d) => {
            list.push(vstd::slice::slice_to_vec(d.as_slice()));
            assert(rows(list@) =~= before + seq![d@]);
        },
        None => {
            assert(rows(list@) =~= before + Seq::<Seq<u8>>::empty());
        },
    }
    list
}

/// `i` is the first position that holds `true`.
pub open spec fn first_true(flags: Seq<bool>, i: int) -> bool {
    0 <= i < flags.len() && flags[i] && forall|j: int| 0 <= j < i ==> !flags[j]
}

/// Picks the first of the candidates that is there. `present[i]` says
/// whether candidate `i` was found.
pub fn first_present(present: &[bool]) -> (r: Option<usize>)
    ensures
        match r {
            Some(i) => first_true(present@, i as int),
            None => forall|j: int| 0 <= j < present@.len() ==> !present@[j],
        },
{
    let mut i: usize = 0;
    while i < present.len()
        invariant
            i <= present@.len(),
            forall|j: int| 0 <= j < i ==> !present@[j],
        decreases present@.len() - i,
    {
        if present[i] {
            return Some(i);
        }
        i += 1;
    }
    None
}

} // verus!
