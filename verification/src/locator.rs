//! Executable locator: builds the prioritized list of places where a
//! runnable server may be found and picks the first usable one.

use crate::text::append;
use crate::text::ends_with;
use crate::text::ends_with_bytes;
use crate::text::rows;
use vstd::prelude::*;
use vstd::slice::slice_to_vec;
use vstd::string::StringSliceAdditionalSpecFns;

verus! {

/// Smallest size, in bytes, of a bundled server binary that is taken for
/// real; anything smaller is a placeholder left by an unfinished build.
pub const MIN_EXECUTABLE_SIZE: u64 = 1024;

/// The family of operating system the supervisor runs on.
#[derive(Clone, Copy, Debug, PartialEq, Eq, Structural)]
pub enum Platform {
    Windows,
    Unix,
}

/// What kind of artifact a candidate names.
#[derive(Clone, Copy, Debug, PartialEq, Eq, Structural)]
pub enum CandidateKind {
    /// A self-contained server binary.
    BundledExecutable,
    /// An interpreter that runs the server's entry script.
    InterpreterScript,
}

/// How the caller finds out whether a candidate is there.
#[derive(Clone, Copy, Debug, PartialEq, Eq, Structural)]
pub enum ProbeMethod {
    /// Look the path up on the filesystem and read its size.
    FileSize,
    /// Look the path up on the filesystem.
    FileExists,
    /// Run the command with a version flag and see whether it starts.
    VersionCheck,
}

/// One place where a runnable server may be found.
#[derive(Clone, Debug, PartialEq, Eq)]
pub struct ServerCandidate {
    /// A filesystem path, or a bare command looked up by the system.
    pub command: Vec<u8>,
    pub kind: CandidateKind,
    pub platform_compatible: bool,
    pub probe: ProbeMethod,
}

/// The mathematical value of a [`ServerCandidate`].
pub struct CandidateView {
    pub command: Seq<u8>,
    pub kind: CandidateKind,
    pub platform_compatible: bool,
    pub probe: ProbeMethod,
}

impl View for ServerCandidate {
    type V = CandidateView;

    open spec fn view(&self) -> CandidateView {
        CandidateView {
            command: self.command@,
            kind: self.kind,
            platform_compatible: self.platform_compatible,
            probe: self.probe,
        }
    }
}

/// What the caller saw when it probed a candidate.
#[derive(Clone, Copy, Debug, PartialEq, Eq)]
pub struct Observation {
    /// The file is there, or the command answered.
    pub exists: bool,
    /// The file's size in bytes, where it could be read.
    pub size: Option<u64>,
}

impl Platform {
    pub open spec fn windows(self) -> bool {
        self is Windows
    }

    /// Whether this is the Windows family.
    pub fn is_windows(&self) -> (r: bool)
        ensures
            r == self.windows(),
    {
        match self {
            Platform::Windows => true,
            Platform::Unix => false,
        }
    }
}

/// The byte that separates path components on a platform.
pub open spec fn separator(platform: Platform) -> u8 {
    if platform.windows() {
        92
    } else {
        47
    }
}

/// Whether a byte ends a path component on a platform. Windows accepts the
/// forward slash beside its own backslash.
pub open spec fn is_separator(b: u8, platform: Platform) -> bool {
    b == 47 || (platform.windows() && b == 92)
}

/// The path `base` extended by the relative component `name`.
pub open spec fn joined(base: Seq<u8>, name: Seq<u8>, platform: Platform) -> Seq<u8> {
    if base.len() == 0 || is_separator(base.last(), platform) {
        base + name
    } else {
        base.push(separator(platform)) + name
    }
}

/// Extends the path `base` by the relative component `name`, putting a
/// separator between them unless `base` is empty or already ends in one.
pub fn join_path(base: &[u8], name: &[u8], platform: Platform) -> (r: Vec<u8>)
    ensures
        r@ == joined(base@, name@, platform),
{
    let mut r: Vec<u8> = slice_to_vec(base);
    let n: usize = base.len();
    if n > 0 {
        let last: u8 = base[n - 1];
        let ends_in_separator: bool = last == 47 || (platform.is_windows() && last == 92);
        if !ends_in_separator {
            if platform.is_windows() {
                r.push(92);
            } else {
                r.push(47);
            }
        }
    }
    append(&mut r, name);
    r
}

/// The suffix that marks a Windows binary.
pub open spec fn windows_suffix() -> Seq<u8> {
    ".exe".spec_bytes()
}

/// A path names a binary for `platform`: a Windows binary is one whose name
/// ends in `.exe`, and it runs on Windows only; any other runs elsewhere only.
pub open spec fn compatible(path: Seq<u8>, platform: Platform) -> bool {
    ends_with_bytes(path, windows_suffix()) == platform.windows()
}

/// Whether a bundled binary at `path` can run on `platform`.
pub fn is_platform_compatible(path: &[u8], platform: Platform) -> (r: bool)
    ensures
        r == compatible(path@, platform),
{
    ends_with(path, ".exe".as_bytes()) == platform.is_windows()
}

/// The values of a list of candidates, in order.
pub open spec fn candidate_views(list: Seq<ServerCandidate>) -> Seq<CandidateView> {
    Seq::new(list.len(), |i: int| list[i]@)
}

/// The bundled binary's file name on Unix-like systems.
pub open spec fn server_name() -> Seq<u8> {
    "backend-server".spec_bytes()
}

/// The bundled binary's file name on Windows.
pub open spec fn server_name_windows() -> Seq<u8> {
    "backend-server.exe".spec_bytes()
}

/// The candidate for a bundled binary at `path`.
pub open spec fn bundled_at(path: Seq<u8>, platform: Platform) -> CandidateView {
    CandidateView {
        command: path,
        kind: CandidateKind::BundledExecutable,
        platform_compatible: compatible(path, platform),
        probe: ProbeMethod::FileSize,
    }
}

/// The two candidates that a directory offers: the platform's own file name
/// first, the other platform's after it.
pub open spec fn bundled_in(dir: Seq<u8>, platform: Platform) -> Seq<CandidateView> {
    if platform.windows() {
        seq![
            bundled_at(joined(dir, server_name_windows(), platform), platform),
            bundled_at(joined(dir, server_name(), platform), platform),
        ]
    } else {
        seq![
            bundled_at(joined(dir, server_name(), platform), platform),
            bundled_at(joined(dir, server_name_windows(), platform), platform),
        ]
    }
}

/// Builds the candidate for a bundled binary at `path`.
pub fn bundled_candidate(path: Vec<u8>, platform: Platform) -> (r: ServerCandidate)
    ensures
        r@ == bundled_at(path@, platform),
{
    let ok = is_platform_compatible(path.as_slice(), platform);
    ServerCandidate {
        command: path,
        kind: CandidateKind::BundledExecutable,
        platform_compatible: ok,
        probe: ProbeMethod::FileSize,
    }
}

/// Appends the two candidates that `dir` offers to `list`.
fn push_bundled_in(list: &mut Vec<ServerCandidate>, dir: &[u8], platform: Platform)
    ensures
        candidate_views(final(list)@) == candidate_views(old(list)@) + bundled_in(dir@, platform),
{
    let plain = join_path(dir, "backend-server".as_bytes(), platform);
    let windows = join_path(dir, "backend-server.exe".as_bytes(), platform);
    if platform.is_windows() {
        list.push(bundled_candidate(windows, platform));
        list.push(bundled_candidate(plain, platform));
    } else {
        list.push(bundled_candidate(plain, platform));
        list.push(bundled_candidate(windows, platform));
    }
    proof {
        assert(candidate_views(list@) =~= candidate_views(old(list)@) + bundled_in(
            dir@,
            platform,
        ));
    }
}

/// The directories and overrides that the search for a bundled binary
/// starts from.
#[derive(Clone, Debug, PartialEq, Eq)]
pub struct SearchRoots {
    /// Directories in or below a development project, such as the
    /// installation directory and the current directory: a local build is
    /// looked for in `backend/dist` of each and of the four levels above it.
    pub project_bases: Vec<Vec<u8>>,
    /// The directories of bundled resources.
    pub resource_dirs: Vec<Vec<u8>>,
    /// Directories of a packaged or system-wide installation that may hold
    /// the binary itself.
    pub bundle_dirs: Vec<Vec<u8>>,
    /// A path to the server binary that the user configured.
    pub override_path: Option<Vec<u8>>,
    /// The directory the application is installed in.
    pub install_dir: Vec<u8>,
    /// The directory above the installation directory.
    pub install_parent: Option<Vec<u8>>,
}

/// How the directories around a root are laid out.
#[derive(Clone, Copy, Debug, PartialEq, Eq, Structural)]
pub enum DirLayout {
    /// A development project: the build lies in `backend/dist` of the root
    /// or of one of the four levels above it.
    Project,
    /// Bundled resources: the binary lies in the root's `resources`
    /// subdirectory or in the root itself.
    Resources,
    /// The binary lies in the root itself.
    Plain,
}

/// The directory of a local build below `root`.
pub open spec fn dist_dir_of(root: Seq<u8>, platform: Platform) -> Seq<u8> {
    joined(joined(root, "backend".spec_bytes(), platform), "dist".spec_bytes(), platform)
}

/// The directories around a root that may hold the binary, in priority
/// order.
pub open spec fn dirs_around(root: Seq<u8>, layout: DirLayout, platform: Platform) -> Seq<Seq<u8>> {
    match layout {
        DirLayout::Project => seq![
            dist_dir_of(root, platform),
            dist_dir_of(joined(root, "..".spec_bytes(), platform), platform),
            dist_dir_of(joined(root, "../..".spec_bytes(), platform), platform),
            dist_dir_of(joined(root, "../../..".spec_bytes(), platform), platform),
            dist_dir_of(joined(root, "../../../..".spec_bytes(), platform), platform),
        ],
        DirLayout::Resources => seq![joined(root, "resources".spec_bytes(), platform), root],
        DirLayout::Plain => seq![root],
    }
}

/// The candidates that the given directories offer, directory by
/// directory.
pub open spec fn candidates_in_each(dirs: Seq<Seq<u8>>, platform: Platform) -> Seq<CandidateView>
    decreases dirs.len(),
{
    if dirs.len() == 0 {
        Seq::empty()
    } else {
        candidates_in_each(dirs.drop_last(), platform) + bundled_in(dirs.last(), platform)
    }
}

/// The candidates around each of the given roots, root by root.
pub open spec fn candidates_around_each(
    roots: Seq<Seq<u8>>,
    layout: DirLayout,
    platform: Platform,
) -> Seq<CandidateView>
    decreases roots.len(),
{
    if roots.len() == 0 {
        Seq::empty()
    } else {
        candidates_around_each(roots.drop_last(), layout, platform) + candidates_in_each(
            dirs_around(roots.last(), layout, platform),
            platform,
        )
    }
}

/// The candidate that the user configured.
pub open spec fn override_candidates(roots: SearchRoots, platform: Platform) -> Seq<
    CandidateView,
> {
    match roots.override_path {
        Some(path) => seq![bundled_at(path@, platform)],
        None => Seq::empty(),
    }
}

/// The candidates beside the application: the installation directory and
/// the directory above it, each with its `resources` subdirectory after it.
pub open spec fn install_candidates(roots: SearchRoots, platform: Platform) -> Seq<CandidateView> {
    bundled_in(roots.install_dir@, platform) + bundled_in(
        joined(roots.install_dir@, "resources".spec_bytes(), platform),
        platform,
    ) + match roots.install_parent {
        Some(dir) => bundled_in(dir@, platform) + bundled_in(
            joined(dir@, "resources".spec_bytes(), platform),
            platform,
        ),
        None => Seq::empty(),
    }
}

/// Every place where a bundled binary is looked for, in priority order:
/// the development builds, the bundled resources, the packaged
/// installations, the configured override, then the surroundings of the
/// installation.
pub open spec fn bundled_search_list(roots: SearchRoots, platform: Platform) -> Seq<
    CandidateView,
> {
    candidates_around_each(rows(roots.project_bases@), DirLayout::Project, platform)
        + candidates_around_each(rows(roots.resource_dirs@), DirLayout::Resources, platform)
        + candidates_around_each(rows(roots.bundle_dirs@), DirLayout::Plain, platform)
        + override_candidates(roots, platform) + install_candidates(roots, platform)
}

/// Builds the directories around a root that may hold the binary.
fn directories_around(root: &[u8], layout: DirLayout, platform: Platform) -> (r: Vec<Vec<u8>>)
    ensures
        rows(r@) == dirs_around(root@, layout, platform),
{
    let mut dirs: Vec<Vec<u8>> = Vec::new();
    match layout {
        DirLayout::Project => {
            dirs.push(dist_dir(root, platform));
            let one = join_path(root, "..".as_bytes(), platform);
            dirs.push(dist_dir(one.as_slice(), platform));
            let two = join_path(root, "../..".as_bytes(), platform);
            dirs.push(dist_dir(two.as_slice(), platform));
            let three = join_path(root, "../../..".as_bytes(), platform);
            dirs.push(dist_dir(three.as_slice(), platform));
            let four = join_path(root, "../../../..".as_bytes(), platform);
            dirs.push(dist_dir(four.as_slice(), platform));
        },
        DirLayout::Resources => {
            dirs.push(join_path(root, "resources".as_bytes(), platform));
            dirs.push(slice_to_vec(root));
        },
        DirLayout::Plain => {
            dirs.push(slice_to_vec(root));
        },
    }
    proof {
        assert(rows(dirs@) =~= dirs_around(root@, layout, platform));
    }
    dirs
}

/// Builds the directory of a local build below `root`.
fn dist_dir(root: &[u8], platform: Platform) -> (r: Vec<u8>)
    ensures
        r@ == dist_dir_of(root@, platform),
{
    let backend = join_path(root, "backend".as_bytes(), platform);
    join_path(backend.as_slice(), "dist".as_bytes(), platform)
}

/// Appends the candidates that the given directories offer.
fn push_candidates_in_each(
    list: &mut Vec<ServerCandidate>,
    dirs: &Vec<Vec<u8>>,
    platform: Platform,
)
    ensures
        candidate_views(final(list)@) == candidate_views(old(list)@) + candidates_in_each(
            rows(dirs@),
            platform,
        ),
{
    let ghost all = rows(dirs@);
    let mut i: usize = 0;
    proof {
        assert(all.subrange(0, 0) =~= Seq::<Seq<u8>>::empty());
        assert(candidate_views(list@) =~= candidate_views(old(list)@) + candidates_in_each(
            all.subrange(0, 0),
            platform,
        ));
    }
    while i < dirs.len()
        invariant
            i <= dirs@.len(),
            all == rows(dirs@),
            candidate_views(list@) == candidate_views(old(list)@) + candidates_in_each(
                all.subrange(0, i as int),
                platform,
            ),
        decreases dirs@.len() - i,
    {
        let ghost before = candidate_views(list@);
        push_bundled_in(list, dirs[i].as_slice(), platform);
        proof {
            let upto = all.subrange(0, i + 1);
            assert(upto.drop_last() =~= all.subrange(0, i as int));
            assert(upto.last() == dirs@[i as int]@);
            assert(candidate_views(list@) =~= candidate_views(old(list)@) + candidates_in_each(
                upto,
                platform,
            ));
        }
        i += 1;
    }
    proof {
        assert(all.subrange(0, i as int) =~= all);
    }
}

/// Appends the candidates around each of the given roots.
fn push_candidates_around_each(
    list: &mut Vec<ServerCandidate>,
    roots: &Vec<Vec<u8>>,
    layout: DirLayout,
    platform: Platform,
)
    ensures
        candidate_views(final(list)@) == candidate_views(old(list)@) + candidates_around_each(
            rows(roots@),
            layout,
            platform,
        ),
{
    let ghost all = rows(roots@);
    let mut i: usize = 0;
    proof {
        assert(all.subrange(0, 0) =~= Seq::<Seq<u8>>::empty());
        assert(candidate_views(list@) =~= candidate_views(old(list)@) + candidates_around_each(
            all.subrange(0, 0),
            layout,
            platform,
        ));
    }
    while i < roots.len()
        invariant
            i <= roots@.len(),
            all == rows(roots@),
            candidate_views(list@) == candidate_views(old(list)@) + candidates_around_each(
                all.subrange(0, i as int),
                layout,
                platform,
            ),
        decreases roots@.len() - i,
    {
        let dirs = directories_around(roots[i].as_slice(), layout, platform);
        push_candidates_in_each(list, &dirs, platform);
        proof {
            let upto = all.subrange(0, i + 1);
            assert(upto.drop_last() =~= all.subrange(0, i as int));
            assert(upto.last() == roots@[i as int]@);
            assert(candidate_views(list@) =~= candidate_views(old(list)@)
                + candidates_around_each(upto, layout, platform));
        }
        i += 1;
    }
    proof {
        assert(all.subrange(0, i as int) =~= all);
    }
}

/// Appends the candidate that the user configured.
fn push_override_candidates(
    list: &mut Vec<ServerCandidate>,
    roots: &SearchRoots,
    platform: Platform,
)
    ensures
        candidate_views(final(list)@) == candidate_views(old(list)@) + override_candidates(
            *roots,
            platform,
        ),
{
    match &roots.override_path {
        Some(path) => {
            let owned: Vec<u8> = slice_to_vec(path.as_slice());
            list.push(bundled_candidate(owned, platform));
            assert(candidate_views(list@) =~= candidate_views(old(list)@) + seq![
                bundled_at(path@, platform),
            ]);
        },
        None => {
            assert(candidate_views(list@) + Seq::<CandidateView>::empty() =~= candidate_views(
                list@,
            ));
        },
    }
}

/// Appends the candidates beside the application.
fn push_install_candidates(list: &mut Vec<ServerCandidate>, roots: &SearchRoots, platform: Platform)
    ensures
        candidate_views(final(list)@) == candidate_views(old(list)@) + install_candidates(
            *roots,
            platform,
        ),
{
    push_bundled_in(list, roots.install_dir.as_slice(), platform);
    let nested = join_path(roots.install_dir.as_slice(), "resources".as_bytes(), platform);
    push_bundled_in(list, nested.as_slice(), platform);
    match &roots.install_parent {
        Some(dir) => {
            push_bundled_in(list, dir.as_slice(), platform);
            let above = join_path(dir.as_slice(), "resources".as_bytes(), platform);
            push_bundled_in(list, above.as_slice(), platform);
            assert(candidate_views(list@) =~= candidate_views(old(list)@) + (bundled_in(
                roots.install_dir@,
                platform,
            ) + bundled_in(nested@, platform) + (bundled_in(dir@, platform) + bundled_in(
                above@,
                platform,
            ))));
        },
        None => {
            assert(candidate_views(list@) =~= candidate_views(old(list)@) + (bundled_in(
                roots.install_dir@,
                platform,
            ) + bundled_in(nested@, platform) + Seq::<CandidateView>::empty()));
        },
    }
}

/// Builds the prioritized list of bundled-binary candidates.
pub fn bundled_candidates(roots: &SearchRoots, platform: Platform) -> (r: Vec<ServerCandidate>)
    ensures
        candidate_views(r@) == bundled_search_list(*roots, platform),
{
    let mut list: Vec<ServerCandidate> = Vec::new();
    let ghost v0 = candidate_views(list@);
    push_candidates_around_each(&mut list, &roots.project_bases, DirLayout::Project, platform);
    let ghost v1 = candidate_views(list@);
    push_candidates_around_each(&mut list, &roots.resource_dirs, DirLayout::Resources, platform);
    push_candidates_around_each(&mut list, &roots.bundle_dirs, DirLayout::Plain, platform);
    push_override_candidates(&mut list, roots, platform);
    push_install_candidates(&mut list, roots, platform);
    proof {
        assert(v0 =~= Seq::<CandidateView>::empty());
        assert(v1 =~= candidates_around_each(
            rows(roots.project_bases@),
            DirLayout::Project,
            platform,
        ));
    }
    list
}

/// The candidate for an interpreter inside the project's own isolated
/// environment, found by looking for the file.
pub open spec fn local_interpreter_at(path: Seq<u8>, platform: Platform) -> CandidateView {
    CandidateView {
        command: path,
        kind: CandidateKind::InterpreterScript,
        platform_compatible: compatible(path, platform),
        probe: ProbeMethod::FileExists,
    }
}

/// The candidate for an interpreter that the system finds by name.
pub open spec fn system_interpreter(command: Seq<u8>) -> CandidateView {
    CandidateView {
        command,
        kind: CandidateKind::InterpreterScript,
        platform_compatible: true,
        probe: ProbeMethod::VersionCheck,
    }
}

/// The path of the isolated environment's interpreter in its Windows layout.
pub open spec fn local_interpreter_windows(working_dir: Seq<u8>, platform: Platform) -> Seq<u8> {
    joined(
        joined(
            joined(working_dir, ".venv".spec_bytes(), platform),
            "Scripts".spec_bytes(),
            platform,
        ),
        "python.exe".spec_bytes(),
        platform,
    )
}

/// The path of the isolated environment's interpreter in its Unix layout.
pub open spec fn local_interpreter_unix(working_dir: Seq<u8>, platform: Platform) -> Seq<u8> {
    joined(
        joined(joined(working_dir, ".venv".spec_bytes(), platform), "bin".spec_bytes(), platform),
        "python".spec_bytes(),
        platform,
    )
}

/// Every interpreter that can run the server's entry script, in priority
/// order: the project's isolated environment in both of its layouts, then
/// the system's `python3` and `python`.
pub open spec fn interpreter_search_list(working_dir: Seq<u8>, platform: Platform) -> Seq<
    CandidateView,
> {
    seq![
        local_interpreter_at(local_interpreter_windows(working_dir, platform), platform),
        local_interpreter_at(local_interpreter_unix(working_dir, platform), platform),
        system_interpreter("python3".spec_bytes()),
        system_interpreter("python".spec_bytes()),
    ]
}

/// Builds the candidate for an isolated environment's interpreter at `path`.
fn local_interpreter_candidate(path: Vec<u8>, platform: Platform) -> (r: ServerCandidate)
    ensures
        r@ == local_interpreter_at(path@, platform),
{
    let ok = is_platform_compatible(path.as_slice(), platform);
    ServerCandidate {
        command: path,
        kind: CandidateKind::InterpreterScript,
        platform_compatible: ok,
        probe: ProbeMethod::FileExists,
    }
}

/// Builds the candidate for an interpreter that the system finds by name.
fn system_interpreter_candidate(command: &[u8]) -> (r: ServerCandidate)
    ensures
        r@ == system_interpreter(command@),
{
    ServerCandidate {
        command: slice_to_vec(command),
        kind: CandidateKind::InterpreterScript,
        platform_compatible: true,
        probe: ProbeMethod::VersionCheck,
    }
}

/// Builds the prioritized list of interpreter candidates for a server whose
/// sources lie in `working_dir`.
pub fn interpreter_candidates(working_dir: &[u8], platform: Platform) -> (r: Vec<ServerCandidate>)
    ensures
        candidate_views(r@) == interpreter_search_list(working_dir@, platform),
{
    let env = join_path(working_dir, ".venv".as_bytes(), platform);
    let scripts = join_path(env.as_slice(), "Scripts".as_bytes(), platform);
    let windows = join_path(scripts.as_slice(), "python.exe".as_bytes(), platform);
    let bin = join_path(env.as_slice(), "bin".as_bytes(), platform);
    let unix = join_path(bin.as_slice(), "python".as_bytes(), platform);
    let mut list: Vec<ServerCandidate> = Vec::new();
    list.push(local_interpreter_candidate(windows, platform));
    list.push(local_interpreter_candidate(unix, platform));
    list.push(system_interpreter_candidate("python3".as_bytes()));
    list.push(system_interpreter_candidate("python".as_bytes()));
    proof {
        assert(candidate_views(list@) =~= interpreter_search_list(working_dir@, platform));
    }
    list
}

/// The whole search list: bundled binaries first, interpreters after them.
pub open spec fn search_list(roots: SearchRoots, working_dir: Seq<u8>, platform: Platform) -> Seq<
    CandidateView,
> {
    bundled_search_list(roots, platform) + interpreter_search_list(working_dir, platform)
}

/// Builds the whole search list.
pub fn search_candidates(roots: &SearchRoots, working_dir: &[u8], platform: Platform) -> (r: Vec<
    ServerCandidate,
>)
    ensures
        candidate_views(r@) == search_list(*roots, working_dir@, platform),
{
    let mut list = bundled_candidates(roots, platform);
    let mut fallback = interpreter_candidates(working_dir, platform);
    let ghost first = list@;
    let ghost second = fallback@;
    list.append(&mut fallback);
    proof {
        assert(candidate_views(list@) =~= candidate_views(first) + candidate_views(second));
    }
    list
}

/// Why a candidate is passed over.
#[derive(Clone, Copy, Debug, PartialEq, Eq, Structural)]
pub enum Rejection {
    /// Nothing is there.
    Missing,
    /// The binary is built for the other platform.
    WrongPlatform,
    /// The file is too small to be a real binary.
    Placeholder,
}

/// The locator found nothing to run.
#[derive(Clone, Copy, Debug, PartialEq, Eq, Structural)]
pub enum LocateError {
    /// No bundled binary and no interpreter is usable.
    NoRuntimeFound,
}

/// A file of this size is large enough to be a real binary. A size that
/// could not be read counts as large enough.
pub open spec fn size_accepted(size: Option<u64>) -> bool {
    match size {
        Some(n) => n >= MIN_EXECUTABLE_SIZE,
        None => true,
    }
}

/// Why the candidate is passed over, or `None` where it is usable. The
/// checks come in this order: presence, platform, size. Only bundled
/// binaries are held to the size threshold.
pub open spec fn rejection_of(c: CandidateView, o: Observation) -> Option<Rejection> {
    if !o.exists {
        Some(Rejection::Missing)
    } else if !c.platform_compatible {
        Some(Rejection::WrongPlatform)
    } else if c.kind is BundledExecutable && !size_accepted(o.size) {
        Some(Rejection::Placeholder)
    } else {
        None
    }
}

/// The candidate can be run: it is there, fits the platform and, where it
/// is a bundled binary, is no placeholder.
pub open spec fn usable(c: CandidateView, o: Observation) -> bool {
    o.exists && c.platform_compatible && (c.kind is InterpreterScript || size_accepted(o.size))
}

/// Whether a file of `size` bytes is large enough to be a real binary.
pub fn meets_size_threshold(size: u64) -> (ok: bool)
    ensures
        ok == (size >= MIN_EXECUTABLE_SIZE),
{
    size >= MIN_EXECUTABLE_SIZE
}

/// Judges one candidate by what was observed of it.
pub fn assess(candidate: &ServerCandidate, observation: &Observation) -> (r: Option<Rejection>)
    ensures
        r == rejection_of(candidate@, *observation),
        r.is_none() == usable(candidate@, *observation),
{
    if !observation.exists {
        return Some(Rejection::Missing);
    }
    if !candidate.platform_compatible {
        return Some(Rejection::WrongPlatform);
    }
    match candidate.kind {
        CandidateKind::BundledExecutable => match observation.size {
            Some(n) => {
                if meets_size_threshold(n) {
                    None
                } else {
                    Some(Rejection::Placeholder)
                }
            },
            None => None,
        },
        CandidateKind::InterpreterScript => None,
    }
}

/// The candidate at position `i` has been observed and is usable.
pub open spec fn usable_at(
    candidates: Seq<ServerCandidate>,
    observations: Seq<Observation>,
    i: int,
) -> bool {
    0 <= i < candidates.len() && i < observations.len() && usable(
        candidates[i]@,
        observations[i],
    )
}

/// `i` is the first position of a usable candidate.
pub open spec fn first_usable(
    candidates: Seq<ServerCandidate>,
    observations: Seq<Observation>,
    i: int,
) -> bool {
    usable_at(candidates, observations, i) && forall|j: int|
        0 <= j < i ==> !usable_at(candidates, observations, j)
}

/// No observed candidate is usable.
pub open spec fn none_usable(
    candidates: Seq<ServerCandidate>,
    observations: Seq<Observation>,
) -> bool {
    forall|j: int| !usable_at(candidates, observations, j)
}

/// Picks the first usable candidate of a search list. `observations[i]` is
/// what was seen of `candidates[i]`; a candidate without an observation is
/// not considered.
pub fn locate(candidates: &Vec<ServerCandidate>, observations: &Vec<Observation>) -> (r: Result<
    usize,
    LocateError,
>)
    ensures
        match r {
            Ok(i) => first_usable(candidates@, observations@, i as int),
            Err(e) => e == LocateError::NoRuntimeFound && none_usable(candidates@, observations@),
        },
{
    let n: usize = if candidates.len() < observations.len() {
        candidates.len()
    } else {
        observations.len()
    };
    let mut i: usize = 0;
    while i < n
        invariant
            i <= n,
            n <= candidates@.len(),
            n <= observations@.len(),
            n == candidates@.len() || n == observations@.len(),
            forall|j: int| 0 <= j < i ==> !usable_at(candidates@, observations@, j),
        decreases n - i,
    {
        if assess(&candidates[i], &observations[i]).is_none() {
            return Ok(i);
        }
        i += 1;
    }
    Err(LocateError::NoRuntimeFound)
}

/// What the search does next.
#[derive(Clone, Copy, Debug, PartialEq, Eq, Structural)]
pub enum SearchStep {
    /// Probe the candidate at this position and record what was seen.
    Probe(usize),
    /// The candidate at this position is the one to run.
    Found(usize),
    /// Every candidate was probed and none is usable.
    Exhausted,
}

/// Decides the next step of a search that probes candidates one at a time,
/// in order, and stops at the first usable one. `observations` holds what
/// was seen of the candidates probed so far.
pub fn search_step(candidates: &Vec<ServerCandidate>, observations: &Vec<Observation>) -> (r:
    SearchStep)
    ensures
        match r {
            SearchStep::Found(i) => first_usable(candidates@, observations@, i as int),
            SearchStep::Probe(i) => none_usable(candidates@, observations@) && i
                == observations@.len() && i < candidates@.len(),
            SearchStep::Exhausted => none_usable(candidates@, observations@) && observations@.len()
                >= candidates@.len(),
        },
{
    match locate(candidates, observations) {
        Ok(i) => SearchStep::Found(i),
        Err(_) => {
            if observations.len() < candidates.len() {
                SearchStep::Probe(observations.len())
            } else {
                SearchStep::Exhausted
            }
        },
    }
}

/// A search list that holds a candidate which exists, fits the platform and
/// is large enough always yields a candidate: the locator never reports that
/// nothing was found while a valid candidate is present.
pub proof fn lemma_valid_candidate_is_found(
    candidates: Seq<ServerCandidate>,
    observations: Seq<Observation>,
    k: int,
)
    requires
        0 <= k < candidates.len(),
        k < observations.len(),
        observations[k].exists,
        candidates[k].platform_compatible,
        observations[k].size is Some,
        observations[k].size->0 >= MIN_EXECUTABLE_SIZE,
    ensures
        !none_usable(candidates, observations),
        exists|i: int| 0 <= i <= k && first_usable(candidates, observations, i),
{
    assert(usable_at(candidates, observations, k));
    lemma_first_usable_exists(candidates, observations, k);
}

/// Before any usable position lies a first usable position.
pub proof fn lemma_first_usable_exists(
    candidates: Seq<ServerCandidate>,
    observations: Seq<Observation>,
    k: int,
)
    requires
        usable_at(candidates, observations, k),
    ensures
        exists|i: int| 0 <= i <= k && first_usable(candidates, observations, i),
    decreases k,
{
    if exists|j: int| 0 <= j < k && usable_at(candidates, observations, j) {
        let j = choose|j: int| 0 <= j < k && usable_at(candidates, observations, j);
        lemma_first_usable_exists(candidates, observations, j);
    } else {
        assert(first_usable(candidates, observations, k));
    }
}

} // verus!
