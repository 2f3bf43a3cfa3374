use backend_supervisor::locator::assess;
use backend_supervisor::locator::bundled_candidate;
use backend_supervisor::locator::bundled_candidates;
use backend_supervisor::locator::interpreter_candidates;
use backend_supervisor::locator::is_platform_compatible;
use backend_supervisor::locator::join_path;
use backend_supervisor::locator::locate;
use backend_supervisor::locator::meets_size_threshold;
use backend_supervisor::locator::search_candidates;
use backend_supervisor::locator::search_step;
use backend_supervisor::locator::CandidateKind;
use backend_supervisor::locator::LocateError;
use backend_supervisor::locator::Observation;
use backend_supervisor::locator::Platform;
use backend_supervisor::locator::ProbeMethod;
use backend_supervisor::locator::Rejection;
use backend_supervisor::locator::SearchRoots;
use backend_supervisor::locator::SearchStep;
use backend_supervisor::locator::ServerCandidate;
use backend_supervisor::locator::MIN_EXECUTABLE_SIZE;

fn missing() -> Observation {
    Observation { exists: false, size: None }
}

fn file(size: u64) -> Observation {
    Observation { exists: true, size: Some(size) }
}

fn answered() -> Observation {
    Observation { exists: true, size: None }
}

fn commands(list: &Vec<ServerCandidate>) -> Vec<String> {
    list.iter().map(|c| String::from_utf8(c.command.clone()).unwrap()).collect()
}

fn roots() -> SearchRoots {
    SearchRoots {
        project_bases: vec![b"/src/app".to_vec()],
        resource_dirs: vec![b"/opt/app/res".to_vec()],
        bundle_dirs: vec![b"/usr/lib/app".to_vec()],
        override_path: Some(b"/custom/server".to_vec()),
        install_dir: b"/opt/app/bin".to_vec(),
        install_parent: Some(b"/opt/app".to_vec()),
    }
}

#[test]
fn join_path_puts_one_separator_between() {
    assert_eq!(join_path(b"/opt/app", b"backend-server", Platform::Unix), b"/opt/app/backend-server".to_vec());
    assert_eq!(join_path(b"/opt/app/", b"backend-server", Platform::Unix), b"/opt/app/backend-server".to_vec());
    assert_eq!(join_path(b"", b"backend-server", Platform::Unix), b"backend-server".to_vec());
    assert_eq!(join_path(b"C:\\app", b"dist", Platform::Windows), b"C:\\app\\dist".to_vec());
    assert_eq!(join_path(b"C:\\app\\", b"dist", Platform::Windows), b"C:\\app\\dist".to_vec());
    assert_eq!(join_path(b"C:/app/", b"dist", Platform::Windows), b"C:/app/dist".to_vec());
    assert_eq!(join_path(b"dir\\", b"x", Platform::Unix), b"dir\\/x".to_vec());
}

#[test]
fn windows_binaries_run_on_windows_only() {
    assert!(is_platform_compatible(b"/a/backend-server", Platform::Unix));
    assert!(!is_platform_compatible(b"/a/backend-server.exe", Platform::Unix));
    assert!(is_platform_compatible(b"C:\\a\\backend-server.exe", Platform::Windows));
    assert!(!is_platform_compatible(b"C:\\a\\backend-server", Platform::Windows));
}

#[test]
fn size_threshold_is_one_kibibyte() {
    assert_eq!(MIN_EXECUTABLE_SIZE, 1024);
    assert!(!meets_size_threshold(0));
    assert!(!meets_size_threshold(1023));
    assert!(meets_size_threshold(1024));
    assert!(meets_size_threshold(2048));
}

#[test]
fn bundled_candidate_records_compatibility() {
    let c = bundled_candidate(b"/a/backend-server.exe".to_vec(), Platform::Unix);
    assert_eq!(c.command, b"/a/backend-server.exe".to_vec());
    assert_eq!(c.kind, CandidateKind::BundledExecutable);
    assert_eq!(c.probe, ProbeMethod::FileSize);
    assert!(!c.platform_compatible);
}

#[test]
fn bundled_candidates_follow_the_priority_order_on_unix() {
    let list = bundled_candidates(&roots(), Platform::Unix);
    assert_eq!(
        commands(&list),
        vec![
            "/src/app/backend/dist/backend-server",
            "/src/app/backend/dist/backend-server.exe",
            "/src/app/../backend/dist/backend-server",
            "/src/app/../backend/dist/backend-server.exe",
            "/src/app/../../backend/dist/backend-server",
            "/src/app/../../backend/dist/backend-server.exe",
            "/src/app/../../../backend/dist/backend-server",
            "/src/app/../../../backend/dist/backend-server.exe",
            "/src/app/../../../../backend/dist/backend-server",
            "/src/app/../../../../backend/dist/backend-server.exe",
            "/opt/app/res/resources/backend-server",
            "/opt/app/res/resources/backend-server.exe",
            "/opt/app/res/backend-server",
            "/opt/app/res/backend-server.exe",
            "/usr/lib/app/backend-server",
            "/usr/lib/app/backend-server.exe",
            "/custom/server",
            "/opt/app/bin/backend-server",
            "/opt/app/bin/backend-server.exe",
            "/opt/app/bin/resources/backend-server",
            "/opt/app/bin/resources/backend-server.exe",
            "/opt/app/backend-server",
            "/opt/app/backend-server.exe",
            "/opt/app/resources/backend-server",
            "/opt/app/resources/backend-server.exe",
        ]
    );
    for (i, c) in list.iter().enumerate() {
        assert_eq!(c.kind, CandidateKind::BundledExecutable);
        assert_eq!(c.probe, ProbeMethod::FileSize);
        assert_eq!(c.platform_compatible, !c.command.ends_with(b".exe"), "candidate {}", i);
    }
}

#[test]
fn bundled_candidates_put_the_exe_first_on_windows() {
    let only_install = SearchRoots {
        project_bases: Vec::new(),
        resource_dirs: Vec::new(),
        bundle_dirs: Vec::new(),
        override_path: None,
        install_dir: b"C:\\app".to_vec(),
        install_parent: None,
    };
    let list = bundled_candidates(&only_install, Platform::Windows);
    assert_eq!(
        commands(&list),
        vec![
            "C:\\app\\backend-server.exe",
            "C:\\app\\backend-server",
            "C:\\app\\resources\\backend-server.exe",
            "C:\\app\\resources\\backend-server",
        ]
    );
    assert!(list[0].platform_compatible);
    assert!(!list[1].platform_compatible);
}

#[test]
fn interpreter_candidates_prefer_the_isolated_environment() {
    let list = interpreter_candidates(b"/src/app/backend", Platform::Unix);
    assert_eq!(
        commands(&list),
        vec![
            "/src/app/backend/.venv/Scripts/python.exe",
            "/src/app/backend/.venv/bin/python",
            "python3",
            "python",
        ]
    );
    assert_eq!(list[0].probe, ProbeMethod::FileExists);
    assert_eq!(list[1].probe, ProbeMethod::FileExists);
    assert_eq!(list[2].probe, ProbeMethod::VersionCheck);
    assert_eq!(list[3].probe, ProbeMethod::VersionCheck);
    assert!(!list[0].platform_compatible);
    assert!(list[1].platform_compatible);
    assert!(list[2].platform_compatible);
    assert!(list[3].platform_compatible);
    for c in list.iter() {
        assert_eq!(c.kind, CandidateKind::InterpreterScript);
    }
}

#[test]
fn search_candidates_put_bundled_binaries_before_interpreters() {
    let list = search_candidates(&roots(), b"/src/app/backend", Platform::Unix);
    assert_eq!(list.len(), 29);
    assert_eq!(list[24].kind, CandidateKind::BundledExecutable);
    assert_eq!(list[25].kind, CandidateKind::InterpreterScript);
    assert_eq!(list[28].command, b"python".to_vec());
}

#[test]
fn assess_gives_the_first_reason_that_applies() {
    let good = bundled_candidate(b"/a/backend-server".to_vec(), Platform::Unix);
    let foreign = bundled_candidate(b"/a/backend-server.exe".to_vec(), Platform::Unix);
    assert_eq!(assess(&good, &missing()), Some(Rejection::Missing));
    assert_eq!(assess(&foreign, &missing()), Some(Rejection::Missing));
    assert_eq!(assess(&foreign, &file(4096)), Some(Rejection::WrongPlatform));
    assert_eq!(assess(&foreign, &file(10)), Some(Rejection::WrongPlatform));
    assert_eq!(assess(&good, &file(512)), Some(Rejection::Placeholder));
    assert_eq!(assess(&good, &file(1023)), Some(Rejection::Placeholder));
    assert_eq!(assess(&good, &file(1024)), None);
    assert_eq!(assess(&good, &answered()), None);
}

#[test]
fn assess_does_not_hold_interpreters_to_the_size_threshold() {
    let list = interpreter_candidates(b"/b", Platform::Unix);
    assert_eq!(assess(&list[1], &file(100)), None);
    assert_eq!(assess(&list[2], &answered()), None);
    assert_eq!(assess(&list[2], &missing()), Some(Rejection::Missing));
    assert_eq!(assess(&list[0], &file(100_000)), Some(Rejection::WrongPlatform));
}

#[test]
fn locate_returns_the_first_usable_candidate() {
    let list = search_candidates(&roots(), b"/src/app/backend", Platform::Unix);
    let mut seen = vec![missing(); list.len()];
    seen[4] = file(2048);
    seen[17] = file(4096);
    seen[27] = answered();
    assert_eq!(locate(&list, &seen), Ok(4));
    seen[4] = missing();
    assert_eq!(locate(&list, &seen), Ok(17));
    seen[17] = missing();
    assert_eq!(locate(&list, &seen), Ok(27));
    seen[27] = missing();
    assert_eq!(locate(&list, &seen), Err(LocateError::NoRuntimeFound));
}

#[test]
fn locate_finds_a_valid_candidate_wherever_it_stands() {
    let list = search_candidates(&roots(), b"/src/app/backend", Platform::Unix);
    for k in 0..list.len() {
        if !list[k].platform_compatible {
            continue;
        }
        let mut seen = vec![missing(); list.len()];
        seen[k] = file(1024);
        assert_eq!(locate(&list, &seen), Ok(k));
    }
}

#[test]
fn locate_on_nothing_finds_nothing() {
    assert_eq!(locate(&Vec::new(), &Vec::new()), Err(LocateError::NoRuntimeFound));
}

#[test]
fn locate_ignores_candidates_without_an_observation() {
    let list = bundled_candidates(&roots(), Platform::Unix);
    let seen = vec![missing(), missing()];
    assert_eq!(locate(&list, &seen), Err(LocateError::NoRuntimeFound));
    let more = vec![file(5000); 40];
    assert_eq!(locate(&list, &more), Ok(0));
}

#[test]
fn a_placeholder_is_skipped_and_an_interpreter_is_the_fallback() {
    let only_install = SearchRoots {
        project_bases: Vec::new(),
        resource_dirs: Vec::new(),
        bundle_dirs: Vec::new(),
        override_path: None,
        install_dir: b"/opt/app".to_vec(),
        install_parent: None,
    };
    let list = search_candidates(&only_install, b"/opt/app/backend", Platform::Unix);
    assert_eq!(list.len(), 8);
    let mut seen = vec![missing(); list.len()];
    seen[0] = file(512);
    assert_eq!(assess(&list[0], &seen[0]), Some(Rejection::Placeholder));
    seen[6] = answered();
    let found = locate(&list, &seen);
    assert_eq!(found, Ok(6));
    assert_eq!(list[6].kind, CandidateKind::InterpreterScript);
    assert_eq!(list[6].command, b"python3".to_vec());
    seen[6] = missing();
    assert_eq!(locate(&list, &seen), Err(LocateError::NoRuntimeFound));
}

#[test]
fn search_step_probes_in_order_and_stops_at_the_first_hit() {
    let list = interpreter_candidates(b"/b", Platform::Unix);
    let mut seen: Vec<Observation> = Vec::new();
    assert_eq!(search_step(&list, &seen), SearchStep::Probe(0));
    seen.push(file(9000));
    assert_eq!(search_step(&list, &seen), SearchStep::Probe(1));
    seen.push(missing());
    assert_eq!(search_step(&list, &seen), SearchStep::Probe(2));
    seen.push(answered());
    assert_eq!(search_step(&list, &seen), SearchStep::Found(2));
}

#[test]
fn search_step_reports_an_exhausted_list() {
    let list = interpreter_candidates(b"/b", Platform::Unix);
    let seen = vec![missing(); 4];
    assert_eq!(search_step(&list, &seen), SearchStep::Exhausted);
    assert_eq!(search_step(&Vec::new(), &Vec::new()), SearchStep::Exhausted);
}

#[test]
fn several_roots_are_searched_in_the_order_given() {
    let two = SearchRoots {
        project_bases: vec![b"/a".to_vec(), b"/b".to_vec()],
        resource_dirs: vec![b"/r1".to_vec(), b"/r2".to_vec()],
        bundle_dirs: vec![b"/usr/lib/x".to_vec(), b"/usr/share/x".to_vec()],
        override_path: None,
        install_dir: b"/i".to_vec(),
        install_parent: None,
    };
    let list = bundled_candidates(&two, Platform::Unix);
    let names = commands(&list);
    assert_eq!(names.len(), 20 + 8 + 4 + 4);
    assert_eq!(names[0], "/a/backend/dist/backend-server");
    assert_eq!(names[8], "/a/../../../../backend/dist/backend-server");
    assert_eq!(names[10], "/b/backend/dist/backend-server");
    assert_eq!(names[20], "/r1/resources/backend-server");
    assert_eq!(names[22], "/r1/backend-server");
    assert_eq!(names[24], "/r2/resources/backend-server");
    assert_eq!(names[28], "/usr/lib/x/backend-server");
    assert_eq!(names[30], "/usr/share/x/backend-server");
    assert_eq!(names[32], "/i/backend-server");
    assert_eq!(names[35], "/i/resources/backend-server.exe");
}
