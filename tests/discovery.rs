use uv_interpreter::candidates::{
    is_windows_store_shim, launcher_candidates, managed_candidates, search_path_names,
    search_path_probes, search_path_value, split_search_path,
};
use uv_interpreter::discovery::{default_search, is_unsupported_python};
use uv_interpreter::paths::{join, virtualenv_python_executable};
use uv_interpreter::{
    BestMatch, BestStep, DiscoveredInterpreter, DiscoveryError, ImplementationName, Interpreter,
    InterpreterNotFound, InterpreterRequest, InterpreterSource, LauncherEntry, Os, PythonVersion,
    QueryError, Search, SearchProbe, SourceSelector, Step, Toolchain, VersionRequest,
};

fn interpreter(exe: &str, name: &str, major: u8, minor: u8, patch: u8) -> Interpreter {
    Interpreter {
        implementation_name: name.to_string(),
        major,
        minor,
        patch,
        prefix: "/usr".to_string(),
        sys_executable: exe.to_string(),
        scripts: "/usr/bin".to_string(),
        purelib: "/usr/lib/site-packages".to_string(),
        platlib: "/usr/lib/site-packages".to_string(),
        is_virtualenv: false,
        target: None,
    }
}

/// What the outside world answers while a search runs.
#[derive(Default)]
struct World {
    /// Candidates of each source, in order.
    candidates: Vec<(InterpreterSource, Vec<Result<String, DiscoveryError>>)>,
    /// The outcome of querying each path; a path missing here fails to run.
    interpreters: Vec<(String, Result<Interpreter, DiscoveryError>)>,
    existing: Vec<String>,
    on_path: Vec<(String, String)>,
}

#[derive(Default)]
struct Trace {
    enumerated: Vec<InterpreterSource>,
    queried: Vec<String>,
}

fn run(
    mut search: Search,
    world: &World,
) -> (
    Result<Result<DiscoveredInterpreter, InterpreterNotFound>, DiscoveryError>,
    Trace,
) {
    let mut trace = Trace::default();
    let mut pending: Vec<Result<String, DiscoveryError>> = Vec::new();
    let mut step = search.start();
    loop {
        step = match step {
            Step::Finished(result) => return (result, trace),
            Step::CheckExists(path) => search.on_exists(Ok(world.existing.contains(&path))),
            Step::FindExecutable(name) => search.on_lookup(
                world
                    .on_path
                    .iter()
                    .find(|(n, _)| *n == name)
                    .map(|(_, p)| p.clone()),
            ),
            Step::Query(_, path) => {
                trace.queried.push(path.clone());
                let result = world
                    .interpreters
                    .iter()
                    .find(|(p, _)| *p == path)
                    .map(|(_, r)| r.clone())
                    .unwrap_or(Err(DiscoveryError::Query(QueryError::Other(path))));
                search.on_query(result)
            }
            Step::Enumerate(source) => {
                trace.enumerated.push(source);
                pending = world
                    .candidates
                    .iter()
                    .find(|(s, _)| *s == source)
                    .map(|(_, c)| c.clone())
                    .unwrap_or_default();
                pending.reverse();
                match pending.pop() {
                    Some(c) => search.on_candidate(c),
                    None => search.on_source_exhausted(),
                }
            }
            Step::NextCandidate => match pending.pop() {
                Some(c) => search.on_candidate(c),
                None => search.on_source_exhausted(),
            },
        };
    }
}

fn version_search(v: VersionRequest, sources: SourceSelector) -> Search {
    Search::new(InterpreterRequest::Version(v), sources, Os::Unix)
}

/// Every file that a scan of the search path `path` probes, in order.
fn probed(path: Option<&str>, version: Option<VersionRequest>) -> Vec<String> {
    let value = search_path_value(None, path.map(str::to_string));
    let dirs = split_search_path(&value, Os::Unix);
    let names = search_path_names(version, Os::Unix);
    search_path_probes(&dirs, &names)
        .into_iter()
        .filter(|p| !p.directory.is_empty())
        .map(|p| join(&p.directory, &p.name, Os::Unix))
        .collect()
}

/// The search-path candidates that a scan of `path` would find, given which
/// probed files are executables.
fn scan(path: &str, version: Option<VersionRequest>, executables: &[&str]) -> Vec<String> {
    probed(Some(path), version)
        .into_iter()
        .filter(|p| executables.contains(&p.as_str()))
        .collect()
}

#[test]
fn find_default_interpreter_empty_path() {
    for path in [Some(""), None] {
        assert!(probed(path, None).is_empty());
        let world = World {
            candidates: vec![(InterpreterSource::SearchPath, vec![])],
            ..World::default()
        };
        let (result, trace) = run(default_search(Os::Unix), &world);
        assert!(
            matches!(
                &result,
                Ok(Err(InterpreterNotFound::NoPythonInstallation(sel, Some(VersionRequest::Default))))
                    if *sel == SourceSelector::from_sources(&[InterpreterSource::SearchPath, InterpreterSource::PyLauncher])
            ),
            "With an empty or unset path, no Python installation should be detected got {result:?}"
        );
        // The `py` launcher is consulted on Windows only.
        assert_eq!(trace.enumerated, vec![InterpreterSource::SearchPath]);
    }
}

#[test]
fn find_default_interpreter_invalid_executable() {
    // The empty file is not executable, so the scan does not report it.
    let candidates = scan("/tmp/t", None, &[]);
    let world = World {
        candidates: vec![(
            InterpreterSource::SearchPath,
            candidates.into_iter().map(Ok).collect(),
        )],
        ..World::default()
    };
    let (result, trace) = run(default_search(Os::Unix), &world);
    assert!(matches!(
        result,
        Ok(Err(InterpreterNotFound::NoPythonInstallation(..)))
    ));
    assert!(trace.queried.is_empty());
}

#[test]
fn find_default_interpreter_valid_executable() {
    let candidates = scan("/tmp/t", None, &["/tmp/t/python"]);
    assert_eq!(candidates, vec!["/tmp/t/python"]);
    let world = World {
        candidates: vec![(
            InterpreterSource::SearchPath,
            candidates.into_iter().map(Ok).collect(),
        )],
        interpreters: vec![(
            "/tmp/t/python".to_string(),
            Ok(interpreter("/tmp/t/python", "cpython", 3, 12, 1)),
        )],
        ..World::default()
    };
    let (result, _) = run(default_search(Os::Unix), &world);
    assert!(
        matches!(
            result,
            Ok(Ok(DiscoveredInterpreter {
                source: InterpreterSource::SearchPath,
                interpreter: _
            }))
        ),
        "With a valid executable, we should find it; got {result:?}"
    );
}

#[test]
fn find_default_interpreter_valid_executable_after_invalid() {
    let path = "/tmp/t/missing:/tmp/t/empty:/tmp/t/bad:/tmp/t/good";
    // `bad/python` is an empty file: probed, but not an executable.
    assert!(probed(Some(path), None).contains(&"/tmp/t/bad/python".to_string()));
    let candidates = scan(path, None, &["/tmp/t/good/python"]);
    assert_eq!(candidates, vec!["/tmp/t/good/python"]);
    let world = World {
        candidates: vec![(
            InterpreterSource::SearchPath,
            candidates.into_iter().map(Ok).collect(),
        )],
        interpreters: vec![(
            "/tmp/t/good/python".to_string(),
            Ok(interpreter("/tmp/t/good/python", "cpython", 3, 12, 1)),
        )],
        ..World::default()
    };
    let (result, _) = run(default_search(Os::Unix), &world);
    assert!(
        matches!(
            result,
            Ok(Ok(DiscoveredInterpreter {
                source: InterpreterSource::SearchPath,
                interpreter: _
            }))
        ),
        "We should skip the bad executable in favor of the good one; got {result:?}"
    );
    assert_eq!(
        result.unwrap().unwrap().interpreter().sys_executable,
        "/tmp/t/good/python"
    );
}

#[test]
fn implementation_search_skips_failing_interpreters() {
    let path = "/tmp/t/missing:/tmp/t/empty:/tmp/t/bad:/tmp/t/good";
    // Here `bad/python` is an executable whose introspection fails.
    let candidates = scan(path, None, &["/tmp/t/bad/python", "/tmp/t/good/python"]);
    assert_eq!(candidates, vec!["/tmp/t/bad/python", "/tmp/t/good/python"]);
    let world = World {
        candidates: vec![(
            InterpreterSource::SearchPath,
            candidates.into_iter().map(Ok).collect(),
        )],
        interpreters: vec![
            (
                "/tmp/t/bad/python".to_string(),
                Err(DiscoveryError::Query(QueryError::QueryScript {
                    path: "/tmp/t/bad/python".to_string(),
                    message: "exec format error".to_string(),
                })),
            ),
            (
                "/tmp/t/good/python".to_string(),
                Ok(interpreter("/tmp/t/good/python", "cpython", 3, 12, 1)),
            ),
        ],
        ..World::default()
    };
    let search = Search::new(
        InterpreterRequest::Implementation(ImplementationName::Cpython),
        SourceSelector::from_sources(&[InterpreterSource::SearchPath, InterpreterSource::PyLauncher]),
        Os::Unix,
    );
    let (result, trace) = run(search, &world);
    assert_eq!(
        result.unwrap().unwrap().interpreter().sys_executable,
        "/tmp/t/good/python"
    );
    assert_eq!(trace.queried, vec!["/tmp/t/bad/python", "/tmp/t/good/python"]);
}

#[test]
fn version_search_stops_at_a_failed_query() {
    let world = World {
        candidates: vec![(
            InterpreterSource::SearchPath,
            vec![Ok("/a/python".to_string()), Ok("/b/python".to_string())],
        )],
        interpreters: vec![(
            "/a/python".to_string(),
            Err(DiscoveryError::Query(QueryError::QueryScript {
                path: "/a/python".to_string(),
                message: "boom".to_string(),
            })),
        )],
        ..World::default()
    };
    let (result, trace) = run(default_search(Os::Unix), &world);
    assert!(matches!(result, Err(DiscoveryError::Query(_))));
    assert_eq!(trace.queried, vec!["/a/python"]);
}

#[test]
fn first_candidate_comes_from_earliest_source() {
    let world = World {
        candidates: vec![
            (InterpreterSource::SearchPath, vec![Ok("/usr/bin/python3".to_string())]),
            (InterpreterSource::ActiveEnvironment, vec![Ok("/venv/bin/python".to_string())]),
            (InterpreterSource::ManagedToolchain, vec![Ok("/managed/python".to_string())]),
        ],
        interpreters: vec![
            ("/usr/bin/python3".to_string(), Ok(interpreter("/usr/bin/python3", "cpython", 3, 12, 0))),
            ("/venv/bin/python".to_string(), Ok(interpreter("/venv/bin/python", "cpython", 3, 11, 0))),
            ("/managed/python".to_string(), Ok(interpreter("/managed/python", "cpython", 3, 10, 0))),
        ],
        ..World::default()
    };
    let (result, trace) = run(version_search(VersionRequest::Default, SourceSelector::All), &world);
    let found = result.unwrap().unwrap();
    assert_eq!(*found.source(), InterpreterSource::ActiveEnvironment);
    assert_eq!(trace.enumerated, vec![InterpreterSource::ActiveEnvironment]);
}

#[test]
fn match_in_earlier_source_short_circuits() {
    let world = World {
        candidates: vec![
            (InterpreterSource::DiscoveredEnvironment, vec![Ok("/p/.venv/bin/python".to_string())]),
            (InterpreterSource::SearchPath, vec![Ok("/usr/bin/python3".to_string())]),
        ],
        interpreters: vec![
            ("/p/.venv/bin/python".to_string(), Ok(interpreter("/p/.venv/bin/python", "cpython", 3, 12, 4))),
            ("/usr/bin/python3".to_string(), Ok(interpreter("/usr/bin/python3", "cpython", 3, 12, 4))),
        ],
        ..World::default()
    };
    let (result, trace) = run(
        version_search(VersionRequest::MajorMinor(3, 12), SourceSelector::All),
        &world,
    );
    assert_eq!(*result.unwrap().unwrap().source(), InterpreterSource::DiscoveredEnvironment);
    assert_eq!(trace.queried.len(), 1);
    assert!(!trace.enumerated.contains(&InterpreterSource::SearchPath));
}

#[test]
fn mismatched_candidates_move_on_to_later_sources() {
    let world = World {
        candidates: vec![
            (InterpreterSource::ActiveEnvironment, vec![Ok("/venv/bin/python".to_string())]),
            (InterpreterSource::SearchPath, vec![Ok("/usr/bin/python3.12".to_string())]),
        ],
        interpreters: vec![
            ("/venv/bin/python".to_string(), Ok(interpreter("/venv/bin/python", "cpython", 3, 11, 0))),
            ("/usr/bin/python3.12".to_string(), Ok(interpreter("/usr/bin/python3.12", "cpython", 3, 12, 0))),
        ],
        ..World::default()
    };
    let (result, trace) = run(
        version_search(VersionRequest::MajorMinor(3, 12), SourceSelector::All),
        &world,
    );
    assert_eq!(*result.unwrap().unwrap().source(), InterpreterSource::SearchPath);
    assert_eq!(
        trace.enumerated,
        vec![
            InterpreterSource::ActiveEnvironment,
            InterpreterSource::DiscoveredEnvironment,
            InterpreterSource::ManagedToolchain,
            InterpreterSource::SearchPath
        ]
    );
}

#[test]
fn no_matching_version_reports_the_request() {
    let world = World::default();
    let sel = SourceSelector::from_sources(&[InterpreterSource::SearchPath]);
    let (result, _) = run(version_search(VersionRequest::MajorMinor(3, 7), sel.clone()), &world);
    assert_eq!(
        result,
        Ok(Err(InterpreterNotFound::NoMatchingVersion(sel, VersionRequest::MajorMinor(3, 7))))
    );
}

#[test]
fn implementation_version_filters_pypy() {
    let request = InterpreterRequest::parse("pypy@3.12", Os::Unix, false);
    let world = World {
        candidates: vec![(
            InterpreterSource::SearchPath,
            vec![
                Ok("/a/python3.12".to_string()),
                Ok("/b/pypy3.11".to_string()),
                Ok("/c/pypy3.12".to_string()),
            ],
        )],
        interpreters: vec![
            ("/a/python3.12".to_string(), Ok(interpreter("/a/python3.12", "cpython", 3, 12, 0))),
            ("/b/pypy3.11".to_string(), Ok(interpreter("/b/pypy3.11", "pypy", 3, 11, 0))),
            ("/c/pypy3.12".to_string(), Ok(interpreter("/c/pypy3.12", "pypy", 3, 12, 1))),
        ],
        ..World::default()
    };
    let search = Search::new(request, SourceSelector::All, Os::Unix);
    assert_eq!(search.prefilter(), Some(VersionRequest::MajorMinor(3, 12)));
    let (result, _) = run(search, &world);
    assert_eq!(result.unwrap().unwrap().interpreter().sys_executable, "/c/pypy3.12");
}

#[test]
fn implementation_not_found() {
    let sel = SourceSelector::from_sources(&[InterpreterSource::SearchPath]);
    let search = Search::new(
        InterpreterRequest::Implementation(ImplementationName::PyPy),
        sel.clone(),
        Os::Unix,
    );
    let (result, _) = run(search, &World::default());
    assert_eq!(
        result,
        Ok(Err(InterpreterNotFound::NoMatchingImplementation(sel, ImplementationName::PyPy)))
    );
}

#[test]
fn enumeration_error_ends_the_search() {
    let world = World {
        candidates: vec![(
            InterpreterSource::ManagedToolchain,
            vec![Err(DiscoveryError::ManagedToolchain("unreadable".to_string()))],
        )],
        ..World::default()
    };
    let (result, _) = run(version_search(VersionRequest::Default, SourceSelector::All), &world);
    assert_eq!(
        result,
        Err(DiscoveryError::ManagedToolchain("unreadable".to_string()))
    );
}

#[test]
fn file_requests() {
    let file = InterpreterRequest::File("/opt/python".to_string());
    let (result, _) = run(
        Search::new(file.clone(), SourceSelector::virtualenvs(), Os::Unix),
        &World::default(),
    );
    assert_eq!(
        result,
        Err(DiscoveryError::SourceNotSelected(file.clone(), InterpreterSource::ProvidedPath))
    );

    let (result, _) = run(Search::new(file.clone(), SourceSelector::All, Os::Unix), &World::default());
    assert_eq!(
        result,
        Ok(Err(InterpreterNotFound::FileNotFound("/opt/python".to_string())))
    );

    let world = World {
        existing: vec!["/opt/python".to_string()],
        interpreters: vec![(
            "/opt/python".to_string(),
            Ok(interpreter("/opt/python", "cpython", 2, 7, 18)),
        )],
        ..World::default()
    };
    let (result, _) = run(Search::new(file, SourceSelector::All, Os::Unix), &world);
    let found = result.unwrap().unwrap();
    assert_eq!(*found.source(), InterpreterSource::ProvidedPath);
    assert!(is_unsupported_python(found.interpreter()));
}

#[test]
fn directory_requests() {
    let dir = InterpreterRequest::Directory("/p/.venv".to_string());
    let world = World {
        existing: vec!["/p/.venv".to_string()],
        ..World::default()
    };
    let (result, _) = run(Search::new(dir.clone(), SourceSelector::All, Os::Unix), &world);
    assert_eq!(
        result,
        Ok(Err(InterpreterNotFound::ExecutableNotFoundInDirectory(
            "/p/.venv".to_string(),
            "/p/.venv/bin/python".to_string()
        )))
    );

    let world = World {
        existing: vec!["/p/.venv".to_string(), "/p/.venv/bin/python".to_string()],
        interpreters: vec![(
            "/p/.venv/bin/python".to_string(),
            Ok(interpreter("/p/.venv/bin/python", "cpython", 3, 12, 0)),
        )],
        ..World::default()
    };
    let (result, _) = run(Search::new(dir, SourceSelector::All, Os::Unix), &world);
    assert_eq!(
        result.unwrap().unwrap().interpreter().sys_executable,
        "/p/.venv/bin/python"
    );
}

#[test]
fn executable_name_requests() {
    let name = InterpreterRequest::ExecutableName("foopython".to_string());
    let (result, _) = run(Search::new(name.clone(), SourceSelector::All, Os::Unix), &World::default());
    assert_eq!(
        result,
        Ok(Err(InterpreterNotFound::ExecutableNotFoundInSearchPath("foopython".to_string())))
    );
    let world = World {
        on_path: vec![("foopython".to_string(), "/usr/bin/foopython".to_string())],
        interpreters: vec![(
            "/usr/bin/foopython".to_string(),
            Ok(interpreter("/usr/bin/foopython", "cpython", 3, 12, 0)),
        )],
        ..World::default()
    };
    let (result, _) = run(Search::new(name, SourceSelector::All, Os::Unix), &world);
    assert_eq!(*result.unwrap().unwrap().source(), InterpreterSource::SearchPath);
}

fn run_best(request: InterpreterRequest, world: &World) -> (Result<Result<DiscoveredInterpreter, InterpreterNotFound>, DiscoveryError>, u8) {
    let (mut best, mut next) = BestMatch::new(request);
    loop {
        let search = Search::new(next, SourceSelector::All, Os::Unix);
        let (result, _) = run(search, world);
        match best.on_result(result) {
            BestStep::Finished(result) => return (result, best.pass),
            BestStep::Search(request) => next = request,
        }
    }
}

#[test]
fn best_match_relaxes_the_patch() {
    let world = World {
        candidates: vec![(InterpreterSource::SearchPath, vec![Ok("/usr/bin/python3.12".to_string())])],
        interpreters: vec![(
            "/usr/bin/python3.12".to_string(),
            Ok(interpreter("/usr/bin/python3.12", "cpython", 3, 12, 4)),
        )],
        ..World::default()
    };
    let (result, pass) = run_best(
        InterpreterRequest::Version(VersionRequest::MajorMinorPatch(3, 12, 1)),
        &world,
    );
    assert_eq!(pass, 2);
    assert_eq!(result.unwrap().unwrap().interpreter().patch, 4);
}

#[test]
fn best_match_falls_back_to_any_version() {
    let world = World {
        candidates: vec![(InterpreterSource::SearchPath, vec![Ok("/usr/bin/python3".to_string())])],
        interpreters: vec![(
            "/usr/bin/python3".to_string(),
            Ok(interpreter("/usr/bin/python3", "cpython", 3, 11, 2)),
        )],
        ..World::default()
    };
    let (result, pass) = run_best(
        InterpreterRequest::Version(VersionRequest::MajorMinorPatch(3, 12, 1)),
        &world,
    );
    assert_eq!(pass, 3);
    assert_eq!(result.unwrap().unwrap().interpreter().minor, 11);
}

#[test]
fn best_match_reports_no_installation() {
    let (result, pass) = run_best(
        InterpreterRequest::Version(VersionRequest::MajorMinor(3, 12)),
        &World::default(),
    );
    assert_eq!(pass, 3);
    assert!(matches!(
        result,
        Ok(Err(InterpreterNotFound::NoPythonInstallation(..)))
    ));
}

#[test]
fn best_match_stops_on_errors() {
    let mut best = BestMatch::new(InterpreterRequest::Version(VersionRequest::Major(3))).0;
    let step = best.on_result(Err(DiscoveryError::Io("denied".to_string())));
    assert!(matches!(step, BestStep::Finished(Err(DiscoveryError::Io(_)))));
    let mut best = BestMatch::new(InterpreterRequest::Version(VersionRequest::Major(3))).0;
    let step = best.on_result(Ok(Err(InterpreterNotFound::NoMatchingVersion(
        SourceSelector::All,
        VersionRequest::Major(3),
    ))));
    assert!(matches!(
        step,
        BestStep::Search(InterpreterRequest::Version(VersionRequest::Default))
    ));
    assert_eq!(best.pass, 3);
    let step = best.on_result(Ok(Err(InterpreterNotFound::NoMatchingVersion(
        SourceSelector::All,
        VersionRequest::Default,
    ))));
    assert!(matches!(
        step,
        BestStep::Finished(Ok(Err(InterpreterNotFound::NoPythonInstallation(SourceSelector::All, None))))
    ));
}

#[test]
fn managed_toolchains_are_prefiltered() {
    let toolchains = vec![
        Toolchain {
            executable: "/m/cpython-3.12.1/bin/python3".to_string(),
            version: PythonVersion { major: 3, minor: 12, patch: Some(1) },
        },
        Toolchain {
            executable: "/m/cpython-3.11.9/bin/python3".to_string(),
            version: PythonVersion { major: 3, minor: 11, patch: Some(9) },
        },
        Toolchain {
            executable: "/m/cpython-3.12.3/bin/python3".to_string(),
            version: PythonVersion { major: 3, minor: 12, patch: Some(3) },
        },
    ];
    assert_eq!(
        managed_candidates(&toolchains, Some(VersionRequest::MajorMinor(3, 12))),
        vec!["/m/cpython-3.12.1/bin/python3", "/m/cpython-3.12.3/bin/python3"]
    );
    assert_eq!(
        managed_candidates(&toolchains, Some(VersionRequest::MajorMinorPatch(3, 11, 9))),
        vec!["/m/cpython-3.11.9/bin/python3"]
    );
    assert_eq!(managed_candidates(&toolchains, None).len(), 3);
    assert!(managed_candidates(&toolchains, Some(VersionRequest::Major(2))).is_empty());
}

#[test]
fn launcher_entries_are_prefiltered() {
    let entries = vec![
        LauncherEntry { major: 3, minor: 12, executable_path: "C:\\Py312\\python.exe".to_string() },
        LauncherEntry { major: 3, minor: 11, executable_path: "C:\\Py311\\python.exe".to_string() },
    ];
    assert_eq!(
        launcher_candidates(&entries, Some(VersionRequest::MajorMinor(3, 11))),
        vec!["C:\\Py311\\python.exe"]
    );
    assert_eq!(
        launcher_candidates(&entries, Some(VersionRequest::MajorMinorPatch(3, 11, 2))).len(),
        2
    );
    assert_eq!(launcher_candidates(&entries, None).len(), 2);
}

#[test]
fn search_path_is_scanned_directory_by_directory() {
    assert_eq!(
        search_path_value(Some("/override".to_string()), Some("/usr/bin".to_string())),
        "/override"
    );
    assert_eq!(search_path_value(None, Some("/usr/bin".to_string())), "/usr/bin");
    assert_eq!(search_path_value(None, None), "");
    assert_eq!(split_search_path("/a::/b", Os::Unix), vec!["/a", "", "/b"]);
    assert_eq!(split_search_path("", Os::Unix), vec![""]);
    assert_eq!(split_search_path("C:\\a;C:\\b", Os::Windows), vec!["C:\\a", "C:\\b"]);

    let dirs = vec!["/a".to_string(), "/b".to_string()];
    let names = search_path_names(Some(VersionRequest::MajorMinor(3, 12)), Os::Unix);
    let probes = search_path_probes(&dirs, &names);
    let pairs: Vec<(String, String)> = probes
        .into_iter()
        .map(|SearchProbe { directory, name }| (directory, name))
        .collect();
    let expected: Vec<(String, String)> = [
        ("/a", "python3.12"),
        ("/a", "python3"),
        ("/a", "python"),
        ("/b", "python3.12"),
        ("/b", "python3"),
        ("/b", "python"),
    ]
    .iter()
    .map(|(d, n)| (d.to_string(), n.to_string()))
    .collect();
    assert_eq!(pairs, expected);
    assert_eq!(
        search_path_names(None, Os::Windows),
        vec!["python3.exe", "python.exe", "python.bat"]
    );
}

#[test]
fn windows_store_shims_are_recognised() {
    let alias = "C:\\Users\\me\\AppData\\Local\\Microsoft\\WindowsApps\\python3.exe";
    let redirect = "xx\\AppInstallerPythonRedirector.exe yy";
    assert!(is_windows_store_shim(Os::Windows, alias, Some(redirect)));
    assert!(!is_windows_store_shim(Os::Unix, alias, Some(redirect)));
    assert!(!is_windows_store_shim(Os::Windows, alias, None));
    assert!(!is_windows_store_shim(Os::Windows, alias, Some("C:\\Python312\\python.exe")));
    assert!(!is_windows_store_shim(
        Os::Windows,
        "Microsoft\\WindowsApps\\python.exe",
        Some(redirect)
    ));
    assert!(!is_windows_store_shim(
        Os::Windows,
        "C:\\Users\\me\\AppData\\Local\\Microsoft\\WindowsApps\\pythonw.exe",
        Some(redirect)
    ));
}

#[test]
fn environment_executables() {
    assert_eq!(virtualenv_python_executable("/p/.venv", Os::Unix), "/p/.venv/bin/python");
    assert_eq!(virtualenv_python_executable("/p/.venv/", Os::Unix), "/p/.venv/bin/python");
    assert_eq!(
        virtualenv_python_executable("C:\\p\\.venv", Os::Windows),
        "C:\\p\\.venv\\Scripts\\python.exe"
    );
    assert_eq!(join("/a", "/abs", Os::Unix), "/abs");
    assert_eq!(join("", "rel", Os::Unix), "rel");
}

#[test]
fn not_found_messages() {
    let sel = SourceSelector::from_sources(&[InterpreterSource::SearchPath, InterpreterSource::PyLauncher]);
    assert_eq!(
        InterpreterNotFound::NoPythonInstallation(sel.clone(), Some(VersionRequest::Default)).to_string(Os::Unix),
        "No Python default installation found in search path or `py` launcher output"
    );
    assert_eq!(
        InterpreterNotFound::NoPythonInstallation(SourceSelector::All, None).to_string(Os::Unix),
        "No Python installation found in all sources"
    );
    assert_eq!(
        InterpreterNotFound::NoMatchingVersion(sel.clone(), VersionRequest::MajorMinor(3, 12)).to_string(Os::Unix),
        "No interpreter found for Python 3.12 in search path or `py` launcher output"
    );
    assert_eq!(
        InterpreterNotFound::NoMatchingVersion(SourceSelector::All, VersionRequest::Default).to_string(Os::Unix),
        "No Python interpreter found in all sources"
    );
    assert_eq!(
        InterpreterNotFound::NoMatchingImplementationVersion(
            SourceSelector::All,
            ImplementationName::PyPy,
            VersionRequest::MajorMinor(3, 10)
        )
        .to_string(Os::Unix),
        "No interpreter found for pypy 3.10 in all sources"
    );
    assert_eq!(
        InterpreterNotFound::ExecutableNotFoundInDirectory(
            "/p/.venv".to_string(),
            "/p/.venv/bin/python".to_string()
        )
        .to_string(Os::Unix),
        "Interpreter directory `/p/.venv` does not contain Python executable at `bin/python`"
    );
    assert_eq!(
        InterpreterNotFound::ExecutableNotFoundInDirectory("/p".to_string(), "/q/python".to_string())
            .to_string(Os::Unix),
        "Interpreter directory `/p` does not contain Python executable at `/q/python`"
    );
    assert_eq!(
        InterpreterNotFound::ExecutableNotFoundInSearchPath("foo".to_string()).to_string(Os::Unix),
        "Requested Python executable `foo` not found in PATH"
    );
    assert_eq!(
        InterpreterNotFound::FileNotFound("/x".to_string()).to_string(Os::Unix),
        "Requested interpreter path `/x` does not exist"
    );
}

#[test]
fn requests_for_declared_versions() {
    let declared = PythonVersion { major: 3, minor: 12, patch: Some(1) };
    assert_eq!(
        VersionRequest::from_python_version(&declared),
        VersionRequest::MajorMinorPatch(3, 12, 1)
    );
    let declared = PythonVersion { major: 3, minor: 13, patch: None };
    assert_eq!(
        VersionRequest::from_python_version(&declared),
        VersionRequest::MajorMinor(3, 13)
    );
    assert_eq!("3.12".parse::<VersionRequest>(), Ok(VersionRequest::MajorMinor(3, 12)));
}

#[test]
fn search_error_messages() {
    let request = InterpreterRequest::File("/opt/python".to_string());
    assert_eq!(
        DiscoveryError::SourceNotSelected(request, InterpreterSource::ProvidedPath).to_string(),
        "Interpreter discovery for `file /opt/python` requires `provided path` but it is not selected"
    );
    assert_eq!(
        DiscoveryError::Query(QueryError::QueryScript {
            path: "/x/python".to_string(),
            message: "boom".to_string()
        })
        .to_string(),
        "Querying `/x/python` failed: boom"
    );
}

#[test]
fn remaining_outcomes() {
    let sel = SourceSelector::from_sources(&[InterpreterSource::SearchPath]);
    let search = Search::new(
        InterpreterRequest::ImplementationVersion(ImplementationName::PyPy, VersionRequest::Major(3)),
        sel.clone(),
        Os::Unix,
    );
    let (result, _) = run(search, &World::default());
    assert_eq!(
        result,
        Ok(Err(InterpreterNotFound::NoMatchingImplementationVersion(
            sel,
            ImplementationName::PyPy,
            VersionRequest::Major(3)
        )))
    );

    let name = InterpreterRequest::ExecutableName("python3".to_string());
    let (result, _) = run(
        Search::new(name.clone(), SourceSelector::virtualenvs(), Os::Unix),
        &World::default(),
    );
    assert_eq!(
        result,
        Err(DiscoveryError::SourceNotSelected(name, InterpreterSource::SearchPath))
    );

    let dir = InterpreterRequest::Directory("/missing".to_string());
    let (result, _) = run(Search::new(dir, SourceSelector::All, Os::Unix), &World::default());
    assert_eq!(
        result,
        Ok(Err(InterpreterNotFound::FileNotFound("/missing".to_string())))
    );
}

#[test]
fn store_alias_paths_accept_either_separator() {
    let redirect = "\\AppInstallerPythonRedirector.exe";
    assert!(is_windows_store_shim(
        Os::Windows,
        "C:/Users/me/AppData/Local/Microsoft/WindowsApps/python.exe",
        Some(redirect)
    ));
    assert!(!is_windows_store_shim(
        Os::Windows,
        "1:\\Microsoft\\WindowsApps\\python.exe",
        Some(redirect)
    ));
    assert!(is_windows_store_shim(
        Os::Windows,
        "\\\\server\\Microsoft\\WindowsApps\\python3.exe",
        Some(redirect)
    ));
}
