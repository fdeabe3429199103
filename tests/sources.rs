use uv_interpreter::{InterpreterSource, SourceSelector, SystemPython};

#[test]
fn selector_from_sources_orders_and_dedups() {
    let sel = SourceSelector::from_sources(&[
        InterpreterSource::PyLauncher,
        InterpreterSource::SearchPath,
        InterpreterSource::PyLauncher,
    ]);
    assert_eq!(
        sel,
        SourceSelector::Only(vec![InterpreterSource::SearchPath, InterpreterSource::PyLauncher])
    );
    assert!(sel.contains(InterpreterSource::SearchPath));
    assert!(!sel.contains(InterpreterSource::ActiveEnvironment));
    assert!(SourceSelector::All.contains(InterpreterSource::ManagedToolchain));
}

#[test]
fn selector_defaults_from_environment() {
    let only = |v: Vec<InterpreterSource>| SourceSelector::Only(v);
    assert_eq!(
        SourceSelector::from_env(SystemPython::Allowed, true, true),
        only(vec![InterpreterSource::ManagedToolchain])
    );
    assert_eq!(
        SourceSelector::from_env(SystemPython::Disallowed, false, true),
        only(vec![InterpreterSource::ActiveEnvironment, InterpreterSource::SearchPath])
    );
    assert_eq!(
        SourceSelector::from_env(SystemPython::Allowed, false, false),
        SourceSelector::All
    );
    assert_eq!(
        SourceSelector::from_env(SystemPython::Required, false, false),
        only(vec![
            InterpreterSource::ProvidedPath,
            InterpreterSource::ManagedToolchain,
            InterpreterSource::SearchPath,
            InterpreterSource::PyLauncher,
        ])
    );
    assert_eq!(
        SourceSelector::from_env(SystemPython::Disallowed, false, false),
        SourceSelector::virtualenvs()
    );
    assert_eq!(
        SourceSelector::virtualenvs(),
        only(vec![
            InterpreterSource::ActiveEnvironment,
            InterpreterSource::DiscoveredEnvironment
        ])
    );
}

#[test]
fn selector_text() {
    assert_eq!(SourceSelector::All.to_string(), "all sources");
    assert_eq!(
        SourceSelector::from_sources(&[InterpreterSource::SearchPath]).to_string(),
        "search path"
    );
    assert_eq!(
        SourceSelector::from_sources(&[InterpreterSource::PyLauncher, InterpreterSource::SearchPath])
            .to_string(),
        "search path or `py` launcher output"
    );
    assert_eq!(
        SourceSelector::from_sources(&[
            InterpreterSource::PyLauncher,
            InterpreterSource::SearchPath,
            InterpreterSource::ActiveEnvironment,
            InterpreterSource::ProvidedPath,
        ])
        .to_string(),
        "provided path, active environment, search path, or `py` launcher output"
    );
}

#[test]
fn system_policy() {
    assert!(!SystemPython::Disallowed.is_allowed());
    assert!(SystemPython::Allowed.is_allowed());
    assert!(SystemPython::Required.is_allowed());
    assert!(SystemPython::Required.is_preferred());
    assert!(!SystemPython::Allowed.is_preferred());
}

#[test]
fn source_ranks_follow_discovery_order() {
    let order = [
        InterpreterSource::ProvidedPath,
        InterpreterSource::ActiveEnvironment,
        InterpreterSource::DiscoveredEnvironment,
        InterpreterSource::ManagedToolchain,
        InterpreterSource::SearchPath,
        InterpreterSource::PyLauncher,
    ];
    for (k, s) in order.iter().enumerate() {
        assert_eq!(s.rank() as usize, k);
        assert_eq!(InterpreterSource::at_rank(k as u8), *s);
    }
}
