//! Where interpreters come from, and which of those places a search consults.
use vstd::prelude::*;

verus! {

/// The origin of a discovered interpreter. The order of the variants is the
/// default discovery order.
#[derive(Copy, Clone, Debug, PartialEq, Eq, Structural, Hash, PartialOrd, Ord)]
pub enum InterpreterSource {
    /// The interpreter path was provided directly.
    ProvidedPath,
    /// An environment was active, e.g. via `VIRTUAL_ENV`.
    ActiveEnvironment,
    /// An environment was discovered, e.g. via `.venv`.
    DiscoveredEnvironment,
    /// The interpreter was found among the managed toolchains.
    ManagedToolchain,
    /// An executable was found in the search path, i.e. `PATH`.
    SearchPath,
    /// An executable was found via the `py` launcher.
    PyLauncher,
}

/// The policy for interpreters outside virtual environments.
#[derive(Copy, Clone, Debug, PartialEq, Eq, Structural)]
pub enum SystemPython {
    /// Do not allow a system Python.
    Disallowed,
    /// Allow a system Python to be used if no virtual environment is active.
    Allowed,
    /// Ignore virtual environments and require a system Python.
    Required,
}

/// The sources to consider when finding an interpreter.
#[derive(Clone, Debug, PartialEq, Eq)]
pub enum SourceSelector {
    All,
    /// The selected sources, each once, in discovery order.
    Only(Vec<InterpreterSource>),
}

pub open spec fn rank(s: InterpreterSource) -> nat {
    match s {
        InterpreterSource::ProvidedPath => 0,
        InterpreterSource::ActiveEnvironment => 1,
        InterpreterSource::DiscoveredEnvironment => 2,
        InterpreterSource::ManagedToolchain => 3,
        InterpreterSource::SearchPath => 4,
        InterpreterSource::PyLauncher => 5,
    }
}

/// The source of a given rank.
pub open spec fn source_at(k: nat) -> InterpreterSource {
    if k == 0 {
        InterpreterSource::ProvidedPath
    } else if k == 1 {
        InterpreterSource::ActiveEnvironment
    } else if k == 2 {
        InterpreterSource::DiscoveredEnvironment
    } else if k == 3 {
        InterpreterSource::ManagedToolchain
    } else if k == 4 {
        InterpreterSource::SearchPath
    } else {
        InterpreterSource::PyLauncher
    }
}

pub proof fn lemma_rank_source(s: InterpreterSource)
    ensures
        rank(s) < 6,
        source_at(rank(s)) == s,
{
}

/// Whether `sel` consults `s`.
pub open spec fn selects(sel: SourceSelector, s: InterpreterSource) -> bool {
    match sel {
        SourceSelector::All => true,
        SourceSelector::Only(v) => v@.contains(s),
    }
}

/// The sources that `sel` consults.
pub open spec fn selected(sel: SourceSelector) -> Set<InterpreterSource> {
    Set::new(|s: InterpreterSource| selects(sel, s))
}

pub open spec fn strictly_ordered(v: Seq<InterpreterSource>) -> bool {
    forall|i: int, j: int| 0 <= i < j < v.len() ==> rank(v[i]) < rank(v[j])
}

impl SourceSelector {
    /// A selector names at least one source, each once, in discovery order.
    pub open spec fn wf(&self) -> bool {
        match self {
            SourceSelector::All => true,
            SourceSelector::Only(v) => v@.len() > 0 && strictly_ordered(v@),
        }
    }
}

pub open spec fn source_text(s: InterpreterSource) -> Seq<char> {
    match s {
        InterpreterSource::ProvidedPath => "provided path"@,
        InterpreterSource::ActiveEnvironment => "active environment"@,
        InterpreterSource::DiscoveredEnvironment => "discovered environment"@,
        InterpreterSource::ManagedToolchain => "managed toolchain"@,
        InterpreterSource::SearchPath => "search path"@,
        InterpreterSource::PyLauncher => "`py` launcher output"@,
    }
}

/// Items joined by `, `.
pub open spec fn comma_list(items: Seq<Seq<char>>) -> Seq<char>
    decreases items.len(),
{
    if items.len() == 0 {
        Seq::empty()
    } else if items.len() == 1 {
        items[0]
    } else {
        comma_list(items.drop_last()) + ", "@ + items.last()
    }
}

/// Items in natural language: `a`, `a or b`, `a, b, or c`.
pub open spec fn alternatives_text(items: Seq<Seq<char>>) -> Seq<char> {
    if items.len() == 1 {
        items[0]
    } else if items.len() == 2 {
        items[0] + " or "@ + items[1]
    } else {
        comma_list(items.drop_last()) + ", or "@ + items.last()
    }
}

pub open spec fn selector_text(sel: SourceSelector) -> Seq<char> {
    match sel {
        SourceSelector::All => "all sources"@,
        SourceSelector::Only(v) => alternatives_text(v@.map_values(|s: InterpreterSource| source_text(s))),
    }
}

impl InterpreterSource {
    /// The position of the source in discovery order.
    pub fn rank(self) -> (r: u8)
        ensures
            r as nat == rank(self),
    {
        match self {
            InterpreterSource::ProvidedPath => 0,
            InterpreterSource::ActiveEnvironment => 1,
            InterpreterSource::DiscoveredEnvironment => 2,
            InterpreterSource::ManagedToolchain => 3,
            InterpreterSource::SearchPath => 4,
            InterpreterSource::PyLauncher => 5,
        }
    }

    /// The source of rank `k`.
    pub fn at_rank(k: u8) -> (r: InterpreterSource)
        requires
            k < 6,
        ensures
            r == source_at(k as nat),
            rank(r) == k,
    {
        if k == 0 {
            InterpreterSource::ProvidedPath
        } else if k == 1 {
            InterpreterSource::ActiveEnvironment
        } else if k == 2 {
            InterpreterSource::DiscoveredEnvironment
        } else if k == 3 {
            InterpreterSource::ManagedToolchain
        } else if k == 4 {
            InterpreterSource::SearchPath
        } else {
            InterpreterSource::PyLauncher
        }
    }

    /// The source as named in messages.
    pub fn as_str(self) -> (r: &'static str)
        ensures
            r@ == source_text(self),
    {
        match self {
            InterpreterSource::ProvidedPath => "provided path",
            InterpreterSource::ActiveEnvironment => "active environment",
            InterpreterSource::DiscoveredEnvironment => "discovered environment",
            InterpreterSource::ManagedToolchain => "managed toolchain",
            InterpreterSource::SearchPath => "search path",
            InterpreterSource::PyLauncher => "`py` launcher output",
        }
    }
}

impl SourceSelector {
    /// A selector of exactly the given sources.
    pub fn from_sources(sources: &[InterpreterSource]) -> (r: SourceSelector)
        requires
            sources@.len() > 0,
        ensures
            r.wf(),
            r is Only,
            forall|s: InterpreterSource| selects(r, s) <==> sources@.contains(s),
    {
        let mut chosen: Vec<InterpreterSource> = Vec::new();
        let mut k: u8 = 0;
        while k < 6
            invariant
                k <= 6,
                strictly_ordered(chosen@),
                forall|i: int| 0 <= i < chosen@.len() ==> rank(#[trigger] chosen@[i]) < k,
                forall|s: InterpreterSource|
                    rank(s) < k ==> (chosen@.contains(s) <==> sources@.contains(s)),
                forall|s: InterpreterSource| chosen@.contains(s) ==> sources@.contains(s),
            decreases 6 - k,
        {
            let s = InterpreterSource::at_rank(k);
            let mut found = false;
            let mut i: usize = 0;
            while i < sources.len()
                invariant
                    i <= sources@.len(),
                    found <==> exists|j: int| 0 <= j < i && sources@[j] == s,
                decreases sources.len() - i,
            {
                if sources[i] == s {
                    found = true;
                }
                i = i + 1;
            }
            let ghost before = chosen@;
            if found {
                chosen.push(s);
            }
            proof {
                assert(rank(s) == k);
                assert forall|t: InterpreterSource| #[trigger] rank(t) < k + 1 implies (
                chosen@.contains(t) <==> sources@.contains(t)) by {
                    lemma_rank_source(t);
                    if rank(t) == k {
                        assert(t == s);
                        if found {
                            assert(chosen@[chosen@.len() - 1] == t);
                        } else {
                            if before.contains(t) {
                                let j = choose|j: int| 0 <= j < before.len() && before[j] == t;
                                assert(rank(before[j]) < k);
                            }
                            if sources@.contains(t) {
                                let j = choose|j: int| 0 <= j < sources@.len() && sources@[j] == t;
                                assert(sources@[j] == s);
                            }
                        }
                    } else {
                        if chosen@.contains(t) {
                            let j = choose|j: int| 0 <= j < chosen@.len() && chosen@[j] == t;
                            if j < before.len() {
                                assert(before[j] == t);
                            }
                        }
                        if before.contains(t) {
                            let j = choose|j: int| 0 <= j < before.len() && before[j] == t;
                            assert(chosen@[j] == t);
                        }
                    }
                }
                assert forall|t: InterpreterSource| chosen@.contains(t) implies sources@.contains(
                t) by {
                    let j = choose|j: int| 0 <= j < chosen@.len() && chosen@[j] == t;
                    if j < before.len() {
                        assert(before[j] == t);
                    } else {
                        assert(sources@[choose|j: int| 0 <= j < sources@.len() && sources@[j] == s] == s);
                    }
                }
            }
            k = k + 1;
        }
        proof {
            let x = sources@[0];
            lemma_rank_source(x);
            assert(sources@.contains(x));
            assert(chosen@.contains(x));
        }
        SourceSelector::Only(chosen)
    }

    /// Whether this selector includes `source`.
    pub fn contains(&self, source: InterpreterSource) -> (r: bool)
        ensures
            r == selects(*self, source),
    {
        match self {
            SourceSelector::All => true,
            SourceSelector::Only(v) => {
                let mut i: usize = 0;
                while i < v.len()
                    invariant
                        i <= v@.len(),
                        selects(*self, source) == v@.contains(source),
                        forall|j: int| 0 <= j < i ==> v@[j] != source,
                    decreases v.len() - i,
                {
                    if v[i] == source {
                        assert(v@[i as int] == source);
                        assert(v@.contains(source));
                        return true;
                    }
                    i = i + 1;
                }
                false
            },
        }
    }

    /// The selector of virtual environments only.
    pub fn virtualenvs() -> (r: SourceSelector)
        ensures
            r.wf(),
            selected(r) == set![
                InterpreterSource::DiscoveredEnvironment,
                InterpreterSource::ActiveEnvironment,
            ],
    {
        let r = SourceSelector::from_sources(
            &[InterpreterSource::DiscoveredEnvironment, InterpreterSource::ActiveEnvironment],
        );
        proof {
            let s = set![InterpreterSource::DiscoveredEnvironment, InterpreterSource::ActiveEnvironment];
            assert forall|x: InterpreterSource| selected(r).contains(x) <==> s.contains(x) by {
                let a = seq![InterpreterSource::DiscoveredEnvironment, InterpreterSource::ActiveEnvironment];
                if a.contains(x) {
                    let j = choose|j: int| 0 <= j < a.len() && a[j] == x;
                }
                if s.contains(x) {
                    if x == InterpreterSource::DiscoveredEnvironment {
                        assert(a[0] == x);
                    } else {
                        assert(a[1] == x);
                    }
                }
            }
            assert(selected(r) =~= s);
        }
        r
    }
}

/// The sources consulted by default: only managed toolchains when those are
/// forced; the active environment and the search path when the search path is
/// overridden for tests; otherwise by policy.
pub open spec fn default_sources(
    system: SystemPython,
    force_managed: bool,
    test_search_path: bool,
) -> Option<Seq<InterpreterSource>> {
    if force_managed {
        Some(seq![InterpreterSource::ManagedToolchain])
    } else if test_search_path {
        Some(seq![InterpreterSource::ActiveEnvironment, InterpreterSource::SearchPath])
    } else {
        match system {
            SystemPython::Allowed => None,
            SystemPython::Required => Some(
                seq![
                    InterpreterSource::ProvidedPath,
                    InterpreterSource::SearchPath,
                    InterpreterSource::PyLauncher,
                    InterpreterSource::ManagedToolchain,
                ],
            ),
            SystemPython::Disallowed => Some(
                seq![InterpreterSource::DiscoveredEnvironment, InterpreterSource::ActiveEnvironment],
            ),
        }
    }
}

impl SystemPython {
    /// Whether a system Python may be used.
    pub fn is_allowed(&self) -> (r: bool)
        ensures
            r <==> (*self is Allowed || *self is Required),
    {
        match self {
            SystemPython::Disallowed => false,
            _ => true,
        }
    }

    /// Whether a system Python is preferred.
    pub fn is_preferred(&self) -> (r: bool)
        ensures
            r <==> *self is Required,
    {
        match self {
            SystemPython::Required => true,
            _ => false,
        }
    }
}

impl SourceSelector {
    /// The default selector for a policy. `force_managed` tells whether
    /// managed toolchains are forced (`UV_FORCE_MANAGED_PYTHON` is set);
    /// `test_search_path` whether the search path is overridden for tests
    /// (`UV_TEST_PYTHON_PATH` is set).
    pub fn from_env(system: SystemPython, force_managed: bool, test_search_path: bool) -> (r:
        SourceSelector)
        ensures
            r.wf(),
            default_sources(system, force_managed, test_search_path) is None ==> r is All,
            default_sources(system, force_managed, test_search_path) is Some ==> forall|
                s: InterpreterSource,
            | selects(r, s) <==> default_sources(system, force_managed, test_search_path)->0.contains(
                s,
            ),
    {
        if force_managed {
            let a = [InterpreterSource::ManagedToolchain];
            assert(a@ == seq![InterpreterSource::ManagedToolchain]);
            SourceSelector::from_sources(&a)
        } else if test_search_path {
            let a = [InterpreterSource::ActiveEnvironment, InterpreterSource::SearchPath];
            assert(a@ == seq![InterpreterSource::ActiveEnvironment, InterpreterSource::SearchPath]);
            SourceSelector::from_sources(&a)
        } else {
            match system {
                SystemPython::Allowed => SourceSelector::All,
                SystemPython::Required => {
                    let a = [
                        InterpreterSource::ProvidedPath,
                        InterpreterSource::SearchPath,
                        InterpreterSource::PyLauncher,
                        InterpreterSource::ManagedToolchain,
                    ];
                    assert(a@ == seq![
                        InterpreterSource::ProvidedPath,
                        InterpreterSource::SearchPath,
                        InterpreterSource::PyLauncher,
                        InterpreterSource::ManagedToolchain,
                    ]);
                    SourceSelector::from_sources(&a)
                },
                SystemPython::Disallowed => {
                    let a = [
                        InterpreterSource::DiscoveredEnvironment,
                        InterpreterSource::ActiveEnvironment,
                    ];
                    assert(a@ == seq![
                        InterpreterSource::DiscoveredEnvironment,
                        InterpreterSource::ActiveEnvironment,
                    ]);
                    SourceSelector::from_sources(&a)
                },
            }
        }
    }

    /// The selector for messages: `all sources`, or the selected sources in
    /// discovery order, as in `search path, or `py` launcher output`.
    pub fn to_string(&self) -> (r: String)
        requires
            self.wf(),
        ensures
            r@ == selector_text(*self),
    {
        match self {
            SourceSelector::All => String::from_str("all sources"),
            SourceSelector::Only(v) => {
                let ghost items = v@.map_values(|s: InterpreterSource| source_text(s));
                let n = v.len();
                if n == 1 {
                    return String::from_str(v[0].as_str());
                }
                if n == 2 {
                    return String::from_str(v[0].as_str()).concat(" or ").concat(v[1].as_str());
                }
                let mut out = String::from_str(v[0].as_str());
                let mut i: usize = 1;
                assert(items.take(1).drop_last() =~= Seq::<Seq<char>>::empty());
                while i < n - 1
                    invariant
                        n == v@.len(),
                        n > 2,
                        1 <= i <= n - 1,
                        items == v@.map_values(|s: InterpreterSource| source_text(s)),
                        selector_text(*self) == alternatives_text(items),
                        out@ == comma_list(items.take(i as int)),
                    decreases n - i,
                {
                    assert(items.take(i + 1).drop_last() == items.take(i as int));
                    out = out.concat(", ").concat(v[i].as_str());
                    i = i + 1;
                }
                assert(items.drop_last() == items.take(n - 1));
                out.concat(", or ").concat(v[n - 1].as_str())
            },
        }
    }
}

} // verus!
