//! Finding an interpreter that satisfies a request.
//!
//! A [`Search`] makes the decisions of discovery and leaves the work to its
//! caller: each of its methods returns the next [`Step`], which names what to
//! do (check that a path exists, look a name up, produce the candidates of a
//! source, query an interpreter) or holds the outcome.
use vstd::prelude::*;

use crate::implementation::{implementation_text, text_equals, ImplementationName};
use crate::interpreter::Interpreter;
use crate::paths::{venv_executable_text, virtualenv_python_executable};
use crate::platform::{separator_of, Os};
use crate::request::{request_text, starts_with, InterpreterRequest};
use crate::source::{
    lemma_rank_source, rank, selector_text, selects, source_at, source_text, InterpreterSource,
    SourceSelector,
};
use crate::version::{matches_triple, version_text, VersionRequest};

verus! {

/// Why an interpreter could not be queried.
#[derive(Clone, Debug, PartialEq, Eq)]
pub enum QueryError {
    /// The introspection script failed on the interpreter; another
    /// candidate may still do.
    QueryScript { path: String, message: String },
    /// The interpreter could not be run, or its report could not be read.
    Other(String),
}

/// An error that ends a search.
#[derive(Clone, Debug, PartialEq, Eq)]
pub enum Error {
    Io(String),
    /// Retrieving interpreter information failed.
    Query(QueryError),
    /// Listing the managed toolchains failed.
    ManagedToolchain(String),
    /// Inspecting a virtual environment failed.
    VirtualEnv(String),
    /// Running the `py` launcher failed.
    PyLauncher(String),
    /// The request needs a source that the selector leaves out.
    SourceNotSelected(InterpreterRequest, InterpreterSource),
}

/// The message for a search error.
pub open spec fn error_text(e: Error) -> Seq<char> {
    match e {
        Error::Io(m) => m@,
        Error::Query(QueryError::QueryScript { path, message }) => "Querying `"@ + path@
            + "` failed: "@ + message@,
        Error::Query(QueryError::Other(m)) => m@,
        Error::ManagedToolchain(m) => m@,
        Error::VirtualEnv(m) => m@,
        Error::PyLauncher(m) => m@,
        Error::SourceNotSelected(r, s) => "Interpreter discovery for `"@ + request_text(r@)
            + "` requires `"@ + source_text(s) + "` but it is not selected"@,
    }
}

impl Error {
    /// The message for the error.
    pub fn to_string(&self) -> (r: String)
        ensures
            r@ == error_text(*self),
    {
        match self {
            Error::Io(m) => m.clone(),
            Error::Query(QueryError::QueryScript { path, message }) => String::from_str("Querying `")
                .concat(path.as_str()).concat("` failed: ").concat(message.as_str()),
            Error::Query(QueryError::Other(m)) => m.clone(),
            Error::ManagedToolchain(m) => m.clone(),
            Error::VirtualEnv(m) => m.clone(),
            Error::PyLauncher(m) => m.clone(),
            Error::SourceNotSelected(r, s) => String::from_str("Interpreter discovery for `").concat(
                r.to_string().as_str(),
            ).concat("` requires `").concat(s.as_str()).concat("` but it is not selected"),
        }
    }
}

/// The structured outcome of a search that found nothing.
#[derive(Clone, Debug, PartialEq, Eq)]
pub enum InterpreterNotFound {
    /// No Python installations were found.
    NoPythonInstallation(SourceSelector, Option<VersionRequest>),
    /// No Python installations with the requested version were found.
    NoMatchingVersion(SourceSelector, VersionRequest),
    /// No Python installations with the requested implementation were found.
    NoMatchingImplementation(SourceSelector, ImplementationName),
    /// No Python installations with the requested implementation and version were found.
    NoMatchingImplementationVersion(SourceSelector, ImplementationName, VersionRequest),
    /// The requested file path does not exist.
    FileNotFound(String),
    /// The requested directory does not exist.
    DirectoryNotFound(String),
    /// The requested directory holds no interpreter where one is expected.
    ExecutableNotFoundInDirectory(String, String),
    /// The executable name was not found on the search path.
    ExecutableNotFoundInSearchPath(String),
    /// An interpreter was found but is not executable.
    FileNotExecutable(String),
}

/// An interpreter and the source that produced it.
#[derive(Clone, Debug, PartialEq, Eq)]
pub struct DiscoveredInterpreter {
    pub source: InterpreterSource,
    pub interpreter: Interpreter,
}

impl DiscoveredInterpreter {
    pub fn source(&self) -> (r: &InterpreterSource)
        ensures
            *r == self.source,
    {
        &self.source
    }

    pub fn interpreter(&self) -> (r: &Interpreter)
        ensures
            *r == self.interpreter,
    {
        &self.interpreter
    }

    pub fn into_interpreter(self) -> (r: Interpreter)
        ensures
            r == self.interpreter,
    {
        self.interpreter
    }
}

/// What the caller of a [`Search`] does next.
#[derive(Debug)]
pub enum Step {
    /// Report through [`Search::on_exists`] whether the path exists.
    CheckExists(String),
    /// Look the executable name up on the search path; report through
    /// [`Search::on_lookup`].
    FindExecutable(String),
    /// Query the interpreter at the path; report through [`Search::on_query`].
    Query(InterpreterSource, String),
    /// Begin producing the candidates of the source, prefiltered by
    /// [`Search::prefilter`]; hand over the first through
    /// [`Search::on_candidate`], or call [`Search::on_source_exhausted`].
    Enumerate(InterpreterSource),
    /// Hand over the next candidate of the current source, or call
    /// [`Search::on_source_exhausted`].
    NextCandidate,
    /// The search is over.
    Finished(Result<Result<DiscoveredInterpreter, InterpreterNotFound>, Error>),
}

/// Where a [`Search`] stands.
#[derive(Clone, Debug, PartialEq, Eq)]
pub enum Phase {
    Ready,
    FileExists,
    DirectoryExists,
    ExecutableExists(String),
    Lookup,
    QueryProvided(InterpreterSource),
    Candidates(InterpreterSource),
    QueryCandidate(InterpreterSource),
    Done,
}

/// The decisions of one search for an interpreter.
pub struct Search {
    pub request: InterpreterRequest,
    pub sources: SourceSelector,
    pub os: Os,
    pub phase: Phase,
}

/// Requests answered by enumerating the sources.
pub open spec fn enumerates(r: InterpreterRequest) -> bool {
    r is Version || r is Implementation || r is ImplementationVersion
}

/// The version by which candidates may be filtered before any query.
pub open spec fn prefilter_of(r: InterpreterRequest) -> Option<VersionRequest> {
    match r {
        InterpreterRequest::Version(v) => Some(v),
        InterpreterRequest::ImplementationVersion(_, v) => Some(v),
        _ => None,
    }
}

/// Whether a queried interpreter satisfies an enumerating request.
pub open spec fn accepts(r: InterpreterRequest, i: Interpreter) -> bool {
    match r {
        InterpreterRequest::Version(v) => matches_triple(v, i.major, i.minor, i.patch),
        InterpreterRequest::Implementation(n) => i.implementation_name@ == implementation_text(n),
        InterpreterRequest::ImplementationVersion(n, v) => i.implementation_name@
            == implementation_text(n) && matches_triple(v, i.major, i.minor, i.patch),
        _ => true,
    }
}

/// Errors past which a search keeps looking: a failed introspection script,
/// while looking for an implementation.
pub open spec fn skips(r: InterpreterRequest, e: Error) -> bool {
    &&& (r is Implementation || r is ImplementationVersion)
    &&& e matches Error::Query(QueryError::QueryScript { .. })
}

/// What an enumerating request reports once every source is exhausted.
pub open spec fn not_found(r: InterpreterRequest, sel: SourceSelector) -> InterpreterNotFound {
    match r {
        InterpreterRequest::Version(VersionRequest::Default) => InterpreterNotFound::NoPythonInstallation(
            sel,
            Some(VersionRequest::Default),
        ),
        InterpreterRequest::Version(v) => InterpreterNotFound::NoMatchingVersion(sel, v),
        InterpreterRequest::Implementation(n) => InterpreterNotFound::NoMatchingImplementation(sel, n),
        InterpreterRequest::ImplementationVersion(n, v) => InterpreterNotFound::NoMatchingImplementationVersion(
            sel,
            n,
            v,
        ),
        _ => InterpreterNotFound::NoPythonInstallation(sel, None),
    }
}

/// Whether a search on `os` asks source `s` for candidates: it is selected,
/// and it is not the `py` launcher off Windows.
pub open spec fn produces(sel: SourceSelector, os: Os, s: InterpreterSource) -> bool {
    selects(sel, s) && !(s is PyLauncher && os is Unix)
}

/// The first source of rank `k` or later that a search on `os` asks for
/// candidates.
pub open spec fn first_selected(sel: SourceSelector, os: Os, k: nat) -> Option<InterpreterSource>
    decreases 6 - k,
{
    if k > 5 {
        None
    } else if produces(sel, os, source_at(k)) {
        Some(source_at(k))
    } else {
        first_selected(sel, os, k + 1)
    }
}

/// Rank of the first source that produces candidates: the active environment.
pub open spec fn first_producer() -> nat {
    1
}

impl Search {
    /// The search is consistent: its phase fits its request.
    pub open spec fn wf(&self) -> bool {
        &&& self.sources.wf()
        &&& match self.phase {
            Phase::FileExists => self.request is File,
            Phase::DirectoryExists => self.request is Directory,
            Phase::ExecutableExists(_) => self.request is Directory,
            Phase::Lookup => self.request is ExecutableName,
            Phase::Candidates(s) => enumerates(self.request) && selects(self.sources, s)
                && 1 <= rank(s),
            Phase::QueryCandidate(s) => enumerates(self.request) && selects(self.sources, s)
                && 1 <= rank(s),
            _ => true,
        }
    }

    /// Same request, selector and platform.
    pub open spec fn same_search(&self, other: Search) -> bool {
        self.request == other.request && self.os == other.os && (self.phase is Done
            || self.sources == other.sources)
    }

    /// The step after every source before rank `k` is done.
    pub open spec fn advance_spec(&self, k: nat, step: Step, next: Search) -> bool {
        match first_selected(self.sources, self.os, k) {
            Some(s) => next.phase == Phase::Candidates(s) && step == Step::Enumerate(s)
                && next.sources == self.sources,
            None => next.phase is Done && step == Step::Finished(
                Ok(Err(not_found(self.request, self.sources))),
            ),
        }
    }

    /// A search for `request` among `sources`.
    pub fn new(request: InterpreterRequest, sources: SourceSelector, os: Os) -> (r: Search)
        requires
            sources.wf(),
        ensures
            r.wf(),
            r == (Search { request, sources, os, phase: Phase::Ready }),
    {
        Search { request, sources, os, phase: Phase::Ready }
    }

    /// The version by which the caller may drop candidates before querying them.
    pub fn prefilter(&self) -> (r: Option<VersionRequest>)
        ensures
            r == prefilter_of(self.request),
    {
        match self.request {
            InterpreterRequest::Version(v) => Some(v),
            InterpreterRequest::ImplementationVersion(_, v) => Some(v),
            _ => None,
        }
    }

    /// End the search, handing the selector to the outcome.
    fn take_sources(&mut self) -> (r: SourceSelector)
        ensures
            r == old(self).sources,
            final(self).request == old(self).request,
            final(self).os == old(self).os,
            final(self).phase is Done,
            final(self).sources.wf(),
    {
        let mut sources = SourceSelector::All;
        std::mem::swap(&mut sources, &mut self.sources);
        self.phase = Phase::Done;
        sources
    }

    /// Move to the first selected source of rank `k` or later, or end the search.
    fn advance(&mut self, k: u8) -> (step: Step)
        requires
            old(self).wf(),
            enumerates(old(self).request),
            1 <= k <= 6,
        ensures
            final(self).wf(),
            final(self).same_search(*old(self)),
            old(self).advance_spec(k as nat, step, *final(self)),
    {
        let mut j: u8 = k;
        while j < 6
            invariant
                1 <= k <= j <= 6,
                *self == *old(self),
                old(self).wf(),
                enumerates(old(self).request),
                first_selected(self.sources, self.os, k as nat) == first_selected(
                    self.sources,
                    self.os,
                    j as nat,
                ),
            decreases 6 - j,
        {
            let s = InterpreterSource::at_rank(j);
            if self.sources.contains(s) && !(s == InterpreterSource::PyLauncher && self.os == Os::Unix) {
                self.phase = Phase::Candidates(s);
                return Step::Enumerate(s);
            }
            j = j + 1;
        }
        let sources = self.take_sources();
        let request = self.request.duplicate();
        Step::Finished(Ok(Err(not_found_exec(request, sources))))
    }
}

/// Whether a queried interpreter satisfies an enumerating request.
fn accepts_exec(r: &InterpreterRequest, i: &Interpreter) -> (b: bool)
    ensures
        b == accepts(*r, *i),
{
    match r {
        InterpreterRequest::Version(v) => v.matches_interpreter(i),
        InterpreterRequest::Implementation(n) => text_equals(i.implementation_name.as_str(), n.as_str()),
        InterpreterRequest::ImplementationVersion(n, v) => text_equals(
            i.implementation_name.as_str(),
            n.as_str(),
        ) && v.matches_interpreter(i),
        _ => true,
    }
}

fn skips_exec(r: &InterpreterRequest, e: &Error) -> (b: bool)
    ensures
        b == skips(*r, *e),
{
    let looking_for_implementation = match r {
        InterpreterRequest::Implementation(_) => true,
        InterpreterRequest::ImplementationVersion(..) => true,
        _ => false,
    };
    looking_for_implementation && match e {
        Error::Query(QueryError::QueryScript { .. }) => true,
        _ => false,
    }
}

/// What a path request reports when a checked path is missing.
pub open spec fn missing(r: InterpreterRequest, phase: Phase) -> InterpreterNotFound {
    match phase {
        Phase::ExecutableExists(exe) => InterpreterNotFound::ExecutableNotFoundInDirectory(
            r->Directory_0,
            exe,
        ),
        Phase::DirectoryExists => InterpreterNotFound::FileNotFound(r->Directory_0),
        _ => InterpreterNotFound::FileNotFound(r->File_0),
    }
}

impl Search {
    /// Begin the search. A path request first checks its source and its path;
    /// a name is looked up on the search path; any other request enumerates
    /// the selected sources from the active environment on.
    pub fn start(&mut self) -> (step: Step)
        requires
            old(self).wf(),
            old(self).phase is Ready,
        ensures
            final(self).wf(),
            final(self).same_search(*old(self)),
            match old(self).request {
                InterpreterRequest::File(p) => if selects(
                    old(self).sources,
                    InterpreterSource::ProvidedPath,
                ) {
                    final(self).phase is FileExists && step == Step::CheckExists(p)
                } else {
                    final(self).phase is Done && step == Step::Finished(
                        Err(Error::SourceNotSelected(old(self).request, InterpreterSource::ProvidedPath)),
                    )
                },
                InterpreterRequest::Directory(p) => if selects(
                    old(self).sources,
                    InterpreterSource::ProvidedPath,
                ) {
                    final(self).phase is DirectoryExists && step == Step::CheckExists(p)
                } else {
                    final(self).phase is Done && step == Step::Finished(
                        Err(Error::SourceNotSelected(old(self).request, InterpreterSource::ProvidedPath)),
                    )
                },
                InterpreterRequest::ExecutableName(n) => if selects(
                    old(self).sources,
                    InterpreterSource::SearchPath,
                ) {
                    final(self).phase is Lookup && step == Step::FindExecutable(n)
                } else {
                    final(self).phase is Done && step == Step::Finished(
                        Err(Error::SourceNotSelected(old(self).request, InterpreterSource::SearchPath)),
                    )
                },
                _ => old(self).advance_spec(first_producer(), step, *final(self)),
            },
    {
        match &self.request {
            InterpreterRequest::File(p) => {
                if !self.sources.contains(InterpreterSource::ProvidedPath) {
                    self.phase = Phase::Done;
                    return Step::Finished(
                        Err(Error::SourceNotSelected(self.request.duplicate(), InterpreterSource::ProvidedPath)),
                    );
                }
                let p = p.clone();
                self.phase = Phase::FileExists;
                Step::CheckExists(p)
            },
            InterpreterRequest::Directory(p) => {
                if !self.sources.contains(InterpreterSource::ProvidedPath) {
                    self.phase = Phase::Done;
                    return Step::Finished(
                        Err(Error::SourceNotSelected(self.request.duplicate(), InterpreterSource::ProvidedPath)),
                    );
                }
                let p = p.clone();
                self.phase = Phase::DirectoryExists;
                Step::CheckExists(p)
            },
            InterpreterRequest::ExecutableName(n) => {
                if !self.sources.contains(InterpreterSource::SearchPath) {
                    self.phase = Phase::Done;
                    return Step::Finished(
                        Err(Error::SourceNotSelected(self.request.duplicate(), InterpreterSource::SearchPath)),
                    );
                }
                let n = n.clone();
                self.phase = Phase::Lookup;
                Step::FindExecutable(n)
            },
            _ => self.advance(1),
        }
    }

    /// Whether the path asked for by [`Step::CheckExists`] exists.
    pub fn on_exists(&mut self, exists: Result<bool, Error>) -> (step: Step)
        requires
            old(self).wf(),
            old(self).phase is FileExists || old(self).phase is DirectoryExists
                || old(self).phase is ExecutableExists,
        ensures
            final(self).wf(),
            final(self).same_search(*old(self)),
            exists is Err ==> final(self).phase is Done && step == Step::Finished(
                Err(exists->Err_0),
            ),
            exists == Ok::<bool, Error>(false) ==> final(self).phase is Done && step
                == Step::Finished(Ok(Err(missing(old(self).request, old(self).phase)))),
            exists == Ok::<bool, Error>(true) ==> match old(self).phase {
                Phase::FileExists => final(self).phase == Phase::QueryProvided(
                    InterpreterSource::ProvidedPath,
                ) && step == Step::Query(InterpreterSource::ProvidedPath, old(self).request->File_0),
                Phase::DirectoryExists => final(self).phase is ExecutableExists
                    && final(self).phase->ExecutableExists_0@ == venv_executable_text(
                    old(self).request->Directory_0@,
                    old(self).os,
                ) && step == Step::CheckExists(final(self).phase->ExecutableExists_0),
                _ => final(self).phase == Phase::QueryProvided(InterpreterSource::ProvidedPath)
                    && step == Step::Query(
                    InterpreterSource::ProvidedPath,
                    old(self).phase->ExecutableExists_0,
                ),
            },
    {
        let found = match exists {
            Err(e) => {
                self.phase = Phase::Done;
                return Step::Finished(Err(e));
            },
            Ok(found) => found,
        };
        let mut phase = Phase::Done;
        std::mem::swap(&mut phase, &mut self.phase);
        match phase {
            Phase::FileExists => {
                let p = match &self.request {
                    InterpreterRequest::File(p) => p.clone(),
                    // the phase fixes the kind of request
                    _ => String::new(),
                };
                if !found {
                    return Step::Finished(Ok(Err(InterpreterNotFound::FileNotFound(p))));
                }
                self.phase = Phase::QueryProvided(InterpreterSource::ProvidedPath);
                Step::Query(InterpreterSource::ProvidedPath, p)
            },
            Phase::DirectoryExists => {
                let p = match &self.request {
                    InterpreterRequest::Directory(p) => p.clone(),
                    // the phase fixes the kind of request
                    _ => String::new(),
                };
                if !found {
                    return Step::Finished(Ok(Err(InterpreterNotFound::FileNotFound(p))));
                }
                let exe = virtualenv_python_executable(p.as_str(), self.os);
                let exe_copy = exe.clone();
                self.phase = Phase::ExecutableExists(exe);
                Step::CheckExists(exe_copy)
            },
            Phase::ExecutableExists(exe) => {
                if !found {
                    let p = match &self.request {
                        InterpreterRequest::Directory(p) => p.clone(),
                        // the phase fixes the kind of request
                    _ => String::new(),
                    };
                    return Step::Finished(
                        Ok(Err(InterpreterNotFound::ExecutableNotFoundInDirectory(p, exe))),
                    );
                }
                self.phase = Phase::QueryProvided(InterpreterSource::ProvidedPath);
                Step::Query(InterpreterSource::ProvidedPath, exe)
            },
            // other phases are excluded by the requirement
            _ => Step::NextCandidate,
        }
    }

    /// Where the search path resolves the name asked for by
    /// [`Step::FindExecutable`], if anywhere.
    pub fn on_lookup(&mut self, found: Option<String>) -> (step: Step)
        requires
            old(self).wf(),
            old(self).phase is Lookup,
        ensures
            final(self).wf(),
            final(self).same_search(*old(self)),
            found is None ==> final(self).phase is Done && step == Step::Finished(
                Ok(Err(InterpreterNotFound::ExecutableNotFoundInSearchPath(old(self).request->ExecutableName_0))),
            ),
            found is Some ==> final(self).phase == Phase::QueryProvided(InterpreterSource::SearchPath)
                && step == Step::Query(InterpreterSource::SearchPath, found->0),
    {
        match found {
            None => {
                self.phase = Phase::Done;
                let n = match &self.request {
                    InterpreterRequest::ExecutableName(n) => n.clone(),
                    // the phase fixes the kind of request
                    _ => String::new(),
                };
                Step::Finished(Ok(Err(InterpreterNotFound::ExecutableNotFoundInSearchPath(n))))
            },
            Some(path) => {
                self.phase = Phase::QueryProvided(InterpreterSource::SearchPath);
                Step::Query(InterpreterSource::SearchPath, path)
            },
        }
    }

    /// The outcome of the query asked for by [`Step::Query`]. An interpreter
    /// named by the request is returned as it is; a candidate is returned
    /// only if it satisfies the request, and the first that does ends the
    /// search.
    pub fn on_query(&mut self, result: Result<Interpreter, Error>) -> (step: Step)
        requires
            old(self).wf(),
            old(self).phase is QueryProvided || old(self).phase is QueryCandidate,
        ensures
            final(self).wf(),
            final(self).same_search(*old(self)),
            match (old(self).phase, result) {
                (Phase::QueryProvided(s), Ok(i)) => final(self).phase is Done && step
                    == Step::Finished(Ok(Ok(DiscoveredInterpreter { source: s, interpreter: i }))),
                (Phase::QueryCandidate(s), Ok(i)) => if accepts(old(self).request, i) {
                    final(self).phase is Done && step == Step::Finished(
                        Ok(Ok(DiscoveredInterpreter { source: s, interpreter: i })),
                    )
                } else {
                    final(self).phase == Phase::Candidates(s) && step is NextCandidate
                },
                (Phase::QueryCandidate(s), Err(e)) => if skips(old(self).request, e) {
                    final(self).phase == Phase::Candidates(s) && step is NextCandidate
                } else {
                    final(self).phase is Done && step == Step::Finished(Err(e))
                },
                (_, Err(e)) => final(self).phase is Done && step == Step::Finished(Err(e)),
                _ => true,
            },
    {
        let source = match self.phase {
            Phase::QueryProvided(s) => s,
            Phase::QueryCandidate(s) => s,
            // other phases are excluded by the requirement
            _ => InterpreterSource::ProvidedPath,
        };
        let candidate = matches!(self.phase, Phase::QueryCandidate(_));
        match result {
            Ok(interpreter) => {
                if !candidate || accepts_exec(&self.request, &interpreter) {
                    self.phase = Phase::Done;
                    Step::Finished(Ok(Ok(DiscoveredInterpreter { source, interpreter })))
                } else {
                    self.phase = Phase::Candidates(source);
                    Step::NextCandidate
                }
            },
            Err(e) => {
                if candidate && skips_exec(&self.request, &e) {
                    self.phase = Phase::Candidates(source);
                    Step::NextCandidate
                } else {
                    self.phase = Phase::Done;
                    Step::Finished(Err(e))
                }
            },
        }
    }

    /// The next candidate of the current source, or the error met while
    /// producing it.
    pub fn on_candidate(&mut self, candidate: Result<String, Error>) -> (step: Step)
        requires
            old(self).wf(),
            old(self).phase is Candidates,
        ensures
            final(self).wf(),
            final(self).same_search(*old(self)),
            match candidate {
                Ok(path) => final(self).phase == Phase::QueryCandidate(
                    old(self).phase->Candidates_0,
                ) && step == Step::Query(old(self).phase->Candidates_0, path),
                Err(e) => if skips(old(self).request, e) {
                    final(self).phase == old(self).phase && step is NextCandidate
                } else {
                    final(self).phase is Done && step == Step::Finished(Err(e))
                },
            },
    {
        let source = match self.phase {
            Phase::Candidates(s) => s,
            // other phases are excluded by the requirement
            _ => InterpreterSource::ProvidedPath,
        };
        match candidate {
            Ok(path) => {
                self.phase = Phase::QueryCandidate(source);
                Step::Query(source, path)
            },
            Err(e) => {
                if skips_exec(&self.request, &e) {
                    Step::NextCandidate
                } else {
                    self.phase = Phase::Done;
                    Step::Finished(Err(e))
                }
            },
        }
    }

    /// The current source has no more candidates: move to the next selected
    /// source, or report that nothing was found.
    pub fn on_source_exhausted(&mut self) -> (step: Step)
        requires
            old(self).wf(),
            old(self).phase is Candidates,
        ensures
            final(self).wf(),
            final(self).same_search(*old(self)),
            old(self).advance_spec(rank(old(self).phase->Candidates_0) + 1, step, *final(self)),
    {
        let source = match self.phase {
            Phase::Candidates(s) => s,
            // other phases are excluded by the requirement
            _ => InterpreterSource::PyLauncher,
        };
        self.advance(source.rank() + 1)
    }
}

fn not_found_exec(r: InterpreterRequest, sel: SourceSelector) -> (n: InterpreterNotFound)
    ensures
        n == not_found(r, sel),
{
    match r {
        InterpreterRequest::Version(VersionRequest::Default) => InterpreterNotFound::NoPythonInstallation(
            sel,
            Some(VersionRequest::Default),
        ),
        InterpreterRequest::Version(v) => InterpreterNotFound::NoMatchingVersion(sel, v),
        InterpreterRequest::Implementation(n) => InterpreterNotFound::NoMatchingImplementation(sel, n),
        InterpreterRequest::ImplementationVersion(n, v) => InterpreterNotFound::NoMatchingImplementationVersion(
            sel,
            n,
            v,
        ),
        _ => InterpreterNotFound::NoPythonInstallation(sel, None),
    }
}

/// The request of the second pass of a best-match search: the same request
/// without its patch, when it has one.
pub open spec fn relaxed(r: InterpreterRequest) -> Option<InterpreterRequest> {
    match r {
        InterpreterRequest::Version(VersionRequest::MajorMinorPatch(a, b, _)) => Some(
            InterpreterRequest::Version(VersionRequest::MajorMinor(a, b)),
        ),
        InterpreterRequest::ImplementationVersion(i, VersionRequest::MajorMinorPatch(a, b, _)) => Some(
            InterpreterRequest::ImplementationVersion(i, VersionRequest::MajorMinor(a, b)),
        ),
        _ => None,
    }
}

/// How a best-match search reports that its last pass found nothing: having
/// tried several versions, a missing version is reported as no installation.
pub open spec fn final_not_found(n: InterpreterNotFound) -> InterpreterNotFound {
    match n {
        InterpreterNotFound::NoMatchingVersion(sel, _) => InterpreterNotFound::NoPythonInstallation(
            sel,
            None,
        ),
        _ => n,
    }
}

/// What the caller of a [`BestMatch`] does next.
#[derive(Debug)]
pub enum BestStep {
    /// Run a [`Search`] for this request and report through [`BestMatch::on_result`].
    Search(InterpreterRequest),
    /// The best-match search is over.
    Finished(Result<Result<DiscoveredInterpreter, InterpreterNotFound>, Error>),
}

/// The passes of a best-match search: the request itself; then, if it has a
/// patch, the request without it; then any interpreter at all.
pub struct BestMatch {
    pub request: InterpreterRequest,
    /// The pass under way: 1, 2 or 3.
    pub pass: u8,
}

impl BestMatch {
    /// A best-match search; its first pass searches for `request` itself.
    pub fn new(request: InterpreterRequest) -> (r: (BestMatch, InterpreterRequest))
        ensures
            r.0 == (BestMatch { request, pass: 1 }),
            r.1 == request,
    {
        let first = request.duplicate();
        (BestMatch { request, pass: 1 }, first)
    }

    /// The outcome of the search of the current pass. An error or a found
    /// interpreter ends the best-match search; a miss moves to the next pass.
    pub fn on_result(
        &mut self,
        result: Result<Result<DiscoveredInterpreter, InterpreterNotFound>, Error>,
    ) -> (step: BestStep)
        requires
            1 <= old(self).pass <= 3,
        ensures
            final(self).request == old(self).request,
            1 <= final(self).pass <= 3,
            match result {
                Err(e) => step == BestStep::Finished(Err(e)),
                Ok(Ok(found)) => step == BestStep::Finished(Ok(Ok(found))),
                Ok(Err(missing)) => if old(self).pass == 1 && relaxed(old(self).request) is Some {
                    final(self).pass == 2 && step == BestStep::Search(
                        relaxed(old(self).request)->0,
                    )
                } else if old(self).pass < 3 {
                    final(self).pass == 3 && step == BestStep::Search(
                        InterpreterRequest::Version(VersionRequest::Default),
                    )
                } else {
                    step == BestStep::Finished(Ok(Err(final_not_found(missing))))
                },
            },
    {
        let missing = match result {
            Err(e) => {
                return BestStep::Finished(Err(e));
            },
            Ok(Ok(found)) => {
                return BestStep::Finished(Ok(Ok(found)));
            },
            Ok(Err(missing)) => missing,
        };
        if self.pass == 1 {
            let relaxed_request = match self.request {
                InterpreterRequest::Version(VersionRequest::MajorMinorPatch(a, b, _)) => Some(
                    InterpreterRequest::Version(VersionRequest::MajorMinor(a, b)),
                ),
                InterpreterRequest::ImplementationVersion(
                    i,
                    VersionRequest::MajorMinorPatch(a, b, _),
                ) => Some(
                    InterpreterRequest::ImplementationVersion(i, VersionRequest::MajorMinor(a, b)),
                ),
                _ => None,
            };
            if let Some(r) = relaxed_request {
                self.pass = 2;
                return BestStep::Search(r);
            }
        }
        if self.pass < 3 {
            self.pass = 3;
            return BestStep::Search(InterpreterRequest::Version(VersionRequest::Default));
        }
        BestStep::Finished(
            Ok(
                Err(
                    match missing {
                        InterpreterNotFound::NoMatchingVersion(sel, _) => InterpreterNotFound::NoPythonInstallation(
                            sel,
                            None,
                        ),
                        other => other,
                    },
                ),
            ),
        )
    }
}

/// When the last pass of a best-match search, which asks for any version,
/// finds nothing, the search reports that no installation was found.
pub proof fn lemma_best_match_reports_no_installation(sel: SourceSelector)
    ensures
        final_not_found(
            not_found(InterpreterRequest::Version(VersionRequest::Default), sel),
        ) is NoPythonInstallation,
        forall|v: VersionRequest|
            #[trigger] final_not_found(InterpreterNotFound::NoMatchingVersion(sel, v))
                is NoPythonInstallation,
{
}

/// The search for the default interpreter: any version, on the search path
/// and through the `py` launcher, virtual environments left out.
pub fn default_search(os: Os) -> (r: Search)
    ensures
        r.wf(),
        r.request == InterpreterRequest::Version(VersionRequest::Default),
        r.phase is Ready,
        r.os == os,
        forall|s: InterpreterSource|
            selects(r.sources, s) <==> (s == InterpreterSource::SearchPath || s
                == InterpreterSource::PyLauncher),
{
    let a = [InterpreterSource::SearchPath, InterpreterSource::PyLauncher];
    let sources = SourceSelector::from_sources(&a);
    proof {
        assert forall|s: InterpreterSource| a@.contains(s) <==> (s == InterpreterSource::SearchPath
            || s == InterpreterSource::PyLauncher) by {
            if s == InterpreterSource::SearchPath {
                assert(a@[0] == s);
            }
            if s == InterpreterSource::PyLauncher {
                assert(a@[1] == s);
            }
        }
    }
    Search::new(InterpreterRequest::Version(VersionRequest::Default), sources, os)
}

/// Whether an interpreter is older than Python 3.8, the oldest supported.
pub fn is_unsupported_python(i: &Interpreter) -> (r: bool)
    ensures
        r <==> (i.major < 3 || (i.major == 3 && i.minor < 8)),
{
    i.major < 3 || (i.major == 3 && i.minor < 8)
}

/// Sources are enumerated in discovery order: the source that enumeration
/// moves to from rank `k` on is selected, of rank `k` or later, and no source
/// that the search asks lies between; off Windows the `py` launcher is never
/// asked.
pub proof fn lemma_sources_in_order(sel: SourceSelector, os: Os, k: nat)
    ensures
        first_selected(sel, os, k) matches Some(s) ==> selects(sel, s) && k <= rank(s) && rank(
            s,
        ) <= 5 && forall|t: InterpreterSource|
            k <= #[trigger] rank(t) < rank(s) ==> !produces(sel, os, t),
        first_selected(sel, os, k) is None ==> forall|t: InterpreterSource|
            k <= #[trigger] rank(t) ==> !produces(sel, os, t),
        os is Unix ==> first_selected(sel, os, k) != Some(InterpreterSource::PyLauncher),
    decreases 6 - k,
{
    if k <= 5 {
        lemma_sources_in_order(sel, os, k + 1);
        assert forall|t: InterpreterSource| rank(t) == k implies t == source_at(k) by {
            lemma_rank_source(t);
        }
        if produces(sel, os, source_at(k)) {
            lemma_rank_source(source_at(k));
            assert(rank(source_at(k)) == k) by {
                assert(source_at(k) == source_at(k));
            }
        }
    } else {
        assert forall|t: InterpreterSource| k <= #[trigger] rank(t) implies !produces(sel, os, t) by {
            lemma_rank_source(t);
        }
    }
}

/// `executable` shown below `directory` when it lies there, else in full.
pub open spec fn relative_text(executable: Seq<char>, directory: Seq<char>, os: Os) -> Seq<char> {
    let below = directory.push(separator_of(os));
    if starts_with(executable, below) {
        executable.skip(below.len() as int)
    } else {
        executable
    }
}

/// The message for a search that found nothing.
pub open spec fn not_found_text(n: InterpreterNotFound, os: Os) -> Seq<char> {
    match n {
        InterpreterNotFound::NoPythonInstallation(sel, Some(v)) => "No Python "@ + version_text(v)
            + " installation found in "@ + selector_text(sel),
        InterpreterNotFound::NoPythonInstallation(sel, None) => "No Python installation found in "@
            + selector_text(sel),
        InterpreterNotFound::NoMatchingVersion(sel, VersionRequest::Default) =>
            "No Python interpreter found in "@ + selector_text(sel),
        InterpreterNotFound::NoMatchingVersion(sel, v) => "No interpreter found for Python "@
            + version_text(v) + " in "@ + selector_text(sel),
        InterpreterNotFound::NoMatchingImplementation(sel, i) => "No interpreter found for "@
            + implementation_text(i) + " in "@ + selector_text(sel),
        InterpreterNotFound::NoMatchingImplementationVersion(sel, i, v) =>
            "No interpreter found for "@ + implementation_text(i) + " "@ + version_text(v) + " in "@
            + selector_text(sel),
        InterpreterNotFound::FileNotFound(p) => "Requested interpreter path `"@ + p@
            + "` does not exist"@,
        InterpreterNotFound::DirectoryNotFound(p) => "Requested interpreter directory `"@ + p@
            + "` does not exist"@,
        InterpreterNotFound::ExecutableNotFoundInDirectory(d, e) => "Interpreter directory `"@ + d@
            + "` does not contain Python executable at `"@ + relative_text(e@, d@, os) + "`"@,
        InterpreterNotFound::ExecutableNotFoundInSearchPath(name) => "Requested Python executable `"@
            + name@ + "` not found in PATH"@,
        InterpreterNotFound::FileNotExecutable(p) => "Python interpreter at `"@ + p@
            + "` is not executable"@,
    }
}

/// The selector of the outcome, when it has one, is well formed.
pub open spec fn not_found_wf(n: InterpreterNotFound) -> bool {
    match n {
        InterpreterNotFound::NoPythonInstallation(sel, _) => sel.wf(),
        InterpreterNotFound::NoMatchingVersion(sel, _) => sel.wf(),
        InterpreterNotFound::NoMatchingImplementation(sel, _) => sel.wf(),
        InterpreterNotFound::NoMatchingImplementationVersion(sel, _, _) => sel.wf(),
        _ => true,
    }
}

/// `executable` shown below `directory` when it lies there.
fn relative_to(executable: &str, directory: &str, os: Os) -> (r: String)
    ensures
        r@ == relative_text(executable@, directory@, os),
{
    let below = String::from_str(directory).concat(
        match os {
            Os::Unix => "/",
            Os::Windows => "\\",
        },
    );
    proof {
        reveal_strlit("/");
        reveal_strlit("\\");
        assert(below@ == directory@.push(separator_of(os)));
    }
    if starts_with_str(executable, below.as_str()) {
        let n = executable.unicode_len();
        let m = below.as_str().unicode_len();
        let rest = executable.substring_char(m, n);
        assert(rest@ == executable@.skip(m as int));
        String::from_str(rest)
    } else {
        String::from_str(executable)
    }
}

fn starts_with_str(s: &str, p: &str) -> (r: bool)
    ensures
        r == starts_with(s@, p@),
{
    let n = s.unicode_len();
    let m = p.unicode_len();
    if n < m {
        return false;
    }
    let mut i: usize = 0;
    while i < m
        invariant
            n == s@.len(),
            m == p@.len(),
            m <= n,
            forall|k: int| 0 <= k < i ==> s@[k] == p@[k],
        decreases m - i,
    {
        if s.get_char(i) != p.get_char(i) {
            assert(s@.take(m as int)[i as int] != p@[i as int]);
            return false;
        }
        i = i + 1;
    }
    assert(s@.take(m as int) == p@);
    true
}

impl InterpreterNotFound {
    /// The message for the outcome, naming the request and the sources consulted.
    pub fn to_string(&self, os: Os) -> (r: String)
        requires
            not_found_wf(*self),
        ensures
            r@ == not_found_text(*self, os),
    {
        match self {
            InterpreterNotFound::NoPythonInstallation(sel, Some(v)) => String::from_str("No Python ")
                .concat(v.to_string().as_str()).concat(" installation found in ").concat(
                sel.to_string().as_str(),
            ),
            InterpreterNotFound::NoPythonInstallation(sel, None) => String::from_str(
                "No Python installation found in ",
            ).concat(sel.to_string().as_str()),
            InterpreterNotFound::NoMatchingVersion(sel, VersionRequest::Default) => String::from_str(
                "No Python interpreter found in ",
            ).concat(sel.to_string().as_str()),
            InterpreterNotFound::NoMatchingVersion(sel, v) => String::from_str(
                "No interpreter found for Python ",
            ).concat(v.to_string().as_str()).concat(" in ").concat(sel.to_string().as_str()),
            InterpreterNotFound::NoMatchingImplementation(sel, i) => String::from_str(
                "No interpreter found for ",
            ).concat(i.as_str()).concat(" in ").concat(sel.to_string().as_str()),
            InterpreterNotFound::NoMatchingImplementationVersion(sel, i, v) => String::from_str(
                "No interpreter found for ",
            ).concat(i.as_str()).concat(" ").concat(v.to_string().as_str()).concat(" in ").concat(
                sel.to_string().as_str(),
            ),
            InterpreterNotFound::FileNotFound(p) => String::from_str("Requested interpreter path `")
                .concat(p.as_str()).concat("` does not exist"),
            InterpreterNotFound::DirectoryNotFound(p) => String::from_str(
                "Requested interpreter directory `",
            ).concat(p.as_str()).concat("` does not exist"),
            InterpreterNotFound::ExecutableNotFoundInDirectory(d, e) => String::from_str(
                "Interpreter directory `",
            ).concat(d.as_str()).concat("` does not contain Python executable at `").concat(
                relative_to(e.as_str(), d.as_str(), os).as_str(),
            ).concat("`"),
            InterpreterNotFound::ExecutableNotFoundInSearchPath(name) => String::from_str(
                "Requested Python executable `",
            ).concat(name.as_str()).concat("` not found in PATH"),
            InterpreterNotFound::FileNotExecutable(p) => String::from_str("Python interpreter at `")
                .concat(p.as_str()).concat("` is not executable"),
        }
    }
}

} // verus!
