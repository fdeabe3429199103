//! Requests for an interpreter, as a user writes them.
use vstd::prelude::*;

use crate::implementation::{
    implementation_of, implementation_text, starts_with_ci, starts_with_ci_at, ImplementationName,
};
use crate::platform::{separator_of, Os};
use crate::version::{
    find_char, first_index, has_char, lemma_first_unique, lemma_version_round_trip, parse_version,
    version_text, VersionRequest,
};

verus! {

/// A request to find a Python interpreter.
#[derive(Clone, Debug, PartialEq, Eq)]
pub enum InterpreterRequest {
    /// A Python version without an implementation name, e.g. `3.10`.
    Version(VersionRequest),
    /// A directory holding a Python installation, e.g. `.venv`.
    Directory(String),
    /// A path to a Python executable, e.g. `~/bin/python`.
    File(String),
    /// The name of an executable to look up on the search path, e.g. `foopython3`.
    ExecutableName(String),
    /// An implementation without a version, e.g. `pypy`.
    Implementation(ImplementationName),
    /// An implementation and a version, e.g. `pypy3.8` or `pypy@3.8`.
    ImplementationVersion(ImplementationName, VersionRequest),
}

/// An [`InterpreterRequest`] with its strings as character sequences.
pub ghost enum RequestView {
    Version(VersionRequest),
    Directory(Seq<char>),
    File(Seq<char>),
    ExecutableName(Seq<char>),
    Implementation(ImplementationName),
    ImplementationVersion(ImplementationName, VersionRequest),
}

impl View for InterpreterRequest {
    type V = RequestView;

    open spec fn view(&self) -> RequestView {
        match self {
            InterpreterRequest::Version(v) => RequestView::Version(*v),
            InterpreterRequest::Directory(p) => RequestView::Directory(p@),
            InterpreterRequest::File(p) => RequestView::File(p@),
            InterpreterRequest::ExecutableName(n) => RequestView::ExecutableName(n@),
            InterpreterRequest::Implementation(i) => RequestView::Implementation(*i),
            InterpreterRequest::ImplementationVersion(i, v) => RequestView::ImplementationVersion(
                *i,
                *v,
            ),
        }
    }
}

pub open spec fn starts_with(s: Seq<char>, p: Seq<char>) -> bool {
    s.len() >= p.len() && s.take(p.len() as int) == p
}

/// The text after the first `@`.
pub open spec fn after_at(s: Seq<char>) -> Seq<char> {
    s.skip(first_index(s, '@') + 1)
}

pub open spec fn before_at(s: Seq<char>) -> Seq<char> {
    s.take(first_index(s, '@'))
}

/// `s` names implementation `i` in any case, followed by a version.
pub open spec fn implementation_prefix(s: Seq<char>, i: ImplementationName) -> Option<
    RequestView,
> {
    let name = implementation_text(i);
    if !starts_with_ci(s, name) {
        None
    } else if s.len() == name.len() {
        Some(RequestView::Implementation(i))
    } else {
        match parse_version(s.skip(name.len() as int)) {
            Some(v) => Some(RequestView::ImplementationVersion(i, v)),
            None => None,
        }
    }
}

/// What a request string denotes by its text alone: a version, or an
/// implementation with or without a version; `None` when no such rule applies.
pub open spec fn name_rules(s: Seq<char>) -> Option<RequestView> {
    let py = "python"@;
    if parse_version(s) is Some {
        Some(RequestView::Version(parse_version(s)->0))
    } else if starts_with(s, py) && parse_version(s.skip(py.len() as int)) is Some {
        Some(RequestView::Version(parse_version(s.skip(py.len() as int))->0))
    } else if has_char(s, '@') && implementation_of(before_at(s)) is Some && parse_version(
        after_at(s),
    ) is Some {
        Some(
            RequestView::ImplementationVersion(
                implementation_of(before_at(s))->0,
                parse_version(after_at(s))->0,
            ),
        )
    } else if implementation_prefix(s, ImplementationName::Cpython) is Some {
        implementation_prefix(s, ImplementationName::Cpython)
    } else if implementation_prefix(s, ImplementationName::PyPy) is Some {
        implementation_prefix(s, ImplementationName::PyPy)
    } else {
        None
    }
}

/// What a request string denotes as a path: an existing directory, a file
/// when it holds a separator, else the name of an executable.
pub open spec fn path_rules(s: Seq<char>, os: Os, is_dir: bool) -> RequestView {
    if is_dir {
        RequestView::Directory(s)
    } else if has_char(s, separator_of(os)) {
        RequestView::File(s)
    } else {
        RequestView::ExecutableName(s)
    }
}

/// What a request string denotes; the first rule that applies decides.
/// `is_dir` tells whether the string names an existing directory.
pub open spec fn parse_request(s: Seq<char>, os: Os, is_dir: bool) -> RequestView {
    match name_rules(s) {
        Some(r) => r,
        None => path_rules(s, os, is_dir),
    }
}

/// Whether `s` begins with `p`, exactly.
fn starts_with_exec(s: &str, p: &str) -> (r: bool)
    ensures
        r == starts_with(s@, p@),
{
    let n = s.unicode_len();
    let m = p.unicode_len();
    if n < m {
        return false;
    }
    let mut i: usize = 0;
    while i < m
        invariant
            n == s@.len(),
            m == p@.len(),
            m <= n,
            forall|k: int| 0 <= k < i ==> s@[k] == p@[k],
        decreases m - i,
    {
        if s.get_char(i) != p.get_char(i) {
            assert(s@.take(m as int)[i as int] != p@[i as int]);
            return false;
        }
        i = i + 1;
    }
    assert(s@.take(m as int) == p@);
    true
}

/// Rules on implementation names: `pypy`, `pypy3.12`, in any case.
fn parse_implementation_prefix(value: &str, i: ImplementationName) -> (r: Option<
    InterpreterRequest,
>)
    ensures
        r is Some <==> implementation_prefix(value@, i) is Some,
        r is Some ==> r->0@ == implementation_prefix(value@, i)->0,
{
    let name = i.as_str();
    let n = value.unicode_len();
    let m = name.unicode_len();
    assert(value@.subrange(0, value@.len() as int) == value@);
    if !starts_with_ci_at(value, 0, name) {
        return None;
    }
    if n == m {
        return Some(InterpreterRequest::Implementation(i));
    }
    let rest = value.substring_char(m, n);
    assert(rest@ == value@.skip(m as int));
    match VersionRequest::parse(rest) {
        Ok(v) => Some(InterpreterRequest::ImplementationVersion(i, v)),
        Err(_) => None,
    }
}

impl InterpreterRequest {
    /// Classify a request string. `is_dir` tells whether it names an existing
    /// directory; `os` gives the path separator that makes it a file path.
    pub fn parse(value: &str, os: Os, is_dir: bool) -> (r: InterpreterRequest)
        ensures
            r@ == parse_request(value@, os, is_dir),
    {
        match InterpreterRequest::parse_name(value) {
            Some(r) => r,
            None => InterpreterRequest::parse_path(value, os, is_dir),
        }
    }

    /// Classify a request string by its text alone, as a version or an
    /// implementation; `None` when it is to be taken as a path. Whether the
    /// string names a directory matters only then.
    pub fn parse_name(value: &str) -> (r: Option<InterpreterRequest>)
        ensures
            match r {
                Some(req) => name_rules(value@) == Some(req@),
                None => name_rules(value@) is None,
            },
    {
        let n = value.unicode_len();
        // e.g. `3.12.1`
        if let Ok(version) = VersionRequest::parse(value) {
            return Some(InterpreterRequest::Version(version));
        }
        // e.g. `python3.12.1`
        let py = "python";
        if starts_with_exec(value, py) {
            let rest = value.substring_char(py.unicode_len(), n);
            assert(rest@ == value@.skip(py@.len() as int));
            if let Ok(version) = VersionRequest::parse(rest) {
                return Some(InterpreterRequest::Version(version));
            }
        }
        // e.g. `pypy@3.12`
        let at = find_char(value, '@', 0, n);
        assert(value@.subrange(0, n as int) == value@);
        if at < n {
            proof {
                lemma_first_unique(value@, '@', at as int);
            }
            let first = value.substring_char(0, at);
            let second = value.substring_char(at + 1, n);
            assert(first@ == before_at(value@));
            assert(second@ == after_at(value@));
            if let Some(implementation) = ImplementationName::parse(first) {
                if let Ok(version) = VersionRequest::parse(second) {
                    return Some(InterpreterRequest::ImplementationVersion(implementation, version));
                }
            }
        }
        // e.g. `pypy` or `pypy3.12`
        if let Some(r) = parse_implementation_prefix(value, ImplementationName::Cpython) {
            return Some(r);
        }
        if let Some(r) = parse_implementation_prefix(value, ImplementationName::PyPy) {
            return Some(r);
        }
        None
    }

    /// Classify a request string that names no version or implementation:
    /// an existing directory (`is_dir`), a file path when it holds `os`'s
    /// separator even if nothing is there, else an executable name.
    pub fn parse_path(value: &str, os: Os, is_dir: bool) -> (r: InterpreterRequest)
        ensures
            r@ == path_rules(value@, os, is_dir),
    {
        let n = value.unicode_len();
        assert(value@.subrange(0, n as int) == value@);
        // e.g. `./path/to/.venv`
        if is_dir {
            return InterpreterRequest::Directory(String::from_str(value));
        }
        // e.g. `./path/to/python3.exe`, even when it does not exist
        let sep = os.separator();
        if find_char(value, sep, 0, n) < n {
            return InterpreterRequest::File(String::from_str(value));
        }
        // the name of an executable on the search path
        InterpreterRequest::ExecutableName(String::from_str(value))
    }

    /// An identical copy of the request.
    pub fn duplicate(&self) -> (r: InterpreterRequest)
        ensures
            r == *self,
    {
        match self {
            InterpreterRequest::Version(v) => InterpreterRequest::Version(*v),
            InterpreterRequest::Directory(p) => InterpreterRequest::Directory(p.clone()),
            InterpreterRequest::File(p) => InterpreterRequest::File(p.clone()),
            InterpreterRequest::ExecutableName(n) => InterpreterRequest::ExecutableName(n.clone()),
            InterpreterRequest::Implementation(i) => InterpreterRequest::Implementation(*i),
            InterpreterRequest::ImplementationVersion(i, v) => InterpreterRequest::ImplementationVersion(
                *i,
                *v,
            ),
        }
    }

    /// The request described for a message: `python@3.12`, `directory ...`,
    /// `file ...`, ``executable `name` ``, `pypy`, `pypy@3.12`.
    pub fn to_string(&self) -> (r: String)
        ensures
            r@ == request_text(self@),
    {
        match self {
            InterpreterRequest::Version(v) => String::from_str("python@").concat(
                v.to_string().as_str(),
            ),
            InterpreterRequest::Directory(p) => String::from_str("directory ").concat(p.as_str()),
            InterpreterRequest::File(p) => String::from_str("file ").concat(p.as_str()),
            InterpreterRequest::ExecutableName(name) => String::from_str("executable `").concat(
                name.as_str(),
            ).concat("`"),
            InterpreterRequest::Implementation(i) => String::from_str(i.as_str()),
            InterpreterRequest::ImplementationVersion(i, v) => String::from_str(i.as_str()).concat(
                "@",
            ).concat(v.to_string().as_str()),
        }
    }
}

/// The text of a request in messages.
pub open spec fn request_text(r: RequestView) -> Seq<char> {
    match r {
        RequestView::Version(v) => "python@"@ + version_text(v),
        RequestView::Directory(p) => "directory "@ + p,
        RequestView::File(p) => "file "@ + p,
        RequestView::ExecutableName(n) => "executable `"@ + n + "`"@,
        RequestView::Implementation(i) => implementation_text(i),
        RequestView::ImplementationVersion(i, v) => implementation_text(i) + "@"@ + version_text(v),
    }
}

/// The text of a version request is parsed back as that version, whatever
/// the platform and the filesystem.
pub proof fn lemma_version_request_round_trip(v: VersionRequest, os: Os, is_dir: bool)
    requires
        !(v is Default),
    ensures
        parse_request(version_text(v), os, is_dir) == RequestView::Version(v),
{
    lemma_version_round_trip(v);
}

} // verus!
