//! The pure part of producing candidates: which toolchains and launcher
//! entries survive the prefilter, and in what order the search path is probed.
use vstd::prelude::*;

use crate::interpreter::PythonVersion;
use crate::platform::{list_separator_of, Os};
use crate::version::{
    find_char, first_index, is_first, lemma_first_unique, matches_major_minor_spec,
    matches_version_spec, possible_names, VersionRequest,
};

verus! {

/// An installed managed toolchain and the version it declares.
#[derive(Clone, Debug, PartialEq, Eq)]
pub struct Toolchain {
    pub executable: String,
    pub version: PythonVersion,
}

/// One line of the `py` launcher's listing.
#[derive(Clone, Debug, PartialEq, Eq)]
pub struct LauncherEntry {
    pub major: u8,
    pub minor: u8,
    pub executable_path: String,
}

/// One lookup on the search path: an executable name in one directory.
#[derive(Clone, Debug, PartialEq, Eq)]
pub struct SearchProbe {
    pub directory: String,
    pub name: String,
}

/// A toolchain may satisfy the request without being queried.
pub open spec fn toolchain_admitted(v: Option<VersionRequest>, t: Toolchain) -> bool {
    v is None || matches_version_spec(v->0, t.version)
}

/// A launcher entry may satisfy the request without being queried; its
/// listing has no patch, so a request with one admits every entry.
pub open spec fn entry_admitted(v: Option<VersionRequest>, e: LauncherEntry) -> bool {
    v is None || v->0 is MajorMinorPatch || matches_major_minor_spec(v->0, e.major, e.minor)
}

/// The executables of the admitted toolchains, in order.
pub open spec fn admitted_toolchains(ts: Seq<Toolchain>, v: Option<VersionRequest>) -> Seq<Seq<char>>
    decreases ts.len(),
{
    if ts.len() == 0 {
        Seq::empty()
    } else {
        let rest = admitted_toolchains(ts.drop_last(), v);
        if toolchain_admitted(v, ts.last()) {
            rest.push(ts.last().executable@)
        } else {
            rest
        }
    }
}

/// The executables of the admitted launcher entries, in order.
pub open spec fn admitted_entries(es: Seq<LauncherEntry>, v: Option<VersionRequest>) -> Seq<Seq<char>>
    decreases es.len(),
{
    if es.len() == 0 {
        Seq::empty()
    } else {
        let rest = admitted_entries(es.drop_last(), v);
        if entry_admitted(v, es.last()) {
            rest.push(es.last().executable_path@)
        } else {
            rest
        }
    }
}

pub open spec fn views(v: Seq<String>) -> Seq<Seq<char>> {
    v.map_values(|s: String| s@)
}

/// The managed toolchains worth querying for a request, in order.
pub fn managed_candidates(toolchains: &Vec<Toolchain>, version: Option<VersionRequest>) -> (r: Vec<
    String,
>)
    ensures
        views(r@) == admitted_toolchains(toolchains@, version),
{
    let mut out: Vec<String> = Vec::new();
    let mut i: usize = 0;
    while i < toolchains.len()
        invariant
            i <= toolchains@.len(),
            views(out@) == admitted_toolchains(toolchains@.take(i as int), version),
        decreases toolchains.len() - i,
    {
        let t = &toolchains[i];
        let keep = match version {
            None => true,
            Some(v) => v.matches_version(&t.version),
        };
        assert(toolchains@.take(i + 1).drop_last() == toolchains@.take(i as int));
        if keep {
            let ghost before = out@;
            out.push(t.executable.clone());
            assert(views(out@) == views(before).push(t.executable@));
        }
        i = i + 1;
    }
    assert(toolchains@.take(toolchains@.len() as int) == toolchains@);
    out
}

/// The launcher entries worth querying for a request, in order.
pub fn launcher_candidates(entries: &Vec<LauncherEntry>, version: Option<VersionRequest>) -> (r: Vec<
    String,
>)
    ensures
        views(r@) == admitted_entries(entries@, version),
{
    let mut out: Vec<String> = Vec::new();
    let mut i: usize = 0;
    while i < entries.len()
        invariant
            i <= entries@.len(),
            views(out@) == admitted_entries(entries@.take(i as int), version),
        decreases entries.len() - i,
    {
        let e = &entries[i];
        let keep = match version {
            None => true,
            Some(v) => v.has_patch() || v.matches_major_minor(e.major, e.minor),
        };
        assert(entries@.take(i + 1).drop_last() == entries@.take(i as int));
        if keep {
            let ghost before = out@;
            out.push(e.executable_path.clone());
            assert(views(out@) == views(before).push(e.executable_path@));
        }
        i = i + 1;
    }
    assert(entries@.take(entries@.len() as int) == entries@);
    out
}

/// Every candidate that the toolchain prefilter lets through comes from a
/// toolchain whose declared version satisfies the request.
pub proof fn lemma_toolchain_prefilter_sound(
    ts: Seq<Toolchain>,
    v: VersionRequest,
    path: Seq<char>,
)
    requires
        admitted_toolchains(ts, Some(v)).contains(path),
    ensures
        exists|i: int|
            0 <= i < ts.len() && ts[i].executable@ == path && matches_version_spec(
                v,
                #[trigger] ts[i].version,
            ),
    decreases ts.len(),
{
    let rest = admitted_toolchains(ts.drop_last(), Some(v));
    if rest.contains(path) {
        lemma_toolchain_prefilter_sound(ts.drop_last(), v, path);
        let i = choose|i: int|
            0 <= i < ts.drop_last().len() && ts.drop_last()[i].executable@ == path
                && matches_version_spec(v, #[trigger] ts.drop_last()[i].version);
        assert(ts[i] == ts.drop_last()[i]);
    } else {
        let k = ts.len() - 1;
        assert(ts[k] == ts.last());
    }
}

/// The search path to scan: the override when one is set, else the standard
/// one, else nothing.
pub fn search_path_value(test_override: Option<String>, path: Option<String>) -> (r: String)
    ensures
        r@ == match test_override {
            Some(t) => t@,
            None => match path {
                Some(p) => p@,
                None => Seq::empty(),
            },
        },
{
    match test_override {
        Some(t) => t,
        None => match path {
            Some(p) => p,
            None => String::new(),
        },
    }
}

/// The entries of a search path, in order, empty ones included.
pub open spec fn split_text(s: Seq<char>, sep: char) -> Seq<Seq<char>>
    decreases s.len(),
{
    let i = first_index(s, sep);
    if is_first(s, sep, i) {
        seq![s.take(i)] + split_text(s.skip(i + 1), sep)
    } else {
        seq![s]
    }
}

/// The directories of a search path, in order.
pub fn split_search_path(value: &str, os: Os) -> (r: Vec<String>)
    ensures
        views(r@) == split_text(value@, list_separator_of(os)),
{
    let sep = os.list_separator();
    let n = value.unicode_len();
    let mut out: Vec<String> = Vec::new();
    let mut start: usize = 0;
    let mut finished = false;
    assert(value@.skip(0) == value@);
    assert(views(out@) == Seq::<Seq<char>>::empty());
    while !finished
        invariant
            n == value@.len(),
            start <= n,
            sep == list_separator_of(os),
            !finished ==> views(out@) + split_text(value@.skip(start as int), sep) == split_text(
                value@,
                sep,
            ),
            finished ==> views(out@) == split_text(value@, sep),
        decreases (if finished {
            0
        } else {
            n - start + 1
        }),
    {
        let ghost rest = value@.skip(start as int);
        assert(value@.subrange(start as int, n as int) == rest);
        let at = find_char(value, sep, start, n);
        let ghost before = out@;
        out.push(String::from_str(value.substring_char(start, at)));
        assert(views(out@) == views(before).push(value@.subrange(start as int, at as int)));
        if at == n {
            assert(rest.take(rest.len() as int) == rest);
            assert(!is_first(rest, sep, first_index(rest, sep)));
            assert(split_text(rest, sep) == seq![rest]);
            assert(views(out@) == views(before) + split_text(rest, sep));
            finished = true;
        } else {
            proof {
                lemma_first_unique(rest, sep, at - start);
                assert(rest.take(at - start) == value@.subrange(start as int, at as int));
                assert(rest.skip(at - start + 1) == value@.skip(at + 1));
                assert(split_text(rest, sep) == seq![rest.take(at - start)] + split_text(
                    value@.skip(at + 1),
                    sep,
                ));
                assert(views(out@) + split_text(value@.skip(at + 1), sep) == views(before)
                    + split_text(rest, sep));
            }
            start = at + 1;
        }
    }
    out
}

/// The names to probe in each search-path directory: the request's names,
/// most specific first, then `python.bat` on Windows.
pub open spec fn search_names(v: Option<VersionRequest>, os: Os) -> Seq<Seq<char>> {
    let names = possible_names(
        match v {
            Some(v) => v,
            None => VersionRequest::Default,
        },
        os,
    );
    match os {
        Os::Windows => names.push("python.bat"@),
        Os::Unix => names,
    }
}

pub open spec fn probe_view(p: SearchProbe) -> (Seq<char>, Seq<char>) {
    (p.directory@, p.name@)
}

/// Every name of `names` in directory `d`, in order.
pub open spec fn probe_row(d: Seq<char>, names: Seq<Seq<char>>) -> Seq<(Seq<char>, Seq<char>)> {
    names.map_values(|n: Seq<char>| (d, n))
}

/// Directory by directory, in search-path order; within one directory, name
/// by name, in the order given.
pub open spec fn probe_order(dirs: Seq<Seq<char>>, names: Seq<Seq<char>>) -> Seq<
    (Seq<char>, Seq<char>),
>
    decreases dirs.len(),
{
    if dirs.len() == 0 {
        Seq::empty()
    } else {
        probe_order(dirs.drop_last(), names) + probe_row(dirs.last(), names)
    }
}

/// The names to look for in each search-path directory.
pub fn search_path_names(version: Option<VersionRequest>, os: Os) -> (r: Vec<String>)
    ensures
        views(r@) == search_names(version, os),
{
    let v = match version {
        Some(v) => v,
        None => VersionRequest::Default,
    };
    let mut names = v.possible_names(os);
    assert(views(names@) == possible_names(v, os));
    match os {
        Os::Windows => {
            let ghost before = names@;
            names.push(String::from_str("python.bat"));
            assert(views(names@) == views(before).push("python.bat"@));
        },
        Os::Unix => {},
    }
    names
}

/// The lookups that scan a search path, in the order in which they are made.
pub fn search_path_probes(dirs: &Vec<String>, names: &Vec<String>) -> (r: Vec<SearchProbe>)
    ensures
        r@.map_values(|p: SearchProbe| probe_view(p)) == probe_order(views(dirs@), views(names@)),
{
    let ghost names_v = views(names@);
    let mut out: Vec<SearchProbe> = Vec::new();
    let mut i: usize = 0;
    while i < dirs.len()
        invariant
            i <= dirs@.len(),
            names_v == views(names@),
            out@.map_values(|p: SearchProbe| probe_view(p)) == probe_order(
                views(dirs@).take(i as int),
                names_v,
            ),
        decreases dirs.len() - i,
    {
        let ghost start = out@.map_values(|p: SearchProbe| probe_view(p));
        let d = &dirs[i];
        let mut j: usize = 0;
        while j < names.len()
            invariant
                i < dirs@.len(),
                j <= names@.len(),
                names_v == views(names@),
                d == dirs@[i as int],
                out@.map_values(|p: SearchProbe| probe_view(p)) == start + probe_row(
                    d@,
                    names_v.take(j as int),
                ),
            decreases names.len() - j,
        {
            let ghost before = out@;
            out.push(SearchProbe { directory: d.clone(), name: names[j].clone() });
            assert(names_v.take(j + 1) == names_v.take(j as int).push(names[j as int]@));
            assert(out@.map_values(|p: SearchProbe| probe_view(p)) == before.map_values(
                |p: SearchProbe| probe_view(p),
            ).push((d@, names[j as int]@)));
            assert(probe_row(d@, names_v.take(j + 1)) == probe_row(d@, names_v.take(j as int)).push(
                (d@, names[j as int]@),
            ));
            j = j + 1;
        }
        assert(names_v.take(names_v.len() as int) == names_v);
        assert(views(dirs@).take(i + 1).drop_last() == views(dirs@).take(i as int));
        assert(views(dirs@).take(i + 1).last() == d@);
        i = i + 1;
    }
    assert(views(dirs@).take(dirs@.len() as int) == views(dirs@));
    out
}

/// `t` occurs in `s` at position `i`.
pub open spec fn occurs_at(s: Seq<char>, t: Seq<char>, i: int) -> bool {
    0 <= i && i + t.len() <= s.len() && s.subrange(i, i + t.len()) == t
}

pub open spec fn contains_text(s: Seq<char>, t: Seq<char>) -> bool {
    exists|i: int| occurs_at(s, t, i)
}

/// A separator of Windows paths: `\` or `/`.
pub open spec fn is_windows_separator(c: char) -> bool {
    c == '\\' || c == '/'
}

pub open spec fn is_drive_letter(c: char) -> bool {
    ('A' <= c && c <= 'Z') || ('a' <= c && c <= 'z')
}

/// Path character `c` stands where `p` stands in a pattern, a `\` in the
/// pattern standing for either separator.
pub open spec fn path_char_matches(c: char, p: char) -> bool {
    if p == '\\' {
        is_windows_separator(c)
    } else {
        c == p
    }
}

/// `s` ends with the path `pattern`, either separator standing for `\`.
pub open spec fn ends_with_path(s: Seq<char>, pattern: Seq<char>) -> bool {
    &&& s.len() >= pattern.len()
    &&& forall|i: int|
        0 <= i < pattern.len() ==> path_char_matches(
            #[trigger] s[s.len() - pattern.len() + i],
            pattern[i],
        )
}

/// An absolute Windows path: a drive (`C:\`) or a UNC prefix (`\\`).
pub open spec fn is_absolute_windows(p: Seq<char>) -> bool {
    ||| (p.len() >= 3 && is_drive_letter(p[0]) && p[1] == ':' && is_windows_separator(p[2]))
    ||| (p.len() >= 2 && is_windows_separator(p[0]) && is_windows_separator(p[1]))
}

/// The shape of an App Execution Alias:
/// `...\Microsoft\WindowsApps\python.exe` or `...\python3.exe`.
pub open spec fn is_store_alias_path(p: Seq<char>) -> bool {
    &&& is_absolute_windows(p)
    &&& (ends_with_path(p, "\\Microsoft\\WindowsApps\\python.exe"@) || ends_with_path(
        p,
        "\\Microsoft\\WindowsApps\\python3.exe"@,
    ))
}

/// A Windows Store shim: an alias-shaped path whose reparse point redirects
/// to the Store installer. Never one on other platforms.
pub open spec fn is_store_shim(os: Os, path: Seq<char>, reparse_point: Option<Seq<char>>) -> bool {
    &&& os is Windows
    &&& is_store_alias_path(path)
    &&& reparse_point is Some
    &&& contains_text(reparse_point->0, "\\AppInstallerPythonRedirector.exe"@)
}

fn occurs_at_exec(s: &str, t: &str, i: usize) -> (r: bool)
    requires
        i <= s@.len(),
    ensures
        r == occurs_at(s@, t@, i as int),
{
    let n = s.unicode_len();
    let m = t.unicode_len();
    if n - i < m {
        return false;
    }
    let mut k: usize = 0;
    while k < m
        invariant
            n == s@.len(),
            m == t@.len(),
            i + m <= n,
            forall|j: int| 0 <= j < k ==> s@[i + j] == t@[j],
        decreases m - k,
    {
        if s.get_char(i + k) != t.get_char(k) {
            assert(s@.subrange(i as int, i + m)[k as int] != t@[k as int]);
            return false;
        }
        k = k + 1;
    }
    assert(s@.subrange(i as int, i + m) == t@);
    true
}

fn contains_exec(s: &str, t: &str) -> (r: bool)
    ensures
        r == contains_text(s@, t@),
{
    let n = s.unicode_len();
    let mut i: usize = 0;
    while i < n
        invariant
            n == s@.len(),
            i <= n,
            forall|j: int| 0 <= j < i ==> !occurs_at(s@, t@, j),
        decreases n - i,
    {
        if occurs_at_exec(s, t, i) {
            return true;
        }
        i = i + 1;
    }
    let last = occurs_at_exec(s, t, n);
    assert forall|j: int| !occurs_at(s@, t@, j) || j == n by {
        if 0 <= j && j + t@.len() <= s@.len() {
            assert(j < i || j == n);
        }
    }
    last
}

fn ends_with_path_exec(s: &str, pattern: &str) -> (r: bool)
    ensures
        r == ends_with_path(s@, pattern@),
{
    let n = s.unicode_len();
    let m = pattern.unicode_len();
    if n < m {
        return false;
    }
    let mut i: usize = 0;
    while i < m
        invariant
            n == s@.len(),
            m == pattern@.len(),
            m <= n,
            forall|j: int|
                0 <= j < i ==> path_char_matches(#[trigger] s@[n - m + j], pattern@[j]),
        decreases m - i,
    {
        let c = s.get_char(n - m + i);
        let p = pattern.get_char(i);
        let ok = if p == '\\' {
            c == '\\' || c == '/'
        } else {
            c == p
        };
        if !ok {
            assert(!path_char_matches(s@[n - m + i], pattern@[i as int]));
            return false;
        }
        i = i + 1;
    }
    true
}

/// Whether `path` is a Windows Store shim, given its reparse-point payload
/// when it has one. Always false off Windows.
pub fn is_windows_store_shim(os: Os, path: &str, reparse_point: Option<&str>) -> (r: bool)
    ensures
        r == is_store_shim(
            os,
            path@,
            match reparse_point {
                Some(t) => Some(t@),
                None => None,
            },
        ),
{
    if os != Os::Windows {
        return false;
    }
    let n = path.unicode_len();
    let absolute = if n >= 3 && path.get_char(1) == ':' {
        let d = path.get_char(0);
        let s2 = path.get_char(2);
        (('A' <= d && d <= 'Z') || ('a' <= d && d <= 'z')) && (s2 == '\\' || s2 == '/')
    } else {
        false
    } || if n >= 2 {
        let s0 = path.get_char(0);
        let s1 = path.get_char(1);
        (s0 == '\\' || s0 == '/') && (s1 == '\\' || s1 == '/')
    } else {
        false
    };
    if !absolute {
        return false;
    }
    if !ends_with_path_exec(path, "\\Microsoft\\WindowsApps\\python.exe") && !ends_with_path_exec(
        path,
        "\\Microsoft\\WindowsApps\\python3.exe",
    ) {
        return false;
    }
    match reparse_point {
        None => false,
        Some(payload) => contains_exec(payload, "\\AppInstallerPythonRedirector.exe"),
    }
}

} // verus!
