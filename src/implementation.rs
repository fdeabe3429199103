//! The known Python implementations.
use vstd::prelude::*;

verus! {

/// A known Python implementation.
#[derive(Copy, Clone, Debug, PartialEq, Eq, Structural)]
pub enum ImplementationName {
    Cpython,
    PyPy,
}

/// The canonical lowercase name of an implementation.
pub open spec fn implementation_text(i: ImplementationName) -> Seq<char> {
    match i {
        ImplementationName::Cpython => "cpython"@,
        ImplementationName::PyPy => "pypy"@,
    }
}

/// `c` lowercased (ASCII letters only) is `n`.
pub open spec fn ascii_lower_is(c: char, n: char) -> bool {
    if 'A' <= c && c <= 'Z' {
        c as int + 32 == n as int
    } else {
        c == n
    }
}

/// `s` begins with `name`, ignoring ASCII case in `s`.
pub open spec fn starts_with_ci(s: Seq<char>, name: Seq<char>) -> bool {
    &&& s.len() >= name.len()
    &&& forall|i: int| 0 <= i < name.len() ==> ascii_lower_is(#[trigger] s[i], name[i])
}

/// `s` is `name`, ignoring ASCII case in `s`.
pub open spec fn equals_ci(s: Seq<char>, name: Seq<char>) -> bool {
    s.len() == name.len() && starts_with_ci(s, name)
}

/// The implementation that `s` names, ignoring case.
pub open spec fn implementation_of(s: Seq<char>) -> Option<ImplementationName> {
    if equals_ci(s, "cpython"@) {
        Some(ImplementationName::Cpython)
    } else if equals_ci(s, "pypy"@) {
        Some(ImplementationName::PyPy)
    } else {
        None
    }
}

/// Whether `s[from..]` begins with `name`, ignoring ASCII case in `s`.
pub fn starts_with_ci_at(s: &str, from: usize, name: &str) -> (r: bool)
    requires
        from <= s@.len(),
    ensures
        r == starts_with_ci(s@.subrange(from as int, s@.len() as int), name@),
{
    let ghost sub = s@.subrange(from as int, s@.len() as int);
    let n = s.unicode_len();
    let m = name.unicode_len();
    if n - from < m {
        return false;
    }
    let mut i: usize = 0;
    while i < m
        invariant
            n == s@.len(),
            m == name@.len(),
            from + m <= n,
            sub == s@.subrange(from as int, s@.len() as int),
            forall|k: int| 0 <= k < i ==> ascii_lower_is(#[trigger] sub[k], name@[k]),
        decreases m - i,
    {
        let c = s.get_char(from + i);
        let l = name.get_char(i);
        assert(sub[i as int] == c);
        let same = if 'A' <= c && c <= 'Z' {
            (c as u32) + 32 == (l as u32)
        } else {
            c == l
        };
        if !same {
            return false;
        }
        i = i + 1;
    }
    true
}

/// Whether two strings are equal.
pub fn text_equals(a: &str, b: &str) -> (r: bool)
    ensures
        r == (a@ == b@),
{
    let n = a.unicode_len();
    if n != b.unicode_len() {
        return false;
    }
    let mut i: usize = 0;
    while i < n
        invariant
            n == a@.len() == b@.len(),
            forall|k: int| 0 <= k < i ==> a@[k] == b@[k],
        decreases n - i,
    {
        if a.get_char(i) != b.get_char(i) {
            return false;
        }
        i = i + 1;
    }
    assert(a@ == b@);
    true
}

impl ImplementationName {
    /// Every known implementation, in the order in which requests try them.
    pub fn iter() -> (r: Vec<ImplementationName>)
        ensures
            r@ == seq![ImplementationName::Cpython, ImplementationName::PyPy],
    {
        vec![ImplementationName::Cpython, ImplementationName::PyPy]
    }

    /// The canonical lowercase name.
    pub fn as_str(self) -> (r: &'static str)
        ensures
            r@ == implementation_text(self),
    {
        match self {
            ImplementationName::Cpython => "cpython",
            ImplementationName::PyPy => "pypy",
        }
    }

    /// The implementation named by `s`, in any ASCII case.
    pub fn parse(s: &str) -> (r: Option<ImplementationName>)
        ensures
            r == implementation_of(s@),
    {
        let n = s.unicode_len();
        assert(s@.subrange(0, s@.len() as int) == s@);
        let cpython = "cpython";
        if n == cpython.unicode_len() && starts_with_ci_at(s, 0, cpython) {
            return Some(ImplementationName::Cpython);
        }
        let pypy = "pypy";
        if n == pypy.unicode_len() && starts_with_ci_at(s, 0, pypy) {
            return Some(ImplementationName::PyPy);
        }
        None
    }
}

} // verus!
