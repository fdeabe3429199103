//! Partial Python version requests: `3`, `3.12`, `3.12.1`, or the default.
use vstd::prelude::*;

use crate::interpreter::{Interpreter, PythonVersion};
use crate::platform::{exe_suffix_text, Os};

verus! {

/// A Python interpreter version request.
#[derive(Copy, Clone, Debug, PartialEq, Eq, Structural)]
pub enum VersionRequest {
    Default,
    Major(u8),
    MajorMinor(u8, u8),
    MajorMinorPatch(u8, u8, u8),
}

/// A version string was not one to three dot-separated decimal components,
/// each at most 255.
#[derive(Copy, Clone, Debug, PartialEq, Eq, Structural)]
pub struct VersionParseError;

pub open spec fn is_digit(c: char) -> bool {
    '0' <= c && c <= '9'
}

pub open spec fn digit_value(c: char) -> nat {
    (c as int - '0' as int) as nat
}

/// The number written by a sequence of decimal digits.
pub open spec fn decimal(s: Seq<char>) -> nat
    decreases s.len(),
{
    if s.len() == 0 {
        0
    } else {
        decimal(s.drop_last()) * 10 + digit_value(s.last())
    }
}

/// One version component: at least one decimal digit, value at most 255.
pub open spec fn is_component(s: Seq<char>) -> bool {
    &&& s.len() > 0
    &&& forall|i: int| 0 <= i < s.len() ==> is_digit(#[trigger] s[i])
    &&& decimal(s) <= 255
}

pub open spec fn component(s: Seq<char>) -> Option<u8> {
    if is_component(s) {
        Some(decimal(s) as u8)
    } else {
        None
    }
}

/// `i` is the position of the first `c` in `s`.
pub open spec fn is_first(s: Seq<char>, c: char, i: int) -> bool {
    &&& 0 <= i < s.len()
    &&& s[i] == c
    &&& forall|k: int| 0 <= k < i ==> s[k] != c
}

pub open spec fn has_char(s: Seq<char>, c: char) -> bool {
    exists|i: int| 0 <= i < s.len() && s[i] == c
}

pub open spec fn first_index(s: Seq<char>, c: char) -> int {
    choose|i: int| is_first(s, c, i)
}

/// The text before the first dot, and the text after it.
pub open spec fn before_dot(s: Seq<char>) -> Seq<char> {
    s.subrange(0, first_index(s, '.'))
}

pub open spec fn after_dot(s: Seq<char>) -> Seq<char> {
    s.subrange(first_index(s, '.') + 1, s.len() as int)
}

/// What a version string denotes: up to three dot-separated components; a
/// third dot leaves a dot inside the last component, which is then invalid.
pub open spec fn parse_version(s: Seq<char>) -> Option<VersionRequest> {
    if !has_char(s, '.') {
        match component(s) {
            Some(major) => Some(VersionRequest::Major(major)),
            None => None,
        }
    } else {
        let rest = after_dot(s);
        if !has_char(rest, '.') {
            match (component(before_dot(s)), component(rest)) {
                (Some(major), Some(minor)) => Some(VersionRequest::MajorMinor(major, minor)),
                _ => None,
            }
        } else {
            match (component(before_dot(s)), component(before_dot(rest)), component(after_dot(rest))) {
                (Some(major), Some(minor), Some(patch)) => Some(
                    VersionRequest::MajorMinorPatch(major, minor, patch),
                ),
                _ => None,
            }
        }
    }
}

pub(crate) proof fn lemma_first_unique(s: Seq<char>, c: char, i: int)
    requires
        is_first(s, c, i),
    ensures
        has_char(s, c),
        first_index(s, c) == i,
{
    assert(is_first(s, c, first_index(s, c)));
    let j = first_index(s, c);
    if j < i {
        assert(s[j] != c);
    } else if i < j {
        assert(s[i] != c);
    }
}

/// Position of the first `c` in `s[from..to]`, or `to` when there is none.
pub(crate) fn find_char(s: &str, c: char, from: usize, to: usize) -> (r: usize)
    requires
        from <= to <= s@.len(),
    ensures
        from <= r <= to,
        r < to ==> is_first(s@.subrange(from as int, to as int), c, r - from),
        r == to ==> !has_char(s@.subrange(from as int, to as int), c),
{
    let mut i = from;
    while i < to
        invariant
            from <= i <= to <= s@.len(),
            forall|k: int| from <= k < i ==> s@[k] != c,
        decreases to - i,
    {
        if s.get_char(i) == c {
            let ghost sub = s@.subrange(from as int, to as int);
            assert(forall|k: int| 0 <= k < i - from ==> sub[k] == s@[from + k]);
            return i;
        }
        i = i + 1;
    }
    let ghost sub = s@.subrange(from as int, to as int);
    assert forall|k: int| 0 <= k < sub.len() implies sub[k] != c by {
        assert(sub[k] == s@[from + k]);
    }
    i
}

/// The component written in `s[from..to]`.
fn parse_component(s: &str, from: usize, to: usize) -> (r: Option<u8>)
    requires
        from <= to <= s@.len(),
    ensures
        r == component(s@.subrange(from as int, to as int)),
{
    let ghost sub = s@.subrange(from as int, to as int);
    if from == to {
        return None;
    }
    // the value read so far, capped at 256
    let mut value: u32 = 0;
    let mut i = from;
    while i < to
        invariant
            from <= i <= to <= s@.len(),
            sub == s@.subrange(from as int, to as int),
            forall|k: int| 0 <= k < i - from ==> is_digit(#[trigger] sub[k]),
            value as nat == if decimal(sub.subrange(0, i - from)) > 256 {
                256
            } else {
                decimal(sub.subrange(0, i - from))
            },
        decreases to - i,
    {
        let c = s.get_char(i);
        assert(c == sub[i - from]);
        if !('0' <= c && c <= '9') {
            assert(!is_component(sub));
            return None;
        }
        let ghost prev = sub.subrange(0, i - from);
        let ghost next = sub.subrange(0, i - from + 1);
        assert(next.drop_last() == prev);
        assert(next.last() == c);
        let d = (c as u32) - ('0' as u32);
        value = value * 10 + d;
        if value > 256 {
            value = 256;
        }
        i = i + 1;
    }
    assert(sub.subrange(0, sub.len() as int) == sub);
    if value > 255 {
        None
    } else {
        Some(value as u8)
    }
}

impl VersionRequest {
    /// Parse a version request such as `3`, `3.12` or `3.12.1`.
    pub fn parse(s: &str) -> (r: Result<VersionRequest, VersionParseError>)
        ensures
            r is Ok <==> parse_version(s@) is Some,
            r is Ok ==> Some(r->Ok_0) == parse_version(s@),
    {
        let n = s.unicode_len();
        let ghost t = s@;
        assert(t.subrange(0, n as int) == t);
        let first = find_char(s, '.', 0, n);
        if first == n {
            return match parse_component(s, 0, n) {
                Some(major) => Ok(VersionRequest::Major(major)),
                None => Err(VersionParseError),
            };
        }
        proof {
            lemma_first_unique(t, '.', first as int);
        }
        let second = find_char(s, '.', first + 1, n);
        let ghost rest = t.subrange(first + 1, n as int);
        assert(after_dot(t) == rest);
        assert(before_dot(t) == t.subrange(0, first as int));
        let major = parse_component(s, 0, first);
        if second == n {
            let minor = parse_component(s, first + 1, n);
            return match (major, minor) {
                (Some(major), Some(minor)) => Ok(VersionRequest::MajorMinor(major, minor)),
                _ => Err(VersionParseError),
            };
        }
        proof {
            lemma_first_unique(rest, '.', second - first - 1);
            assert(before_dot(rest) == t.subrange(first + 1, second as int));
            assert(after_dot(rest) == t.subrange(second + 1, n as int));
        }
        let minor = parse_component(s, first + 1, second);
        let patch = parse_component(s, second + 1, n);
        match (major, minor, patch) {
            (Some(major), Some(minor), Some(patch)) => Ok(
                VersionRequest::MajorMinorPatch(major, minor, patch),
            ),
            _ => Err(VersionParseError),
        }
    }
}


/// The decimal digit for `d < 10`.
pub open spec fn digit_char(d: nat) -> char {
    if d == 0 {
        '0'
    } else if d == 1 {
        '1'
    } else if d == 2 {
        '2'
    } else if d == 3 {
        '3'
    } else if d == 4 {
        '4'
    } else if d == 5 {
        '5'
    } else if d == 6 {
        '6'
    } else if d == 7 {
        '7'
    } else if d == 8 {
        '8'
    } else {
        '9'
    }
}

/// `n` written in decimal, without leading zeros.
pub open spec fn decimal_text(n: nat) -> Seq<char>
    decreases n,
{
    if n < 10 {
        seq![digit_char(n)]
    } else {
        decimal_text(n / 10).push(digit_char(n % 10))
    }
}

/// The text of a version request: `default`, or its components joined by dots.
pub open spec fn version_text(v: VersionRequest) -> Seq<char> {
    match v {
        VersionRequest::Default => "default"@,
        VersionRequest::Major(major) => decimal_text(major as nat),
        VersionRequest::MajorMinor(major, minor) => decimal_text(major as nat) + seq!['.']
            + decimal_text(minor as nat),
        VersionRequest::MajorMinorPatch(major, minor, patch) => decimal_text(major as nat) + seq![
            '.',
        ] + decimal_text(minor as nat) + seq!['.'] + decimal_text(patch as nat),
    }
}

fn digit_str(d: u8) -> (r: &'static str)
    requires
        d < 10,
    ensures
        r@ == seq![digit_char(d as nat)],
{
    proof {
        reveal_strlit("0");
        reveal_strlit("1");
        reveal_strlit("2");
        reveal_strlit("3");
        reveal_strlit("4");
        reveal_strlit("5");
        reveal_strlit("6");
        reveal_strlit("7");
        reveal_strlit("8");
        reveal_strlit("9");
    }
    match d {
        0 => "0",
        1 => "1",
        2 => "2",
        3 => "3",
        4 => "4",
        5 => "5",
        6 => "6",
        7 => "7",
        8 => "8",
        _ => "9",
    }
}

/// Append `n` in decimal to `out`.
fn push_decimal(out: &mut String, n: u8)
    ensures
        final(out)@ == old(out)@ + decimal_text(n as nat),
{
    let ghost start = out@;
    if n >= 100 {
        out.append(digit_str(n / 100));
        out.append(digit_str((n / 10) % 10));
        out.append(digit_str(n % 10));
        assert((n / 10) / 10 == n / 100);
        assert(decimal_text((n / 10) as nat) == decimal_text((n / 100) as nat).push(
            digit_char(((n / 10) % 10) as nat),
        ));
        assert(decimal_text(n as nat) == decimal_text((n / 100) as nat).push(
            digit_char(((n / 10) % 10) as nat),
        ).push(digit_char((n % 10) as nat)));
    } else if n >= 10 {
        out.append(digit_str(n / 10));
        out.append(digit_str(n % 10));
        assert(decimal_text(n as nat) == decimal_text((n / 10) as nat).push(
            digit_char((n % 10) as nat),
        ));
    } else {
        out.append(digit_str(n));
    }
    assert(out@ == start + decimal_text(n as nat));
}

impl VersionRequest {
    /// The request written out: `default`, `3`, `3.12` or `3.12.1`.
    pub fn to_string(&self) -> (r: String)
        ensures
            r@ == version_text(*self),
    {
        match *self {
            VersionRequest::Default => String::from_str("default"),
            VersionRequest::Major(major) => {
                let mut out = String::new();
                push_decimal(&mut out, major);
                out
            },
            VersionRequest::MajorMinor(major, minor) => {
                let mut out = String::new();
                push_decimal(&mut out, major);
                out.append(".");
                push_decimal(&mut out, minor);
                proof {
                    reveal_strlit(".");
                }
                out
            },
            VersionRequest::MajorMinorPatch(major, minor, patch) => {
                let mut out = String::new();
                push_decimal(&mut out, major);
                out.append(".");
                push_decimal(&mut out, minor);
                out.append(".");
                push_decimal(&mut out, patch);
                proof {
                    reveal_strlit(".");
                }
                out
            },
        }
    }
}

/// The request for exactly a declared version: all of its components.
pub open spec fn request_for(v: PythonVersion) -> VersionRequest {
    match v.patch {
        Some(p) => VersionRequest::MajorMinorPatch(v.major, v.minor, p),
        None => VersionRequest::MajorMinor(v.major, v.minor),
    }
}

/// The executable names under which a request may be found in one directory,
/// from the most to the least specific.
pub open spec fn possible_names(v: VersionRequest, os: Os) -> Seq<Seq<char>> {
    let ext = exe_suffix_text(os);
    let python = "python"@ + ext;
    match v {
        VersionRequest::Default => seq!["python"@ + "3"@ + ext, python],
        VersionRequest::Major(_) => seq!["python"@ + version_text(v) + ext, python],
        VersionRequest::MajorMinor(major, _) => seq![
            "python"@ + version_text(v) + ext,
            "python"@ + version_text(VersionRequest::Major(major)) + ext,
            python,
        ],
        VersionRequest::MajorMinorPatch(major, minor, _) => seq![
            "python"@ + version_text(v) + ext,
            "python"@ + version_text(VersionRequest::MajorMinor(major, minor)) + ext,
            "python"@ + version_text(VersionRequest::Major(major)) + ext,
            python,
        ],
    }
}

pub open spec fn matches_triple(v: VersionRequest, major: u8, minor: u8, patch: u8) -> bool {
    match v {
        VersionRequest::Default => true,
        VersionRequest::Major(a) => a == major,
        VersionRequest::MajorMinor(a, b) => a == major && b == minor,
        VersionRequest::MajorMinorPatch(a, b, c) => a == major && b == minor && c == patch,
    }
}

pub open spec fn matches_version_spec(v: VersionRequest, version: PythonVersion) -> bool {
    match v {
        VersionRequest::Default => true,
        VersionRequest::Major(a) => a == version.major,
        VersionRequest::MajorMinor(a, b) => a == version.major && b == version.minor,
        VersionRequest::MajorMinorPatch(a, b, c) => a == version.major && b == version.minor
            && version.patch == Some(c),
    }
}

pub open spec fn matches_major_minor_spec(v: VersionRequest, major: u8, minor: u8) -> bool {
    match v {
        VersionRequest::Default => true,
        VersionRequest::Major(a) => a == major,
        VersionRequest::MajorMinor(a, b) => a == major && b == minor,
        VersionRequest::MajorMinorPatch(a, b, _) => a == major && b == minor,
    }
}

pub open spec fn without_patch_spec(v: VersionRequest) -> VersionRequest {
    match v {
        VersionRequest::MajorMinorPatch(a, b, _) => VersionRequest::MajorMinor(a, b),
        _ => v,
    }
}

/// `prefix + text` as a new string.
fn joined(prefix: &str, text: String, suffix: &str) -> (r: String)
    ensures
        r@ == prefix@ + text@ + suffix@,
{
    let out = String::from_str(prefix);
    let out = out.concat(text.as_str());
    out.concat(suffix)
}

impl VersionRequest {
    /// The executable names to look for in each search-path directory, most
    /// specific first.
    pub fn possible_names(self, os: Os) -> (r: Vec<String>)
        ensures
            r@.len() == possible_names(self, os).len(),
            forall|i: int| 0 <= i < r@.len() ==> r@[i]@ == #[trigger] possible_names(self, os)[i],
    {
        let ext = os.exe_suffix();
        let mut names: Vec<String> = Vec::new();
        match self {
            VersionRequest::Default => {
                names.push(joined("python", String::from_str("3"), ext));
            },
            VersionRequest::Major(_) => {
                names.push(joined("python", self.to_string(), ext));
            },
            VersionRequest::MajorMinor(major, _) => {
                names.push(joined("python", self.to_string(), ext));
                names.push(joined("python", VersionRequest::Major(major).to_string(), ext));
            },
            VersionRequest::MajorMinorPatch(major, minor, _) => {
                names.push(joined("python", self.to_string(), ext));
                names.push(joined("python", VersionRequest::MajorMinor(major, minor).to_string(), ext));
                names.push(joined("python", VersionRequest::Major(major).to_string(), ext));
            },
        }
        names.push(joined("python", String::new(), ext));
        proof {
            assert("python"@ + Seq::<char>::empty() + ext@ == "python"@ + ext@);
        }
        names
    }

    /// Whether an interpreter has the requested version.
    pub fn matches_interpreter(self, interpreter: &Interpreter) -> (r: bool)
        ensures
            r == matches_triple(self, interpreter.major, interpreter.minor, interpreter.patch),
    {
        self.matches_triple(interpreter.major, interpreter.minor, interpreter.patch)
    }

    /// Whether a full version satisfies the request.
    pub fn matches_triple(self, major: u8, minor: u8, patch: u8) -> (r: bool)
        ensures
            r == matches_triple(self, major, minor, patch),
    {
        match self {
            VersionRequest::Default => true,
            VersionRequest::Major(a) => a == major,
            VersionRequest::MajorMinor(a, b) => a == major && b == minor,
            VersionRequest::MajorMinorPatch(a, b, c) => a == major && b == minor && c == patch,
        }
    }

    /// Whether a declared version satisfies the request; a requested patch
    /// needs a declared one.
    pub fn matches_version(self, version: &PythonVersion) -> (r: bool)
        ensures
            r == matches_version_spec(self, *version),
    {
        match self {
            VersionRequest::Default => true,
            VersionRequest::Major(a) => a == version.major,
            VersionRequest::MajorMinor(a, b) => a == version.major && b == version.minor,
            VersionRequest::MajorMinorPatch(a, b, c) => a == version.major && b == version.minor
                && match version.patch {
                Some(p) => p == c,
                None => false,
            },
        }
    }

    /// Whether a major and minor version satisfy the request, ignoring any
    /// requested patch.
    pub fn matches_major_minor(self, major: u8, minor: u8) -> (r: bool)
        ensures
            r == matches_major_minor_spec(self, major, minor),
    {
        match self {
            VersionRequest::Default => true,
            VersionRequest::Major(a) => a == major,
            VersionRequest::MajorMinor(a, b) => a == major && b == minor,
            VersionRequest::MajorMinorPatch(a, b, _) => a == major && b == minor,
        }
    }

    /// The request for exactly this declared version.
    pub fn from_python_version(version: &PythonVersion) -> (r: VersionRequest)
        ensures
            r == request_for(*version),
            matches_version_spec(r, *version),
    {
        match version.patch {
            Some(p) => VersionRequest::MajorMinorPatch(version.major, version.minor, p),
            None => VersionRequest::MajorMinor(version.major, version.minor),
        }
    }

    /// True only for a request with three components.
    pub fn has_patch(self) -> (r: bool)
        ensures
            r <==> self is MajorMinorPatch,
    {
        match self {
            VersionRequest::MajorMinorPatch(..) => true,
            _ => false,
        }
    }

    /// The request without its patch component.
    pub fn without_patch(self) -> (r: VersionRequest)
        ensures
            r == without_patch_spec(self),
    {
        match self {
            VersionRequest::MajorMinorPatch(a, b, _) => VersionRequest::MajorMinor(a, b),
            _ => self,
        }
    }
}

proof fn lemma_digit(d: nat)
    requires
        d < 10,
    ensures
        digit_value(digit_char(d)) == d,
        is_digit(digit_char(d)),
{
}

proof fn lemma_decimal_text(n: nat)
    ensures
        decimal_text(n).len() > 0,
        forall|i: int| 0 <= i < decimal_text(n).len() ==> is_digit(#[trigger] decimal_text(n)[i]),
        decimal(decimal_text(n)) == n,
    decreases n,
{
    if n < 10 {
        lemma_digit(n);
        let t = decimal_text(n);
        assert(t.drop_last() =~= Seq::<char>::empty());
        assert(decimal(t) == decimal(t.drop_last()) * 10 + digit_value(t.last()));
    } else {
        lemma_decimal_text(n / 10);
        lemma_digit(n % 10);
        let t = decimal_text(n);
        let u = decimal_text(n / 10);
        assert(t.drop_last() == u);
        assert(t.last() == digit_char(n % 10));
        assert(decimal(t) == decimal(u) * 10 + digit_value(digit_char(n % 10)));
        assert((n / 10) * 10 + n % 10 == n);
        assert forall|i: int| 0 <= i < t.len() implies is_digit(#[trigger] t[i]) by {
            if i < u.len() {
                assert(t[i] == u[i]);
            }
        }
    }
}

proof fn lemma_component_text(n: u8)
    ensures
        component(decimal_text(n as nat)) == Some(n),
        !has_char(decimal_text(n as nat), '.'),
{
    lemma_decimal_text(n as nat);
    let t = decimal_text(n as nat);
    if has_char(t, '.') {
        let i = choose|i: int| 0 <= i < t.len() && t[i] == '.';
        assert(is_digit(t[i]));
    }
}

/// `a` followed by a dot and `b`, where `a` has no dot: the first dot is
/// the one between them.
proof fn lemma_split_at_dot(a: Seq<char>, b: Seq<char>)
    requires
        !has_char(a, '.'),
    ensures
        has_char(a + seq!['.'] + b, '.'),
        before_dot(a + seq!['.'] + b) == a,
        after_dot(a + seq!['.'] + b) == b,
{
    let s = a + seq!['.'] + b;
    assert(s[a.len() as int] == '.');
    assert forall|k: int| 0 <= k < a.len() implies s[k] != '.' by {
        assert(s[k] == a[k]);
        if a[k] == '.' {
            assert(has_char(a, '.'));
        }
    }
    assert(is_first(s, '.', a.len() as int));
    lemma_first_unique(s, '.', a.len() as int);
    assert(s.subrange(0, a.len() as int) =~= a);
    assert(s.subrange(a.len() as int + 1, s.len() as int) =~= b);
}

/// A version request reads back from its own text.
pub proof fn lemma_version_round_trip(v: VersionRequest)
    requires
        !(v is Default),
    ensures
        parse_version(version_text(v)) == Some(v),
{
    match v {
        VersionRequest::Major(a) => {
            lemma_component_text(a);
        },
        VersionRequest::MajorMinor(a, b) => {
            lemma_component_text(a);
            lemma_component_text(b);
            lemma_split_at_dot(decimal_text(a as nat), decimal_text(b as nat));
        },
        VersionRequest::MajorMinorPatch(a, b, c) => {
            lemma_component_text(a);
            lemma_component_text(b);
            lemma_component_text(c);
            let ta = decimal_text(a as nat);
            let tb = decimal_text(b as nat);
            let tc = decimal_text(c as nat);
            let rest = tb + seq!['.'] + tc;
            assert(version_text(v) == ta + seq!['.'] + rest);
            lemma_split_at_dot(ta, rest);
            lemma_split_at_dot(tb, tc);
        },
        VersionRequest::Default => {},
    }
}

impl std::str::FromStr for VersionRequest {
    type Err = VersionParseError;

    fn from_str(s: &str) -> Result<VersionRequest, VersionParseError> {
        VersionRequest::parse(s)
    }
}

} // verus!
