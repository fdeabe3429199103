//! The few facts about the host platform that discovery depends on.
use vstd::prelude::*;

verus! {

/// The operating-system family that decides executable names and path syntax.
#[derive(Copy, Clone, Debug, PartialEq, Eq, Structural)]
pub enum Os {
    Unix,
    Windows,
}

/// The suffix that executables carry: `.exe` on Windows, nothing elsewhere.
pub open spec fn exe_suffix_text(os: Os) -> Seq<char> {
    match os {
        Os::Unix => Seq::empty(),
        Os::Windows => ".exe"@,
    }
}

/// The separator between path components.
pub open spec fn separator_of(os: Os) -> char {
    match os {
        Os::Unix => '/',
        Os::Windows => '\\',
    }
}

/// The separator between the entries of a search path.
pub open spec fn list_separator_of(os: Os) -> char {
    match os {
        Os::Unix => ':',
        Os::Windows => ';',
    }
}

/// Relies on `std::path::MAIN_SEPARATOR`: `\` on Windows and `/` on other
/// platforms.
#[verifier::external_body]
fn main_separator() -> (r: char)
    ensures
        r == '/' || r == '\\',
{
    std::path::MAIN_SEPARATOR
}

impl Os {
    /// The platform this library was built for.
    pub fn host() -> (r: Os) {
        if main_separator() == '\\' {
            Os::Windows
        } else {
            Os::Unix
        }
    }

    pub fn exe_suffix(self) -> (r: &'static str)
        ensures
            r@ == exe_suffix_text(self),
    {
        proof {
            reveal_strlit("");
        }
        match self {
            Os::Unix => "",
            Os::Windows => ".exe",
        }
    }

    pub fn separator(self) -> (r: char)
        ensures
            r == separator_of(self),
    {
        match self {
            Os::Unix => '/',
            Os::Windows => '\\',
        }
    }

    pub fn list_separator(self) -> (r: char)
        ensures
            r == list_separator_of(self),
    {
        match self {
            Os::Unix => ':',
            Os::Windows => ';',
        }
    }
}

} // verus!
