//! Path text: joining components, executables inside environments, search
//! path entries, and the Windows Store alias shim.
use vstd::prelude::*;

use crate::platform::{separator_of, Os};

verus! {

/// `part` joined below `base`: an absolute `part` replaces `base`, and a
/// separator is added only where `base` does not already end in one.
pub open spec fn join_text(base: Seq<char>, part: Seq<char>, os: Os) -> Seq<char> {
    let sep = separator_of(os);
    if part.len() > 0 && part[0] == sep {
        part
    } else if base.len() == 0 || base.last() == sep {
        base + part
    } else {
        base + seq![sep] + part
    }
}

/// The conventional interpreter inside a virtual environment:
/// `bin/python`, or `Scripts\python.exe` on Windows.
pub open spec fn venv_executable_text(root: Seq<char>, os: Os) -> Seq<char> {
    match os {
        Os::Unix => join_text(join_text(root, "bin"@, os), "python"@, os),
        Os::Windows => join_text(join_text(root, "Scripts"@, os), "python.exe"@, os),
    }
}

/// `part` joined below `base`.
pub fn join(base: &str, part: &str, os: Os) -> (r: String)
    ensures
        r@ == join_text(base@, part@, os),
{
    let sep = os.separator();
    let n = base.unicode_len();
    if part.unicode_len() > 0 && part.get_char(0) == sep {
        return String::from_str(part);
    }
    if n == 0 || base.get_char(n - 1) == sep {
        return String::from_str(base).concat(part);
    }
    let sep_str = match os {
        Os::Unix => "/",
        Os::Windows => "\\",
    };
    proof {
        reveal_strlit("/");
        reveal_strlit("\\");
    }
    String::from_str(base).concat(sep_str).concat(part)
}

/// The interpreter of the virtual environment at `root`.
pub fn virtualenv_python_executable(root: &str, os: Os) -> (r: String)
    ensures
        r@ == venv_executable_text(root@, os),
{
    match os {
        Os::Unix => {
            let bin = join(root, "bin", os);
            join(bin.as_str(), "python", os)
        },
        Os::Windows => {
            let scripts = join(root, "Scripts", os);
            join(scripts.as_str(), "python.exe", os)
        },
    }
}

} // verus!
