//! What discovery needs to know of a queried interpreter.
use vstd::prelude::*;

verus! {

/// An install target directory (`--target`), in place of site-packages.
#[derive(Clone, Debug, PartialEq, Eq)]
pub struct Target {
    pub root: String,
}

/// A Python version as a toolchain declares it; the patch may be absent.
#[derive(Copy, Clone, Debug, PartialEq, Eq, Structural)]
pub struct PythonVersion {
    pub major: u8,
    pub minor: u8,
    pub patch: Option<u8>,
}

/// The metadata of an interpreter, as its introspection reported it.
#[derive(Clone, Debug, PartialEq, Eq)]
pub struct Interpreter {
    /// The implementation name, e.g. `cpython` or `pypy`.
    pub implementation_name: String,
    pub major: u8,
    pub minor: u8,
    pub patch: u8,
    pub prefix: String,
    pub sys_executable: String,
    pub scripts: String,
    pub purelib: String,
    pub platlib: String,
    pub is_virtualenv: bool,
    pub target: Option<Target>,
}

impl Interpreter {
    /// The same interpreter, installing into `target`.
    pub fn with_target(self, target: Target) -> (r: Interpreter)
        ensures
            r == (Interpreter { target: Some(target), ..self }),
    {
        Interpreter { target: Some(target), ..self }
    }
}

} // verus!
