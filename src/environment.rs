//! A Python environment: an interpreter and the paths that belong to it.
use vstd::prelude::*;

use crate::discovery::{Error as DiscoveryError, InterpreterNotFound, QueryError};
use crate::implementation::text_equals;
use crate::interpreter::{Interpreter, Target};
use crate::paths::{join, join_text};
use crate::platform::Os;
use crate::source::SystemPython;

verus! {

/// An error in finding or describing an environment.
#[derive(Clone, Debug, PartialEq, Eq)]
pub enum Error {
    VirtualEnv(String),
    Query(QueryError),
    Discovery(DiscoveryError),
    PyLauncher(String),
    NotFound(InterpreterNotFound),
}

/// A Python environment, consisting of an interpreter and its root.
#[derive(Clone, Debug, PartialEq, Eq)]
pub struct PythonEnvironment {
    pub root: String,
    pub interpreter: Interpreter,
}

/// Where the lock that guards writes into an environment lives.
#[derive(Clone, Debug, PartialEq, Eq)]
pub enum LockLocation {
    /// This lock file.
    At(String),
    /// A lock file shared by all processes, named after a digest of the root.
    Global,
}

/// How an environment is to be found.
#[derive(Clone, Debug, PartialEq, Eq)]
pub enum FindPlan {
    /// Search for the interpreter the user asked for.
    Requested,
    /// Search for the default interpreter.
    DefaultInterpreter,
    /// Search the virtual environments; when none is found, fall back to the
    /// default interpreter if the flag is set.
    Virtualenv { fall_back_to_default: bool },
}

/// How to find an environment: what the user asked for first, then a
/// preferred system interpreter, then the virtual environments.
pub open spec fn find_plan(requested: bool, system: SystemPython) -> FindPlan {
    if requested {
        FindPlan::Requested
    } else if system is Required {
        FindPlan::DefaultInterpreter
    } else {
        FindPlan::Virtualenv { fall_back_to_default: system is Allowed }
    }
}

impl PythonEnvironment {
    /// How to find the environment, given whether an interpreter was requested.
    pub fn plan(requested: bool, system: SystemPython) -> (r: FindPlan)
        ensures
            r == find_plan(requested, system),
    {
        if requested {
            FindPlan::Requested
        } else if system.is_preferred() {
            FindPlan::DefaultInterpreter
        } else {
            FindPlan::Virtualenv { fall_back_to_default: system.is_allowed() }
        }
    }

    /// The environment of an interpreter, rooted at its prefix.
    pub fn from_interpreter(interpreter: Interpreter) -> (r: PythonEnvironment)
        ensures
            r.root == interpreter.prefix,
            r.interpreter == interpreter,
    {
        let root = interpreter.prefix.clone();
        PythonEnvironment { root, interpreter }
    }

    /// The same environment, installing into `target`.
    pub fn with_target(self, target: Target) -> (r: PythonEnvironment)
        ensures
            r.root == self.root,
            r.interpreter == (Interpreter { target: Some(target), ..self.interpreter }),
    {
        PythonEnvironment { root: self.root, interpreter: self.interpreter.with_target(target) }
    }

    /// The root (the prefix) of the environment.
    pub fn root(&self) -> (r: &str)
        ensures
            r@ == self.root@,
    {
        self.root.as_str()
    }

    pub fn interpreter(&self) -> (r: &Interpreter)
        ensures
            *r == self.interpreter,
    {
        &self.interpreter
    }

    /// Where the environment's `pyvenv.cfg` is.
    pub fn cfg_path(&self, os: Os) -> (r: String)
        ensures
            r@ == join_text(self.root@, "pyvenv.cfg"@, os),
    {
        join(self.root.as_str(), "pyvenv.cfg", os)
    }

    /// The interpreter's executable.
    pub fn python_executable(&self) -> (r: &str)
        ensures
            r@ == self.interpreter.sys_executable@,
    {
        self.interpreter.sys_executable.as_str()
    }

    /// The directory of the environment's scripts.
    pub fn scripts(&self) -> (r: &str)
        ensures
            r@ == self.interpreter.scripts@,
    {
        self.interpreter.scripts.as_str()
    }

    /// The `site-packages` directories: the target when there is one; else
    /// `purelib`, then `platlib` unless it is the same directory.
    /// `same_file` tells whether the two name one directory on disk.
    pub fn site_packages(&self, same_file: bool) -> (r: Vec<String>)
        ensures
            match self.interpreter.target {
                Some(t) => r@ == seq![t.root],
                None => if self.interpreter.purelib@ == self.interpreter.platlib@ || same_file {
                    r@ == seq![self.interpreter.purelib]
                } else {
                    r@ == seq![self.interpreter.purelib, self.interpreter.platlib]
                },
            },
    {
        match &self.interpreter.target {
            Some(t) => vec![t.root.clone()],
            None => {
                let purelib = &self.interpreter.purelib;
                let platlib = &self.interpreter.platlib;
                if text_equals(purelib.as_str(), platlib.as_str()) || same_file {
                    vec![purelib.clone()]
                } else {
                    vec![purelib.clone(), platlib.clone()]
                }
            },
        }
    }

    /// Where the lock for writes lives: beneath the target for a `--target`
    /// install, beneath the root of a virtual environment, else global.
    pub fn lock_location(&self, os: Os) -> (r: LockLocation)
        ensures
            match self.interpreter.target {
                Some(t) => r is At && r->At_0@ == join_text(t.root@, ".lock"@, os),
                None => if self.interpreter.is_virtualenv {
                    r is At && r->At_0@ == join_text(self.root@, ".lock"@, os)
                } else {
                    r is Global
                },
            },
    {
        match &self.interpreter.target {
            Some(t) => LockLocation::At(join(t.root.as_str(), ".lock", os)),
            None => if self.interpreter.is_virtualenv {
                LockLocation::At(join(self.root.as_str(), ".lock", os))
            } else {
                LockLocation::Global
            },
        }
    }

    pub fn into_interpreter(self) -> (r: Interpreter)
        ensures
            r == self.interpreter,
    {
        self.interpreter
    }
}

} // verus!
