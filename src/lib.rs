//! Python interpreter discovery and project workspace resolution.
//!
//! The library decides; the caller performs the filesystem, environment and
//! subprocess work that the decisions ask for, and hands the outcomes back.
//!
//! - [`version`]: version requests (`3`, `3.12`, `3.12.1`), their text and
//!   the executable names they are looked up under.
//! - [`request`]: classifying a request string.
//! - [`source`]: the sources of interpreters and the selection among them.
//! - [`candidates`]: prefiltering toolchains and launcher entries, and the
//!   order in which the search path is probed.
//! - [`discovery`]: [`Search`], the decisions of one search, and
//!   [`BestMatch`], the passes of a best-match search.
//! - [`environment`]: an interpreter with its environment's paths.
//! - [`workspace`]: [`WorkspaceDiscovery`], finding a project's workspace.
pub mod candidates;
pub mod discovery;
pub mod environment;
pub mod implementation;
pub mod interpreter;
pub mod paths;
pub mod platform;
pub mod request;
pub mod source;
pub mod version;
pub mod workspace;

pub use candidates::{LauncherEntry, SearchProbe, Toolchain};
pub use discovery::{
    BestMatch, BestStep, DiscoveredInterpreter, Error as DiscoveryError, InterpreterNotFound,
    Phase, QueryError, Search, Step,
};
pub use environment::{Error, FindPlan, LockLocation, PythonEnvironment};
pub use implementation::ImplementationName;
pub use interpreter::{Interpreter, PythonVersion, Target};
pub use platform::Os;
pub use request::InterpreterRequest;
pub use source::{InterpreterSource, SourceSelector, SystemPython};
pub use version::{VersionParseError, VersionRequest};
pub use workspace::{
    DiscoverError, ProjectWorkspace, PyProjectToml, Source, WorkspaceDecl, WorkspaceDiscovery,
    WorkspaceMember, WorkspacePhase, WorkspaceStep,
};
