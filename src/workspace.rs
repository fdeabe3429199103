//! Finding the project that encloses a directory and the workspace it
//! belongs to.
//!
//! A [`WorkspaceDiscovery`] decides; its caller reads manifests and expands
//! globs when a [`WorkspaceStep`] asks for it.
use vstd::prelude::*;

use crate::candidates::views;
use crate::implementation::text_equals;
use crate::paths::{join, join_text};
use crate::platform::{separator_of, Os};

verus! {

/// A per-package source override of a workspace, as its table holds it.
#[derive(Clone, Debug, PartialEq, Eq)]
pub struct Source {
    pub git: Option<String>,
    pub url: Option<String>,
    pub path: Option<String>,
    pub index: Option<String>,
    pub subdirectory: Option<String>,
    pub rev: Option<String>,
    pub tag: Option<String>,
    pub branch: Option<String>,
    pub workspace: Option<bool>,
    pub editable: Option<bool>,
}

/// The workspace table of a manifest: member globs and exclude globs,
/// relative to the manifest's directory.
#[derive(Clone, Debug, PartialEq, Eq)]
pub struct WorkspaceDecl {
    pub members: Vec<String>,
    pub exclude: Vec<String>,
}

/// What discovery reads from a `pyproject.toml`.
#[derive(Clone, Debug, PartialEq, Eq)]
pub struct PyProjectToml {
    /// The name in the `project` table, when there is one.
    pub project_name: Option<String>,
    /// The workspace table, when there is one.
    pub workspace: Option<WorkspaceDecl>,
    /// The source table: package name and override.
    pub sources: Vec<(String, Source)>,
}

/// A package of a workspace.
#[derive(Clone, Debug, PartialEq, Eq)]
pub struct WorkspaceMember {
    /// The project root of the package.
    pub root: String,
    /// The package's own manifest, read from the member's directory; the
    /// manifest of the workspace root is not used in its place. For the
    /// workspace root, its workspace table and source overrides are held by
    /// the [`ProjectWorkspace`].
    pub pyproject_toml: PyProjectToml,
}

/// A project and the workspace it belongs to.
#[derive(Clone, Debug, PartialEq, Eq)]
pub struct ProjectWorkspace {
    pub project_root: String,
    pub project_name: String,
    pub workspace_root: String,
    /// The members by package name, each name once.
    pub workspace_packages: Vec<(String, WorkspaceMember)>,
    /// The source overrides of the workspace.
    pub workspace_sources: Vec<(String, Source)>,
}

/// Why a project or its workspace could not be resolved.
#[derive(Clone, Debug, PartialEq, Eq)]
pub enum DiscoverError {
    /// No `pyproject.toml` in the project directory.
    MissingPyprojectToml,
    /// A workspace member has no `pyproject.toml`.
    MissingMemberPyprojectToml(String),
    /// A glob is not a valid pattern: the glob and the reason.
    Pattern(String, String),
    /// Expanding a glob failed: the glob and the reason.
    Glob(String, String),
    Io(String),
    Toml(String),
    /// The manifest at this path has no `project` table.
    MissingProject(String),
}

impl ProjectWorkspace {
    /// The project's manifest.
    pub fn project_pyproject_toml(&self, os: Os) -> (r: String)
        ensures
            r@ == join_text(self.project_root@, "pyproject.toml"@, os),
    {
        join(self.project_root.as_str(), "pyproject.toml", os)
    }

    pub fn workspace_sources(&self) -> (r: &Vec<(String, Source)>)
        ensures
            *r == self.workspace_sources,
    {
        &self.workspace_sources
    }

    pub fn workspace_packages(&self) -> (r: &Vec<(String, WorkspaceMember)>)
        ensures
            *r == self.workspace_packages,
    {
        &self.workspace_packages
    }
}

/// The message for a discovery error.
pub open spec fn discover_error_text(e: DiscoverError) -> Seq<char> {
    match e {
        DiscoverError::MissingPyprojectToml =>
            "No `pyproject.toml` found in current directory or any parent directory"@,
        DiscoverError::MissingMemberPyprojectToml(p) => "No `pyproject.toml` found for workspace member: "@
            + p@,
        DiscoverError::Pattern(g, _) => "Failed to find directories for glob: `"@ + g@ + "`"@,
        DiscoverError::Glob(g, _) => "Invalid glob: `"@ + g@ + "`"@,
        DiscoverError::Io(m) => m@,
        DiscoverError::Toml(m) => m@,
        DiscoverError::MissingProject(p) => "No `project` section found in: "@ + p@,
    }
}

impl DiscoverError {
    /// The message for the error.
    pub fn to_string(&self) -> (r: String)
        ensures
            r@ == discover_error_text(*self),
    {
        match self {
            DiscoverError::MissingPyprojectToml => String::from_str(
                "No `pyproject.toml` found in current directory or any parent directory",
            ),
            DiscoverError::MissingMemberPyprojectToml(p) => String::from_str(
                "No `pyproject.toml` found for workspace member: ",
            ).concat(p.as_str()),
            DiscoverError::Pattern(g, _) => String::from_str("Failed to find directories for glob: `")
                .concat(g.as_str()).concat("`"),
            DiscoverError::Glob(g, _) => String::from_str("Invalid glob: `").concat(g.as_str()).concat(
                "`",
            ),
            DiscoverError::Io(m) => m.clone(),
            DiscoverError::Toml(m) => m.clone(),
            DiscoverError::MissingProject(p) => String::from_str("No `project` section found in: ")
                .concat(p.as_str()),
        }
    }
}

/// Package names are unique among the members.
pub open spec fn keys_unique(v: Seq<(String, WorkspaceMember)>) -> bool {
    forall|i: int, j: int| 0 <= i < j < v.len() ==> v[i].0@ != v[j].0@
}

pub open spec fn has_key(v: Seq<(String, WorkspaceMember)>, k: Seq<char>) -> bool {
    exists|i: int| 0 <= i < v.len() && v[i].0@ == k
}

/// The members as a map from package name to member root.
pub open spec fn member_roots(v: Seq<(String, WorkspaceMember)>) -> Map<Seq<char>, Seq<char>> {
    Map::new(
        |k: Seq<char>| has_key(v, k),
        |k: Seq<char>| v[choose|i: int| 0 <= i < v.len() && v[i].0@ == k].1.root@,
    )
}

proof fn lemma_root_at(v: Seq<(String, WorkspaceMember)>, i: int)
    requires
        keys_unique(v),
        0 <= i < v.len(),
    ensures
        member_roots(v).contains_key(v[i].0@),
        member_roots(v)[v[i].0@] == v[i].1.root@,
{
    let k = v[i].0@;
    assert(has_key(v, k));
    let j = choose|j: int| 0 <= j < v.len() && v[j].0@ == k;
    if j != i {
        if j < i {
            assert(v[j].0@ != v[i].0@);
        } else {
            assert(v[i].0@ != v[j].0@);
        }
    }
}

/// Insert a member, replacing any member of the same name.
fn insert_member(members: &mut Vec<(String, WorkspaceMember)>, name: String, member: WorkspaceMember)
    requires
        keys_unique(old(members)@),
    ensures
        keys_unique(final(members)@),
        member_roots(final(members)@) == member_roots(old(members)@).insert(name@, member.root@),
{
    let ghost old_v = members@;
    let mut i: usize = 0;
    let mut found = false;
    while i < members.len() && !found
        invariant
            members@ == old_v,
            i <= members@.len(),
            found ==> i < members@.len() && members@[i as int].0@ == name@,
            !found ==> forall|j: int| 0 <= j < i ==> members@[j].0@ != name@,
        decreases members.len() - i + (if found { 0int } else { 1int }),
    {
        if text_equals(members[i].0.as_str(), name.as_str()) {
            found = true;
        } else {
            i = i + 1;
        }
    }
    if found {
        let ghost k = name@;
        let ghost r = member.root@;
        members.set(i, (name, member));
        proof {
            let v = members@;
            assert forall|a: int, b: int| 0 <= a < b < v.len() implies v[a].0@ != v[b].0@ by {
                assert(old_v[a].0@ != old_v[b].0@);
            }
            lemma_map_after_set(old_v, v, i as int);
        }
    } else {
        let ghost k = name@;
        members.push((name, member));
        proof {
            let v = members@;
            assert forall|a: int, b: int| 0 <= a < b < v.len() implies v[a].0@ != v[b].0@ by {
                if b == v.len() - 1 {
                    assert(old_v[a].0@ != k);
                } else {
                    assert(old_v[a].0@ != old_v[b].0@);
                }
            }
            lemma_map_after_push(old_v, v);
        }
    }
}

proof fn lemma_map_after_set(
    old_v: Seq<(String, WorkspaceMember)>,
    v: Seq<(String, WorkspaceMember)>,
    i: int,
)
    requires
        keys_unique(old_v),
        keys_unique(v),
        0 <= i < old_v.len(),
        v.len() == old_v.len(),
        v[i].0@ == old_v[i].0@,
        forall|j: int| 0 <= j < v.len() && j != i ==> v[j] == old_v[j],
    ensures
        member_roots(v) == member_roots(old_v).insert(v[i].0@, v[i].1.root@),
{
    let m = member_roots(old_v).insert(v[i].0@, v[i].1.root@);
    assert forall|k: Seq<char>| has_key(v, k) <==> m.contains_key(k) by {
        if has_key(v, k) {
            let j = choose|j: int| 0 <= j < v.len() && v[j].0@ == k;
            if j != i {
                assert(old_v[j].0@ == k);
            }
        }
        if has_key(old_v, k) {
            let j = choose|j: int| 0 <= j < old_v.len() && old_v[j].0@ == k;
            if j != i {
                assert(v[j].0@ == k);
            }
        }
    }
    assert forall|k: Seq<char>| #[trigger] has_key(v, k) implies member_roots(v)[k] == m[k] by {
        let j = choose|j: int| 0 <= j < v.len() && v[j].0@ == k;
        lemma_root_at(v, j);
        if j != i {
            lemma_root_at(old_v, j);
        }
    }
    assert(member_roots(v) =~= m);
}

proof fn lemma_map_after_push(old_v: Seq<(String, WorkspaceMember)>, v: Seq<(String, WorkspaceMember)>)
    requires
        keys_unique(old_v),
        keys_unique(v),
        v.len() == old_v.len() + 1,
        forall|j: int| 0 <= j < old_v.len() ==> v[j] == old_v[j],
    ensures
        member_roots(v) == member_roots(old_v).insert(v.last().0@, v.last().1.root@),
{
    let n = old_v.len() as int;
    let m = member_roots(old_v).insert(v[n].0@, v[n].1.root@);
    assert forall|k: Seq<char>| has_key(v, k) <==> m.contains_key(k) by {
        if has_key(v, k) {
            let j = choose|j: int| 0 <= j < v.len() && v[j].0@ == k;
            if j != n {
                assert(old_v[j].0@ == k);
            }
        }
        if has_key(old_v, k) {
            let j = choose|j: int| 0 <= j < old_v.len() && old_v[j].0@ == k;
            assert(v[j].0@ == k);
        }
    }
    assert forall|k: Seq<char>| #[trigger] has_key(v, k) implies member_roots(v)[k] == m[k] by {
        let j = choose|j: int| 0 <= j < v.len() && v[j].0@ == k;
        lemma_root_at(v, j);
        if j != n {
            lemma_root_at(old_v, j);
        }
    }
    assert(member_roots(v) =~= m);
}

/// Whether `path` is among `paths`.
fn contains_path(paths: &Vec<String>, path: &str) -> (r: bool)
    ensures
        r == views(paths@).contains(path@),
{
    let mut i: usize = 0;
    while i < paths.len()
        invariant
            i <= paths@.len(),
            forall|j: int| 0 <= j < i ==> paths@[j]@ != path@,
        decreases paths.len() - i,
    {
        if text_equals(paths[i].as_str(), path) {
            assert(views(paths@)[i as int] == path@);
            return true;
        }
        i = i + 1;
    }
    proof {
        if views(paths@).contains(path@) {
            let j = choose|j: int| 0 <= j < views(paths@).len() && views(paths@)[j] == path@;
            assert(paths@[j]@ == path@);
        }
    }
    false
}

/// `i` is the position of the last `c` in `s`.
pub open spec fn is_last(s: Seq<char>, c: char, i: int) -> bool {
    &&& 0 <= i < s.len()
    &&& s[i] == c
    &&& forall|k: int| i < k < s.len() ==> s[k] != c
}

/// The directory that holds `s`: the text before its last separator, the
/// root for a top-level entry, nothing for the root itself.
pub open spec fn parent_of(s: Seq<char>, sep: char) -> Option<Seq<char>> {
    if s.len() == 0 {
        None
    } else if exists|i: int| is_last(s, sep, i) {
        let i = choose|i: int| is_last(s, sep, i);
        if i == 0 {
            if s.len() == 1 {
                None
            } else {
                Some(s.take(1))
            }
        } else {
            Some(s.take(i))
        }
    } else {
        Some(Seq::empty())
    }
}

/// `s` without one trailing separator, unless it is the root itself.
pub open spec fn trim_separator(s: Seq<char>, sep: char) -> Seq<char> {
    if s.len() > 1 && s.last() == sep {
        s.drop_last()
    } else {
        s
    }
}

/// The directory that holds the entry `s` names, a trailing separator aside.
pub open spec fn parent_text(s: Seq<char>, sep: char) -> Option<Seq<char>> {
    parent_of(trim_separator(s, sep), sep)
}

/// `a` is `b` or one of its ancestors.
pub open spec fn is_prefix(a: Seq<char>, b: Seq<char>) -> bool {
    a.len() <= b.len() && b.take(a.len() as int) == a
}

/// The directory that holds `path`, if any; a trailing separator does not
/// make an entry of its own.
pub fn parent(path: &str, os: Os) -> (r: Option<String>)
    ensures
        match r {
            Some(p) => parent_text(path@, separator_of(os)) == Some(p@),
            None => parent_text(path@, separator_of(os)) is None,
        },
        r is Some ==> r->0@.len() < path@.len() && is_prefix(r->0@, path@),
{
    let sep = os.separator();
    let n = path.unicode_len();
    if n > 1 && path.get_char(n - 1) == sep {
        let t = path.substring_char(0, n - 1);
        assert(t@ == path@.drop_last());
        let r = parent_untrimmed(t, os);
        proof {
            if r is Some {
                let a = r->0@;
                assert(path@.take(a.len() as int) == t@.take(a.len() as int));
            }
        }
        r
    } else {
        parent_untrimmed(path, os)
    }
}

/// The directory that holds `path`, if any, taking its last separator as
/// the end of the parent.
fn parent_untrimmed(path: &str, os: Os) -> (r: Option<String>)
    ensures
        match r {
            Some(p) => parent_of(path@, separator_of(os)) == Some(p@),
            None => parent_of(path@, separator_of(os)) is None,
        },
        r is Some ==> r->0@.len() < path@.len() && is_prefix(r->0@, path@),
{
    let sep = os.separator();
    let n = path.unicode_len();
    if n == 0 {
        return None;
    }
    let mut i: usize = n;
    while i > 0
        invariant
            n == path@.len(),
            sep == separator_of(os),
            i <= n,
            forall|k: int| i <= k < n ==> path@[k] != sep,
        decreases i,
    {
        if path.get_char(i - 1) == sep {
            let j = i - 1;
            proof {
                assert(is_last(path@, sep, j as int));
                let c = choose|c: int| is_last(path@, sep, c);
                if c < j {
                    assert(path@[j as int] != sep);
                } else if c > j {
                    assert(path@[c] != sep);
                }
            }
            assert(sep == separator_of(os));
            assert(exists|c: int| is_last(path@, sep, c));
            assert((choose|c: int| is_last(path@, sep, c)) == j);
            if j == 0 {
                if n == 1 {
                    assert(parent_of(path@, sep) is None);
                    return None;
                }
                let p = String::from_str(path.substring_char(0, 1));
                assert(p@ == path@.take(1));
                assert(parent_of(path@, sep) == Some(p@));
                return Some(p);
            }
            let p = String::from_str(path.substring_char(0, j));
            assert(p@ == path@.take(j as int));
            assert(parent_of(path@, sep) == Some(p@));
            return Some(p);
        }
        i = i - 1;
    }
    assert(!exists|k: int| is_last(path@, sep, k));
    assert(path@.take(0) == Seq::<char>::empty());
    Some(String::new())
}

/// Where a [`WorkspaceDiscovery`] stands.
#[derive(Clone, Debug, PartialEq, Eq)]
pub enum WorkspacePhase {
    Ready,
    /// The project's manifest was asked for.
    Project,
    /// The manifest of this ancestor was asked for.
    Ancestor(String),
    /// An ancestor declares a workspace; this exclude glob of it was asked
    /// to be expanded.
    Exclude(String, PyProjectToml, usize),
    /// This member glob was asked to be expanded.
    MemberGlob(usize),
    /// The manifest of the member directory at the index, matched by the
    /// member glob at the first index, was asked for.
    Member(usize, Vec<String>, usize),
    Done,
}

/// What the caller of a [`WorkspaceDiscovery`] does next.
#[derive(Debug)]
pub enum WorkspaceStep {
    /// Read and parse the manifest at the path; report through
    /// [`WorkspaceDiscovery::on_manifest`].
    ReadManifest(String),
    /// Expand the glob to the directories it matches; report through
    /// [`WorkspaceDiscovery::on_glob`].
    ExpandGlob(String),
    /// Discovery is over.
    Finished(Result<ProjectWorkspace, DiscoverError>),
}

/// The decisions of resolving the workspace of the project at a directory.
pub struct WorkspaceDiscovery {
    pub os: Os,
    pub project_root: String,
    pub project_name: String,
    pub workspace_root: String,
    /// The project of the workspace root, once a workspace is found.
    pub root_project: Option<String>,
    pub member_globs: Vec<String>,
    pub members: Vec<(String, WorkspaceMember)>,
    pub sources: Vec<(String, Source)>,
    pub phase: WorkspacePhase,
}

pub open spec fn manifest_text(dir: Seq<char>, os: Os) -> Seq<char> {
    join_text(dir, "pyproject.toml"@, os)
}

/// A resolved workspace: the project is a member under its own name, rooted
/// at the project root, and the workspace root is the project root or one of
/// its ancestors.
pub open spec fn resolved(pw: ProjectWorkspace, project_root: Seq<char>) -> bool {
    &&& pw.project_root@ == project_root
    &&& keys_unique(pw.workspace_packages@)
    &&& member_roots(pw.workspace_packages@).contains_key(pw.project_name@)
    &&& member_roots(pw.workspace_packages@)[pw.project_name@] == pw.project_root@
    &&& is_prefix(pw.workspace_root@, pw.project_root@)
}

/// A project outside any workspace: its own root, itself the only member.
pub open spec fn alone(pw: ProjectWorkspace) -> bool {
    &&& pw.workspace_root == pw.project_root
    &&& member_roots(pw.workspace_packages@) == map![pw.project_name@ => pw.project_root@]
    &&& pw.workspace_sources@.len() == 0
}

/// A step that ends discovery with a project outside any workspace.
pub open spec fn finishes_alone(step: WorkspaceStep, name: String) -> bool {
    &&& step is Finished
    &&& step->Finished_0 is Ok
    &&& alone(step->Finished_0->Ok_0)
    &&& step->Finished_0->Ok_0.project_name == name
}

/// What stays fixed while the member globs of a workspace are expanded.
pub open spec fn same_workspace(a: WorkspaceDiscovery, b: WorkspaceDiscovery) -> bool {
    &&& a.os == b.os
    &&& a.project_root == b.project_root
    &&& a.project_name == b.project_name
    &&& a.workspace_root == b.workspace_root
    &&& a.root_project == b.root_project
    &&& a.member_globs == b.member_globs
    &&& a.sources == b.sources
}

/// A step that ends discovery with the workspace of `d`, whose members are
/// `roots` (package name to member root).
pub open spec fn gathered(step: WorkspaceStep, d: WorkspaceDiscovery, roots: Map<
    Seq<char>,
    Seq<char>,
>) -> bool {
    &&& step is Finished
    &&& step->Finished_0 is Ok
    &&& step->Finished_0->Ok_0.project_root == d.project_root
    &&& step->Finished_0->Ok_0.project_name == d.project_name
    &&& step->Finished_0->Ok_0.workspace_root == d.workspace_root
    &&& step->Finished_0->Ok_0.workspace_sources == d.sources
    &&& member_roots(step->Finished_0->Ok_0.workspace_packages@) == roots
}

/// Discovery `d` once it takes the workspace that the manifest `t` of `dir`
/// declares: its root, its member globs, its overrides and its project.
pub open spec fn accepted(d: WorkspaceDiscovery, dir: String, t: PyProjectToml) -> WorkspaceDiscovery {
    WorkspaceDiscovery {
        workspace_root: dir,
        root_project: t.project_name,
        member_globs: t.workspace->0.members,
        sources: t.sources,
        ..d
    }
}

/// The members `roots` joined by the project of the workspace root `dir`; a
/// root project of the project's own name leaves the project in place.
pub open spec fn with_root(
    roots: Map<Seq<char>, Seq<char>>,
    d: WorkspaceDiscovery,
    dir: String,
    t: PyProjectToml,
) -> Map<Seq<char>, Seq<char>> {
    match t.project_name {
        Some(n) => if n@ == d.project_name@ {
            roots
        } else {
            roots.insert(n@, dir@)
        },
        None => roots,
    }
}

/// The members `roots` joined by the member named `n` at `dir`; a member of
/// the project's own name leaves the project in place.
pub open spec fn with_member(
    roots: Map<Seq<char>, Seq<char>>,
    d: WorkspaceDiscovery,
    n: String,
    dir: String,
) -> Map<Seq<char>, Seq<char>> {
    if n@ == d.project_name@ {
        roots
    } else {
        roots.insert(n@, dir@)
    }
}

impl WorkspaceDiscovery {
    /// The project is the only member so far, and there are no overrides.
    pub open spec fn is_alone(&self) -> bool {
        &&& member_roots(self.members@) == map![self.project_name@ => self.project_root@]
        &&& self.sources@.len() == 0
    }

    /// A workspace root was found; the project is among the members, at its
    /// own root, and so is the root's project.
    pub open spec fn is_joined(&self) -> bool {
        &&& member_roots(self.members@).contains_key(self.project_name@)
        &&& member_roots(self.members@)[self.project_name@] == self.project_root@
        &&& is_prefix(self.workspace_root@, self.project_root@)
        &&& self.root_project matches Some(n) ==> member_roots(self.members@).contains_key(n@)
    }

    pub open spec fn wf(&self) -> bool {
        &&& keys_unique(self.members@)
        &&& match self.phase {
            WorkspacePhase::Ancestor(d) => self.is_alone() && is_prefix(d@, self.project_root@),
            WorkspacePhase::Exclude(d, t, _) => self.is_alone() && is_prefix(d@, self.project_root@)
                && t.workspace is Some,
            WorkspacePhase::MemberGlob(_) => self.is_joined(),
            WorkspacePhase::Member(_, dirs, i) => self.is_joined() && i < dirs@.len(),
            _ => true,
        }
    }

    /// Steps keep the project and platform, and every outcome is resolved.
    pub open spec fn keeps(&self, old: WorkspaceDiscovery, step: WorkspaceStep) -> bool {
        &&& self.project_root == old.project_root
        &&& self.os == old.os
        &&& (step is Finished && step->Finished_0 is Ok) ==> resolved(
            step->Finished_0->Ok_0,
            old.project_root@,
        )
        &&& (!(step is Finished) && !(old.phase is Project)) ==> self.project_name
            == old.project_name
    }

    /// Discovery of `d` moves on to its member glob `k`, keeping the workspace
    /// and the members `roots`; past the last glob it ends with them.
    pub open spec fn resumes_at(
        &self,
        step: WorkspaceStep,
        d: WorkspaceDiscovery,
        roots: Map<Seq<char>, Seq<char>>,
        k: int,
    ) -> bool {
        if 0 <= k < d.member_globs@.len() {
            &&& self.phase == WorkspacePhase::MemberGlob(k as usize)
            &&& same_workspace(*self, d)
            &&& member_roots(self.members@) == roots
            &&& step is ExpandGlob
            &&& step->ExpandGlob_0@ == join_text(d.workspace_root@, d.member_globs@[k]@, d.os)
        } else {
            gathered(step, d, roots)
        }
    }

    /// Discovery of `d` asks for the manifest of directory `i` of `dirs`,
    /// matched by member glob `g`, keeping the workspace and the members
    /// `roots`; past the last directory it moves on to glob `g + 1`.
    pub open spec fn continues_at(
        &self,
        step: WorkspaceStep,
        d: WorkspaceDiscovery,
        roots: Map<Seq<char>, Seq<char>>,
        g: int,
        dirs: Vec<String>,
        i: int,
    ) -> bool {
        if 0 <= i < dirs@.len() {
            &&& self.phase == WorkspacePhase::Member(g as usize, dirs, i as usize)
            &&& same_workspace(*self, d)
            &&& member_roots(self.members@) == roots
            &&& step is ReadManifest
            &&& step->ReadManifest_0@ == manifest_text(dirs@[i]@, d.os)
        } else {
            self.resumes_at(step, d, roots, g + 1)
        }
    }

    /// Discovery of the project at `project_root`.
    pub fn new(project_root: String, os: Os) -> (r: WorkspaceDiscovery)
        ensures
            r.wf(),
            r.project_root == project_root,
            r.os == os,
            r.phase is Ready,
    {
        WorkspaceDiscovery {
            os,
            project_root,
            project_name: String::new(),
            workspace_root: String::new(),
            root_project: None,
            member_globs: Vec::new(),
            members: Vec::new(),
            sources: Vec::new(),
            phase: WorkspacePhase::Ready,
        }
    }

    /// Begin by asking for the project's manifest.
    pub fn start(&mut self) -> (step: WorkspaceStep)
        requires
            old(self).wf(),
            old(self).phase is Ready,
        ensures
            final(self).wf(),
            final(self).keeps(*old(self), step),
            final(self).phase is Project,
            step is ReadManifest && step->ReadManifest_0@ == manifest_text(
                old(self).project_root@,
                old(self).os,
            ),
    {
        self.phase = WorkspacePhase::Project;
        WorkspaceStep::ReadManifest(join(self.project_root.as_str(), "pyproject.toml", self.os))
    }

    /// End discovery with what was gathered.
    fn finish(&mut self) -> (step: WorkspaceStep)
        requires
            old(self).wf(),
            old(self).is_joined(),
        ensures
            final(self).wf(),
            final(self).keeps(*old(self), step),
            final(self).phase is Done,
            gathered(step, *old(self), member_roots(old(self).members@)),
    {
        let mut project_name = String::new();
        std::mem::swap(&mut project_name, &mut self.project_name);
        let mut workspace_root = String::new();
        std::mem::swap(&mut workspace_root, &mut self.workspace_root);
        let mut members: Vec<(String, WorkspaceMember)> = Vec::new();
        std::mem::swap(&mut members, &mut self.members);
        let mut sources: Vec<(String, Source)> = Vec::new();
        std::mem::swap(&mut sources, &mut self.sources);
        self.phase = WorkspacePhase::Done;
        WorkspaceStep::Finished(
            Ok(
                ProjectWorkspace {
                    project_root: self.project_root.clone(),
                    project_name,
                    workspace_root,
                    workspace_packages: members,
                    workspace_sources: sources,
                },
            ),
        )
    }

    /// End discovery with the project outside any workspace.
    fn finish_alone(&mut self) -> (step: WorkspaceStep)
        requires
            old(self).wf(),
            old(self).is_alone(),
        ensures
            final(self).wf(),
            final(self).keeps(*old(self), step),
            final(self).phase is Done,
            finishes_alone(step, old(self).project_name),
    {
        self.workspace_root = self.project_root.clone();
        self.root_project = None;
        self.phase = WorkspacePhase::Done;
        assert(self.project_root@.take(self.project_root@.len() as int) == self.project_root@);
        assert(member_roots(self.members@).contains_key(self.project_name@));
        self.finish()
    }

    /// Ask for the manifest of the parent of `dir`, or end discovery with the
    /// project alone when `dir` has no parent.
    fn next_ancestor(&mut self, dir: &str) -> (step: WorkspaceStep)
        requires
            old(self).wf(),
            old(self).is_alone(),
            is_prefix(dir@, old(self).project_root@),
        ensures
            final(self).wf(),
            final(self).keeps(*old(self), step),
            match parent_text(dir@, separator_of(old(self).os)) {
                Some(p) => final(self).phase is Ancestor && final(self).phase->Ancestor_0@ == p
                    && step is ReadManifest && step->ReadManifest_0@ == manifest_text(
                    p,
                    old(self).os,
                ),
                None => finishes_alone(step, old(self).project_name),
            },
    {
        match parent(dir, self.os) {
            Some(p) => {
                proof {
                    let a = p@;
                    let b = dir@;
                    let c = self.project_root@;
                    assert(c.take(a.len() as int) == b.take(a.len() as int));
                }
                let path = join(p.as_str(), "pyproject.toml", self.os);
                self.phase = WorkspacePhase::Ancestor(p);
                WorkspaceStep::ReadManifest(path)
            },
            None => self.finish_alone(),
        }
    }

    /// Ask for the expansion of member glob `k`, or end discovery when there
    /// is none.
    fn next_member_glob(&mut self, k: usize) -> (step: WorkspaceStep)
        requires
            old(self).wf(),
            old(self).is_joined(),
        ensures
            final(self).wf(),
            final(self).keeps(*old(self), step),
            final(self).resumes_at(step, *old(self), member_roots(old(self).members@), k as int),
            !(step is Finished) ==> final(self).members == old(self).members,
    {
        if k < self.member_globs.len() {
            let pattern = join(self.workspace_root.as_str(), self.member_globs[k].as_str(), self.os);
            self.phase = WorkspacePhase::MemberGlob(k);
            WorkspaceStep::ExpandGlob(pattern)
        } else {
            self.finish()
        }
    }

    /// Ask for the manifest of member directory `i` of those matched by glob
    /// `g`, or move on to the next glob.
    fn next_member(&mut self, g: usize, dirs: Vec<String>, i: usize) -> (step: WorkspaceStep)
        requires
            old(self).wf(),
            old(self).is_joined(),
        ensures
            final(self).wf(),
            final(self).keeps(*old(self), step),
            final(self).continues_at(
                step,
                *old(self),
                member_roots(old(self).members@),
                g as int,
                dirs,
                i as int,
            ),
            !(step is Finished) ==> final(self).members == old(self).members,
    {
        if i < dirs.len() {
            let path = join(dirs[i].as_str(), "pyproject.toml", self.os);
            self.phase = WorkspacePhase::Member(g, dirs, i);
            WorkspaceStep::ReadManifest(path)
        } else if g < self.member_globs.len() {
            self.next_member_glob(g + 1)
        } else {
            self.finish()
        }
    }

    /// Take the workspace declared by the manifest `t` of `dir`: the root's
    /// own project joins the members, and its overrides are the workspace's.
    fn accept_workspace(&mut self, dir: String, t: PyProjectToml) -> (step: WorkspaceStep)
        requires
            old(self).wf(),
            keys_unique(old(self).members@),
            member_roots(old(self).members@).contains_key(old(self).project_name@),
            member_roots(old(self).members@)[old(self).project_name@] == old(self).project_root@,
            is_prefix(dir@, old(self).project_root@),
            t.workspace is Some,
            !(old(self).phase is MemberGlob || old(self).phase is Member),
        ensures
            final(self).wf(),
            final(self).keeps(*old(self), step),
            final(self).resumes_at(
                step,
                accepted(*old(self), dir, t),
                with_root(member_roots(old(self).members@), *old(self), dir, t),
                0,
            ),
    {
        let ghost roots = member_roots(self.members@);
        let mut t = t;
        let mut decl: Option<WorkspaceDecl> = None;
        std::mem::swap(&mut decl, &mut t.workspace);
        let globs = match decl {
            Some(d) => d.members,
            None => Vec::new(),
        };
        let mut sources: Vec<(String, Source)> = Vec::new();
        std::mem::swap(&mut sources, &mut t.sources);
        self.sources = sources;
        self.member_globs = globs;
        let root_project = match &t.project_name {
            Some(name) => Some(name.clone()),
            None => None,
        };
        match &root_project {
            Some(name) => {
                // A root project of the project's own name is the project
                // itself, or else leaves the project's entry in place.
                let same_name = text_equals(name.as_str(), self.project_name.as_str());
                let at_project = text_equals(dir.as_str(), self.project_root.as_str());
                if !same_name || at_project {
                    insert_member(
                        &mut self.members,
                        name.clone(),
                        WorkspaceMember { root: dir.clone(), pyproject_toml: t },
                    );
                    if same_name {
                        assert(roots.insert(self.project_name@, self.project_root@) =~= roots);
                    }
                }
            },
            None => {},
        }
        self.root_project = root_project;
        self.workspace_root = dir;
        self.phase = WorkspacePhase::MemberGlob(0);
        self.next_member_glob(0)
    }

    /// Check the exclude globs of the workspace at `dir` from `k` on.
    fn next_exclude(&mut self, dir: String, t: PyProjectToml, k: usize) -> (step: WorkspaceStep)
        requires
            old(self).wf(),
            old(self).is_alone(),
            is_prefix(dir@, old(self).project_root@),
            t.workspace is Some,
            !(old(self).phase is MemberGlob || old(self).phase is Member),
        ensures
            final(self).wf(),
            final(self).keeps(*old(self), step),
            k < t.workspace->0.exclude@.len() ==> final(self).phase == WorkspacePhase::Exclude(
                dir,
                t,
                k,
            ) && step is ExpandGlob && step->ExpandGlob_0@ == join_text(
                dir@,
                t.workspace->0.exclude@[k as int]@,
                old(self).os,
            ),
            k >= t.workspace->0.exclude@.len() ==> final(self).resumes_at(
                step,
                accepted(*old(self), dir, t),
                with_root(member_roots(old(self).members@), *old(self), dir, t),
                0,
            ),
    {
        let pattern = match &t.workspace {
            Some(decl) => if k < decl.exclude.len() {
                Some(join(dir.as_str(), decl.exclude[k].as_str(), self.os))
            } else {
                None
            },
            None => None,
        };
        match pattern {
            Some(pattern) => {
                self.phase = WorkspacePhase::Exclude(dir, t, k);
                WorkspaceStep::ExpandGlob(pattern)
            },
            None => {
                assert(member_roots(self.members@).contains_key(self.project_name@));
                self.accept_workspace(dir, t)
            },
        }
    }
}

impl WorkspaceDiscovery {
    /// The manifest asked for by [`WorkspaceStep::ReadManifest`]: `None` when
    /// there is no such file, else what reading and parsing it gave.
    pub fn on_manifest(&mut self, manifest: Option<Result<PyProjectToml, DiscoverError>>) -> (step:
        WorkspaceStep)
        requires
            old(self).wf(),
            old(self).phase is Project || old(self).phase is Ancestor || old(self).phase is Member,
        ensures
            final(self).wf(),
            final(self).keeps(*old(self), step),
            match (old(self).phase, manifest) {
                (WorkspacePhase::Project, None) => step == WorkspaceStep::Finished(
                    Err(DiscoverError::MissingPyprojectToml),
                ),
                (WorkspacePhase::Project, Some(Err(e))) => step == WorkspaceStep::Finished(Err(e)),
                (WorkspacePhase::Project, Some(Ok(t))) => match t.project_name {
                    None => step is Finished && step->Finished_0 is Err
                        && step->Finished_0->Err_0 is MissingProject
                        && step->Finished_0->Err_0->MissingProject_0@ == manifest_text(
                        old(self).project_root@,
                        old(self).os,
                    ),
                    Some(name) => if t.workspace is Some {
                        // the project is its own workspace root
                        final(self).resumes_at(
                            step,
                            accepted(
                                WorkspaceDiscovery { project_name: name, ..*old(self) },
                                old(self).project_root,
                                t,
                            ),
                            map![name@ => old(self).project_root@],
                            0,
                        )
                    } else {
                        match parent_text(old(self).project_root@, separator_of(old(self).os)) {
                            Some(p) => final(self).phase is Ancestor
                                && final(self).phase->Ancestor_0@ == p && step is ReadManifest
                                && step->ReadManifest_0@ == manifest_text(p, old(self).os),
                            None => finishes_alone(step, name),
                        }
                    },
                },
                (WorkspacePhase::Ancestor(d), None) => match parent_text(
                    d@,
                    separator_of(old(self).os),
                ) {
                    Some(p) => final(self).phase is Ancestor && final(self).phase->Ancestor_0@ == p
                        && step is ReadManifest && step->ReadManifest_0@ == manifest_text(
                        p,
                        old(self).os,
                    ),
                    None => finishes_alone(step, old(self).project_name),
                },
                (WorkspacePhase::Ancestor(d), Some(Err(e))) => step == WorkspaceStep::Finished(
                    Err(e),
                ),
                (WorkspacePhase::Ancestor(d), Some(Ok(t))) => if t.workspace is Some {
                    if t.workspace->0.exclude@.len() > 0 {
                        final(self).phase == WorkspacePhase::Exclude(d, t, 0) && step is ExpandGlob
                            && step->ExpandGlob_0@ == join_text(
                            d@,
                            t.workspace->0.exclude@[0]@,
                            old(self).os,
                        )
                    } else {
                        // the ancestor is the workspace root
                        final(self).resumes_at(
                            step,
                            accepted(*old(self), d, t),
                            with_root(member_roots(old(self).members@), *old(self), d, t),
                            0,
                        )
                    }
                } else if t.project_name is Some {
                    finishes_alone(step, old(self).project_name)
                } else {
                    step is Finished && step->Finished_0 is Err
                        && step->Finished_0->Err_0 is MissingProject
                        && step->Finished_0->Err_0->MissingProject_0@ == manifest_text(
                        d@,
                        old(self).os,
                    )
                },
                (WorkspacePhase::Member(_, dirs, i), None) => step is Finished
                    && step->Finished_0 is Err
                    && step->Finished_0->Err_0 is MissingMemberPyprojectToml
                    && step->Finished_0->Err_0->MissingMemberPyprojectToml_0@ == manifest_text(
                    dirs@[i as int]@,
                    old(self).os,
                ),
                (WorkspacePhase::Member(_, dirs, i), Some(Err(e))) => step
                    == WorkspaceStep::Finished(Err(e)),
                (WorkspacePhase::Member(g, dirs, i), Some(Ok(t))) => match t.project_name {
                    None => step == WorkspaceStep::Finished(
                        Err(DiscoverError::MissingProject(dirs@[i as int])),
                    ),
                    Some(name) => final(self).continues_at(
                        step,
                        *old(self),
                        with_member(
                            member_roots(old(self).members@),
                            *old(self),
                            name,
                            dirs@[i as int],
                        ),
                        g as int,
                        dirs,
                        i + 1,
                    ),
                },
                _ => true,
            },
    {
        let mut phase = WorkspacePhase::Done;
        std::mem::swap(&mut phase, &mut self.phase);
        match phase {
            WorkspacePhase::Project => {
                let t = match manifest {
                    None => {
                        return WorkspaceStep::Finished(Err(DiscoverError::MissingPyprojectToml));
                    },
                    Some(Err(e)) => {
                        return WorkspaceStep::Finished(Err(e));
                    },
                    Some(Ok(t)) => t,
                };
                let name = match &t.project_name {
                    None => {
                        return WorkspaceStep::Finished(
                            Err(
                                DiscoverError::MissingProject(
                                    join(self.project_root.as_str(), "pyproject.toml", self.os),
                                ),
                            ),
                        );
                    },
                    Some(name) => name.clone(),
                };
                let declares = t.workspace.is_some();
                let root = self.project_root.clone();
                assert(root@.take(root@.len() as int) == root@);
                self.project_name = name.clone();
                let mut members: Vec<(String, WorkspaceMember)> = Vec::new();
                if declares {
                    // The project's entry gets its full manifest when the
                    // workspace is taken.
                    let placeholder = PyProjectToml {
                        project_name: Some(name.clone()),
                        workspace: None,
                        sources: Vec::new(),
                    };
                    insert_member(
                        &mut members,
                        name,
                        WorkspaceMember { root: root.clone(), pyproject_toml: placeholder },
                    );
                    assert(member_roots(members@) =~= map![self.project_name@ => self.project_root@]);
                    self.members = members;
                    self.sources = Vec::new();
                    self.phase = WorkspacePhase::Done;
                    self.accept_workspace(root, t)
                } else {
                    insert_member(
                        &mut members,
                        name,
                        WorkspaceMember { root: root.clone(), pyproject_toml: t },
                    );
                    assert(member_roots(members@) =~= map![self.project_name@ => self.project_root@]);
                    self.members = members;
                    self.sources = Vec::new();
                    self.phase = WorkspacePhase::Done;
                    self.next_ancestor(root.as_str())
                }
            },
            WorkspacePhase::Ancestor(d) => {
                let t = match manifest {
                    None => {
                        return self.next_ancestor(d.as_str());
                    },
                    Some(Err(e)) => {
                        return WorkspaceStep::Finished(Err(e));
                    },
                    Some(Ok(t)) => t,
                };
                if t.workspace.is_some() {
                    self.next_exclude(d, t, 0)
                } else if t.project_name.is_some() {
                    self.finish_alone()
                } else {
                    WorkspaceStep::Finished(
                        Err(DiscoverError::MissingProject(join(d.as_str(), "pyproject.toml", self.os))),
                    )
                }
            },
            WorkspacePhase::Member(g, dirs, i) => {
                let t = match manifest {
                    None => {
                        return WorkspaceStep::Finished(
                            Err(
                                DiscoverError::MissingMemberPyprojectToml(
                                    join(dirs[i].as_str(), "pyproject.toml", self.os),
                                ),
                            ),
                        );
                    },
                    Some(Err(e)) => {
                        return WorkspaceStep::Finished(Err(e));
                    },
                    Some(Ok(t)) => t,
                };
                let name = match &t.project_name {
                    None => {
                        return WorkspaceStep::Finished(
                            Err(DiscoverError::MissingProject(dirs[i].clone())),
                        );
                    },
                    Some(name) => name.clone(),
                };
                // A member of the project's own name leaves the project's
                // entry in place.
                if !text_equals(name.as_str(), self.project_name.as_str()) {
                    insert_member(
                        &mut self.members,
                        name,
                        WorkspaceMember { root: dirs[i].clone(), pyproject_toml: t },
                    );
                }
                self.phase = WorkspacePhase::MemberGlob(g);
                let count = dirs.len();
                assert(i < count);
                self.next_member(g, dirs, i + 1)
            },
            // other phases are excluded by the requirement
            _ => WorkspaceStep::Finished(Err(DiscoverError::MissingPyprojectToml)),
        }
    }

    /// The directories matched by the glob asked for by
    /// [`WorkspaceStep::ExpandGlob`], or why expanding it failed.
    pub fn on_glob(&mut self, matched: Result<Vec<String>, DiscoverError>) -> (step: WorkspaceStep)
        requires
            old(self).wf(),
            old(self).phase is Exclude || old(self).phase is MemberGlob,
        ensures
            final(self).wf(),
            final(self).keeps(*old(self), step),
            match (old(self).phase, matched) {
                (_, Err(e)) => step == WorkspaceStep::Finished(Err(e)),
                (WorkspacePhase::Exclude(d, t, k), Ok(paths)) => if views(paths@).contains(
                    old(self).project_root@,
                ) {
                    finishes_alone(step, old(self).project_name)
                } else if k + 1 < t.workspace->0.exclude@.len() {
                    final(self).phase == WorkspacePhase::Exclude(d, t, (k + 1) as usize)
                        && step is ExpandGlob && step->ExpandGlob_0@ == join_text(
                        d@,
                        t.workspace->0.exclude@[k + 1]@,
                        old(self).os,
                    )
                } else {
                    // the project is not excluded: the ancestor is the workspace root
                    final(self).resumes_at(
                        step,
                        accepted(*old(self), d, t),
                        with_root(member_roots(old(self).members@), *old(self), d, t),
                        0,
                    )
                },
                (WorkspacePhase::MemberGlob(k), Ok(dirs)) => final(self).continues_at(
                    step,
                    *old(self),
                    member_roots(old(self).members@),
                    k as int,
                    dirs,
                    0,
                ) && (!(step is Finished) ==> final(self).members == old(self).members),
                _ => true,
            },
    {
        let matched = match matched {
            Err(e) => {
                self.phase = WorkspacePhase::Done;
                return WorkspaceStep::Finished(Err(e));
            },
            Ok(m) => m,
        };
        let mut phase = WorkspacePhase::Done;
        std::mem::swap(&mut phase, &mut self.phase);
        match phase {
            WorkspacePhase::Exclude(d, t, k) => {
                let excludes = match &t.workspace {
                    Some(decl) => decl.exclude.len(),
                    None => 0,
                };
                assert(excludes == t.workspace->0.exclude@.len());
                if contains_path(&matched, self.project_root.as_str()) {
                    return self.finish_alone();
                }
                if k < usize::MAX {
                    self.next_exclude(d, t, k + 1)
                } else {
                    self.accept_workspace(d, t)
                }
            },
            WorkspacePhase::MemberGlob(k) => {
                self.phase = WorkspacePhase::MemberGlob(k);
                self.next_member(k, matched, 0)
            },
            // other phases are excluded by the requirement
            _ => WorkspaceStep::Finished(Err(DiscoverError::MissingPyprojectToml)),
        }
    }
}

} // verus!
