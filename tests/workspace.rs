use uv_interpreter::workspace::parent;
use uv_interpreter::{
    DiscoverError, Os, ProjectWorkspace, PyProjectToml, WorkspaceDecl, WorkspaceDiscovery,
    WorkspaceStep,
};

fn project(name: &str) -> PyProjectToml {
    PyProjectToml {
        project_name: Some(name.to_string()),
        workspace: None,
        sources: Vec::new(),
    }
}

fn workspace(name: Option<&str>, members: &[&str], exclude: &[&str]) -> PyProjectToml {
    PyProjectToml {
        project_name: name.map(str::to_string),
        workspace: Some(WorkspaceDecl {
            members: members.iter().map(|m| m.to_string()).collect(),
            exclude: exclude.iter().map(|m| m.to_string()).collect(),
        }),
        sources: Vec::new(),
    }
}

/// A directory tree: the manifests by path, and what each glob matches.
struct Tree {
    manifests: Vec<(String, PyProjectToml)>,
    globs: Vec<(String, Vec<String>)>,
}

impl Tree {
    fn new(manifests: &[(&str, PyProjectToml)], globs: &[(&str, &[&str])]) -> Self {
        Tree {
            manifests: manifests
                .iter()
                .map(|(p, t)| (format!("{p}/pyproject.toml"), t.clone()))
                .collect(),
            globs: globs
                .iter()
                .map(|(g, m)| (g.to_string(), m.iter().map(|d| d.to_string()).collect()))
                .collect(),
        }
    }
}

fn discover(root: &str, tree: &Tree) -> (Result<ProjectWorkspace, DiscoverError>, Vec<String>) {
    let mut read = Vec::new();
    let mut d = WorkspaceDiscovery::new(root.to_string(), Os::Unix);
    let mut step = d.start();
    loop {
        step = match step {
            WorkspaceStep::Finished(result) => return (result, read),
            WorkspaceStep::ReadManifest(path) => {
                read.push(path.clone());
                let m = tree
                    .manifests
                    .iter()
                    .find(|(p, _)| *p == path)
                    .map(|(_, t)| Ok(t.clone()));
                d.on_manifest(m)
            }
            WorkspaceStep::ExpandGlob(pattern) => {
                let matched = tree
                    .globs
                    .iter()
                    .find(|(g, _)| *g == pattern)
                    .map(|(_, m)| m.clone())
                    .unwrap_or_default();
                d.on_glob(Ok(matched))
            }
        };
    }
}

fn members(pw: &ProjectWorkspace) -> Vec<(String, String)> {
    let mut v: Vec<(String, String)> = pw
        .workspace_packages
        .iter()
        .map(|(name, m)| (name.clone(), m.root.clone()))
        .collect();
    v.sort();
    v
}

fn pairs(v: &[(&str, &str)]) -> Vec<(String, String)> {
    let mut v: Vec<(String, String)> = v.iter().map(|(a, b)| (a.to_string(), b.to_string())).collect();
    v.sort();
    v
}

const ROOT: &str = "/scripts/workspaces";

fn root_workspace_tree(folder: &str) -> Tree {
    let root = format!("{ROOT}/{folder}");
    let member = format!("{root}/packages/bird-feeder");
    let glob = format!("{root}/packages/*");
    Tree::new(
        &[
            (root.as_str(), workspace(Some("abatross"), &["packages/*"], &[])),
            (member.as_str(), project("bird-feeder")),
        ],
        &[(glob.as_str(), &[member.as_str()])],
    )
}

#[test]
fn albatross_in_example() {
    let root = format!("{ROOT}/albatross-root-workspace");
    let (result, _) = discover(&root, &root_workspace_tree("albatross-root-workspace"));
    let pw = result.unwrap();
    assert_eq!(pw.project_root, root);
    assert_eq!(pw.project_name, "abatross");
    assert_eq!(pw.workspace_root, root);
    assert_eq!(
        members(&pw),
        pairs(&[
            ("abatross", &root),
            ("bird-feeder", &format!("{root}/packages/bird-feeder")),
        ])
    );
}

#[test]
fn albatross_project_in_excluded() {
    let root = format!("{ROOT}/albatross-project-in-excluded");
    let tree = Tree::new(&[(root.as_str(), project("abatross"))], &[]);
    let (result, _) = discover(&root, &tree);
    let pw = result.unwrap();
    assert_eq!(pw.project_root, root);
    assert_eq!(pw.project_name, "abatross");
    assert_eq!(pw.workspace_root, root);
    assert_eq!(members(&pw), pairs(&[("abatross", &root)]));
}

#[test]
fn albatross_root_workspace() {
    let root = format!("{ROOT}/albatross-root-workspace");
    let (result, _) = discover(&root, &root_workspace_tree("albatross-root-workspace"));
    let pw = result.unwrap();
    assert_eq!(pw.project_root, root);
    assert_eq!(pw.project_name, "abatross");
    assert_eq!(pw.workspace_root, root);
    assert_eq!(
        members(&pw),
        pairs(&[
            ("abatross", &root),
            ("bird-feeder", &format!("{root}/packages/bird-feeder")),
        ])
    );
}

#[test]
fn albatross_virtual_workspace() {
    let root = format!("{ROOT}/albatross-virtual-workspace");
    let (result, _) = discover(&root, &root_workspace_tree("albatross-virtual-workspace"));
    let pw = result.unwrap();
    assert_eq!(pw.project_root, root);
    assert_eq!(pw.project_name, "abatross");
    assert_eq!(pw.workspace_root, root);
    assert_eq!(
        members(&pw),
        pairs(&[
            ("abatross", &root),
            ("bird-feeder", &format!("{root}/packages/bird-feeder")),
        ])
    );
}

#[test]
fn albatross_just_project() {
    let root = format!("{ROOT}/albatross-just-project");
    let tree = Tree::new(&[(root.as_str(), project("abatross"))], &[]);
    let (result, read) = discover(&root, &tree);
    let pw = result.unwrap();
    assert_eq!(pw.project_root, root);
    assert_eq!(pw.project_name, "abatross");
    assert_eq!(pw.workspace_root, root);
    assert_eq!(members(&pw), pairs(&[("abatross", &root)]));
    assert!(pw.workspace_sources.is_empty());
    // Every ancestor up to the filesystem root was consulted.
    assert_eq!(read.last().unwrap(), "/pyproject.toml");
}

#[test]
fn member_of_an_ancestor_workspace() {
    let tree = Tree::new(
        &[
            ("/w", workspace(Some("albatross"), &["packages/*"], &[])),
            ("/w/packages/bird-feeder", project("bird-feeder")),
            ("/w/packages/seeds", project("seeds")),
        ],
        &[("/w/packages/*", &["/w/packages/bird-feeder", "/w/packages/seeds"])],
    );
    let (result, _) = discover("/w/packages/bird-feeder", &tree);
    let pw = result.unwrap();
    assert_eq!(pw.workspace_root, "/w");
    assert_eq!(pw.project_name, "bird-feeder");
    assert_eq!(
        members(&pw),
        pairs(&[
            ("albatross", "/w"),
            ("bird-feeder", "/w/packages/bird-feeder"),
            ("seeds", "/w/packages/seeds"),
        ])
    );
}

#[test]
fn excluded_project_stays_alone() {
    let tree = Tree::new(
        &[
            ("/w", workspace(Some("albatross"), &["packages/*"], &["excluded/*"])),
            ("/w/excluded/bird-feeder", project("bird-feeder")),
        ],
        &[("/w/excluded/*", &["/w/excluded/bird-feeder"])],
    );
    let (result, _) = discover("/w/excluded/bird-feeder", &tree);
    let pw = result.unwrap();
    assert_eq!(pw.workspace_root, "/w/excluded/bird-feeder");
    assert_eq!(members(&pw), pairs(&[("bird-feeder", "/w/excluded/bird-feeder")]));
}

#[test]
fn example_inside_plain_project_stays_alone() {
    let tree = Tree::new(
        &[
            ("/albatross", project("albatross")),
            ("/albatross/examples/bird-feeder", project("bird-feeder")),
        ],
        &[],
    );
    let (result, read) = discover("/albatross/examples/bird-feeder", &tree);
    let pw = result.unwrap();
    assert_eq!(pw.workspace_root, "/albatross/examples/bird-feeder");
    assert_eq!(members(&pw), pairs(&[("bird-feeder", "/albatross/examples/bird-feeder")]));
    assert_eq!(read.last().unwrap(), "/albatross/pyproject.toml");
}

#[test]
fn member_workspace_tables_are_not_expanded() {
    let tree = Tree::new(
        &[
            ("/w", workspace(Some("root"), &["packages/*"], &[])),
            ("/w/packages/inner", workspace(Some("inner"), &["nested/*"], &[])),
        ],
        &[
            ("/w/packages/*", &["/w/packages/inner"]),
            ("/w/packages/inner/nested/*", &["/w/packages/inner/nested/x"]),
        ],
    );
    let (result, _) = discover("/w", &tree);
    let pw = result.unwrap();
    assert_eq!(
        members(&pw),
        pairs(&[("inner", "/w/packages/inner"), ("root", "/w")])
    );
}

#[test]
fn discovery_errors() {
    let (result, _) = discover("/nowhere", &Tree::new(&[], &[]));
    assert_eq!(result, Err(DiscoverError::MissingPyprojectToml));

    let nameless = PyProjectToml { project_name: None, workspace: None, sources: Vec::new() };
    let (result, _) = discover("/p", &Tree::new(&[("/p", nameless.clone())], &[]));
    assert_eq!(result, Err(DiscoverError::MissingProject("/p/pyproject.toml".to_string())));

    let (result, _) = discover(
        "/a/p",
        &Tree::new(&[("/a/p", project("p")), ("/a", nameless.clone())], &[]),
    );
    assert_eq!(result, Err(DiscoverError::MissingProject("/a/pyproject.toml".to_string())));

    let (result, _) = discover(
        "/w",
        &Tree::new(
            &[("/w", workspace(Some("w"), &["m/*"], &[])), ("/w/m/x", nameless)],
            &[("/w/m/*", &["/w/m/x"])],
        ),
    );
    assert_eq!(result, Err(DiscoverError::MissingProject("/w/m/x".to_string())));

    let (result, _) = discover(
        "/w",
        &Tree::new(&[("/w", workspace(Some("w"), &["m/*"], &[]))], &[("/w/m/*", &["/w/m/y"])]),
    );
    assert_eq!(
        result,
        Err(DiscoverError::MissingMemberPyprojectToml("/w/m/y/pyproject.toml".to_string()))
    );

    let mut d = WorkspaceDiscovery::new("/w".to_string(), Os::Unix);
    d.start();
    let step = d.on_manifest(Some(Ok(workspace(Some("w"), &["[bad"], &[]))));
    assert!(matches!(step, WorkspaceStep::ExpandGlob(ref g) if g == "/w/[bad"));
    let step = d.on_glob(Err(DiscoverError::Pattern("/w/[bad".to_string(), "unclosed".to_string())));
    assert!(matches!(step, WorkspaceStep::Finished(Err(DiscoverError::Pattern(..)))));
}

#[test]
fn parents_of_paths() {
    assert_eq!(parent("/a/b", Os::Unix), Some("/a".to_string()));
    assert_eq!(parent("/a", Os::Unix), Some("/".to_string()));
    assert_eq!(parent("/", Os::Unix), None);
    assert_eq!(parent("a", Os::Unix), Some(String::new()));
    assert_eq!(parent("", Os::Unix), None);
}

#[test]
fn discover_error_messages() {
    assert_eq!(
        DiscoverError::MissingPyprojectToml.to_string(),
        "No `pyproject.toml` found in current directory or any parent directory"
    );
    assert_eq!(
        DiscoverError::MissingProject("/p/pyproject.toml".to_string()).to_string(),
        "No `project` section found in: /p/pyproject.toml"
    );
    assert_eq!(
        DiscoverError::Pattern("/w/[".to_string(), "unclosed".to_string()).to_string(),
        "Failed to find directories for glob: `/w/[`"
    );
    assert_eq!(
        DiscoverError::Glob("/w/*".to_string(), "denied".to_string()).to_string(),
        "Invalid glob: `/w/*`"
    );
}

#[test]
fn workspace_root_sources_belong_to_the_workspace() {
    let mut root = workspace(Some("albatross"), &["packages/*"], &[]);
    root.sources = vec![(
        "bird-feeder".to_string(),
        uv_interpreter::Source {
            git: None,
            url: None,
            path: None,
            index: None,
            subdirectory: None,
            rev: None,
            tag: None,
            branch: None,
            workspace: Some(true),
            editable: None,
        },
    )];
    let tree = Tree::new(
        &[("/w", root), ("/w/packages/bird-feeder", project("bird-feeder"))],
        &[("/w/packages/*", &["/w/packages/bird-feeder"])],
    );
    let (result, _) = discover("/w/packages/bird-feeder", &tree);
    let pw = result.unwrap();
    assert_eq!(pw.workspace_sources().len(), 1);
    assert_eq!(pw.workspace_sources()[0].0, "bird-feeder");
    assert_eq!(pw.workspace_packages().len(), 2);
    assert_eq!(pw.project_pyproject_toml(Os::Unix), "/w/packages/bird-feeder/pyproject.toml");
}

#[test]
fn trailing_separator_is_not_an_ancestor() {
    assert_eq!(parent("/a/b/", Os::Unix), Some("/a".to_string()));
    assert_eq!(parent("/a/", Os::Unix), Some("/".to_string()));
    let tree = Tree::new(
        &[
            ("/w", workspace(Some("root"), &["packages/*"], &[])),
            ("/w/packages/bird-feeder", project("bird-feeder")),
        ],
        &[("/w/packages/*", &["/w/packages/bird-feeder"])],
    );
    let (result, _) = discover("/w/packages/bird-feeder/", &tree);
    assert_eq!(result.unwrap().workspace_root, "/w");
}

#[test]
fn member_named_like_the_project_leaves_it_in_place() {
    let tree = Tree::new(
        &[
            ("/w", workspace(Some("root"), &["packages/*"], &[])),
            ("/w/packages/a", project("a")),
            ("/w/packages/copy", project("a")),
        ],
        &[("/w/packages/*", &["/w/packages/a", "/w/packages/copy"])],
    );
    let (result, _) = discover("/w/packages/a", &tree);
    let pw = result.unwrap();
    assert_eq!(members(&pw), pairs(&[("a", "/w/packages/a"), ("root", "/w")]));
}
