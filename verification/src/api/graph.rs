//! The dependency graph of the workspace's crates, read from their
//! `Cargo.toml` manifests.

use vstd::prelude::*;

use crate::text::{contains_str, has_substring, str_eq, string_of, to_lowercase, unicode_lowercase};

verus! {

/// A crate of the workspace.
#[derive(Debug)]
pub struct GraphNode {
    pub id: String,
    pub label: String,
    /// `library` or `binary`.
    pub crate_type: String,
    pub path: String,
}

/// A dependency of a crate of the workspace.
#[derive(Debug)]
pub struct GraphEdge {
    pub from: String,
    pub to: String,
    /// `internal` (a crate of the workspace) or `external`.
    pub kind: String,
}

/// Counts over the graph.
#[derive(Debug, Clone, Copy, PartialEq, Eq)]
pub struct GraphStats {
    pub total_crates: usize,
    pub total_dependencies: usize,
    pub internal_dependencies: usize,
    pub files_scanned: usize,
}

/// The graph of the workspace.
#[derive(Debug)]
pub struct GraphResponse {
    pub nodes: Vec<GraphNode>,
    pub edges: Vec<GraphEdge>,
    pub stats: GraphStats,
}

/// What the graph reads of a manifest that parsed.
#[derive(Debug)]
pub struct Manifest {
    /// `package.name`, if it is a string.
    pub package_name: Option<String>,
    /// Whether there is a `lib` entry.
    pub has_lib: bool,
    /// The keys of the `dependencies` table, if it is a table.
    pub dependency_names: Option<Vec<String>>,
    /// The entries of `workspace.members`, if it is an array: the text of each
    /// entry that is a string.
    pub workspace_members: Option<Vec<Option<String>>>,
}

/// The abstract value of a [`Manifest`].
pub type ManifestView = (
    Option<Seq<char>>,
    bool,
    Option<Seq<Seq<char>>>,
    Option<Seq<Option<Seq<char>>>>,
);

/// The views of a sequence of strings.
pub open spec fn texts(v: Seq<String>) -> Seq<Seq<char>> {
    v.map_values(|s: String| s@)
}

/// The views of a sequence of optional strings.
pub open spec fn optional_texts(v: Seq<Option<String>>) -> Seq<Option<Seq<char>>> {
    v.map_values(
        |s: Option<String>|
            match s {
                Some(t) => Some(t@),
                None => None,
            },
    )
}

impl View for Manifest {
    type V = ManifestView;

    open spec fn view(&self) -> ManifestView {
        (
            match self.package_name {
                Some(n) => Some(n@),
                None => None,
            },
            self.has_lib,
            match self.dependency_names {
                Some(d) => Some(texts(d@)),
                None => None,
            },
            match self.workspace_members {
                Some(m) => Some(optional_texts(m@)),
                None => None,
            },
        )
    }
}

/// What a `Cargo.toml` text holds as the graph reads it, or `None` when it
/// is not TOML (`toml::Value::from_str`).
pub uninterp spec fn manifest_of(content: Seq<char>) -> Option<ManifestView>;

/// Parses a manifest (`content.parse::<toml::Value>()`) and reads
/// `package.name`, the `lib` entry, the keys of `dependencies` and the
/// entries of `workspace.members`.
#[verifier::external_body]
fn read_manifest(content: &str) -> (m: Option<Manifest>)
    ensures
        match m {
            Some(x) => manifest_of(content@) == Some(x@),
            None => manifest_of(content@) is None,
        },
{
    let value = content.parse::<toml::Value>().ok()?;
    Some(Manifest {
        package_name: value.get("package").and_then(|p| p.get("name")).and_then(|n| n.as_str()).map(
            |s| s.to_string(),
        ),
        has_lib: value.get("lib").is_some(),
        dependency_names: value.get("dependencies").and_then(|d| d.as_table()).map(
            |t| t.keys().cloned().collect(),
        ),
        workspace_members: value.get("workspace").and_then(|w| w.get("members")).and_then(
            |m| m.as_array(),
        ).map(|a| a.iter().map(|v| v.as_str().map(|s| s.to_string())).collect()),
    })
}

/// The texts among `v`, in order.
pub open spec fn present(v: Seq<Option<Seq<char>>>) -> Seq<Seq<char>>
    decreases v.len(),
{
    if v.len() == 0 {
        seq![]
    } else {
        match v.last() {
            Some(t) => present(v.drop_last()).push(t),
            None => present(v.drop_last()),
        }
    }
}

/// The members that the workspace manifest `content` lists.
pub open spec fn workspace_members_of(content: Seq<char>) -> Seq<Seq<char>> {
    match manifest_of(content) {
        Some(m) => match m.3 {
            Some(entries) => present(entries),
            None => seq![],
        },
        None => seq![],
    }
}

/// The name and kind (`library` or `binary`) of the crate whose manifest is
/// `content`, if it parses and names its package.
pub open spec fn crate_meta_of(content: Seq<char>) -> Option<(Seq<char>, Seq<char>)> {
    match manifest_of(content) {
        Some(m) => match m.0 {
            Some(name) => Some((name, if m.1 { "library"@ } else { "binary"@ })),
            None => None,
        },
        None => None,
    }
}

/// The dependencies that the manifest `content` names.
pub open spec fn dependencies_of(content: Seq<char>) -> Seq<Seq<char>> {
    match manifest_of(content) {
        Some(m) => match m.2 {
            Some(d) => d,
            None => seq![],
        },
        None => seq![],
    }
}

/// The strings among `entries`, in order.
fn present_strings(entries: Vec<Option<String>>) -> (out: Vec<String>)
    ensures
        texts(out@) == present(optional_texts(entries@)),
{
    let mut out: Vec<String> = Vec::new();
    let ghost all = optional_texts(entries@);
    let mut i: usize = 0;
    let n = entries.len();
    while i < n
        invariant
            n == entries.len(),
            i <= n,
            all == optional_texts(entries@),
            texts(out@) == present(all.take(i as int)),
        decreases n - i,
    {
        let e = &entries[i];
        proof {
            let t = all.take(i + 1);
            assert(t.drop_last() =~= all.take(i as int));
        }
        match e {
            Some(s) => {
                out.push(string_of(s.as_str()));
                assert(texts(out@) =~= present(all.take(i as int)).push(s@));
            },
            None => {},
        }
        i = i + 1;
    }
    assert(all.take(n as int) =~= all);
    out
}

/// Whether the manifest text `content` declares a workspace: whether the
/// text `[workspace]` occurs in it anywhere.
pub fn declares_workspace(content: &str) -> (b: bool)
    ensures
        b == has_substring(content@, "[workspace]"@),
{
    contains_str(content, "[workspace]")
}

/// What the search for the workspace root, which starts in the current
/// directory and goes up one directory at a time, does after looking at a
/// directory.
#[derive(Debug, Clone, Copy, PartialEq, Eq, Structural)]
pub enum WorkspaceSearchStep {
    /// The directory is the workspace root.
    Found,
    /// Look at the parent directory next.
    GoUp,
    /// There is no parent: the search ends without a root.
    GiveUp,
}

/// The step of the search for a directory whose manifest text is
/// `manifest` (`None` when it has no readable `Cargo.toml`) and which has a
/// parent directory or not: found when the manifest declares a workspace,
/// else up while there is a parent.
pub fn workspace_search_step(manifest: Option<&str>, has_parent: bool) -> (step: WorkspaceSearchStep)
    ensures
        step == (if manifest matches Some(m) && has_substring(m@, "[workspace]"@) {
            WorkspaceSearchStep::Found
        } else if has_parent {
            WorkspaceSearchStep::GoUp
        } else {
            WorkspaceSearchStep::GiveUp
        }),
{
    match manifest {
        Some(m) => {
            if declares_workspace(m) {
                return WorkspaceSearchStep::Found;
            }
        },
        None => {},
    }
    if has_parent {
        WorkspaceSearchStep::GoUp
    } else {
        WorkspaceSearchStep::GiveUp
    }
}

/// The members listed in `workspace.members` of the workspace manifest
/// `content`; nothing when it does not parse or lists none.
pub fn parse_workspace_members(content: &str) -> (out: Vec<String>)
    ensures
        texts(out@) == workspace_members_of(content@),
{
    match read_manifest(content) {
        None => Vec::new(),
        Some(m) => match m.workspace_members {
            None => Vec::new(),
            Some(entries) => present_strings(entries),
        },
    }
}

/// The crate name and kind (`library` when the manifest has a `lib` entry,
/// `binary` otherwise) of the manifest `content`.
pub fn parse_crate_meta(content: &str) -> (out: Option<(String, String)>)
    ensures
        match out {
            Some((name, kind)) => crate_meta_of(content@) == Some((name@, kind@)),
            None => crate_meta_of(content@) is None,
        },
{
    match read_manifest(content) {
        None => None,
        Some(m) => match m.package_name {
            None => None,
            Some(name) => {
                let kind = if m.has_lib {
                    string_of("library")
                } else {
                    string_of("binary")
                };
                Some((name, kind))
            },
        },
    }
}

/// The names of the dependencies of the manifest `content`.
pub fn parse_dependencies(content: &str) -> (out: Vec<String>)
    ensures
        texts(out@) == dependencies_of(content@),
{
    match read_manifest(content) {
        None => Vec::new(),
        Some(m) => match m.dependency_names {
            None => Vec::new(),
            Some(d) => d,
        },
    }
}

/// A member of the workspace whose manifest was read and names its package.
#[derive(Debug)]
pub struct CrateEntry {
    pub name: String,
    /// `library` or `binary`.
    pub crate_type: String,
    pub dependencies: Vec<String>,
}

/// The abstract value of a crate entry: name, kind and dependencies.
pub type EntryView = (Seq<char>, Seq<char>, Seq<Seq<char>>);

/// The abstract value of a node: id, label, kind and path.
pub type NodeView = (Seq<char>, Seq<char>, Seq<char>, Seq<char>);

/// The abstract value of an edge: from, to and kind.
pub type EdgeView = (Seq<char>, Seq<char>, Seq<char>);

/// The views of optional crate entries.
pub open spec fn entry_views(v: Seq<Option<CrateEntry>>) -> Seq<Option<EntryView>> {
    v.map_values(
        |e: Option<CrateEntry>|
            match e {
                Some(c) => Some((c.name@, c.crate_type@, texts(c.dependencies@))),
                None => None,
            },
    )
}

/// The views of nodes.
pub open spec fn node_views(v: Seq<GraphNode>) -> Seq<NodeView> {
    v.map_values(|n: GraphNode| (n.id@, n.label@, n.crate_type@, n.path@))
}

/// The views of edges.
pub open spec fn edge_views(v: Seq<GraphEdge>) -> Seq<EdgeView> {
    v.map_values(|e: GraphEdge| (e.from@, e.to@, e.kind@))
}

/// One node per read member, in the order of the members: the crate's name
/// as id and label, its kind, and the member's path.
pub open spec fn graph_nodes(members: Seq<Seq<char>>, entries: Seq<Option<EntryView>>) -> Seq<NodeView>
    decreases entries.len(),
{
    if entries.len() == 0 {
        seq![]
    } else {
        let rest = graph_nodes(members, entries.drop_last());
        match entries.last() {
            Some(e) => rest.push((e.0, e.0, e.1, members[entries.len() - 1])),
            None => rest,
        }
    }
}

/// The names of the read members, in order.
pub open spec fn crate_names(entries: Seq<Option<EntryView>>) -> Seq<Seq<char>>
    decreases entries.len(),
{
    if entries.len() == 0 {
        seq![]
    } else {
        let rest = crate_names(entries.drop_last());
        match entries.last() {
            Some(e) => rest.push(e.0),
            None => rest,
        }
    }
}

/// The kind of a dependency on `dep`: `internal` when it is a crate of the
/// workspace, `external` otherwise.
pub open spec fn dependency_kind(names: Seq<Seq<char>>, dep: Seq<char>) -> Seq<char> {
    if names.contains(dep) {
        "internal"@
    } else {
        "external"@
    }
}

/// The edges from one crate: one per dependency, in order.
pub open spec fn edges_from(e: EntryView, names: Seq<Seq<char>>) -> Seq<EdgeView> {
    e.2.map_values(|d: Seq<char>| (e.0, d, dependency_kind(names, d)))
}

/// The edges of the graph, crate by crate in the order of the members.
pub open spec fn graph_edges(entries: Seq<Option<EntryView>>, names: Seq<Seq<char>>) -> Seq<EdgeView>
    decreases entries.len(),
{
    if entries.len() == 0 {
        seq![]
    } else {
        let rest = graph_edges(entries.drop_last(), names);
        match entries.last() {
            Some(e) => rest + edges_from(e, names),
            None => rest,
        }
    }
}

/// How many edges are internal.
pub open spec fn internal_count(edges: Seq<EdgeView>) -> nat
    decreases edges.len(),
{
    if edges.len() == 0 {
        0
    } else {
        internal_count(edges.drop_last()) + if edges.last().2 == "internal"@ {
            1nat
        } else {
            0nat
        }
    }
}

/// Whether `names` holds `name`.
fn contains_name(names: &Vec<String>, name: &str) -> (b: bool)
    ensures
        b == texts(names@).contains(name@),
{
    let mut i: usize = 0;
    while i < names.len()
        invariant
            i <= names.len(),
            forall|k: int| 0 <= k < i ==> names@[k]@ != name@,
        decreases names.len() - i,
    {
        if str_eq(names[i].as_str(), name) {
            assert(texts(names@)[i as int] == name@);
            return true;
        }
        i = i + 1;
    }
    assert forall|k: int| 0 <= k < texts(names@).len() implies texts(names@)[k] != name@ by {
        assert(texts(names@)[k] == names@[k]@);
    }
    false
}

/// The graph of the read members: `members[i]` is the path of a member and
/// `entries[i]` what its manifest gave, if it was read and names its package.
pub fn assemble_graph(members: &Vec<String>, entries: &Vec<Option<CrateEntry>>, files_scanned: usize) -> (g: GraphResponse)
    requires
        members.len() == entries.len(),
    ensures
        node_views(g.nodes@) == graph_nodes(texts(members@), entry_views(entries@)),
        edge_views(g.edges@) == graph_edges(entry_views(entries@), crate_names(entry_views(entries@))),
        g.stats.total_crates == g.nodes.len(),
        g.stats.total_dependencies == g.edges.len(),
        g.stats.internal_dependencies == internal_count(edge_views(g.edges@)),
        g.stats.files_scanned == files_scanned,
{
    let ghost ms = texts(members@);
    let ghost ev = entry_views(entries@);
    let n = entries.len();
    let mut nodes: Vec<GraphNode> = Vec::new();
    let mut names: Vec<String> = Vec::new();
    let mut i: usize = 0;
    while i < n
        invariant
            n == entries.len() == members.len(),
            i <= n,
            ms == texts(members@),
            ev == entry_views(entries@),
            node_views(nodes@) == graph_nodes(ms, ev.take(i as int)),
            texts(names@) == crate_names(ev.take(i as int)),
        decreases n - i,
    {
        proof {
            assert(ev.take(i + 1).drop_last() =~= ev.take(i as int));
        }
        match &entries[i] {
            Some(e) => {
                let node = GraphNode {
                    id: string_of(e.name.as_str()),
                    label: string_of(e.name.as_str()),
                    crate_type: string_of(e.crate_type.as_str()),
                    path: string_of(members[i].as_str()),
                };
                nodes.push(node);
                names.push(string_of(e.name.as_str()));
                proof {
                    assert(ms[i as int] == members@[i as int]@);
                    assert(node_views(nodes@) =~= graph_nodes(ms, ev.take(i as int)).push(
                        (e.name@, e.name@, e.crate_type@, members@[i as int]@),
                    ));
                    assert(texts(names@) =~= crate_names(ev.take(i as int)).push(e.name@));
                }
            },
            None => {},
        }
        i = i + 1;
    }
    proof {
        assert(ev.take(n as int) =~= ev);
    }
    let ghost all_names = crate_names(ev);
    let mut edges: Vec<GraphEdge> = Vec::new();
    let mut internal: usize = 0;
    let mut i: usize = 0;
    while i < n
        invariant
            n == entries.len(),
            i <= n,
            ev == entry_views(entries@),
            texts(names@) == all_names,
            all_names == crate_names(ev),
            edge_views(edges@) == graph_edges(ev.take(i as int), all_names),
            internal == internal_count(edge_views(edges@)),
            internal <= edges.len(),
        decreases n - i,
    {
        proof {
            assert(ev.take(i + 1).drop_last() =~= ev.take(i as int));
        }
        match &entries[i] {
            Some(e) => {
                let ghost before = edge_views(edges@);
                let ghost view = (e.name@, e.crate_type@, texts(e.dependencies@));
                let mut j: usize = 0;
                while j < e.dependencies.len()
                    invariant
                        j <= e.dependencies.len(),
                        texts(names@) == all_names,
                        view == (e.name@, e.crate_type@, texts(e.dependencies@)),
                        edge_views(edges@) == before + edges_from(view, all_names).take(j as int),
                        internal == internal_count(edge_views(edges@)),
                        internal <= edges.len(),
                    decreases e.dependencies.len() - j,
                {
                    let dep = &e.dependencies[j];
                    let is_internal = contains_name(&names, dep.as_str());
                    let kind = if is_internal {
                        string_of("internal")
                    } else {
                        string_of("external")
                    };
                    let ghost old_views = edge_views(edges@);
                    let ghost old_len = edges.len();
                    edges.push(GraphEdge { from: string_of(e.name.as_str()), to: string_of(dep.as_str()), kind });
                    proof {
                        reveal_strlit("internal");
                        reveal_strlit("external");
                        assert(texts(e.dependencies@)[j as int] == dep@);
                        assert(edges_from(view, all_names)[j as int] == (e.name@, dep@, dependency_kind(all_names, dep@)));
                        assert(edge_views(edges@) =~= old_views.push((e.name@, dep@, dependency_kind(all_names, dep@))));
                        assert(edge_views(edges@).drop_last() =~= old_views);
                        assert(edges_from(view, all_names).take(j + 1) =~= edges_from(view, all_names).take(j as int).push(
                            (e.name@, dep@, dependency_kind(all_names, dep@)),
                        ));
                    }
                    proof {
                        let nv = edge_views(edges@);
                        reveal_strlit("internal");
                        reveal_strlit("external");
                        assert("external"@ != "internal"@) by {
                            assert("external"@[0] != "internal"@[0]);
                        }
                        assert(nv.last().2 == dependency_kind(all_names, dep@));
                        assert(internal_count(nv) == internal_count(old_views) + if nv.last().2
                            == "internal"@ {
                            1nat
                        } else {
                            0nat
                        });
                        assert(edges.len() == old_len + 1);
                    }
                    if is_internal {
                        internal = internal + 1;
                    }
                    j = j + 1;
                }
                proof {
                    assert(edges_from(view, all_names).take(e.dependencies.len() as int) =~= edges_from(view, all_names));
                }
            },
            None => {},
        }
        i = i + 1;
    }
    proof {
        assert(ev.take(n as int) =~= ev);
    }
    let total_crates = nodes.len();
    let total_dependencies = edges.len();
    GraphResponse {
        nodes,
        edges,
        stats: GraphStats { total_crates, total_dependencies, internal_dependencies: internal, files_scanned },
    }
}

/// What the manifests of the members give: for each member whose manifest
/// was read and names its package, that name, its kind and its
/// dependencies.
pub open spec fn manifest_entries(manifests: Seq<Option<Seq<char>>>) -> Seq<Option<EntryView>> {
    manifests.map_values(
        |m: Option<Seq<char>>|
            match m {
                Some(c) => match crate_meta_of(c) {
                    Some((name, kind)) => Some((name, kind, dependencies_of(c))),
                    None => None,
                },
                None => None,
            },
    )
}

/// How many of `v` are present.
pub open spec fn count_present(v: Seq<Option<Seq<char>>>) -> nat
    decreases v.len(),
{
    if v.len() == 0 {
        0
    } else {
        count_present(v.drop_last()) + if v.last() is Some {
            1nat
        } else {
            0nat
        }
    }
}

/// The graph of the workspace: `members[i]` is the path of a member and
/// `manifests[i]` the text of its `Cargo.toml`, when it could be read;
/// `rust_files` is the number of Rust source files found in the workspace.
/// Every manifest read counts as a file scanned, as does every Rust file.
pub fn build_graph(members: &Vec<String>, manifests: &Vec<Option<String>>, rust_files: usize) -> (g: GraphResponse)
    requires
        members.len() == manifests.len(),
        rust_files <= usize::MAX - manifests.len(),
    ensures
        node_views(g.nodes@) == graph_nodes(texts(members@), manifest_entries(optional_texts(manifests@))),
        edge_views(g.edges@) == graph_edges(
            manifest_entries(optional_texts(manifests@)),
            crate_names(manifest_entries(optional_texts(manifests@))),
        ),
        g.stats.total_crates == g.nodes.len(),
        g.stats.total_dependencies == g.edges.len(),
        g.stats.internal_dependencies == internal_count(edge_views(g.edges@)),
        g.stats.files_scanned == count_present(optional_texts(manifests@)) + rust_files,
{
    let ghost mv = optional_texts(manifests@);
    let n = manifests.len();
    let mut entries: Vec<Option<CrateEntry>> = Vec::new();
    let mut read: usize = 0;
    let mut i: usize = 0;
    while i < n
        invariant
            n == manifests.len(),
            i <= n,
            mv == optional_texts(manifests@),
            entry_views(entries@) == manifest_entries(mv).take(i as int),
            read == count_present(mv.take(i as int)),
            read <= i,
        decreases n - i,
    {
        proof {
            assert(mv.take(i + 1).drop_last() =~= mv.take(i as int));
        }
        let entry = match &manifests[i] {
            Some(content) => {
                read = read + 1;
                match parse_crate_meta(content.as_str()) {
                    Some((name, crate_type)) => Some(
                        CrateEntry { name, crate_type, dependencies: parse_dependencies(content.as_str()) },
                    ),
                    None => None,
                }
            },
            None => None,
        };
        let ghost before = entry_views(entries@);
        entries.push(entry);
        proof {
            assert(entry_views(entries@) =~= before.push(entry_views(entries@).last()));
            assert(manifest_entries(mv).take(i + 1) =~= manifest_entries(mv).take(i as int).push(
                manifest_entries(mv)[i as int],
            ));
        }
        i = i + 1;
    }
    proof {
        assert(mv.take(n as int) =~= mv);
        assert(manifest_entries(mv).take(n as int) =~= manifest_entries(mv));
    }
    assemble_graph(members, &entries, read + rust_files)
}

/// Whether a path component names a directory that the scan skips:
/// `target`, `.git`, `node_modules` or `.cargo`.
pub open spec fn is_ignored_dir(s: Seq<char>) -> bool {
    s == "target"@ || s == ".git"@ || s == "node_modules"@ || s == ".cargo"@
}

/// Whether a (lower-cased) extension marks a binary or an asset that the
/// scan skips: images, fonts, archives, PDFs and lock files.
pub open spec fn is_ignored_extension(e: Seq<char>) -> bool {
    ||| e == "png"@
    ||| e == "svg"@
    ||| e == "jpg"@
    ||| e == "jpeg"@
    ||| e == "gif"@
    ||| e == "ico"@
    ||| e == "webp"@
    ||| e == "bmp"@
    ||| e == "woff"@
    ||| e == "woff2"@
    ||| e == "ttf"@
    ||| e == "otf"@
    ||| e == "eot"@
    ||| e == "pdf"@
    ||| e == "zip"@
    ||| e == "tar"@
    ||| e == "gz"@
    ||| e == "lock"@
}

fn ignored_dir(s: &str) -> (b: bool)
    ensures
        b == is_ignored_dir(s@),
{
    str_eq(s, "target") || str_eq(s, ".git") || str_eq(s, "node_modules") || str_eq(s, ".cargo")
}

fn ignored_extension(e: &str) -> (b: bool)
    ensures
        b == is_ignored_extension(e@),
{
    str_eq(e, "png") || str_eq(e, "svg") || str_eq(e, "jpg") || str_eq(e, "jpeg") || str_eq(e, "gif")
        || str_eq(e, "ico") || str_eq(e, "webp") || str_eq(e, "bmp") || str_eq(e, "woff") || str_eq(
        e,
        "woff2",
    ) || str_eq(e, "ttf") || str_eq(e, "otf") || str_eq(e, "eot") || str_eq(e, "pdf") || str_eq(
        e,
        "zip",
    ) || str_eq(e, "tar") || str_eq(e, "gz") || str_eq(e, "lock")
}

/// Whether the scan skips a path, given its components (as text) and its
/// extension: it does when a component is an ignored directory, or when the
/// lower-cased extension is an ignored one.
pub fn should_ignore_path(components: &Vec<String>, extension: Option<&str>) -> (b: bool)
    ensures
        b == ((exists|i: int| 0 <= i < components.len() && is_ignored_dir(#[trigger] components@[i]@))
            || (extension matches Some(e) && is_ignored_extension(unicode_lowercase(e@)))),
{
    let mut i: usize = 0;
    while i < components.len()
        invariant
            i <= components.len(),
            forall|k: int| 0 <= k < i ==> !is_ignored_dir(#[trigger] components@[k]@),
        decreases components.len() - i,
    {
        if ignored_dir(components[i].as_str()) {
            return true;
        }
        i = i + 1;
    }
    match extension {
        Some(e) => {
            let lower = to_lowercase(e);
            ignored_extension(lower.as_str())
        },
        None => false,
    }
}

/// How many of the scanned files, given by their extensions, are Rust
/// sources (extension `rs`).
pub open spec fn rust_source_count(extensions: Seq<Option<Seq<char>>>) -> nat
    decreases extensions.len(),
{
    if extensions.len() == 0 {
        0
    } else {
        rust_source_count(extensions.drop_last()) + if extensions.last() == Some("rs"@) {
            1nat
        } else {
            0nat
        }
    }
}

/// The number of Rust sources among files with these extensions.
pub fn count_rust_sources(extensions: &Vec<Option<String>>) -> (count: usize)
    ensures
        count == rust_source_count(optional_texts(extensions@)),
{
    let ghost ev = optional_texts(extensions@);
    let mut count: usize = 0;
    let mut i: usize = 0;
    while i < extensions.len()
        invariant
            i <= extensions.len(),
            ev == optional_texts(extensions@),
            count == rust_source_count(ev.take(i as int)),
            count <= i,
        decreases extensions.len() - i,
    {
        proof {
            assert(ev.take(i + 1).drop_last() =~= ev.take(i as int));
        }
        match &extensions[i] {
            Some(e) => {
                if str_eq(e.as_str(), "rs") {
                    count = count + 1;
                }
            },
            None => {},
        }
        i = i + 1;
    }
    assert(ev.take(extensions.len() as int) =~= ev);
    count
}

/// Law: the internal dependencies are some of the dependencies.
pub proof fn law_internal_at_most_total(edges: Seq<EdgeView>)
    ensures
        internal_count(edges) <= edges.len(),
    decreases edges.len(),
{
    if edges.len() > 0 {
        law_internal_at_most_total(edges.drop_last());
    }
}

/// How many entries are present.
pub open spec fn entry_count(entries: Seq<Option<EntryView>>) -> nat
    decreases entries.len(),
{
    if entries.len() == 0 {
        0
    } else {
        entry_count(entries.drop_last()) + if entries.last() is Some {
            1nat
        } else {
            0nat
        }
    }
}

/// Law: there is one node per member whose manifest was read and named its
/// package, and one crate name per node, the node's id.
pub proof fn law_one_node_per_crate(members: Seq<Seq<char>>, entries: Seq<Option<EntryView>>)
    ensures
        graph_nodes(members, entries).len() == entry_count(entries),
        crate_names(entries).len() == entry_count(entries),
        forall|k: int|
            0 <= k < crate_names(entries).len() ==> #[trigger] graph_nodes(members, entries)[k].0
                == crate_names(entries)[k],
    decreases entries.len(),
{
    if entries.len() > 0 {
        law_one_node_per_crate(members, entries.drop_last());
    }
}

/// Law: an edge is internal exactly when its target is the name of a crate
/// of the workspace.
pub proof fn law_internal_iff_workspace_crate(entries: Seq<Option<EntryView>>, names: Seq<Seq<char>>, k: int)
    requires
        0 <= k < graph_edges(entries, names).len(),
    ensures
        (graph_edges(entries, names)[k].2 == "internal"@) <==> names.contains(graph_edges(entries, names)[k].1),
    decreases entries.len(),
{
    reveal_strlit("internal");
    reveal_strlit("external");
    assert("external"@ != "internal"@) by {
        assert("external"@[0] != "internal"@[0]);
    }
    let rest = graph_edges(entries.drop_last(), names);
    if k < rest.len() {
        match entries.last() {
            Some(e) => {
                assert(graph_edges(entries, names)[k] == rest[k]);
            },
            None => {},
        }
        law_internal_iff_workspace_crate(entries.drop_last(), names, k);
    } else {
        match entries.last() {
            Some(e) => {
                assert(graph_edges(entries, names)[k] == edges_from(e, names)[k - rest.len()]);
            },
            None => {},
        }
    }
}

/// The node that the crate entry `e` of the member at `path` gives: the
/// crate's name as id and label, its kind, and the member's path.
pub open spec fn node_of(e: EntryView, path: Seq<char>) -> NodeView {
    (e.0, e.0, e.1, path)
}

proof fn lemma_node_at_member_position(members: Seq<Seq<char>>, entries: Seq<Option<EntryView>>, i: int)
    requires
        0 <= i < entries.len(),
        entries[i] is Some,
    ensures
        entry_count(entries.take(i)) < graph_nodes(members, entries).len(),
        graph_nodes(members, entries)[entry_count(entries.take(i)) as int] == node_of(
            entries[i]->0,
            members[i],
        ),
    decreases entries.len(),
{
    let n = entries.len() as int;
    let es = entries.drop_last();
    law_one_node_per_crate(members, es);
    if i < n - 1 {
        lemma_node_at_member_position(members, es, i);
        assert(entries.take(i) =~= es.take(i));
    } else {
        assert(entries.take(i) =~= es);
    }
}

proof fn lemma_member_of_node(members: Seq<Seq<char>>, entries: Seq<Option<EntryView>>, k: int) -> (i: int)
    requires
        0 <= k < graph_nodes(members, entries).len(),
    ensures
        0 <= i < entries.len(),
        entries[i] is Some,
        entry_count(entries.take(i)) == k,
        graph_nodes(members, entries)[k] == node_of(entries[i]->0, members[i]),
    decreases entries.len(),
{
    let n = entries.len() as int;
    let es = entries.drop_last();
    law_one_node_per_crate(members, es);
    if k < graph_nodes(members, es).len() {
        let i = lemma_member_of_node(members, es, k);
        assert(entries.take(i) =~= es.take(i));
        i
    } else {
        assert(entries.take(n - 1) =~= es);
        n - 1
    }
}

/// Law: the member `i` whose manifest was read and named a crate gives the
/// node at the position that counts the members with a crate before it: the
/// node has the crate's name as id and label, its kind, and the member's own
/// path `members[i]`.
pub proof fn law_node_of_each_read_member(members: Seq<Seq<char>>, entries: Seq<Option<EntryView>>)
    ensures
        forall|i: int|
            0 <= i < entries.len() && (#[trigger] entries[i]) is Some ==> entry_count(entries.take(i))
                < graph_nodes(members, entries).len() && graph_nodes(members, entries)[entry_count(
                entries.take(i),
            ) as int] == node_of(entries[i]->0, members[i]),
{
    assert forall|i: int| 0 <= i < entries.len() && (#[trigger] entries[i]) is Some implies entry_count(
        entries.take(i),
    ) < graph_nodes(members, entries).len() && graph_nodes(members, entries)[entry_count(
        entries.take(i),
    ) as int] == node_of(entries[i]->0, members[i]) by {
        lemma_node_at_member_position(members, entries, i);
    }
}

/// Law: every node is the node of a member whose manifest was read and named
/// a crate: the `k`-th node comes from the member `i` that is the `k`-th such
/// member (the members before it with a crate number `k`), and its path is
/// that member's own path `members[i]`.
pub proof fn law_each_node_from_a_read_member(
    members: Seq<Seq<char>>,
    entries: Seq<Option<EntryView>>,
    k: int,
)
    requires
        0 <= k < graph_nodes(members, entries).len(),
    ensures
        exists|i: int|
            0 <= i < entries.len() && (#[trigger] entries[i]) is Some && entry_count(entries.take(i))
                == k && graph_nodes(members, entries)[k] == node_of(entries[i]->0, members[i]),
{
    let i = lemma_member_of_node(members, entries, k);
    assert(entries[i] is Some);
}

/// Law: the nodes of the workspace graph come from the members whose
/// manifest was read and names a package: for each node there is a member
/// `i` whose manifest text gives the node's crate name and kind, the node's
/// path is `members[i]`, and the node stands at the position that counts the
/// members with such a manifest before `i`.
pub proof fn law_graph_node_comes_from_its_manifest(
    members: Seq<Seq<char>>,
    manifests: Seq<Option<Seq<char>>>,
    k: int,
)
    requires
        0 <= k < graph_nodes(members, manifest_entries(manifests)).len(),
    ensures
        exists|i: int|
            0 <= i < manifests.len() && entry_count(manifest_entries(manifests).take(i)) == k && (
            #[trigger] manifests[i] matches Some(c) && (crate_meta_of(c) matches Some((name, kind))
                && graph_nodes(members, manifest_entries(manifests))[k] == (name, name, kind, members[i]))),
{
    let es = manifest_entries(manifests);
    let i = lemma_member_of_node(members, es, k);
    assert(manifests[i] is Some);
}

} // verus!
