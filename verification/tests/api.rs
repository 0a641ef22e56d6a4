use valdraegorn::api::errors::ApiError;
use valdraegorn::api::graph::{
    build_graph, count_rust_sources, declares_workspace, parse_crate_meta, parse_dependencies,
    parse_workspace_members, should_ignore_path, workspace_search_step, WorkspaceSearchStep,
};
use valdraegorn::api::requests::{
    tenant_not_found, CreateTenantRequest, LoginRequest, RegisterUserRequest,
};
use valdraegorn::errors::DomainError;

#[test]
fn errors_map_to_statuses() {
    let cases = vec![
        (DomainError::Validation("v".to_string()), 400, "v"),
        (DomainError::NotFound("n".to_string()), 404, "n"),
        (DomainError::Conflict("c".to_string()), 409, "c"),
        (DomainError::Unauthorized, 401, "Unauthorized"),
        (DomainError::Forbidden("f".to_string()), 403, "f"),
    ];
    for (e, status, message) in cases {
        let (s, m) = ApiError::from(e).into_status_and_message();
        assert_eq!(s, status);
        assert_eq!(m, message);
    }
}

#[test]
fn tenant_not_found_message() {
    assert_eq!(
        tenant_not_found("acme"),
        DomainError::NotFound("Tenant 'acme' not found".to_string())
    );
}

#[test]
fn requests_become_inputs() {
    let login = LoginRequest {
        tenant_slug: "acme".to_string(),
        email: "a@b.c".to_string(),
        password: "pw".to_string(),
    };
    let input = login.into_input(3);
    assert_eq!((input.tenant_id, input.email.as_str(), input.password_plaintext.as_str()), (3, "a@b.c", "pw"));
    let reg = RegisterUserRequest {
        email: "a@b.c".to_string(),
        display_name: "A".to_string(),
        password: "pw".to_string(),
    };
    let input = reg.into_input(4);
    assert_eq!(input.tenant_id, 4);
    assert_eq!(input.display_name, "A");
    let ct = CreateTenantRequest { slug: "s".to_string(), name: "n".to_string() }.into_input();
    assert_eq!((ct.slug.as_str(), ct.name.as_str()), ("s", "n"));
}

#[test]
fn ignored_paths() {
    let comps = |v: &[&str]| v.iter().map(|s| s.to_string()).collect::<Vec<_>>();
    assert!(should_ignore_path(&comps(&["crates", "target", "debug"]), None));
    assert!(should_ignore_path(&comps(&[".", ".git"]), None));
    assert!(should_ignore_path(&comps(&["web", "node_modules", "x.js"]), Some("js")));
    assert!(should_ignore_path(&comps(&["docs", "Logo.PNG"]), Some("PNG")));
    assert!(should_ignore_path(&comps(&["Cargo.lock"]), Some("lock")));
    assert!(!should_ignore_path(&comps(&["src", "main.rs"]), Some("rs")));
    assert!(!should_ignore_path(&comps(&["src"]), None));
    assert!(!should_ignore_path(&comps(&["targets"]), None));
}

#[test]
fn rust_sources_are_counted() {
    let exts = vec![Some("rs".to_string()), None, Some("toml".to_string()), Some("rs".to_string()), Some("RS".to_string())];
    assert_eq!(count_rust_sources(&exts), 2);
}

const ROOT: &str = "[workspace]\nmembers = [\"crates/domain\", \"crates/api\", 3]\n";
const DOMAIN: &str = "[package]\nname = \"valdhran-domain\"\n\n[lib]\npath = \"src/lib.rs\"\n\n[dependencies]\nserde = \"1\"\nuuid = \"1\"\n";
const API: &str = "[package]\nname = \"valdhran-api\"\n\n[dependencies]\naxum = \"0.7\"\nvaldhran-domain = { path = \"../domain\" }\n";

#[test]
fn manifests_are_read() {
    assert_eq!(parse_workspace_members(ROOT), vec!["crates/domain".to_string(), "crates/api".to_string()]);
    assert_eq!(parse_workspace_members("not toml ["), Vec::<String>::new());
    assert_eq!(parse_workspace_members(DOMAIN), Vec::<String>::new());
    assert_eq!(
        parse_crate_meta(DOMAIN),
        Some(("valdhran-domain".to_string(), "library".to_string()))
    );
    assert_eq!(parse_crate_meta(API), Some(("valdhran-api".to_string(), "binary".to_string())));
    assert_eq!(parse_crate_meta(ROOT), None);
    assert_eq!(parse_dependencies(DOMAIN), vec!["serde".to_string(), "uuid".to_string()]);
    assert_eq!(parse_dependencies(ROOT), Vec::<String>::new());
}

#[test]
fn graph_of_a_workspace() {
    let members = vec!["crates/domain".to_string(), "crates/api".to_string(), "crates/gone".to_string()];
    let manifests = vec![Some(DOMAIN.to_string()), Some(API.to_string()), None];
    let g = build_graph(&members, &manifests, 10);
    assert_eq!(g.nodes.len(), 2);
    assert_eq!(g.nodes[0].id, "valdhran-domain");
    assert_eq!(g.nodes[0].label, "valdhran-domain");
    assert_eq!(g.nodes[0].crate_type, "library");
    assert_eq!(g.nodes[0].path, "crates/domain");
    assert_eq!(g.nodes[1].crate_type, "binary");
    let edges: Vec<(String, String, String)> =
        g.edges.iter().map(|e| (e.from.clone(), e.to.clone(), e.kind.clone())).collect();
    assert_eq!(
        edges,
        vec![
            ("valdhran-domain".to_string(), "serde".to_string(), "external".to_string()),
            ("valdhran-domain".to_string(), "uuid".to_string(), "external".to_string()),
            ("valdhran-api".to_string(), "axum".to_string(), "external".to_string()),
            ("valdhran-api".to_string(), "valdhran-domain".to_string(), "internal".to_string()),
        ]
    );
    assert_eq!(g.stats.total_crates, 2);
    assert_eq!(g.stats.total_dependencies, 4);
    assert_eq!(g.stats.internal_dependencies, 1);
    assert_eq!(g.stats.files_scanned, 12);
}

#[test]
fn manifest_without_package_gives_no_node_but_counts_as_scanned() {
    let members = vec!["x".to_string()];
    let manifests = vec![Some("[dependencies]\nserde = \"1\"\n".to_string())];
    let g = build_graph(&members, &manifests, 0);
    assert_eq!(g.nodes.len(), 0);
    assert_eq!(g.edges.len(), 0);
    assert_eq!(g.stats.files_scanned, 1);
}

#[test]
fn workspace_manifest_is_recognised() {
    assert!(declares_workspace("[workspace]\nmembers = [\"a\"]\n"));
    assert!(declares_workspace("[package]\nname = \"x\"\n\n[workspace]\n"));
    assert!(!declares_workspace("[package]\nname = \"x\"\n"));
    assert!(!declares_workspace("[workspace"));
    assert!(!declares_workspace(""));
}

#[test]
fn workspace_search_steps() {
    let ws = "[workspace]\nmembers = []\n";
    let pkg = "[package]\nname = \"x\"\n";
    assert_eq!(workspace_search_step(Some(ws), true), WorkspaceSearchStep::Found);
    assert_eq!(workspace_search_step(Some(ws), false), WorkspaceSearchStep::Found);
    assert_eq!(workspace_search_step(Some(pkg), true), WorkspaceSearchStep::GoUp);
    assert_eq!(workspace_search_step(None, true), WorkspaceSearchStep::GoUp);
    assert_eq!(workspace_search_step(Some(pkg), false), WorkspaceSearchStep::GiveUp);
    assert_eq!(workspace_search_step(None, false), WorkspaceSearchStep::GiveUp);
}
