use kiln::detect::AppContext;
use kiln::overrides::BuildOverrides;
use kiln::project::{DirListing, ProjectFile, ProjectFiles};
use kiln::providers::versions::{
    normalize_version, resolve_version, version_from_file, version_from_mise, version_from_tool_files,
    version_from_tool_versions,
};
use kiln::Error;

fn project(files: &[(&str, &str)]) -> ProjectFiles {
    let entries = files.iter().filter(|(p, _)| !p.contains('/')).map(|(p, _)| p.to_string()).collect();
    ProjectFiles {
        root: "/tmp/project".to_string(),
        exists: true,
        files: files
            .iter()
            .map(|(p, c)| ProjectFile { path: p.to_string(), content: Some(c.to_string()) })
            .collect(),
        listings: vec![DirListing { dir: ".".to_string(), entries }],
    }
}

fn ctx_with(files: &[(&str, &str)]) -> AppContext {
    AppContext::new(project(files)).unwrap()
}

#[test]
fn reads_tool_versions_by_alias() {
    let ctx = ctx_with(&[(".tool-versions", "nodejs 20.11.0\npython 3.12.1\n")]);
    assert_eq!(version_from_tool_versions(&ctx, &["node", "nodejs"]).as_deref(), Some("20.11.0"));
    assert_eq!(version_from_tool_versions(&ctx, &["python"]).as_deref(), Some("3.12.1"));
    assert_eq!(version_from_tool_versions(&ctx, &["ruby"]), None);
}

#[test]
fn tool_versions_ignores_comments_and_blank_lines() {
    let ctx = ctx_with(&[(".tool-versions", "# a comment\n\n  golang 1.23.4  \n")]);
    assert_eq!(version_from_tool_versions(&ctx, &["go", "golang"]).as_deref(), Some("1.23.4"));
}

#[test]
fn tool_versions_rejects_freeform_values() {
    let ctx = ctx_with(&[(".tool-versions", "nodejs lts\n")]);
    assert_eq!(version_from_tool_versions(&ctx, &["node", "nodejs"]), None);
}

#[test]
fn reads_mise_toml_string_table_and_array() {
    let ctx = ctx_with(&[(
        "mise.toml",
        "[tools]\nnode = \"20\"\npython = { version = \"3.12\" }\ngo = [\"1.23\", \"1.22\"]\n",
    )]);
    assert_eq!(version_from_mise(&ctx, &["node"]).as_deref(), Some("20"));
    assert_eq!(version_from_mise(&ctx, &["python"]).as_deref(), Some("3.12"));
    assert_eq!(version_from_mise(&ctx, &["go", "golang"]).as_deref(), Some("1.23"));
}

#[test]
fn dotfile_mise_config_is_read() {
    let ctx = ctx_with(&[(".mise.toml", "[tools]\nruby = \"3.3.5\"\n")]);
    assert_eq!(version_from_mise(&ctx, &["ruby"]).as_deref(), Some("3.3.5"));
}

#[test]
fn tool_files_prefers_tool_versions_over_mise() {
    let ctx = ctx_with(&[(".tool-versions", "nodejs 18.19.0\n"), ("mise.toml", "[tools]\nnode = \"22\"\n")]);
    assert_eq!(version_from_tool_files(&ctx, &["node", "nodejs"]).as_deref(), Some("18.19.0"));
}

#[test]
fn normalizes_version_tokens() {
    assert_eq!(normalize_version("  v18.2 \n").as_deref(), Some("18.2"));
    assert_eq!(normalize_version("vv1").as_deref(), Some("1"));
    assert_eq!(normalize_version("lts/*"), None);
    assert_eq!(normalize_version("latest"), None);
    assert_eq!(normalize_version("   "), None);
    assert_eq!(normalize_version("v"), None);
}

#[test]
fn version_files_and_case_insensitive_aliases() {
    let ctx = ctx_with(&[
        (".python-version", "3.12\n"),
        (".tool-versions", "NodeJS 19.1 extra\nnode\n"),
        (".config/mise/config.toml", "[tools]\nerlang = { ver = \"1\" }\nelixir = [\"1.17\"]\n"),
    ]);
    assert_eq!(version_from_file(&ctx, ".python-version").as_deref(), Some("3.12"));
    assert_eq!(version_from_file(&ctx, ".nvmrc"), None);
    assert_eq!(version_from_tool_versions(&ctx, &["nodejs"]).as_deref(), Some("19.1"));
    assert_eq!(version_from_mise(&ctx, &["erlang"]), None);
    assert_eq!(version_from_mise(&ctx, &["elixir"]).as_deref(), Some("1.17"));
}

#[test]
fn resolve_version_prefers_override_then_detected_then_default() {
    let plain = ctx_with(&[]);
    assert_eq!(resolve_version(&plain, Some("20".to_string()), "22").unwrap(), "20");
    assert_eq!(resolve_version(&plain, None, "22").unwrap(), "22");
    let pinned = AppContext::with_overrides(
        project(&[]),
        BuildOverrides { version: Some("18".to_string()), ..Default::default() },
    )
    .unwrap();
    assert_eq!(resolve_version(&pinned, Some("20".to_string()), "22").unwrap(), "18");
    let bad = AppContext::with_overrides(
        project(&[]),
        BuildOverrides { version: Some("1 && evil".to_string()), ..Default::default() },
    )
    .unwrap();
    match resolve_version(&bad, None, "22") {
        Err(Error::UnsafeValue { field, value }) => {
            assert_eq!(field, "version");
            assert_eq!(value, "1 && evil");
        }
        other => panic!("unexpected {other:?}"),
    }
}
