use kiln::config::KilnConfig;
use kiln::overrides::BuildOverrides;
use std::collections::HashMap;

#[test]
fn cli_overrides_win_over_config() {
    let config = KilnConfig {
        provider: Some("node".to_string()),
        start_command: Some("node file.js".to_string()),
        ..Default::default()
    };
    let cli = BuildOverrides { start_command: Some("node dist/main.js".to_string()), ..Default::default() };
    let merged = config.merge_into(cli);
    assert_eq!(merged.start_command.as_deref(), Some("node dist/main.js"));
    assert_eq!(merged.provider.as_deref(), Some("node"));
}

#[test]
fn from_env_parses_all_kiln_vars() {
    let vars: HashMap<&str, &str> = [
        ("KILN_PROVIDER", "node"),
        ("KILN_VERSION", "20"),
        ("KILN_PACKAGE_MANAGER", "pnpm"),
        ("KILN_INSTALL_CMD", "pnpm install"),
        ("KILN_BUILD_CMD", "pnpm build"),
        ("KILN_START_CMD", "node dist/main.js"),
        ("KILN_PORT", "4000"),
        ("KILN_BUILD_APT_PACKAGES", "gcc  libpq-dev"),
        ("KILN_DEPLOY_APT_PACKAGES", "ca-certificates"),
    ]
    .into_iter()
    .collect();
    let o = BuildOverrides::from_env_with(|k: &str| vars.get(k).map(|s| (*s).to_string()));
    assert_eq!(o.provider.as_deref(), Some("node"));
    assert_eq!(o.version.as_deref(), Some("20"));
    assert_eq!(o.package_manager.as_deref(), Some("pnpm"));
    assert_eq!(o.install_command.as_deref(), Some("pnpm install"));
    assert_eq!(o.build_command.as_deref(), Some("pnpm build"));
    assert_eq!(o.start_command.as_deref(), Some("node dist/main.js"));
    assert_eq!(o.port, Some(4000));
    assert_eq!(o.build_apt_packages, vec!["gcc", "libpq-dev"]);
    assert_eq!(o.deploy_apt_packages, vec!["ca-certificates"]);
}

#[test]
fn from_env_treats_blank_as_unset() {
    let o = BuildOverrides::from_env_with(|k: &str| if k == "KILN_PROVIDER" { Some("   ".to_string()) } else { None });
    assert!(o.provider.is_none());
    assert!(o.port.is_none());
}

#[test]
fn cli_flags_win_over_env() {
    let cli = BuildOverrides { version: Some("22".to_string()), ..Default::default() };
    let env = BuildOverrides {
        version: Some("20".to_string()),
        provider: Some("node".to_string()),
        ..Default::default()
    };
    let merged = cli.or(env);
    assert_eq!(merged.version.as_deref(), Some("22"), "CLI version wins");
    assert_eq!(merged.provider.as_deref(), Some("node"), "env fills the gap");
}

#[test]
fn env_port_must_parse_and_lists_split_on_whitespace() {
    let o = BuildOverrides::from_env_with(|k: &str| match k {
        "KILN_PORT" => Some(" +8080 ".to_string()),
        "KILN_PATHS" => Some("/a  /b\t/c".to_string()),
        "KILN_SECRETS" => Some("A".to_string()),
        _ => None,
    });
    assert_eq!(o.port, Some(8080));
    assert_eq!(o.paths, vec!["/a", "/b", "/c"]);
    assert_eq!(o.secrets, vec!["A"]);
    let o = BuildOverrides::from_env_with(|k: &str| if k == "KILN_PORT" { Some("70000".to_string()) } else { None });
    assert_eq!(o.port, None);
}

#[test]
fn empty_lists_are_filled_from_the_lower_layer() {
    let hi = BuildOverrides { paths: vec![], secrets: vec!["S".to_string()], ..Default::default() };
    let lo = BuildOverrides {
        paths: vec!["/lo".to_string()],
        secrets: vec!["T".to_string()],
        port: Some(1),
        ..Default::default()
    };
    let m = hi.or(lo);
    assert_eq!(m.paths, vec!["/lo"]);
    assert_eq!(m.secrets, vec!["S"]);
    assert_eq!(m.port, Some(1));
}

#[test]
fn layering_associates_and_is_idempotent() {
    let a = || BuildOverrides { version: Some("1".to_string()), ..Default::default() };
    let b = || BuildOverrides {
        version: Some("2".to_string()),
        provider: Some("go".to_string()),
        ..Default::default()
    };
    let c = || BuildOverrides {
        provider: Some("node".to_string()),
        port: Some(9),
        paths: vec!["/c".to_string()],
        ..Default::default()
    };
    let left = a().or(b()).or(c());
    let right = a().or(b().or(c()));
    assert_eq!(left.version, right.version);
    assert_eq!(left.provider, right.provider);
    assert_eq!(left.port, right.port);
    assert_eq!(left.paths, right.paths);
    assert_eq!(left.version.as_deref(), Some("1"));
    assert_eq!(left.provider.as_deref(), Some("go"));
    let same = c().or(c());
    assert_eq!(same.provider.as_deref(), Some("node"));
    assert_eq!(same.paths, vec!["/c"]);
    let neutral = c().or(BuildOverrides::default());
    assert_eq!(neutral.port, Some(9));
}
