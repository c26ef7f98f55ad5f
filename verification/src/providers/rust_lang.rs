//! Rust projects built with cargo into a release binary.
use vstd::prelude::*;
use crate::detect::{AppContext, ContextView};
use crate::error::{Error, ErrorView};
use crate::plan::{BuildPlan, PlanView};
use crate::project::has;
use crate::providers::versions::{
    chosen_version, file_version, key, normalize_version, normalized, resolve_version, str_views,
    tool_files_version, version_from_file, version_from_tool_files,
};
use crate::providers::{
    Provider, cat, commands1, copies1, copy_all, copy_all_view, copy_from, from_view, froms1,
    no_copies, no_froms, one, owned, plan, plan_view, run, run_view, stage, stage_view, stages2,
    toml_in, toml_in_file, two, unsafe_view,
};
use crate::sanitize::{token_ok, validate_token};
use crate::structured::{Found, FoundView, Step, StepView, step_views};

verus! {

/// The binary a `Cargo.toml` builds: the first `[[bin]]` name, else the
/// package name, else `app`.
pub open spec fn rust_binary(c: ContextView) -> Seq<char> {
    match toml_in(c, "Cargo.toml"@, seq![key("bin"@), StepView::Index(0), key("name"@)]) {
        FoundView::Text(n) => n,
        _ => match toml_in(c, "Cargo.toml"@, seq![key("package"@), key("name"@)]) {
            FoundView::Text(n) => n,
            _ => "app"@,
        },
    }
}

/// The version a `rust-toolchain.toml` `[toolchain] channel` pins (a
/// non-numeric channel pins nothing), else a plain `rust-toolchain` file.
pub open spec fn toolchain_version(c: ContextView) -> Option<Seq<char>> {
    match toml_in(c, "rust-toolchain.toml"@, seq![key("toolchain"@), key("channel"@)]) {
        FoundView::Text(ch) => normalized(ch),
        _ => file_version(c, "rust-toolchain"@),
    }
}

pub open spec fn rust_detected_version(c: ContextView) -> Option<Seq<char>> {
    match toolchain_version(c) {
        Some(v) => Some(v),
        None => tool_files_version(c, seq!["rust"@]),
    }
}

pub open spec fn rust_version(c: ContextView) -> Seq<char> {
    chosen_version(c, rust_detected_version(c), "1.85"@)
}

pub open spec fn rust_ca_certificates() -> Seq<char> {
    "apt-get update && apt-get install -y --no-install-recommends ca-certificates && rm -rf /var/lib/apt/lists/*"@
}

/// The Rust plan: refused when the binary name or the version is unsafe.
pub open spec fn rust_plan(c: ContextView) -> Result<PlanView, ErrorView> {
    let bin = rust_binary(c);
    if !token_ok(bin) {
        Err(unsafe_view("Cargo.toml package name"@, bin))
    } else if !token_ok(rust_version(c)) {
        Err(unsafe_view("version"@, rust_version(c)))
    } else {
        Ok(
            plan_view(
                "rust"@,
                seq![
                    stage_view(
                        "build"@,
                        "rust:"@ + rust_version(c),
                        "/app"@,
                        seq![
                            run_view(
                                "cargo build --release --bin "@ + bin + " && cp target/release/"@
                                    + bin + " /"@ + bin,
                                seq!["/usr/local/cargo/registry"@, "/app/target"@],
                            ),
                        ],
                        seq![copy_all_view()],
                        Seq::empty(),
                    ),
                    stage_view(
                        "runtime"@,
                        "debian:bookworm-slim"@,
                        "/"@,
                        seq![run_view(rust_ca_certificates(), seq!["/var/cache/apt"@])],
                        Seq::empty(),
                        seq![from_view("build"@, "/"@ + bin, "/usr/local/bin/"@ + bin)],
                    ),
                ],
                Some("/usr/local/bin/"@ + bin),
                Some(8080u16),
            ),
        )
    }
}

fn key_step(k: &str) -> (s: Step)
    ensures
        s@ == key(k@),
{
    Step::Key(owned(k))
}

/// Rust projects: a `Cargo.toml`.
pub struct RustProvider;

impl RustProvider {
    fn binary_name(ctx: &AppContext) -> (r: String)
        ensures
            r@ == rust_binary(ctx@),
    {
        let bin_path = vec![key_step("bin"), Step::Index(0), key_step("name")];
        assert(step_views(bin_path@) =~= seq![key("bin"@), StepView::Index(0), key("name"@)]);
        if let Found::Text(name) = toml_in_file(ctx, "Cargo.toml", &bin_path) {
            return name;
        }
        let package_path = vec![key_step("package"), key_step("name")];
        assert(step_views(package_path@) =~= seq![key("package"@), key("name"@)]);
        match toml_in_file(ctx, "Cargo.toml", &package_path) {
            Found::Text(name) => name,
            _ => owned("app"),
        }
    }

    /// The Rust version pinned by a `rust-toolchain.toml` `[toolchain] channel`
    /// (or a plain `rust-toolchain` file); a non-numeric channel such as
    /// `stable` or `nightly` falls back to the default.
    fn version_from_toolchain(ctx: &AppContext) -> (r: Option<String>)
        ensures
            crate::plan::opt_view(r) == toolchain_version(ctx@),
    {
        let channel_path = vec![key_step("toolchain"), key_step("channel")];
        assert(step_views(channel_path@) =~= seq![key("toolchain"@), key("channel"@)]);
        match toml_in_file(ctx, "rust-toolchain.toml", &channel_path) {
            Found::Text(channel) => normalize_version(channel.as_str()),
            _ => version_from_file(ctx, "rust-toolchain"),
        }
    }
}

impl Provider for RustProvider {
    open spec fn spec_name(&self) -> Seq<char> {
        "rust"@
    }

    open spec fn detects(&self, c: ContextView) -> bool {
        has(c.project, "Cargo.toml"@)
    }

    open spec fn plans(&self, c: ContextView) -> Result<PlanView, ErrorView> {
        rust_plan(c)
    }

    fn name(&self) -> (n: &'static str) {
        "rust"
    }

    fn detect(&self, ctx: &AppContext) -> (b: bool) {
        ctx.has_file("Cargo.toml")
    }

    fn plan(&self, ctx: &AppContext) -> (r: Result<BuildPlan, Error>) {
        let binary = Self::binary_name(ctx);
        if let Err(e) = validate_token("Cargo.toml package name", binary.as_str()) {
            return Err(e);
        }
        let rust_aliases: [&str; 1] = ["rust"];
        assert(str_views(rust_aliases@) =~= seq!["rust"@]);
        let detected = match Self::version_from_toolchain(ctx) {
            Some(v) => Some(v),
            None => version_from_tool_files(ctx, &rust_aliases),
        };
        let version = match resolve_version(ctx, detected, "1.85") {
            Ok(v) => v,
            Err(e) => return Err(e),
        };
        let b = binary.as_str();
        // `/app/target` is a cache mount, not part of the layer: copy the
        // binary out to a real path in the same RUN.
        let mut build_run = cat("cargo build --release --bin ", b);
        build_run.append(" && cp target/release/");
        build_run.append(b);
        build_run.append(" /");
        build_run.append(b);
        let build_stage = stage(
            "build",
            cat("rust:", version.as_str()),
            "/app",
            commands1(run(build_run, two("/usr/local/cargo/registry", "/app/target"))),
            copies1(copy_all()),
            no_froms(),
        );
        let runtime_stage = stage(
            "runtime",
            owned("debian:bookworm-slim"),
            "/",
            commands1(
                run(
                    owned(
                        "apt-get update && apt-get install -y --no-install-recommends ca-certificates && rm -rf /var/lib/apt/lists/*",
                    ),
                    one("/var/cache/apt"),
                ),
            ),
            no_copies(),
            froms1(copy_from("build", cat("/", b), cat("/usr/local/bin/", b))),
        );
        let p = plan(
            "rust",
            stages2(build_stage, runtime_stage),
            Some(cat("/usr/local/bin/", b)),
            Some(8080),
        );
        assert(rust_plan(ctx@) == Ok::<PlanView, ErrorView>(p@));
        Ok(p)
    }
}

} // verus!

verus! {

/// The image runs the binary the build wrote: one binary name runs through
/// the whole plan. The build stage builds it in release mode and copies it
/// out of the target cache to `/<name>`; the runtime stage copies that file
/// from the build stage to `/usr/local/bin/<name>`, which the start command
/// runs.
pub proof fn law_rust_runs_the_binary_it_built(c: ContextView)
    requires
        RustProvider.plans(c) is Ok,
    ensures
        ({
            let p = RustProvider.plans(c)->Ok_0;
            exists|b: Seq<char>|
                p.stages[0].commands[0].run == "cargo build --release --bin "@ + b
                    + " && cp target/release/"@ + b + " "@ + ("/"@ + b) && p.stages[1].copy_from
                    == seq![from_view("build"@, "/"@ + b, "/usr/local/bin/"@ + b)]
                    && p.start_command == Some("/usr/local/bin/"@ + b)
        }),
{
    reveal_strlit(" /");
    reveal_strlit(" ");
    reveal_strlit("/");
    let b = rust_binary(c);
    let p = RustProvider.plans(c)->Ok_0;
    assert("cargo build --release --bin "@ + b + " && cp target/release/"@ + b + " /"@ + b
        =~= "cargo build --release --bin "@ + b + " && cp target/release/"@ + b + " "@ + ("/"@ + b));
}

} // verus!
