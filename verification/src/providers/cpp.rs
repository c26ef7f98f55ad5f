//! C and C++ projects built with CMake or a plain Makefile.
use vstd::prelude::*;
use crate::detect::{AppContext, ContextView};
use crate::error::{Error, ErrorView};
use crate::plan::{BuildPlan, PlanView};
use crate::project::has;
use crate::providers::{
    Provider, cat, commands1, copies1, copy_all, copy_all_view, copy_from, from_view, no_copies,
    one, owned, plan, plan_view, read_or_empty, run, run_plain, run_view, stage, stage_view, stages2,
    text_or_empty,
};
use crate::sanitize::{token_ok, validate_token};
use crate::text::{chars_of, first_at, index_of, is_ws, is_ws_char, lower, lower_of, trim_start};

verus! {

enum BuildSystem {
    CMake,
    Make,
}

/// The characters of a target name: up to whitespace or `)`.
pub open spec fn target_name(s: Seq<char>) -> Seq<char>
    decreases s.len(),
{
    if s.len() > 0 && !is_ws(s[0]) && s[0] != ')' {
        seq![s[0]] + target_name(s.drop_first())
    } else {
        Seq::empty()
    }
}

/// The executable a `CMakeLists.txt` declares first with
/// `add_executable(<name> ...)` (the call matched in any ASCII case), or
/// `app` when there is none or the name is not safe to interpolate.
pub open spec fn cmake_name(t: Seq<char>) -> Seq<char> {
    match first_at(lower(t), "add_executable("@) {
        Some(i) => {
            let n = target_name(trim_start(t.skip(i + 15)));
            if token_ok(n) {
                n
            } else {
                "app"@
            }
        },
        None => "app"@,
    }
}

pub open spec fn cpp_uses_cmake(c: ContextView) -> bool {
    has(c.project, "CMakeLists.txt"@)
}

pub open spec fn cpp_binary(c: ContextView) -> Seq<char> {
    if cpp_uses_cmake(c) {
        cmake_name(text_or_empty(c, "CMakeLists.txt"@))
    } else {
        "app"@
    }
}

pub open spec fn cmake_build() -> Seq<char> {
    "apt-get update && apt-get install -y --no-install-recommends cmake && cmake -B build && cmake --build build"@
}

pub open spec fn cpp_runtime_deps() -> Seq<char> {
    "apt-get update && apt-get install -y --no-install-recommends libstdc++6 ca-certificates && rm -rf /var/lib/apt/lists/*"@
}

pub open spec fn cpp_plan(c: ContextView) -> PlanView {
    let bin = cpp_binary(c);
    let cmake = cpp_uses_cmake(c);
    plan_view(
        "cpp"@,
        seq![
            stage_view(
                "build"@,
                "gcc:14"@,
                "/app"@,
                seq![
                    run_view(
                        if cmake {
                            cmake_build()
                        } else {
                            "make"@
                        },
                        Seq::empty(),
                    ),
                ],
                seq![copy_all_view()],
                Seq::empty(),
            ),
            stage_view(
                "runtime"@,
                "debian:trixie-slim"@,
                "/app"@,
                seq![run_view(cpp_runtime_deps(), seq!["/var/cache/apt"@])],
                Seq::empty(),
                seq![
                    from_view(
                        "build"@,
                        if cmake {
                            "/app/build/"@ + bin
                        } else {
                            "/app/"@ + bin
                        },
                        "/app/"@ + bin,
                    ),
                ],
            ),
        ],
        Some("./"@ + bin),
        Some(8080u16),
    )
}

fn target_chars(s: &[char]) -> (r: Vec<char>)
    ensures
        r@ == target_name(s@),
{
    let mut i: usize = 0;
    assert(s@.skip(0) =~= s@);
    assert(s@.take(0) + target_name(s@) =~= target_name(s@));
    while i < s.len() && !is_ws_char(s[i]) && s[i] != ')'
        invariant
            i <= s@.len(),
            target_name(s@) == s@.take(i as int) + target_name(s@.skip(i as int)),
        decreases s@.len() - i,
    {
        proof {
            let t = s@.skip(i as int);
            assert(t.drop_first() =~= s@.skip(i + 1));
            assert(s@.take(i + 1) + target_name(s@.skip(i + 1)) =~= s@.take(i as int) + (seq![
                t[0],
            ] + target_name(t.drop_first())));
        }
        i = i + 1;
    }
    proof {
        assert(target_name(s@.skip(i as int)) =~= Seq::<char>::empty());
        assert(s@.take(i as int) + Seq::<char>::empty() =~= s@.take(i as int));
    }
    crate::text::slice(s, 0, i)
}

fn trim_start_chars(s: &[char]) -> (r: Vec<char>)
    ensures
        r@ == trim_start(s@),
{
    let mut a: usize = 0;
    assert(s@.skip(0) =~= s@);
    while a < s.len() && is_ws_char(s[a])
        invariant
            a <= s@.len(),
            trim_start(s@) == trim_start(s@.skip(a as int)),
        decreases s@.len() - a,
    {
        assert(s@.skip(a as int).drop_first() =~= s@.skip(a + 1));
        a = a + 1;
    }
    assert(s@.skip(a as int) =~= s@.subrange(a as int, s@.len() as int));
    crate::text::slice(s, a, s.len())
}

/// C/C++ projects: a `CMakeLists.txt` or a `Makefile`.
pub struct CppProvider;

impl CppProvider {
    /// Best-effort executable name for a `CMake` project, read from the first
    /// `add_executable(<name> ...)` target. Falls back to `app` when the target
    /// cannot be parsed or is not a plain identifier, so the value is always
    /// safe to interpolate into the Dockerfile.
    fn cmake_executable_name(ctx: &AppContext) -> (r: String)
        ensures
            r@ == cmake_name(text_or_empty(ctx@, "CMakeLists.txt"@)),
    {
        let content = read_or_empty(ctx, "CMakeLists.txt");
        let cs = chars_of(content.as_str());
        let lowered = lower_of(&cs);
        proof {
            reveal_strlit("add_executable(");
        }
        let call = match index_of(&lowered, &chars_of("add_executable(")) {
            Some(i) => i,
            None => return owned("app"),
        };
        let n = cs.len();
        assert(lowered@.len() == cs@.len());
        assert(call + 15 <= n);
        let after = crate::text::slice(&cs, call + 15, n);
        assert(after@ =~= cs@.skip(call + 15));
        let name = crate::text::string_of(&target_chars(&trim_start_chars(&after)));
        if validate_token("CMake target", name.as_str()).is_ok() {
            name
        } else {
            owned("app")
        }
    }
}

impl Provider for CppProvider {
    open spec fn spec_name(&self) -> Seq<char> {
        "cpp"@
    }

    open spec fn detects(&self, c: ContextView) -> bool {
        has(c.project, "CMakeLists.txt"@) || has(c.project, "Makefile"@)
    }

    open spec fn plans(&self, c: ContextView) -> Result<PlanView, ErrorView> {
        Ok(cpp_plan(c))
    }

    fn name(&self) -> (n: &'static str) {
        "cpp"
    }

    fn detect(&self, ctx: &AppContext) -> (b: bool) {
        ctx.has_file("CMakeLists.txt") || ctx.has_file("Makefile")
    }

    fn plan(&self, ctx: &AppContext) -> (r: Result<BuildPlan, Error>) {
        let build_system = if ctx.has_file("CMakeLists.txt") {
            BuildSystem::CMake
        } else {
            BuildSystem::Make
        };
        // The runtime copies the binary to /app/<name> and launches ./<name>;
        // Make cannot be parsed reliably, so it keeps the `app` convention.
        let binary = match build_system {
            BuildSystem::CMake => Self::cmake_executable_name(ctx),
            BuildSystem::Make => owned("app"),
        };
        let build_cmd = match build_system {
            // gcc:14 ships gcc and make but not cmake, so provision it first.
            BuildSystem::CMake => owned(
                "apt-get update && apt-get install -y --no-install-recommends cmake && cmake -B build && cmake --build build",
            ),
            BuildSystem::Make => owned("make"),
        };
        let start_cmd = cat("./", binary.as_str());
        let build_stage = stage(
            "build",
            owned("gcc:14"),
            "/app",
            commands1(run_plain(build_cmd)),
            copies1(copy_all()),
            crate::providers::no_froms(),
        );
        // CMake writes the executable into the build tree; a plain Makefile
        // into the source root.
        let copy_src = match build_system {
            BuildSystem::CMake => cat("/app/build/", binary.as_str()),
            BuildSystem::Make => cat("/app/", binary.as_str()),
        };
        // Match the gcc:14 toolchain's Debian (trixie), with its libstdc++.
        let runtime_stage = stage(
            "runtime",
            owned("debian:trixie-slim"),
            "/app",
            commands1(
                run(
                    owned(
                        "apt-get update && apt-get install -y --no-install-recommends libstdc++6 ca-certificates && rm -rf /var/lib/apt/lists/*",
                    ),
                    one("/var/cache/apt"),
                ),
            ),
            no_copies(),
            crate::providers::froms1(copy_from("build", copy_src, cat("/app/", binary.as_str()))),
        );
        let p = plan("cpp", stages2(build_stage, runtime_stage), Some(start_cmd), Some(8080));
        assert(p@ == cpp_plan(ctx@));
        Ok(p)
    }
}

} // verus!

verus! {

/// The image runs the binary the build wrote: the runtime stage copies the
/// binary from where the build put it (`/app/build/` after a CMake build,
/// `/app/` after `make`) to `/app/<name>` and, working in `/app`, runs
/// `./<name>`.
pub proof fn law_cpp_runs_the_binary_it_built(c: ContextView)
    ensures
        CppProvider.plans(c) is Ok,
        ({
            let p = CppProvider.plans(c)->Ok_0;
            exists|b: Seq<char>|
                p.start_command == Some("./"@ + b) && p.stages[1].workdir == "/app"@
                    && p.stages[1].copy_from == seq![
                    from_view(
                        "build"@,
                        if p.stages[0].commands[0].run == "make"@ {
                            "/app/"@ + b
                        } else {
                            "/app/build/"@ + b
                        },
                        "/app/"@ + b,
                    ),
                ]
        }),
{
    reveal_strlit("make");
    let b = cpp_binary(c);
    if cpp_uses_cmake(c) {
        reveal_strlit(
            "apt-get update && apt-get install -y --no-install-recommends cmake && cmake -B build && cmake --build build",
        );
        assert(cmake_build().len() != "make"@.len());
    }
}

} // verus!
