//! Go modules, built into a static binary on a distroless runtime.
use vstd::prelude::*;
use crate::detect::{AppContext, ContextView};
use crate::error::{Error, ErrorView};
use crate::plan::{BuildPlan, PlanView};
use crate::project::{has, last_index, last_index_of, text};
use crate::providers::versions::{
    chosen_version, normalize_version, normalized, resolve_version, str_views, tool_files_version,
    version_from_tool_files,
};
use crate::providers::{
    Provider, cat, cat3, commands1, copies1, copy_all, copy_all_view, copy_from, from_view, froms1,
    no_commands, no_copies, no_froms, owned, plan, plan_view, run, run_view, stage, stage_view,
    stages2, two, unsafe_view,
};
use crate::sanitize::{token_ok, validate_token};
use crate::text::{
    chars_of, has_prefix, lines, matches_at, slice, split_lines, starts_with, string_of, trim,
    trimmed, vviews,
};

verus! {

/// `s` with every leading copy of `p` removed.
pub open spec fn strip_prefixes(s: Seq<char>, p: Seq<char>) -> Seq<char>
    decreases s.len(),
{
    if p.len() > 0 && has_prefix(s, p) {
        strip_prefixes(s.skip(p.len() as int), p)
    } else {
        s
    }
}

/// The first line that starts with `module `.
pub open spec fn module_line(ls: Seq<Seq<char>>) -> Option<Seq<char>>
    decreases ls.len(),
{
    if ls.len() == 0 {
        None
    } else if has_prefix(ls[0], "module "@) {
        Some(ls[0])
    } else {
        module_line(ls.drop_first())
    }
}

/// The module path `go.mod` declares.
pub open spec fn go_module(c: ContextView) -> Option<Seq<char>> {
    match text(c.project, "go.mod"@) {
        Some(t) => match module_line(lines(t)) {
            Some(l) => Some(trim(strip_prefixes(l, "module "@))),
            None => None,
        },
        None => None,
    }
}

/// The last `/`-separated segment of a path.
pub open spec fn last_segment(s: Seq<char>) -> Seq<char> {
    match last_index_of(s, '/') {
        Some(i) => s.skip(i + 1),
        None => s,
    }
}

/// The binary name: the module path's last segment, or `app`.
pub open spec fn go_binary(c: ContextView) -> Seq<char> {
    match go_module(c) {
        Some(m) => last_segment(m),
        None => "app"@,
    }
}

/// The first line that starts with `go `.
pub open spec fn go_line(ls: Seq<Seq<char>>) -> Option<Seq<char>>
    decreases ls.len(),
{
    if ls.len() == 0 {
        None
    } else if has_prefix(ls[0], "go "@) {
        Some(ls[0])
    } else {
        go_line(ls.drop_first())
    }
}

/// The version the `go` directive of `go.mod` names.
pub open spec fn go_directive(c: ContextView) -> Option<Seq<char>> {
    match text(c.project, "go.mod"@) {
        Some(t) => match go_line(lines(t)) {
            Some(l) => normalized(l.skip(3)),
            None => None,
        },
        None => None,
    }
}

/// The Go version detected from the `go` directive, then the shared tool files.
pub open spec fn go_detected_version(c: ContextView) -> Option<Seq<char>> {
    match go_directive(c) {
        Some(v) => Some(v),
        None => tool_files_version(c, seq!["go"@, "golang"@]),
    }
}

pub open spec fn go_version(c: ContextView) -> Seq<char> {
    chosen_version(c, go_detected_version(c), "1.24"@)
}

/// The Go plan: refused when the binary name taken from the module path, or
/// the version, is unsafe.
pub open spec fn go_plan(c: ContextView) -> Result<PlanView, ErrorView> {
    let bin = go_binary(c);
    if !token_ok(bin) {
        Err(unsafe_view("go.mod module"@, bin))
    } else if !token_ok(go_version(c)) {
        Err(unsafe_view("version"@, go_version(c)))
    } else {
        Ok(
            plan_view(
                "go"@,
                seq![
                    stage_view(
                        "build"@,
                        "golang:"@ + go_version(c),
                        "/app"@,
                        seq![
                            run_view(
                                "CGO_ENABLED=0 go build -o /bin/"@ + bin + " ."@,
                                seq!["/go/pkg/mod"@, "/root/.cache/go-build"@],
                            ),
                        ],
                        seq![copy_all_view()],
                        Seq::empty(),
                    ),
                    stage_view(
                        "runtime"@,
                        "gcr.io/distroless/static-debian12"@,
                        "/"@,
                        Seq::empty(),
                        Seq::empty(),
                        seq![from_view("build"@, "/bin/"@ + bin, "/bin/"@ + bin)],
                    ),
                ],
                Some("/bin/"@ + bin),
                Some(8080u16),
            ),
        )
    }
}

fn strip_module_prefixes(s: &[char]) -> (r: Vec<char>)
    ensures
        r@ == strip_prefixes(s@, "module "@),
{
    let p = chars_of("module ");
    proof {
        reveal_strlit("module ");
    }
    let mut i: usize = 0;
    assert(s@.skip(0) =~= s@);
    while matches_at(s, &p, i)
        invariant
            i <= s@.len(),
            p@ == "module "@,
            p@.len() == 7,
            strip_prefixes(s@, "module "@) == strip_prefixes(s@.skip(i as int), "module "@),
        decreases s@.len() - i,
    {
        proof {
            let t = s@.skip(i as int);
            assert(t.subrange(0, 7) =~= s@.subrange(i as int, i + 7));
            assert(has_prefix(t, p@));
            assert(t.skip(7) =~= s@.skip(i + 7));
        }
        let n = s.len();
        assert(i + 7 <= n);
        i = i + 7;
    }
    proof {
        let t = s@.skip(i as int);
        if has_prefix(t, p@) {
            assert(t.subrange(0, 7) =~= s@.subrange(i as int, i + 7));
        }
    }
    slice(s, i, s.len())
}

/// Go projects: a `go.mod`.
pub struct GoProvider;

impl GoProvider {
    fn detect_module(ctx: &AppContext) -> (r: Option<String>)
        ensures
            crate::plan::opt_view(r) == go_module(ctx@),
    {
        let content = match ctx.read_file("go.mod") {
            Ok(t) => t,
            Err(_) => return None,
        };
        let ls = split_lines(&chars_of(content.as_str()));
        let ghost lv = vviews(ls@);
        let prefix = chars_of("module ");
        let mut i: usize = 0;
        assert(lv.skip(0) =~= lv);
        while i < ls.len()
            invariant
                i <= ls@.len(),
                lv == vviews(ls@),
                lv == lines(content@),
                text(ctx@.project, "go.mod"@) == Some(content@),
                prefix@ == "module "@,
                module_line(lv) == module_line(lv.skip(i as int)),
            decreases ls@.len() - i,
        {
            proof {
                assert(lv.skip(i as int)[0] == ls@[i as int]@);
                assert(lv.skip(i as int).drop_first() =~= lv.skip(i + 1));
            }
            if starts_with(ls[i].as_slice(), &prefix) {
                let m = trimmed(&strip_module_prefixes(ls[i].as_slice()));
                return Some(string_of(&m));
            }
            i = i + 1;
        }
        None
    }

    /// The version the `go` directive of `go.mod` names, when it is numeric.
    fn version_from_directive(ctx: &AppContext) -> (r: Option<String>)
        ensures
            crate::plan::opt_view(r) == go_directive(ctx@),
    {
        let content = match ctx.read_file("go.mod") {
            Ok(t) => t,
            Err(_) => return None,
        };
        let ls = split_lines(&chars_of(content.as_str()));
        let ghost lv = vviews(ls@);
        let prefix = chars_of("go ");
        proof {
            reveal_strlit("go ");
        }
        let mut i: usize = 0;
        assert(lv.skip(0) =~= lv);
        while i < ls.len()
            invariant
                i <= ls@.len(),
                lv == vviews(ls@),
                lv == lines(content@),
                text(ctx@.project, "go.mod"@) == Some(content@),
                prefix@ == "go "@,
                prefix@.len() == 3,
                go_line(lv) == go_line(lv.skip(i as int)),
            decreases ls@.len() - i,
        {
            proof {
                assert(lv.skip(i as int)[0] == ls@[i as int]@);
                assert(lv.skip(i as int).drop_first() =~= lv.skip(i + 1));
            }
            let line = ls[i].as_slice();
            if starts_with(line, &prefix) {
                let n = line.len();
                let rest = slice(line, 3, n);
                assert(rest@ =~= line@.skip(3));
                return normalize_version(string_of(&rest).as_str());
            }
            i = i + 1;
        }
        None
    }

    fn binary_name(ctx: &AppContext) -> (r: String)
        ensures
            r@ == go_binary(ctx@),
    {
        match Self::detect_module(ctx) {
            Some(m) => {
                let cs = chars_of(m.as_str());
                let n = cs.len();
                match last_index(&cs, '/') {
                    Some(i) => string_of(&slice(&cs, i + 1, n)),
                    None => m,
                }
            },
            None => owned("app"),
        }
    }
}

impl Provider for GoProvider {
    open spec fn spec_name(&self) -> Seq<char> {
        "go"@
    }

    open spec fn detects(&self, c: ContextView) -> bool {
        has(c.project, "go.mod"@)
    }

    open spec fn plans(&self, c: ContextView) -> Result<PlanView, ErrorView> {
        go_plan(c)
    }

    fn name(&self) -> (n: &'static str) {
        "go"
    }

    fn detect(&self, ctx: &AppContext) -> (b: bool) {
        ctx.has_file("go.mod")
    }

    fn plan(&self, ctx: &AppContext) -> (r: Result<BuildPlan, Error>) {
        let binary = Self::binary_name(ctx);
        // The module path is repository metadata that lands in RUN, COPY and
        // CMD lines, so it is validated before interpolation.
        if let Err(e) = validate_token("go.mod module", binary.as_str()) {
            return Err(e);
        }
        // Toolchain version: override, else the `go` directive / tool files,
        // else the default.
        let go_aliases: [&str; 2] = ["go", "golang"];
        assert(str_views(go_aliases@) =~= seq!["go"@, "golang"@]);
        let detected = match Self::version_from_directive(ctx) {
            Some(v) => Some(v),
            None => version_from_tool_files(ctx, &go_aliases),
        };
        let version = match resolve_version(ctx, detected, "1.24") {
            Ok(v) => v,
            Err(e) => return Err(e),
        };
        let b = binary.as_str();
        // One build stage: `go build` fetches modules itself, both caches
        // persist through cache mounts, and the binary lands in /bin, a real
        // layer path the runtime stage can copy.
        let build_stage = stage(
            "build",
            cat("golang:", version.as_str()),
            "/app",
            commands1(
                run(
                    cat3("CGO_ENABLED=0 go build -o /bin/", b, " ."),
                    two("/go/pkg/mod", "/root/.cache/go-build"),
                ),
            ),
            copies1(copy_all()),
            no_froms(),
        );
        let runtime_stage = stage(
            "runtime",
            owned("gcr.io/distroless/static-debian12"),
            "/",
            no_commands(),
            no_copies(),
            froms1(copy_from("build", cat("/bin/", b), cat("/bin/", b))),
        );
        let p = plan("go", stages2(build_stage, runtime_stage), Some(cat("/bin/", b)), Some(8080));
        assert(go_plan(ctx@) == Ok::<PlanView, ErrorView>(p@));
        Ok(p)
    }
}

} // verus!

verus! {

/// The image runs the binary the build wrote: the build stage compiles a
/// static binary (`CGO_ENABLED=0`) to exactly the path the start command
/// runs, and the runtime stage copies that path from the build stage.
pub proof fn law_go_runs_the_binary_it_built(c: ContextView)
    requires
        GoProvider.plans(c) is Ok,
    ensures
        ({
            let p = GoProvider.plans(c)->Ok_0;
            let bin = p.start_command->0;
            &&& p.start_command is Some
            &&& p.stages.len() == 2
            &&& p.stages[0].name == "build"@
            &&& p.stages[0].commands[0].run == "CGO_ENABLED=0 go build -o "@ + bin + " ."@
            &&& p.stages[1].copy_from == seq![from_view("build"@, bin, bin)]
        }),
{
    reveal_strlit("CGO_ENABLED=0 go build -o /bin/");
    reveal_strlit("CGO_ENABLED=0 go build -o ");
    reveal_strlit("/bin/");
    let b = go_binary(c);
    assert("CGO_ENABLED=0 go build -o /bin/"@ + b =~= "CGO_ENABLED=0 go build -o "@ + ("/bin/"@ + b));
}

} // verus!
