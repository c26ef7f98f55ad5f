//! Shell-script projects, run with bash on Debian.
use vstd::prelude::*;
use crate::detect::{AppContext, ContextView};
use crate::error::{Error, ErrorView};
use crate::plan::{BuildPlan, PlanView};
use crate::project::has;
use crate::providers::{
    Provider, cat, commands1, copies1, copy_all, copy_all_view, no_froms, owned, plan, plan_view,
    run_plain, run_view, stage, stage_view, stages1,
};

verus! {

/// The entry script: `main.sh`, else `start.sh`.
pub open spec fn shell_entry(c: ContextView) -> Option<Seq<char>> {
    if has(c.project, "main.sh"@) {
        Some("main.sh"@)
    } else if has(c.project, "start.sh"@) {
        Some("start.sh"@)
    } else {
        None
    }
}

pub open spec fn shell_plan(c: ContextView) -> PlanView {
    let entry = match shell_entry(c) {
        Some(e) => e,
        None => "main.sh"@,
    };
    plan_view(
        "shell"@,
        seq![
            stage_view(
                "runtime"@,
                "debian:bookworm-slim"@,
                "/app"@,
                seq![run_view("chmod +x "@ + entry, Seq::empty())],
                seq![copy_all_view()],
                Seq::empty(),
            ),
        ],
        Some("bash "@ + entry),
        None,
    )
}

/// Shell projects: a `main.sh` or `start.sh`.
pub struct ShellProvider;

impl ShellProvider {
    fn detect_entry(ctx: &AppContext) -> (r: Option<&'static str>)
        ensures
            match r {
                Some(e) => shell_entry(ctx@) == Some(e@),
                None => shell_entry(ctx@) is None,
            },
    {
        if ctx.has_file("main.sh") {
            Some("main.sh")
        } else if ctx.has_file("start.sh") {
            Some("start.sh")
        } else {
            None
        }
    }
}

impl Provider for ShellProvider {
    open spec fn spec_name(&self) -> Seq<char> {
        "shell"@
    }

    open spec fn detects(&self, c: ContextView) -> bool {
        has(c.project, "main.sh"@) || has(c.project, "start.sh"@)
    }

    open spec fn plans(&self, c: ContextView) -> Result<PlanView, ErrorView> {
        Ok(shell_plan(c))
    }

    fn name(&self) -> (n: &'static str) {
        "shell"
    }

    fn detect(&self, ctx: &AppContext) -> (b: bool) {
        ctx.has_file("main.sh") || ctx.has_file("start.sh")
    }

    fn plan(&self, ctx: &AppContext) -> (r: Result<BuildPlan, Error>) {
        let entry = match Self::detect_entry(ctx) {
            Some(e) => e,
            None => "main.sh",
        };
        let st = stage(
            "runtime",
            owned("debian:bookworm-slim"),
            "/app",
            commands1(run_plain(cat("chmod +x ", entry))),
            copies1(copy_all()),
            no_froms(),
        );
        let p = plan("shell", stages1(st), Some(cat("bash ", entry)), None);
        assert(p@ == shell_plan(ctx@));
        Ok(p)
    }
}

} // verus!

verus! {

/// The script that is made executable is the script that runs: the plan
/// marks one entry script executable and starts it with bash.
pub proof fn law_shell_runs_the_script_it_prepared(c: ContextView)
    ensures
        ShellProvider.plans(c) is Ok,
        ({
            let p = ShellProvider.plans(c)->Ok_0;
            exists|e: Seq<char>|
                p.stages[0].commands == seq![run_view("chmod +x "@ + e, Seq::empty())]
                    && p.start_command == Some("bash "@ + e)
        }),
{
    let e = match shell_entry(c) {
        Some(e) => e,
        None => "main.sh"@,
    };
    assert(ShellProvider.plans(c)->Ok_0.stages[0].commands == seq![
        run_view("chmod +x "@ + e, Seq::empty()),
    ]);
}

} // verus!
