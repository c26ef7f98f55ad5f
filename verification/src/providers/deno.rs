//! Deno projects, run directly on the Deno image.
use vstd::prelude::*;
use crate::detect::{AppContext, ContextView};
use crate::error::{Error, ErrorView};
use crate::plan::{BuildPlan, PlanView};
use crate::project::has;
use crate::providers::{
    Provider, commands1, copies1, copy_all, copy_all_view, json_in, json_in_file, no_froms, one,
    owned, plan, plan_view, run, run_view, stage, stage_view, stages1, two,
};

verus! {

/// `deno.json` or `deno.jsonc` defines a `start` task.
pub open spec fn deno_start_task(c: ContextView) -> bool {
    json_in(c, "deno.json"@, seq!["tasks"@, "start"@]).present() || json_in(
        c,
        "deno.jsonc"@,
        seq!["tasks"@, "start"@],
    ).present()
}

pub open spec fn deno_plan(c: ContextView) -> PlanView {
    plan_view(
        "deno"@,
        seq![
            stage_view(
                "runtime"@,
                "denoland/deno:2"@,
                "/app"@,
                seq![run_view("deno cache main.ts || true"@, seq!["/root/.cache/deno"@])],
                seq![copy_all_view()],
                Seq::empty(),
            ),
        ],
        Some(
            if deno_start_task(c) {
                "deno task start"@
            } else {
                "deno run --allow-net main.ts"@
            },
        ),
        Some(8000u16),
    )
}

/// Deno projects: a `deno.json` or `deno.jsonc`.
pub struct DenoProvider;

impl DenoProvider {
    fn detect_start_command(ctx: &AppContext) -> (r: Option<String>)
        ensures
            r is Some <==> deno_start_task(ctx@),
            r matches Some(s) ==> s@ == "deno task start"@,
    {
        let path = two("tasks", "start");
        if json_in_file(ctx, "deno.json", &path).is_present() || json_in_file(
            ctx,
            "deno.jsonc",
            &path,
        ).is_present() {
            Some(owned("deno task start"))
        } else {
            None
        }
    }
}

impl Provider for DenoProvider {
    open spec fn spec_name(&self) -> Seq<char> {
        "deno"@
    }

    open spec fn detects(&self, c: ContextView) -> bool {
        has(c.project, "deno.json"@) || has(c.project, "deno.jsonc"@)
    }

    open spec fn plans(&self, c: ContextView) -> Result<PlanView, ErrorView> {
        Ok(deno_plan(c))
    }

    fn name(&self) -> (n: &'static str) {
        "deno"
    }

    fn detect(&self, ctx: &AppContext) -> (b: bool) {
        ctx.has_file("deno.json") || ctx.has_file("deno.jsonc")
    }

    fn plan(&self, ctx: &AppContext) -> (r: Result<BuildPlan, Error>) {
        let start_cmd = match Self::detect_start_command(ctx) {
            Some(s) => s,
            None => owned("deno run --allow-net main.ts"),
        };
        let st = stage(
            "runtime",
            owned("denoland/deno:2"),
            "/app",
            commands1(run(owned("deno cache main.ts || true"), one("/root/.cache/deno"))),
            copies1(copy_all()),
            no_froms(),
        );
        let p = plan("deno", stages1(st), Some(start_cmd), Some(8000));
        assert(p@ == deno_plan(ctx@));
        Ok(p)
    }
}

} // verus!
