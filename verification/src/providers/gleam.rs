//! Gleam projects, exported as an Erlang shipment.
use vstd::prelude::*;
use crate::detect::{AppContext, ContextView};
use crate::error::{Error, ErrorView};
use crate::plan::{BuildPlan, PlanView};
use crate::project::has;
use crate::providers::{
    Provider, commands1, copies1, copy_all, copy_all_view, copy_from, from_view, froms1,
    no_commands, no_copies, no_froms, one, owned, plan, plan_view, run, run_view, stage, stage_view,
    stages2,
};

verus! {

pub open spec fn gleam_plan() -> PlanView {
    plan_view(
        "gleam"@,
        seq![
            stage_view(
                "build"@,
                "ghcr.io/gleam-lang/gleam:v1.7-erlang"@,
                "/app"@,
                seq![run_view("gleam export erlang-shipment"@, seq!["/root/.cache/gleam"@])],
                seq![copy_all_view()],
                Seq::empty(),
            ),
            stage_view(
                "runtime"@,
                "erlang:27-slim"@,
                "/app"@,
                Seq::empty(),
                Seq::empty(),
                seq![from_view("build"@, "/app/build/erlang-shipment"@, "/app"@)],
            ),
        ],
        Some("/app/entrypoint.sh run"@),
        Some(8080u16),
    )
}

/// Gleam projects: a `gleam.toml`.
pub struct GleamProvider;

impl Provider for GleamProvider {
    open spec fn spec_name(&self) -> Seq<char> {
        "gleam"@
    }

    open spec fn detects(&self, c: ContextView) -> bool {
        has(c.project, "gleam.toml"@)
    }

    open spec fn plans(&self, c: ContextView) -> Result<PlanView, ErrorView> {
        Ok(gleam_plan())
    }

    fn name(&self) -> (n: &'static str) {
        "gleam"
    }

    fn detect(&self, ctx: &AppContext) -> (b: bool) {
        ctx.has_file("gleam.toml")
    }

    fn plan(&self, ctx: &AppContext) -> (r: Result<BuildPlan, Error>) {
        let build_stage = stage(
            "build",
            owned("ghcr.io/gleam-lang/gleam:v1.7-erlang"),
            "/app",
            commands1(run(owned("gleam export erlang-shipment"), one("/root/.cache/gleam"))),
            copies1(copy_all()),
            no_froms(),
        );
        // `gleam` is not in erlang:27-slim; the shipment's entrypoint.sh boots
        // the app through `erl`.
        let runtime_stage = stage(
            "runtime",
            owned("erlang:27-slim"),
            "/app",
            no_commands(),
            no_copies(),
            froms1(copy_from("build", owned("/app/build/erlang-shipment"), owned("/app"))),
        );
        let p = plan(
            "gleam",
            stages2(build_stage, runtime_stage),
            Some(owned("/app/entrypoint.sh run")),
            Some(8080),
        );
        assert(p@ == gleam_plan());
        Ok(p)
    }
}

} // verus!
