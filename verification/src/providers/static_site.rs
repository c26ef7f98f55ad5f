//! Plain static sites, served by nginx.
use vstd::prelude::*;
use crate::detect::{AppContext, ContextView};
use crate::error::{Error, ErrorView};
use crate::plan::{BuildPlan, PlanView};
use crate::project::has;
use crate::providers::{
    Provider, copies1, copy_all, copy_all_view, no_commands, no_froms, owned, plan,
    plan_view, stage, stage_view, stages1,
};

verus! {

/// A directory with an `index.html`.
pub struct StaticSiteProvider;

pub open spec fn static_plan() -> PlanView {
    plan_view(
        "static"@,
        seq![
            stage_view(
                "runtime"@,
                "nginx:alpine"@,
                "/usr/share/nginx/html"@,
                Seq::empty(),
                seq![copy_all_view()],
                Seq::empty(),
            ),
        ],
        None,
        Some(80u16),
    )
}

impl Provider for StaticSiteProvider {
    open spec fn spec_name(&self) -> Seq<char> {
        "static"@
    }

    open spec fn detects(&self, c: ContextView) -> bool {
        has(c.project, "index.html"@)
    }

    open spec fn plans(&self, c: ContextView) -> Result<PlanView, ErrorView> {
        Ok(static_plan())
    }

    fn name(&self) -> (n: &'static str) {
        "static"
    }

    fn detect(&self, ctx: &AppContext) -> (b: bool) {
        ctx.has_file("index.html")
    }

    fn plan(&self, ctx: &AppContext) -> (r: Result<BuildPlan, Error>) {
        let st = stage(
            "runtime",
            owned("nginx:alpine"),
            "/usr/share/nginx/html",
            no_commands(),
            copies1(copy_all()),
            no_froms(),
        );
        Ok(plan("static", stages1(st), None, Some(80)))
    }
}

} // verus!

verus! {

/// A static site is served by nginx from its web root: whatever the project,
/// the plan has one stage on `nginx:alpine` whose working directory is
/// `/usr/share/nginx/html`, the directory nginx serves, and it copies the
/// whole project there; port 80 is exposed and nginx's own command runs.
pub proof fn law_static_site_is_served_from_the_web_root(c: ContextView)
    ensures
        StaticSiteProvider.plans(c) is Ok,
        StaticSiteProvider.plans(c)->Ok_0.stages.len() == 1,
        StaticSiteProvider.plans(c)->Ok_0.stages[0].base_image == "nginx:alpine"@,
        StaticSiteProvider.plans(c)->Ok_0.stages[0].workdir == "/usr/share/nginx/html"@,
        StaticSiteProvider.plans(c)->Ok_0.stages[0].copy_files.len() == 1,
        StaticSiteProvider.plans(c)->Ok_0.stages[0].copy_files[0].src == "."@,
        StaticSiteProvider.plans(c)->Ok_0.stages[0].copy_files[0].dest == "."@,
        StaticSiteProvider.plans(c)->Ok_0.port == Some(80u16),
        StaticSiteProvider.plans(c)->Ok_0.start_command is None,
{
}

} // verus!
