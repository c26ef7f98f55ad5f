//! .NET projects (C# or F#), published and run on the ASP.NET runtime.
use vstd::prelude::*;
use crate::detect::{AppContext, ContextView, has_extension};
use crate::error::{Error, ErrorView};
use crate::plan::{BuildPlan, PlanView};
use crate::project::{extension, extension_of, listing, stem, stem_of};
use crate::providers::{
    Provider, cat3, commands1, copies1, copy_all, copy_all_view, copy_from, from_view, froms1,
    no_commands, no_copies, no_froms, one, owned, plan, plan_view, run, run_view, stage, stage_view,
    stages2, unsafe_view,
};
use crate::sanitize::{token_ok, validate_token};
use crate::text::{chars_of, same, string_of, views};

verus! {

/// The stem of the first name with extension `ext`.
pub open spec fn first_stem(names: Seq<Seq<char>>, ext: Seq<char>) -> Option<Seq<char>>
    decreases names.len(),
{
    if names.len() == 0 {
        None
    } else if extension(names[0]) == Some(ext) {
        Some(stem(names[0]))
    } else {
        first_stem(names.drop_first(), ext)
    }
}

/// The project name: the stem of the first `.csproj`, else of the first
/// `.fsproj`, in the root directory; `app` when there is neither.
pub open spec fn dotnet_project(c: ContextView) -> Seq<char> {
    let names = listing(c.project.listings, "."@);
    match first_stem(names, "csproj"@) {
        Some(s) => s,
        None => match first_stem(names, "fsproj"@) {
            Some(s) => s,
            None => "app"@,
        },
    }
}

/// The .NET plan: refused when the project name is unsafe.
pub open spec fn dotnet_plan(c: ContextView) -> Result<PlanView, ErrorView> {
    let name = dotnet_project(c);
    if !token_ok(name) {
        Err(unsafe_view("project file name"@, name))
    } else {
        Ok(
            plan_view(
                "dotnet"@,
                seq![
                    stage_view(
                        "build"@,
                        "mcr.microsoft.com/dotnet/sdk:9.0"@,
                        "/app"@,
                        seq![
                            run_view(
                                "dotnet restore && dotnet publish -c Release -o /out"@,
                                seq!["/root/.nuget"@],
                            ),
                        ],
                        seq![copy_all_view()],
                        Seq::empty(),
                    ),
                    stage_view(
                        "runtime"@,
                        "mcr.microsoft.com/dotnet/aspnet:9.0"@,
                        "/app"@,
                        Seq::empty(),
                        Seq::empty(),
                        seq![from_view("build"@, "/out"@, "/app"@)],
                    ),
                ],
                Some("dotnet "@ + name + ".dll"@),
                Some(8080u16),
            ),
        )
    }
}

/// .NET projects: a `.csproj`, `.fsproj` or `.sln` in the root directory.
pub struct DotnetProvider;

impl DotnetProvider {
    /// The stem of the first root entry with extension `ext`.
    fn stem_with_extension(ctx: &AppContext, ext: &str) -> (r: Option<String>)
        ensures
            crate::plan::opt_view(r) == first_stem(listing(ctx@.project.listings, "."@), ext@),
    {
        let entries = ctx.list_files(".");
        let e = chars_of(ext);
        let ghost l = listing(ctx@.project.listings, "."@);
        let mut i: usize = 0;
        assert(l.skip(0) =~= l);
        while i < entries.len()
            invariant
                i <= entries@.len(),
                views(entries@) == l,
                l == listing(ctx@.project.listings, "."@),
                e@ == ext@,
                first_stem(l, ext@) == first_stem(l.skip(i as int), ext@),
            decreases entries@.len() - i,
        {
            proof {
                assert(l.skip(i as int)[0] == entries@[i as int]@);
                assert(l.skip(i as int).drop_first() =~= l.skip(i + 1));
            }
            let name = chars_of(entries[i].as_str());
            match extension_of(&name) {
                Some(x) => {
                    if same(&x, &e) {
                        return Some(string_of(&stem_of(&name)));
                    }
                },
                None => {},
            }
            i = i + 1;
        }
        None
    }

    fn find_project_name(ctx: &AppContext) -> (r: String)
        ensures
            r@ == dotnet_project(ctx@),
    {
        match Self::stem_with_extension(ctx, "csproj") {
            Some(s) => s,
            None => match Self::stem_with_extension(ctx, "fsproj") {
                Some(s) => s,
                None => owned("app"),
            },
        }
    }
}

impl Provider for DotnetProvider {
    open spec fn spec_name(&self) -> Seq<char> {
        "dotnet"@
    }

    open spec fn detects(&self, c: ContextView) -> bool {
        has_extension(c.project, "csproj"@) || has_extension(c.project, "fsproj"@) || has_extension(
            c.project,
            "sln"@,
        )
    }

    open spec fn plans(&self, c: ContextView) -> Result<PlanView, ErrorView> {
        dotnet_plan(c)
    }

    fn name(&self) -> (n: &'static str) {
        "dotnet"
    }

    fn detect(&self, ctx: &AppContext) -> (b: bool) {
        ctx.has_file_with_extension("csproj") || ctx.has_file_with_extension("fsproj")
            || ctx.has_file_with_extension("sln")
    }

    fn plan(&self, ctx: &AppContext) -> (r: Result<BuildPlan, Error>) {
        let project_name = Self::find_project_name(ctx);
        // The project file name is repository metadata that lands in the
        // runtime CMD, so it is validated before interpolation.
        if let Err(e) = validate_token("project file name", project_name.as_str()) {
            return Err(e);
        }
        let build_stage = stage(
            "build",
            owned("mcr.microsoft.com/dotnet/sdk:9.0"),
            "/app",
            commands1(
                run(owned("dotnet restore && dotnet publish -c Release -o /out"), one("/root/.nuget")),
            ),
            copies1(copy_all()),
            no_froms(),
        );
        let runtime_stage = stage(
            "runtime",
            owned("mcr.microsoft.com/dotnet/aspnet:9.0"),
            "/app",
            no_commands(),
            no_copies(),
            froms1(copy_from("build", owned("/out"), owned("/app"))),
        );
        let p = plan(
            "dotnet",
            stages2(build_stage, runtime_stage),
            Some(cat3("dotnet ", project_name.as_str(), ".dll")),
            Some(8080),
        );
        assert(dotnet_plan(ctx@) == Ok::<PlanView, ErrorView>(p@));
        Ok(p)
    }
}

} // verus!

verus! {

/// The image runs what the build published: the build publishes to `/out`,
/// the runtime stage copies `/out` into its working directory `/app`, and the
/// start command runs the project's published `<name>.dll` there.
pub proof fn law_dotnet_runs_what_it_published(c: ContextView)
    requires
        DotnetProvider.plans(c) is Ok,
    ensures
        ({
            let p = DotnetProvider.plans(c)->Ok_0;
            &&& p.stages[0].commands[0].run == "dotnet restore && dotnet publish -c Release -o /out"@
            &&& p.stages[1].copy_from == seq![from_view("build"@, "/out"@, "/app"@)]
            &&& p.stages[1].workdir == "/app"@
            &&& exists|name: Seq<char>| p.start_command == Some("dotnet "@ + name + ".dll"@)
        }),
{
    let name = dotnet_project(c);
    assert(DotnetProvider.plans(c)->Ok_0.start_command == Some("dotnet "@ + name + ".dll"@));
}

} // verus!
