//! Java projects built with Maven or Gradle into a runnable jar.
use vstd::prelude::*;
use crate::detect::{AppContext, ContextView};
use crate::error::{Error, ErrorView};
use crate::plan::{BuildPlan, PlanView};
use crate::project::has;
use crate::providers::{
    Provider, cat3, commands2, copies1, copy_all, copy_all_view, copy_from, from_view, froms1,
    no_commands, no_copies, no_froms, one, owned, plan, plan_view, run, run_plain, run_view, stage,
    stage_view, stages2,
};

verus! {

/// The JVM build tool of a project.
#[derive(Clone, Copy, PartialEq, Eq, Structural)]
pub enum BuildTool {
    Maven,
    Gradle,
}

pub open spec fn tool_image(t: BuildTool) -> Seq<char> {
    match t {
        BuildTool::Maven => "maven:3-eclipse-temurin-21"@,
        BuildTool::Gradle => "gradle:8-jdk21"@,
    }
}

pub open spec fn tool_build(t: BuildTool) -> Seq<char> {
    match t {
        BuildTool::Maven => "mvn package -DskipTests"@,
        BuildTool::Gradle => "gradle build -x test"@,
    }
}

pub open spec fn tool_cache(t: BuildTool) -> Seq<char> {
    match t {
        BuildTool::Maven => "/root/.m2"@,
        BuildTool::Gradle => "/root/.gradle"@,
    }
}

pub open spec fn tool_jars(t: BuildTool) -> Seq<char> {
    match t {
        BuildTool::Maven => "/app/target/*.jar"@,
        BuildTool::Gradle => "/app/build/libs/*.jar"@,
    }
}

impl BuildTool {
    pub fn build_image(&self) -> (r: &'static str)
        ensures
            r@ == tool_image(*self),
    {
        match self {
            BuildTool::Maven => "maven:3-eclipse-temurin-21",
            BuildTool::Gradle => "gradle:8-jdk21",
        }
    }

    pub fn build_command(&self) -> (r: &'static str)
        ensures
            r@ == tool_build(*self),
    {
        match self {
            BuildTool::Maven => "mvn package -DskipTests",
            BuildTool::Gradle => "gradle build -x test",
        }
    }

    pub fn cache_dir(&self) -> (r: &'static str)
        ensures
            r@ == tool_cache(*self),
    {
        match self {
            BuildTool::Maven => "/root/.m2",
            BuildTool::Gradle => "/root/.gradle",
        }
    }

    pub fn jar_source(&self) -> (r: &'static str)
        ensures
            r@ == tool_jars(*self),
    {
        match self {
            BuildTool::Maven => "/app/target/*.jar",
            BuildTool::Gradle => "/app/build/libs/*.jar",
        }
    }
}

/// The build tool the project's files name, if any.
pub open spec fn java_tool(c: ContextView) -> Option<BuildTool> {
    if has(c.project, "pom.xml"@) {
        Some(BuildTool::Maven)
    } else if has(c.project, "build.gradle"@) || has(c.project, "build.gradle.kts"@) {
        Some(BuildTool::Gradle)
    } else {
        None
    }
}

/// Copy the largest jar that is not a `-plain`/`-sources`/`-javadoc` variant.
pub open spec fn jar_copy(t: BuildTool) -> Seq<char> {
    "cp \"$(ls -S "@ + tool_jars(t) + " | grep -Ev -- '-(plain|sources|javadoc)\\.jar$' | head -1)\" /app/app.jar"@
}

pub open spec fn java_plan(c: ContextView) -> PlanView {
    let tool = match java_tool(c) {
        Some(t) => t,
        None => BuildTool::Maven,
    };
    plan_view(
        "java"@,
        seq![
            stage_view(
                "build"@,
                tool_image(tool),
                "/app"@,
                seq![
                    run_view(tool_build(tool), seq![tool_cache(tool)]),
                    run_view(jar_copy(tool), Seq::empty()),
                ],
                seq![copy_all_view()],
                Seq::empty(),
            ),
            stage_view(
                "runtime"@,
                "eclipse-temurin:21-jre"@,
                "/app"@,
                Seq::empty(),
                Seq::empty(),
                seq![from_view("build"@, "/app/app.jar"@, "/app/app.jar"@)],
            ),
        ],
        Some("java -jar app.jar"@),
        Some(8080u16),
    )
}

/// Java projects: a `pom.xml`, `build.gradle` or `build.gradle.kts`.
pub struct JavaProvider;

impl JavaProvider {
    fn detect_build_tool(ctx: &AppContext) -> (r: Option<BuildTool>)
        ensures
            r == java_tool(ctx@),
    {
        if ctx.has_file("pom.xml") {
            Some(BuildTool::Maven)
        } else if ctx.has_file("build.gradle") || ctx.has_file("build.gradle.kts") {
            Some(BuildTool::Gradle)
        } else {
            None
        }
    }
}

impl Provider for JavaProvider {
    open spec fn spec_name(&self) -> Seq<char> {
        "java"@
    }

    open spec fn detects(&self, c: ContextView) -> bool {
        has(c.project, "pom.xml"@) || has(c.project, "build.gradle"@) || has(
            c.project,
            "build.gradle.kts"@,
        )
    }

    open spec fn plans(&self, c: ContextView) -> Result<PlanView, ErrorView> {
        Ok(java_plan(c))
    }

    fn name(&self) -> (n: &'static str) {
        "java"
    }

    fn detect(&self, ctx: &AppContext) -> (b: bool) {
        ctx.has_file("pom.xml") || ctx.has_file("build.gradle") || ctx.has_file("build.gradle.kts")
    }

    fn plan(&self, ctx: &AppContext) -> (r: Result<BuildPlan, Error>) {
        let tool = match Self::detect_build_tool(ctx) {
            Some(t) => t,
            None => BuildTool::Maven,
        };
        // Gradle (and Spring Boot) emit several jars; pick the largest that is
        // not a plain/sources/javadoc variant.
        let copy_jar = cat3(
            "cp \"$(ls -S ",
            tool.jar_source(),
            " | grep -Ev -- '-(plain|sources|javadoc)\\.jar$' | head -1)\" /app/app.jar",
        );
        let build_stage = stage(
            "build",
            owned(tool.build_image()),
            "/app",
            commands2(run(owned(tool.build_command()), one(tool.cache_dir())), run_plain(copy_jar)),
            copies1(copy_all()),
            no_froms(),
        );
        let runtime_stage = stage(
            "runtime",
            owned("eclipse-temurin:21-jre"),
            "/app",
            no_commands(),
            no_copies(),
            froms1(copy_from("build", owned("/app/app.jar"), owned("/app/app.jar"))),
        );
        let p = plan(
            "java",
            stages2(build_stage, runtime_stage),
            Some(owned("java -jar app.jar")),
            Some(8080),
        );
        assert(p@ == java_plan(ctx@));
        Ok(p)
    }
}

} // verus!

verus! {

/// The command that copies the largest jar in `dir` that is not a
/// `-plain`/`-sources`/`-javadoc` variant to `/app/app.jar`.
pub open spec fn largest_jar_copy(dir: Seq<char>) -> Seq<char> {
    "cp \"$(ls -S "@ + (dir + "/*.jar"@)
        + " | grep -Ev -- '-(plain|sources|javadoc)\\.jar$' | head -1)\" /app/app.jar"@
}

/// The jar that is run is the one the build wrote: with a `pom.xml` the build
/// stage runs `mvn package`, which writes to `/app/target`, and copies the
/// jar from there; otherwise, with a Gradle build file, it runs
/// `gradle build`, which writes to `/app/build/libs`, and copies from there.
/// The runtime stage then takes that `/app/app.jar`.
pub proof fn law_java_runs_the_jar_it_built(c: ContextView)
    requires
        JavaProvider.detects(c),
    ensures
        JavaProvider.plans(c) is Ok,
        JavaProvider.plans(c)->Ok_0.stages[0].commands.len() == 2,
        has(c.project, "pom.xml"@) ==> JavaProvider.plans(c)->Ok_0.stages[0].commands[0].run
            == "mvn package -DskipTests"@ && JavaProvider.plans(c)->Ok_0.stages[0].commands[1].run
            == largest_jar_copy("/app/target"@),
        !crate::project::has(c.project, "pom.xml"@) ==> JavaProvider.plans(c)->Ok_0.stages[0].commands[0].run
            == "gradle build -x test"@ && JavaProvider.plans(c)->Ok_0.stages[0].commands[1].run
            == largest_jar_copy("/app/build/libs"@),
        JavaProvider.plans(c)->Ok_0.stages[1].copy_from == seq![
            from_view("build"@, "/app/app.jar"@, "/app/app.jar"@),
        ],
        JavaProvider.plans(c)->Ok_0.start_command == Some("java -jar app.jar"@),
{
    reveal_strlit("/app/target");
    reveal_strlit("/app/target/*.jar");
    reveal_strlit("/app/build/libs");
    reveal_strlit("/app/build/libs/*.jar");
    reveal_strlit("/*.jar");
    assert("/app/target"@ + "/*.jar"@ =~= "/app/target/*.jar"@);
    assert("/app/build/libs"@ + "/*.jar"@ =~= "/app/build/libs/*.jar"@);
}

} // verus!
