//! Ruby projects installed with Bundler (Rails included).
use vstd::prelude::*;
use crate::detect::{AppContext, ContextView};
use crate::error::{Error, ErrorView};
use crate::plan::{BuildPlan, PlanView};
use crate::project::{has, text};
use crate::providers::versions::{
    chosen_version, file_version, resolve_version, str_views, tool_files_version, version_from_file,
    version_from_tool_files,
};
use crate::providers::{
    Provider, cat, cat3, unsafe_view, commands1, copies1, copy, copy_all, copy_all_view, copy_from, copy_view, from_view,
    froms1, no_commands, no_froms, owned, plan, plan_view, run_plain, run_view, stage, stage_view,
    stages2,
};
use crate::sanitize::token_ok;
use crate::text::{chars_of, contains, contains_seq};

verus! {

/// A `config/routes.rb`, or `rails` in the `Gemfile`.
pub open spec fn ruby_rails(c: ContextView) -> bool {
    has(c.project, "config/routes.rb"@) || match text(c.project, "Gemfile"@) {
        Some(t) => contains_seq(t, "rails"@),
        None => false,
    }
}

/// The Ruby version detected from `.ruby-version`, then the shared tool files.
pub open spec fn ruby_detected_version(c: ContextView) -> Option<Seq<char>> {
    match file_version(c, ".ruby-version"@) {
        Some(v) => Some(v),
        None => tool_files_version(c, seq!["ruby"@]),
    }
}

pub open spec fn ruby_version(c: ContextView) -> Seq<char> {
    chosen_version(c, ruby_detected_version(c), "3.3"@)
}

/// The Ruby plan: refused when the version is unsafe in an image tag.
pub open spec fn ruby_plan(c: ContextView) -> Result<PlanView, ErrorView> {
    let v = ruby_version(c);
    if !token_ok(v) {
        Err(unsafe_view("version"@, v))
    } else {
        Ok(ruby_plan_with(c, v))
    }
}

pub open spec fn ruby_plan_with(c: ContextView, version: Seq<char>) -> PlanView {
    plan_view(
        "ruby"@,
        seq![
            stage_view(
                "deps"@,
                "ruby:"@ + version,
                "/app"@,
                seq![run_view("bundle install --jobs 4 --retry 3"@, Seq::empty())],
                seq![copy_view("Gemfile Gemfile.lock*"@, "."@)],
                Seq::empty(),
            ),
            stage_view(
                "runtime"@,
                "ruby:"@ + version + "-slim"@,
                "/app"@,
                Seq::empty(),
                seq![copy_all_view()],
                seq![from_view("deps"@, "/usr/local/bundle"@, "/usr/local/bundle"@)],
            ),
        ],
        Some(
            if ruby_rails(c) {
                "bundle exec rails server -b 0.0.0.0"@
            } else {
                "ruby main.rb"@
            },
        ),
        Some(3000u16),
    )
}

/// Ruby projects: a `Gemfile`.
pub struct RubyProvider;

impl RubyProvider {
    fn is_rails(ctx: &AppContext) -> (b: bool)
        ensures
            b == ruby_rails(ctx@),
    {
        ctx.has_file("config/routes.rb") || match ctx.read_file("Gemfile") {
            Ok(t) => contains(&chars_of(t.as_str()), &chars_of("rails")),
            Err(_) => false,
        }
    }
}

impl Provider for RubyProvider {
    open spec fn spec_name(&self) -> Seq<char> {
        "ruby"@
    }

    open spec fn detects(&self, c: ContextView) -> bool {
        has(c.project, "Gemfile"@)
    }

    open spec fn plans(&self, c: ContextView) -> Result<PlanView, ErrorView> {
        ruby_plan(c)
    }

    fn name(&self) -> (n: &'static str) {
        "ruby"
    }

    fn detect(&self, ctx: &AppContext) -> (b: bool) {
        ctx.has_file("Gemfile")
    }

    fn plan(&self, ctx: &AppContext) -> (r: Result<BuildPlan, Error>) {
        let is_rails = Self::is_rails(ctx);
        // Runtime version: override, else `.ruby-version` / tool files, else
        // the default.
        let ruby_aliases: [&str; 1] = ["ruby"];
        assert(str_views(ruby_aliases@) =~= seq!["ruby"@]);
        let detected = match version_from_file(ctx, ".ruby-version") {
            Some(v) => Some(v),
            None => version_from_tool_files(ctx, &ruby_aliases),
        };
        let version = match resolve_version(ctx, detected, "3.3") {
            Ok(v) => v,
            Err(e) => return Err(e),
        };
        // Gemfile.lock is a glob so a project without a committed lockfile
        // still builds; the gems are installed into the image layer (no cache
        // mount) so the runtime stage can copy them.
        let deps_stage = stage(
            "deps",
            cat("ruby:", version.as_str()),
            "/app",
            commands1(run_plain(owned("bundle install --jobs 4 --retry 3"))),
            copies1(copy("Gemfile Gemfile.lock*", ".")),
            no_froms(),
        );
        let runtime_stage = stage(
            "runtime",
            cat3("ruby:", version.as_str(), "-slim"),
            "/app",
            no_commands(),
            copies1(copy_all()),
            froms1(copy_from("deps", owned("/usr/local/bundle"), owned("/usr/local/bundle"))),
        );
        let start_cmd = if is_rails {
            owned("bundle exec rails server -b 0.0.0.0")
        } else {
            owned("ruby main.rb")
        };
        let p = plan("ruby", stages2(deps_stage, runtime_stage), Some(start_cmd), Some(3000));
        assert(ruby_plan(ctx@) == Ok::<PlanView, ErrorView>(p@));
        Ok(p)
    }
}

} // verus!

verus! {

/// A Rails app (a `config/routes.rb`, or `rails` in the `Gemfile`) is started
/// by `rails server` bound to every interface (`0.0.0.0`), so the exposed
/// port 3000, Rails' default, is reachable from outside the container.
pub proof fn law_rails_listens_on_all_interfaces(c: ContextView)
    requires
        RubyProvider.plans(c) is Ok,
        has(c.project, "config/routes.rb"@) || (text(c.project, "Gemfile"@) matches Some(t)
            && contains_seq(t, "rails"@)),
    ensures
        RubyProvider.plans(c)->Ok_0.start_command == Some("bundle exec rails server -b 0.0.0.0"@),
        RubyProvider.plans(c)->Ok_0.port == Some(3000u16),
{
}

} // verus!
