//! PHP projects installed with Composer and served by Apache (Laravel via artisan).
use vstd::prelude::*;
use crate::detect::{AppContext, ContextView};
use crate::error::{Error, ErrorView};
use crate::plan::{BuildPlan, PlanView};
use crate::project::{has, text};
use crate::providers::{
    Provider, commands1, copies1, copies2, copy, copy_all, copy_all_view, copy_from, copy_view,
    from_view, froms1, no_commands, no_froms, one, owned, plan, plan_view, run, run_view, stage,
    stage_view, stages2,
};
use crate::text::{chars_of, contains, contains_seq};

verus! {

/// An `artisan` script, or `laravel/framework` in `composer.json`.
pub open spec fn php_laravel(c: ContextView) -> bool {
    has(c.project, "artisan"@) || match text(c.project, "composer.json"@) {
        Some(t) => contains_seq(t, "laravel/framework"@),
        None => false,
    }
}

pub open spec fn php_plan(c: ContextView) -> PlanView {
    plan_view(
        "php"@,
        seq![
            stage_view(
                "deps"@,
                "composer:2"@,
                "/app"@,
                seq![run_view("composer install --no-dev --optimize-autoloader"@, seq!["/root/.composer"@])],
                seq![copy_view("composer.json"@, "."@), copy_view("composer.lock"@, "."@)],
                Seq::empty(),
            ),
            stage_view(
                "runtime"@,
                "php:8.3-apache"@,
                "/var/www/html"@,
                Seq::empty(),
                seq![copy_all_view()],
                seq![from_view("deps"@, "/app/vendor"@, "/var/www/html/vendor"@)],
            ),
        ],
        if php_laravel(c) {
            Some("php artisan serve --host=0.0.0.0 --port=${PORT:-8080}"@)
        } else {
            None
        },
        Some(8080u16),
    )
}

/// PHP projects: a `composer.json`.
pub struct PhpProvider;

impl PhpProvider {
    fn is_laravel(ctx: &AppContext) -> (b: bool)
        ensures
            b == php_laravel(ctx@),
    {
        ctx.has_file("artisan") || match ctx.read_file("composer.json") {
            Ok(t) => contains(&chars_of(t.as_str()), &chars_of("laravel/framework")),
            Err(_) => false,
        }
    }
}

impl Provider for PhpProvider {
    open spec fn spec_name(&self) -> Seq<char> {
        "php"@
    }

    open spec fn detects(&self, c: ContextView) -> bool {
        has(c.project, "composer.json"@)
    }

    open spec fn plans(&self, c: ContextView) -> Result<PlanView, ErrorView> {
        Ok(php_plan(c))
    }

    fn name(&self) -> (n: &'static str) {
        "php"
    }

    fn detect(&self, ctx: &AppContext) -> (b: bool) {
        ctx.has_file("composer.json")
    }

    fn plan(&self, ctx: &AppContext) -> (r: Result<BuildPlan, Error>) {
        let is_laravel = Self::is_laravel(ctx);
        let deps_stage = stage(
            "deps",
            owned("composer:2"),
            "/app",
            commands1(run(owned("composer install --no-dev --optimize-autoloader"), one("/root/.composer"))),
            copies2(copy("composer.json", "."), copy("composer.lock", ".")),
            no_froms(),
        );
        let runtime_stage = stage(
            "runtime",
            owned("php:8.3-apache"),
            "/var/www/html",
            no_commands(),
            copies1(copy_all()),
            froms1(copy_from("deps", owned("/app/vendor"), owned("/var/www/html/vendor"))),
        );
        let start_cmd = if is_laravel {
            Some(owned("php artisan serve --host=0.0.0.0 --port=${PORT:-8080}"))
        } else {
            None
        };
        let p = plan("php", stages2(deps_stage, runtime_stage), start_cmd, Some(8080));
        assert(p@ == php_plan(ctx@));
        Ok(p)
    }
}

} // verus!

verus! {

/// A Laravel app (an `artisan` script, or `laravel/framework` in
/// `composer.json`) is started by `artisan serve` listening on every
/// interface (`0.0.0.0`) at the port the plan exposes (`$PORT`, by default
/// that port); any other PHP app is served by the Apache image's own command.
pub proof fn law_laravel_serves_on_the_exposed_port(c: ContextView)
    ensures
        PhpProvider.plans(c) is Ok,
        PhpProvider.plans(c)->Ok_0.port == Some(8080u16),
        (has(c.project, "artisan"@) || (text(c.project, "composer.json"@) matches Some(t)
            && contains_seq(t, "laravel/framework"@))) ==> PhpProvider.plans(c)->Ok_0.start_command
            == Some(
            "php artisan serve --host=0.0.0.0 --port=${PORT:-"@ + crate::dockerfile::decimal(
                PhpProvider.plans(c)->Ok_0.port->0 as nat,
            ) + "}"@,
        ),
        !(has(c.project, "artisan"@) || (text(c.project, "composer.json"@) matches Some(t)
            && contains_seq(t, "laravel/framework"@))) ==> PhpProvider.plans(c)->Ok_0.start_command
            is None,
        PhpProvider.plans(c)->Ok_0.stages[1].base_image == "php:8.3-apache"@,
{
    reveal_with_fuel(crate::dockerfile::decimal, 5);
    reveal_strlit("php artisan serve --host=0.0.0.0 --port=${PORT:-");
    reveal_strlit("}");
    reveal_strlit("php artisan serve --host=0.0.0.0 --port=${PORT:-8080}");
    let d = crate::dockerfile::decimal(8080);
    assert(((48 + 8nat) as u8) as char == '8');
    assert(((48 + 0nat) as u8) as char == '0');
    assert(d =~= seq!['8', '0', '8', '0']);
    assert("php artisan serve --host=0.0.0.0 --port=${PORT:-"@ + d + "}"@
        =~= "php artisan serve --host=0.0.0.0 --port=${PORT:-8080}"@);
}

} // verus!
