//! Elixir projects (Phoenix included) built into an OTP release.
use vstd::prelude::*;
use crate::detect::{AppContext, ContextView};
use crate::error::{Error, ErrorView};
use crate::plan::{BuildPlan, PlanView};
use crate::project::{has, text};
use crate::providers::{
    Provider, cat, cat3, commands1, copies1, copy_all, copy_all_view, copy_from, from_view, froms1,
    no_copies, no_froms, owned, plan, plan_view, read_or_empty, run, run_view, stage, stage_view,
    stages2, text_or_empty, two,
};
use crate::text::{
    chars_of, contains, contains_seq, is_alnum, is_alnum_char, is_alphanumeric, is_ws_char,
    matches_at, occurs_at, string_of, trim_start, unicode_alnum,
};

verus! {

/// `mix.exs` mentions `:phoenix`.
pub open spec fn elixir_phoenix(c: ContextView) -> bool {
    match text(c.project, "mix.exs"@) {
        Some(t) => contains_seq(t, ":phoenix"@),
        None => false,
    }
}

/// `app:` at `i` is a key of its own: not the tail of a longer identifier.
pub open spec fn standalone_key(t: Seq<char>, i: int) -> bool {
    occurs_at(t, "app:"@, i) && (i == 0 || !(is_alnum(t[i - 1]) || t[i - 1] == '_'))
}

/// The characters of an atom name: alphanumerics and underscores.
pub open spec fn atom_chars(s: Seq<char>) -> Seq<char>
    decreases s.len(),
{
    if s.len() > 0 && (unicode_alnum(s[0]) || s[0] == '_') {
        seq![s[0]] + atom_chars(s.drop_first())
    } else {
        Seq::empty()
    }
}

/// The atom that follows the key at `i` (`app: :name` gives `name`), if any.
pub open spec fn atom_after(t: Seq<char>, i: int) -> Seq<char> {
    let rest = trim_start(t.skip(i + 4));
    if rest.len() > 0 && rest[0] == ':' {
        atom_chars(rest.drop_first())
    } else {
        Seq::empty()
    }
}

/// The application name of the first standalone `app: :name` at or after
/// `i`, or `app`.
pub open spec fn app_name_from(t: Seq<char>, i: int) -> Seq<char>
    decreases t.len() - i,
{
    if i < 0 || i >= t.len() {
        "app"@
    } else if standalone_key(t, i) && atom_after(t, i).len() > 0 {
        atom_after(t, i)
    } else {
        app_name_from(t, i + 1)
    }
}

pub open spec fn elixir_app(c: ContextView) -> Seq<char> {
    app_name_from(text_or_empty(c, "mix.exs"@), 0)
}

pub open spec fn elixir_build() -> Seq<char> {
    "mix local.hex --force && mix local.rebar --force && mix deps.get && MIX_ENV=prod mix release"@
}

pub open spec fn elixir_runtime_deps() -> Seq<char> {
    "apt-get update && apt-get install -y --no-install-recommends libncurses6 libstdc++6 libssl3 && rm -rf /var/lib/apt/lists/*"@
}

pub open spec fn elixir_plan(c: ContextView) -> PlanView {
    let app = elixir_app(c);
    plan_view(
        "elixir"@,
        seq![
            stage_view(
                "build"@,
                "elixir:1.18"@,
                "/app"@,
                seq![run_view(elixir_build(), seq!["/root/.mix"@, "/root/.hex"@])],
                seq![copy_all_view()],
                Seq::empty(),
            ),
            stage_view(
                "runtime"@,
                "debian:bookworm-slim"@,
                "/app"@,
                seq![run_view(elixir_runtime_deps(), seq!["/var/cache/apt"@])],
                Seq::empty(),
                seq![from_view("build"@, "/app/_build/prod/rel/"@ + app, "/app"@)],
            ),
        ],
        Some(
            if elixir_phoenix(c) {
                "PHX_SERVER=true /app/bin/"@ + app + " start"@
            } else {
                "/app/bin/"@ + app + " start"@
            },
        ),
        Some(4000u16),
    )
}

fn atom_prefix(s: &[char]) -> (r: Vec<char>)
    ensures
        r@ == atom_chars(s@),
{
    let mut i: usize = 0;
    assert(s@.skip(0) =~= s@);
    assert(s@.take(0) + atom_chars(s@) =~= atom_chars(s@));
    while i < s.len() && (is_alphanumeric(s[i]) || s[i] == '_')
        invariant
            i <= s@.len(),
            atom_chars(s@) == s@.take(i as int) + atom_chars(s@.skip(i as int)),
        decreases s@.len() - i,
    {
        proof {
            let t = s@.skip(i as int);
            assert(t.drop_first() =~= s@.skip(i + 1));
            assert(s@.take(i + 1) + atom_chars(s@.skip(i + 1)) =~= s@.take(i as int) + (seq![
                t[0],
            ] + atom_chars(t.drop_first())));
        }
        i = i + 1;
    }
    proof {
        assert(atom_chars(s@.skip(i as int)) =~= Seq::<char>::empty());
        assert(s@.take(i as int) + Seq::<char>::empty() =~= s@.take(i as int));
    }
    crate::text::slice(s, 0, i)
}

/// The atom after the key at `i` (see [`atom_after`]).
fn atom_at(t: &[char], i: usize) -> (r: Vec<char>)
    requires
        i + 4 <= t@.len(),
    ensures
        r@ == atom_after(t@, i as int),
{
    let n = t.len();
    assert(i + 4 <= n);
    let mut a: usize = i + 4;
    assert(t@.skip(i + 4) =~= t@.skip(a as int));
    while a < t.len() && is_ws_char(t[a])
        invariant
            i + 4 <= a <= t@.len(),
            trim_start(t@.skip(i + 4)) == trim_start(t@.skip(a as int)),
        decreases t@.len() - a,
    {
        assert(t@.skip(a as int).drop_first() =~= t@.skip(a + 1));
        a = a + 1;
    }
    assert(trim_start(t@.skip(a as int)) == t@.skip(a as int));
    if a < t.len() && t[a] == ':' {
        let rest = crate::text::slice(t, a + 1, t.len());
        assert(rest@ =~= t@.skip(a as int).drop_first());
        atom_prefix(&rest)
    } else {
        let r: Vec<char> = Vec::new();
        assert(r@ =~= Seq::<char>::empty());
        r
    }
}

/// Elixir projects: a `mix.exs`.
pub struct ElixirProvider;

impl ElixirProvider {
    fn is_phoenix(ctx: &AppContext) -> (b: bool)
        ensures
            b == elixir_phoenix(ctx@),
    {
        match ctx.read_file("mix.exs") {
            Ok(t) => contains(&chars_of(t.as_str()), &chars_of(":phoenix")),
            Err(_) => false,
        }
    }

    /// OTP application name from mix.exs `app: :name` (the release is named
    /// after it), falling back to `app`. `app:` matches only when it is not
    /// the tail of a longer identifier (`applications:`, `myapp:`).
    fn app_name(ctx: &AppContext) -> (r: String)
        ensures
            r@ == elixir_app(ctx@),
    {
        let content = read_or_empty(ctx, "mix.exs");
        let t = chars_of(content.as_str());
        let key = chars_of("app:");
        proof {
            reveal_strlit("app:");
        }
        let mut i: usize = 0;
        while i < t.len()
            invariant
                i <= t@.len(),
                key@ == "app:"@,
                key@.len() == 4,
                t@ == text_or_empty(ctx@, "mix.exs"@),
                app_name_from(t@, 0) == app_name_from(t@, i as int),
            decreases t@.len() - i,
        {
            if matches_at(&t, &key, i) {
                let standalone = i == 0 || !(is_alnum_char(t[i - 1]) || t[i - 1] == '_');
                if standalone {
                    let atom = atom_at(&t, i);
                    if atom.len() > 0 {
                        return string_of(&atom);
                    }
                }
            }
            i = i + 1;
        }
        owned("app")
    }
}

impl Provider for ElixirProvider {
    open spec fn spec_name(&self) -> Seq<char> {
        "elixir"@
    }

    open spec fn detects(&self, c: ContextView) -> bool {
        has(c.project, "mix.exs"@)
    }

    open spec fn plans(&self, c: ContextView) -> Result<PlanView, ErrorView> {
        Ok(elixir_plan(c))
    }

    fn name(&self) -> (n: &'static str) {
        "elixir"
    }

    fn detect(&self, ctx: &AppContext) -> (b: bool) {
        ctx.has_file("mix.exs")
    }

    fn plan(&self, ctx: &AppContext) -> (r: Result<BuildPlan, Error>) {
        let is_phoenix = Self::is_phoenix(ctx);
        let app = Self::app_name(ctx);
        let build_stage = stage(
            "build",
            owned("elixir:1.18"),
            "/app",
            commands1(
                run(
                    owned(
                        "mix local.hex --force && mix local.rebar --force && mix deps.get && MIX_ENV=prod mix release",
                    ),
                    two("/root/.mix", "/root/.hex"),
                ),
            ),
            copies1(copy_all()),
            no_froms(),
        );
        // The release bundles ERTS, but its crypto NIF needs libssl3, and
        // ncurses / libstdc++ are needed too.
        let runtime_stage = stage(
            "runtime",
            owned("debian:bookworm-slim"),
            "/app",
            commands1(
                run(
                    owned(
                        "apt-get update && apt-get install -y --no-install-recommends libncurses6 libstdc++6 libssl3 && rm -rf /var/lib/apt/lists/*",
                    ),
                    crate::providers::one("/var/cache/apt"),
                ),
            ),
            no_copies(),
            froms1(copy_from("build", cat("/app/_build/prod/rel/", app.as_str()), owned("/app"))),
        );
        // Launch the release binary (mix is not in the runtime image); for
        // Phoenix, PHX_SERVER=true makes the release boot the endpoint.
        let start_cmd = if is_phoenix {
            cat3("PHX_SERVER=true /app/bin/", app.as_str(), " start")
        } else {
            cat3("/app/bin/", app.as_str(), " start")
        };
        let p = plan("elixir", stages2(build_stage, runtime_stage), Some(start_cmd), Some(4000));
        assert(p@ == elixir_plan(ctx@));
        Ok(p)
    }
}

} // verus!

verus! {

/// The image runs the release the build made: the runtime stage copies the
/// release of one application name from `_build/prod/rel/<app>` into `/app`,
/// and the start command runs that application's `bin/<app> start` (with
/// `PHX_SERVER=true` for Phoenix, so the endpoint serves).
pub proof fn law_elixir_runs_the_release_it_built(c: ContextView)
    ensures
        ElixirProvider.plans(c) is Ok,
        ({
            let p = ElixirProvider.plans(c)->Ok_0;
            exists|app: Seq<char>|
                p.stages[1].copy_from == seq![
                    from_view("build"@, "/app/_build/prod/rel/"@ + app, "/app"@),
                ] && (p.start_command == Some("/app/bin/"@ + app + " start"@) || p.start_command
                    == Some("PHX_SERVER=true /app/bin/"@ + app + " start"@))
        }),
        ElixirProvider.plans(c)->Ok_0.port == Some(4000u16),
{
    let app = elixir_app(c);
    assert(ElixirProvider.plans(c)->Ok_0.stages[1].copy_from == seq![
        from_view("build"@, "/app/_build/prod/rel/"@ + app, "/app"@),
    ]);
}

} // verus!
