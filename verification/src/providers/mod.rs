//! Language providers: each detects its ecosystem and plans the build.
use vstd::prelude::*;
use crate::detect::{AppContext, ContextView};
use crate::error::{Error, ErrorView};
use crate::plan::{
    BuildPlan, Command, CommandView, CopyDirective, CopyFrom, CopyFromView, CopyView, EnvMap,
    PlanView, Stage, StageView, command_views, copy_from_views, copy_views, opt_view, stage_views,
};
use crate::project::{has, text};
use crate::structured::{Found, FoundView, Step, StepView, json_at, json_lookup, step_views, toml_at, toml_lookup};
use crate::text::views;

pub mod cpp;
pub mod deno;
pub mod dotnet;
pub mod elixir;
pub mod gleam;
pub mod go;
pub mod java;
pub mod node;
pub mod php;
pub mod python;
pub mod ruby;
pub mod rust_lang;
pub mod shell;
pub mod static_site;
pub mod versions;

verus! {

// ---------------------------------------------------------------------------
// Building blocks of a plan, stated over views

pub open spec fn copy_view(src: Seq<char>, dest: Seq<char>) -> CopyView {
    CopyView { src, dest }
}

/// Copy the whole build context into the working directory.
pub open spec fn copy_all_view() -> CopyView {
    copy_view("."@, "."@)
}

pub open spec fn from_view(stage: Seq<char>, src: Seq<char>, dest: Seq<char>) -> CopyFromView {
    CopyFromView { stage, src, dest }
}

pub open spec fn run_view(run: Seq<char>, mounts: Seq<Seq<char>>) -> CommandView {
    CommandView { run, cache_mounts: mounts }
}

pub open spec fn stage_view(
    name: Seq<char>,
    base_image: Seq<char>,
    workdir: Seq<char>,
    commands: Seq<CommandView>,
    copy_files: Seq<CopyView>,
    copy_from: Seq<CopyFromView>,
) -> StageView {
    StageView { name, base_image, workdir, commands, copy_files, copy_from }
}

/// A provider's plan: stages, start command and port, with no environment,
/// `PATH` entries or secrets (those come from the overrides).
pub open spec fn plan_view(
    provider: Seq<char>,
    stages: Seq<StageView>,
    start_command: Option<Seq<char>>,
    port: Option<u16>,
) -> PlanView {
    PlanView {
        provider,
        stages,
        start_command,
        port,
        env: Seq::empty(),
        build_env: Seq::empty(),
        paths: Seq::empty(),
        secrets: Seq::empty(),
    }
}

pub open spec fn unsafe_view(field: Seq<char>, value: Seq<char>) -> ErrorView {
    ErrorView::UnsafeValue { field, value }
}

/// A planning result, by its views.
pub open spec fn outcome(r: Result<BuildPlan, Error>) -> Result<PlanView, ErrorView> {
    match r {
        Ok(p) => Ok(p@),
        Err(e) => Err(e@),
    }
}

/// What a JSON file of the project holds at `keys` (`Unparsable` when the
/// file cannot be read).
pub open spec fn json_in(c: ContextView, file: Seq<char>, keys: Seq<Seq<char>>) -> FoundView {
    match text(c.project, file) {
        Some(t) => json_at(t, keys),
        None => FoundView::Unparsable,
    }
}

/// What a TOML file of the project holds at `path` (`Unparsable` when the
/// file cannot be read).
pub open spec fn toml_in(c: ContextView, file: Seq<char>, path: Seq<StepView>) -> FoundView {
    match text(c.project, file) {
        Some(t) => toml_at(t, path),
        None => FoundView::Unparsable,
    }
}

/// A file's text, or nothing when it cannot be read.
pub open spec fn text_or_empty(c: ContextView, file: Seq<char>) -> Seq<char> {
    match text(c.project, file) {
        Some(t) => t,
        None => Seq::empty(),
    }
}

/// The text of a file, or an empty string when it cannot be read.
pub fn read_or_empty(ctx: &AppContext, file: &str) -> (r: String)
    ensures
        r@ == text_or_empty(ctx@, file@),
{
    match ctx.read_file(file) {
        Ok(t) => t,
        Err(_) => String::new(),
    }
}

/// Read a JSON file of the project and look up `keys` in it.
pub fn json_in_file(ctx: &AppContext, file: &str, keys: &Vec<String>) -> (r: Found)
    ensures
        r@ == json_in(ctx@, file@, views(keys@)),
{
    match ctx.read_file(file) {
        Ok(t) => json_lookup(t.as_str(), keys),
        Err(_) => Found::Unparsable,
    }
}

/// Read a TOML file of the project and look up `path` in it.
pub fn toml_in_file(ctx: &AppContext, file: &str, path: &Vec<Step>) -> (r: Found)
    ensures
        r@ == toml_in(ctx@, file@, step_views(path@)),
{
    match ctx.read_file(file) {
        Ok(t) => toml_lookup(t.as_str(), path),
        Err(_) => Found::Unparsable,
    }
}

pub fn owned(s: &str) -> (r: String)
    ensures
        r@ == s@,
{
    String::from_str(s)
}

/// `a` followed by `b`.
pub fn cat(a: &str, b: &str) -> (r: String)
    ensures
        r@ == a@ + b@,
{
    let mut r = String::from_str(a);
    r.append(b);
    r
}

/// `a`, `b` and `c` in sequence.
pub fn cat3(a: &str, b: &str, c: &str) -> (r: String)
    ensures
        r@ == a@ + b@ + c@,
{
    let mut r = String::from_str(a);
    r.append(b);
    r.append(c);
    r
}

/// A list of one string.
pub fn one(a: &str) -> (v: Vec<String>)
    ensures
        views(v@) == seq![a@],
{
    let v = vec![owned(a)];
    assert(views(v@) =~= seq![a@]);
    v
}

/// A list of two strings.
pub fn two(a: &str, b: &str) -> (v: Vec<String>)
    ensures
        views(v@) == seq![a@, b@],
{
    let v = vec![owned(a), owned(b)];
    assert(views(v@) =~= seq![a@, b@]);
    v
}

pub fn copy(src: &str, dest: &str) -> (c: CopyDirective)
    ensures
        c@ == copy_view(src@, dest@),
{
    CopyDirective { src: owned(src), dest: owned(dest) }
}

pub fn copy_all() -> (c: CopyDirective)
    ensures
        c@ == copy_all_view(),
{
    copy(".", ".")
}

pub fn copy_from(stage: &str, src: String, dest: String) -> (c: CopyFrom)
    ensures
        c@ == from_view(stage@, src@, dest@),
{
    CopyFrom { stage: owned(stage), src, dest }
}

pub fn run(line: String, mounts: Vec<String>) -> (c: Command)
    ensures
        c@ == run_view(line@, views(mounts@)),
{
    Command { run: line, cache_mounts: mounts }
}

/// A command with no cache mounts.
pub fn run_plain(line: String) -> (c: Command)
    ensures
        c@ == run_view(line@, Seq::empty()),
{
    let mounts: Vec<String> = Vec::new();
    assert(views(mounts@) =~= Seq::empty());
    Command { run: line, cache_mounts: mounts }
}

pub fn stage(
    name: &str,
    base_image: String,
    workdir: &str,
    commands: Vec<Command>,
    copy_files: Vec<CopyDirective>,
    copy_from: Vec<CopyFrom>,
) -> (s: Stage)
    ensures
        s@ == stage_view(
            name@,
            base_image@,
            workdir@,
            command_views(commands@),
            copy_views(copy_files@),
            copy_from_views(copy_from@),
        ),
{
    Stage { name: owned(name), base_image, workdir: owned(workdir), commands, copy_files, copy_from }
}

pub fn plan(provider: &str, stages: Vec<Stage>, start_command: Option<String>, port: Option<u16>) -> (p:
    BuildPlan)
    ensures
        p@ == plan_view(provider@, stage_views(stages@), opt_view(start_command), port),
{
    let p = BuildPlan {
        provider: owned(provider),
        stages,
        start_command,
        port,
        env: EnvMap::new(),
        build_env: EnvMap::new(),
        paths: Vec::new(),
        secrets: Vec::new(),
    };
    assert(views(p.paths@) =~= Seq::empty());
    assert(views(p.secrets@) =~= Seq::empty());
    p
}

pub fn no_commands() -> (v: Vec<Command>)
    ensures
        command_views(v@) == Seq::<CommandView>::empty(),
{
    let v: Vec<Command> = Vec::new();
    assert(command_views(v@) =~= Seq::<CommandView>::empty());
    v
}

pub fn commands1(a: Command) -> (v: Vec<Command>)
    ensures
        command_views(v@) == seq![a@],
{
    let v = vec![a];
    assert(command_views(v@) =~= seq![a@]);
    v
}

pub fn commands2(a: Command, b: Command) -> (v: Vec<Command>)
    ensures
        command_views(v@) == seq![a@, b@],
{
    let v = vec![a, b];
    assert(command_views(v@) =~= seq![a@, b@]);
    v
}

pub fn no_copies() -> (v: Vec<CopyDirective>)
    ensures
        copy_views(v@) == Seq::<CopyView>::empty(),
{
    let v: Vec<CopyDirective> = Vec::new();
    assert(copy_views(v@) =~= Seq::<CopyView>::empty());
    v
}

pub fn copies1(a: CopyDirective) -> (v: Vec<CopyDirective>)
    ensures
        copy_views(v@) == seq![a@],
{
    let v = vec![a];
    assert(copy_views(v@) =~= seq![a@]);
    v
}

pub fn copies2(a: CopyDirective, b: CopyDirective) -> (v: Vec<CopyDirective>)
    ensures
        copy_views(v@) == seq![a@, b@],
{
    let v = vec![a, b];
    assert(copy_views(v@) =~= seq![a@, b@]);
    v
}

pub fn no_froms() -> (v: Vec<CopyFrom>)
    ensures
        copy_from_views(v@) == Seq::<CopyFromView>::empty(),
{
    let v: Vec<CopyFrom> = Vec::new();
    assert(copy_from_views(v@) =~= Seq::<CopyFromView>::empty());
    v
}

pub fn froms1(a: CopyFrom) -> (v: Vec<CopyFrom>)
    ensures
        copy_from_views(v@) == seq![a@],
{
    let v = vec![a];
    assert(copy_from_views(v@) =~= seq![a@]);
    v
}

pub fn froms2(a: CopyFrom, b: CopyFrom) -> (v: Vec<CopyFrom>)
    ensures
        copy_from_views(v@) == seq![a@, b@],
{
    let v = vec![a, b];
    assert(copy_from_views(v@) =~= seq![a@, b@]);
    v
}

pub fn stages1(a: Stage) -> (v: Vec<Stage>)
    ensures
        stage_views(v@) == seq![a@],
{
    let v = vec![a];
    assert(stage_views(v@) =~= seq![a@]);
    v
}

pub fn stages2(a: Stage, b: Stage) -> (v: Vec<Stage>)
    ensures
        stage_views(v@) == seq![a@, b@],
{
    let v = vec![a, b];
    assert(stage_views(v@) =~= seq![a@, b@]);
    v
}

pub fn stages3(a: Stage, b: Stage, c: Stage) -> (v: Vec<Stage>)
    ensures
        stage_views(v@) == seq![a@, b@, c@],
{
    let v = vec![a, b, c];
    assert(stage_views(v@) =~= seq![a@, b@, c@]);
    v
}

// ---------------------------------------------------------------------------
// The provider interface

/// A language/framework provider that can detect and plan builds.
pub trait Provider: Send + Sync {
    /// The provider's name.
    spec fn spec_name(&self) -> Seq<char>;

    /// Whether the provider matches the project.
    spec fn detects(&self, c: ContextView) -> bool;

    /// The plan the provider makes for the project, or the error it reports.
    spec fn plans(&self, c: ContextView) -> Result<PlanView, ErrorView>;

    /// Provider name (e.g. "node", "go", "python").
    fn name(&self) -> (n: &'static str)
        ensures
            n@ == self.spec_name(),
    ;

    /// Check if this provider matches the project.
    fn detect(&self, ctx: &AppContext) -> (b: bool)
        ensures
            b == self.detects(ctx@),
    ;

    /// Generate a build plan for the project.
    fn plan(&self, ctx: &AppContext) -> (r: Result<BuildPlan, Error>)
        ensures
            outcome(r) == self.plans(ctx@),
    ;
}

// ---------------------------------------------------------------------------
// The registry

/// One of the registered providers.
#[derive(Clone, Copy, PartialEq, Eq, Structural)]
pub enum ProviderKind {
    Deno,
    Gleam,
    Elixir,
    Rust,
    Go,
    Dotnet,
    Java,
    Ruby,
    Php,
    Python,
    Node,
    Cpp,
    Shell,
    Static,
}

impl Provider for ProviderKind {
    open spec fn spec_name(&self) -> Seq<char> {
        match self {
            ProviderKind::Deno => deno::DenoProvider.spec_name(),
            ProviderKind::Gleam => gleam::GleamProvider.spec_name(),
            ProviderKind::Elixir => elixir::ElixirProvider.spec_name(),
            ProviderKind::Rust => rust_lang::RustProvider.spec_name(),
            ProviderKind::Go => go::GoProvider.spec_name(),
            ProviderKind::Dotnet => dotnet::DotnetProvider.spec_name(),
            ProviderKind::Java => java::JavaProvider.spec_name(),
            ProviderKind::Ruby => ruby::RubyProvider.spec_name(),
            ProviderKind::Php => php::PhpProvider.spec_name(),
            ProviderKind::Python => python::PythonProvider.spec_name(),
            ProviderKind::Node => node::NodeProvider.spec_name(),
            ProviderKind::Cpp => cpp::CppProvider.spec_name(),
            ProviderKind::Shell => shell::ShellProvider.spec_name(),
            ProviderKind::Static => static_site::StaticSiteProvider.spec_name(),
        }
    }

    open spec fn detects(&self, c: ContextView) -> bool {
        match self {
            ProviderKind::Deno => deno::DenoProvider.detects(c),
            ProviderKind::Gleam => gleam::GleamProvider.detects(c),
            ProviderKind::Elixir => elixir::ElixirProvider.detects(c),
            ProviderKind::Rust => rust_lang::RustProvider.detects(c),
            ProviderKind::Go => go::GoProvider.detects(c),
            ProviderKind::Dotnet => dotnet::DotnetProvider.detects(c),
            ProviderKind::Java => java::JavaProvider.detects(c),
            ProviderKind::Ruby => ruby::RubyProvider.detects(c),
            ProviderKind::Php => php::PhpProvider.detects(c),
            ProviderKind::Python => python::PythonProvider.detects(c),
            ProviderKind::Node => node::NodeProvider.detects(c),
            ProviderKind::Cpp => cpp::CppProvider.detects(c),
            ProviderKind::Shell => shell::ShellProvider.detects(c),
            ProviderKind::Static => static_site::StaticSiteProvider.detects(c),
        }
    }

    open spec fn plans(&self, c: ContextView) -> Result<PlanView, ErrorView> {
        match self {
            ProviderKind::Deno => deno::DenoProvider.plans(c),
            ProviderKind::Gleam => gleam::GleamProvider.plans(c),
            ProviderKind::Elixir => elixir::ElixirProvider.plans(c),
            ProviderKind::Rust => rust_lang::RustProvider.plans(c),
            ProviderKind::Go => go::GoProvider.plans(c),
            ProviderKind::Dotnet => dotnet::DotnetProvider.plans(c),
            ProviderKind::Java => java::JavaProvider.plans(c),
            ProviderKind::Ruby => ruby::RubyProvider.plans(c),
            ProviderKind::Php => php::PhpProvider.plans(c),
            ProviderKind::Python => python::PythonProvider.plans(c),
            ProviderKind::Node => node::NodeProvider.plans(c),
            ProviderKind::Cpp => cpp::CppProvider.plans(c),
            ProviderKind::Shell => shell::ShellProvider.plans(c),
            ProviderKind::Static => static_site::StaticSiteProvider.plans(c),
        }
    }

    fn name(&self) -> (n: &'static str) {
        match self {
            ProviderKind::Deno => deno::DenoProvider.name(),
            ProviderKind::Gleam => gleam::GleamProvider.name(),
            ProviderKind::Elixir => elixir::ElixirProvider.name(),
            ProviderKind::Rust => rust_lang::RustProvider.name(),
            ProviderKind::Go => go::GoProvider.name(),
            ProviderKind::Dotnet => dotnet::DotnetProvider.name(),
            ProviderKind::Java => java::JavaProvider.name(),
            ProviderKind::Ruby => ruby::RubyProvider.name(),
            ProviderKind::Php => php::PhpProvider.name(),
            ProviderKind::Python => python::PythonProvider.name(),
            ProviderKind::Node => node::NodeProvider.name(),
            ProviderKind::Cpp => cpp::CppProvider.name(),
            ProviderKind::Shell => shell::ShellProvider.name(),
            ProviderKind::Static => static_site::StaticSiteProvider.name(),
        }
    }

    fn detect(&self, ctx: &AppContext) -> (b: bool) {
        match self {
            ProviderKind::Deno => deno::DenoProvider.detect(ctx),
            ProviderKind::Gleam => gleam::GleamProvider.detect(ctx),
            ProviderKind::Elixir => elixir::ElixirProvider.detect(ctx),
            ProviderKind::Rust => rust_lang::RustProvider.detect(ctx),
            ProviderKind::Go => go::GoProvider.detect(ctx),
            ProviderKind::Dotnet => dotnet::DotnetProvider.detect(ctx),
            ProviderKind::Java => java::JavaProvider.detect(ctx),
            ProviderKind::Ruby => ruby::RubyProvider.detect(ctx),
            ProviderKind::Php => php::PhpProvider.detect(ctx),
            ProviderKind::Python => python::PythonProvider.detect(ctx),
            ProviderKind::Node => node::NodeProvider.detect(ctx),
            ProviderKind::Cpp => cpp::CppProvider.detect(ctx),
            ProviderKind::Shell => shell::ShellProvider.detect(ctx),
            ProviderKind::Static => static_site::StaticSiteProvider.detect(ctx),
        }
    }

    fn plan(&self, ctx: &AppContext) -> (r: Result<BuildPlan, Error>) {
        match self {
            ProviderKind::Deno => deno::DenoProvider.plan(ctx),
            ProviderKind::Gleam => gleam::GleamProvider.plan(ctx),
            ProviderKind::Elixir => elixir::ElixirProvider.plan(ctx),
            ProviderKind::Rust => rust_lang::RustProvider.plan(ctx),
            ProviderKind::Go => go::GoProvider.plan(ctx),
            ProviderKind::Dotnet => dotnet::DotnetProvider.plan(ctx),
            ProviderKind::Java => java::JavaProvider.plan(ctx),
            ProviderKind::Ruby => ruby::RubyProvider.plan(ctx),
            ProviderKind::Php => php::PhpProvider.plan(ctx),
            ProviderKind::Python => python::PythonProvider.plan(ctx),
            ProviderKind::Node => node::NodeProvider.plan(ctx),
            ProviderKind::Cpp => cpp::CppProvider.plan(ctx),
            ProviderKind::Shell => shell::ShellProvider.plan(ctx),
            ProviderKind::Static => static_site::StaticSiteProvider.plan(ctx),
        }
    }
}

/// The registered providers in priority order: the first that detects a
/// project plans it.
pub open spec fn registry() -> Seq<ProviderKind> {
    seq![
        ProviderKind::Deno,
        ProviderKind::Gleam,
        ProviderKind::Elixir,
        ProviderKind::Rust,
        ProviderKind::Go,
        ProviderKind::Dotnet,
        ProviderKind::Java,
        ProviderKind::Ruby,
        ProviderKind::Php,
        ProviderKind::Python,
        ProviderKind::Node,
        ProviderKind::Cpp,
        ProviderKind::Shell,
        ProviderKind::Static,
    ]
}

/// Return all registered providers in priority order (first match wins).
pub fn all() -> (v: Vec<ProviderKind>)
    ensures
        v@ == registry(),
{
    let v = vec![
        ProviderKind::Deno,
        ProviderKind::Gleam,
        ProviderKind::Elixir,
        ProviderKind::Rust,
        ProviderKind::Go,
        ProviderKind::Dotnet,
        ProviderKind::Java,
        ProviderKind::Ruby,
        ProviderKind::Php,
        ProviderKind::Python,
        ProviderKind::Node,
        ProviderKind::Cpp,
        ProviderKind::Shell,
        ProviderKind::Static,
    ];
    assert(v@ =~= registry());
    v
}

/// The first of `ps` whose name is `name`.
pub open spec fn provider_named(ps: Seq<ProviderKind>, name: Seq<char>) -> Option<ProviderKind>
    decreases ps.len(),
{
    if ps.len() == 0 {
        None
    } else if ps[0].spec_name() == name {
        Some(ps[0])
    } else {
        provider_named(ps.drop_first(), name)
    }
}

/// The first of `ps` that detects the project.
pub open spec fn first_detecting(ps: Seq<ProviderKind>, c: ContextView) -> Option<ProviderKind>
    decreases ps.len(),
{
    if ps.len() == 0 {
        None
    } else if ps[0].detects(c) {
        Some(ps[0])
    } else {
        first_detecting(ps.drop_first(), c)
    }
}

/// The registered provider called `name`.
pub fn find_provider(name: &str) -> (r: Option<ProviderKind>)
    ensures
        r == provider_named(registry(), name@),
{
    let ps = all();
    let mut i: usize = 0;
    assert(ps@.skip(0) =~= ps@);
    while i < ps.len()
        invariant
            i <= ps@.len(),
            ps@ == registry(),
            provider_named(registry(), name@) == provider_named(ps@.skip(i as int), name@),
        decreases ps@.len() - i,
    {
        proof {
            assert(ps@.skip(i as int)[0] == ps@[i as int]);
            assert(ps@.skip(i as int).drop_first() =~= ps@.skip(i + 1));
        }
        let p = ps[i];
        if crate::text::eq_str(p.name(), name) {
            return Some(p);
        }
        i = i + 1;
    }
    None
}

/// The first registered provider that detects the project.
pub fn detecting_provider(ctx: &AppContext) -> (r: Option<ProviderKind>)
    ensures
        r == first_detecting(registry(), ctx@),
{
    let ps = all();
    let mut i: usize = 0;
    assert(ps@.skip(0) =~= ps@);
    while i < ps.len()
        invariant
            i <= ps@.len(),
            ps@ == registry(),
            first_detecting(registry(), ctx@) == first_detecting(ps@.skip(i as int), ctx@),
        decreases ps@.len() - i,
    {
        proof {
            assert(ps@.skip(i as int)[0] == ps@[i as int]);
            assert(ps@.skip(i as int).drop_first() =~= ps@.skip(i + 1));
        }
        let p = ps[i];
        if p.detect(ctx) {
            return Some(p);
        }
        i = i + 1;
    }
    None
}

} // verus!

verus! {

// ---------------------------------------------------------------------------
// Laws of the registry

/// A plan is labelled with the name of the provider that made it.
pub proof fn law_plan_names_its_provider(k: ProviderKind, c: ContextView)
    requires
        k.plans(c) is Ok,
    ensures
        k.plans(c)->Ok_0.provider == k.spec_name(),
{
}

/// First match wins: the provider chosen for a project detects it, and no
/// provider ahead of it in the registry does.
pub proof fn law_first_match_wins(ps: Seq<ProviderKind>, c: ContextView)
    requires
        first_detecting(ps, c) is Some,
    ensures
        first_detecting(ps, c)->0.detects(c),
        exists|i: int|
            0 <= i < ps.len() && ps[i] == first_detecting(ps, c)->0 && forall|j: int|
                0 <= j < i ==> !(#[trigger] ps[j]).detects(c),
    decreases ps.len(),
{
    if ps[0].detects(c) {
        assert(ps[0] == first_detecting(ps, c)->0);
    } else {
        let d = ps.drop_first();
        law_first_match_wins(d, c);
        let i = choose|i: int|
            0 <= i < d.len() && d[i] == first_detecting(d, c)->0 && forall|j: int|
                0 <= j < i ==> !(#[trigger] d[j]).detects(c);
        assert(ps[i + 1] == d[i]);
        assert forall|j: int| 0 <= j < i + 1 implies !(#[trigger] ps[j]).detects(c) by {
            if j > 0 {
                assert(ps[j] == d[j - 1]);
            }
        }
    }
}

/// A provider that nothing ahead of it in the registry beats is the one
/// chosen when it detects the project.
pub proof fn law_detecting_provider_is_chosen(ps: Seq<ProviderKind>, c: ContextView, i: int)
    requires
        0 <= i < ps.len(),
        ps[i].detects(c),
        forall|j: int| 0 <= j < i ==> !(#[trigger] ps[j]).detects(c),
    ensures
        first_detecting(ps, c) == Some(ps[i]),
    decreases ps.len(),
{
    if i > 0 {
        let d = ps.drop_first();
        assert(!ps[0].detects(c));
        assert forall|j: int| 0 <= j < i - 1 implies !(#[trigger] d[j]).detects(c) by {
            assert(d[j] == ps[j + 1]);
        }
        law_detecting_provider_is_chosen(d, c, i - 1);
    }
}

} // verus!

verus! {

/// Every error a provider's plan reports is an unsafe value.
pub proof fn law_provider_errors_are_unsafe_values(k: ProviderKind, c: ContextView)
    requires
        k.plans(c) is Err,
    ensures
        k.plans(c)->Err_0 is UnsafeValue,
{
}

/// No provider of `ps` is called `name` exactly when the lookup finds none.
pub proof fn law_unknown_name(ps: Seq<ProviderKind>, name: Seq<char>)
    ensures
        provider_named(ps, name) is None <==> forall|i: int|
            0 <= i < ps.len() ==> (#[trigger] ps[i]).spec_name() != name,
    decreases ps.len(),
{
    if ps.len() > 0 {
        let d = ps.drop_first();
        law_unknown_name(d, name);
        if provider_named(ps, name) is None {
            assert forall|i: int| 0 <= i < ps.len() implies (#[trigger] ps[i]).spec_name() != name by {
                if i > 0 {
                    assert(ps[i] == d[i - 1]);
                }
            }
        } else if ps[0].spec_name() != name {
            let j = choose|j: int| 0 <= j < d.len() && !((#[trigger] d[j]).spec_name() != name);
            assert(ps[j + 1] == d[j]);
        }
    }
}

/// No provider of `ps` detects the project exactly when detection finds none.
pub proof fn law_nothing_detects(ps: Seq<ProviderKind>, c: ContextView)
    ensures
        first_detecting(ps, c) is None <==> forall|i: int| 0 <= i < ps.len() ==> !(#[trigger] ps[i]).detects(c),
    decreases ps.len(),
{
    if ps.len() > 0 {
        let d = ps.drop_first();
        law_nothing_detects(d, c);
        if first_detecting(ps, c) is None {
            assert forall|i: int| 0 <= i < ps.len() implies !(#[trigger] ps[i]).detects(c) by {
                if i > 0 {
                    assert(ps[i] == d[i - 1]);
                }
            }
        } else if !ps[0].detects(c) {
            let j = choose|j: int| 0 <= j < d.len() && (#[trigger] d[j]).detects(c);
            assert(ps[j + 1] == d[j]);
        }
    }
}

} // verus!

verus! {

/// Detection tries the languages in this fixed priority order, the first
/// match winning: Deno, Gleam, Elixir, Rust, Go, .NET, Java, Ruby, PHP,
/// Python, Node, C/C++, shell, static site. Whenever a provider detects the
/// project, no provider after it in that order is chosen; so a Laravel app
/// with a `package.json` is planned by PHP, and a Python project with a
/// `package.json` by Python, not Node.
pub proof fn law_priority_order(c: ContextView)
    ensures
        ({
            let order = seq![
                ProviderKind::Deno,
                ProviderKind::Gleam,
                ProviderKind::Elixir,
                ProviderKind::Rust,
                ProviderKind::Go,
                ProviderKind::Dotnet,
                ProviderKind::Java,
                ProviderKind::Ruby,
                ProviderKind::Php,
                ProviderKind::Python,
                ProviderKind::Node,
                ProviderKind::Cpp,
                ProviderKind::Shell,
                ProviderKind::Static,
            ];
            forall|i: int, j: int|
                0 <= i < j < order.len() && (#[trigger] order[i]).detects(c) ==> first_detecting(
                    registry(),
                    c,
                ) != Some(#[trigger] order[j])
        }),
{
    let order = seq![
        ProviderKind::Deno,
        ProviderKind::Gleam,
        ProviderKind::Elixir,
        ProviderKind::Rust,
        ProviderKind::Go,
        ProviderKind::Dotnet,
        ProviderKind::Java,
        ProviderKind::Ruby,
        ProviderKind::Php,
        ProviderKind::Python,
        ProviderKind::Node,
        ProviderKind::Cpp,
        ProviderKind::Shell,
        ProviderKind::Static,
    ];
    let ps = registry();
    assert forall|i: int, j: int|
        0 <= i < j < order.len() && (#[trigger] order[i]).detects(c) implies first_detecting(
        ps,
        c,
    ) != Some(#[trigger] order[j]) by {
        if first_detecting(ps, c) == Some(order[j]) {
            law_first_match_wins(ps, c);
            let k = choose|k: int|
                0 <= k < ps.len() && ps[k] == first_detecting(ps, c)->0 && forall|m: int|
                    0 <= m < k ==> !(#[trigger] ps[m]).detects(c);
            assert(ps[k] == order[j]);
            assert(ps[i] == order[i]);
            assert(k == j);
            assert(!ps[i].detects(c));
        }
    }
}

/// A Laravel app with the `package.json` its skeleton ships is planned as
/// PHP: with `composer.json` present, neither Python nor Node is chosen; and
/// a Python project is never planned by Node.
pub proof fn law_php_and_python_before_node(c: ContextView)
    ensures
        has(c.project, "composer.json"@) ==> first_detecting(registry(), c) != Some(
            ProviderKind::Node,
        ) && first_detecting(registry(), c) != Some(ProviderKind::Python),
        ProviderKind::Python.detects(c) ==> first_detecting(registry(), c) != Some(
            ProviderKind::Node,
        ),
{
    law_priority_order(c);
    let order = seq![
        ProviderKind::Deno,
        ProviderKind::Gleam,
        ProviderKind::Elixir,
        ProviderKind::Rust,
        ProviderKind::Go,
        ProviderKind::Dotnet,
        ProviderKind::Java,
        ProviderKind::Ruby,
        ProviderKind::Php,
        ProviderKind::Python,
        ProviderKind::Node,
        ProviderKind::Cpp,
        ProviderKind::Shell,
        ProviderKind::Static,
    ];
    assert(order[8] == ProviderKind::Php && order[9] == ProviderKind::Python && order[10]
        == ProviderKind::Node);
}

} // verus!

verus! {

/// Whether every `COPY --from` of `p` names a stage defined before the stage
/// that copies.
pub open spec fn copies_from_earlier_stages(p: PlanView) -> bool {
    forall|i: int, j: int|
        0 <= i < p.stages.len() && 0 <= j < p.stages[i].copy_from.len() ==> exists|m: int|
            0 <= m < i && (#[trigger] p.stages[m]).name == (#[trigger] p.stages[i].copy_from[j]).stage
}

/// Every plan a provider makes is buildable stage by stage: it has at least
/// one stage, the last one is the `runtime` stage the image runs, and every
/// `COPY --from` names a stage built before the one that copies.
pub proof fn law_plans_are_well_staged(k: ProviderKind, c: ContextView)
    requires
        k.plans(c) is Ok,
    ensures
        k.plans(c)->Ok_0.stages.len() > 0,
        k.plans(c)->Ok_0.stages.last().name == "runtime"@,
        copies_from_earlier_stages(k.plans(c)->Ok_0),
{
}

} // verus!
