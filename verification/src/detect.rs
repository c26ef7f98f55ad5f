//! The context of a project being analyzed, provider selection, and the
//! assembly of the final build plan from a provider's plan and the overrides.
use vstd::prelude::*;
use crate::config::KilnConfig;
use crate::error::{Error, ErrorView};
use crate::overrides::{BuildOverrides, OverridesView, layered, no_overrides};
use crate::plan::{
    BuildPlan, Command, CommandView, PlanView, Stage, StageView, build_index, command_views,
    lemma_build_index, opt_view, stage_views,
};
use crate::project::{
    ProjectFiles, ProjectView, extension, extension_of, has, joined, listing, text,
};
use crate::providers::{
    Provider, ProviderKind, cat, cat3, detecting_provider, find_provider, first_detecting,
    law_detecting_provider_is_chosen, law_nothing_detects, law_plan_names_its_provider, law_provider_errors_are_unsafe_values,
    law_unknown_name, one, outcome, owned, provider_named, registry, run, run_view,
    unsafe_view,
};
use crate::sanitize::{
    apt_package_ok, image_ref_ok, secret_id_ok, token_ok, validate_apt_package, validate_image_ref,
    validate_secret_id, validate_token,
};
use crate::text::{chars_of, contains_char, copy_strings, join, join_strings, same, trim, trimmed, views};

verus! {

/// Context for a project being analyzed.
#[derive(Debug)]
pub struct AppContext {
    /// Root path of the project
    pub root: String,
    /// User-supplied build-step overrides (empty by default).
    pub overrides: BuildOverrides,
    /// The project's files.
    pub project: ProjectFiles,
}

pub struct ContextView {
    pub root: Seq<char>,
    pub overrides: OverridesView,
    pub project: ProjectView,
}

impl View for AppContext {
    type V = ContextView;

    open spec fn view(&self) -> ContextView {
        ContextView { root: self.root@, overrides: self.overrides@, project: self.project@ }
    }
}

/// The error for a project root that does not exist.
pub open spec fn missing_root(root: Seq<char>) -> ErrorView {
    ErrorView::ReadFile { path: root, reason: "path does not exist"@ }
}

/// Whether a regular file directly in the root directory has extension `ext`.
pub open spec fn has_extension(p: ProjectView, ext: Seq<char>) -> bool {
    exists|i: int|
        0 <= i < listing(p.listings, "."@).len() && extension(
            #[trigger] listing(p.listings, "."@)[i],
        ) == Some(ext) && has(p, listing(p.listings, "."@)[i])
}

impl AppContext {
    /// Create a new app context for the project, without overrides.
    /// Fails when the project root does not exist.
    pub fn new(project: ProjectFiles) -> (r: Result<AppContext, Error>)
        ensures
            r is Ok <==> project@.exists,
            r matches Ok(c) ==> c@ == (ContextView {
                root: project@.root,
                overrides: no_overrides(),
                project: project@,
            }),
            r matches Err(e) ==> e@ == missing_root(project@.root),
    {
        AppContext::with_overrides(project, BuildOverrides::default())
    }

    /// Create a context with build-step overrides. Fails when the project
    /// root does not exist.
    pub fn with_overrides(project: ProjectFiles, overrides: BuildOverrides) -> (r: Result<
        AppContext,
        Error,
    >)
        ensures
            r is Ok <==> project@.exists,
            r matches Ok(c) ==> c@ == (ContextView {
                root: project@.root,
                overrides: overrides@,
                project: project@,
            }),
            r matches Err(e) ==> e@ == missing_root(project@.root),
    {
        if !project.exists {
            return Err(
                Error::ReadFile {
                    path: project.root,
                    reason: String::from_str("path does not exist"),
                },
            );
        }
        let root = project.root.clone();
        Ok(AppContext { root, overrides, project })
    }

    /// Check if a file exists relative to the project root.
    pub fn has_file(&self, name: &str) -> (b: bool)
        ensures
            b == has(self@.project, name@),
    {
        self.project.has_file(name)
    }

    /// Read a file relative to the project root. Fails when the file does
    /// not exist or is not text.
    pub fn read_file(&self, name: &str) -> (r: Result<String, Error>)
        ensures
            r is Ok <==> text(self@.project, name@) is Some,
            r matches Ok(s) ==> s@ == text(self@.project, name@)->0,
            r matches Err(e) ==> e@ == (ErrorView::ReadFile {
                path: joined(self@.project.root, name@),
                reason: "not a readable text file"@,
            }),
    {
        match self.project.text_of(name) {
            Some(s) => Ok(s.clone()),
            None => Err(
                Error::ReadFile {
                    path: self.project.join(name),
                    reason: String::from_str("not a readable text file"),
                },
            ),
        }
    }

    /// The entry names of a directory relative to the project root.
    pub fn list_files(&self, dir: &str) -> (r: Vec<String>)
        ensures
            views(r@) == listing(self@.project.listings, dir@),
    {
        let entries = self.project.entries_of(dir);
        let mut out: Vec<String> = Vec::new();
        let mut i: usize = 0;
        while i < entries.len()
            invariant
                i <= entries@.len(),
                views(out@) == views(entries@).take(i as int),
            decreases entries@.len() - i,
        {
            proof {
                crate::text::lemma_views_push(out@, entries@[i as int]);
                assert(views(entries@).take(i + 1) =~= views(entries@).take(i as int).push(
                    entries@[i as int]@,
                ));
            }
            out.push(entries[i].clone());
            i = i + 1;
        }
        assert(views(entries@).take(entries@.len() as int) =~= views(entries@));
        out
    }

    /// Check if any regular file in the root directory has the given extension.
    pub fn has_file_with_extension(&self, ext: &str) -> (b: bool)
        ensures
            b == has_extension(self@.project, ext@),
    {
        let entries = self.list_files(".");
        let e = chars_of(ext);
        let ghost l = listing(self@.project.listings, "."@);
        let mut i: usize = 0;
        while i < entries.len()
            invariant
                i <= entries@.len(),
                views(entries@) == l,
                l == listing(self@.project.listings, "."@),
                e@ == ext@,
                forall|j: int|
                    0 <= j < i ==> !(extension(#[trigger] l[j]) == Some(ext@) && has(
                        self@.project,
                        l[j],
                    )),
            decreases entries@.len() - i,
        {
            proof {
                assert(l[i as int] == entries@[i as int]@);
            }
            match extension_of(&chars_of(entries[i].as_str())) {
                Some(x) => {
                    if same(&x, &e) && self.has_file(entries[i].as_str()) {
                        assert(extension(l[i as int]) == Some(ext@));
                        return true;
                    }
                },
                None => {},
            }
            i = i + 1;
        }
        false
    }
}

} // verus!

verus! {

// ---------------------------------------------------------------------------
// Checks on user-supplied values

/// The first of `s` that fails `ok`.
pub open spec fn first_bad(s: Seq<Seq<char>>, ok: spec_fn(Seq<char>) -> bool) -> Option<Seq<char>>
    decreases s.len(),
{
    if s.len() == 0 {
        None
    } else if !ok(s[0]) {
        Some(s[0])
    } else {
        first_bad(s.drop_first(), ok)
    }
}

/// A build hook command: not blank, and on one line.
pub open spec fn hook_ok(cmd: Seq<char>) -> bool {
    trim(cmd).len() > 0 && !cmd.contains('\n') && !cmd.contains('\r')
}

/// The rules user-supplied lists are held to.
pub enum Rule {
    Hook,
    AptPackage,
    PathEntry,
    SecretId,
}

pub open spec fn rule_ok(rule: Rule, s: Seq<char>) -> bool {
    match rule {
        Rule::Hook => hook_ok(s),
        Rule::AptPackage => apt_package_ok(s),
        Rule::PathEntry => token_ok(s),
        Rule::SecretId => secret_id_ok(s),
    }
}

/// The field an error about `rule` names.
pub open spec fn rule_field(rule: Rule) -> Seq<char> {
    match rule {
        Rule::Hook => "build hook command"@,
        Rule::AptPackage => "apt package"@,
        Rule::PathEntry => "PATH entry"@,
        Rule::SecretId => "secret id"@,
    }
}

pub open spec fn first_breaking(s: Seq<Seq<char>>, rule: Rule) -> Option<Seq<char>> {
    first_bad(s, |x: Seq<char>| rule_ok(rule, x))
}

/// The error for the first value of `s` that breaks `rule`, if any.
pub open spec fn rule_error(s: Seq<Seq<char>>, rule: Rule) -> Option<ErrorView> {
    match first_breaking(s, rule) {
        Some(x) => Some(unsafe_view(rule_field(rule), x)),
        None => None,
    }
}

fn is_hook_ok(cmd: &str) -> (b: bool)
    ensures
        b == hook_ok(cmd@),
{
    let cs = chars_of(cmd);
    trimmed(&cs).len() > 0 && !contains_char(&cs, '\n') && !contains_char(&cs, '\r')
}

fn hook_error(cmd: &str) -> (e: Error)
    ensures
        e@ == unsafe_view("build hook command"@, cmd@),
{
    Error::UnsafeValue { field: "build hook command", value: owned(cmd) }
}

/// Check that every value keeps `rule`; the error names the first that does not.
fn check_each(values: &Vec<String>, rule: Rule) -> (r: Result<(), Error>)
    ensures
        match r {
            Ok(()) => rule_error(views(values@), rule) is None,
            Err(e) => rule_error(views(values@), rule) == Some(e@),
        },
{
    let ghost vs = views(values@);
    let mut i: usize = 0;
    assert(vs.skip(0) =~= vs);
    while i < values.len()
        invariant
            i <= values@.len(),
            vs == views(values@),
            first_breaking(vs, rule) == first_breaking(vs.skip(i as int), rule),
        decreases values@.len() - i,
    {
        proof {
            assert(vs.skip(i as int)[0] == values@[i as int]@);
            assert(vs.skip(i as int).drop_first() =~= vs.skip(i + 1));
        }
        let v = values[i].as_str();
        let checked = match rule {
            Rule::Hook => if is_hook_ok(v) {
                Ok(())
            } else {
                Err(hook_error(v))
            },
            Rule::AptPackage => validate_apt_package(v),
            Rule::PathEntry => validate_token("PATH entry", v),
            Rule::SecretId => validate_secret_id(v),
        };
        match checked {
            Ok(()) => {},
            Err(e) => {
                proof {
                    assert(!rule_ok(rule, vs[i as int]));
                }
                return Err(e);
            },
        }
        i = i + 1;
    }
    Ok(())
}

// ---------------------------------------------------------------------------
// Folding the overrides into a provider's plan

/// `p` with stage `i` replaced by `s`.
pub open spec fn with_stage(p: PlanView, i: int, s: StageView) -> PlanView {
    PlanView { stages: p.stages.update(i, s), ..p }
}

pub open spec fn plain_runs(cmds: Seq<Seq<char>>) -> Seq<CommandView> {
    cmds.map_values(|c: Seq<char>| run_view(c, Seq::empty()))
}

/// The hooks in place: `pre` ahead of the build stage's commands and `post`
/// after them, each its own command.
pub open spec fn hooked(p: PlanView, pre: Seq<Seq<char>>, post: Seq<Seq<char>>) -> PlanView {
    if (pre.len() == 0 && post.len() == 0) || p.stages.len() == 0 {
        p
    } else {
        let b = build_index(p.stages);
        let s = p.stages[b];
        with_stage(p, b, StageView { commands: plain_runs(pre) + s.commands + plain_runs(post), ..s })
    }
}

/// The command that installs `pkgs` with apt and clears the package lists.
pub open spec fn apt_run(pkgs: Seq<Seq<char>>) -> CommandView {
    run_view(
        "apt-get update && apt-get install -y --no-install-recommends "@ + join(pkgs, " "@)
            + " && rm -rf /var/lib/apt/lists/*"@,
        seq!["/var/cache/apt"@],
    )
}

/// `c` put first among the commands of stage `i`.
pub open spec fn prepended(p: PlanView, i: int, c: CommandView) -> PlanView {
    let s = p.stages[i];
    with_stage(p, i, StageView { commands: seq![c] + s.commands, ..s })
}

/// Build packages installed first in the first stage, deploy packages first
/// in the last stage.
pub open spec fn apt_applied(p: PlanView, build: Seq<Seq<char>>, deploy: Seq<Seq<char>>) -> PlanView {
    let p1 = if build.len() > 0 && p.stages.len() > 0 {
        prepended(p, 0, apt_run(build))
    } else {
        p
    };
    if deploy.len() > 0 && p1.stages.len() > 0 {
        prepended(p1, p1.stages.len() - 1, apt_run(deploy))
    } else {
        p1
    }
}

/// Stage `i` based on `image`.
pub open spec fn rebased(p: PlanView, i: int, image: Seq<char>) -> PlanView {
    with_stage(p, i, StageView { base_image: image, ..p.stages[i] })
}

/// The build image on the first stage, the runtime image on the last.
pub open spec fn images_applied(p: PlanView, build: Option<Seq<char>>, runtime: Option<Seq<char>>) -> PlanView {
    let p1 = match build {
        Some(i) => if p.stages.len() > 0 {
            rebased(p, 0, i)
        } else {
            p
        },
        None => p,
    };
    match runtime {
        Some(i) => if p1.stages.len() > 0 {
            rebased(p1, p1.stages.len() - 1, i)
        } else {
            p1
        },
        None => p1,
    }
}

/// The error for an unsafe image reference, if any.
pub open spec fn image_error(image: Option<Seq<char>>) -> Option<ErrorView> {
    match image {
        Some(i) => if image_ref_ok(i) {
            None
        } else {
            Some(unsafe_view("base image"@, i))
        },
        None => None,
    }
}

/// A provider's plan `p` with the overrides `o` folded in, or the first
/// error met: the port and environment, then the build hooks, the apt
/// packages, the base images, the `PATH` entries and the secrets.
pub open spec fn finished(p: PlanView, o: OverridesView) -> Result<PlanView, ErrorView> {
    let p1 = PlanView { port: if o.port is Some { o.port } else { p.port }, env: o.env, ..p };
    let hook_err = match rule_error(o.pre_build, Rule::Hook) {
        Some(e) => Some(e),
        None => rule_error(o.post_build, Rule::Hook),
    };
    if (o.pre_build.len() > 0 || o.post_build.len() > 0) && hook_err is Some {
        Err(hook_err->0)
    } else if rule_error(o.build_apt_packages, Rule::AptPackage) is Some {
        Err(rule_error(o.build_apt_packages, Rule::AptPackage)->0)
    } else if rule_error(o.deploy_apt_packages, Rule::AptPackage) is Some {
        Err(rule_error(o.deploy_apt_packages, Rule::AptPackage)->0)
    } else if image_error(o.build_image) is Some {
        Err(image_error(o.build_image)->0)
    } else if image_error(o.runtime_image) is Some {
        Err(image_error(o.runtime_image)->0)
    } else if rule_error(o.paths, Rule::PathEntry) is Some {
        Err(rule_error(o.paths, Rule::PathEntry)->0)
    } else if rule_error(o.secrets, Rule::SecretId) is Some {
        Err(rule_error(o.secrets, Rule::SecretId)->0)
    } else {
        let p2 = hooked(p1, o.pre_build, o.post_build);
        let p3 = apt_applied(p2, o.build_apt_packages, o.deploy_apt_packages);
        let p4 = images_applied(p3, o.build_image, o.runtime_image);
        Ok(PlanView { paths: o.paths, secrets: o.secrets, ..p4 })
    }
}

/// The overrides with a configuration file's fields filling their gaps.
pub open spec fn merged(config: Option<OverridesView>, o: OverridesView) -> OverridesView {
    match config {
        Some(k) => layered(o, k),
        None => o,
    }
}

pub open spec fn config_view(config: Option<KilnConfig>) -> Option<OverridesView> {
    match config {
        Some(k) => Some(k@),
        None => None,
    }
}

pub open spec fn context_of(p: ProjectView, o: OverridesView) -> ContextView {
    ContextView { root: p.root, overrides: o, project: p }
}

/// The plan of the configured provider, else of the first that detects the
/// project.
pub open spec fn provider_plan(c: ContextView) -> Result<PlanView, ErrorView> {
    match c.overrides.provider {
        Some(name) => match provider_named(registry(), name) {
            Some(p) => p.plans(c),
            None => Err(ErrorView::Provider("unknown provider: "@ + name)),
        },
        None => match first_detecting(registry(), c) {
            Some(p) => p.plans(c),
            None => Err(ErrorView::NoProviderDetected(c.root)),
        },
    }
}

/// Detection and planning of a project under the overrides `o`.
pub open spec fn planned(project: ProjectView, o: OverridesView) -> Result<PlanView, ErrorView> {
    if !project.exists {
        Err(missing_root(project.root))
    } else {
        match provider_plan(context_of(project, o)) {
            Err(e) => Err(e),
            Ok(p) => finished(p, o),
        }
    }
}

/// The name of the provider that detects the project, if any.
pub open spec fn detected(project: ProjectView) -> Option<Seq<char>> {
    match first_detecting(registry(), context_of(project, no_overrides())) {
        Some(p) => Some(p.spec_name()),
        None => None,
    }
}

fn plain_commands(cmds: &Vec<String>) -> (r: Vec<Command>)
    ensures
        command_views(r@) == plain_runs(views(cmds@)),
{
    let mut r: Vec<Command> = Vec::new();
    let mut i: usize = 0;
    while i < cmds.len()
        invariant
            i <= cmds@.len(),
            command_views(r@) == plain_runs(views(cmds@)).take(i as int),
        decreases cmds@.len() - i,
    {
        let c = crate::providers::run_plain(cmds[i].clone());
        let ghost before = r@;
        r.push(c);
        proof {
            assert(command_views(r@) =~= command_views(before).push(c@));
            assert(plain_runs(views(cmds@)).take(i + 1) =~= plain_runs(views(cmds@)).take(
                i as int,
            ).push(run_view(cmds@[i as int]@, Seq::empty())));
        }
        i = i + 1;
    }
    assert(plain_runs(views(cmds@)).take(cmds@.len() as int) =~= plain_runs(views(cmds@)));
    r
}

/// Take stage `i` out of the plan, to be put back with `put_stage`.
fn take_stage(plan: &mut BuildPlan, i: usize) -> (s: Stage)
    requires
        i < old(plan)@.stages.len(),
    ensures
        s@ == old(plan)@.stages[i as int],
        final(plan)@ == (PlanView { stages: old(plan)@.stages.remove(i as int), ..old(plan)@ }),
{
    let s = plan.stages.remove(i);
    proof {
        assert(stage_views(plan.stages@) =~= old(plan)@.stages.remove(i as int));
    }
    s
}

fn put_stage(plan: &mut BuildPlan, i: usize, s: Stage)
    requires
        i <= old(plan)@.stages.len(),
    ensures
        final(plan)@ == (PlanView { stages: old(plan)@.stages.insert(i as int, s@), ..old(plan)@ }),
{
    let ghost v = s@;
    plan.stages.insert(i, s);
    proof {
        assert(stage_views(plan.stages@) =~= old(plan)@.stages.insert(i as int, v));
    }
}

/// Insert user build hooks into the build stage (the stage named `build`,
/// else the first): `pre` commands run before the provider's own steps,
/// `post` commands after, each its own `RUN` line.
/// A command may not be blank or contain a newline, which would split the line.
fn apply_build_hooks(plan: &mut BuildPlan, pre: &Vec<String>, post: &Vec<String>) -> (r: Result<(), Error>)
    ensures
        ({
            let err = match rule_error(views(pre@), Rule::Hook) {
                Some(e) => Some(e),
                None => rule_error(views(post@), Rule::Hook),
            };
            match r {
                Ok(()) => ((pre@.len() > 0 || post@.len() > 0) ==> err is None) && final(plan)@
                    == hooked(old(plan)@, views(pre@), views(post@)),
                Err(e) => (pre@.len() > 0 || post@.len() > 0) && err == Some(e@) && final(plan)@
                    == old(plan)@,
            }
        }),
{
    if pre.len() == 0 && post.len() == 0 {
        return Ok(());
    }
    if let Err(e) = check_each(pre, Rule::Hook) {
        return Err(e);
    }
    if let Err(e) = check_each(post, Rule::Hook) {
        return Err(e);
    }
    if plan.stages.len() > 0 {
        let ghost p0 = plan@;
        let b = plan.build_stage_index();
        proof {
            lemma_build_index(p0.stages);
        }
        let stage = take_stage(plan, b);
        let Stage { name, base_image, workdir, commands, copy_files, copy_from } = stage;
        let ghost old_cmds = command_views(commands@);
        let mut cmds = plain_commands(pre);
        let ghost pre_cmds = command_views(cmds@);
        let mut rest = commands;
        cmds.append(&mut rest);
        let mut tail = plain_commands(post);
        let ghost mid = cmds@;
        cmds.append(&mut tail);
        proof {
            assert(command_views(mid) =~= pre_cmds + old_cmds);
            assert(command_views(cmds@) =~= plain_runs(views(pre@)) + old_cmds + plain_runs(
                views(post@),
            ));
        }
        let hooked_stage = Stage { name, base_image, workdir, commands: cmds, copy_files, copy_from };
        put_stage(plan, b, hooked_stage);
        proof {
            assert(plan@.stages =~= p0.stages.update(
                b as int,
                StageView {
                    commands: plain_runs(views(pre@)) + p0.stages[b as int].commands + plain_runs(
                        views(post@),
                    ),
                    ..p0.stages[b as int]
                },
            ));
        }
    }
    Ok(())
}

/// Put `cmd` first among the commands of stage `i`.
fn prepend_command(plan: &mut BuildPlan, i: usize, cmd: Command)
    requires
        i < old(plan)@.stages.len(),
    ensures
        final(plan)@ == prepended(old(plan)@, i as int, cmd@),
{
    let ghost p0 = plan@;
    let stage = take_stage(plan, i);
    let Stage { name, base_image, workdir, commands, copy_files, copy_from } = stage;
    let ghost old_cmds = command_views(commands@);
    let ghost c = cmd@;
    let mut cmds = commands;
    cmds.insert(0, cmd);
    proof {
        assert(command_views(cmds@) =~= seq![c] + old_cmds);
    }
    put_stage(plan, i, Stage { name, base_image, workdir, commands: cmds, copy_files, copy_from });
    proof {
        assert(plan@.stages =~= p0.stages.update(
            i as int,
            StageView { commands: seq![c] + p0.stages[i as int].commands, ..p0.stages[i as int] },
        ));
    }
}

/// Base stage `i` on `image`.
fn set_base_image(plan: &mut BuildPlan, i: usize, image: String)
    requires
        i < old(plan)@.stages.len(),
    ensures
        final(plan)@ == rebased(old(plan)@, i as int, image@),
{
    let ghost p0 = plan@;
    let stage = take_stage(plan, i);
    let Stage { name, base_image, workdir, commands, copy_files, copy_from } = stage;
    let ghost v = image@;
    put_stage(plan, i, Stage { name, base_image: image, workdir, commands, copy_files, copy_from });
    proof {
        assert(plan@.stages =~= p0.stages.update(
            i as int,
            StageView { base_image: v, ..p0.stages[i as int] },
        ));
    }
}

/// The validated `apt-get install` command for a package list: `update`
/// and clearing `/var/lib/apt/lists` bracket the install so the layer is
/// self-contained.
fn apt_command(packages: &Vec<String>) -> (r: Result<Command, Error>)
    ensures
        match r {
            Ok(c) => rule_error(views(packages@), Rule::AptPackage) is None && c@ == apt_run(
                views(packages@),
            ),
            Err(e) => rule_error(views(packages@), Rule::AptPackage) == Some(e@),
        },
{
    if let Err(e) = check_each(packages, Rule::AptPackage) {
        return Err(e);
    }
    let list = join_strings(packages, " ");
    Ok(
        run(
            cat3(
                "apt-get update && apt-get install -y --no-install-recommends ",
                list.as_str(),
                " && rm -rf /var/lib/apt/lists/*",
            ),
            one("/var/cache/apt"),
        ),
    )
}

/// Install user-requested apt packages: build packages first in the first
/// stage, runtime packages first in the last stage.
fn apply_apt_packages(plan: &mut BuildPlan, build: &Vec<String>, deploy: &Vec<String>) -> (r: Result<
    (),
    Error,
>)
    ensures
        match r {
            Ok(()) => rule_error(views(build@), Rule::AptPackage) is None && rule_error(
                views(deploy@),
                Rule::AptPackage,
            ) is None && final(plan)@ == apt_applied(old(plan)@, views(build@), views(deploy@)),
            Err(e) => match rule_error(views(build@), Rule::AptPackage) {
                Some(b) => e@ == b,
                None => rule_error(views(deploy@), Rule::AptPackage) == Some(e@),
            },
        },
{
    if build.len() > 0 {
        let command = match apt_command(build) {
            Ok(c) => c,
            Err(e) => return Err(e),
        };
        if plan.stages.len() > 0 {
            prepend_command(plan, 0, command);
        }
    } else {
        assert(rule_error(views(build@), Rule::AptPackage) is None);
    }
    if deploy.len() > 0 {
        let command = match apt_command(deploy) {
            Ok(c) => c,
            Err(e) => return Err(e),
        };
        if plan.stages.len() > 0 {
            let last = plan.stages.len() - 1;
            prepend_command(plan, last, command);
        }
    } else {
        assert(rule_error(views(deploy@), Rule::AptPackage) is None);
    }
    Ok(())
}

/// Override the build and/or runtime base images with validated references:
/// the build image applies to the first stage, the runtime image to the last.
fn apply_base_images(plan: &mut BuildPlan, build_image: Option<String>, runtime_image: Option<String>) -> (r:
    Result<(), Error>)
    ensures
        match r {
            Ok(()) => image_error(opt_view(build_image)) is None && image_error(
                opt_view(runtime_image),
            ) is None && final(plan)@ == images_applied(
                old(plan)@,
                opt_view(build_image),
                opt_view(runtime_image),
            ),
            Err(e) => match image_error(opt_view(build_image)) {
                Some(b) => e@ == b,
                None => image_error(opt_view(runtime_image)) == Some(e@),
            },
        },
{
    if let Some(image) = build_image {
        if let Err(e) = validate_image_ref(image.as_str()) {
            return Err(e);
        }
        if plan.stages.len() > 0 {
            set_base_image(plan, 0, image);
        }
    }
    if let Some(image) = runtime_image {
        if let Err(e) = validate_image_ref(image.as_str()) {
            return Err(e);
        }
        if plan.stages.len() > 0 {
            let last = plan.stages.len() - 1;
            set_base_image(plan, last, image);
        }
    }
    Ok(())
}

fn copy_opt(s: &Option<String>) -> (r: Option<String>)
    ensures
        opt_view(r) == opt_view(*s),
{
    match s {
        Some(v) => Some(v.clone()),
        None => None,
    }
}

/// Detect the project language and generate a build plan.
///
/// Tries each registered provider in priority order and returns the plan
/// from the first matching provider; `config` is the project's `kiln.json`
/// / `kiln.toml`, when it has one.
pub fn detect_and_plan(project: ProjectFiles, config: Option<KilnConfig>) -> (r: Result<
    BuildPlan,
    Error,
>)
    ensures
        outcome(r) == planned(project@, merged(config_view(config), no_overrides())),
{
    detect_and_plan_with(project, config, BuildOverrides::default())
}

/// Detect the project language and generate a build plan, applying
/// user-supplied build-step overrides. The configuration file fills any field
/// the overrides leave unset, so an explicit flag always wins over the file.
pub fn detect_and_plan_with(project: ProjectFiles, config: Option<KilnConfig>, overrides: BuildOverrides) -> (r:
    Result<BuildPlan, Error>)
    ensures
        outcome(r) == planned(project@, merged(config_view(config), overrides@)),
{
    let ghost o = merged(config_view(config), overrides@);
    let overrides = match config {
        Some(k) => k.merge_into(overrides),
        None => overrides,
    };
    assert(overrides@ == o);
    let forced_provider = copy_opt(&overrides.provider);
    let port_override = overrides.port;
    let env = overrides.env.duplicate();
    let build_apt = copy_strings(&overrides.build_apt_packages);
    let deploy_apt = copy_strings(&overrides.deploy_apt_packages);
    let runtime_image = copy_opt(&overrides.runtime_image);
    let build_image = copy_opt(&overrides.build_image);
    let paths = copy_strings(&overrides.paths);
    let secrets = copy_strings(&overrides.secrets);
    let pre_build = copy_strings(&overrides.pre_build);
    let post_build = copy_strings(&overrides.post_build);
    let ghost pv = project@;
    let ctx = match AppContext::with_overrides(project, overrides) {
        Ok(c) => c,
        Err(e) => return Err(e),
    };
    assert(ctx@ == context_of(pv, o));
    let planned_by = match forced_provider {
        Some(name) => match find_provider(name.as_str()) {
            Some(p) => p.plan(&ctx),
            None => Err(Error::Provider(cat("unknown provider: ", name.as_str()))),
        },
        None => match detecting_provider(&ctx) {
            Some(p) => p.plan(&ctx),
            None => Err(Error::NoProviderDetected(ctx.root.clone())),
        },
    };
    assert(outcome(planned_by) == provider_plan(ctx@));
    let mut plan = match planned_by {
        Ok(p) => p,
        Err(e) => return Err(e),
    };
    let ghost p0 = plan@;
    if let Some(port) = port_override {
        plan.port = Some(port);
    }
    plan.env = env;
    let ghost p1 = plan@;
    assert(p1 == (PlanView { port: if o.port is Some { o.port } else { p0.port }, env: o.env, ..p0 }));
    // Hooks first, then apt: apt goes in front of the first stage, so where
    // that is the build stage the order is [apt, pre_build, provider, post_build].
    if let Err(e) = apply_build_hooks(&mut plan, &pre_build, &post_build) {
        return Err(e);
    }
    if let Err(e) = apply_apt_packages(&mut plan, &build_apt, &deploy_apt) {
        return Err(e);
    }
    if let Err(e) = apply_base_images(&mut plan, build_image, runtime_image) {
        return Err(e);
    }
    if let Err(e) = check_each(&paths, Rule::PathEntry) {
        return Err(e);
    }
    plan.paths = paths;
    if let Err(e) = check_each(&secrets, Rule::SecretId) {
        return Err(e);
    }
    plan.secrets = secrets;
    assert(outcome(Ok::<BuildPlan, Error>(plan)) == finished(p0, o));
    Ok(plan)
}

/// Detect the project language without generating a plan: the name of the
/// first provider that matches. Fails when the project root does not exist.
pub fn detect(project: ProjectFiles) -> (r: Result<Option<String>, Error>)
    ensures
        r is Ok <==> project@.exists,
        r matches Ok(n) ==> opt_view(n) == detected(project@),
        r matches Err(e) ==> e@ == missing_root(project@.root),
{
    let ghost pv = project@;
    let ctx = match AppContext::new(project) {
        Ok(c) => c,
        Err(e) => return Err(e),
    };
    assert(ctx@ == context_of(pv, no_overrides()));
    match detecting_provider(&ctx) {
        Some(p) => Ok(Some(owned(p.name()))),
        None => Ok(None),
    }
}

} // verus!

verus! {

// ---------------------------------------------------------------------------
// Laws of planning

proof fn lemma_none_bad_all_ok(s: Seq<Seq<char>>, rule: Rule)
    requires
        first_breaking(s, rule) is None,
    ensures
        forall|i: int| 0 <= i < s.len() ==> rule_ok(rule, #[trigger] s[i]),
    decreases s.len(),
{
    if s.len() > 0 {
        let d = s.drop_first();
        assert(first_breaking(d, rule) == first_breaking(s, rule));
        lemma_none_bad_all_ok(d, rule);
        assert forall|i: int| 0 <= i < s.len() implies rule_ok(rule, #[trigger] s[i]) by {
            if i > 0 {
                assert(s[i] == d[i - 1]);
            }
        }
    }
}

/// What an accepted plan holds of the overrides: their port (when set) and
/// environment, and their `PATH` entries and secrets, every one of which is
/// safe; a runtime image lands on the last stage and a build image on the
/// first, both safe.
pub proof fn law_accepted_overrides_are_safe(p: PlanView, o: OverridesView)
    requires
        finished(p, o) is Ok,
    ensures
        ({
            let q = finished(p, o)->Ok_0;
            &&& q.provider == p.provider
            &&& q.stages.len() == p.stages.len()
            &&& q.start_command == p.start_command
            &&& q.port == (if o.port is Some {
                o.port
            } else {
                p.port
            })
            &&& q.env == o.env
            &&& q.paths == o.paths
            &&& q.secrets == o.secrets
            &&& forall|i: int| 0 <= i < q.paths.len() ==> token_ok(#[trigger] q.paths[i])
            &&& forall|i: int| 0 <= i < q.secrets.len() ==> secret_id_ok(#[trigger] q.secrets[i])
            &&& forall|i: int|
                0 <= i < o.build_apt_packages.len() ==> apt_package_ok(
                    #[trigger] o.build_apt_packages[i],
                )
            &&& forall|i: int|
                0 <= i < o.deploy_apt_packages.len() ==> apt_package_ok(
                    #[trigger] o.deploy_apt_packages[i],
                )
            &&& (o.build_image matches Some(i) ==> image_ref_ok(i) && (p.stages.len() > 0 && (
            p.stages.len() > 1 || o.runtime_image is None) ==> q.stages[0].base_image == i))
            &&& (o.runtime_image matches Some(i) ==> image_ref_ok(i) && (p.stages.len() > 0
                ==> q.stages[q.stages.len() - 1].base_image == i))
        }),
{
    lemma_none_bad_all_ok(o.paths, Rule::PathEntry);
    lemma_none_bad_all_ok(o.secrets, Rule::SecretId);
    lemma_none_bad_all_ok(o.build_apt_packages, Rule::AptPackage);
    lemma_none_bad_all_ok(o.deploy_apt_packages, Rule::AptPackage);
    let p1 = PlanView { port: if o.port is Some { o.port } else { p.port }, env: o.env, ..p };
    let p2 = hooked(p1, o.pre_build, o.post_build);
    let p3 = apt_applied(p2, o.build_apt_packages, o.deploy_apt_packages);
    let p4 = images_applied(p3, o.build_image, o.runtime_image);
    assert(p2.stages.len() == p.stages.len());
    assert(p3.stages.len() == p.stages.len());
    assert(p4.stages.len() == p.stages.len());
    assert(p4.provider == p.provider && p4.port == p1.port && p4.env == o.env);
    assert(p4.start_command == p.start_command);
}

/// The order of the build stage's commands: the build apt install (which
/// goes to the first stage), the pre-build hooks, the provider's own
/// commands, then the post-build hooks (when the runtime packages go to
/// another stage).
pub proof fn law_build_order(p: PlanView, o: OverridesView)
    requires
        finished(p, o) is Ok,
        p.stages.len() > 0,
        o.deploy_apt_packages.len() == 0 || build_index(p.stages) != p.stages.len() - 1,
    ensures
        ({
            let b = build_index(p.stages);
            finished(p, o)->Ok_0.stages[b].commands == (if b == 0 && o.build_apt_packages.len() > 0 {
                seq![apt_run(o.build_apt_packages)]
            } else {
                Seq::empty()
            }) + plain_runs(o.pre_build) + p.stages[b].commands + plain_runs(o.post_build)
        }),
{
    lemma_build_index(p.stages);
    let b = build_index(p.stages);
    let p1 = PlanView { port: if o.port is Some { o.port } else { p.port }, env: o.env, ..p };
    assert(p1.stages == p.stages);
    let p2 = hooked(p1, o.pre_build, o.post_build);
    assert(p2.stages[b].commands =~= plain_runs(o.pre_build) + p.stages[b].commands + plain_runs(
        o.post_build,
    ));
    let p3 = apt_applied(p2, o.build_apt_packages, o.deploy_apt_packages);
    if b == 0 && o.build_apt_packages.len() > 0 {
        assert(p3.stages[b].commands =~= seq![apt_run(o.build_apt_packages)] + p2.stages[b].commands);
    } else {
        assert(p3.stages[b].commands =~= Seq::<CommandView>::empty() + p2.stages[b].commands);
    }
    let p4 = images_applied(p3, o.build_image, o.runtime_image);
    assert(p4.stages[b].commands == p3.stages[b].commands);
}

/// Detection only reads the project's files, never the overrides.
proof fn lemma_detection_ignores_overrides(ps: Seq<ProviderKind>, p: ProjectView, a: OverridesView, b: OverridesView)
    ensures
        first_detecting(ps, context_of(p, a)) == first_detecting(ps, context_of(p, b)),
    decreases ps.len(),
{
    if ps.len() > 0 {
        assert(ps[0].detects(context_of(p, a)) == ps[0].detects(context_of(p, b)));
        lemma_detection_ignores_overrides(ps.drop_first(), p, a, b);
    }
}

/// `detect` names the first provider in priority order that detects the
/// project (read with no overrides), and nothing exactly when none does.
pub proof fn law_detect_is_first_match(project: ProjectView)
    ensures
        detected(project) is None <==> forall|i: int|
            0 <= i < registry().len() ==> !(#[trigger] registry()[i]).detects(
                context_of(project, no_overrides()),
            ),
        forall|i: int|
            0 <= i < registry().len() && (#[trigger] registry()[i]).detects(
                context_of(project, no_overrides()),
            ) && (forall|j: int|
                0 <= j < i ==> !(#[trigger] registry()[j]).detects(
                    context_of(project, no_overrides()),
                )) ==> detected(project) == Some(registry()[i].spec_name()),
{
    let c = context_of(project, no_overrides());
    law_nothing_detects(registry(), c);
    assert forall|i: int|
        0 <= i < registry().len() && (#[trigger] registry()[i]).detects(c) && (forall|j: int|
            0 <= j < i ==> !(#[trigger] registry()[j]).detects(c)) implies detected(project)
        == Some(registry()[i].spec_name()) by {
        law_detecting_provider_is_chosen(registry(), c, i);
    }
}

/// `detect` and planning agree: when no provider is forced, a plan comes
/// from the provider `detect` names.
pub proof fn law_detect_agrees_with_plan(project: ProjectView, o: OverridesView)
    requires
        o.provider is None,
        planned(project, o) is Ok,
    ensures
        detected(project) == Some(planned(project, o)->Ok_0.provider),
{
    let c = context_of(project, o);
    lemma_detection_ignores_overrides(registry(), project, o, no_overrides());
    let k = first_detecting(registry(), c)->0;
    law_plan_names_its_provider(k, c);
    law_accepted_overrides_are_safe(k.plans(c)->Ok_0, o);
}

} // verus!

verus! {

proof fn lemma_finished_errors_are_unsafe_values(p: PlanView, o: OverridesView)
    requires
        finished(p, o) is Err,
    ensures
        finished(p, o)->Err_0 is UnsafeValue,
{
}

/// The two planning errors about providers come exactly when they should:
/// an unknown provider name is refused iff no registered provider has that
/// name, and "no provider detected" comes iff no registered provider detects
/// the project.
pub proof fn law_provider_errors(project: ProjectView, o: OverridesView)
    requires
        project.exists,
    ensures
        o.provider matches Some(n) ==> (planned(project, o) == Err::<PlanView, ErrorView>(
            ErrorView::Provider("unknown provider: "@ + n),
        ) <==> forall|i: int|
            0 <= i < registry().len() ==> (#[trigger] registry()[i]).spec_name() != n),
        o.provider is None ==> (planned(project, o) == Err::<PlanView, ErrorView>(
            ErrorView::NoProviderDetected(project.root),
        ) <==> forall|i: int|
            0 <= i < registry().len() ==> !(#[trigger] registry()[i]).detects(
                context_of(project, o),
            )),
{
    let c = context_of(project, o);
    match o.provider {
        Some(n) => {
            law_unknown_name(registry(), n);
            if let Some(k) = provider_named(registry(), n) {
                if k.plans(c) is Err {
                    law_provider_errors_are_unsafe_values(k, c);
                } else {
                    if finished(k.plans(c)->Ok_0, o) is Err {
                        lemma_finished_errors_are_unsafe_values(k.plans(c)->Ok_0, o);
                    }
                }
            }
        },
        None => {
            law_nothing_detects(registry(), c);
            if let Some(k) = first_detecting(registry(), c) {
                if k.plans(c) is Err {
                    law_provider_errors_are_unsafe_values(k, c);
                } else {
                    if finished(k.plans(c)->Ok_0, o) is Err {
                        lemma_finished_errors_are_unsafe_values(k.plans(c)->Ok_0, o);
                    }
                }
            }
        },
    }
}

} // verus!
