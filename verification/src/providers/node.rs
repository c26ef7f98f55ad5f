//! Node.js projects: package manager, build script, static-export frameworks
//! and the three-stage (deps / build / runtime) plan.
use vstd::prelude::*;
use crate::detect::{AppContext, ContextView};
use crate::error::{Error, ErrorView};
use crate::plan::{
    BuildPlan, CommandView, CopyFrom, CopyFromView, PlanView, Stage, StageView, command_views,
    copy_from_views,
};
use crate::project::{has, text};
use crate::providers::versions::{
    chosen_version, file_version, resolve_version, str_views, tool_files_version, version_from_file,
    version_from_tool_files,
};
use crate::providers::{
    Provider, cat, cat3, commands1, copies1, copy, copy_all, copy_all_view, copy_from, copy_view,
    from_view, froms1, froms2, json_in, json_in_file, no_commands, no_copies, no_froms, one,
    owned, plan, plan_view, run, run_plain, run_view, stage, stage_view, stages2, stages3,
    two, unsafe_view,
};
use crate::sanitize::{token_ok, validate_token};
use crate::structured::{Found, FoundView, json_at, json_keys_at, json_member_names, json_lookup};
use crate::text::{
    chars_of, contains, contains_seq, has_prefix, is_digit, is_digit_char, is_ws, is_ws_char,
    lower, lower_of, same, starts_with, trim, trimmed, views,
};
use crate::overrides::{all_digits, digits_value};

verus! {

/// The JavaScript package manager a project uses.
#[derive(Clone, Copy, PartialEq, Eq, Structural)]
pub enum PackageManager {
    Npm,
    Yarn,
    Pnpm,
    Bun,
}

/// The package manager a user-supplied name selects (trimmed, ASCII case ignored).
pub open spec fn pm_named(s: Seq<char>) -> Option<PackageManager> {
    let l = lower(trim(s));
    if l == "npm"@ {
        Some(PackageManager::Npm)
    } else if l == "yarn"@ {
        Some(PackageManager::Yarn)
    } else if l == "pnpm"@ {
        Some(PackageManager::Pnpm)
    } else if l == "bun"@ {
        Some(PackageManager::Bun)
    } else {
        None
    }
}

pub open spec fn pm_install(pm: PackageManager, has_lock: bool) -> Seq<char> {
    match pm {
        PackageManager::Npm => if has_lock {
            "npm ci"@
        } else {
            "npm install"@
        },
        PackageManager::Yarn => if has_lock {
            "yarn install --frozen-lockfile"@
        } else {
            "yarn install"@
        },
        PackageManager::Pnpm => if has_lock {
            "pnpm install --frozen-lockfile"@
        } else {
            "pnpm install"@
        },
        PackageManager::Bun => "bun install"@,
    }
}

pub open spec fn pm_setup(pm: PackageManager) -> Option<Seq<char>> {
    match pm {
        PackageManager::Npm => None,
        PackageManager::Yarn => Some("corepack enable"@),
        PackageManager::Pnpm => Some("corepack enable"@),
        PackageManager::Bun => Some("npm install -g bun"@),
    }
}

/// `cmd` preceded by the package manager's setup, when it needs one.
pub open spec fn pm_with_setup(pm: PackageManager, cmd: Seq<char>) -> Seq<char> {
    match pm_setup(pm) {
        Some(setup) => setup + " && "@ + cmd,
        None => cmd,
    }
}

pub open spec fn pm_prefix(pm: PackageManager) -> Seq<char> {
    match pm {
        PackageManager::Npm => "npm"@,
        PackageManager::Yarn => "yarn"@,
        PackageManager::Pnpm => "pnpm"@,
        PackageManager::Bun => "bun"@,
    }
}

pub open spec fn pm_locks(pm: PackageManager) -> Seq<Seq<char>> {
    match pm {
        PackageManager::Npm => seq!["package-lock.json"@],
        PackageManager::Yarn => seq!["yarn.lock"@],
        PackageManager::Pnpm => seq!["pnpm-lock.yaml"@],
        PackageManager::Bun => seq!["bun.lockb"@, "bun.lock"@],
    }
}

pub open spec fn pm_glob(pm: PackageManager) -> Seq<char> {
    match pm {
        PackageManager::Npm => "package-lock.json*"@,
        PackageManager::Yarn => "yarn.lock*"@,
        PackageManager::Pnpm => "pnpm-lock.yaml*"@,
        PackageManager::Bun => "bun.lock*"@,
    }
}

pub open spec fn pm_cache(pm: PackageManager) -> Seq<Seq<char>> {
    match pm {
        PackageManager::Npm => seq!["/root/.npm"@],
        PackageManager::Yarn => seq!["/usr/local/share/.cache/yarn"@],
        PackageManager::Pnpm => seq!["/root/.local/share/pnpm/store"@],
        PackageManager::Bun => seq!["/root/.bun/install/cache"@],
    }
}

/// Whether a lockfile of `pm` is committed in the project.
pub open spec fn pm_has_lock(c: ContextView, pm: PackageManager) -> bool {
    exists|i: int| 0 <= i < pm_locks(pm).len() && has(c.project, #[trigger] pm_locks(pm)[i])
}

impl PackageManager {
    /// Parse a user-supplied package-manager override; unknown values fall back
    /// to lockfile detection.
    pub fn parse(s: &str) -> (r: Option<PackageManager>)
        ensures
            r == pm_named(s@),
    {
        let l = lower_of(&trimmed(&chars_of(s)));
        if same(&l, &chars_of("npm")) {
            Some(PackageManager::Npm)
        } else if same(&l, &chars_of("yarn")) {
            Some(PackageManager::Yarn)
        } else if same(&l, &chars_of("pnpm")) {
            Some(PackageManager::Pnpm)
        } else if same(&l, &chars_of("bun")) {
            Some(PackageManager::Bun)
        } else {
            None
        }
    }

    /// Install command for this package manager. With a committed lockfile use
    /// the reproducible/frozen install; without one fall back to the plain
    /// install (npm ci and --frozen-lockfile both hard-fail with no lockfile).
    pub fn install_command(&self, has_lock: bool) -> (r: String)
        ensures
            r@ == pm_install(*self, has_lock),
    {
        match self {
            PackageManager::Npm => if has_lock {
                owned("npm ci")
            } else {
                owned("npm install")
            },
            PackageManager::Yarn => if has_lock {
                owned("yarn install --frozen-lockfile")
            } else {
                owned("yarn install")
            },
            PackageManager::Pnpm => if has_lock {
                owned("pnpm install --frozen-lockfile")
            } else {
                owned("pnpm install")
            },
            PackageManager::Bun => owned("bun install"),
        }
    }

    /// Make this package manager available before it is invoked: corepack
    /// provisions pnpm/yarn, bun is installed from npm, npm ships with node.
    pub fn setup_command(&self) -> (r: Option<&'static str>)
        ensures
            match r {
                Some(s) => pm_setup(*self) == Some(s@),
                None => pm_setup(*self) is None,
            },
    {
        match self {
            PackageManager::Npm => None,
            PackageManager::Yarn => Some("corepack enable"),
            PackageManager::Pnpm => Some("corepack enable"),
            PackageManager::Bun => Some("npm install -g bun"),
        }
    }

    /// Prefix `cmd` with the package-manager setup when one is needed.
    pub fn with_setup(&self, cmd: String) -> (r: String)
        ensures
            r@ == pm_with_setup(*self, cmd@),
    {
        match self.setup_command() {
            Some(setup) => {
                let mut r = cat(setup, " && ");
                r.append(cmd.as_str());
                r
            },
            None => cmd,
        }
    }

    pub fn run_prefix(&self) -> (r: &'static str)
        ensures
            r@ == pm_prefix(*self),
    {
        match self {
            PackageManager::Npm => "npm",
            PackageManager::Yarn => "yarn",
            PackageManager::Pnpm => "pnpm",
            PackageManager::Bun => "bun",
        }
    }

    /// Concrete lockfile names to test for presence (no globs).
    pub fn lock_file_names(&self) -> (r: Vec<&'static str>)
        ensures
            str_views(r@) == pm_locks(*self),
    {
        let r = match self {
            PackageManager::Npm => vec!["package-lock.json"],
            PackageManager::Yarn => vec!["yarn.lock"],
            PackageManager::Pnpm => vec!["pnpm-lock.yaml"],
            PackageManager::Bun => vec!["bun.lockb", "bun.lock"],
        };
        assert(str_views(r@) =~= pm_locks(*self));
        r
    }

    /// Whether a committed lockfile for this package manager is present.
    pub fn has_lockfile(&self, ctx: &AppContext) -> (b: bool)
        ensures
            b == pm_has_lock(ctx@, *self),
    {
        let names = self.lock_file_names();
        let ghost locks = pm_locks(*self);
        let mut i: usize = 0;
        while i < names.len()
            invariant
                i <= names@.len(),
                str_views(names@) == locks,
                locks == pm_locks(*self),
                forall|j: int| 0 <= j < i ==> has(ctx@.project, #[trigger] locks[j]) == false,
            decreases names@.len() - i,
        {
            assert(locks[i as int] == names@[i as int]@);
            if ctx.has_file(names[i]) {
                return true;
            }
            i = i + 1;
        }
        false
    }

    /// Glob for the lockfile in a `COPY` line; the trailing `*` makes it
    /// optional so an absent lockfile does not fail the build.
    pub fn lock_glob(&self) -> (r: &'static str)
        ensures
            r@ == pm_glob(*self),
    {
        match self {
            PackageManager::Npm => "package-lock.json*",
            PackageManager::Yarn => "yarn.lock*",
            PackageManager::Pnpm => "pnpm-lock.yaml*",
            PackageManager::Bun => "bun.lock*",
        }
    }

    pub fn cache_dirs(&self) -> (r: Vec<String>)
        ensures
            views(r@) == pm_cache(*self),
    {
        match self {
            PackageManager::Npm => one("/root/.npm"),
            PackageManager::Yarn => one("/usr/local/share/.cache/yarn"),
            PackageManager::Pnpm => one("/root/.local/share/pnpm/store"),
            PackageManager::Bun => one("/root/.bun/install/cache"),
        }
    }
}

// ---------------------------------------------------------------------------
// What the project declares

pub open spec fn pkg_json() -> Seq<char> {
    "package.json"@
}

/// The package manager the committed lockfiles point to (npm when none does).
pub open spec fn node_detected_pm(c: ContextView) -> PackageManager {
    if has(c.project, "bun.lockb"@) || has(c.project, "bun.lock"@) {
        PackageManager::Bun
    } else if has(c.project, "pnpm-lock.yaml"@) {
        PackageManager::Pnpm
    } else if has(c.project, "yarn.lock"@) {
        PackageManager::Yarn
    } else {
        PackageManager::Npm
    }
}

/// The package manager a plan uses: a recognised override, else the detected one.
pub open spec fn node_pm(c: ContextView) -> PackageManager {
    match c.overrides.package_manager {
        Some(s) => match pm_named(s) {
            Some(p) => p,
            None => node_detected_pm(c),
        },
        None => node_detected_pm(c),
    }
}

/// `package.json` has a `scripts.build` entry.
pub open spec fn has_build_script(c: ContextView) -> bool {
    json_in(c, pkg_json(), seq!["scripts"@, "build"@]).present()
}

/// `s` with every whitespace character removed.
pub open spec fn no_ws(s: Seq<char>) -> Seq<char>
    decreases s.len(),
{
    if s.len() == 0 {
        s
    } else if is_ws(s.last()) {
        no_ws(s.drop_last())
    } else {
        no_ws(s.drop_last()).push(s.last())
    }
}

/// A Next.js config text that sets `output: 'export'` (either quote style,
/// any whitespace).
pub open spec fn exports_statically(t: Seq<char>) -> bool {
    contains_seq(no_ws(t), "output:\"export\""@) || contains_seq(no_ws(t), "output:'export'"@)
}

pub open spec fn config_exports(c: ContextView, file: Seq<char>) -> bool {
    match text(c.project, file) {
        Some(t) => exports_statically(t),
        None => false,
    }
}

/// Some Next.js config file of the project sets a static export.
pub open spec fn next_export(c: ContextView) -> bool {
    config_exports(c, "next.config.js"@) || config_exports(c, "next.config.mjs"@)
        || config_exports(c, "next.config.ts"@) || config_exports(c, "next.config.cjs"@)
}

/// `package.json` lists `name` under `dependencies` or `devDependencies`.
pub open spec fn has_dep(c: ContextView, name: Seq<char>) -> bool {
    json_in(c, pkg_json(), seq!["dependencies"@, name]).present() || json_in(
        c,
        pkg_json(),
        seq!["devDependencies"@, name],
    ).present()
}

/// Characters of a version-range prefix (`^`, `~`, `>`, `=`, `v`, space).
pub open spec fn range_char(c: char) -> bool {
    c == '^' || c == '~' || c == '>' || c == '=' || c == 'v' || c == ' '
}

pub open spec fn strip_range(s: Seq<char>) -> Seq<char>
    decreases s.len(),
{
    if s.len() > 0 && range_char(s[0]) {
        strip_range(s.drop_first())
    } else {
        s
    }
}

/// The digits at the start of `s`.
pub open spec fn leading_digits(s: Seq<char>) -> Seq<char>
    decreases s.len(),
{
    if s.len() > 0 && is_digit(s[0]) {
        seq![s[0]] + leading_digits(s.drop_first())
    } else {
        Seq::empty()
    }
}

/// What `str::parse::<u32>` gives for a run of digits.
pub open spec fn digits_u32(d: Seq<char>) -> Option<u32> {
    if d.len() > 0 && digits_value(d) <= 4294967295 {
        Some(digits_value(d) as u32)
    } else {
        None
    }
}

/// The version spec of a dependency: the first of `dependencies` and
/// `devDependencies` that gives it as a string.
pub open spec fn dep_version_spec(c: ContextView, name: Seq<char>) -> Option<Seq<char>> {
    match json_in(c, pkg_json(), seq!["dependencies"@, name]) {
        FoundView::Text(s) => Some(s),
        _ => match json_in(c, pkg_json(), seq!["devDependencies"@, name]) {
            FoundView::Text(s) => Some(s),
            _ => None,
        },
    }
}

/// The major version of a dependency (`^17.1.0` gives 17).
pub open spec fn dep_major(c: ContextView, name: Seq<char>) -> Option<u32> {
    match dep_version_spec(c, name) {
        Some(s) => digits_u32(leading_digits(strip_range(s))),
        None => None,
    }
}

/// The first project (in the order `serde_json` lists them) with a build
/// `outputPath` string.
pub open spec fn first_output(t: Seq<char>, names: Seq<Seq<char>>) -> Option<Seq<char>>
    decreases names.len(),
{
    if names.len() == 0 {
        None
    } else {
        match json_at(
            t,
            seq!["projects"@, names[0], "architect"@, "build"@, "options"@, "outputPath"@],
        ) {
            FoundView::Text(o) => Some(o),
            _ => first_output(t, names.drop_first()),
        }
    }
}

/// Whether `@angular/core` is at major version 17 or later.
pub open spec fn angular_17(c: ContextView) -> bool {
    match dep_major(c, "@angular/core"@) {
        Some(m) => m >= 17,
        None => false,
    }
}

/// The static output directory of an Angular app (`outputPath`, with
/// `/browser` appended from Angular 17 on), when it is safe to use.
pub open spec fn angular_dir(c: ContextView) -> Option<Seq<char>> {
    match text(c.project, "angular.json"@) {
        Some(t) => match json_keys_at(t, seq!["projects"@]) {
            Some(names) => match first_output(t, names) {
                Some(o) => if !token_ok(o) {
                    None
                } else if angular_17(c) {
                    Some(o + "/browser"@)
                } else {
                    Some(o)
                },
                None => None,
            },
            None => None,
        },
        None => None,
    }
}

/// The directory a build-to-static framework writes its site to.
pub open spec fn static_dir(c: ContextView) -> Option<Seq<char>> {
    if next_export(c) {
        Some("out"@)
    } else if has_dep(c, "vite"@) || has_dep(c, "astro"@) {
        Some("dist"@)
    } else if has_dep(c, "react-scripts"@) {
        Some("build"@)
    } else if has_dep(c, "@sveltejs/adapter-static"@) {
        Some("build"@)
    } else if has_dep(c, "@angular/core"@) {
        angular_dir(c)
    } else {
        None
    }
}

/// The start command `package.json` implies: `<pm> start` for a `start`
/// script, else `node <main>` (rejected when `main` is unsafe), else none.
pub open spec fn node_start(c: ContextView, pm: PackageManager) -> Result<Option<Seq<char>>, ErrorView> {
    if !json_in(c, pkg_json(), seq!["scripts"@]).present() {
        Ok(None)
    } else if json_in(c, pkg_json(), seq!["scripts"@, "start"@]).present() {
        Ok(Some(pm_prefix(pm) + " start"@))
    } else {
        match json_in(c, pkg_json(), seq!["main"@]) {
            FoundView::Text(m) => if token_ok(m) {
                Ok(Some("node "@ + m))
            } else {
                Err(unsafe_view("package.json main"@, m))
            },
            _ => Ok(None),
        }
    }
}

pub open spec fn opt_outcome(r: Result<Option<String>, Error>) -> Result<Option<Seq<char>>, ErrorView> {
    match r {
        Ok(Some(s)) => Ok(Some(s@)),
        Ok(None) => Ok(None),
        Err(e) => Err(e@),
    }
}

fn without_ws(s: &[char]) -> (r: Vec<char>)
    ensures
        r@ == no_ws(s@),
{
    let mut r: Vec<char> = Vec::new();
    let mut i: usize = 0;
    while i < s.len()
        invariant
            i <= s@.len(),
            r@ == no_ws(s@.take(i as int)),
        decreases s@.len() - i,
    {
        proof {
            assert(s@.take(i + 1).drop_last() =~= s@.take(i as int));
        }
        if !is_ws_char(s[i]) {
            r.push(s[i]);
        }
        i = i + 1;
    }
    assert(s@.take(s@.len() as int) =~= s@);
    r
}

fn strip_range_chars(s: &[char]) -> (r: Vec<char>)
    ensures
        r@ == strip_range(s@),
{
    let mut i: usize = 0;
    assert(s@.skip(0) =~= s@);
    while i < s.len() && (s[i] == '^' || s[i] == '~' || s[i] == '>' || s[i] == '=' || s[i] == 'v'
        || s[i] == ' ')
        invariant
            i <= s@.len(),
            strip_range(s@) == strip_range(s@.skip(i as int)),
        decreases s@.len() - i,
    {
        assert(s@.skip(i as int).drop_first() =~= s@.skip(i + 1));
        i = i + 1;
    }
    crate::text::slice(s, i, s.len())
}

fn leading_digit_chars(s: &[char]) -> (r: Vec<char>)
    ensures
        r@ == leading_digits(s@),
        all_digits(r@),
{
    let mut i: usize = 0;
    assert(s@.skip(0) =~= s@);
    assert(s@.take(0) + leading_digits(s@) =~= leading_digits(s@));
    while i < s.len() && is_digit_char(s[i])
        invariant
            i <= s@.len(),
            forall|j: int| 0 <= j < i ==> is_digit(#[trigger] s@[j]),
            leading_digits(s@) == s@.take(i as int) + leading_digits(s@.skip(i as int)),
        decreases s@.len() - i,
    {
        proof {
            let t = s@.skip(i as int);
            assert(t.drop_first() =~= s@.skip(i + 1));
            assert(s@.take(i as int) + seq![t[0]] =~= s@.take(i + 1));
            assert(s@.take(i + 1) + leading_digits(s@.skip(i + 1)) =~= s@.take(i as int) + (seq![
                t[0],
            ] + leading_digits(t.drop_first())));
        }
        i = i + 1;
    }
    proof {
        assert(leading_digits(s@.skip(i as int)) =~= Seq::<char>::empty());
        assert(s@.take(i as int) + Seq::<char>::empty() =~= s@.take(i as int));
    }
    crate::text::slice(s, 0, i)
}

proof fn lemma_digits_value_nonneg(d: Seq<char>)
    requires
        all_digits(d),
    ensures
        digits_value(d) >= 0,
    decreases d.len(),
{
    if d.len() > 0 {
        assert(all_digits(d.drop_last()));
        lemma_digits_value_nonneg(d.drop_last());
        assert(is_digit(d.last()));
    }
}

proof fn lemma_digits_value_prefix(d: Seq<char>, k: int)
    requires
        all_digits(d),
        0 <= k <= d.len(),
    ensures
        digits_value(d.take(k)) <= digits_value(d),
    decreases d.len(),
{
    if k < d.len() {
        let p = d.drop_last();
        assert(all_digits(p));
        assert(p.take(k) =~= d.take(k));
        lemma_digits_value_prefix(p, k);
        lemma_digits_value_nonneg(p);
        assert(is_digit(d.last()));
    } else {
        assert(d.take(k) =~= d);
    }
}

/// Parse a run of digits as a `u32`, as `str::parse` does.
fn digits_to_u32(d: &[char]) -> (r: Option<u32>)
    requires
        all_digits(d@),
    ensures
        r == digits_u32(d@),
{
    if d.len() == 0 {
        return None;
    }
    let mut acc: u64 = 0;
    let mut i: usize = 0;
    while i < d.len()
        invariant
            i <= d@.len(),
            all_digits(d@),
            acc as int == digits_value(d@.take(i as int)),
            acc <= 4294967295,
        decreases d@.len() - i,
    {
        proof {
            assert(d@.take(i + 1).drop_last() =~= d@.take(i as int));
            assert(is_digit(d@[i as int]));
        }
        let v: u64 = acc * 10 + ((d[i] as u32) - 48) as u64;
        if v > 4294967295 {
            proof {
                lemma_digits_value_prefix(d@, i + 1);
            }
            return None;
        }
        acc = v;
        i = i + 1;
    }
    assert(d@.take(d@.len() as int) =~= d@);
    Some(acc as u32)
}

/// The first project of `names` with a build `outputPath` string in `t`.
fn first_output_path(t: &str, names: &Vec<String>) -> (r: Option<String>)
    ensures
        match r {
            Some(o) => first_output(t@, views(names@)) == Some(o@),
            None => first_output(t@, views(names@)) is None,
        },
{
    let ghost nv = views(names@);
    let mut i: usize = 0;
    assert(nv.skip(0) =~= nv);
    while i < names.len()
        invariant
            i <= names@.len(),
            nv == views(names@),
            first_output(t@, nv) == first_output(t@, nv.skip(i as int)),
        decreases names@.len() - i,
    {
        proof {
            assert(nv.skip(i as int)[0] == names@[i as int]@);
            assert(nv.skip(i as int).drop_first() =~= nv.skip(i + 1));
        }
        let path = vec![
            owned("projects"),
            names[i].clone(),
            owned("architect"),
            owned("build"),
            owned("options"),
            owned("outputPath"),
        ];
        assert(views(path@) =~= seq![
            "projects"@,
            names@[i as int]@,
            "architect"@,
            "build"@,
            "options"@,
            "outputPath"@,
        ]);
        match json_lookup(t, &path) {
            Found::Text(o) => {
                return Some(o);
            },
            _ => {},
        }
        i = i + 1;
    }
    None
}

/// Node.js projects: anything with a `package.json`.
pub struct NodeProvider;

impl NodeProvider {
    fn detect_package_manager(ctx: &AppContext) -> (r: PackageManager)
        ensures
            r == node_detected_pm(ctx@),
    {
        if ctx.has_file("bun.lockb") || ctx.has_file("bun.lock") {
            PackageManager::Bun
        } else if ctx.has_file("pnpm-lock.yaml") {
            PackageManager::Pnpm
        } else if ctx.has_file("yarn.lock") {
            PackageManager::Yarn
        } else {
            PackageManager::Npm
        }
    }

    fn detect_start_command(ctx: &AppContext, pm: &PackageManager) -> (r: Result<Option<String>, Error>)
        ensures
            opt_outcome(r) == node_start(ctx@, *pm),
    {
        if !json_in_file(ctx, "package.json", &one("scripts")).is_present() {
            return Ok(None);
        }
        if json_in_file(ctx, "package.json", &two("scripts", "start")).is_present() {
            return Ok(Some(cat(pm.run_prefix(), " start")));
        }
        // `main` is repository metadata that lands in the runtime `CMD`, so it
        // is validated before interpolation.
        match json_in_file(ctx, "package.json", &one("main")) {
            Found::Text(main) => match validate_token("package.json main", main.as_str()) {
                Ok(()) => Ok(Some(cat("node ", main.as_str()))),
                Err(e) => Err(e),
            },
            _ => Ok(None),
        }
    }

    fn has_build_script(ctx: &AppContext) -> (b: bool)
        ensures
            b == has_build_script(ctx@),
    {
        json_in_file(ctx, "package.json", &two("scripts", "build")).is_present()
    }

    fn config_exports(ctx: &AppContext, file: &str) -> (b: bool)
        ensures
            b == config_exports(ctx@, file@),
    {
        match ctx.read_file(file) {
            Ok(t) => {
                let n = without_ws(&chars_of(t.as_str()));
                contains(&n, &chars_of("output:\"export\"")) || contains(
                    &n,
                    &chars_of("output:'export'"),
                )
            },
            Err(_) => false,
        }
    }

    /// Next.js `output: 'export'` makes `next build` emit a static site to
    /// `out/`, which `next start` refuses to run.
    fn is_next_static_export(ctx: &AppContext) -> (b: bool)
        ensures
            b == next_export(ctx@),
    {
        Self::config_exports(ctx, "next.config.js") || Self::config_exports(ctx, "next.config.mjs")
            || Self::config_exports(ctx, "next.config.ts") || Self::config_exports(
            ctx,
            "next.config.cjs",
        )
    }

    /// Whether package.json lists `name` under dependencies or devDependencies.
    fn has_dependency(ctx: &AppContext, name: &str) -> (b: bool)
        ensures
            b == has_dep(ctx@, name@),
    {
        json_in_file(ctx, "package.json", &two("dependencies", name)).is_present() || json_in_file(
            ctx,
            "package.json",
            &two("devDependencies", name),
        ).is_present()
    }

    /// The major version of a dependency from its package.json version spec
    /// (e.g. `^17.1.0` -> 17), ignoring range prefixes.
    fn dependency_major(ctx: &AppContext, name: &str) -> (r: Option<u32>)
        ensures
            r == dep_major(ctx@, name@),
    {
        let spec = match json_in_file(ctx, "package.json", &two("dependencies", name)) {
            Found::Text(s) => Some(s),
            _ => match json_in_file(ctx, "package.json", &two("devDependencies", name)) {
                Found::Text(s) => Some(s),
                _ => None,
            },
        };
        match spec {
            Some(s) => {
                let digits = leading_digit_chars(&strip_range_chars(&chars_of(s.as_str())));
                digits_to_u32(&digits)
            },
            None => None,
        }
    }

    /// The static output directory for an Angular app, read from
    /// `angular.json`'s build `outputPath`; Angular 17+ nests the browser
    /// bundle under `browser`.
    fn angular_output_dir(ctx: &AppContext) -> (r: Option<String>)
        ensures
            match r {
                Some(d) => angular_dir(ctx@) == Some(d@),
                None => angular_dir(ctx@) is None,
            },
    {
        let content = match ctx.read_file("angular.json") {
            Ok(c) => c,
            Err(_) => return None,
        };
        let names = match json_member_names(content.as_str(), &one("projects")) {
            Some(n) => n,
            None => return None,
        };
        let out = match first_output_path(content.as_str(), &names) {
            Some(o) => o,
            None => return None,
        };
        if validate_token("angular outputPath", out.as_str()).is_err() {
            return None;
        }
        match Self::dependency_major(ctx, "@angular/core") {
            Some(major) => if major >= 17 {
                Some(cat(out.as_str(), "/browser"))
            } else {
                Some(out)
            },
            None => Some(out),
        }
    }

    /// The static output directory to serve for a build-to-static framework
    /// (Next.js export, Vite, Astro, Create React App, `SvelteKit` with the
    /// static adapter, or Angular), if this is one.
    fn static_output_dir(ctx: &AppContext) -> (r: Option<String>)
        ensures
            match r {
                Some(d) => static_dir(ctx@) == Some(d@),
                None => static_dir(ctx@) is None,
            },
    {
        if Self::is_next_static_export(ctx) {
            return Some(owned("out"));
        }
        if Self::has_dependency(ctx, "vite") || Self::has_dependency(ctx, "astro") {
            return Some(owned("dist"));
        }
        if Self::has_dependency(ctx, "react-scripts") {
            return Some(owned("build"));
        }
        if Self::has_dependency(ctx, "@sveltejs/adapter-static") {
            return Some(owned("build"));
        }
        if Self::has_dependency(ctx, "@angular/core") {
            return Self::angular_output_dir(ctx);
        }
        None
    }
}

} // verus!

verus! {

// ---------------------------------------------------------------------------
// The plan

pub open spec fn deps_modules_view() -> CopyFromView {
    from_view("deps"@, "/app/node_modules"@, "/app/node_modules"@)
}

/// What the runtime stage copies from earlier stages: `node_modules`, plus
/// the built app when there is a build stage.
pub open spec fn runtime_froms(has_build: bool) -> Seq<CopyFromView> {
    if has_build {
        seq![deps_modules_view(), from_view("build"@, "/app"@, "/app"@)]
    } else {
        seq![deps_modules_view()]
    }
}

/// The runtime stage's commands: a static file server for a static export,
/// otherwise the package manager's setup when the start command runs it.
pub open spec fn runtime_commands(pm: PackageManager, is_static: bool, start: Option<Seq<char>>) -> Seq<
    CommandView,
> {
    if is_static {
        seq![run_view("npm install -g serve@14"@, Seq::empty())]
    } else if pm_setup(pm) is Some && start is Some && has_prefix(start->0, pm_prefix(pm)) {
        seq![run_view(pm_setup(pm)->0, Seq::empty())]
    } else {
        Seq::empty()
    }
}

pub open spec fn node_runtime(
    pm: PackageManager,
    has_build: bool,
    is_static: bool,
    start: Option<Seq<char>>,
    base_image: Seq<char>,
) -> StageView {
    stage_view(
        "runtime"@,
        base_image,
        "/app"@,
        runtime_commands(pm, is_static, start),
        if has_build {
            Seq::empty()
        } else {
            seq![copy_all_view()]
        },
        runtime_froms(has_build),
    )
}

/// The install command: the override, else the package manager's own
/// (frozen only with a committed lockfile).
pub open spec fn node_install(c: ContextView, pm: PackageManager) -> Seq<char> {
    match c.overrides.install_command {
        Some(i) => i,
        None => pm_install(pm, pm_has_lock(c, pm)),
    }
}

pub open spec fn node_build_command(c: ContextView, pm: PackageManager) -> Seq<char> {
    match c.overrides.build_command {
        Some(b) => b,
        None => pm_prefix(pm) + " run build"@,
    }
}

pub open spec fn node_stages(
    c: ContextView,
    pm: PackageManager,
    has_build: bool,
    is_static: bool,
    start: Option<Seq<char>>,
    version: Seq<char>,
) -> Seq<StageView> {
    let build_image = "node:"@ + version;
    let deps = stage_view(
        "deps"@,
        build_image,
        "/app"@,
        seq![
            run_view(
                pm_with_setup(pm, node_install(c, pm)) + " && mkdir -p node_modules"@,
                pm_cache(pm),
            ),
        ],
        seq![copy_view("package.json "@ + pm_glob(pm), "."@)],
        Seq::empty(),
    );
    let runtime = node_runtime(pm, has_build, is_static, start, build_image + "-slim"@);
    if has_build {
        let build = stage_view(
            "build"@,
            build_image,
            "/app"@,
            seq![run_view(pm_with_setup(pm, node_build_command(c, pm)), Seq::empty())],
            seq![copy_all_view()],
            seq![deps_modules_view()],
        );
        seq![deps, build, runtime]
    } else {
        seq![deps, runtime]
    }
}

/// The Node version detected from `.nvmrc`, `.node-version`, then the
/// shared tool files.
pub open spec fn node_detected_version(c: ContextView) -> Option<Seq<char>> {
    match file_version(c, ".nvmrc"@) {
        Some(v) => Some(v),
        None => match file_version(c, ".node-version"@) {
            Some(v) => Some(v),
            None => tool_files_version(c, seq!["node"@, "nodejs"@]),
        },
    }
}

pub open spec fn node_version(c: ContextView) -> Seq<char> {
    chosen_version(c, node_detected_version(c), "22"@)
}

/// The start command a plan gets: the override, else serving a static
/// export, else what `package.json` implies.
pub open spec fn node_start_command(c: ContextView, pm: PackageManager, dir: Option<Seq<char>>) -> Result<
    Option<Seq<char>>,
    ErrorView,
> {
    match c.overrides.start_command {
        Some(s) => Ok(Some(s)),
        None => match dir {
            Some(d) => Ok(Some("serve "@ + d + " -l 3000"@)),
            None => node_start(c, pm),
        },
    }
}

/// The Node plan, or the first error met while making it.
pub open spec fn node_plan(c: ContextView) -> Result<PlanView, ErrorView> {
    let pm = node_pm(c);
    let has_build = c.overrides.build_command is Some || has_build_script(c);
    let dir = if has_build {
        static_dir(c)
    } else {
        None
    };
    match node_start_command(c, pm, dir) {
        Err(e) => Err(e),
        Ok(start) => if !token_ok(node_version(c)) {
            Err(unsafe_view("version"@, node_version(c)))
        } else {
            Ok(
                plan_view(
                    "node"@,
                    node_stages(c, pm, has_build, dir is Some, start, node_version(c)),
                    start,
                    Some(3000u16),
                ),
            )
        },
    }
}

impl NodeProvider {
    /// `node_modules` from the deps stage, plus the built app from the build stage.
    fn runtime_copy_from(has_build: bool) -> (r: Vec<CopyFrom>)
        ensures
            copy_from_views(r@) == runtime_froms(has_build),
    {
        let node_modules = copy_from("deps", owned("/app/node_modules"), owned("/app/node_modules"));
        if has_build {
            froms2(node_modules, copy_from("build", owned("/app"), owned("/app")))
        } else {
            froms1(node_modules)
        }
    }

    /// Assemble the runtime stage: copy sources/artifacts and provision any
    /// package manager or static file server the start command needs.
    fn runtime_stage(
        pm: &PackageManager,
        has_build: bool,
        is_static_export: bool,
        start_cmd: Option<&str>,
        base_image: String,
    ) -> (s: Stage)
        ensures
            s@ == node_runtime(
                *pm,
                has_build,
                is_static_export,
                match start_cmd {
                    Some(c) => Some(c@),
                    None => None,
                },
                base_image@,
            ),
    {
        let ghost start = match start_cmd {
            Some(c) => Some(c@),
            None => None::<Seq<char>>,
        };
        let copy_files = if has_build {
            no_copies()
        } else {
            copies1(copy_all())
        };
        let commands = if is_static_export {
            commands1(run_plain(owned("npm install -g serve@14")))
        } else {
            match (pm.setup_command(), start_cmd) {
                (Some(setup), Some(cmd)) => if starts_with(&chars_of(cmd), &chars_of(pm.run_prefix())) {
                    commands1(run_plain(owned(setup)))
                } else {
                    no_commands()
                },
                _ => no_commands(),
            }
        };
        assert(command_views(commands@) == runtime_commands(*pm, is_static_export, start));
        stage("runtime", base_image, "/app", commands, copy_files, Self::runtime_copy_from(has_build))
    }
}

impl Provider for NodeProvider {
    open spec fn spec_name(&self) -> Seq<char> {
        "node"@
    }

    open spec fn detects(&self, c: ContextView) -> bool {
        has(c.project, "package.json"@)
    }

    open spec fn plans(&self, c: ContextView) -> Result<PlanView, ErrorView> {
        node_plan(c)
    }

    fn name(&self) -> (n: &'static str) {
        "node"
    }

    fn detect(&self, ctx: &AppContext) -> (b: bool) {
        ctx.has_file("package.json")
    }

    fn plan(&self, ctx: &AppContext) -> (r: Result<BuildPlan, Error>) {
        let ghost c = ctx@;
        // A `package_manager` override skips lockfile sniffing; it flows into
        // the setup and lock-file copy as well as the command strings.
        let pm = match &ctx.overrides.package_manager {
            Some(name) => match PackageManager::parse(name.as_str()) {
                Some(p) => p,
                None => Self::detect_package_manager(ctx),
            },
            None => Self::detect_package_manager(ctx),
        };
        // An explicit build-command override forces a build stage.
        let has_build = ctx.overrides.build_command.is_some() || Self::has_build_script(ctx);
        // A build-to-static framework is served by a static file server.
        let static_dir = if has_build {
            Self::static_output_dir(ctx)
        } else {
            None
        };
        let is_static_export = static_dir.is_some();
        let ghost dir = crate::plan::opt_view(static_dir);
        let start_cmd: Option<String> = match &ctx.overrides.start_command {
            Some(s) => Some(s.clone()),
            None => match &static_dir {
                Some(d) => Some(cat3("serve ", d.as_str(), " -l 3000")),
                None => match Self::detect_start_command(ctx, &pm) {
                    Ok(s) => s,
                    Err(e) => return Err(e),
                },
            },
        };
        assert(node_start_command(c, pm, dir) == Ok::<Option<Seq<char>>, ErrorView>(
            crate::plan::opt_view(start_cmd),
        ));

        // Runtime version: override, else `.nvmrc` / `.node-version` / tool
        // files, else the default. Slim runtime, full image for the build.
        let node_aliases: [&str; 2] = ["node", "nodejs"];
        assert(str_views(node_aliases@) =~= seq!["node"@, "nodejs"@]);
        let detected = match version_from_file(ctx, ".nvmrc") {
            Some(v) => Some(v),
            None => match version_from_file(ctx, ".node-version") {
                Some(v) => Some(v),
                None => version_from_tool_files(ctx, &node_aliases),
            },
        };
        let version = match resolve_version(ctx, detected, "22") {
            Ok(v) => v,
            Err(e) => return Err(e),
        };
        let base_image = cat3("node:", version.as_str(), "-slim");
        let build_image = cat("node:", version.as_str());

        // A frozen install hard-fails without a committed lockfile.
        let has_lock = pm.has_lockfile(ctx);
        let install_cmd = match &ctx.overrides.install_command {
            Some(i) => i.clone(),
            None => pm.install_command(has_lock),
        };
        let mut deps_run = pm.with_setup(install_cmd);
        deps_run.append(" && mkdir -p node_modules");
        let deps_stage = stage(
            "deps",
            build_image.clone(),
            "/app",
            commands1(run(deps_run, pm.cache_dirs())),
            copies1(copy(cat("package.json ", pm.lock_glob()).as_str(), ".")),
            no_froms(),
        );
        let runtime = Self::runtime_stage(
            &pm,
            has_build,
            is_static_export,
            match &start_cmd {
                Some(s) => Some(s.as_str()),
                None => None,
            },
            base_image,
        );
        let stages = if has_build {
            let build_cmd = match &ctx.overrides.build_command {
                Some(b) => b.clone(),
                None => cat(pm.run_prefix(), " run build"),
            };
            let build_stage = stage(
                "build",
                build_image,
                "/app",
                commands1(run_plain(pm.with_setup(build_cmd))),
                copies1(copy_all()),
                froms1(copy_from("deps", owned("/app/node_modules"), owned("/app/node_modules"))),
            );
            stages3(deps_stage, build_stage, runtime)
        } else {
            stages2(deps_stage, runtime)
        };
        let p = plan("node", stages, start_cmd, Some(3000));
        assert(node_plan(c) == Ok::<PlanView, ErrorView>(p@));
        Ok(p)
    }
}

} // verus!

verus! {

/// Without overrides, the deps stage installs with the package manager the
/// committed lockfile names, copying `package.json` and that lockfile: a Bun
/// lockfile means Bun; else `pnpm-lock.yaml` means pnpm; else `yarn.lock`
/// means Yarn (both set up through corepack, installing frozen); else npm,
/// with `npm ci` when `package-lock.json` is committed and `npm install`
/// otherwise.
pub proof fn law_node_installs_with_the_lockfiles_manager(c: ContextView)
    requires
        NodeProvider.plans(c) is Ok,
        c.overrides.package_manager is None,
        c.overrides.install_command is None,
    ensures
        ({
            let d = NodeProvider.plans(c)->Ok_0.stages[0];
            let bun = has(c.project, "bun.lockb"@) || has(c.project, "bun.lock"@);
            let pnpm = has(c.project, "pnpm-lock.yaml"@);
            let yarn = has(c.project, "yarn.lock"@);
            let tail = " && mkdir -p node_modules"@;
            &&& d.name == "deps"@
            &&& d.commands.len() == 1
            &&& bun ==> d.commands[0] == run_view(
                "npm install -g bun"@ + " && "@ + "bun install"@ + tail,
                seq!["/root/.bun/install/cache"@],
            ) && d.copy_files == seq![copy_view("package.json "@ + "bun.lock*"@, "."@)]
            &&& !bun && pnpm ==> d.commands[0] == run_view(
                "corepack enable"@ + " && "@ + "pnpm install --frozen-lockfile"@ + tail,
                seq!["/root/.local/share/pnpm/store"@],
            ) && d.copy_files == seq![copy_view("package.json "@ + "pnpm-lock.yaml*"@, "."@)]
            &&& !bun && !pnpm && yarn ==> d.commands[0] == run_view(
                "corepack enable"@ + " && "@ + "yarn install --frozen-lockfile"@ + tail,
                seq!["/usr/local/share/.cache/yarn"@],
            ) && d.copy_files == seq![copy_view("package.json "@ + "yarn.lock*"@, "."@)]
            &&& !bun && !pnpm && !yarn ==> d.commands[0] == run_view(
                (if has(c.project, "package-lock.json"@) {
                    "npm ci"@
                } else {
                    "npm install"@
                }) + tail,
                seq!["/root/.npm"@],
            ) && d.copy_files == seq![copy_view("package.json "@ + "package-lock.json*"@, "."@)]
        }),
{
    let pm = node_pm(c);
    assert(pm == node_detected_pm(c));
    if pm == PackageManager::Bun {
        assert(pm_has_lock(c, pm) || !pm_has_lock(c, pm));
    } else if pm == PackageManager::Pnpm {
        assert(pm_locks(pm)[0] == "pnpm-lock.yaml"@);
        assert(pm_has_lock(c, pm));
    } else if pm == PackageManager::Yarn {
        assert(pm_locks(pm)[0] == "yarn.lock"@);
        assert(pm_has_lock(c, pm));
    } else {
        assert(pm_locks(pm)[0] == "package-lock.json"@);
        assert(pm_has_lock(c, pm) == has(c.project, "package-lock.json"@));
    }
}

} // verus!
