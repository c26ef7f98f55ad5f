//! Python projects: pip, Poetry, Pipenv, uv or PDM, and the Django, FastAPI
//! and Flask start commands.
use vstd::prelude::*;
use crate::detect::{AppContext, ContextView};
use crate::error::{Error, ErrorView};
use crate::plan::{BuildPlan, CopyDirective, CopyView, PlanView, copy_views};
use crate::project::{has, text};
use crate::providers::versions::{
    chosen_version, file_version, resolve_version, str_views, tool_files_version, version_from_file,
    version_from_tool_files,
};
use crate::providers::{
    Provider, unsafe_view, cat, cat3, read_or_empty, text_or_empty, commands1, copies1, copies2, copy, copy_all, copy_all_view, copy_from,
    copy_view, from_view, froms1, no_commands, no_froms, one, owned, plan, plan_view, run,
    run_view, stage, stage_view, stages2,
};
use crate::sanitize::token_ok;
use crate::text::{
    chars_of, contains, contains_seq, ends_with, first_index, first_index_of, has_suffix, slice,
    string_of, views,
};

verus! {

/// How a Python project installs its dependencies.
#[derive(Clone, Copy, PartialEq, Eq, Structural)]
pub enum PythonPm {
    Pip,
    Poetry,
    Pipenv,
    Uv,
    Pdm,
}

/// The web framework a Python project uses.
#[derive(Clone, Copy, PartialEq, Eq, Structural)]
pub enum PythonFramework {
    Django,
    FastApi,
    Flask,
}

/// The files the deps stage copies for `pm`.
pub open spec fn py_copies(pm: PythonPm) -> Seq<CopyView> {
    match pm {
        PythonPm::Pip => seq![copy_view("requirements.txt"@, "."@)],
        PythonPm::Uv => seq![copy_view("pyproject.toml"@, "."@), copy_view("uv.lock"@, "."@)],
        PythonPm::Poetry => seq![
            copy_view("pyproject.toml"@, "."@),
            copy_view("poetry.lock"@, "."@),
        ],
        PythonPm::Pipenv => seq![copy_view("Pipfile"@, "."@), copy_view("Pipfile.lock"@, "."@)],
        PythonPm::Pdm => seq![copy_view("pyproject.toml"@, "."@), copy_view("pdm.lock"@, "."@)],
    }
}

pub open spec fn py_install(pm: PythonPm) -> Seq<char> {
    match pm {
        PythonPm::Pip => "pip install --no-cache-dir -r requirements.txt"@,
        PythonPm::Uv => "pip install uv && uv sync --frozen"@,
        PythonPm::Poetry => "pip install poetry && poetry install --no-interaction --no-ansi"@,
        PythonPm::Pipenv => "pip install pipenv && pipenv install --deploy"@,
        PythonPm::Pdm => "pip install pdm && pdm install --frozen"@,
    }
}

pub open spec fn py_caches(pm: PythonPm) -> Seq<Seq<char>> {
    match pm {
        PythonPm::Pip => seq!["/root/.cache/pip"@],
        PythonPm::Uv => seq!["/root/.cache/uv"@],
        PythonPm::Poetry => seq!["/root/.cache/pypoetry"@],
        PythonPm::Pipenv => seq!["/root/.cache/pipenv"@],
        PythonPm::Pdm => seq!["/root/.cache/pdm"@],
    }
}

/// The release series of a version: its first two components
/// (`3.12.1` gives `3.12`).
pub open spec fn series(v: Seq<char>) -> Seq<char> {
    match first_index_of(v, '.') {
        Some(i) => match first_index_of(v.skip(i + 1), '.') {
            Some(j) => v.take(i + 1 + j),
            None => v,
        },
        None => v,
    }
}

/// Where the installed packages live, for the runtime stage to copy: the
/// virtualenv for uv, the interpreter's `site-packages` otherwise.
pub open spec fn py_target(pm: PythonPm, version: Seq<char>) -> Seq<char> {
    match pm {
        PythonPm::Uv => "/app/.venv"@,
        _ => "/usr/local/lib/python"@ + series(version) + "/site-packages"@,
    }
}

fn series_of(v: &[char]) -> (r: Vec<char>)
    ensures
        r@ == series(v@),
{
    let n = v.len();
    match first_index(v, '.') {
        Some(i) => {
            let rest = slice(v, i + 1, n);
            assert(rest@ =~= v@.skip(i + 1));
            match first_index(&rest, '.') {
                Some(j) => {
                    assert(i + 1 + j <= n);
                    let r = slice(v, 0, i + 1 + j);
                    assert(r@ =~= v@.take(i + 1 + j));
                    r
                },
                None => {
                    let r = slice(v, 0, n);
                    assert(r@ =~= v@);
                    r
                },
            }
        },
        None => {
            let r = slice(v, 0, n);
            assert(r@ =~= v@);
            r
        },
    }
}

impl PythonPm {
    /// The files to copy, the install command and the cache directories.
    pub fn install_info(&self) -> (r: (Vec<CopyDirective>, String, Vec<String>))
        ensures
            copy_views(r.0@) == py_copies(*self),
            r.1@ == py_install(*self),
            views(r.2@) == py_caches(*self),
    {
        match self {
            PythonPm::Pip => (
                copies1(copy("requirements.txt", ".")),
                owned("pip install --no-cache-dir -r requirements.txt"),
                one("/root/.cache/pip"),
            ),
            PythonPm::Uv => (
                copies2(copy("pyproject.toml", "."), copy("uv.lock", ".")),
                owned("pip install uv && uv sync --frozen"),
                one("/root/.cache/uv"),
            ),
            PythonPm::Poetry => (
                copies2(copy("pyproject.toml", "."), copy("poetry.lock", ".")),
                owned("pip install poetry && poetry install --no-interaction --no-ansi"),
                one("/root/.cache/pypoetry"),
            ),
            PythonPm::Pipenv => (
                copies2(copy("Pipfile", "."), copy("Pipfile.lock", ".")),
                owned("pip install pipenv && pipenv install --deploy"),
                one("/root/.cache/pipenv"),
            ),
            PythonPm::Pdm => (
                copies2(copy("pyproject.toml", "."), copy("pdm.lock", ".")),
                owned("pip install pdm && pdm install --frozen"),
                one("/root/.cache/pdm"),
            ),
        }
    }

    pub fn install_target(&self, version: &str) -> (r: String)
        ensures
            r@ == py_target(*self, version@),
    {
        match self {
            PythonPm::Uv => owned("/app/.venv"),
            _ => cat3(
                "/usr/local/lib/python",
                string_of(&series_of(&chars_of(version))).as_str(),
                "/site-packages",
            ),
        }
    }
}

/// `pyproject.toml` has a `[tool.poetry]` section.
pub open spec fn poetry_section(c: ContextView) -> bool {
    match text(c.project, "pyproject.toml"@) {
        Some(t) => contains_seq(t, "[tool.poetry]"@),
        None => false,
    }
}

pub open spec fn python_pm(c: ContextView) -> PythonPm {
    if has(c.project, "uv.lock"@) {
        PythonPm::Uv
    } else if has(c.project, "Pipfile"@) || has(c.project, "Pipfile.lock"@) {
        PythonPm::Pipenv
    } else if has(c.project, "poetry.lock"@) || poetry_section(c) {
        PythonPm::Poetry
    } else if has(c.project, "pdm.lock"@) {
        PythonPm::Pdm
    } else {
        PythonPm::Pip
    }
}

/// `requirements.txt` and `pyproject.toml`, one after the other.
pub open spec fn python_dependency_text(c: ContextView) -> Seq<char> {
    text_or_empty(c, "requirements.txt"@) + "\n"@ + text_or_empty(c, "pyproject.toml"@)
}

pub open spec fn python_framework(c: ContextView) -> Option<PythonFramework> {
    let m = python_dependency_text(c);
    if contains_seq(m, "django"@) || contains_seq(m, "Django"@) {
        Some(PythonFramework::Django)
    } else if contains_seq(m, "fastapi"@) || contains_seq(m, "FastAPI"@) {
        Some(PythonFramework::FastApi)
    } else if contains_seq(m, "flask"@) || contains_seq(m, "Flask"@) {
        Some(PythonFramework::Flask)
    } else {
        None
    }
}

/// The first of `main.py`, `app.py`, `server.py`, `run.py` that exists.
pub open spec fn python_entry(c: ContextView) -> Option<Seq<char>> {
    if has(c.project, "main.py"@) {
        Some("main.py"@)
    } else if has(c.project, "app.py"@) {
        Some("app.py"@)
    } else if has(c.project, "server.py"@) {
        Some("server.py"@)
    } else if has(c.project, "run.py"@) {
        Some("run.py"@)
    } else {
        None
    }
}

/// The module a script file names (`main.py` gives `main`), or `fallback`
/// when it does not end in `.py`.
pub open spec fn module_of(file: Seq<char>, fallback: Seq<char>) -> Seq<char> {
    if has_suffix(file, ".py"@) {
        file.take(file.len() - 3)
    } else {
        fallback
    }
}

pub open spec fn python_start(fw: Option<PythonFramework>, entry: Option<Seq<char>>) -> Option<Seq<char>> {
    match fw {
        Some(PythonFramework::Django) => Some(
            "gunicorn --bind 0.0.0.0:${PORT:-8000} config.wsgi:application"@,
        ),
        Some(PythonFramework::FastApi) => {
            let file = match entry {
                Some(e) => e,
                None => "main.py"@,
            };
            Some("uvicorn "@ + module_of(file, "main"@) + ":app --host 0.0.0.0 --port ${PORT:-8000}"@)
        },
        Some(PythonFramework::Flask) => {
            let file = match entry {
                Some(e) => e,
                None => "app.py"@,
            };
            Some("gunicorn --bind 0.0.0.0:${PORT:-8000} "@ + module_of(file, "app"@) + ":app"@)
        },
        None => match entry {
            Some(e) => Some("python "@ + e),
            None => None,
        },
    }
}

/// The Python version detected from `.python-version`, then the shared tool files.
pub open spec fn python_detected_version(c: ContextView) -> Option<Seq<char>> {
    match file_version(c, ".python-version"@) {
        Some(v) => Some(v),
        None => tool_files_version(c, seq!["python"@]),
    }
}

pub open spec fn python_version(c: ContextView) -> Seq<char> {
    chosen_version(c, python_detected_version(c), "3.13"@)
}

/// The Python plan: refused when the version is unsafe in an image tag.
pub open spec fn python_plan(c: ContextView) -> Result<PlanView, ErrorView> {
    let v = python_version(c);
    if !token_ok(v) {
        Err(unsafe_view("version"@, v))
    } else {
        Ok(python_plan_with(c, v))
    }
}

pub open spec fn python_plan_with(c: ContextView, version: Seq<char>) -> PlanView {
    let pm = python_pm(c);
    plan_view(
        "python"@,
        seq![
            stage_view(
                "deps"@,
                "python:"@ + version,
                "/app"@,
                seq![run_view(py_install(pm), py_caches(pm))],
                py_copies(pm),
                Seq::empty(),
            ),
            stage_view(
                "runtime"@,
                "python:"@ + version + "-slim"@,
                "/app"@,
                Seq::empty(),
                seq![copy_all_view()],
                seq![from_view("deps"@, py_target(pm, version), py_target(pm, version))],
            ),
        ],
        python_start(python_framework(c), python_entry(c)),
        Some(8000u16),
    )
}

/// The module name of a script file (see [`module_of`]).
fn module_name(file: &str, fallback: &str) -> (r: String)
    ensures
        r@ == module_of(file@, fallback@),
{
    let cs = chars_of(file);
    proof {
        reveal_strlit(".py");
    }
    if ends_with(&cs, &chars_of(".py")) {
        crate::text::string_of(&crate::text::slice(&cs, 0, cs.len() - 3))
    } else {
        owned(fallback)
    }
}

/// Python projects: `requirements.txt`, `pyproject.toml`, `Pipfile` or `setup.py`.
pub struct PythonProvider;

impl PythonProvider {
    fn detect_package_manager(ctx: &AppContext) -> (r: PythonPm)
        ensures
            r == python_pm(ctx@),
    {
        if ctx.has_file("uv.lock") {
            PythonPm::Uv
        } else if ctx.has_file("Pipfile") || ctx.has_file("Pipfile.lock") {
            PythonPm::Pipenv
        } else if ctx.has_file("poetry.lock") || Self::has_poetry_section(ctx) {
            PythonPm::Poetry
        } else if ctx.has_file("pdm.lock") {
            PythonPm::Pdm
        } else {
            PythonPm::Pip
        }
    }

    fn has_poetry_section(ctx: &AppContext) -> (b: bool)
        ensures
            b == poetry_section(ctx@),
    {
        match ctx.read_file("pyproject.toml") {
            Ok(t) => contains(&chars_of(t.as_str()), &chars_of("[tool.poetry]")),
            Err(_) => false,
        }
    }

    fn detect_framework(ctx: &AppContext) -> (r: Option<PythonFramework>)
        ensures
            r == python_framework(ctx@),
    {
        let reqs = read_or_empty(ctx, "requirements.txt");
        let pyproject = read_or_empty(ctx, "pyproject.toml");
        let combined = cat3(reqs.as_str(), "\n", pyproject.as_str());
        let m = chars_of(combined.as_str());
        if contains(&m, &chars_of("django")) || contains(&m, &chars_of("Django")) {
            Some(PythonFramework::Django)
        } else if contains(&m, &chars_of("fastapi")) || contains(&m, &chars_of("FastAPI")) {
            Some(PythonFramework::FastApi)
        } else if contains(&m, &chars_of("flask")) || contains(&m, &chars_of("Flask")) {
            Some(PythonFramework::Flask)
        } else {
            None
        }
    }

    fn detect_entry_file(ctx: &AppContext) -> (r: Option<String>)
        ensures
            crate::plan::opt_view(r) == python_entry(ctx@),
    {
        if ctx.has_file("main.py") {
            Some(owned("main.py"))
        } else if ctx.has_file("app.py") {
            Some(owned("app.py"))
        } else if ctx.has_file("server.py") {
            Some(owned("server.py"))
        } else if ctx.has_file("run.py") {
            Some(owned("run.py"))
        } else {
            None
        }
    }

    fn start_command(framework: Option<PythonFramework>, entry: Option<&str>) -> (r: Option<String>)
        ensures
            crate::plan::opt_view(r) == python_start(
                framework,
                match entry {
                    Some(e) => Some(e@),
                    None => None,
                },
            ),
    {
        match framework {
            Some(PythonFramework::Django) => Some(
                owned("gunicorn --bind 0.0.0.0:${PORT:-8000} config.wsgi:application"),
            ),
            Some(PythonFramework::FastApi) => {
                let file = match entry {
                    Some(e) => e,
                    None => "main.py",
                };
                let module = module_name(file, "main");
                Some(cat3("uvicorn ", module.as_str(), ":app --host 0.0.0.0 --port ${PORT:-8000}"))
            },
            Some(PythonFramework::Flask) => {
                let file = match entry {
                    Some(e) => e,
                    None => "app.py",
                };
                let module = module_name(file, "app");
                Some(cat3("gunicorn --bind 0.0.0.0:${PORT:-8000} ", module.as_str(), ":app"))
            },
            None => match entry {
                Some(e) => Some(cat("python ", e)),
                None => None,
            },
        }
    }
}

impl Provider for PythonProvider {
    open spec fn spec_name(&self) -> Seq<char> {
        "python"@
    }

    open spec fn detects(&self, c: ContextView) -> bool {
        has(c.project, "requirements.txt"@) || has(c.project, "pyproject.toml"@) || has(
            c.project,
            "Pipfile"@,
        ) || has(c.project, "setup.py"@)
    }

    open spec fn plans(&self, c: ContextView) -> Result<PlanView, ErrorView> {
        python_plan(c)
    }

    fn name(&self) -> (n: &'static str) {
        "python"
    }

    fn detect(&self, ctx: &AppContext) -> (b: bool) {
        ctx.has_file("requirements.txt") || ctx.has_file("pyproject.toml") || ctx.has_file(
            "Pipfile",
        ) || ctx.has_file("setup.py")
    }

    fn plan(&self, ctx: &AppContext) -> (r: Result<BuildPlan, Error>) {
        let pm = Self::detect_package_manager(ctx);
        let framework = Self::detect_framework(ctx);
        let entry = Self::detect_entry_file(ctx);
        // Interpreter version: override, else `.python-version` / tool files,
        // else the default.
        let python_aliases: [&str; 1] = ["python"];
        assert(str_views(python_aliases@) =~= seq!["python"@]);
        let detected = match version_from_file(ctx, ".python-version") {
            Some(v) => Some(v),
            None => version_from_tool_files(ctx, &python_aliases),
        };
        let version = match resolve_version(ctx, detected, "3.13") {
            Ok(v) => v,
            Err(e) => return Err(e),
        };
        let (copy_files, install_cmd, cache_dirs) = pm.install_info();
        let deps_stage = stage(
            "deps",
            cat("python:", version.as_str()),
            "/app",
            commands1(run(install_cmd, cache_dirs)),
            copy_files,
            no_froms(),
        );
        let runtime_stage = stage(
            "runtime",
            cat3("python:", version.as_str(), "-slim"),
            "/app",
            no_commands(),
            copies1(copy_all()),
            froms1(
                copy_from(
                    "deps",
                    pm.install_target(version.as_str()),
                    pm.install_target(version.as_str()),
                ),
            ),
        );
        let start_cmd = Self::start_command(
            framework,
            match &entry {
                Some(e) => Some(e.as_str()),
                None => None,
            },
        );
        let p = plan("python", stages2(deps_stage, runtime_stage), start_cmd, Some(8000));
        assert(python_plan(ctx@) == Ok::<PlanView, ErrorView>(p@));
        Ok(p)
    }
}

} // verus!

verus! {

/// The deps stage installs with the package manager the project's files
/// name, copying that manager's manifest and lock file: `uv.lock` means uv;
/// otherwise a `Pipfile` or `Pipfile.lock` means Pipenv; otherwise
/// `poetry.lock` or a `[tool.poetry]` section in `pyproject.toml` means
/// Poetry; otherwise `pdm.lock` means PDM; otherwise pip reads
/// `requirements.txt`.
pub proof fn law_python_installs_with_the_projects_manager(c: ContextView)
    requires
        PythonProvider.plans(c) is Ok,
    ensures
        ({
            let d = PythonProvider.plans(c)->Ok_0.stages[0];
            let uv = has(c.project, "uv.lock"@);
            let pipenv = has(c.project, "Pipfile"@) || has(c.project, "Pipfile.lock"@);
            let poetry = has(c.project, "poetry.lock"@) || (text(c.project, "pyproject.toml"@) matches Some(
                t,
            ) && contains_seq(t, "[tool.poetry]"@));
            let pdm = has(c.project, "pdm.lock"@);
            &&& d.name == "deps"@
            &&& d.commands.len() == 1
            &&& uv ==> d.commands[0] == run_view("pip install uv && uv sync --frozen"@, seq!["/root/.cache/uv"@])
                && d.copy_files == seq![copy_view("pyproject.toml"@, "."@), copy_view("uv.lock"@, "."@)]
            &&& !uv && pipenv ==> d.commands[0] == run_view(
                "pip install pipenv && pipenv install --deploy"@,
                seq!["/root/.cache/pipenv"@],
            ) && d.copy_files == seq![copy_view("Pipfile"@, "."@), copy_view("Pipfile.lock"@, "."@)]
            &&& !uv && !pipenv && poetry ==> d.commands[0] == run_view(
                "pip install poetry && poetry install --no-interaction --no-ansi"@,
                seq!["/root/.cache/pypoetry"@],
            ) && d.copy_files == seq![
                copy_view("pyproject.toml"@, "."@),
                copy_view("poetry.lock"@, "."@),
            ]
            &&& !uv && !pipenv && !poetry && pdm ==> d.commands[0] == run_view(
                "pip install pdm && pdm install --frozen"@,
                seq!["/root/.cache/pdm"@],
            ) && d.copy_files == seq![copy_view("pyproject.toml"@, "."@), copy_view("pdm.lock"@, "."@)]
            &&& !uv && !pipenv && !poetry && !pdm ==> d.commands[0] == run_view(
                "pip install --no-cache-dir -r requirements.txt"@,
                seq!["/root/.cache/pip"@],
            ) && d.copy_files == seq![copy_view("requirements.txt"@, "."@)]
        }),
{
}

} // verus!

verus! {

/// A Python web app is served on every interface (`0.0.0.0`) at the port the
/// plan exposes (`$PORT`, by default 8000): Django by gunicorn on the
/// project's WSGI application, FastAPI by uvicorn, Flask by gunicorn, the
/// framework being the first of these that `requirements.txt` or
/// `pyproject.toml` names.
pub proof fn law_python_web_apps_listen_on_the_exposed_port(c: ContextView)
    requires
        PythonProvider.plans(c) is Ok,
    ensures
        ({
            let p = PythonProvider.plans(c)->Ok_0;
            let m = text_or_empty(c, "requirements.txt"@) + "\n"@ + text_or_empty(c, "pyproject.toml"@);
            let django = contains_seq(m, "django"@) || contains_seq(m, "Django"@);
            let fastapi = contains_seq(m, "fastapi"@) || contains_seq(m, "FastAPI"@);
            let flask = contains_seq(m, "flask"@) || contains_seq(m, "Flask"@);
            &&& p.port == Some(8000u16)
            &&& django ==> p.start_command == Some(
                "gunicorn --bind 0.0.0.0:${PORT:-8000} config.wsgi:application"@,
            )
            &&& !django && fastapi ==> exists|module: Seq<char>|
                p.start_command == Some(
                    "uvicorn "@ + module + ":app --host 0.0.0.0 --port ${PORT:-8000}"@,
                )
            &&& !django && !fastapi && flask ==> exists|module: Seq<char>|
                p.start_command == Some("gunicorn --bind 0.0.0.0:${PORT:-8000} "@ + module + ":app"@)
        }),
{
    let e = python_entry(c);
    let fw = python_framework(c);
    if fw == Some(PythonFramework::FastApi) {
        let file = match e {
            Some(f) => f,
            None => "main.py"@,
        };
        let module = module_of(file, "main"@);
        assert(python_start(fw, e) == Some(
            "uvicorn "@ + module + ":app --host 0.0.0.0 --port ${PORT:-8000}"@,
        ));
    } else if fw == Some(PythonFramework::Flask) {
        let file = match e {
            Some(f) => f,
            None => "app.py"@,
        };
        let module = module_of(file, "app"@);
        assert(python_start(fw, e) == Some(
            "gunicorn --bind 0.0.0.0:${PORT:-8000} "@ + module + ":app"@,
        ));
    }
}

} // verus!
