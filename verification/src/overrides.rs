//! User-supplied build overrides and the layering of their sources
//! (CLI flags over `KILN_*` environment variables over the config file).
use vstd::prelude::*;
use crate::plan::EnvMap;
use crate::plan::opt_view;
use crate::text::{chars_of, is_digit, is_digit_char, split_words, string_of, trim, trimmed, views, vviews, words};

verus! {

/// User-supplied overrides that take precedence over a provider's auto-detected
/// build steps (all optional; `None` or empty leaves the detected value in place).
#[derive(Debug)]
pub struct BuildOverrides {
    /// Force a provider instead of auto-detecting (e.g. "node"|"go"|"python").
    pub provider: Option<String>,
    /// Runtime version for the base image, when the provider supports it.
    pub version: Option<String>,
    /// Force a package manager (e.g. "npm"|"pnpm"|"yarn"|"bun").
    pub package_manager: Option<String>,
    /// Replace the dependency-install command.
    pub install_command: Option<String>,
    /// Replace the build command (also forces a build stage when set).
    pub build_command: Option<String>,
    /// Replace the runtime start command.
    pub start_command: Option<String>,
    /// Override the port the application listens on.
    pub port: Option<u16>,
    /// Environment variables to set in the runtime image.
    pub env: EnvMap,
    /// Apt packages to install in the build stage.
    pub build_apt_packages: Vec<String>,
    /// Apt packages to install in the final runtime image.
    pub deploy_apt_packages: Vec<String>,
    /// Override the base image of the final runtime stage.
    pub runtime_image: Option<String>,
    /// Override the base image of the first build stage.
    pub build_image: Option<String>,
    /// Directories to prepend to `PATH` in the runtime image.
    pub paths: Vec<String>,
    /// `BuildKit` secret ids to expose to build-stage commands.
    pub secrets: Vec<String>,
    /// Commands to run at the start of the build stage, before provider steps.
    pub pre_build: Vec<String>,
    /// Commands to run at the end of the build stage, after provider steps.
    pub post_build: Vec<String>,
}

pub struct OverridesView {
    pub provider: Option<Seq<char>>,
    pub version: Option<Seq<char>>,
    pub package_manager: Option<Seq<char>>,
    pub install_command: Option<Seq<char>>,
    pub build_command: Option<Seq<char>>,
    pub start_command: Option<Seq<char>>,
    pub port: Option<u16>,
    pub env: Seq<(Seq<char>, Seq<char>)>,
    pub build_apt_packages: Seq<Seq<char>>,
    pub deploy_apt_packages: Seq<Seq<char>>,
    pub runtime_image: Option<Seq<char>>,
    pub build_image: Option<Seq<char>>,
    pub paths: Seq<Seq<char>>,
    pub secrets: Seq<Seq<char>>,
    pub pre_build: Seq<Seq<char>>,
    pub post_build: Seq<Seq<char>>,
}

impl View for BuildOverrides {
    type V = OverridesView;

    open spec fn view(&self) -> OverridesView {
        OverridesView {
            provider: opt_view(self.provider),
            version: opt_view(self.version),
            package_manager: opt_view(self.package_manager),
            install_command: opt_view(self.install_command),
            build_command: opt_view(self.build_command),
            start_command: opt_view(self.start_command),
            port: self.port,
            env: self.env@,
            build_apt_packages: views(self.build_apt_packages@),
            deploy_apt_packages: views(self.deploy_apt_packages@),
            runtime_image: opt_view(self.runtime_image),
            build_image: opt_view(self.build_image),
            paths: views(self.paths@),
            secrets: views(self.secrets@),
            pre_build: views(self.pre_build@),
            post_build: views(self.post_build@),
        }
    }
}

pub open spec fn either<T>(hi: Option<T>, lo: Option<T>) -> Option<T> {
    if hi is Some {
        hi
    } else {
        lo
    }
}

pub open spec fn nonempty_or<T>(hi: Seq<T>, lo: Seq<T>) -> Seq<T> {
    if hi.len() > 0 {
        hi
    } else {
        lo
    }
}

/// `hi` with each unset field (`None`, or an empty list or map) taken from `lo`.
pub open spec fn layered(hi: OverridesView, lo: OverridesView) -> OverridesView {
    OverridesView {
        provider: either(hi.provider, lo.provider),
        version: either(hi.version, lo.version),
        package_manager: either(hi.package_manager, lo.package_manager),
        install_command: either(hi.install_command, lo.install_command),
        build_command: either(hi.build_command, lo.build_command),
        start_command: either(hi.start_command, lo.start_command),
        port: either(hi.port, lo.port),
        env: nonempty_or(hi.env, lo.env),
        build_apt_packages: nonempty_or(hi.build_apt_packages, lo.build_apt_packages),
        deploy_apt_packages: nonempty_or(hi.deploy_apt_packages, lo.deploy_apt_packages),
        runtime_image: either(hi.runtime_image, lo.runtime_image),
        build_image: either(hi.build_image, lo.build_image),
        paths: nonempty_or(hi.paths, lo.paths),
        secrets: nonempty_or(hi.secrets, lo.secrets),
        pre_build: nonempty_or(hi.pre_build, lo.pre_build),
        post_build: nonempty_or(hi.post_build, lo.post_build),
    }
}

/// The overrides that set nothing.
pub open spec fn no_overrides() -> OverridesView {
    OverridesView {
        provider: None,
        version: None,
        package_manager: None,
        install_command: None,
        build_command: None,
        start_command: None,
        port: None,
        env: Seq::empty(),
        build_apt_packages: Seq::empty(),
        deploy_apt_packages: Seq::empty(),
        runtime_image: None,
        build_image: None,
        paths: Seq::empty(),
        secrets: Seq::empty(),
        pre_build: Seq::empty(),
        post_build: Seq::empty(),
    }
}

pub fn first_of<T>(hi: Option<T>, lo: Option<T>) -> (r: Option<T>)
    ensures
        r == either(hi, lo),
{
    match hi {
        Some(x) => Some(x),
        None => lo,
    }
}

fn nonempty_vec_or(hi: Vec<String>, lo: Vec<String>) -> (r: Vec<String>)
    ensures
        views(r@) == nonempty_or(views(hi@), views(lo@)),
{
    if hi.len() > 0 {
        hi
    } else {
        lo
    }
}

fn nonempty_env_or(hi: EnvMap, lo: EnvMap) -> (r: EnvMap)
    ensures
        r@ == nonempty_or(hi@, lo@),
{
    if hi.is_empty() {
        lo
    } else {
        hi
    }
}

/// Layer two sets of overrides: each field set on `hi` wins, each unset one
/// (`None`, or an empty list or map) is taken from `lo`.
pub fn layer(hi: BuildOverrides, lo: BuildOverrides) -> (r: BuildOverrides)
    ensures
        r@ == layered(hi@, lo@),
{
    BuildOverrides {
        provider: first_of(hi.provider, lo.provider),
        version: first_of(hi.version, lo.version),
        package_manager: first_of(hi.package_manager, lo.package_manager),
        install_command: first_of(hi.install_command, lo.install_command),
        build_command: first_of(hi.build_command, lo.build_command),
        start_command: first_of(hi.start_command, lo.start_command),
        port: first_of(hi.port, lo.port),
        env: nonempty_env_or(hi.env, lo.env),
        build_apt_packages: nonempty_vec_or(hi.build_apt_packages, lo.build_apt_packages),
        deploy_apt_packages: nonempty_vec_or(hi.deploy_apt_packages, lo.deploy_apt_packages),
        runtime_image: first_of(hi.runtime_image, lo.runtime_image),
        build_image: first_of(hi.build_image, lo.build_image),
        paths: nonempty_vec_or(hi.paths, lo.paths),
        secrets: nonempty_vec_or(hi.secrets, lo.secrets),
        pre_build: nonempty_vec_or(hi.pre_build, lo.pre_build),
        post_build: nonempty_vec_or(hi.post_build, lo.post_build),
    }
}

impl Default for BuildOverrides {
    fn default() -> (o: BuildOverrides)
        ensures
            o@ == no_overrides(),
    {
        let o = BuildOverrides {
            provider: None,
            version: None,
            package_manager: None,
            install_command: None,
            build_command: None,
            start_command: None,
            port: None,
            env: EnvMap::new(),
            build_apt_packages: Vec::new(),
            deploy_apt_packages: Vec::new(),
            runtime_image: None,
            build_image: None,
            paths: Vec::new(),
            secrets: Vec::new(),
            pre_build: Vec::new(),
            post_build: Vec::new(),
        };
        assert(views(o.paths@) =~= Seq::empty());
        assert(o@ =~= no_overrides());
        o
    }
}

// ---------------------------------------------------------------------------
// Port numbers

pub open spec fn digit_value(c: char) -> int {
    (c as u32) - 48
}

/// The number a run of decimal digits spells.
pub open spec fn digits_value(d: Seq<char>) -> int
    decreases d.len(),
{
    if d.len() == 0 {
        0
    } else {
        digits_value(d.drop_last()) * 10 + digit_value(d.last())
    }
}

pub open spec fn all_digits(d: Seq<char>) -> bool {
    forall|i: int| 0 <= i < d.len() ==> is_digit(#[trigger] d[i])
}

/// What `str::parse::<u16>` gives for `s`: an optional `+`, then one or more
/// decimal digits spelling a number that fits in 16 bits.
pub open spec fn parsed_u16(s: Seq<char>) -> Option<u16> {
    let d = if s.len() > 0 && s[0] == '+' {
        s.drop_first()
    } else {
        s
    };
    if d.len() > 0 && all_digits(d) && digits_value(d) <= 65535 {
        Some(digits_value(d) as u16)
    } else {
        None
    }
}

proof fn lemma_digits_value_grows(d: Seq<char>, k: int)
    requires
        all_digits(d),
        0 <= k <= d.len(),
    ensures
        digits_value(d.take(k)) <= digits_value(d),
        digits_value(d) >= 0,
    decreases d.len(),
{
    if d.len() > 0 {
        let p = d.drop_last();
        assert(all_digits(p));
        if k < d.len() {
            assert(p.take(k) =~= d.take(k));
            lemma_digits_value_grows(p, k);
        } else {
            assert(d.take(k) =~= d);
            lemma_digits_value_grows(p, 0);
        }
        assert(is_digit(d.last()));
    }
}

/// Parse a port number as `str::parse::<u16>` does.
pub fn parse_u16(s: &[char]) -> (r: Option<u16>)
    ensures
        r == parsed_u16(s@),
{
    let start: usize = if s.len() > 0 && s[0] == '+' {
        1
    } else {
        0
    };
    let ghost d = s@.skip(start as int);
    assert(d =~= (if s@.len() > 0 && s@[0] == '+' {
        s@.drop_first()
    } else {
        s@
    }));
    if start >= s.len() {
        return None;
    }
    let mut acc: u32 = 0;
    let mut i: usize = start;
    assert(d.take(0) =~= Seq::<char>::empty());
    while i < s.len()
        invariant
            start <= i <= s@.len(),
            d == s@.skip(start as int),
            d == (if s@.len() > 0 && s@[0] == '+' {
                s@.drop_first()
            } else {
                s@
            }),
            acc as int == digits_value(d.take(i - start)),
            acc <= 65535,
            all_digits(d.take(i - start)),
        decreases s@.len() - i,
    {
        let c = s[i];
        proof {
            assert(d.take(i - start + 1).drop_last() =~= d.take(i - start));
            assert(d.take(i - start + 1).last() == c);
        }
        if !is_digit_char(c) {
            assert(!is_digit(d[i - start]));
            return None;
        }
        let v: u32 = acc * 10 + ((c as u32) - 48);
        proof {
            assert(all_digits(d.take(i - start + 1)));
            assert(digits_value(d.take(i - start + 1)) == v as int);
        }
        if v > 65535 {
            proof {
                if all_digits(d) {
                    lemma_digits_value_grows(d, i - start + 1);
                }
            }
            return None;
        }
        acc = v;
        i = i + 1;
    }
    assert(d.take(i - start) =~= d);
    Some(acc as u16)
}

// ---------------------------------------------------------------------------
// Environment variables

/// A value that is present and not blank.
pub open spec fn nonblank(raw: Option<String>) -> Option<Seq<char>> {
    match raw {
        Some(v) => if trim(v@).len() > 0 {
            Some(v@)
        } else {
            None
        },
        None => None,
    }
}

pub open spec fn port_of(v: Option<Seq<char>>) -> Option<u16> {
    match v {
        Some(s) => parsed_u16(trim(s)),
        None => None,
    }
}

pub open spec fn list_of(v: Option<Seq<char>>) -> Seq<Seq<char>> {
    match v {
        Some(s) => words(s),
        None => Seq::empty(),
    }
}

fn read_var<F: Fn(&str) -> Option<String>>(get: &F, key: &str) -> (r: Option<String>)
    requires
        forall|k: &str| get.requires((k,)),
    ensures
        exists|raw: Option<String>| #[trigger] call_ensures(*get, (key,), raw) && opt_view(r)
            == nonblank(raw),
{
    let raw = get(key);
    match raw {
        Some(v) => {
            let t = trimmed(&chars_of(v.as_str()));
            if t.len() > 0 {
                Some(v)
            } else {
                None
            }
        },
        None => None,
    }
}

fn list_from(v: &Option<String>) -> (r: Vec<String>)
    ensures
        views(r@) == list_of(opt_view(*v)),
{
    match v {
        Some(s) => {
            let ws = split_words(&chars_of(s.as_str()));
            let mut out: Vec<String> = Vec::new();
            let mut i: usize = 0;
            while i < ws.len()
                invariant
                    i <= ws@.len(),
                    views(out@) == vviews(ws@).take(i as int),
                decreases ws@.len() - i,
            {
                let w = string_of(ws[i].as_slice());
                proof {
                    crate::text::lemma_views_push(out@, w);
                    assert(vviews(ws@).take(i + 1) =~= vviews(ws@).take(i as int).push(ws@[i as int]@));
                }
                out.push(w);
                i = i + 1;
            }
            assert(vviews(ws@).take(ws@.len() as int) =~= vviews(ws@));
            out
        },
        None => {
            let out: Vec<String> = Vec::new();
            assert(views(out@) =~= Seq::empty());
            out
        },
    }
}

fn port_from(v: &Option<String>) -> (r: Option<u16>)
    ensures
        r == port_of(opt_view(*v)),
{
    match v {
        Some(s) => parse_u16(&trimmed(&chars_of(s.as_str()))),
        None => None,
    }
}

impl BuildOverrides {
    /// Fill this override's unset fields from `lower`, a lower-precedence
    /// source. Fields already set on `self` win; `None` scalars and empty
    /// collections are filled from `lower`.
    pub fn or(self, lower: BuildOverrides) -> (r: BuildOverrides)
        ensures
            r@ == layered(self@, lower@),
    {
        layer(self, lower)
    }

    /// Build overrides from `KILN_*` variables, reading each name through
    /// `get`. A missing or blank value leaves the field unset; package lists,
    /// paths and secrets are whitespace-separated; the port is parsed as a
    /// 16-bit number (an unparsable port is left unset). Build hooks are not
    /// read from the environment.
    pub fn from_env_with<F: Fn(&str) -> Option<String>>(get: F) -> (o: BuildOverrides)
        requires
            forall|k: &str| get.requires((k,)),
        ensures
            exists|raw: Option<String>| #[trigger] call_ensures(get, ("KILN_PROVIDER",), raw)
                && o@.provider == nonblank(raw),
            exists|raw: Option<String>| #[trigger] call_ensures(get, ("KILN_VERSION",), raw)
                && o@.version == nonblank(raw),
            exists|raw: Option<String>| #[trigger]
                call_ensures(get, ("KILN_PACKAGE_MANAGER",), raw) && o@.package_manager
                    == nonblank(raw),
            exists|raw: Option<String>| #[trigger] call_ensures(get, ("KILN_INSTALL_CMD",), raw)
                && o@.install_command == nonblank(raw),
            exists|raw: Option<String>| #[trigger] call_ensures(get, ("KILN_BUILD_CMD",), raw)
                && o@.build_command == nonblank(raw),
            exists|raw: Option<String>| #[trigger] call_ensures(get, ("KILN_START_CMD",), raw)
                && o@.start_command == nonblank(raw),
            exists|raw: Option<String>| #[trigger] call_ensures(get, ("KILN_PORT",), raw)
                && o@.port == port_of(nonblank(raw)),
            exists|raw: Option<String>| #[trigger]
                call_ensures(get, ("KILN_BUILD_APT_PACKAGES",), raw) && o@.build_apt_packages
                    == list_of(nonblank(raw)),
            exists|raw: Option<String>| #[trigger]
                call_ensures(get, ("KILN_DEPLOY_APT_PACKAGES",), raw) && o@.deploy_apt_packages
                    == list_of(nonblank(raw)),
            exists|raw: Option<String>| #[trigger] call_ensures(get, ("KILN_RUNTIME_IMAGE",), raw)
                && o@.runtime_image == nonblank(raw),
            exists|raw: Option<String>| #[trigger] call_ensures(get, ("KILN_BUILD_IMAGE",), raw)
                && o@.build_image == nonblank(raw),
            exists|raw: Option<String>| #[trigger] call_ensures(get, ("KILN_PATHS",), raw)
                && o@.paths == list_of(nonblank(raw)),
            exists|raw: Option<String>| #[trigger] call_ensures(get, ("KILN_SECRETS",), raw)
                && o@.secrets == list_of(nonblank(raw)),
            o@.env.len() == 0,
            o@.pre_build.len() == 0,
            o@.post_build.len() == 0,
    {
        let port = read_var(&get, "KILN_PORT");
        let build_apt = read_var(&get, "KILN_BUILD_APT_PACKAGES");
        let deploy_apt = read_var(&get, "KILN_DEPLOY_APT_PACKAGES");
        let paths = read_var(&get, "KILN_PATHS");
        let secrets = read_var(&get, "KILN_SECRETS");
        let o = BuildOverrides {
            provider: read_var(&get, "KILN_PROVIDER"),
            version: read_var(&get, "KILN_VERSION"),
            package_manager: read_var(&get, "KILN_PACKAGE_MANAGER"),
            install_command: read_var(&get, "KILN_INSTALL_CMD"),
            build_command: read_var(&get, "KILN_BUILD_CMD"),
            start_command: read_var(&get, "KILN_START_CMD"),
            port: port_from(&port),
            env: EnvMap::new(),
            build_apt_packages: list_from(&build_apt),
            deploy_apt_packages: list_from(&deploy_apt),
            runtime_image: read_var(&get, "KILN_RUNTIME_IMAGE"),
            build_image: read_var(&get, "KILN_BUILD_IMAGE"),
            paths: list_from(&paths),
            secrets: list_from(&secrets),
            pre_build: Vec::new(),
            post_build: Vec::new(),
        };
        o
    }
}

} // verus!

verus! {

// ---------------------------------------------------------------------------
// Laws of layering

/// A field set on the higher layer is kept; an unset one comes from the
/// lower layer (CLI flags over `KILN_*` variables over the config file).
pub proof fn law_set_fields_win(hi: OverridesView, lo: OverridesView)
    ensures
        hi.provider is Some ==> layered(hi, lo).provider == hi.provider,
        hi.provider is None ==> layered(hi, lo).provider == lo.provider,
        hi.version is Some ==> layered(hi, lo).version == hi.version,
        hi.version is None ==> layered(hi, lo).version == lo.version,
        hi.start_command is Some ==> layered(hi, lo).start_command == hi.start_command,
        hi.port is Some ==> layered(hi, lo).port == hi.port,
        hi.port is None ==> layered(hi, lo).port == lo.port,
        hi.env.len() > 0 ==> layered(hi, lo).env == hi.env,
        hi.env.len() == 0 ==> layered(hi, lo).env == lo.env,
        hi.paths.len() > 0 ==> layered(hi, lo).paths == hi.paths,
        hi.paths.len() == 0 ==> layered(hi, lo).paths == lo.paths,
{
}

/// Layering over, or under, overrides that set nothing changes nothing.
pub proof fn law_nothing_is_neutral(o: OverridesView)
    ensures
        layered(o, no_overrides()) == o,
        layered(no_overrides(), o) == o,
{
    assert(layered(o, no_overrides()) =~= o) by {
        assert(nonempty_or(o.env, Seq::empty()) == o.env);
        assert(nonempty_or(o.build_apt_packages, Seq::empty()) == o.build_apt_packages);
        assert(nonempty_or(o.deploy_apt_packages, Seq::empty()) == o.deploy_apt_packages);
        assert(nonempty_or(o.paths, Seq::empty()) == o.paths);
        assert(nonempty_or(o.secrets, Seq::empty()) == o.secrets);
        assert(nonempty_or(o.pre_build, Seq::empty()) == o.pre_build);
        assert(nonempty_or(o.post_build, Seq::empty()) == o.post_build);
    }
}

/// Layering is associative: merging CLI over environment and then over the
/// config file is the same as CLI over (environment over config file).
pub proof fn law_layering_associates(a: OverridesView, b: OverridesView, c: OverridesView)
    ensures
        layered(layered(a, b), c) == layered(a, layered(b, c)),
{
}

/// Layering a source over itself gives it back.
pub proof fn law_layering_idempotent(o: OverridesView)
    ensures
        layered(o, o) == o,
{
}

} // verus!
