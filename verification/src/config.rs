//! Optional project configuration, from `kiln.json` or `kiln.toml`.
//!
//! Kiln is zero-config by default: every field here is optional and, when
//! unset, falls back to auto-detection. Reading and parsing the file happens
//! outside the library; this is the parsed form and how it is folded into
//! the caller's overrides.
use vstd::prelude::*;
use crate::overrides::{BuildOverrides, OverridesView, layer, layered};
use crate::plan::{EnvMap, opt_view};
use crate::text::views;

verus! {

/// User-provided build configuration. All fields are optional.
#[derive(Debug)]
pub struct KilnConfig {
    /// Force a provider instead of auto-detecting (e.g. `node`, `go`, `python`).
    pub provider: Option<String>,
    /// Runtime version for the base image, when the provider supports it.
    pub version: Option<String>,
    /// Force a package manager (e.g. `npm`, `pnpm`, `yarn`, `bun`).
    pub package_manager: Option<String>,
    /// Replace the dependency-install command.
    pub install_command: Option<String>,
    /// Replace the build command (also forces a build stage when set).
    pub build_command: Option<String>,
    /// Replace the runtime start command.
    pub start_command: Option<String>,
    /// Port the application listens on.
    pub port: Option<u16>,
    /// Environment variables to set in the runtime image.
    pub env: EnvMap,
    /// Apt packages to install in the build stage.
    pub build_apt_packages: Vec<String>,
    /// Apt packages to install in the final runtime image.
    pub deploy_apt_packages: Vec<String>,
    /// Override the base image of the final runtime stage.
    pub runtime_image: Option<String>,
    /// Override the base image of the first build stage.
    pub build_image: Option<String>,
    /// Directories to prepend to `PATH` in the runtime image.
    pub paths: Vec<String>,
    /// `BuildKit` secret ids to expose to build-stage commands.
    pub secrets: Vec<String>,
    /// Commands to run at the start of the build stage, before the provider's own steps.
    pub pre_build: Vec<String>,
    /// Commands to run at the end of the build stage, after the provider's own steps.
    pub post_build: Vec<String>,
}

impl View for KilnConfig {
    type V = OverridesView;

    open spec fn view(&self) -> OverridesView {
        OverridesView {
            provider: opt_view(self.provider),
            version: opt_view(self.version),
            package_manager: opt_view(self.package_manager),
            install_command: opt_view(self.install_command),
            build_command: opt_view(self.build_command),
            start_command: opt_view(self.start_command),
            port: self.port,
            env: self.env@,
            build_apt_packages: views(self.build_apt_packages@),
            deploy_apt_packages: views(self.deploy_apt_packages@),
            runtime_image: opt_view(self.runtime_image),
            build_image: opt_view(self.build_image),
            paths: views(self.paths@),
            secrets: views(self.secrets@),
            pre_build: views(self.pre_build@),
            post_build: views(self.post_build@),
        }
    }
}

impl Default for KilnConfig {
    /// A configuration that sets nothing.
    fn default() -> (c: KilnConfig)
        ensures
            c@ == crate::overrides::no_overrides(),
    {
        let c = KilnConfig {
            provider: None,
            version: None,
            package_manager: None,
            install_command: None,
            build_command: None,
            start_command: None,
            port: None,
            env: EnvMap::new(),
            build_apt_packages: Vec::new(),
            deploy_apt_packages: Vec::new(),
            runtime_image: None,
            build_image: None,
            paths: Vec::new(),
            secrets: Vec::new(),
            pre_build: Vec::new(),
            post_build: Vec::new(),
        };
        assert(views(c.paths@) =~= Seq::empty());
        assert(c@ =~= crate::overrides::no_overrides());
        c
    }
}

impl KilnConfig {
    /// Fold this configuration into `overrides`, filling only the fields that
    /// `overrides` leaves unset, so an explicit flag always wins over the file.
    pub fn merge_into(self, overrides: BuildOverrides) -> (r: BuildOverrides)
        ensures
            r@ == layered(overrides@, self@),
    {
        let lower = BuildOverrides {
            provider: self.provider,
            version: self.version,
            package_manager: self.package_manager,
            install_command: self.install_command,
            build_command: self.build_command,
            start_command: self.start_command,
            port: self.port,
            env: self.env,
            build_apt_packages: self.build_apt_packages,
            deploy_apt_packages: self.deploy_apt_packages,
            runtime_image: self.runtime_image,
            build_image: self.build_image,
            paths: self.paths,
            secrets: self.secrets,
            pre_build: self.pre_build,
            post_build: self.post_build,
        };
        layer(overrides, lower)
    }
}

} // verus!
