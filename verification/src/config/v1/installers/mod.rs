//! installer config

use std::collections::BTreeMap;
use vstd::prelude::*;

pub mod homebrew;
pub mod msi;
pub mod npm;
pub mod pkg;
pub mod powershell;
pub mod shell;

use homebrew::{HomebrewInstallerConfig, HomebrewInstallerLayer};
use msi::{MsiInstallerConfig, MsiInstallerLayer};
use npm::{NpmInstallerConfig, NpmInstallerLayer};
use pkg::{PkgInstallerConfig, PkgInstallerLayer};
use powershell::{PowershellInstallerConfig, PowershellInstallerLayer};
use shell::{ShellInstallerConfig, ShellInstallerLayer};

use crate::config::v1::layer::{
    bool_layered, opt_or, val_or, ApplyBoolLayerExt, ApplyLayer, ApplyOptExt, ApplyValExt, BoolOr,
};
use crate::config::{InstallPathStrategy, LibraryStyle};
use crate::strings::owned;
use crate::workspace::{PackageIdx, WorkspaceGraph};

verus! {

/// Binary aliases: binary name to the names it is also installed as
pub type BinAliases = BTreeMap<String, Vec<String>>;

/// workspace installer config (final)
#[derive(Debug, Clone, Copy, PartialEq, Eq)]
pub struct WorkspaceInstallerConfig {
    /// Whether to install an updater program alongside the software
    pub updater: bool,
    /// Whether to always use the latest version instead of a known-good version
    pub always_use_latest_updater: bool,
}

/// package installer config (final)
#[derive(Debug)]
pub struct AppInstallerConfig {
    /// homebrew installer
    pub homebrew: Option<HomebrewInstallerConfig>,
    /// msi installer
    pub msi: Option<MsiInstallerConfig>,
    /// npm installer
    pub npm: Option<NpmInstallerConfig>,
    /// powershell installer
    pub powershell: Option<PowershellInstallerConfig>,
    /// shell installer
    pub shell: Option<ShellInstallerConfig>,
    /// pkg installer
    pub pkg: Option<PkgInstallerConfig>,
}

/// installer config (inheritance not yet applied)
#[derive(Debug)]
pub struct InstallerConfigInheritable {
    /// inheritable fields
    pub common: CommonInstallerConfig,
    /// homebrew installer
    pub homebrew: Option<HomebrewInstallerLayer>,
    /// msi installer
    pub msi: Option<MsiInstallerLayer>,
    /// npm installer
    pub npm: Option<NpmInstallerLayer>,
    /// powershell installer
    pub powershell: Option<PowershellInstallerLayer>,
    /// shell installer
    pub shell: Option<ShellInstallerLayer>,
    /// pkg installer
    pub pkg: Option<PkgInstallerLayer>,
    /// Whether to install an updater program alongside the software
    pub updater: bool,
    /// Whether to always use the latest version instead of a fixed version
    pub always_use_latest_updater: bool,
}

/// installer config (raw from file)
#[derive(Debug)]
pub struct InstallerLayer {
    /// inheritable fields
    pub common: CommonInstallerLayer,
    /// homebrew installer
    pub homebrew: Option<BoolOr<HomebrewInstallerLayer>>,
    /// msi installer
    pub msi: Option<BoolOr<MsiInstallerLayer>>,
    /// npm installer
    pub npm: Option<BoolOr<NpmInstallerLayer>>,
    /// powershell installer
    pub powershell: Option<BoolOr<PowershellInstallerLayer>>,
    /// shell installer
    pub shell: Option<BoolOr<ShellInstallerLayer>>,
    /// pkg installer
    pub pkg: Option<BoolOr<PkgInstallerLayer>>,
    /// Whether to install an updater program alongside the software
    pub updater: Option<bool>,
    /// Whether to always use the latest updater version instead of a fixed version
    pub always_use_latest_updater: Option<bool>,
}

impl InstallerLayer {
    /// The layer that sets nothing
    pub open spec fn spec_default() -> InstallerLayer {
        InstallerLayer {
            common: CommonInstallerLayer::spec_default(),
            homebrew: None,
            msi: None,
            npm: None,
            powershell: None,
            shell: None,
            pkg: None,
            updater: None,
            always_use_latest_updater: None,
        }
    }
}

impl Default for InstallerLayer {
    fn default() -> (r: Self)
        ensures
            r == InstallerLayer::spec_default(),
    {
        InstallerLayer {
            common: CommonInstallerLayer::default(),
            homebrew: None,
            msi: None,
            npm: None,
            powershell: None,
            shell: None,
            pkg: None,
            updater: None,
            always_use_latest_updater: None,
        }
    }
}

impl WorkspaceInstallerConfig {
    /// The workspace installer config that `src` resolves to
    pub open spec fn inherits(self, src: InstallerConfigInheritable) -> bool {
        self == (WorkspaceInstallerConfig {
            updater: src.updater,
            always_use_latest_updater: src.always_use_latest_updater,
        })
    }
}

impl AppInstallerConfig {
    /// The package installer config that `src` resolves to for the package named `package_name`
    pub open spec fn inherits(self, src: InstallerConfigInheritable, package_name: Seq<char>) -> bool {
        &&& self.homebrew is Some == src.homebrew is Some
        &&& self.homebrew is Some ==> self.homebrew->0.resolved_from(src.common, src.homebrew->0)
        &&& self.msi is Some == src.msi is Some
        &&& self.msi is Some ==> self.msi->0.resolved_from(src.common, src.msi->0)
        &&& self.npm is Some == src.npm is Some
        &&& self.npm is Some ==> self.npm->0.resolved_from(src.common, src.npm->0, package_name)
        &&& self.powershell is Some == src.powershell is Some
        &&& self.powershell is Some ==> self.powershell->0.resolved_from(src.common, src.powershell->0)
        &&& self.shell is Some == src.shell is Some
        &&& self.shell is Some ==> self.shell->0.resolved_from(src.common, src.shell->0)
        &&& self.pkg is Some == src.pkg is Some
        &&& self.pkg is Some ==> self.pkg->0.resolved_from(src.common, src.pkg->0)
    }
}

impl InstallerConfigInheritable {
    /// The installer settings before any layer
    pub open spec fn is_defaults(self) -> bool {
        &&& self.common.is_defaults()
        &&& self.homebrew is None
        &&& self.msi is None
        &&& self.npm is None
        &&& self.powershell is None
        &&& self.shell is None
        &&& self.pkg is None
        &&& !self.updater
        &&& !self.always_use_latest_updater
    }

    /// defaults for a workspace
    pub fn defaults_for_workspace(_workspaces: &WorkspaceGraph) -> (r: Self)
        ensures
            r.is_defaults(),
    {
        Self::defaults()
    }

    /// defaults for a package
    pub fn defaults_for_package(_workspaces: &WorkspaceGraph, _pkg_idx: PackageIdx) -> (r: Self)
        ensures
            r.is_defaults(),
    {
        Self::defaults()
    }

    /// defaults
    pub fn defaults() -> (r: Self)
        ensures
            r.is_defaults(),
    {
        Self {
            common: CommonInstallerConfig::defaults(),
            homebrew: None,
            msi: None,
            npm: None,
            powershell: None,
            shell: None,
            pkg: None,
            updater: false,
            always_use_latest_updater: false,
        }
    }

    /// apply inheritance to and get final workspace config
    pub fn apply_inheritance_for_workspace(self, _workspaces: &WorkspaceGraph) -> (r:
        WorkspaceInstallerConfig)
        ensures
            r.inherits(self),
    {
        let Self {
            // global
            updater,
            always_use_latest_updater,
            // local-only
            common: _,
            homebrew: _,
            msi: _,
            npm: _,
            powershell: _,
            shell: _,
            pkg: _,
        } = self;

        WorkspaceInstallerConfig { updater, always_use_latest_updater }
    }

    /// apply inheritance to get final package config
    pub fn apply_inheritance_for_package(self, workspaces: &WorkspaceGraph, pkg_idx: PackageIdx) -> (r:
        AppInstallerConfig)
        requires
            workspaces.has_package(pkg_idx),
        ensures
            r.inherits(self, workspaces.package_name(pkg_idx)),
    {
        let Self {
            common,
            homebrew,
            msi,
            npm,
            powershell,
            shell,
            pkg,
            // global-only
            updater: _,
            always_use_latest_updater: _,
        } = self;
        let homebrew = match homebrew {
            Some(homebrew) => {
                let mut default = HomebrewInstallerConfig::defaults_for_package(
                    workspaces,
                    pkg_idx,
                    &common,
                );
                default.apply_layer(homebrew);
                Some(default)
            },
            None => None,
        };
        let msi = match msi {
            Some(msi) => {
                let mut default = MsiInstallerConfig::defaults_for_package(workspaces, pkg_idx, &common);
                default.apply_layer(msi);
                Some(default)
            },
            None => None,
        };
        let npm = match npm {
            Some(npm) => {
                let mut default = NpmInstallerConfig::defaults_for_package(workspaces, pkg_idx, &common);
                default.apply_layer(npm);
                Some(default)
            },
            None => None,
        };
        let powershell = match powershell {
            Some(powershell) => {
                let mut default = PowershellInstallerConfig::defaults_for_package(
                    workspaces,
                    pkg_idx,
                    &common,
                );
                default.apply_layer(powershell);
                Some(default)
            },
            None => None,
        };
        let shell = match shell {
            Some(shell) => {
                let mut default = ShellInstallerConfig::defaults_for_package(
                    workspaces,
                    pkg_idx,
                    &common,
                );
                default.apply_layer(shell);
                Some(default)
            },
            None => None,
        };
        let pkg = match pkg {
            Some(pkg) => {
                let mut default = PkgInstallerConfig::defaults_for_package(workspaces, pkg_idx, &common);
                default.apply_layer(pkg);
                Some(default)
            },
            None => None,
        };
        AppInstallerConfig { homebrew, msi, npm, powershell, shell, pkg }
    }
}

impl ApplyLayer for InstallerConfigInheritable {
    type Layer = InstallerLayer;

    open spec fn layered(self, layer: InstallerLayer) -> Self {
        InstallerConfigInheritable {
            common: self.common.layered(layer.common),
            homebrew: bool_layered(
                self.homebrew,
                layer.homebrew,
                HomebrewInstallerLayer { common: CommonInstallerLayer::spec_default(), tap: None, formula: None },
            ),
            msi: bool_layered(self.msi, layer.msi, MsiInstallerLayer { common: CommonInstallerLayer::spec_default() }),
            npm: bool_layered(
                self.npm,
                layer.npm,
                NpmInstallerLayer { common: CommonInstallerLayer::spec_default(), package: None, scope: None },
            ),
            powershell: bool_layered(
                self.powershell,
                layer.powershell,
                PowershellInstallerLayer { common: CommonInstallerLayer::spec_default() },
            ),
            shell: bool_layered(self.shell, layer.shell, ShellInstallerLayer { common: CommonInstallerLayer::spec_default() }),
            pkg: bool_layered(
                self.pkg,
                layer.pkg,
                PkgInstallerLayer {
                    common: CommonInstallerLayer::spec_default(),
                    identifier: None,
                    install_location: None,
                },
            ),
            updater: val_or(self.updater, layer.updater),
            always_use_latest_updater: val_or(
                self.always_use_latest_updater,
                layer.always_use_latest_updater,
            ),
        }
    }

    #[verifier::rlimit(50)]
    fn apply_layer(&mut self, layer: InstallerLayer) {
        let InstallerLayer {
            common,
            homebrew,
            msi,
            npm,
            powershell,
            shell,
            pkg,
            updater,
            always_use_latest_updater,
        } = layer;
        self.common.apply_layer(common);
        self.homebrew.apply_bool_layer(homebrew);
        self.msi.apply_bool_layer(msi);
        self.npm.apply_bool_layer(npm);
        self.powershell.apply_bool_layer(powershell);
        self.shell.apply_bool_layer(shell);
        self.pkg.apply_bool_layer(pkg);
        self.updater.apply_val(updater);
        self.always_use_latest_updater.apply_val(always_use_latest_updater);
    }
}

/// inheritable installer fields (raw from file)
#[derive(Debug)]
pub struct CommonInstallerLayer {
    /// The strategy to use for selecting a path to install things at:
    ///
    /// * `CARGO_HOME`: (default) install as if cargo did
    ///   (try `$CARGO_HOME/bin/`, but if `$CARGO_HOME` isn't set use `$HOME/.cargo/bin/`)
    /// * `~/some/subdir/`: install to the given subdir of the user's `$HOME`
    /// * `$SOME_VAR/some/subdir`: install to the given subdir of the dir defined by `$SOME_VAR`
    pub install_path: Option<Vec<InstallPathStrategy>>,
    /// Custom success message for installers
    pub install_success_msg: Option<String>,
    /// Whether installers should install libraries from the release archive
    pub install_libraries: Option<Vec<LibraryStyle>>,
    /// Aliases to install binaries as
    pub bin_aliases: Option<BinAliases>,
}

impl CommonInstallerLayer {
    /// The layer that sets nothing
    pub open spec fn spec_default() -> CommonInstallerLayer {
        CommonInstallerLayer {
            install_path: None,
            install_success_msg: None,
            install_libraries: None,
            bin_aliases: None,
        }
    }
}

impl Default for CommonInstallerLayer {
    fn default() -> (r: Self)
        ensures
            r == CommonInstallerLayer::spec_default(),
    {
        CommonInstallerLayer {
            install_path: None,
            install_success_msg: None,
            install_libraries: None,
            bin_aliases: None,
        }
    }
}

/// inheritable installer fields (final)
#[derive(Debug)]
pub struct CommonInstallerConfig {
    /// The strategy to use for selecting a path to install things at
    pub install_path: Vec<InstallPathStrategy>,
    /// Custom success message for installers
    pub install_success_msg: String,
    /// Whether installers should install libraries from the release archive
    pub install_libraries: Vec<LibraryStyle>,
    /// Aliases to install binaries as
    pub bin_aliases: BinAliases,
    /// Whether to install an updater program alongside the software
    pub install_updater: bool,
}

/// A copy of a list of install paths
pub fn clone_install_paths(v: &Vec<InstallPathStrategy>) -> (r: Vec<InstallPathStrategy>)
    ensures
        r@ == v@,
{
    let mut out: Vec<InstallPathStrategy> = Vec::new();
    let mut i: usize = 0;
    while i < v.len()
        invariant
            i <= v.len(),
            out@ == v@.take(i as int),
        decreases v.len() - i,
    {
        out.push(v[i].clone());
        i = i + 1;
    }
    assert(v@.take(v.len() as int) == v@);
    out
}

/// A copy of a list of library styles
pub fn clone_library_styles(v: &Vec<LibraryStyle>) -> (r: Vec<LibraryStyle>)
    ensures
        r@ == v@,
{
    let mut out: Vec<LibraryStyle> = Vec::new();
    let mut i: usize = 0;
    while i < v.len()
        invariant
            i <= v.len(),
            out@ == v@.take(i as int),
        decreases v.len() - i,
    {
        out.push(v[i]);
        i = i + 1;
    }
    assert(v@.take(v.len() as int) == v@);
    out
}

impl CommonInstallerConfig {
    /// Both hold the same settings
    pub open spec fn same_as(self, other: CommonInstallerConfig) -> bool {
        &&& self.install_path@ == other.install_path@
        &&& self.install_success_msg == other.install_success_msg
        &&& self.install_libraries@ == other.install_libraries@
        &&& self.bin_aliases@ == other.bin_aliases@
        &&& self.install_updater == other.install_updater
    }

    /// The installer settings before any layer
    pub open spec fn is_defaults(self) -> bool {
        &&& self.install_path@ == seq![InstallPathStrategy::CargoHome]
        &&& self.install_success_msg@ == "everything's installed!"@
        &&& self.install_libraries@ == Seq::<LibraryStyle>::empty()
        &&& self.bin_aliases@ == Map::<String, Vec<String>>::empty()
        &&& !self.install_updater
    }

    /// defaults
    pub fn defaults() -> (r: Self)
        ensures
            r.is_defaults(),
    {
        Self {
            install_path: InstallPathStrategy::default_list(),
            install_success_msg: owned("everything's installed!"),
            install_libraries: Vec::new(),
            bin_aliases: BTreeMap::new(),
            install_updater: false,
        }
    }
}

impl Clone for CommonInstallerConfig {
    fn clone(&self) -> (r: Self)
        ensures
            r.same_as(*self),
    {
        CommonInstallerConfig {
            install_path: clone_install_paths(&self.install_path),
            install_success_msg: self.install_success_msg.clone(),
            install_libraries: clone_library_styles(&self.install_libraries),
            bin_aliases: self.bin_aliases.clone(),
            install_updater: self.install_updater,
        }
    }
}

impl ApplyLayer for CommonInstallerConfig {
    type Layer = CommonInstallerLayer;

    open spec fn layered(self, layer: CommonInstallerLayer) -> Self {
        CommonInstallerConfig {
            install_path: val_or(self.install_path, layer.install_path),
            install_success_msg: val_or(self.install_success_msg, layer.install_success_msg),
            install_libraries: val_or(self.install_libraries, layer.install_libraries),
            bin_aliases: val_or(self.bin_aliases, layer.bin_aliases),
            install_updater: self.install_updater,
        }
    }

    fn apply_layer(&mut self, layer: CommonInstallerLayer) {
        let CommonInstallerLayer {
            install_path,
            install_success_msg,
            install_libraries,
            bin_aliases,
        } = layer;
        self.install_path.apply_val(install_path);
        self.install_success_msg.apply_val(install_success_msg);
        self.install_libraries.apply_val(install_libraries);
        self.bin_aliases.apply_val(bin_aliases);
    }
}

impl ApplyLayer for CommonInstallerLayer {
    type Layer = CommonInstallerLayer;

    open spec fn layered(self, layer: CommonInstallerLayer) -> Self {
        CommonInstallerLayer {
            install_path: opt_or(self.install_path, layer.install_path),
            install_success_msg: opt_or(self.install_success_msg, layer.install_success_msg),
            install_libraries: opt_or(self.install_libraries, layer.install_libraries),
            bin_aliases: opt_or(self.bin_aliases, layer.bin_aliases),
        }
    }

    fn apply_layer(&mut self, layer: CommonInstallerLayer) {
        let CommonInstallerLayer {
            install_path,
            install_success_msg,
            install_libraries,
            bin_aliases,
        } = layer;
        self.install_path.apply_opt(install_path);
        self.install_success_msg.apply_opt(install_success_msg);
        self.install_libraries.apply_opt(install_libraries);
        self.bin_aliases.apply_opt(bin_aliases);
    }
}

} // verus!
