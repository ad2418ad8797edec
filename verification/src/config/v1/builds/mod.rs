//! build config

use vstd::prelude::*;

pub mod cargo;
pub mod generic;

use cargo::{AppCargoBuildConfig, CargoBuildLayer, WorkspaceCargoBuildConfig};
use generic::{GenericBuildConfig, GenericBuildLayer};

use crate::config::v1::layer::{
    bool_layered, opt_or, val_or, ApplyBoolLayerExt, ApplyLayer, ApplyOptExt, ApplyValExt, BoolOr,
};
use crate::config::{ProductionMode, SystemDependencies};
use crate::platform::MinGlibcVersion;
use crate::workspace::{PackageIdx, WorkspaceGraph};

verus! {

/// workspace build config
#[derive(Debug)]
pub struct WorkspaceBuildConfig {
    /// cargo builds
    pub cargo: WorkspaceCargoBuildConfig,
    /// whether to sign windows binaries with ssl.com
    pub ssldotcom_windows_sign: Option<ProductionMode>,
}

/// app-scoped build config
#[derive(Debug)]
pub struct AppBuildConfig {
    /// cargo builds
    pub cargo: AppCargoBuildConfig,
    /// generic builds
    pub generic: GenericBuildConfig,
    /// A set of packages to install before building
    pub system_dependencies: SystemDependencies,
}

/// build config (inheritance not yet folded)
#[derive(Debug)]
pub struct BuildConfigInheritable {
    /// inheritable fields
    pub common: CommonBuildConfig,
    /// whether to sign windows binaries with ssl.com
    pub ssldotcom_windows_sign: Option<ProductionMode>,
    /// cargo builds
    pub cargo: Option<CargoBuildLayer>,
    /// generic builds
    pub generic: Option<GenericBuildLayer>,
    /// A set of packages to install before building
    pub system_dependencies: SystemDependencies,
}

/// build config (raw from file)
#[derive(Debug)]
pub struct BuildLayer {
    /// inheritable fields
    pub common: CommonBuildLayer,
    /// Whether we should sign windows binaries with ssl.com
    pub ssldotcom_windows_sign: Option<ProductionMode>,
    /// Whether we should sign macos binaries
    pub macos_sign: Option<bool>,
    /// cargo builds
    pub cargo: Option<BoolOr<CargoBuildLayer>>,
    /// generic builds
    pub generic: Option<BoolOr<GenericBuildLayer>>,
    /// A set of packages to install before building
    pub system_dependencies: Option<SystemDependencies>,
    /// The minimum glibc version supported by the package, per target
    pub min_glibc_version: Option<MinGlibcVersion>,
    /// Whether to generate OmniBOR artifact IDs
    pub omnibor: Option<bool>,
}

impl WorkspaceBuildConfig {
    /// The workspace build config that `src` resolves to
    pub open spec fn inherits(self, src: BuildConfigInheritable) -> bool {
        &&& self.ssldotcom_windows_sign == src.ssldotcom_windows_sign
        &&& self.cargo == match src.cargo {
            Some(layer) => WorkspaceCargoBuildConfig::workspace_defaults().layered(layer),
            None => WorkspaceCargoBuildConfig::workspace_defaults(),
        }
    }
}

impl AppBuildConfig {
    /// The package build config that `src` resolves to
    pub open spec fn inherits(self, src: BuildConfigInheritable) -> bool {
        &&& self.cargo.resolved_from(src.common, src.cargo)
        &&& self.generic == match src.generic {
            Some(layer) => (GenericBuildConfig { common: src.common }).layered(layer),
            None => GenericBuildConfig { common: src.common },
        }
        &&& self.system_dependencies == src.system_dependencies
    }
}

impl BuildConfigInheritable {
    /// The build config that holds only the empty system dependencies
    pub open spec fn is_default_with(self, common: CommonBuildConfig) -> bool {
        &&& self.common == common
        &&& self.cargo is None
        &&& self.generic is None
        &&& self.ssldotcom_windows_sign is None
        &&& self.system_dependencies.homebrew@ == Map::<String, crate::config::SystemDependency>::empty()
        &&& self.system_dependencies.apt@ == Map::<String, crate::config::SystemDependency>::empty()
        &&& self.system_dependencies.chocolatey@ == Map::<String, crate::config::SystemDependency>::empty()
    }

    /// get defaults for a package
    pub fn defaults_for_package(workspaces: &WorkspaceGraph, pkg_idx: PackageIdx) -> (r: Self)
        ensures
            r.is_default_with(CommonBuildConfig {  }),
    {
        Self {
            common: CommonBuildConfig::defaults_for_package(workspaces, pkg_idx),
            cargo: None,
            generic: None,
            system_dependencies: SystemDependencies::default(),
            ssldotcom_windows_sign: None,
        }
    }

    /// get defaults for a workspace
    pub fn defaults_for_workspace(workspaces: &WorkspaceGraph) -> (r: Self)
        ensures
            r.is_default_with(CommonBuildConfig {  }),
    {
        Self {
            common: CommonBuildConfig::defaults_for_workspace(workspaces),
            cargo: None,
            generic: None,
            system_dependencies: SystemDependencies::default(),
            ssldotcom_windows_sign: None,
        }
    }

    /// apply inheritance to get final workspace config
    pub fn apply_inheritance_for_workspace(self, workspaces: &WorkspaceGraph) -> (r:
        WorkspaceBuildConfig)
        ensures
            r.inherits(self),
    {
        let Self {
            common,
            cargo,
            ssldotcom_windows_sign,
            // local-only
            generic: _,
            system_dependencies: _,
        } = self;
        let mut cargo_out = WorkspaceCargoBuildConfig::defaults_for_workspace(workspaces, &common);
        if let Some(cargo) = cargo {
            cargo_out.apply_layer(cargo);
        }
        WorkspaceBuildConfig { cargo: cargo_out, ssldotcom_windows_sign }
    }

    /// apply inheritance to get final package config
    pub fn apply_inheritance_for_package(self, workspaces: &WorkspaceGraph, pkg_idx: PackageIdx) -> (r:
        AppBuildConfig)
        ensures
            r.inherits(self),
    {
        let Self {
            common,
            cargo,
            generic,
            system_dependencies,
            // local-only
            ssldotcom_windows_sign: _,
        } = self;
        let mut cargo_out = AppCargoBuildConfig::defaults_for_package(workspaces, pkg_idx, &common);
        if let Some(cargo) = cargo {
            cargo_out.apply_layer(cargo);
        }
        let mut generic_out = GenericBuildConfig::defaults_for_package(workspaces, pkg_idx, &common);
        if let Some(generic) = generic {
            generic_out.apply_layer(generic);
        }

        AppBuildConfig { cargo: cargo_out, generic: generic_out, system_dependencies }
    }
}

impl ApplyLayer for BuildConfigInheritable {
    type Layer = BuildLayer;

    /// The workspace and app settings of the layer; signing of macos binaries,
    /// the glibc minimum and OmniBOR are not kept here
    open spec fn layered(self, layer: BuildLayer) -> Self {
        BuildConfigInheritable {
            common: self.common.layered(layer.common),
            cargo: bool_layered(self.cargo, layer.cargo, CargoBuildLayer::spec_default()),
            generic: bool_layered(self.generic, layer.generic, GenericBuildLayer { common: CommonBuildLayer {  } }),
            system_dependencies: val_or(self.system_dependencies, layer.system_dependencies),
            ssldotcom_windows_sign: opt_or(self.ssldotcom_windows_sign, layer.ssldotcom_windows_sign),
        }
    }

    fn apply_layer(&mut self, layer: BuildLayer) {
        let BuildLayer {
            common,
            cargo,
            generic,
            system_dependencies,
            ssldotcom_windows_sign,
            macos_sign: _,
            min_glibc_version: _,
            omnibor: _,
        } = layer;
        self.common.apply_layer(common);
        self.cargo.apply_bool_layer(cargo);
        self.generic.apply_bool_layer(generic);
        self.system_dependencies.apply_val(system_dependencies);
        self.ssldotcom_windows_sign.apply_opt(ssldotcom_windows_sign);
    }
}

/// inheritable build fields (final)
#[derive(Debug, Clone, Copy, PartialEq, Eq)]
pub struct CommonBuildConfig {}

/// inheritable build fields (raw from file)
#[derive(Debug, Clone, Copy, PartialEq, Eq)]
pub struct CommonBuildLayer {}

impl Default for CommonBuildLayer {
    fn default() -> (r: Self)
        ensures
            r == (CommonBuildLayer {  }),
    {
        CommonBuildLayer {  }
    }
}

impl CommonBuildConfig {
    /// defaults for a given package
    pub fn defaults_for_package(_workspaces: &WorkspaceGraph, _pkg_idx: PackageIdx) -> (r: Self)
        ensures
            r == (CommonBuildConfig {  }),
    {
        Self {  }
    }

    /// defaults for a given workspace
    pub fn defaults_for_workspace(_workspaces: &WorkspaceGraph) -> (r: Self)
        ensures
            r == (CommonBuildConfig {  }),
    {
        Self {  }
    }
}

impl ApplyLayer for CommonBuildConfig {
    type Layer = CommonBuildLayer;

    open spec fn layered(self, layer: CommonBuildLayer) -> Self {
        self
    }

    fn apply_layer(&mut self, layer: CommonBuildLayer) {
        let CommonBuildLayer {  } = layer;
    }
}

impl ApplyLayer for CommonBuildLayer {
    type Layer = CommonBuildLayer;

    open spec fn layered(self, layer: CommonBuildLayer) -> Self {
        self
    }

    fn apply_layer(&mut self, layer: CommonBuildLayer) {
        let CommonBuildLayer {  } = layer;
    }
}

impl WorkspaceCargoBuildConfig {
    /// The cargo settings of a workspace before any layer
    pub open spec fn workspace_defaults() -> WorkspaceCargoBuildConfig {
        WorkspaceCargoBuildConfig {
            rust_toolchain_version: None,
            precise_builds: None,
            msvc_crt_static: true,
            cargo_auditable: false,
            cargo_cyclonedx: false,
        }
    }
}

impl AppCargoBuildConfig {
    /// This is the package default (from `common`) with `layer` applied, if any
    pub open spec fn resolved_from(self, common: CommonBuildConfig, layer: Option<CargoBuildLayer>) -> bool {
        match layer {
            None => {
                &&& self.common == common
                &&& self.features@ == Seq::<String>::empty()
                &&& self.default_features
                &&& !self.all_features
                &&& !self.cargo_auditable
                &&& !self.cargo_cyclonedx
            },
            Some(l) => {
                &&& self.common == common.layered(l.common)
                &&& self.features@ == match l.features {
                    Some(f) => f@,
                    None => Seq::<String>::empty(),
                }
                &&& self.default_features == val_or(true, l.default_features)
                &&& self.all_features == val_or(false, l.all_features)
                &&& self.cargo_auditable == val_or(false, l.cargo_auditable)
                &&& self.cargo_cyclonedx == val_or(false, l.cargo_cyclonedx)
            },
        }
    }
}

} // verus!
