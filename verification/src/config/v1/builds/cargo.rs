//! cargo build config

use vstd::prelude::*;

use super::{CommonBuildConfig, CommonBuildLayer};
use crate::config::v1::layer::{opt_or, val_or, ApplyLayer, ApplyOptExt, ApplyValExt};
use crate::workspace::{PackageIdx, WorkspaceGraph};

verus! {

/// cargo build config for the whole workspace
#[derive(Debug)]
pub struct WorkspaceCargoBuildConfig {
    /// Whether msvc targets should statically link the crt
    pub msvc_crt_static: bool,
    /// (deprecated) The intended version of Rust/Cargo to build with (rustup toolchain syntax)
    pub rust_toolchain_version: Option<String>,
    /// Build only the required packages, and individually
    pub precise_builds: Option<bool>,
    /// Whether to embed dependency information in the executable.
    pub cargo_auditable: bool,
    /// Whether to run cargo-cyclonedx on the workspace.
    pub cargo_cyclonedx: bool,
}

/// cargo build config for a specific app
#[derive(Debug)]
pub struct AppCargoBuildConfig {
    /// common build config
    pub common: CommonBuildConfig,
    /// A list of features to enable when building a package with dist
    pub features: Vec<String>,
    /// Whether to enable when building a package with dist
    ///
    /// (defaults to true)
    pub default_features: bool,
    /// Whether to enable all features building a package with dist
    ///
    /// (defaults to false)
    pub all_features: bool,
    /// Whether to embed dependency information in the executable.
    ///
    /// (defaults to false)
    pub cargo_auditable: bool,
    /// Whether to use cargo-cyclonedx to generate an SBOM.
    ///
    /// (defaults to false)
    pub cargo_cyclonedx: bool,
}

/// cargo build config (raw)
#[derive(Debug)]
pub struct CargoBuildLayer {
    /// inheritable cargo build config
    pub common: CommonBuildLayer,
    /// (deprecated) The intended version of Rust/Cargo to build with (rustup toolchain syntax)
    pub rust_toolchain_version: Option<String>,
    /// Whether msvc targets should statically link the crt
    ///
    /// Defaults to true.
    pub msvc_crt_static: Option<bool>,
    /// Build only the required packages, and individually (default: false)
    pub precise_builds: Option<bool>,
    /// A list of features to enable when building a package with dist
    pub features: Option<Vec<String>>,
    /// Whether to enable when building a package with dist
    pub default_features: Option<bool>,
    /// Whether to enable all features building a package with dist
    pub all_features: Option<bool>,
    /// Whether to embed dependency information in the executable.
    pub cargo_auditable: Option<bool>,
    /// Whether to run cargo-cyclonedx to generate an SBOM.
    pub cargo_cyclonedx: Option<bool>,
}

impl CargoBuildLayer {
    /// The layer that sets nothing
    pub open spec fn spec_default() -> CargoBuildLayer {
        CargoBuildLayer {
            common: CommonBuildLayer {  },
            rust_toolchain_version: None,
            msvc_crt_static: None,
            precise_builds: None,
            features: None,
            default_features: None,
            all_features: None,
            cargo_auditable: None,
            cargo_cyclonedx: None,
        }
    }
}

impl Default for CargoBuildLayer {
    fn default() -> (r: Self)
        ensures
            r == CargoBuildLayer::spec_default(),
    {
        CargoBuildLayer {
            common: CommonBuildLayer {  },
            rust_toolchain_version: None,
            msvc_crt_static: None,
            precise_builds: None,
            features: None,
            default_features: None,
            all_features: None,
            cargo_auditable: None,
            cargo_cyclonedx: None,
        }
    }
}

impl WorkspaceCargoBuildConfig {
    /// Get defaults for the given workspace
    pub fn defaults_for_workspace(_workspaces: &WorkspaceGraph, _common: &CommonBuildConfig) -> (r:
        Self)
        ensures
            r == (WorkspaceCargoBuildConfig {
                rust_toolchain_version: None,
                precise_builds: None,
                msvc_crt_static: true,
                cargo_auditable: false,
                cargo_cyclonedx: false,
            }),
    {
        Self {
            rust_toolchain_version: None,
            precise_builds: None,
            msvc_crt_static: true,
            cargo_auditable: false,
            cargo_cyclonedx: false,
        }
    }
}

impl AppCargoBuildConfig {
    /// Get defaults for the given package
    pub fn defaults_for_package(
        _workspaces: &WorkspaceGraph,
        _pkg_idx: PackageIdx,
        common: &CommonBuildConfig,
    ) -> (r: Self)
        ensures
            r.common == *common,
            r.features@ == Seq::<String>::empty(),
            r.default_features,
            !r.all_features,
            !r.cargo_auditable,
            !r.cargo_cyclonedx,
    {
        Self {
            common: *common,
            features: Vec::new(),
            default_features: true,
            all_features: false,
            cargo_auditable: false,
            cargo_cyclonedx: false,
        }
    }
}

impl ApplyLayer for WorkspaceCargoBuildConfig {
    type Layer = CargoBuildLayer;

    /// The workspace-scoped settings are taken from the layer, the new
    /// layer preferred
    open spec fn layered(self, layer: CargoBuildLayer) -> Self {
        WorkspaceCargoBuildConfig {
            rust_toolchain_version: opt_or(self.rust_toolchain_version, layer.rust_toolchain_version),
            precise_builds: opt_or(self.precise_builds, layer.precise_builds),
            msvc_crt_static: val_or(self.msvc_crt_static, layer.msvc_crt_static),
            cargo_auditable: val_or(self.cargo_auditable, layer.cargo_auditable),
            cargo_cyclonedx: val_or(self.cargo_cyclonedx, layer.cargo_cyclonedx),
            ..self
        }
    }

    fn apply_layer(&mut self, layer: CargoBuildLayer) {
        let CargoBuildLayer {
            rust_toolchain_version,
            precise_builds,
            cargo_auditable,
            cargo_cyclonedx,
            msvc_crt_static,
            // local-only
            common: _,
            features: _,
            default_features: _,
            all_features: _,
        } = layer;
        self.rust_toolchain_version.apply_opt(rust_toolchain_version);
        self.precise_builds.apply_opt(precise_builds);
        self.msvc_crt_static.apply_val(msvc_crt_static);
        self.cargo_auditable.apply_val(cargo_auditable);
        self.cargo_cyclonedx.apply_val(cargo_cyclonedx);
    }
}

impl ApplyLayer for AppCargoBuildConfig {
    type Layer = CargoBuildLayer;

    /// Only the app-scoped settings are taken from the layer
    open spec fn layered(self, layer: CargoBuildLayer) -> Self {
        AppCargoBuildConfig {
            common: self.common.layered(layer.common),
            features: val_or(self.features, layer.features),
            default_features: val_or(self.default_features, layer.default_features),
            all_features: val_or(self.all_features, layer.all_features),
            cargo_auditable: val_or(self.cargo_auditable, layer.cargo_auditable),
            cargo_cyclonedx: val_or(self.cargo_cyclonedx, layer.cargo_cyclonedx),
        }
    }

    fn apply_layer(&mut self, layer: CargoBuildLayer) {
        let CargoBuildLayer {
            common,
            features,
            default_features,
            all_features,
            cargo_auditable,
            cargo_cyclonedx,
            // global-only
            rust_toolchain_version: _,
            precise_builds: _,
            msvc_crt_static: _,
        } = layer;
        self.common.apply_layer(common);
        self.features.apply_val(features);
        self.default_features.apply_val(default_features);
        self.all_features.apply_val(all_features);
        self.cargo_auditable.apply_val(cargo_auditable);
        self.cargo_cyclonedx.apply_val(cargo_cyclonedx);
    }
}

impl ApplyLayer for CargoBuildLayer {
    type Layer = CargoBuildLayer;

    open spec fn layered(self, layer: CargoBuildLayer) -> Self {
        CargoBuildLayer {
            common: self.common.layered(layer.common),
            rust_toolchain_version: opt_or(self.rust_toolchain_version, layer.rust_toolchain_version),
            msvc_crt_static: opt_or(self.msvc_crt_static, layer.msvc_crt_static),
            precise_builds: opt_or(self.precise_builds, layer.precise_builds),
            features: opt_or(self.features, layer.features),
            default_features: opt_or(self.default_features, layer.default_features),
            all_features: opt_or(self.all_features, layer.all_features),
            cargo_auditable: opt_or(self.cargo_auditable, layer.cargo_auditable),
            cargo_cyclonedx: opt_or(self.cargo_cyclonedx, layer.cargo_cyclonedx),
        }
    }

    fn apply_layer(&mut self, layer: CargoBuildLayer) {
        let CargoBuildLayer {
            common,
            rust_toolchain_version,
            precise_builds,
            msvc_crt_static,
            features,
            default_features,
            all_features,
            cargo_auditable,
            cargo_cyclonedx,
        } = layer;
        self.common.apply_layer(common);
        self.rust_toolchain_version.apply_opt(rust_toolchain_version);
        self.msvc_crt_static.apply_opt(msvc_crt_static);
        self.precise_builds.apply_opt(precise_builds);
        self.features.apply_opt(features);
        self.default_features.apply_opt(default_features);
        self.all_features.apply_opt(all_features);
        self.cargo_auditable.apply_opt(cargo_auditable);
        self.cargo_cyclonedx.apply_opt(cargo_cyclonedx);
    }
}

} // verus!
