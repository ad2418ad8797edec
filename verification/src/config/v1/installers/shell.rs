//! shell installer config

use vstd::prelude::*;

use super::{CommonInstallerConfig, CommonInstallerLayer};
use crate::config::v1::layer::ApplyLayer;
use crate::workspace::{PackageIdx, WorkspaceGraph};

verus! {

/// Options for the shell installer (raw)
#[derive(Debug)]
pub struct ShellInstallerLayer {
    /// Common options
    pub common: CommonInstallerLayer,
}

impl Default for ShellInstallerLayer {
    fn default() -> (r: Self)
        ensures
            r == (ShellInstallerLayer { common: CommonInstallerLayer::spec_default() }),
    {
        ShellInstallerLayer { common: CommonInstallerLayer::default() }
    }
}

/// Options for the shell installer (final)
#[derive(Debug)]
pub struct ShellInstallerConfig {
    /// Common options
    pub common: CommonInstallerConfig,
}

impl ShellInstallerConfig {
    /// This is the package default (from `common`) with `layer` applied
    pub open spec fn resolved_from(self, common: CommonInstallerConfig, layer: ShellInstallerLayer) -> bool {
        self.common.same_as(common.layered(layer.common))
    }

    /// Get defaults for the given package
    pub fn defaults_for_package(
        _workspaces: &WorkspaceGraph,
        _pkg_idx: PackageIdx,
        common: &CommonInstallerConfig,
    ) -> (r: Self)
        ensures
            r.common.same_as(*common),
    {
        Self { common: common.clone() }
    }
}

impl ApplyLayer for ShellInstallerConfig {
    type Layer = ShellInstallerLayer;

    open spec fn layered(self, layer: ShellInstallerLayer) -> Self {
        ShellInstallerConfig { common: self.common.layered(layer.common) }
    }

    fn apply_layer(&mut self, layer: ShellInstallerLayer) {
        let ShellInstallerLayer { common } = layer;
        self.common.apply_layer(common);
    }
}

impl ApplyLayer for ShellInstallerLayer {
    type Layer = ShellInstallerLayer;

    open spec fn layered(self, layer: ShellInstallerLayer) -> Self {
        ShellInstallerLayer { common: self.common.layered(layer.common) }
    }

    fn apply_layer(&mut self, layer: ShellInstallerLayer) {
        let ShellInstallerLayer { common } = layer;
        self.common.apply_layer(common);
    }
}

} // verus!
