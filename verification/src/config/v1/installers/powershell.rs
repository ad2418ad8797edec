//! powershell installer config

use vstd::prelude::*;

use super::{CommonInstallerConfig, CommonInstallerLayer};
use crate::config::v1::layer::ApplyLayer;
use crate::workspace::{PackageIdx, WorkspaceGraph};

verus! {

/// Options for the powershell installer (raw)
#[derive(Debug)]
pub struct PowershellInstallerLayer {
    /// Common options
    pub common: CommonInstallerLayer,
}

impl Default for PowershellInstallerLayer {
    fn default() -> (r: Self)
        ensures
            r == (PowershellInstallerLayer { common: CommonInstallerLayer::spec_default() }),
    {
        PowershellInstallerLayer { common: CommonInstallerLayer::default() }
    }
}

/// Options for the powershell installer (final)
#[derive(Debug)]
pub struct PowershellInstallerConfig {
    /// Common options
    pub common: CommonInstallerConfig,
}

impl PowershellInstallerConfig {
    /// This is the package default (from `common`) with `layer` applied
    pub open spec fn resolved_from(self, common: CommonInstallerConfig, layer: PowershellInstallerLayer) -> bool {
        self.common.same_as(common.layered(layer.common))
    }

    /// Get defaults for the given package
    pub fn defaults_for_package(
        _workspaces: &WorkspaceGraph,
        _pkg_idx: PackageIdx,
        common: &CommonInstallerConfig,
    ) -> (r: Self)
        ensures
            r.common.same_as(*common),
    {
        Self { common: common.clone() }
    }
}

impl ApplyLayer for PowershellInstallerConfig {
    type Layer = PowershellInstallerLayer;

    open spec fn layered(self, layer: PowershellInstallerLayer) -> Self {
        PowershellInstallerConfig { common: self.common.layered(layer.common) }
    }

    fn apply_layer(&mut self, layer: PowershellInstallerLayer) {
        let PowershellInstallerLayer { common } = layer;
        self.common.apply_layer(common);
    }
}

impl ApplyLayer for PowershellInstallerLayer {
    type Layer = PowershellInstallerLayer;

    open spec fn layered(self, layer: PowershellInstallerLayer) -> Self {
        PowershellInstallerLayer { common: self.common.layered(layer.common) }
    }

    fn apply_layer(&mut self, layer: PowershellInstallerLayer) {
        let PowershellInstallerLayer { common } = layer;
        self.common.apply_layer(common);
    }
}

} // verus!
