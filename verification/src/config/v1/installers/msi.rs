//! msi installer config

use vstd::prelude::*;

use super::{CommonInstallerConfig, CommonInstallerLayer};
use crate::config::v1::layer::ApplyLayer;
use crate::workspace::{PackageIdx, WorkspaceGraph};

verus! {

/// Options for the msi installer (raw)
#[derive(Debug)]
pub struct MsiInstallerLayer {
    /// Common options
    pub common: CommonInstallerLayer,
}

impl Default for MsiInstallerLayer {
    fn default() -> (r: Self)
        ensures
            r == (MsiInstallerLayer { common: CommonInstallerLayer::spec_default() }),
    {
        MsiInstallerLayer { common: CommonInstallerLayer::default() }
    }
}

/// Options for the msi installer (final)
#[derive(Debug)]
pub struct MsiInstallerConfig {
    /// Common options
    pub common: CommonInstallerConfig,
}

impl MsiInstallerConfig {
    /// This is the package default (from `common`) with `layer` applied
    pub open spec fn resolved_from(self, common: CommonInstallerConfig, layer: MsiInstallerLayer) -> bool {
        self.common.same_as(common.layered(layer.common))
    }

    /// Get defaults for the given package
    pub fn defaults_for_package(
        _workspaces: &WorkspaceGraph,
        _pkg_idx: PackageIdx,
        common: &CommonInstallerConfig,
    ) -> (r: Self)
        ensures
            r.common.same_as(*common),
    {
        Self { common: common.clone() }
    }
}

impl ApplyLayer for MsiInstallerConfig {
    type Layer = MsiInstallerLayer;

    open spec fn layered(self, layer: MsiInstallerLayer) -> Self {
        MsiInstallerConfig { common: self.common.layered(layer.common) }
    }

    fn apply_layer(&mut self, layer: MsiInstallerLayer) {
        let MsiInstallerLayer { common } = layer;
        self.common.apply_layer(common);
    }
}

impl ApplyLayer for MsiInstallerLayer {
    type Layer = MsiInstallerLayer;

    open spec fn layered(self, layer: MsiInstallerLayer) -> Self {
        MsiInstallerLayer { common: self.common.layered(layer.common) }
    }

    fn apply_layer(&mut self, layer: MsiInstallerLayer) {
        let MsiInstallerLayer { common } = layer;
        self.common.apply_layer(common);
    }
}

} // verus!
