//! generic build config

use vstd::prelude::*;

use super::{CommonBuildConfig, CommonBuildLayer};
use crate::config::v1::layer::ApplyLayer;
use crate::workspace::{PackageIdx, WorkspaceGraph};

verus! {

/// generic build config (final)
#[derive(Debug, Clone, Copy, PartialEq, Eq)]
pub struct GenericBuildConfig {
    /// inheritable fields
    pub common: CommonBuildConfig,
}

/// generic build config (raw from file)
#[derive(Debug, Clone, Copy, PartialEq, Eq)]
pub struct GenericBuildLayer {
    /// inheritable fields
    pub common: CommonBuildLayer,
}

impl Default for GenericBuildLayer {
    fn default() -> (r: Self)
        ensures
            r == (GenericBuildLayer { common: CommonBuildLayer {  } }),
    {
        GenericBuildLayer { common: CommonBuildLayer {  } }
    }
}

impl GenericBuildConfig {
    /// Get defaults for the given package
    pub fn defaults_for_package(
        _workspaces: &WorkspaceGraph,
        _pkg_idx: PackageIdx,
        common: &CommonBuildConfig,
    ) -> (r: Self)
        ensures
            r == (GenericBuildConfig { common: *common }),
    {
        Self { common: *common }
    }
}

impl ApplyLayer for GenericBuildConfig {
    type Layer = GenericBuildLayer;

    open spec fn layered(self, layer: GenericBuildLayer) -> Self {
        GenericBuildConfig { common: self.common.layered(layer.common) }
    }

    fn apply_layer(&mut self, layer: GenericBuildLayer) {
        let GenericBuildLayer { common } = layer;
        self.common.apply_layer(common);
    }
}

impl ApplyLayer for GenericBuildLayer {
    type Layer = GenericBuildLayer;

    open spec fn layered(self, layer: GenericBuildLayer) -> Self {
        GenericBuildLayer { common: self.common.layered(layer.common) }
    }

    fn apply_layer(&mut self, layer: GenericBuildLayer) {
        let GenericBuildLayer { common } = layer;
        self.common.apply_layer(common);
    }
}

} // verus!
