//! homebrew publisher config

use vstd::prelude::*;

use super::{CommonPublisherConfig, CommonPublisherLayer};
use crate::config::v1::layer::ApplyLayer;
use crate::workspace::{PackageIdx, WorkspaceGraph};

verus! {

/// Options for homebrew publishes
#[derive(Debug, Clone, Copy, PartialEq, Eq)]
pub struct HomebrewPublisherLayer {
    /// Common options
    pub common: CommonPublisherLayer,
}

impl Default for HomebrewPublisherLayer {
    fn default() -> (r: Self)
        ensures
            r == (HomebrewPublisherLayer { common: CommonPublisherLayer { prereleases: None } }),
    {
        HomebrewPublisherLayer { common: CommonPublisherLayer::default() }
    }
}

/// Options for homebrew publishes
#[derive(Debug, Clone, Copy, PartialEq, Eq)]
pub struct HomebrewPublisherConfig {
    /// Common options
    pub common: CommonPublisherConfig,
}

impl HomebrewPublisherConfig {
    /// Get defaults for the given package
    pub fn defaults_for_package(
        _workspaces: &WorkspaceGraph,
        _pkg_idx: PackageIdx,
        common: &CommonPublisherConfig,
    ) -> (r: Self)
        ensures
            r == (HomebrewPublisherConfig { common: *common }),
    {
        Self { common: *common }
    }
}

impl ApplyLayer for HomebrewPublisherConfig {
    type Layer = HomebrewPublisherLayer;

    open spec fn layered(self, layer: HomebrewPublisherLayer) -> Self {
        HomebrewPublisherConfig { common: self.common.layered(layer.common) }
    }

    fn apply_layer(&mut self, layer: HomebrewPublisherLayer) {
        let HomebrewPublisherLayer { common } = layer;
        self.common.apply_layer(common);
    }
}

impl ApplyLayer for HomebrewPublisherLayer {
    type Layer = HomebrewPublisherLayer;

    open spec fn layered(self, layer: HomebrewPublisherLayer) -> Self {
        HomebrewPublisherLayer { common: self.common.layered(layer.common) }
    }

    fn apply_layer(&mut self, layer: HomebrewPublisherLayer) {
        let HomebrewPublisherLayer { common } = layer;
        self.common.apply_layer(common);
    }
}

} // verus!
