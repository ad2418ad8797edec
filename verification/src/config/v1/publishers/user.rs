//! user specified publisher config

use vstd::prelude::*;

use super::{CommonPublisherConfig, CommonPublisherLayer};
use crate::config::v1::layer::ApplyLayer;
use crate::workspace::{PackageIdx, WorkspaceGraph};

verus! {

/// Options for user specified publishes
#[derive(Debug, Clone, Copy, PartialEq, Eq)]
pub struct UserPublisherLayer {
    /// Common options
    pub common: CommonPublisherLayer,
}

impl Default for UserPublisherLayer {
    fn default() -> (r: Self)
        ensures
            r == (UserPublisherLayer { common: CommonPublisherLayer { prereleases: None } }),
    {
        UserPublisherLayer { common: CommonPublisherLayer::default() }
    }
}

/// Options for user specified publishes
#[derive(Debug, Clone, Copy, PartialEq, Eq)]
pub struct UserPublisherConfig {
    /// Common options
    pub common: CommonPublisherConfig,
}

impl UserPublisherConfig {
    /// Get defaults for the given package
    pub fn defaults_for_package(
        _workspaces: &WorkspaceGraph,
        _pkg_idx: PackageIdx,
        common: &CommonPublisherConfig,
    ) -> (r: Self)
        ensures
            r == (UserPublisherConfig { common: *common }),
    {
        Self { common: *common }
    }
}

impl ApplyLayer for UserPublisherConfig {
    type Layer = UserPublisherLayer;

    open spec fn layered(self, layer: UserPublisherLayer) -> Self {
        UserPublisherConfig { common: self.common.layered(layer.common) }
    }

    fn apply_layer(&mut self, layer: UserPublisherLayer) {
        let UserPublisherLayer { common } = layer;
        self.common.apply_layer(common);
    }
}

impl ApplyLayer for UserPublisherLayer {
    type Layer = UserPublisherLayer;

    open spec fn layered(self, layer: UserPublisherLayer) -> Self {
        UserPublisherLayer { common: self.common.layered(layer.common) }
    }

    fn apply_layer(&mut self, layer: UserPublisherLayer) {
        let UserPublisherLayer { common } = layer;
        self.common.apply_layer(common);
    }
}

} // verus!
