//! npm publisher config

use vstd::prelude::*;

use super::{CommonPublisherConfig, CommonPublisherLayer};
use crate::config::v1::layer::{opt_or, ApplyLayer, ApplyOptExt};
use crate::workspace::{PackageIdx, WorkspaceGraph};

verus! {

/// Options for npm publishes
#[derive(Debug)]
pub struct NpmPublisherLayer {
    /// Common options
    pub common: CommonPublisherLayer,
    /// Custom npm registry URL (e.g. "https://wombat-dressing-room.appspot.com")
    pub registry: Option<String>,
}

impl Default for NpmPublisherLayer {
    fn default() -> (r: Self)
        ensures
            r == (NpmPublisherLayer { common: CommonPublisherLayer { prereleases: None }, registry: None }),
    {
        NpmPublisherLayer { common: CommonPublisherLayer::default(), registry: None }
    }
}

/// Options for npm publishes
#[derive(Debug)]
pub struct NpmPublisherConfig {
    /// Common options
    pub common: CommonPublisherConfig,
    /// Custom npm registry URL
    pub registry: Option<String>,
}

impl NpmPublisherConfig {
    /// Get defaults for the given package
    pub fn defaults_for_package(
        _workspaces: &WorkspaceGraph,
        _pkg_idx: PackageIdx,
        common: &CommonPublisherConfig,
    ) -> (r: Self)
        ensures
            r == (NpmPublisherConfig { common: *common, registry: None }),
    {
        Self { common: *common, registry: None }
    }
}

impl ApplyLayer for NpmPublisherConfig {
    type Layer = NpmPublisherLayer;

    open spec fn layered(self, layer: NpmPublisherLayer) -> Self {
        NpmPublisherConfig {
            common: self.common.layered(layer.common),
            registry: opt_or(self.registry, layer.registry),
        }
    }

    fn apply_layer(&mut self, layer: NpmPublisherLayer) {
        let NpmPublisherLayer { common, registry } = layer;
        self.common.apply_layer(common);
        self.registry.apply_opt(registry);
    }
}

impl ApplyLayer for NpmPublisherLayer {
    type Layer = NpmPublisherLayer;

    open spec fn layered(self, layer: NpmPublisherLayer) -> Self {
        NpmPublisherLayer {
            common: self.common.layered(layer.common),
            registry: opt_or(self.registry, layer.registry),
        }
    }

    fn apply_layer(&mut self, layer: NpmPublisherLayer) {
        let NpmPublisherLayer { common, registry } = layer;
        self.common.apply_layer(common);
        self.registry.apply_opt(registry);
    }
}

} // verus!
