//! axodotdev host config

use vstd::prelude::*;

use super::{CommonHostConfig, CommonHostLayer};
use crate::config::v1::layer::ApplyLayer;
use crate::workspace::WorkspaceGraph;

verus! {

/// axodotdev host (raw)
#[derive(Debug, Clone, Copy, PartialEq, Eq)]
pub struct AxodotdevHostLayer {
    /// Common options
    pub common: CommonHostLayer,
}

impl Default for AxodotdevHostLayer {
    fn default() -> (r: Self)
        ensures
            r == (AxodotdevHostLayer { common: CommonHostLayer {  } }),
    {
        AxodotdevHostLayer { common: CommonHostLayer {  } }
    }
}

/// axodotdev host (final)
#[derive(Debug, Clone, Copy, PartialEq, Eq)]
pub struct AxodotdevHostConfig {
    /// Common options
    pub common: CommonHostConfig,
}

impl AxodotdevHostConfig {
    /// Get defaults for the given workspace
    pub fn defaults_for_workspace(_workspaces: &WorkspaceGraph, common: &CommonHostConfig) -> (r:
        Self)
        ensures
            r == (AxodotdevHostConfig { common: *common }),
    {
        Self { common: *common }
    }
}

impl ApplyLayer for AxodotdevHostConfig {
    type Layer = AxodotdevHostLayer;

    open spec fn layered(self, layer: AxodotdevHostLayer) -> Self {
        AxodotdevHostConfig { common: self.common.layered(layer.common) }
    }

    fn apply_layer(&mut self, layer: AxodotdevHostLayer) {
        let AxodotdevHostLayer { common } = layer;
        self.common.apply_layer(common);
    }
}

impl ApplyLayer for AxodotdevHostLayer {
    type Layer = AxodotdevHostLayer;

    open spec fn layered(self, layer: AxodotdevHostLayer) -> Self {
        AxodotdevHostLayer { common: self.common.layered(layer.common) }
    }

    fn apply_layer(&mut self, layer: AxodotdevHostLayer) {
        let AxodotdevHostLayer { common } = layer;
        self.common.apply_layer(common);
    }
}

} // verus!
