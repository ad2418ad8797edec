//! Simple host

use vstd::prelude::*;

use super::{CommonHostConfig, CommonHostLayer};
use crate::config::v1::layer::{opt_or, val_or, ApplyLayer, ApplyOptExt, ApplyValExt};
use crate::workspace::WorkspaceGraph;

verus! {

/// Simple host config (raw)
#[derive(Debug)]
pub struct SimpleHostLayer {
    /// Common options
    pub common: CommonHostLayer,
    /// URL to download from
    pub download_url: Option<String>,
}

impl Default for SimpleHostLayer {
    fn default() -> (r: Self)
        ensures
            r == (SimpleHostLayer { common: CommonHostLayer {  }, download_url: None }),
    {
        SimpleHostLayer { common: CommonHostLayer {  }, download_url: None }
    }
}

/// Simple host config (final)
#[derive(Debug)]
pub struct SimpleHostConfig {
    /// Common options
    pub common: CommonHostConfig,
    /// URL to download from
    pub download_url: String,
}

impl SimpleHostConfig {
    /// Get defaults for the given workspace
    pub fn defaults_for_workspace(_workspaces: &WorkspaceGraph, common: &CommonHostConfig) -> (r:
        Self)
        ensures
            r.common == *common,
            r.download_url@ == Seq::<char>::empty(),
    {
        Self { common: *common, download_url: String::new() }
    }
}

impl ApplyLayer for SimpleHostConfig {
    type Layer = SimpleHostLayer;

    open spec fn layered(self, layer: SimpleHostLayer) -> Self {
        SimpleHostConfig {
            common: self.common.layered(layer.common),
            download_url: val_or(self.download_url, layer.download_url),
        }
    }

    fn apply_layer(&mut self, layer: SimpleHostLayer) {
        let SimpleHostLayer { common, download_url } = layer;
        self.common.apply_layer(common);
        self.download_url.apply_val(download_url);
    }
}

impl ApplyLayer for SimpleHostLayer {
    type Layer = SimpleHostLayer;

    open spec fn layered(self, layer: SimpleHostLayer) -> Self {
        SimpleHostLayer {
            common: self.common.layered(layer.common),
            download_url: opt_or(self.download_url, layer.download_url),
        }
    }

    fn apply_layer(&mut self, layer: SimpleHostLayer) {
        let SimpleHostLayer { common, download_url } = layer;
        self.common.apply_layer(common);
        self.download_url.apply_opt(download_url);
    }
}

} // verus!
