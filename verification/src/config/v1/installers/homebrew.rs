//! homebrew installer config

use vstd::prelude::*;

use super::{CommonInstallerConfig, CommonInstallerLayer};
use crate::config::v1::layer::{opt_or, ApplyLayer, ApplyOptExt};
use crate::workspace::{PackageIdx, WorkspaceGraph};

verus! {

/// Options for homebrew installer
#[derive(Debug)]
pub struct HomebrewInstallerLayer {
    /// Common options
    pub common: CommonInstallerLayer,
    /// A Homebrew tap to push the Homebrew formula to, if built
    pub tap: Option<String>,
    /// Customize the name of the Homebrew formula
    pub formula: Option<String>,
}

impl Default for HomebrewInstallerLayer {
    fn default() -> (r: Self)
        ensures
            r == (HomebrewInstallerLayer {
                common: CommonInstallerLayer::spec_default(),
                tap: None,
                formula: None,
            }),
    {
        HomebrewInstallerLayer { common: CommonInstallerLayer::default(), tap: None, formula: None }
    }
}

/// Options for homebrew installer
#[derive(Debug)]
pub struct HomebrewInstallerConfig {
    /// Common options
    pub common: CommonInstallerConfig,
    /// A Homebrew tap to push the Homebrew formula to, if built
    pub tap: Option<String>,
    /// Customize the name of the Homebrew formula
    pub formula: Option<String>,
}

impl HomebrewInstallerConfig {
    /// This is the package default (from `common`) with `layer` applied
    pub open spec fn resolved_from(self, common: CommonInstallerConfig, layer: HomebrewInstallerLayer) -> bool {
        &&& self.common.same_as(common.layered(layer.common))
        &&& self.tap == layer.tap
        &&& self.formula == layer.formula
    }

    /// Get defaults for the given package
    pub fn defaults_for_package(
        _workspaces: &WorkspaceGraph,
        _pkg_idx: PackageIdx,
        common: &CommonInstallerConfig,
    ) -> (r: Self)
        ensures
            r.common.same_as(*common),
            r.tap is None,
            r.formula is None,
    {
        Self { common: common.clone(), tap: None, formula: None }
    }
}

impl ApplyLayer for HomebrewInstallerConfig {
    type Layer = HomebrewInstallerLayer;

    open spec fn layered(self, layer: HomebrewInstallerLayer) -> Self {
        HomebrewInstallerConfig {
            common: self.common.layered(layer.common),
            tap: opt_or(self.tap, layer.tap),
            formula: opt_or(self.formula, layer.formula),
        }
    }

    fn apply_layer(&mut self, layer: HomebrewInstallerLayer) {
        let HomebrewInstallerLayer { common, tap, formula } = layer;
        self.common.apply_layer(common);
        self.tap.apply_opt(tap);
        self.formula.apply_opt(formula);
    }
}

impl ApplyLayer for HomebrewInstallerLayer {
    type Layer = HomebrewInstallerLayer;

    open spec fn layered(self, layer: HomebrewInstallerLayer) -> Self {
        HomebrewInstallerLayer {
            common: self.common.layered(layer.common),
            tap: opt_or(self.tap, layer.tap),
            formula: opt_or(self.formula, layer.formula),
        }
    }

    fn apply_layer(&mut self, layer: HomebrewInstallerLayer) {
        let HomebrewInstallerLayer { common, tap, formula } = layer;
        self.common.apply_layer(common);
        self.tap.apply_opt(tap);
        self.formula.apply_opt(formula);
    }
}

} // verus!
