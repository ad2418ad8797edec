//! npm installer config

use vstd::prelude::*;

use super::{CommonInstallerConfig, CommonInstallerLayer};
use crate::config::v1::layer::{opt_or, val_or, ApplyLayer, ApplyOptExt, ApplyValExt};
use crate::strings::clone_string;
use crate::workspace::{PackageIdx, WorkspaceGraph};

verus! {

/// Options for npm installer (~raw config file contents)
#[derive(Debug)]
pub struct NpmInstallerLayer {
    /// Common options
    pub common: CommonInstallerLayer,
    /// Replace the app's name with this value for the npm package's name
    pub package: Option<String>,
    /// A scope to prefix the npm package with (@ should be included).
    pub scope: Option<String>,
}

impl Default for NpmInstallerLayer {
    fn default() -> (r: Self)
        ensures
            r == (NpmInstallerLayer {
                common: CommonInstallerLayer::spec_default(),
                package: None,
                scope: None,
            }),
    {
        NpmInstallerLayer { common: CommonInstallerLayer::default(), package: None, scope: None }
    }
}

/// Options for npm installer (final)
#[derive(Debug)]
pub struct NpmInstallerConfig {
    /// Common options
    pub common: CommonInstallerConfig,
    /// The app's name with this value for the npm package's name
    pub package: String,
    /// A scope to prefix the npm package with (@ should be included).
    pub scope: Option<String>,
}

impl NpmInstallerConfig {
    /// This is the default for a package named `pkg_name` (from `common`) with `layer` applied
    pub open spec fn resolved_from(
        self,
        common: CommonInstallerConfig,
        layer: NpmInstallerLayer,
        pkg_name: Seq<char>,
    ) -> bool {
        &&& self.common.same_as(common.layered(layer.common))
        &&& self.package@ == match layer.package {
            Some(p) => p@,
            None => pkg_name,
        }
        &&& self.scope == layer.scope
    }

    /// Get defaults for the given package
    pub fn defaults_for_package(
        workspaces: &WorkspaceGraph,
        pkg_idx: PackageIdx,
        common: &CommonInstallerConfig,
    ) -> (r: Self)
        requires
            workspaces.has_package(pkg_idx),
        ensures
            r.common.same_as(*common),
            r.package@ == workspaces.package_name(pkg_idx),
            r.scope is None,
    {
        let pkg = workspaces.package(pkg_idx);
        Self { common: common.clone(), package: clone_string(&pkg.name), scope: None }
    }
}

impl ApplyLayer for NpmInstallerConfig {
    type Layer = NpmInstallerLayer;

    open spec fn layered(self, layer: NpmInstallerLayer) -> Self {
        NpmInstallerConfig {
            common: self.common.layered(layer.common),
            package: val_or(self.package, layer.package),
            scope: opt_or(self.scope, layer.scope),
        }
    }

    fn apply_layer(&mut self, layer: NpmInstallerLayer) {
        let NpmInstallerLayer { common, scope, package } = layer;
        self.common.apply_layer(common);
        self.scope.apply_opt(scope);
        self.package.apply_val(package);
    }
}

impl ApplyLayer for NpmInstallerLayer {
    type Layer = NpmInstallerLayer;

    open spec fn layered(self, layer: NpmInstallerLayer) -> Self {
        NpmInstallerLayer {
            common: self.common.layered(layer.common),
            package: opt_or(self.package, layer.package),
            scope: opt_or(self.scope, layer.scope),
        }
    }

    fn apply_layer(&mut self, layer: NpmInstallerLayer) {
        let NpmInstallerLayer { common, scope, package } = layer;
        self.common.apply_layer(common);
        self.scope.apply_opt(scope);
        self.package.apply_opt(package);
    }
}

} // verus!
