//! pkg installer config

use vstd::prelude::*;

use super::{CommonInstallerConfig, CommonInstallerLayer};
use crate::config::v1::layer::{opt_or, val_or, ApplyLayer, ApplyOptExt, ApplyValExt};
use crate::strings::owned;
use crate::workspace::{PackageIdx, WorkspaceGraph};

verus! {

/// Options for pkg installer
#[derive(Debug)]
pub struct PkgInstallerLayer {
    /// Common options
    pub common: CommonInstallerLayer,
    /// A unique identifier, in tld.domain.package format
    pub identifier: Option<String>,
    /// The location to which the software should be installed.
    /// If not specified, /usr/local will be used.
    pub install_location: Option<String>,
}

impl Default for PkgInstallerLayer {
    fn default() -> (r: Self)
        ensures
            r == (PkgInstallerLayer {
                common: CommonInstallerLayer::spec_default(),
                identifier: None,
                install_location: None,
            }),
    {
        PkgInstallerLayer {
            common: CommonInstallerLayer::default(),
            identifier: None,
            install_location: None,
        }
    }
}

/// Options for pkg installer
#[derive(Debug)]
pub struct PkgInstallerConfig {
    /// Common options
    pub common: CommonInstallerConfig,
    /// A unique identifier, in tld.domain.package format
    pub identifier: String,
    /// The location to which the software should be installed.
    /// If not specified, /usr/local will be used.
    pub install_location: String,
}

impl PkgInstallerConfig {
    /// This is the package default (from `common`) with `layer` applied
    pub open spec fn resolved_from(self, common: CommonInstallerConfig, layer: PkgInstallerLayer) -> bool {
        &&& self.common.same_as(common.layered(layer.common))
        &&& self.identifier@ == match layer.identifier {
            Some(i) => i@,
            None => "TODO"@,
        }
        &&& self.install_location@ == match layer.install_location {
            Some(l) => l@,
            None => "/usr/local"@,
        }
    }

    /// Get defaults for the given package
    pub fn defaults_for_package(
        _workspaces: &WorkspaceGraph,
        _pkg_idx: PackageIdx,
        common: &CommonInstallerConfig,
    ) -> (r: Self)
        ensures
            r.common.same_as(*common),
            r.identifier@ == "TODO"@,
            r.install_location@ == "/usr/local"@,
    {
        Self {
            common: common.clone(),
            // you *need* to provide this to make a pkg installer, so it *should* be
            // non-optional, but the whole "defaults first" thing makes this messed up...
            identifier: owned("TODO"),
            install_location: owned("/usr/local"),
        }
    }
}

impl ApplyLayer for PkgInstallerConfig {
    type Layer = PkgInstallerLayer;

    open spec fn layered(self, layer: PkgInstallerLayer) -> Self {
        PkgInstallerConfig {
            common: self.common.layered(layer.common),
            identifier: val_or(self.identifier, layer.identifier),
            install_location: val_or(self.install_location, layer.install_location),
        }
    }

    fn apply_layer(&mut self, layer: PkgInstallerLayer) {
        let PkgInstallerLayer { common, identifier, install_location } = layer;
        self.common.apply_layer(common);
        self.identifier.apply_val(identifier);
        self.install_location.apply_val(install_location);
    }
}

impl ApplyLayer for PkgInstallerLayer {
    type Layer = PkgInstallerLayer;

    open spec fn layered(self, layer: PkgInstallerLayer) -> Self {
        PkgInstallerLayer {
            common: self.common.layered(layer.common),
            identifier: opt_or(self.identifier, layer.identifier),
            install_location: opt_or(self.install_location, layer.install_location),
        }
    }

    fn apply_layer(&mut self, layer: PkgInstallerLayer) {
        let PkgInstallerLayer { common, identifier, install_location } = layer;
        self.common.apply_layer(common);
        self.identifier.apply_opt(identifier);
        self.install_location.apply_opt(install_location);
    }
}

} // verus!
