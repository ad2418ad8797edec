//! publisher config

use vstd::prelude::*;

pub mod homebrew;
pub mod npm;
pub mod user;

use homebrew::{HomebrewPublisherConfig, HomebrewPublisherLayer};
use npm::{NpmPublisherConfig, NpmPublisherLayer};

use crate::config::v1::layer::{
    bool_layered, opt_or, val_or, ApplyBoolLayerExt, ApplyLayer, ApplyOptExt, ApplyValExt, BoolOr,
};
use crate::workspace::{PackageIdx, WorkspaceGraph};

verus! {

/// The publishers of a package (final)
#[derive(Debug)]
pub struct PublisherConfig {
    /// homebrew publisher
    pub homebrew: Option<HomebrewPublisherConfig>,
    /// npm publisher
    pub npm: Option<NpmPublisherConfig>,
}

/// The publishers of a package (inheritance not yet applied)
#[derive(Debug)]
pub struct PublisherConfigInheritable {
    /// inheritable fields
    pub common: CommonPublisherConfig,
    /// homebrew publisher
    pub homebrew: Option<HomebrewPublisherLayer>,
    /// npm publisher
    pub npm: Option<NpmPublisherLayer>,
}

/// The publishers of a package (raw from file)
#[derive(Debug)]
pub struct PublisherLayer {
    /// inheritable fields
    pub common: CommonPublisherLayer,
    /// homebrew publisher
    pub homebrew: Option<BoolOr<HomebrewPublisherLayer>>,
    /// npm publisher
    pub npm: Option<BoolOr<NpmPublisherLayer>>,
}

impl PublisherConfig {
    /// The package publisher config that `src` resolves to
    pub open spec fn inherits(self, src: PublisherConfigInheritable) -> bool {
        self == (PublisherConfig {
            homebrew: match src.homebrew {
                Some(l) => Some((HomebrewPublisherConfig { common: src.common }).layered(l)),
                None => None,
            },
            npm: match src.npm {
                Some(l) => Some((NpmPublisherConfig { common: src.common, registry: None }).layered(l)),
                None => None,
            },
        })
    }
}

impl PublisherConfigInheritable {
    /// get defaults for a package
    pub fn defaults_for_package(workspaces: &WorkspaceGraph, pkg_idx: PackageIdx) -> (r: Self)
        ensures
            r == (PublisherConfigInheritable {
                common: CommonPublisherConfig { prereleases: false },
                homebrew: None,
                npm: None,
            }),
    {
        Self {
            common: CommonPublisherConfig::defaults_for_package(workspaces, pkg_idx),
            homebrew: None,
            npm: None,
        }
    }

    /// apply inheritance to get final package config
    pub fn apply_inheritance_for_package(self, workspaces: &WorkspaceGraph, pkg_idx: PackageIdx) -> (r:
        PublisherConfig)
        ensures
            r.inherits(self),
    {
        let Self { common, homebrew, npm } = self;
        let homebrew = match homebrew {
            Some(homebrew) => {
                let mut default = HomebrewPublisherConfig::defaults_for_package(
                    workspaces,
                    pkg_idx,
                    &common,
                );
                default.apply_layer(homebrew);
                Some(default)
            },
            None => None,
        };
        let npm = match npm {
            Some(npm) => {
                let mut default = NpmPublisherConfig::defaults_for_package(workspaces, pkg_idx, &common);
                default.apply_layer(npm);
                Some(default)
            },
            None => None,
        };
        PublisherConfig { homebrew, npm }
    }
}

impl ApplyLayer for PublisherConfigInheritable {
    type Layer = PublisherLayer;

    open spec fn layered(self, layer: PublisherLayer) -> Self {
        PublisherConfigInheritable {
            common: self.common.layered(layer.common),
            homebrew: bool_layered(
                self.homebrew,
                layer.homebrew,
                HomebrewPublisherLayer { common: CommonPublisherLayer { prereleases: None } },
            ),
            npm: bool_layered(
                self.npm,
                layer.npm,
                NpmPublisherLayer { common: CommonPublisherLayer { prereleases: None }, registry: None },
            ),
        }
    }

    fn apply_layer(&mut self, layer: PublisherLayer) {
        let PublisherLayer { common, homebrew, npm } = layer;
        self.common.apply_layer(common);
        self.homebrew.apply_bool_layer(homebrew);
        self.npm.apply_bool_layer(npm);
    }
}

/// inheritable publisher fields (raw from file)
#[derive(Debug, Clone, Copy, PartialEq, Eq)]
pub struct CommonPublisherLayer {
    /// Whether to publish prereleases (defaults to false)
    pub prereleases: Option<bool>,
}

impl Default for CommonPublisherLayer {
    fn default() -> (r: Self)
        ensures
            r == (CommonPublisherLayer { prereleases: None }),
    {
        CommonPublisherLayer { prereleases: None }
    }
}

/// inheritable publisher fields (final)
#[derive(Debug, Clone, Copy, PartialEq, Eq)]
pub struct CommonPublisherConfig {
    /// Whether to publish prereleases (defaults to false)
    pub prereleases: bool,
}

impl CommonPublisherConfig {
    /// get defaults for a package
    pub fn defaults_for_package(_workspaces: &WorkspaceGraph, _pkg_idx: PackageIdx) -> (r: Self)
        ensures
            r == (CommonPublisherConfig { prereleases: false }),
    {
        Self { prereleases: false }
    }
}

impl ApplyLayer for CommonPublisherConfig {
    type Layer = CommonPublisherLayer;

    open spec fn layered(self, layer: CommonPublisherLayer) -> Self {
        CommonPublisherConfig { prereleases: val_or(self.prereleases, layer.prereleases) }
    }

    fn apply_layer(&mut self, layer: CommonPublisherLayer) {
        let CommonPublisherLayer { prereleases } = layer;
        self.prereleases.apply_val(prereleases);
    }
}

impl ApplyLayer for CommonPublisherLayer {
    type Layer = CommonPublisherLayer;

    open spec fn layered(self, layer: CommonPublisherLayer) -> Self {
        CommonPublisherLayer { prereleases: opt_or(self.prereleases, layer.prereleases) }
    }

    fn apply_layer(&mut self, layer: CommonPublisherLayer) {
        let CommonPublisherLayer { prereleases } = layer;
        self.prereleases.apply_opt(prereleases);
    }
}

} // verus!
