//! github releases host config

use vstd::prelude::*;

use super::{CommonHostConfig, CommonHostLayer};
use crate::config::v1::layer::{opt_or, val_or, ApplyLayer, ApplyOptExt, ApplyValExt};
use crate::config::{GithubReleasePhase, GithubRepoPair};
use crate::workspace::{PackageIdx, WorkspaceGraph};

verus! {

/// github releases host config (raw)
#[derive(Debug)]
pub struct GithubHostLayer {
    /// Common options
    pub common: CommonHostLayer,
    /// Whether we should create the Github Release for you when you push a tag.
    ///
    /// If true (default), dist will create a new Github Release and generate
    /// a title/body for it based on your changelog.
    ///
    /// If false, dist will assume a draft Github Release already exists
    /// with the title/body you want. At the end of a successful publish it will
    /// undraft the Github Release.
    pub create: Option<bool>,
    /// Publish GitHub Releases to this repo instead of the current one
    pub repo: Option<GithubRepoPair>,
    /// If `repo` is used, the commit ref to used will
    /// be read from the HEAD of the submodule at this path
    pub submodule_path: Option<String>,
    /// Which phase to create the github release in
    pub during: Option<GithubReleasePhase>,
    /// Whether GitHub Attestations is enabled (default false)
    pub attestations: Option<bool>,
}

impl GithubHostLayer {
    /// The layer that sets nothing
    pub open spec fn spec_default() -> GithubHostLayer {
        GithubHostLayer {
            common: CommonHostLayer {  },
            create: None,
            repo: None,
            submodule_path: None,
            during: None,
            attestations: None,
        }
    }
}

impl Default for GithubHostLayer {
    fn default() -> (r: Self)
        ensures
            r == GithubHostLayer::spec_default(),
    {
        GithubHostLayer {
            common: CommonHostLayer {  },
            create: None,
            repo: None,
            submodule_path: None,
            during: None,
            attestations: None,
        }
    }
}

/// github releases host config (final)
#[derive(Debug)]
pub struct GithubHostConfig {
    /// Common options
    pub common: CommonHostConfig,
    /// Whether we should create the Github Release for you
    pub create: bool,
    /// Publish GitHub Releases to this repo instead of the current one
    pub repo: Option<GithubRepoPair>,
    /// If github-releases-repo is used, the commit ref to used will
    /// be read from the HEAD of the submodule at this path
    pub submodule_path: Option<String>,
    /// Which phase to create the github release in
    pub during: GithubReleasePhase,
    /// Whether GitHub Attestations is enabled (default false)
    pub attestations: bool,
}

impl GithubHostConfig {
    /// The github host settings before any layer
    pub open spec fn spec_defaults(common: CommonHostConfig) -> GithubHostConfig {
        GithubHostConfig {
            common,
            create: true,
            repo: None,
            submodule_path: None,
            during: GithubReleasePhase::Auto,
            attestations: false,
        }
    }

    /// Get defaults for the given package
    pub fn defaults_for_package(
        _workspaces: &WorkspaceGraph,
        _pkg_idx: PackageIdx,
        common: &CommonHostConfig,
    ) -> (r: Self)
        ensures
            r == GithubHostConfig::spec_defaults(*common),
    {
        Self {
            common: *common,
            create: true,
            repo: None,
            submodule_path: None,
            during: GithubReleasePhase::default(),
            attestations: false,
        }
    }

    /// Get defaults for the given workspace
    pub fn defaults_for_workspace(_workspaces: &WorkspaceGraph, common: &CommonHostConfig) -> (r:
        Self)
        ensures
            r == GithubHostConfig::spec_defaults(*common),
    {
        Self {
            common: *common,
            create: true,
            repo: None,
            submodule_path: None,
            during: GithubReleasePhase::default(),
            attestations: false,
        }
    }
}

impl ApplyLayer for GithubHostConfig {
    type Layer = GithubHostLayer;

    open spec fn layered(self, layer: GithubHostLayer) -> Self {
        GithubHostConfig {
            common: self.common.layered(layer.common),
            create: val_or(self.create, layer.create),
            repo: opt_or(self.repo, layer.repo),
            submodule_path: opt_or(self.submodule_path, layer.submodule_path),
            during: val_or(self.during, layer.during),
            attestations: val_or(self.attestations, layer.attestations),
        }
    }

    fn apply_layer(&mut self, layer: GithubHostLayer) {
        let GithubHostLayer { common, create, repo, submodule_path, during, attestations } = layer;
        self.common.apply_layer(common);
        self.create.apply_val(create);
        self.repo.apply_opt(repo);
        self.submodule_path.apply_opt(submodule_path);
        self.during.apply_val(during);
        self.attestations.apply_val(attestations);
    }
}

impl ApplyLayer for GithubHostLayer {
    type Layer = GithubHostLayer;

    open spec fn layered(self, layer: GithubHostLayer) -> Self {
        GithubHostLayer {
            common: self.common.layered(layer.common),
            create: opt_or(self.create, layer.create),
            repo: opt_or(self.repo, layer.repo),
            submodule_path: opt_or(self.submodule_path, layer.submodule_path),
            during: opt_or(self.during, layer.during),
            attestations: opt_or(self.attestations, layer.attestations),
        }
    }

    fn apply_layer(&mut self, layer: GithubHostLayer) {
        let GithubHostLayer { common, create, repo, submodule_path, during, attestations } = layer;
        self.common.apply_layer(common);
        self.create.apply_opt(create);
        self.repo.apply_opt(repo);
        self.submodule_path.apply_opt(submodule_path);
        self.during.apply_opt(during);
        self.attestations.apply_opt(attestations);
    }
}

} // verus!
