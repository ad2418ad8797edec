//! host config

use vstd::prelude::*;

pub mod axodotdev;
pub mod github;
pub mod simple;

use axodotdev::{AxodotdevHostConfig, AxodotdevHostLayer};
use github::{GithubHostConfig, GithubHostLayer};

use crate::config::v1::layer::{
    bool_layered, opt_or, val_or, ApplyBoolLayerExt, ApplyLayer, ApplyOptExt, BoolOr,
};
use crate::config::HostingStyle;
use crate::strings::clone_string;
use crate::workspace::{PackageIdx, WorkspaceGraph};

verus! {

/// package-specific host config (final)
#[derive(Debug)]
pub struct AppHostConfig {
    /// Whether artifacts/installers for this app should be displayed in release bodies
    pub display: bool,
    /// How to refer to the app in release bodies
    pub display_name: String,
}

/// workspace host config (final)
#[derive(Debug)]
pub struct WorkspaceHostConfig {
    /// Always regard releases as stable
    pub force_latest: bool,
    /// The order the hosts are preferred in for downloads
    pub order: Vec<HostingStyle>,
    /// github host config (github releases)
    pub github: Option<GithubHostConfig>,
    /// axodotdev host config
    pub axodotdev: Option<AxodotdevHostConfig>,
}

impl AppHostConfig {
    /// The package host config that `src` resolves to for the package named `package_name`
    pub open spec fn inherits(self, src: HostConfigInheritable, package_name: Seq<char>) -> bool {
        &&& self.display == val_or(true, src.display)
        &&& self.display_name@ == match src.display_name {
            Some(name) => name@,
            None => package_name,
        }
    }
}

impl WorkspaceHostConfig {
    /// The workspace host config that `src` resolves to
    pub open spec fn inherits(self, src: HostConfigInheritable) -> bool {
        &&& self.github == match src.github {
            Some(layer) => Some(GithubHostConfig::spec_defaults(src.common).layered(layer)),
            None => None,
        }
        &&& self.axodotdev == match src.axodotdev {
            Some(layer) => Some((AxodotdevHostConfig { common: src.common }).layered(layer)),
            None => None,
        }
        &&& self.order@ == match src.order {
            Some(order) => order@,
            None => Seq::<HostingStyle>::empty(),
        }
        &&& self.force_latest == val_or(false, src.force_latest)
    }
}

/// host config (inheritance not folded in yet)
#[derive(Debug)]
pub struct HostConfigInheritable {
    /// inheritable fields
    pub common: CommonHostConfig,
    /// Always regard releases as stable
    pub force_latest: Option<bool>,
    /// Whether artifacts/installers for this app should be displayed in release bodies
    pub display: Option<bool>,
    /// How to refer to the app in release bodies
    pub display_name: Option<String>,
    /// The order the hosts are preferred in for downloads
    pub order: Option<Vec<HostingStyle>>,
    /// github hosting
    pub github: Option<GithubHostLayer>,
    /// axodotdev hosting
    pub axodotdev: Option<AxodotdevHostLayer>,
}

/// host config (raw from file)
#[derive(Debug)]
pub struct HostLayer {
    /// inheritable fields
    pub common: CommonHostLayer,
    /// Always regard releases as stable
    ///
    /// (defaults to false)
    pub force_latest: Option<bool>,
    /// Whether artifacts/installers for this app should be displayed in release bodies
    pub display: Option<bool>,
    /// How to refer to the app in release bodies
    pub display_name: Option<String>,
    /// Order of hosts for downloads
    pub order: Option<Vec<HostingStyle>>,
    /// github hosting
    pub github: Option<BoolOr<GithubHostLayer>>,
    /// axodotdev hosting
    pub axodotdev: Option<BoolOr<AxodotdevHostLayer>>,
}

impl HostConfigInheritable {
    /// No host settings at all yet
    pub open spec fn spec_defaults() -> HostConfigInheritable {
        HostConfigInheritable {
            common: CommonHostConfig {  },
            github: None,
            axodotdev: None,
            order: None,
            force_latest: None,
            display: None,
            display_name: None,
        }
    }

    /// get defaults for a package
    pub fn defaults_for_package(workspaces: &WorkspaceGraph, pkg_idx: PackageIdx) -> (r: Self)
        ensures
            r == HostConfigInheritable::spec_defaults(),
    {
        Self {
            common: CommonHostConfig::defaults_for_package(workspaces, pkg_idx),
            github: None,
            axodotdev: None,
            order: None,
            force_latest: None,
            display: None,
            display_name: None,
        }
    }

    /// get defaults for a workspace
    pub fn defaults_for_workspace(workspaces: &WorkspaceGraph) -> (r: Self)
        ensures
            r == HostConfigInheritable::spec_defaults(),
    {
        Self {
            common: CommonHostConfig::defaults_for_workspace(workspaces),
            github: None,
            axodotdev: None,
            order: None,
            force_latest: None,
            display: None,
            display_name: None,
        }
    }

    /// apply inheritance to get final package config
    pub fn apply_inheritance_for_package(self, workspaces: &WorkspaceGraph, pkg_idx: PackageIdx) -> (r:
        AppHostConfig)
        requires
            workspaces.has_package(pkg_idx),
        ensures
            r.inherits(self, workspaces.package_name(pkg_idx)),
    {
        let Self {
            common: _,
            github: _,
            axodotdev: _,
            order: _,
            force_latest: _,
            display,
            display_name,
        } = self;
        let package = workspaces.package(pkg_idx);
        AppHostConfig {
            display: match display {
                Some(d) => d,
                None => true,
            },
            display_name: match display_name {
                Some(name) => name,
                None => clone_string(&package.name),
            },
        }
    }

    /// apply inheritance to get final workspace config
    pub fn apply_inheritance_for_workspace(self, workspaces: &WorkspaceGraph) -> (r:
        WorkspaceHostConfig)
        ensures
            r.inherits(self),
    {
        let Self {
            common,
            github,
            axodotdev,
            order,
            force_latest,
            display: _,
            display_name: _,
        } = self;
        let github = match github {
            Some(github) => {
                let mut default = GithubHostConfig::defaults_for_workspace(workspaces, &common);
                default.apply_layer(github);
                Some(default)
            },
            None => None,
        };
        let axodotdev = match axodotdev {
            Some(axodotdev) => {
                let mut default = AxodotdevHostConfig::defaults_for_workspace(workspaces, &common);
                default.apply_layer(axodotdev);
                Some(default)
            },
            None => None,
        };
        WorkspaceHostConfig {
            github,
            axodotdev,
            order: match order {
                Some(order) => order,
                None => Vec::new(),
            },
            force_latest: match force_latest {
                Some(f) => f,
                None => false,
            },
        }
    }
}

impl ApplyLayer for HostConfigInheritable {
    type Layer = HostLayer;

    open spec fn layered(self, layer: HostLayer) -> Self {
        HostConfigInheritable {
            common: self.common.layered(layer.common),
            github: bool_layered(self.github, layer.github, GithubHostLayer::spec_default()),
            axodotdev: bool_layered(self.axodotdev, layer.axodotdev, AxodotdevHostLayer { common: CommonHostLayer {  } }),
            order: opt_or(self.order, layer.order),
            force_latest: opt_or(self.force_latest, layer.force_latest),
            display: opt_or(self.display, layer.display),
            display_name: opt_or(self.display_name, layer.display_name),
        }
    }

    fn apply_layer(&mut self, layer: HostLayer) {
        let HostLayer { common, order, github, axodotdev, force_latest, display, display_name } =
            layer;
        self.common.apply_layer(common);
        self.github.apply_bool_layer(github);
        self.axodotdev.apply_bool_layer(axodotdev);
        self.order.apply_opt(order);
        self.force_latest.apply_opt(force_latest);
        self.display.apply_opt(display);
        self.display_name.apply_opt(display_name);
    }
}

/// inheritable hosting config
#[derive(Debug, Clone, Copy, PartialEq, Eq)]
pub struct CommonHostLayer {}

impl Default for CommonHostLayer {
    fn default() -> (r: Self)
        ensures
            r == (CommonHostLayer {  }),
    {
        CommonHostLayer {  }
    }
}

/// inheritable hosting config
#[derive(Debug, Clone, Copy, PartialEq, Eq)]
pub struct CommonHostConfig {}

impl CommonHostConfig {
    /// defaults for package
    pub fn defaults_for_package(_workspaces: &WorkspaceGraph, _pkg_idx: PackageIdx) -> (r: Self)
        ensures
            r == (CommonHostConfig {  }),
    {
        Self {  }
    }

    /// defaults for workspace
    pub fn defaults_for_workspace(_workspaces: &WorkspaceGraph) -> (r: Self)
        ensures
            r == (CommonHostConfig {  }),
    {
        Self {  }
    }
}

impl ApplyLayer for CommonHostConfig {
    type Layer = CommonHostLayer;

    open spec fn layered(self, layer: CommonHostLayer) -> Self {
        self
    }

    fn apply_layer(&mut self, layer: CommonHostLayer) {
        let CommonHostLayer {  } = layer;
    }
}

impl ApplyLayer for CommonHostLayer {
    type Layer = CommonHostLayer;

    open spec fn layered(self, layer: CommonHostLayer) -> Self {
        self
    }

    fn apply_layer(&mut self, layer: CommonHostLayer) {
        let CommonHostLayer {  } = layer;
    }
}

} // verus!
