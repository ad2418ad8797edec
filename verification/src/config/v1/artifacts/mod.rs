//! artifact config

use vstd::prelude::*;

pub mod archives;

use archives::{ArchiveConfig, ArchiveLayer};

use crate::config::v1::layer::{val_or, ApplyLayer, ApplyValExt};
use crate::config::{ChecksumStyle, ExtraArtifact};
use crate::workspace::{PackageIdx, WorkspaceGraph};

verus! {

/// app-specific artifact config (final)
#[derive(Debug)]
pub struct AppArtifactConfig {
    /// archive config
    pub archives: ArchiveConfig,
    /// Any extra artifacts and their buildscripts
    pub extra: Vec<ExtraArtifact>,
}

/// workspace artifact config (final)
#[derive(Debug, Clone, Copy, PartialEq, Eq)]
pub struct WorkspaceArtifactConfig {
    /// Whether to generate and dist a tarball containing your app's source code
    pub source_tarball: bool,
    /// Whether tarballs should include submodules
    pub recursive_tarball: bool,
    /// How to checksum
    pub checksum: ChecksumStyle,
}

/// artifact config (raw from file)
#[derive(Debug)]
pub struct ArtifactLayer {
    /// archive config
    pub archives: Option<ArchiveLayer>,
    /// Whether to generate and dist a tarball containing your app's source code
    ///
    /// (defaults to true)
    pub source_tarball: Option<bool>,
    /// Whether source tarballs should include submodules
    ///
    /// (defaults to false)
    pub recursive_tarball: Option<bool>,
    /// Any extra artifacts and their buildscripts
    pub extra: Option<Vec<ExtraArtifact>>,
    /// How to checksum
    pub checksum: Option<ChecksumStyle>,
}

impl AppArtifactConfig {
    /// get the defaults for a package
    pub fn defaults_for_package(workspaces: &WorkspaceGraph, pkg_idx: PackageIdx) -> (r: Self)
        ensures
            r.archives.is_defaults(),
            r.extra@.len() == 0,
    {
        Self {
            archives: ArchiveConfig::defaults_for_package(workspaces, pkg_idx),
            extra: Vec::new(),
        }
    }
}

impl WorkspaceArtifactConfig {
    /// The artifact settings of a workspace before any layer
    pub open spec fn spec_defaults() -> WorkspaceArtifactConfig {
        WorkspaceArtifactConfig {
            source_tarball: true,
            recursive_tarball: false,
            checksum: ChecksumStyle::Sha256,
        }
    }

    /// get the defaults for a workspace
    pub fn defaults_for_workspace(_workspaces: &WorkspaceGraph) -> (r: Self)
        ensures
            r == WorkspaceArtifactConfig::spec_defaults(),
    {
        Self { source_tarball: true, recursive_tarball: false, checksum: ChecksumStyle::Sha256 }
    }
}

impl ApplyLayer for AppArtifactConfig {
    type Layer = ArtifactLayer;

    /// only the archive and extra-artifact settings are app-scoped
    open spec fn layered(self, layer: ArtifactLayer) -> Self {
        AppArtifactConfig {
            archives: match layer.archives {
                Some(a) => self.archives.layered(a),
                None => self.archives,
            },
            extra: val_or(self.extra, layer.extra),
        }
    }

    fn apply_layer(&mut self, layer: ArtifactLayer) {
        let ArtifactLayer {
            archives,
            extra,
            // these are all workspace-only
            source_tarball: _,
            recursive_tarball: _,
            checksum: _,
        } = layer;
        self.archives.apply_val_layer(archives);
        self.extra.apply_val(extra);
    }
}

impl ApplyLayer for WorkspaceArtifactConfig {
    type Layer = ArtifactLayer;

    /// only the source tarball and checksum settings are workspace-scoped
    open spec fn layered(self, layer: ArtifactLayer) -> Self {
        WorkspaceArtifactConfig {
            source_tarball: val_or(self.source_tarball, layer.source_tarball),
            recursive_tarball: val_or(self.recursive_tarball, layer.recursive_tarball),
            checksum: val_or(self.checksum, layer.checksum),
        }
    }

    fn apply_layer(&mut self, layer: ArtifactLayer) {
        let ArtifactLayer {
            source_tarball,
            recursive_tarball,
            checksum,
            // these are all app-only
            archives: _,
            extra: _,
        } = layer;
        self.source_tarball.apply_val(source_tarball);
        self.recursive_tarball.apply_val(recursive_tarball);
        self.checksum.apply_val(checksum);
    }
}

} // verus!
