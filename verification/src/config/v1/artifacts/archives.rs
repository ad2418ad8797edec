//! archive config

use vstd::prelude::*;

use crate::config::v1::layer::{opt_or, val_or, ApplyLayer, ApplyOptExt, ApplyValExt};
use crate::config::{CompressionImpl, LibraryStyle, ZipStyle};
use crate::workspace::{PackageIdx, WorkspaceGraph};

verus! {

/// archive config (final)
#[derive(Debug)]
pub struct ArchiveConfig {
    /// Add the following static files in bundles like archives.
    pub included_files: Vec<String>,
    /// Whether to automatically add files like `README*`, `(UN)LICENSE*`, `RELEASES*`, and `CHANGELOG*`
    pub auto_includes: bool,
    /// The archive format to use for windows builds (defaults .zip)
    pub windows_archive: ZipStyle,
    /// The archive format to use for non-windows builds (defaults .tar.xz)
    pub unix_archive: ZipStyle,
    /// Whether to put built libraries in the archives
    pub package_libraries: Vec<LibraryStyle>,
}

/// archive config (raw from file)
#[derive(Debug)]
pub struct ArchiveLayer {
    /// Add the following static files in bundles like archives.
    ///
    /// Paths are relative to the config file this is defined in.
    pub included_files: Option<Vec<String>>,
    /// Whether to automatically add files like `README*`, `(UN)LICENSE*`, `RELEASES*`, and `CHANGELOG*`
    ///
    /// Defaults to true.
    pub auto_includes: Option<bool>,
    /// The archive format to use for windows builds (defaults .zip)
    pub windows_archive: Option<ZipStyle>,
    /// The archive format to use for non-windows builds (defaults .tar.xz)
    pub unix_archive: Option<ZipStyle>,
    /// Whether to put built libraries in the archives
    pub package_libraries: Option<Vec<LibraryStyle>>,
}

impl ArchiveConfig {
    /// The archive settings before any layer
    pub open spec fn is_defaults(self) -> bool {
        &&& self.included_files@.len() == 0
        &&& self.auto_includes
        &&& self.windows_archive == ZipStyle::Zip
        &&& self.unix_archive == ZipStyle::Tar(CompressionImpl::Xzip)
        &&& self.package_libraries@.len() == 0
    }

    /// get the defaults for a package
    pub fn defaults_for_package(_workspaces: &WorkspaceGraph, _pkg_idx: PackageIdx) -> (r: Self)
        ensures
            r.is_defaults(),
    {
        Self {
            included_files: Vec::new(),
            auto_includes: true,
            windows_archive: ZipStyle::Zip,
            unix_archive: ZipStyle::Tar(CompressionImpl::Xzip),
            package_libraries: Vec::new(),
        }
    }
}

impl ApplyLayer for ArchiveConfig {
    type Layer = ArchiveLayer;

    open spec fn layered(self, layer: ArchiveLayer) -> Self {
        ArchiveConfig {
            included_files: val_or(self.included_files, layer.included_files),
            auto_includes: val_or(self.auto_includes, layer.auto_includes),
            windows_archive: val_or(self.windows_archive, layer.windows_archive),
            unix_archive: val_or(self.unix_archive, layer.unix_archive),
            package_libraries: val_or(self.package_libraries, layer.package_libraries),
        }
    }

    fn apply_layer(&mut self, layer: ArchiveLayer) {
        let ArchiveLayer { included_files, auto_includes, windows_archive, unix_archive, package_libraries } =
            layer;
        self.included_files.apply_val(included_files);
        self.auto_includes.apply_val(auto_includes);
        self.windows_archive.apply_val(windows_archive);
        self.unix_archive.apply_val(unix_archive);
        self.package_libraries.apply_val(package_libraries);
    }
}

impl ApplyLayer for ArchiveLayer {
    type Layer = ArchiveLayer;

    open spec fn layered(self, layer: ArchiveLayer) -> Self {
        ArchiveLayer {
            included_files: opt_or(self.included_files, layer.included_files),
            auto_includes: opt_or(self.auto_includes, layer.auto_includes),
            windows_archive: opt_or(self.windows_archive, layer.windows_archive),
            unix_archive: opt_or(self.unix_archive, layer.unix_archive),
            package_libraries: opt_or(self.package_libraries, layer.package_libraries),
        }
    }

    fn apply_layer(&mut self, layer: ArchiveLayer) {
        let ArchiveLayer { included_files, auto_includes, windows_archive, unix_archive, package_libraries } =
            layer;
        self.included_files.apply_opt(included_files);
        self.auto_includes.apply_opt(auto_includes);
        self.windows_archive.apply_opt(windows_archive);
        self.unix_archive.apply_opt(unix_archive);
        self.package_libraries.apply_opt(package_libraries);
    }
}

} // verus!
