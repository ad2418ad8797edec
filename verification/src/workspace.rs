//! The parts of a project's workspace graph that config defaults read

use vstd::prelude::*;

verus! {

/// An index into [`WorkspaceGraph::packages`][]
#[derive(Debug, Clone, Copy, PartialEq, Eq, Structural)]
pub struct PackageIdx(pub usize);

/// A package of the workspace
#[derive(Debug, Clone)]
pub struct PackageInfo {
    /// The package's name
    pub name: String,
    /// The directory holding the package's manifest
    pub package_root: String,
}

/// The packages of a project and the directory of its root workspace
#[derive(Debug, Clone)]
pub struct WorkspaceGraph {
    /// The directory of the root workspace
    pub root_workspace_dir: String,
    /// The packages, in index order
    pub packages: Vec<PackageInfo>,
}

impl WorkspaceGraph {
    /// Whether `idx` names a package of this graph
    pub open spec fn has_package(self, idx: PackageIdx) -> bool {
        idx.0 < self.packages@.len()
    }

    /// The name of the package at `idx`
    pub open spec fn package_name(self, idx: PackageIdx) -> Seq<char> {
        self.packages@[idx.0 as int].name@
    }

    /// The package at `idx`
    pub fn package(&self, idx: PackageIdx) -> (r: &PackageInfo)
        requires
            self.has_package(idx),
        ensures
            *r == self.packages@[idx.0 as int],
    {
        &self.packages[idx.0]
    }
}

} // verus!
