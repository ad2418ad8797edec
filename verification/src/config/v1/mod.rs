//! The dist 1.0 config format (as opposed to the old v0 format)
//!
//! `...Config` types are the "complete" values that get passed around to the rest
//! of the program, and `...Layer` types are "partial" values that are loaded and
//! parsed before being merged into the final config. Each `...Config` type states
//! in [`ApplyLayer`][] how its `...Layer` gets combined into it, with the later
//! layer winning.

use vstd::prelude::*;

pub mod artifacts;
pub mod builds;
pub mod ci;
pub mod hosts;
pub mod installers;
pub mod layer;
pub mod publishers;

use artifacts::archives::ArchiveLayer;
use artifacts::{AppArtifactConfig, ArtifactLayer, WorkspaceArtifactConfig};
use builds::{AppBuildConfig, BuildConfigInheritable, BuildLayer, CommonBuildConfig, WorkspaceBuildConfig};
use ci::{CiConfig, CiConfigInheritable, CiLayer};
use hosts::{AppHostConfig, HostConfigInheritable, HostLayer, WorkspaceHostConfig};
use installers::{AppInstallerConfig, InstallerConfigInheritable, InstallerLayer, WorkspaceInstallerConfig};
use layer::{opt_or, val_or, ApplyLayer, ApplyOptExt, ApplyValExt, BoolOr};
use publishers::{CommonPublisherConfig, PublisherConfig, PublisherConfigInheritable, PublisherLayer};

use crate::config::{ConfigVersion, ExtraArtifact, GenerateMode};
use crate::init::apply_dist::helpers::texts_view;
use crate::paths::{make_path_relative_to, make_paths_relative_to, relative_path_spec, relative_paths_spec};
use crate::workspace::{PackageIdx, WorkspaceGraph};

verus! {

/// The workspace config that `global_config`, found in the workspace's own
/// config file, resolves to: the workspace defaults with the layer applied
/// (its relative paths first made relative to the workspace), then
/// inheritance folded in
pub fn workspace_config(workspaces: &WorkspaceGraph, global_config: TomlLayer) -> (r: WorkspaceConfig)
    ensures
        exists|base: WorkspaceConfigInheritable, rebased: TomlLayer|
            #![trigger base.layered(rebased)]
            base.is_workspace_defaults() && rebased.rebased_from(
                global_config,
                workspaces.root_workspace_dir@,
            ) && r.inherits(base.layered(rebased)),
{
    let ghost original = global_config;
    let mut global_config = global_config;
    // Rewrite config-file-relative paths
    global_config.make_relative_to(workspaces.root_workspace_dir.as_str());
    let ghost rebased = global_config;

    let mut config = WorkspaceConfigInheritable::defaults_for_workspace(workspaces);
    let ghost base = config;
    config.apply_layer(global_config);
    let r = config.apply_inheritance_for_workspace(workspaces);
    assert(base.is_workspace_defaults() && rebased.rebased_from(
        original,
        workspaces.root_workspace_dir@,
    ) && r.inherits(base.layered(rebased)));
    r
}

/// The config of package `pkg_idx` that the workspace config `global_config`
/// and the package's own `local_config` resolve to: the package defaults with
/// both layers applied in turn, the package's own winning (each with its
/// relative paths first made relative to the file it came from), then
/// inheritance folded in
pub fn app_config(
    workspaces: &WorkspaceGraph,
    pkg_idx: PackageIdx,
    global_config: TomlLayer,
    local_config: TomlLayer,
) -> (r: AppConfig)
    requires
        workspaces.has_package(pkg_idx),
    ensures
        exists|base: AppConfigInheritable, g: TomlLayer, l: TomlLayer|
            #![trigger base.layered(g).layered(l)]
            base.is_package_defaults() && g.rebased_from(global_config, workspaces.root_workspace_dir@)
                && l.rebased_from(local_config, workspaces.packages@[pkg_idx.0 as int].package_root@)
                && r.inherits(base.layered(g).layered(l), workspaces.package_name(pkg_idx)),
{
    let mut global_config = global_config;
    let mut local_config = local_config;
    // Rewrite config-file-relative paths
    let package = workspaces.package(pkg_idx);
    global_config.make_relative_to(workspaces.root_workspace_dir.as_str());
    local_config.make_relative_to(package.package_root.as_str());

    let ghost g = global_config;
    let ghost l = local_config;

    let mut config = AppConfigInheritable::defaults_for_package(workspaces, pkg_idx);
    let ghost base = config;
    config.apply_layer(global_config);
    config.apply_layer(local_config);
    let r = config.apply_inheritance_for_package(workspaces, pkg_idx);
    assert(r.inherits(base.layered(g).layered(l), workspaces.package_name(pkg_idx)));
    r
}

/// config that is global to the entire workspace
#[derive(Debug)]
pub struct WorkspaceConfig {
    /// The intended version of dist to build with. (normal Cargo SemVer syntax)
    pub dist_version: Option<semver::Version>,
    /// Generate targets whose dist should avoid checking for up-to-dateness.
    pub allow_dirty: Vec<GenerateMode>,
    /// ci config
    pub ci: CiConfig,
    /// artifact config
    pub artifacts: WorkspaceArtifactConfig,
    /// host config
    pub hosts: WorkspaceHostConfig,
    /// build config
    pub builds: WorkspaceBuildConfig,
    /// installer config
    pub installers: WorkspaceInstallerConfig,
}

/// config that is global to the entire workspace
///
/// but inheritance relationships haven't been folded in yet.
#[derive(Debug)]
pub struct WorkspaceConfigInheritable {
    /// The intended version of dist to build with. (normal Cargo SemVer syntax)
    pub dist_version: Option<semver::Version>,
    /// Generate targets whose dist should avoid checking for up-to-dateness.
    pub allow_dirty: Vec<GenerateMode>,
    /// artifact config
    pub artifacts: WorkspaceArtifactConfig,
    /// ci config
    pub ci: CiConfigInheritable,
    /// host config
    pub hosts: HostConfigInheritable,
    /// build config
    pub builds: BuildConfigInheritable,
    /// installer config
    pub installers: InstallerConfigInheritable,
}

impl WorkspaceConfig {
    /// The workspace config that `src` resolves to
    pub open spec fn inherits(self, src: WorkspaceConfigInheritable) -> bool {
        &&& self.dist_version == src.dist_version
        &&& self.allow_dirty == src.allow_dirty
        &&& self.artifacts == src.artifacts
        &&& self.ci.inherits(src.ci)
        &&& self.hosts.inherits(src.hosts)
        &&& self.builds.inherits(src.builds)
        &&& self.installers.inherits(src.installers)
    }
}

impl WorkspaceConfigInheritable {
    /// The workspace-level settings before any layer
    pub open spec fn is_workspace_defaults(self) -> bool {
        &&& self.dist_version is None
        &&& self.allow_dirty@.len() == 0
        &&& self.artifacts == WorkspaceArtifactConfig::spec_defaults()
        &&& self.ci.common.is_defaults()
        &&& self.ci.github is None
        &&& self.hosts == HostConfigInheritable::spec_defaults()
        &&& self.builds.is_default_with(CommonBuildConfig {  })
        &&& self.installers.is_defaults()
    }

    /// Get the defaults for workspace-level config
    pub fn defaults_for_workspace(workspaces: &WorkspaceGraph) -> (r: Self)
        ensures
            r.is_workspace_defaults(),
    {
        Self {
            artifacts: WorkspaceArtifactConfig::defaults_for_workspace(workspaces),
            ci: CiConfigInheritable::defaults_for_workspace(workspaces),
            hosts: HostConfigInheritable::defaults_for_workspace(workspaces),
            builds: BuildConfigInheritable::defaults_for_workspace(workspaces),
            installers: InstallerConfigInheritable::defaults_for_workspace(workspaces),
            dist_version: None,
            allow_dirty: Vec::new(),
        }
    }

    /// Apply the inheritance to get the final WorkspaceConfig
    pub fn apply_inheritance_for_workspace(self, workspaces: &WorkspaceGraph) -> (r:
        WorkspaceConfig)
        ensures
            r.inherits(self),
    {
        let Self { artifacts, ci, hosts, builds, installers, dist_version, allow_dirty } = self;
        WorkspaceConfig {
            artifacts,
            ci: ci.apply_inheritance_for_workspace(workspaces),
            hosts: hosts.apply_inheritance_for_workspace(workspaces),
            builds: builds.apply_inheritance_for_workspace(workspaces),
            installers: installers.apply_inheritance_for_workspace(workspaces),
            dist_version,
            allow_dirty,
        }
    }
}

impl ApplyLayer for WorkspaceConfigInheritable {
    type Layer = TomlLayer;

    /// only the workspace-scoped parts of the layer are taken
    open spec fn layered(self, layer: TomlLayer) -> Self {
        WorkspaceConfigInheritable {
            artifacts: match layer.artifacts {
                Some(l) => self.artifacts.layered(l),
                None => self.artifacts,
            },
            builds: match layer.builds {
                Some(l) => self.builds.layered(l),
                None => self.builds,
            },
            hosts: match layer.hosts {
                Some(l) => self.hosts.layered(l),
                None => self.hosts,
            },
            installers: match layer.installers {
                Some(l) => self.installers.layered(l),
                None => self.installers,
            },
            ci: match layer.ci {
                Some(l) => self.ci.layered(l),
                None => self.ci,
            },
            dist_version: opt_or(self.dist_version, layer.dist_version),
            allow_dirty: val_or(self.allow_dirty, layer.allow_dirty),
        }
    }

    fn apply_layer(&mut self, layer: TomlLayer) {
        let TomlLayer {
            artifacts,
            builds,
            hosts,
            installers,
            ci,
            allow_dirty,
            dist_version,
            // app-scope only
            config_version: _,
            dist_url_override: _,
            dist: _,
            targets: _,
            publishers: _,
        } = layer;
        self.artifacts.apply_val_layer(artifacts);
        self.builds.apply_val_layer(builds);
        self.hosts.apply_val_layer(hosts);
        self.installers.apply_val_layer(installers);
        self.ci.apply_val_layer(ci);
        self.dist_version.apply_opt(dist_version);
        self.allow_dirty.apply_val(allow_dirty);
    }
}

/// Config scoped to a particular App
#[derive(Debug)]
pub struct AppConfig {
    /// artifact config
    pub artifacts: AppArtifactConfig,
    /// build config
    pub builds: AppBuildConfig,
    /// host config
    pub hosts: AppHostConfig,
    /// installer config
    pub installers: AppInstallerConfig,
    /// publisher config
    pub publishers: PublisherConfig,
    /// Whether the package should be distributed/built by dist
    pub dist: Option<bool>,
    /// The full set of target triples to build for.
    pub targets: Vec<String>,
}

/// Config scoped to a particular App
///
/// but inheritance relationships haven't been folded in yet.
#[derive(Debug)]
pub struct AppConfigInheritable {
    /// artifact config
    pub artifacts: AppArtifactConfig,
    /// build config
    pub builds: BuildConfigInheritable,
    /// host config
    pub hosts: HostConfigInheritable,
    /// installer config
    pub installers: InstallerConfigInheritable,
    /// publisher config
    pub publishers: PublisherConfigInheritable,
    /// Whether the package should be distributed/built by dist
    pub dist: Option<bool>,
    /// The full set of target triples to build for.
    pub targets: Vec<String>,
}

impl AppConfig {
    /// The config of the package named `package_name` that `src` resolves to
    pub open spec fn inherits(self, src: AppConfigInheritable, package_name: Seq<char>) -> bool {
        &&& self.artifacts == src.artifacts
        &&& self.builds.inherits(src.builds)
        &&& self.hosts.inherits(src.hosts, package_name)
        &&& self.installers.inherits(src.installers, package_name)
        &&& self.publishers.inherits(src.publishers)
        &&& self.dist == src.dist
        &&& self.targets == src.targets
    }
}

impl AppConfigInheritable {
    /// The package-level settings before any layer
    pub open spec fn is_package_defaults(self) -> bool {
        &&& self.artifacts.archives.is_defaults()
        &&& self.artifacts.extra@.len() == 0
        &&& self.builds.is_default_with(CommonBuildConfig {  })
        &&& self.hosts == HostConfigInheritable::spec_defaults()
        &&& self.installers.is_defaults()
        &&& self.publishers == (PublisherConfigInheritable {
            common: CommonPublisherConfig { prereleases: false },
            homebrew: None,
            npm: None,
        })
        &&& self.dist is None
        &&& self.targets@.len() == 0
    }

    /// Get the defaults for the given package
    pub fn defaults_for_package(workspaces: &WorkspaceGraph, pkg_idx: PackageIdx) -> (r: Self)
        ensures
            r.is_package_defaults(),
    {
        Self {
            artifacts: AppArtifactConfig::defaults_for_package(workspaces, pkg_idx),
            builds: BuildConfigInheritable::defaults_for_package(workspaces, pkg_idx),
            hosts: HostConfigInheritable::defaults_for_package(workspaces, pkg_idx),
            installers: InstallerConfigInheritable::defaults_for_package(workspaces, pkg_idx),
            publishers: PublisherConfigInheritable::defaults_for_package(workspaces, pkg_idx),
            dist: None,
            targets: Vec::new(),
        }
    }

    /// Fold in inheritance relationships to get the final package config
    pub fn apply_inheritance_for_package(self, workspaces: &WorkspaceGraph, pkg_idx: PackageIdx) -> (r:
        AppConfig)
        requires
            workspaces.has_package(pkg_idx),
        ensures
            r.inherits(self, workspaces.package_name(pkg_idx)),
    {
        let Self { artifacts, builds, hosts, installers, publishers, dist: do_dist, targets } = self;
        AppConfig {
            artifacts,
            builds: builds.apply_inheritance_for_package(workspaces, pkg_idx),
            hosts: hosts.apply_inheritance_for_package(workspaces, pkg_idx),
            installers: installers.apply_inheritance_for_package(workspaces, pkg_idx),
            publishers: publishers.apply_inheritance_for_package(workspaces, pkg_idx),
            dist: do_dist,
            targets,
        }
    }
}

impl ApplyLayer for AppConfigInheritable {
    type Layer = TomlLayer;

    /// only the package-scoped parts of the layer are taken
    open spec fn layered(self, layer: TomlLayer) -> Self {
        AppConfigInheritable {
            artifacts: match layer.artifacts {
                Some(l) => self.artifacts.layered(l),
                None => self.artifacts,
            },
            builds: match layer.builds {
                Some(l) => self.builds.layered(l),
                None => self.builds,
            },
            hosts: match layer.hosts {
                Some(l) => self.hosts.layered(l),
                None => self.hosts,
            },
            installers: match layer.installers {
                Some(l) => self.installers.layered(l),
                None => self.installers,
            },
            publishers: match layer.publishers {
                Some(l) => self.publishers.layered(l),
                None => self.publishers,
            },
            dist: opt_or(self.dist, layer.dist),
            targets: val_or(self.targets, layer.targets),
        }
    }

    fn apply_layer(&mut self, layer: TomlLayer) {
        let TomlLayer {
            artifacts,
            builds,
            hosts,
            installers,
            publishers,
            dist,
            targets,
            // workspace-scope only
            ci: _,
            allow_dirty: _,
            dist_version: _,
            config_version: _,
            dist_url_override: _,
        } = layer;
        self.artifacts.apply_val_layer(artifacts);
        self.builds.apply_val_layer(builds);
        self.hosts.apply_val_layer(hosts);
        self.installers.apply_val_layer(installers);
        self.publishers.apply_val_layer(publishers);
        self.dist.apply_opt(dist);
        self.targets.apply_val(targets);
    }
}

/// The "raw" input from a toml file containing config
#[derive(Debug)]
pub struct TomlLayer {
    /// The configuration version this layer is written in
    pub config_version: ConfigVersion,
    /// The intended version of dist to build with. (normal Cargo SemVer syntax)
    ///
    /// When generating full tasks graphs (such as CI scripts) we will pick this version.
    pub dist_version: Option<semver::Version>,
    /// A URL to use to install `cargo-dist` (with the installer script).
    pub dist_url_override: Option<String>,
    /// Whether the package should be distributed/built by dist
    ///
    /// This mainly exists to be set to `false` to make dist ignore the existence of this
    /// package.
    pub dist: Option<bool>,
    /// Generate targets whose dist should avoid checking for up-to-dateness.
    pub allow_dirty: Option<Vec<GenerateMode>>,
    /// The full set of target triples to build for.
    pub targets: Option<Vec<String>>,
    /// artifact config
    pub artifacts: Option<ArtifactLayer>,
    /// build config
    pub builds: Option<BuildLayer>,
    /// ci config
    pub ci: Option<CiLayer>,
    /// host config
    pub hosts: Option<HostLayer>,
    /// installer config
    pub installers: Option<InstallerLayer>,
    /// publisher config
    pub publishers: Option<PublisherLayer>,
}

/// `new` holds the archive settings of `old`, with the paths of its extra
/// files made relative to `base`
pub open spec fn archives_rebased(new: ArchiveLayer, old: ArchiveLayer, base: Seq<char>) -> bool {
    &&& new.auto_includes == old.auto_includes
    &&& new.windows_archive == old.windows_archive
    &&& new.unix_archive == old.unix_archive
    &&& new.package_libraries == old.package_libraries
    &&& new.included_files is Some == old.included_files is Some
    &&& new.included_files is Some ==> texts_view(new.included_files->0@) == relative_paths_spec(
        texts_view(old.included_files->0@),
        base,
    )
}

/// `new` holds the extra artifacts of `old`, with their working dirs made
/// relative to `base`
pub open spec fn extras_rebased(new: Seq<ExtraArtifact>, old: Seq<ExtraArtifact>, base: Seq<char>) -> bool {
    &&& new.len() == old.len()
    &&& forall|i: int|
        0 <= i < new.len() ==> (#[trigger] new[i]).command == old[i].command
            && new[i].artifact_relpaths == old[i].artifact_relpaths && new[i].working_dir@
            == relative_path_spec(old[i].working_dir@, base)
}

/// `new` holds the artifact settings of `old`, with file-relative paths made
/// relative to `base`
pub open spec fn artifacts_rebased(new: ArtifactLayer, old: ArtifactLayer, base: Seq<char>) -> bool {
    &&& new.source_tarball == old.source_tarball
    &&& new.recursive_tarball == old.recursive_tarball
    &&& new.checksum == old.checksum
    &&& new.archives is Some == old.archives is Some
    &&& new.archives is Some ==> archives_rebased(new.archives->0, old.archives->0, base)
    &&& new.extra is Some == old.extra is Some
    &&& new.extra is Some ==> extras_rebased(new.extra->0@, old.extra->0@, base)
}

/// `new` holds the host settings of `old`, with the github submodule path
/// made relative to `base`
pub open spec fn hosts_rebased(new: HostLayer, old: HostLayer, base: Seq<char>) -> bool {
    &&& new.common == old.common
    &&& new.force_latest == old.force_latest
    &&& new.display == old.display
    &&& new.display_name == old.display_name
    &&& new.order == old.order
    &&& new.axodotdev == old.axodotdev
    &&& match (new.github, old.github) {
        (Some(BoolOr::Val(n)), Some(BoolOr::Val(o))) => {
            &&& n.common == o.common
            &&& n.create == o.create
            &&& n.repo == o.repo
            &&& n.during == o.during
            &&& n.attestations == o.attestations
            &&& n.submodule_path is Some == o.submodule_path is Some
            &&& n.submodule_path is Some ==> n.submodule_path->0@ == relative_path_spec(
                o.submodule_path->0@,
                base,
            )
        },
        (n, o) => n == o,
    }
}

impl TomlLayer {
    /// `self` holds the settings of `old`, with only its config-file-relative
    /// paths (extra archive files, extra artifact working dirs, the github
    /// submodule path) made relative to `base`
    pub open spec fn rebased_from(self, old: TomlLayer, base: Seq<char>) -> bool {
        &&& self.config_version == old.config_version
        &&& self.dist_version == old.dist_version
        &&& self.dist_url_override == old.dist_url_override
        &&& self.dist == old.dist
        &&& self.allow_dirty == old.allow_dirty
        &&& self.targets == old.targets
        &&& self.builds == old.builds
        &&& self.ci == old.ci
        &&& self.installers == old.installers
        &&& self.publishers == old.publishers
        &&& self.artifacts is Some == old.artifacts is Some
        &&& self.artifacts is Some ==> artifacts_rebased(self.artifacts->0, old.artifacts->0, base)
        &&& self.hosts is Some == old.hosts is Some
        &&& self.hosts is Some ==> hosts_rebased(self.hosts->0, old.hosts->0, base)
    }

    /// Take any configs that contain paths that are *relative to the file they came from*
    /// and make them relative to the given basepath.
    ///
    /// This is important to do eagerly, because once we start merging configs
    /// we'll forget what file they came from!
    pub fn make_relative_to(&mut self, base_path: &str)
        ensures
            final(self).rebased_from(*old(self), base_path@),
    {
        if let Some(mut artifacts) = self.artifacts.take() {
            if let Some(mut archives) = artifacts.archives.take() {
                if let Some(paths) = archives.included_files.take() {
                    archives.included_files = Some(make_paths_relative_to(paths, base_path));
                }
                artifacts.archives = Some(archives);
            }
            if let Some(extras) = artifacts.extra.take() {
                artifacts.extra = Some(make_extras_relative_to(extras, base_path));
            }
            self.artifacts = Some(artifacts);
        }
        if let Some(mut hosts) = self.hosts.take() {
            match hosts.github.take() {
                Some(BoolOr::Val(mut github)) => {
                    if let Some(path) = github.submodule_path.take() {
                        github.submodule_path = Some(make_path_relative_to(path, base_path));
                    }
                    hosts.github = Some(BoolOr::Val(github));
                },
                other => {
                    hosts.github = other;
                },
            }
            self.hosts = Some(hosts);
        }
    }
}

/// Rewrite the working dir of each extra artifact to be relative to `base_path`
///
/// (by default it's empty and this just sets the working dir to base_path),
/// but the paths to the artifacts are left as they are, as those are
/// relative to the working_dir.
fn make_extras_relative_to(extras: Vec<ExtraArtifact>, base_path: &str) -> (r: Vec<ExtraArtifact>)
    ensures
        extras_rebased(r@, extras@, base_path@),
{
    let ghost orig = extras@;
    let mut rest = extras;
    let mut out: Vec<ExtraArtifact> = Vec::new();
    while rest.len() > 0
        invariant
            rest@.len() <= orig.len(),
            rest@ == orig.skip(orig.len() - rest@.len()),
            extras_rebased(out@, orig.take(orig.len() - rest@.len()), base_path@),
        decreases rest@.len(),
    {
        let ghost k = orig.len() - rest@.len();
        let extra = rest.remove(0);
        proof {
            assert(orig[k] == extra);
        }
        let ExtraArtifact { working_dir, command, artifact_relpaths } = extra;
        out.push(
            ExtraArtifact {
                working_dir: make_path_relative_to(working_dir, base_path),
                command,
                artifact_relpaths,
            },
        );
        proof {
            assert(orig.skip(k + 1) == orig.skip(k).remove(0));
            assert(orig.take(k + 1) == orig.take(k).push(orig[k]));
        }
    }
    assert(orig.take(orig.len() as int) == orig);
    out
}

} // verus!
