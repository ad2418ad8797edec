//! v0 config: the `[package.metadata.dist]` / `[workspace.metadata.dist]` tables

use std::collections::BTreeMap;

use vstd::prelude::*;

use crate::init::apply_dist::helpers::texts_view;
use crate::config::{
    clone_extras, clone_jobs, clone_publish_styles, clone_version, copy_list, same_extras, ChecksumStyle,
    CiStyle, ExtraArtifact, GenerateMode, GithubPermissionMap, GithubReleasePhase, GithubRepoPair,
    HostingStyle, InstallPathStrategy, InstallerStyle, JobStyle, LibraryStyle, MacPkgConfig,
    PrRunMode, ProductionMode, PublishStyle, SystemDependencies, ZipStyle,
};
use crate::config::v1::installers::{clone_install_paths, clone_library_styles};
use crate::errors::{DistError, DistResult};
use crate::paths::{joined_path, path_join};
use crate::platform::MinGlibcVersion;
use crate::schema::{clone_runner_settings, GithubRunnerConfigInput, StringLikeOr};
use crate::strings::{clone_opt_string, clone_strings};

verus! {

/// A container to assist deserializing metadata from dist(-workspace).tomls
#[derive(Debug)]
pub struct GenericConfig {
    /// The dist field within dist.toml
    pub dist: Option<DistMetadata>,
}

/// Contents of METADATA_DIST in Cargo.toml files
#[derive(Debug)]
pub struct DistMetadata {
    /// The intended version of dist to build with. (normal Cargo SemVer syntax)
    pub cargo_dist_version: Option<semver::Version>,
    /// A URL to use to install `cargo-dist` (with the installer script).
    pub cargo_dist_url_override: Option<String>,
    /// (deprecated) The intended version of Rust/Cargo to build with (rustup toolchain syntax)
    pub rust_toolchain_version: Option<String>,
    /// Whether the package should be distributed/built by dist
    pub dist: Option<bool>,
    /// CI environments you wish to target.
    pub ci: Option<Vec<CiStyle>>,
    /// Which actions to run on pull requests.
    pub pr_run_mode: Option<PrRunMode>,
    /// Generate targets whose dist should avoid checking for up-to-dateness.
    pub allow_dirty: Option<Vec<GenerateMode>>,
    /// The full set of installers you would like to produce
    pub installers: Option<Vec<InstallerStyle>>,
    /// Custom success message for installers
    pub install_success_msg: Option<String>,
    /// A Homebrew tap to push the Homebrew formula to, if built
    pub tap: Option<String>,
    /// Customize the name of the Homebrew formula
    pub formula: Option<String>,
    /// A set of packages to install before building
    pub system_dependencies: Option<SystemDependencies>,
    /// The full set of target triples to build for.
    pub targets: Option<Vec<String>>,
    /// Add the following static files to bundles like archives.
    pub included_files: Option<Vec<String>>,
    /// Whether to automatically add files like `README*`, `(UN)LICENSE*`, `RELEASES*`, and `CHANGELOG*`
    pub auto_includes: Option<bool>,
    /// Whether msvc targets should statically link the crt
    pub msvc_crt_static: Option<bool>,
    /// The archive format to use for windows builds (defaults .zip)
    pub windows_archive: Option<ZipStyle>,
    /// The archive format to use for non-windows builds (defaults .tar.xz)
    pub unix_archive: Option<ZipStyle>,
    /// Replace the app's name with this value for the npm package's name
    pub npm_package: Option<String>,
    /// A scope to prefix npm packages with (@ should be included).
    pub npm_scope: Option<String>,
    /// Which checksum algorithm to use
    pub checksum: Option<ChecksumStyle>,
    /// Build only the required packages, and individually (default: false)
    pub precise_builds: Option<bool>,
    /// Whether we should try to merge otherwise-parallelizable tasks onto the same machine
    pub merge_tasks: Option<bool>,
    /// Whether failing tasks should make us give up on all other tasks
    pub fail_fast: Option<bool>,
    /// Whether CI tasks should have build caches enabled.
    pub cache_builds: Option<bool>,
    /// Whether CI should include logic to build local artifacts (default true)
    pub build_local_artifacts: Option<bool>,
    /// Whether CI should trigger releases by dispatch instead of tag push (default false)
    pub dispatch_releases: Option<bool>,
    /// Instead of triggering releases on tags, trigger on pushing to a specific branch
    pub release_branch: Option<String>,
    /// The strategy to use for selecting a path to install things at
    pub install_path: Option<Vec<InstallPathStrategy>>,
    /// A list of features to enable when building a package with dist
    pub features: Option<Vec<String>>,
    /// Whether to enable default features when building a package with dist
    pub default_features: Option<bool>,
    /// Whether to enable all features building a package with dist
    pub all_features: Option<bool>,
    /// Plan jobs to run in CI
    pub plan_jobs: Option<Vec<JobStyle>>,
    /// Local artifacts jobs to run in CI
    pub local_artifacts_jobs: Option<Vec<JobStyle>>,
    /// Global artifacts jobs to run in CI
    pub global_artifacts_jobs: Option<Vec<JobStyle>>,
    /// Whether to generate and dist a tarball containing your app's source code
    pub source_tarball: Option<bool>,
    /// Host jobs to run in CI
    pub host_jobs: Option<Vec<JobStyle>>,
    /// Publish jobs to run in CI
    pub publish_jobs: Option<Vec<PublishStyle>>,
    /// Post-announce jobs to run in CI
    pub post_announce_jobs: Option<Vec<JobStyle>>,
    /// Whether to publish prereleases to package managers
    pub publish_prereleases: Option<bool>,
    /// Always regard releases as stable
    pub force_latest: Option<bool>,
    /// Whether we should create the Github Release for you when you push a tag.
    pub create_release: Option<bool>,
    /// Publish GitHub Releases to this repo instead of the current one
    pub github_releases_repo: Option<GithubRepoPair>,
    /// If github-releases-repo is used, the commit ref to used will be read from the HEAD of the submodule at this path
    pub github_releases_submodule_path: Option<String>,
    /// Which phase to create the github release in
    pub github_release: Option<GithubReleasePhase>,
    /// Whether we should sign windows binaries with ssl.com
    pub ssldotcom_windows_sign: Option<ProductionMode>,
    /// Whether we should sign Mac binaries
    pub macos_sign: Option<bool>,
    /// Whether GitHub Attestations is enabled (default false)
    pub github_attestations: Option<bool>,
    /// Hosting provider
    pub hosting: Option<Vec<HostingStyle>>,
    /// Any extra artifacts and their buildscripts
    pub extra_artifacts: Option<Vec<ExtraArtifact>>,
    /// Custom GitHub runners, mapped by triple target
    pub github_custom_runners: Option<Vec<(String, StringLikeOr<String, GithubRunnerConfigInput>)>>,
    /// Custom permissions for jobs
    pub github_custom_job_permissions: Option<BTreeMap<String, GithubPermissionMap>>,
    /// Use these specific commits of these specific actions
    pub github_action_commits: Option<BTreeMap<String, String>>,
    /// Aliases to install binaries as
    pub bin_aliases: Option<BTreeMap<String, Vec<String>>>,
    /// a prefix to add to the release.yml and tag pattern
    pub tag_namespace: Option<String>,
    /// Whether to install an updater program alongside the software
    pub install_updater: Option<bool>,
    /// Whether to always use the latest updater instead of a known-good version
    pub always_use_latest_updater: Option<bool>,
    /// Whether artifacts/installers for this app should be displayed in release bodies
    pub display: Option<bool>,
    /// How to refer to the app in release bodies
    pub display_name: Option<String>,
    /// Whether to put built libraries in the release archive
    pub package_libraries: Option<Vec<LibraryStyle>>,
    /// Whether installers should install libraries from the release archive
    pub install_libraries: Option<Vec<LibraryStyle>>,
    /// Any additional steps that need to be performed before building local artifacts
    pub github_build_setup: Option<String>,
    /// Configuration specific to Mac .pkg installers
    pub mac_pkg_config: Option<MacPkgConfig>,
    /// Override the native glibc version, if it isn't auto-detected correctly
    pub min_glibc_version: Option<MinGlibcVersion>,
    /// Whether to embed dependency information in the executable.
    pub cargo_auditable: Option<bool>,
    /// Whether to use cargo-cyclonedx to generate an SBOM.
    pub cargo_cyclonedx: Option<bool>,
    /// Whether to generate OmniBOR artifact IDs.
    pub omnibor: Option<bool>,
}

/// Both hold the same list, or both none
pub open spec fn same_list<T>(a: Option<Vec<T>>, b: Option<Vec<T>>) -> bool {
    match (a, b) {
        (Some(x), Some(y)) => x@ == y@,
        (None, None) => true,
        _ => false,
    }
}

/// Both hold the same map, or both none
pub open spec fn same_map<K, V>(a: Option<BTreeMap<K, V>>, b: Option<BTreeMap<K, V>>) -> bool {
    match (a, b) {
        (Some(x), Some(y)) => x@ == y@,
        (None, None) => true,
        _ => false,
    }
}

/// Both hold the same system dependencies, or both none
pub open spec fn same_deps(a: Option<SystemDependencies>, b: Option<SystemDependencies>) -> bool {
    match (a, b) {
        (Some(x), Some(y)) => x.same_as(y),
        (None, None) => true,
        _ => false,
    }
}

/// Both hold the same extra artifacts, or both none
pub open spec fn same_extra_list(a: Option<Vec<ExtraArtifact>>, b: Option<Vec<ExtraArtifact>>) -> bool {
    match (a, b) {
        (Some(x), Some(y)) => same_extras(x@, y@),
        (None, None) => true,
        _ => false,
    }
}

/// A copy of an optional version
fn clone_opt_version(v: &Option<semver::Version>) -> (r: Option<semver::Version>)
    ensures
        r == *v,
{
    match v {
        Some(v) => Some(clone_version(v)),
        None => None,
    }
}

impl DistMetadata {
    /// Nothing is set
    pub open spec fn is_unset(self) -> bool {
        &&& self.cargo_dist_version is None
        &&& self.cargo_dist_url_override is None
        &&& self.rust_toolchain_version is None
        &&& self.dist is None
        &&& self.ci is None
        &&& self.pr_run_mode is None
        &&& self.allow_dirty is None
        &&& self.installers is None
        &&& self.install_success_msg is None
        &&& self.tap is None
        &&& self.formula is None
        &&& self.system_dependencies is None
        &&& self.targets is None
        &&& self.included_files is None
        &&& self.auto_includes is None
        &&& self.msvc_crt_static is None
        &&& self.windows_archive is None
        &&& self.unix_archive is None
        &&& self.npm_package is None
        &&& self.npm_scope is None
        &&& self.checksum is None
        &&& self.precise_builds is None
        &&& self.merge_tasks is None
        &&& self.fail_fast is None
        &&& self.cache_builds is None
        &&& self.build_local_artifacts is None
        &&& self.dispatch_releases is None
        &&& self.release_branch is None
        &&& self.install_path is None
        &&& self.features is None
        &&& self.default_features is None
        &&& self.all_features is None
        &&& self.plan_jobs is None
        &&& self.local_artifacts_jobs is None
        &&& self.global_artifacts_jobs is None
        &&& self.source_tarball is None
        &&& self.host_jobs is None
        &&& self.publish_jobs is None
        &&& self.post_announce_jobs is None
        &&& self.publish_prereleases is None
        &&& self.force_latest is None
        &&& self.create_release is None
        &&& self.github_releases_repo is None
        &&& self.github_releases_submodule_path is None
        &&& self.github_release is None
        &&& self.ssldotcom_windows_sign is None
        &&& self.macos_sign is None
        &&& self.github_attestations is None
        &&& self.hosting is None
        &&& self.extra_artifacts is None
        &&& self.github_custom_runners is None
        &&& self.github_custom_job_permissions is None
        &&& self.github_action_commits is None
        &&& self.bin_aliases is None
        &&& self.tag_namespace is None
        &&& self.install_updater is None
        &&& self.always_use_latest_updater is None
        &&& self.display is None
        &&& self.display_name is None
        &&& self.package_libraries is None
        &&& self.install_libraries is None
        &&& self.github_build_setup is None
        &&& self.mac_pkg_config is None
        &&& self.min_glibc_version is None
        &&& self.cargo_auditable is None
        &&& self.cargo_cyclonedx is None
        &&& self.omnibor is None
    }

    /// Both hold the same settings
    pub open spec fn same_as(self, other: DistMetadata) -> bool {
        &&& self.cargo_dist_version == other.cargo_dist_version
        &&& self.cargo_dist_url_override == other.cargo_dist_url_override
        &&& self.rust_toolchain_version == other.rust_toolchain_version
        &&& self.dist == other.dist
        &&& same_list(self.ci, other.ci)
        &&& self.pr_run_mode == other.pr_run_mode
        &&& same_list(self.allow_dirty, other.allow_dirty)
        &&& same_list(self.installers, other.installers)
        &&& self.install_success_msg == other.install_success_msg
        &&& self.tap == other.tap
        &&& self.formula == other.formula
        &&& same_deps(self.system_dependencies, other.system_dependencies)
        &&& same_list(self.targets, other.targets)
        &&& same_list(self.included_files, other.included_files)
        &&& self.auto_includes == other.auto_includes
        &&& self.msvc_crt_static == other.msvc_crt_static
        &&& self.windows_archive == other.windows_archive
        &&& self.unix_archive == other.unix_archive
        &&& self.npm_package == other.npm_package
        &&& self.npm_scope == other.npm_scope
        &&& self.checksum == other.checksum
        &&& self.precise_builds == other.precise_builds
        &&& self.merge_tasks == other.merge_tasks
        &&& self.fail_fast == other.fail_fast
        &&& self.cache_builds == other.cache_builds
        &&& self.build_local_artifacts == other.build_local_artifacts
        &&& self.dispatch_releases == other.dispatch_releases
        &&& self.release_branch == other.release_branch
        &&& same_list(self.install_path, other.install_path)
        &&& same_list(self.features, other.features)
        &&& self.default_features == other.default_features
        &&& self.all_features == other.all_features
        &&& same_list(self.plan_jobs, other.plan_jobs)
        &&& same_list(self.local_artifacts_jobs, other.local_artifacts_jobs)
        &&& same_list(self.global_artifacts_jobs, other.global_artifacts_jobs)
        &&& self.source_tarball == other.source_tarball
        &&& same_list(self.host_jobs, other.host_jobs)
        &&& same_list(self.publish_jobs, other.publish_jobs)
        &&& same_list(self.post_announce_jobs, other.post_announce_jobs)
        &&& self.publish_prereleases == other.publish_prereleases
        &&& self.force_latest == other.force_latest
        &&& self.create_release == other.create_release
        &&& self.github_releases_repo == other.github_releases_repo
        &&& self.github_releases_submodule_path == other.github_releases_submodule_path
        &&& self.github_release == other.github_release
        &&& self.ssldotcom_windows_sign == other.ssldotcom_windows_sign
        &&& self.macos_sign == other.macos_sign
        &&& self.github_attestations == other.github_attestations
        &&& same_list(self.hosting, other.hosting)
        &&& same_extra_list(self.extra_artifacts, other.extra_artifacts)
        &&& same_list(self.github_custom_runners, other.github_custom_runners)
        &&& same_map(self.github_custom_job_permissions, other.github_custom_job_permissions)
        &&& same_map(self.github_action_commits, other.github_action_commits)
        &&& same_map(self.bin_aliases, other.bin_aliases)
        &&& self.tag_namespace == other.tag_namespace
        &&& self.install_updater == other.install_updater
        &&& self.always_use_latest_updater == other.always_use_latest_updater
        &&& self.display == other.display
        &&& self.display_name == other.display_name
        &&& same_list(self.package_libraries, other.package_libraries)
        &&& same_list(self.install_libraries, other.install_libraries)
        &&& self.github_build_setup == other.github_build_setup
        &&& self.mac_pkg_config == other.mac_pkg_config
        &&& same_map(self.min_glibc_version, other.min_glibc_version)
        &&& self.cargo_auditable == other.cargo_auditable
        &&& self.cargo_cyclonedx == other.cargo_cyclonedx
        &&& self.omnibor == other.omnibor
    }

    /// `self` is the package config `pkg` with the workspace config `ws`
    /// merged in: settings only the workspace may give are left as the
    /// package had them, each other setting the package leaves unset is
    /// taken from the workspace, and the workspace's extra files are added
    /// after the package's own
    pub open spec fn merged_from(self, pkg: DistMetadata, ws: DistMetadata) -> bool {
        &&& self.cargo_dist_version == pkg.cargo_dist_version
        &&& self.cargo_dist_url_override == pkg.cargo_dist_url_override
        &&& self.rust_toolchain_version == pkg.rust_toolchain_version
        &&& if pkg.dist is Some {
            self.dist == pkg.dist
        } else {
            self.dist == ws.dist
        }
        &&& self.ci == pkg.ci
        &&& self.pr_run_mode == pkg.pr_run_mode
        &&& self.allow_dirty == pkg.allow_dirty
        &&& if pkg.installers is Some {
            self.installers == pkg.installers
        } else {
            same_list(self.installers, ws.installers)
        }
        &&& if pkg.install_success_msg is Some {
            self.install_success_msg == pkg.install_success_msg
        } else {
            self.install_success_msg == ws.install_success_msg
        }
        &&& if pkg.tap is Some {
            self.tap == pkg.tap
        } else {
            self.tap == ws.tap
        }
        &&& if pkg.formula is Some {
            self.formula == pkg.formula
        } else {
            self.formula == ws.formula
        }
        &&& if pkg.system_dependencies is Some {
            self.system_dependencies == pkg.system_dependencies
        } else {
            same_deps(self.system_dependencies, ws.system_dependencies)
        }
        &&& if pkg.targets is Some {
            self.targets == pkg.targets
        } else {
            same_list(self.targets, ws.targets)
        }
        &&& match (pkg.included_files, ws.included_files) {
            (Some(p), Some(w)) => self.included_files matches Some(m) && m@ == p@ + w@,
            (Some(_), None) => self.included_files == pkg.included_files,
            (None, _) => same_list(self.included_files, ws.included_files),
        }
        &&& if pkg.auto_includes is Some {
            self.auto_includes == pkg.auto_includes
        } else {
            self.auto_includes == ws.auto_includes
        }
        &&& self.msvc_crt_static == pkg.msvc_crt_static
        &&& if pkg.windows_archive is Some {
            self.windows_archive == pkg.windows_archive
        } else {
            self.windows_archive == ws.windows_archive
        }
        &&& if pkg.unix_archive is Some {
            self.unix_archive == pkg.unix_archive
        } else {
            self.unix_archive == ws.unix_archive
        }
        &&& if pkg.npm_package is Some {
            self.npm_package == pkg.npm_package
        } else {
            self.npm_package == ws.npm_package
        }
        &&& if pkg.npm_scope is Some {
            self.npm_scope == pkg.npm_scope
        } else {
            self.npm_scope == ws.npm_scope
        }
        &&& if pkg.checksum is Some {
            self.checksum == pkg.checksum
        } else {
            self.checksum == ws.checksum
        }
        &&& self.precise_builds == pkg.precise_builds
        &&& self.merge_tasks == pkg.merge_tasks
        &&& self.fail_fast == pkg.fail_fast
        &&& self.cache_builds == pkg.cache_builds
        &&& self.build_local_artifacts == pkg.build_local_artifacts
        &&& self.dispatch_releases == pkg.dispatch_releases
        &&& self.release_branch == pkg.release_branch
        &&& if pkg.install_path is Some {
            self.install_path == pkg.install_path
        } else {
            same_list(self.install_path, ws.install_path)
        }
        &&& if pkg.features is Some {
            self.features == pkg.features
        } else {
            same_list(self.features, ws.features)
        }
        &&& if pkg.default_features is Some {
            self.default_features == pkg.default_features
        } else {
            self.default_features == ws.default_features
        }
        &&& if pkg.all_features is Some {
            self.all_features == pkg.all_features
        } else {
            self.all_features == ws.all_features
        }
        &&& self.plan_jobs == pkg.plan_jobs
        &&& self.local_artifacts_jobs == pkg.local_artifacts_jobs
        &&& self.global_artifacts_jobs == pkg.global_artifacts_jobs
        &&& self.source_tarball == pkg.source_tarball
        &&& self.host_jobs == pkg.host_jobs
        &&& self.publish_jobs == pkg.publish_jobs
        &&& self.post_announce_jobs == pkg.post_announce_jobs
        &&& self.publish_prereleases == pkg.publish_prereleases
        &&& self.force_latest == pkg.force_latest
        &&& self.create_release == pkg.create_release
        &&& self.github_releases_repo == pkg.github_releases_repo
        &&& self.github_releases_submodule_path == pkg.github_releases_submodule_path
        &&& self.github_release == pkg.github_release
        &&& self.ssldotcom_windows_sign == pkg.ssldotcom_windows_sign
        &&& self.macos_sign == pkg.macos_sign
        &&& self.github_attestations == pkg.github_attestations
        &&& self.hosting == pkg.hosting
        &&& if pkg.extra_artifacts is Some {
            self.extra_artifacts == pkg.extra_artifacts
        } else {
            same_extra_list(self.extra_artifacts, ws.extra_artifacts)
        }
        &&& self.github_custom_runners == pkg.github_custom_runners
        &&& self.github_custom_job_permissions == pkg.github_custom_job_permissions
        &&& self.github_action_commits == pkg.github_action_commits
        &&& if pkg.bin_aliases is Some {
            self.bin_aliases == pkg.bin_aliases
        } else {
            same_map(self.bin_aliases, ws.bin_aliases)
        }
        &&& self.tag_namespace == pkg.tag_namespace
        &&& if pkg.install_updater is Some {
            self.install_updater == pkg.install_updater
        } else {
            self.install_updater == ws.install_updater
        }
        &&& if pkg.always_use_latest_updater is Some {
            self.always_use_latest_updater == pkg.always_use_latest_updater
        } else {
            self.always_use_latest_updater == ws.always_use_latest_updater
        }
        &&& if pkg.display is Some {
            self.display == pkg.display
        } else {
            self.display == ws.display
        }
        &&& if pkg.display_name is Some {
            self.display_name == pkg.display_name
        } else {
            self.display_name == ws.display_name
        }
        &&& if pkg.package_libraries is Some {
            self.package_libraries == pkg.package_libraries
        } else {
            same_list(self.package_libraries, ws.package_libraries)
        }
        &&& if pkg.install_libraries is Some {
            self.install_libraries == pkg.install_libraries
        } else {
            same_list(self.install_libraries, ws.install_libraries)
        }
        &&& self.github_build_setup == pkg.github_build_setup
        &&& if pkg.mac_pkg_config is Some {
            self.mac_pkg_config == pkg.mac_pkg_config
        } else {
            self.mac_pkg_config == ws.mac_pkg_config
        }
        &&& if pkg.min_glibc_version is Some {
            self.min_glibc_version == pkg.min_glibc_version
        } else {
            same_map(self.min_glibc_version, ws.min_glibc_version)
        }
        &&& if pkg.cargo_auditable is Some {
            self.cargo_auditable == pkg.cargo_auditable
        } else {
            self.cargo_auditable == ws.cargo_auditable
        }
        &&& if pkg.cargo_cyclonedx is Some {
            self.cargo_cyclonedx == pkg.cargo_cyclonedx
        } else {
            self.cargo_cyclonedx == ws.cargo_cyclonedx
        }
        &&& if pkg.omnibor is Some {
            self.omnibor == pkg.omnibor
        } else {
            self.omnibor == ws.omnibor
        }
    }

    /// `self` holds the settings of `old`, with only its paths (extra files,
    /// extra artifact working dirs) rewritten, as many as there were
    pub open spec fn rebased_from(self, old: DistMetadata, base: Seq<char>) -> bool {
        &&& self.cargo_dist_version == old.cargo_dist_version
        &&& self.cargo_dist_url_override == old.cargo_dist_url_override
        &&& self.rust_toolchain_version == old.rust_toolchain_version
        &&& self.dist == old.dist
        &&& self.ci == old.ci
        &&& self.pr_run_mode == old.pr_run_mode
        &&& self.allow_dirty == old.allow_dirty
        &&& self.installers == old.installers
        &&& self.install_success_msg == old.install_success_msg
        &&& self.tap == old.tap
        &&& self.formula == old.formula
        &&& self.system_dependencies == old.system_dependencies
        &&& self.targets == old.targets
        &&& self.included_files is Some == old.included_files is Some
        &&& self.included_files is Some ==> texts_view(self.included_files->0@) == joined_paths(
            texts_view(old.included_files->0@),
            base,
        )
        &&& self.auto_includes == old.auto_includes
        &&& self.msvc_crt_static == old.msvc_crt_static
        &&& self.windows_archive == old.windows_archive
        &&& self.unix_archive == old.unix_archive
        &&& self.npm_package == old.npm_package
        &&& self.npm_scope == old.npm_scope
        &&& self.checksum == old.checksum
        &&& self.precise_builds == old.precise_builds
        &&& self.merge_tasks == old.merge_tasks
        &&& self.fail_fast == old.fail_fast
        &&& self.cache_builds == old.cache_builds
        &&& self.build_local_artifacts == old.build_local_artifacts
        &&& self.dispatch_releases == old.dispatch_releases
        &&& self.release_branch == old.release_branch
        &&& self.install_path == old.install_path
        &&& self.features == old.features
        &&& self.default_features == old.default_features
        &&& self.all_features == old.all_features
        &&& self.plan_jobs == old.plan_jobs
        &&& self.local_artifacts_jobs == old.local_artifacts_jobs
        &&& self.global_artifacts_jobs == old.global_artifacts_jobs
        &&& self.source_tarball == old.source_tarball
        &&& self.host_jobs == old.host_jobs
        &&& self.publish_jobs == old.publish_jobs
        &&& self.post_announce_jobs == old.post_announce_jobs
        &&& self.publish_prereleases == old.publish_prereleases
        &&& self.force_latest == old.force_latest
        &&& self.create_release == old.create_release
        &&& self.github_releases_repo == old.github_releases_repo
        &&& self.github_releases_submodule_path == old.github_releases_submodule_path
        &&& self.github_release == old.github_release
        &&& self.ssldotcom_windows_sign == old.ssldotcom_windows_sign
        &&& self.macos_sign == old.macos_sign
        &&& self.github_attestations == old.github_attestations
        &&& self.hosting == old.hosting
        &&& self.extra_artifacts is Some == old.extra_artifacts is Some
        &&& self.extra_artifacts is Some ==> extras_joined(self.extra_artifacts->0@, old.extra_artifacts->0@, base)
        &&& self.github_custom_runners == old.github_custom_runners
        &&& self.github_custom_job_permissions == old.github_custom_job_permissions
        &&& self.github_action_commits == old.github_action_commits
        &&& self.bin_aliases == old.bin_aliases
        &&& self.tag_namespace == old.tag_namespace
        &&& self.install_updater == old.install_updater
        &&& self.always_use_latest_updater == old.always_use_latest_updater
        &&& self.display == old.display
        &&& self.display_name == old.display_name
        &&& self.package_libraries == old.package_libraries
        &&& self.install_libraries == old.install_libraries
        &&& self.github_build_setup == old.github_build_setup
        &&& self.mac_pkg_config == old.mac_pkg_config
        &&& self.min_glibc_version == old.min_glibc_version
        &&& self.cargo_auditable == old.cargo_auditable
        &&& self.cargo_cyclonedx == old.cargo_cyclonedx
        &&& self.omnibor == old.omnibor
    }

    /// The configured install paths are incompatible with each other:
    /// more than one, among them the cargo home
    pub open spec fn install_paths_conflict(self) -> bool {
        self.install_path matches Some(paths) && paths@.len() > 1 && exists|i: int|
            0 <= i < paths@.len() && #[trigger] paths@[i] == InstallPathStrategy::CargoHome
    }

    /// Apply the base path to any relative paths contained in this DistMetadata
    pub fn make_relative_to(&mut self, base_path: &str)
        ensures
            final(self).rebased_from(*old(self), base_path@),
    {
        if let Some(paths) = self.included_files.take() {
            self.included_files = Some(join_all(base_path, paths));
        }
        if let Some(extras) = self.extra_artifacts.take() {
            self.extra_artifacts = Some(join_working_dirs(base_path, extras));
        }
    }

    /// Determines whether the configured install paths are compatible with each other
    pub fn validate_install_paths(&self) -> (r: DistResult<()>)
        ensures
            r is Err <==> self.install_paths_conflict(),
            r matches Err(e) ==> e matches DistError::IncompatibleInstallPathConfiguration {  },
    {
        if let Some(paths) = &self.install_path {
            if paths.len() > 1 {
                let mut i: usize = 0;
                while i < paths.len()
                    invariant
                        i <= paths@.len(),
                        paths@.len() > 1,
                        self.install_path == Some(*paths),
                        forall|j: int| 0 <= j < i ==> paths@[j] != InstallPathStrategy::CargoHome,
                    decreases paths.len() - i,
                {
                    if let InstallPathStrategy::CargoHome = &paths[i] {
                        assert(paths@[i as int] == InstallPathStrategy::CargoHome);
                        return Err(DistError::IncompatibleInstallPathConfiguration {  });
                    }
                    i = i + 1;
                }
            }
        }
        Ok(())
    }

    /// Merge a workspace config into a package config (self)
    ///
    /// Settings that only the workspace may give are left as the package had
    /// them; the package's own value of such a setting is ignored.
    #[verifier::rlimit(50)]
    pub fn merge_workspace_config(&mut self, workspace_config: &Self, _package_manifest_path: &str)
        ensures
            final(self).merged_from(*old(self), *workspace_config),
    {
        // Merge non-global settings
        inherit_value(&mut self.dist, workspace_config.dist);
        inherit_copy_list(&mut self.installers, &workspace_config.installers);
        inherit_string(&mut self.install_success_msg, &workspace_config.install_success_msg);
        inherit_string(&mut self.tap, &workspace_config.tap);
        inherit_string(&mut self.formula, &workspace_config.formula);
        inherit_deps(&mut self.system_dependencies, &workspace_config.system_dependencies);
        inherit_strings(&mut self.targets, &workspace_config.targets);
        inherit_value(&mut self.auto_includes, workspace_config.auto_includes);
        inherit_value(&mut self.windows_archive, workspace_config.windows_archive);
        inherit_value(&mut self.unix_archive, workspace_config.unix_archive);
        inherit_string(&mut self.npm_package, &workspace_config.npm_package);
        inherit_string(&mut self.npm_scope, &workspace_config.npm_scope);
        inherit_value(&mut self.checksum, workspace_config.checksum);
        inherit_install_paths(&mut self.install_path, &workspace_config.install_path);
        inherit_strings(&mut self.features, &workspace_config.features);
        inherit_value(&mut self.default_features, workspace_config.default_features);
        inherit_value(&mut self.all_features, workspace_config.all_features);
        inherit_extras(&mut self.extra_artifacts, &workspace_config.extra_artifacts);
        inherit_map(&mut self.bin_aliases, &workspace_config.bin_aliases);
        inherit_value(&mut self.install_updater, workspace_config.install_updater);
        inherit_value(&mut self.always_use_latest_updater, workspace_config.always_use_latest_updater);
        inherit_value(&mut self.display, workspace_config.display);
        inherit_string(&mut self.display_name, &workspace_config.display_name);
        inherit_library_styles(&mut self.package_libraries, &workspace_config.package_libraries);
        inherit_library_styles(&mut self.install_libraries, &workspace_config.install_libraries);
        inherit_pkg_config(&mut self.mac_pkg_config, &workspace_config.mac_pkg_config);
        inherit_map(&mut self.min_glibc_version, &workspace_config.min_glibc_version);
        inherit_value(&mut self.cargo_auditable, workspace_config.cargo_auditable);
        inherit_value(&mut self.cargo_cyclonedx, workspace_config.cargo_cyclonedx);
        inherit_value(&mut self.omnibor, workspace_config.omnibor);

        // This was historically implemented as extend, but I'm not convinced the
        // inconsistency is worth the inconvenience...
        if let Some(mine) = self.included_files.take() {
            match &workspace_config.included_files {
                Some(theirs) => {
                    self.included_files = Some(append_clones(mine, theirs));
                },
                None => {
                    self.included_files = Some(mine);
                },
            }
        } else {
            self.included_files = match &workspace_config.included_files {
                Some(v) => Some(clone_strings(v)),
                None => None,
            };
        }
    }
}

impl Clone for DistMetadata {
    fn clone(&self) -> (r: Self)
        ensures
            r.same_as(*self),
    {
        DistMetadata {
            cargo_dist_version: clone_opt_version(&self.cargo_dist_version),
            cargo_dist_url_override: clone_opt_string(&self.cargo_dist_url_override),
            rust_toolchain_version: clone_opt_string(&self.rust_toolchain_version),
            dist: self.dist,
            ci: match &self.ci {
                Some(v) => Some(copy_list(v)),
                None => None,
            },
            pr_run_mode: self.pr_run_mode,
            allow_dirty: match &self.allow_dirty {
                Some(v) => Some(copy_list(v)),
                None => None,
            },
            installers: match &self.installers {
                Some(v) => Some(copy_list(v)),
                None => None,
            },
            install_success_msg: clone_opt_string(&self.install_success_msg),
            tap: clone_opt_string(&self.tap),
            formula: clone_opt_string(&self.formula),
            system_dependencies: match &self.system_dependencies {
                Some(v) => Some(v.clone()),
                None => None,
            },
            targets: match &self.targets {
                Some(v) => Some(clone_strings(v)),
                None => None,
            },
            included_files: match &self.included_files {
                Some(v) => Some(clone_strings(v)),
                None => None,
            },
            auto_includes: self.auto_includes,
            msvc_crt_static: self.msvc_crt_static,
            windows_archive: self.windows_archive,
            unix_archive: self.unix_archive,
            npm_package: clone_opt_string(&self.npm_package),
            npm_scope: clone_opt_string(&self.npm_scope),
            checksum: self.checksum,
            precise_builds: self.precise_builds,
            merge_tasks: self.merge_tasks,
            fail_fast: self.fail_fast,
            cache_builds: self.cache_builds,
            build_local_artifacts: self.build_local_artifacts,
            dispatch_releases: self.dispatch_releases,
            release_branch: clone_opt_string(&self.release_branch),
            install_path: match &self.install_path {
                Some(v) => Some(clone_install_paths(v)),
                None => None,
            },
            features: match &self.features {
                Some(v) => Some(clone_strings(v)),
                None => None,
            },
            default_features: self.default_features,
            all_features: self.all_features,
            plan_jobs: match &self.plan_jobs {
                Some(v) => Some(clone_jobs(v)),
                None => None,
            },
            local_artifacts_jobs: match &self.local_artifacts_jobs {
                Some(v) => Some(clone_jobs(v)),
                None => None,
            },
            global_artifacts_jobs: match &self.global_artifacts_jobs {
                Some(v) => Some(clone_jobs(v)),
                None => None,
            },
            source_tarball: self.source_tarball,
            host_jobs: match &self.host_jobs {
                Some(v) => Some(clone_jobs(v)),
                None => None,
            },
            publish_jobs: match &self.publish_jobs {
                Some(v) => Some(clone_publish_styles(v)),
                None => None,
            },
            post_announce_jobs: match &self.post_announce_jobs {
                Some(v) => Some(clone_jobs(v)),
                None => None,
            },
            publish_prereleases: self.publish_prereleases,
            force_latest: self.force_latest,
            create_release: self.create_release,
            github_releases_repo: match &self.github_releases_repo {
                Some(v) => Some(v.clone()),
                None => None,
            },
            github_releases_submodule_path: clone_opt_string(&self.github_releases_submodule_path),
            github_release: self.github_release,
            ssldotcom_windows_sign: self.ssldotcom_windows_sign,
            macos_sign: self.macos_sign,
            github_attestations: self.github_attestations,
            hosting: match &self.hosting {
                Some(v) => Some(copy_list(v)),
                None => None,
            },
            extra_artifacts: match &self.extra_artifacts {
                Some(v) => Some(clone_extras(v)),
                None => None,
            },
            github_custom_runners: match &self.github_custom_runners {
                Some(v) => Some(clone_runner_settings(v)),
                None => None,
            },
            github_custom_job_permissions: match &self.github_custom_job_permissions {
                Some(v) => Some(v.clone()),
                None => None,
            },
            github_action_commits: match &self.github_action_commits {
                Some(v) => Some(v.clone()),
                None => None,
            },
            bin_aliases: match &self.bin_aliases {
                Some(v) => Some(v.clone()),
                None => None,
            },
            tag_namespace: clone_opt_string(&self.tag_namespace),
            install_updater: self.install_updater,
            always_use_latest_updater: self.always_use_latest_updater,
            display: self.display,
            display_name: clone_opt_string(&self.display_name),
            package_libraries: match &self.package_libraries {
                Some(v) => Some(clone_library_styles(v)),
                None => None,
            },
            install_libraries: match &self.install_libraries {
                Some(v) => Some(clone_library_styles(v)),
                None => None,
            },
            github_build_setup: clone_opt_string(&self.github_build_setup),
            mac_pkg_config: match &self.mac_pkg_config {
                Some(v) => Some(v.clone()),
                None => None,
            },
            min_glibc_version: match &self.min_glibc_version {
                Some(v) => Some(v.clone()),
                None => None,
            },
            cargo_auditable: self.cargo_auditable,
            cargo_cyclonedx: self.cargo_cyclonedx,
            omnibor: self.omnibor,
        }
    }
}

impl Default for DistMetadata {
    /// Nothing set
    fn default() -> (r: Self)
        ensures
            r.is_unset(),
    {
        DistMetadata {
            cargo_dist_version: None,
            cargo_dist_url_override: None,
            rust_toolchain_version: None,
            dist: None,
            ci: None,
            pr_run_mode: None,
            allow_dirty: None,
            installers: None,
            install_success_msg: None,
            tap: None,
            formula: None,
            system_dependencies: None,
            targets: None,
            included_files: None,
            auto_includes: None,
            msvc_crt_static: None,
            windows_archive: None,
            unix_archive: None,
            npm_package: None,
            npm_scope: None,
            checksum: None,
            precise_builds: None,
            merge_tasks: None,
            fail_fast: None,
            cache_builds: None,
            build_local_artifacts: None,
            dispatch_releases: None,
            release_branch: None,
            install_path: None,
            features: None,
            default_features: None,
            all_features: None,
            plan_jobs: None,
            local_artifacts_jobs: None,
            global_artifacts_jobs: None,
            source_tarball: None,
            host_jobs: None,
            publish_jobs: None,
            post_announce_jobs: None,
            publish_prereleases: None,
            force_latest: None,
            create_release: None,
            github_releases_repo: None,
            github_releases_submodule_path: None,
            github_release: None,
            ssldotcom_windows_sign: None,
            macos_sign: None,
            github_attestations: None,
            hosting: None,
            extra_artifacts: None,
            github_custom_runners: None,
            github_custom_job_permissions: None,
            github_action_commits: None,
            bin_aliases: None,
            tag_namespace: None,
            install_updater: None,
            always_use_latest_updater: None,
            display: None,
            display_name: None,
            package_libraries: None,
            install_libraries: None,
            github_build_setup: None,
            mac_pkg_config: None,
            min_glibc_version: None,
            cargo_auditable: None,
            cargo_cyclonedx: None,
            omnibor: None,
        }
    }
}

/// A package setting, or the workspace's when the package leaves it unset
pub open spec fn inherited<T>(pkg: Option<T>, ws: Option<T>) -> Option<T> {
    match pkg {
        Some(v) => Some(v),
        None => ws,
    }
}

/// Take the workspace's value of a plain setting the package leaves unset
fn inherit_value<T: Copy>(cur: &mut Option<T>, ws: Option<T>)
    ensures
        *final(cur) == inherited(*old(cur), ws),
{
    if cur.is_none() {
        *cur = ws;
    }
}

/// Take the workspace's text setting when the package leaves it unset
fn inherit_string(cur: &mut Option<String>, ws: &Option<String>)
    ensures
        *final(cur) == inherited(*old(cur), *ws),
{
    if cur.is_none() {
        *cur = clone_opt_string(ws);
    }
}

/// Take the workspace's map setting when the package leaves it unset
fn inherit_map<K: Clone, V: Clone>(cur: &mut Option<BTreeMap<K, V>>, ws: &Option<BTreeMap<K, V>>)
    ensures
        if (*old(cur)) is Some {
            *final(cur) == *old(cur)
        } else {
            same_map(*final(cur), *ws)
        },
{
    if cur.is_none() {
        *cur = match ws {
            Some(m) => Some(m.clone()),
            None => None,
        };
    }
}

/// Take the workspace's system dependencies when the package gives none
fn inherit_deps(cur: &mut Option<SystemDependencies>, ws: &Option<SystemDependencies>)
    ensures
        if (*old(cur)) is Some {
            *final(cur) == *old(cur)
        } else {
            same_deps(*final(cur), *ws)
        },
{
    if cur.is_none() {
        *cur = match ws {
            Some(d) => Some(d.clone()),
            None => None,
        };
    }
}

/// Take the workspace's extra artifacts when the package gives none
fn inherit_extras(cur: &mut Option<Vec<ExtraArtifact>>, ws: &Option<Vec<ExtraArtifact>>)
    ensures
        if (*old(cur)) is Some {
            *final(cur) == *old(cur)
        } else {
            same_extra_list(*final(cur), *ws)
        },
{
    if cur.is_none() {
        *cur = match ws {
            Some(v) => Some(clone_extras(v)),
            None => None,
        };
    }
}

/// Take the workspace's pkg installer config when the package gives none
fn inherit_pkg_config(cur: &mut Option<MacPkgConfig>, ws: &Option<MacPkgConfig>)
    ensures
        *final(cur) == inherited(*old(cur), *ws),
{
    if cur.is_none() {
        *cur = match ws {
            Some(c) => Some(c.clone()),
            None => None,
        };
    }
}

/// Take the workspace's list of plain values when the package gives none
fn inherit_copy_list<T: Copy>(cur: &mut Option<Vec<T>>, ws: &Option<Vec<T>>)
    ensures
        if (*old(cur)) is Some {
            *final(cur) == *old(cur)
        } else {
            same_list(*final(cur), *ws)
        },
{
    if cur.is_none() {
        *cur = match ws {
            Some(v) => Some(copy_list(v)),
            None => None,
        };
    }
}

/// Take the workspace's list of strings when the package gives none
fn inherit_strings(cur: &mut Option<Vec<String>>, ws: &Option<Vec<String>>)
    ensures
        if (*old(cur)) is Some {
            *final(cur) == *old(cur)
        } else {
            same_list(*final(cur), *ws)
        },
{
    if cur.is_none() {
        *cur = match ws {
            Some(v) => Some(clone_strings(v)),
            None => None,
        };
    }
}

/// Take the workspace's install paths when the package gives none
fn inherit_install_paths(cur: &mut Option<Vec<InstallPathStrategy>>, ws: &Option<Vec<InstallPathStrategy>>)
    ensures
        if (*old(cur)) is Some {
            *final(cur) == *old(cur)
        } else {
            same_list(*final(cur), *ws)
        },
{
    if cur.is_none() {
        *cur = match ws {
            Some(v) => Some(clone_install_paths(v)),
            None => None,
        };
    }
}

/// Take the workspace's library kinds when the package gives none
fn inherit_library_styles(cur: &mut Option<Vec<LibraryStyle>>, ws: &Option<Vec<LibraryStyle>>)
    ensures
        if (*old(cur)) is Some {
            *final(cur) == *old(cur)
        } else {
            same_list(*final(cur), *ws)
        },
{
    if cur.is_none() {
        *cur = match ws {
            Some(v) => Some(clone_library_styles(v)),
            None => None,
        };
    }
}

/// `mine` with copies of `theirs` added after it
fn append_clones(mine: Vec<String>, theirs: &Vec<String>) -> (r: Vec<String>)
    ensures
        r@ == mine@ + theirs@,
{
    let mut out = mine;
    let ghost start = out@;
    let mut i: usize = 0;
    while i < theirs.len()
        invariant
            i <= theirs@.len(),
            out@ == start + theirs@.take(i as int),
        decreases theirs.len() - i,
    {
        out.push(theirs[i].clone());
        proof {
            assert(theirs@.take(i + 1) == theirs@.take(i as int).push(theirs@[i as int]));
        }
        i = i + 1;
    }
    assert(theirs@.take(theirs.len() as int) == theirs@);
    out
}

/// Each path adjoined to `base`
pub open spec fn joined_paths(paths: Seq<Seq<char>>, base: Seq<char>) -> Seq<Seq<char>> {
    paths.map_values(|p: Seq<char>| joined_path(base, p))
}

/// `new` holds the extra artifacts of `old`, with their working dirs
/// adjoined to `base`
pub open spec fn extras_joined(new: Seq<ExtraArtifact>, old: Seq<ExtraArtifact>, base: Seq<char>) -> bool {
    &&& new.len() == old.len()
    &&& forall|i: int|
        0 <= i < new.len() ==> (#[trigger] new[i]).command == old[i].command
            && new[i].artifact_relpaths == old[i].artifact_relpaths && new[i].working_dir@
            == joined_path(base, old[i].working_dir@)
}

/// Each path adjoined to `base_path`, in order
fn join_all(base_path: &str, paths: Vec<String>) -> (r: Vec<String>)
    ensures
        texts_view(r@) == joined_paths(texts_view(paths@), base_path@),
{
    let ghost orig = texts_view(paths@);
    let mut rest = paths;
    let mut out: Vec<String> = Vec::new();
    while rest.len() > 0
        invariant
            rest@.len() <= orig.len(),
            texts_view(rest@) == orig.skip(orig.len() - rest@.len()),
            texts_view(out@) == joined_paths(orig.take(orig.len() - rest@.len()), base_path@),
        decreases rest@.len(),
    {
        let ghost k = orig.len() - rest@.len();
        let ghost before_rest = rest@;
        let p = rest.remove(0);
        proof {
            assert(orig[k] == texts_view(before_rest)[0]);
            assert(texts_view(rest@) =~= texts_view(before_rest).skip(1));
            assert(orig.skip(k + 1) =~= orig.skip(k).skip(1));
        }
        let ghost before_out = out@;
        let q = path_join(base_path, p.as_str());
        out.push(q);
        proof {
            assert(texts_view(out@) =~= texts_view(before_out).push(q@));
            assert(orig.take(k + 1) =~= orig.take(k).push(orig[k]));
            assert(joined_paths(orig.take(k + 1), base_path@) =~= joined_paths(orig.take(k), base_path@).push(
                joined_path(base_path@, orig[k]),
            ));
        }
    }
    assert(orig.take(orig.len() as int) =~= orig);
    out
}

/// The working dir of each extra artifact adjoined to `base_path`
///
/// (by default it's empty and this just sets the working dir to base_path),
/// but not the paths to the artifacts, as those are relative to the working_dir.
fn join_working_dirs(base_path: &str, extras: Vec<ExtraArtifact>) -> (r: Vec<ExtraArtifact>)
    ensures
        extras_joined(r@, extras@, base_path@),
{
    let ghost orig = extras@;
    let mut rest = extras;
    let mut out: Vec<ExtraArtifact> = Vec::new();
    while rest.len() > 0
        invariant
            rest@.len() <= orig.len(),
            rest@ == orig.skip(orig.len() - rest@.len()),
            extras_joined(out@, orig.take(orig.len() - rest@.len()), base_path@),
        decreases rest@.len(),
    {
        let ghost k = orig.len() - rest@.len();
        let extra = rest.remove(0);
        proof {
            assert(orig[k] == extra);
        }
        let ExtraArtifact { working_dir, command, artifact_relpaths } = extra;
        out.push(
            ExtraArtifact {
                working_dir: path_join(base_path, working_dir.as_str()),
                command,
                artifact_relpaths,
            },
        );
        proof {
            assert(orig.skip(k + 1) == orig.skip(k).remove(0));
            assert(orig.take(k + 1) == orig.take(k).push(orig[k]));
        }
    }
    assert(orig.take(orig.len() as int) == orig);
    out
}

} // verus!
